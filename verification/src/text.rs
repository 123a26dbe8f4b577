//! White space and trimming, over sequences of characters.

use vstd::prelude::*;

verus! {

/// The characters with the Unicode property `White_Space`.
pub open spec fn is_whitespace(c: char) -> bool {
    let n = c as u32;
    ||| 0x09 <= n <= 0x0D
    ||| n == 0x20
    ||| n == 0x85
    ||| n == 0xA0
    ||| n == 0x1680
    ||| 0x2000 <= n <= 0x200A
    ||| n == 0x2028
    ||| n == 0x2029
    ||| n == 0x202F
    ||| n == 0x205F
    ||| n == 0x3000
}

/// How many white-space characters stand at the front of `s`.
pub open spec fn leading_blank(s: Seq<char>) -> nat
    decreases s.len(),
{
    if s.len() > 0 && is_whitespace(s.first()) {
        1 + leading_blank(s.drop_first())
    } else {
        0
    }
}

/// How many white-space characters stand at the back of `s`.
pub open spec fn trailing_blank(s: Seq<char>) -> nat
    decreases s.len(),
{
    if s.len() > 0 && is_whitespace(s.last()) {
        1 + trailing_blank(s.drop_last())
    } else {
        0
    }
}

/// `s` without the white space at its front and at its back.
pub open spec fn trimmed(s: Seq<char>) -> Seq<char> {
    if leading_blank(s) == s.len() {
        Seq::empty()
    } else {
        s.subrange(leading_blank(s) as int, s.len() - trailing_blank(s))
    }
}

/// The front of `s` is blank up to `k` and no further.
pub proof fn lemma_leading_blank(s: Seq<char>, k: int)
    requires
        0 <= k <= s.len(),
        forall|j: int| 0 <= j < k ==> is_whitespace(#[trigger] s[j]),
        k < s.len() ==> !is_whitespace(s[k]),
    ensures
        leading_blank(s) == k,
    decreases k,
{
    if k > 0 {
        let rest = s.drop_first();
        assert forall|j: int| 0 <= j < k - 1 implies is_whitespace(#[trigger] rest[j]) by {
            assert(rest[j] == s[j + 1]);
        }
        lemma_leading_blank(rest, k - 1);
    }
}

/// The back of `s` is blank from `k` on and no earlier.
pub proof fn lemma_trailing_blank(s: Seq<char>, k: int)
    requires
        0 <= k <= s.len(),
        forall|j: int| k <= j < s.len() ==> is_whitespace(#[trigger] s[j]),
        k > 0 ==> !is_whitespace(s[k - 1]),
    ensures
        trailing_blank(s) == s.len() - k,
    decreases s.len() - k,
{
    if k < s.len() {
        let rest = s.drop_last();
        assert forall|j: int| k <= j < rest.len() implies is_whitespace(#[trigger] rest[j]) by {
            assert(rest[j] == s[j]);
        }
        lemma_trailing_blank(rest, k);
    }
}

/// Whether `s` holds white space only.
pub open spec fn is_blank(s: Seq<char>) -> bool {
    forall|i: int| 0 <= i < s.len() ==> is_whitespace(#[trigger] s[i])
}

/// The blank front of `s` ends at the first character that is no white
/// space, or at the end of `s`.
pub proof fn lemma_leading_blank_ends(s: Seq<char>)
    ensures
        leading_blank(s) <= s.len(),
        forall|j: int| 0 <= j < leading_blank(s) ==> is_whitespace(#[trigger] s[j]),
        leading_blank(s) < s.len() ==> !is_whitespace(s[leading_blank(s) as int]),
    decreases s.len(),
{
    if s.len() > 0 && is_whitespace(s.first()) {
        let rest = s.drop_first();
        lemma_leading_blank_ends(rest);
        assert forall|j: int| 0 <= j < leading_blank(s) implies is_whitespace(#[trigger] s[j]) by {
            if j > 0 {
                assert(s[j] == rest[j - 1]);
            }
        }
        if leading_blank(s) < s.len() {
            assert(s[leading_blank(s) as int] == rest[leading_blank(rest) as int]);
        }
    }
}

/// The blank back of `s` begins after the last character that is no white
/// space, or at the start of `s`.
pub proof fn lemma_trailing_blank_begins(s: Seq<char>)
    ensures
        trailing_blank(s) <= s.len(),
        forall|j: int| s.len() - trailing_blank(s) <= j < s.len() ==> is_whitespace(#[trigger] s[j]),
        trailing_blank(s) < s.len() ==> !is_whitespace(s[s.len() - trailing_blank(s) - 1]),
    decreases s.len(),
{
    if s.len() > 0 && is_whitespace(s.last()) {
        let rest = s.drop_last();
        lemma_trailing_blank_begins(rest);
        assert forall|j: int| s.len() - trailing_blank(s) <= j < s.len() implies is_whitespace(
            #[trigger] s[j],
        ) by {
            if j < s.len() - 1 {
                assert(s[j] == rest[j]);
            }
        }
        if trailing_blank(s) < s.len() {
            assert(s[s.len() - trailing_blank(s) - 1] == rest[rest.len() - trailing_blank(rest) - 1]);
        }
    }
}

/// What trimming does: `s` is a blank front, then `trimmed(s)`, then a blank
/// back; and `trimmed(s)` neither begins nor ends with white space. It is
/// empty exactly where `s` is blank.
pub proof fn law_trimmed_is_tight(s: Seq<char>)
    ensures
        trimmed(s).len() == 0 <==> is_blank(s),
        trimmed(s).len() > 0 ==> !is_whitespace(trimmed(s).first()) && !is_whitespace(
            trimmed(s).last(),
        ),
        !is_blank(s) ==> {
            &&& leading_blank(s) + trailing_blank(s) < s.len()
            &&& is_blank(s.take(leading_blank(s) as int))
            &&& is_blank(s.skip(s.len() - trailing_blank(s)))
            &&& s == s.take(leading_blank(s) as int) + trimmed(s) + s.skip(
                s.len() - trailing_blank(s),
            )
        },
{
    lemma_leading_blank_ends(s);
    lemma_trailing_blank_begins(s);
    let from = leading_blank(s) as int;
    let to = s.len() - trailing_blank(s);
    if from < s.len() {
        assert(!is_blank(s)) by {
            assert(!is_whitespace(s[from]));
        }
        if to <= from {
            assert(is_whitespace(s[from]));
        }
        assert(trimmed(s).first() == s[from]);
        assert(trimmed(s).last() == s[to - 1]);
        assert(s =~= s.take(from) + trimmed(s) + s.skip(to));
    }
}

/// Whether `c` is white space.
pub fn whitespace(c: char) -> (r: bool)
    ensures
        r == is_whitespace(c),
{
    let n: u32 = c as u32;
    (0x09 <= n && n <= 0x0D) || n == 0x20 || n == 0x85 || n == 0xA0 || n == 0x1680 || (0x2000 <= n
        && n <= 0x200A) || n == 0x2028 || n == 0x2029 || n == 0x202F || n == 0x205F || n == 0x3000
}

/// The part of `s` between its leading and its trailing white space.
pub fn trim(s: &str) -> (r: &str)
    ensures
        r@ == trimmed(s@),
{
    let len: usize = s.unicode_len();
    let mut found: bool = false;
    let mut first: usize = 0;
    let mut end: usize = 0;
    let mut i: usize = 0;
    for c in it: s.chars()
        invariant
            it.seq() == s@,
            s@.len() == len,
            i == it.index(),
            !found ==> forall|j: int| 0 <= j < i ==> is_whitespace(#[trigger] s@[j]),
            found ==> first < end <= i,
            found ==> forall|j: int| 0 <= j < first ==> is_whitespace(#[trigger] s@[j]),
            found ==> !is_whitespace(s@[first as int]),
            found ==> !is_whitespace(s@[end - 1]),
            found ==> forall|j: int| end <= j < i ==> is_whitespace(#[trigger] s@[j]),
    {
        if !whitespace(c) {
            if !found {
                found = true;
                first = i;
            }
            end = i + 1;
        }
        i = i + 1;
    }
    proof {
        if found {
            lemma_leading_blank(s@, first as int);
            lemma_trailing_blank(s@, end as int);
        } else {
            lemma_leading_blank(s@, len as int);
        }
    }
    if found {
        s.substring_char(first, end)
    } else {
        s.substring_char(0, 0)
    }
}

/// Whether `s` begins with `prefix`.
pub open spec fn has_prefix(s: Seq<char>, prefix: Seq<char>) -> bool {
    prefix.len() <= s.len() && s.subrange(0, prefix.len() as int) == prefix
}

/// Whether `s` begins with `prefix`.
pub fn starts_with(s: &str, prefix: &str) -> (r: bool)
    ensures
        r == has_prefix(s@, prefix@),
{
    let n: usize = prefix.unicode_len();
    if s.unicode_len() < n {
        return false;
    }
    let mut i: usize = 0;
    while i < n
        invariant
            i <= n,
            n == prefix@.len(),
            n <= s@.len(),
            s@.subrange(0, i as int) == prefix@.subrange(0, i as int),
        decreases n - i,
    {
        if s.get_char(i) != prefix.get_char(i) {
            assert(s@.subrange(0, n as int)[i as int] != prefix@[i as int]);
            return false;
        }
        assert(s@.subrange(0, i + 1) == s@.subrange(0, i as int).push(s@[i as int]));
        assert(prefix@.subrange(0, i + 1) == prefix@.subrange(0, i as int).push(prefix@[i as int]));
        i = i + 1;
    }
    assert(prefix@.subrange(0, n as int) == prefix@);
    true
}

/// Whether `a` and `b` hold the same characters.
pub fn same_text(a: &str, b: &str) -> (r: bool)
    ensures
        r == (a@ == b@),
{
    if a.unicode_len() != b.unicode_len() {
        return false;
    }
    let r = starts_with(a, b);
    assert(a@.subrange(0, b@.len() as int) == a@);
    r
}

/// `s` without `prefix` at its front, where it begins with it.
pub fn strip_prefix<'a>(s: &'a str, prefix: &str) -> (r: Option<&'a str>)
    ensures
        match r {
            Some(rest) => has_prefix(s@, prefix@) && rest@ == s@.skip(prefix@.len() as int),
            None => !has_prefix(s@, prefix@),
        },
{
    if starts_with(s, prefix) {
        Some(s.substring_char(prefix.unicode_len(), s.unicode_len()))
    } else {
        None
    }
}

} // verus!
