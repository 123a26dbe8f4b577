//! Diagnostics as inline markup.

use vstd::prelude::*;

verus! {

/// The inline markup that stands for `text`, a text that may hold colour
/// escape sequences; `None` where an escape sequence in it is malformed.
pub uninterp spec fn inline_markup(text: Seq<char>) -> Option<Seq<char>>;

/// The error of `ansi_to_html`. Nothing is read from it.
#[verifier::external_type_specification]
#[verifier::external_body]
pub struct ExAnsiError(ansi_to_html::Error);

/// `ansi_to_html::convert_escaped` escapes the characters that are special in
/// HTML and turns colour escape sequences into tags, or fails on a sequence
/// that it cannot parse. The contract only gives its result a name.
pub assume_specification[ ansi_to_html::convert_escaped ](ansi_string: &str) -> (r: Result<
    String,
    ansi_to_html::Error,
>)
    ensures
        match r {
            Ok(html) => inline_markup(ansi_string@) == Some(html@),
            Err(_) => inline_markup(ansi_string@) is None,
        },
;

} // verus!
