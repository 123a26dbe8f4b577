//! How a fenced block asks to be treated, read from its fence label.

use crate::text::{has_prefix, same_text, starts_with, strip_prefix};
use vstd::prelude::*;

verus! {

/// The tag that marks a fenced block as a PRQL sample.
pub const TAG: &'static str = "prql";

/// What stands before the mode in the label of a tagged fence.
pub const MODE_PREFIX: &'static str = "prql ";

/// What is done with a PRQL sample.
#[derive(Clone, Copy, Debug, PartialEq, Eq, Structural)]
pub enum PrqlBlockMode {
    /// Compiled, and shown beside its SQL.
    Eval,
    /// Compiled and run, and replaced by the rows it yields.
    Table,
    /// Shown as it stands.
    NoEval,
    /// Shown as it stands.
    NoTest,
    /// Must fail to compile, and is shown beside its diagnostic.
    Error,
}

/// Whether a fence with this label holds a PRQL sample.
pub open spec fn is_tagged(label: Seq<char>) -> bool {
    has_prefix(label, TAG@)
}

/// The part of a label that names the mode: what follows `prql ` and, where
/// the label does not begin so, nothing.
pub open spec fn mode_suffix(label: Seq<char>) -> Seq<char> {
    if has_prefix(label, MODE_PREFIX@) {
        label.skip(MODE_PREFIX@.len() as int)
    } else {
        Seq::empty()
    }
}

/// The mode that a label asks for. Every label has one: what names none of
/// the other four asks for `Eval`.
pub open spec fn mode_of(label: Seq<char>) -> PrqlBlockMode {
    let suffix = mode_suffix(label);
    if suffix == "no-eval"@ {
        PrqlBlockMode::NoEval
    } else if suffix == "no-test"@ {
        PrqlBlockMode::NoTest
    } else if suffix == "error"@ {
        PrqlBlockMode::Error
    } else if suffix == "table"@ {
        PrqlBlockMode::Table
    } else {
        PrqlBlockMode::Eval
    }
}

/// Whether a fence with this label holds a PRQL sample.
pub fn is_prql_fence(info: &str) -> (r: bool)
    ensures
        r == is_tagged(info@),
{
    starts_with(info, TAG)
}

/// The mode that the fence label `info` asks for.
pub fn prql_block_mode(info: &str) -> (r: Option<PrqlBlockMode>)
    ensures
        r == Some(mode_of(info@)),
{
    let suffix = match strip_prefix(info, MODE_PREFIX) {
        Some(rest) => rest,
        None => "",
    };
    proof {
        reveal_strlit("");
        assert(suffix@ == mode_suffix(info@));
    }
    if same_text(suffix, "no-eval") {
        Some(PrqlBlockMode::NoEval)
    } else if same_text(suffix, "no-test") {
        Some(PrqlBlockMode::NoTest)
    } else if same_text(suffix, "error") {
        Some(PrqlBlockMode::Error)
    } else if same_text(suffix, "table") {
        Some(PrqlBlockMode::Table)
    } else {
        Some(PrqlBlockMode::Eval)
    }
}

} // verus!
