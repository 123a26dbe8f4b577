//! The two-pane block that replaces a sample: the sample on the left, what
//! the compiler made of it on the right.

use crate::text::{trim, trimmed};
use vstd::prelude::*;

verus! {

/// Opens the block and its left pane.
pub const PANEL_OPEN: &'static str = "<div class=\"comparison\">\n\n<div>\n\n";

/// Closes the left pane and opens the right one.
pub const PANE_BREAK: &'static str = "\n```\n\n</div>\n\n<div>\n\n";

/// Closes the right pane and the block.
pub const PANEL_CLOSE: &'static str = "\n```\n\n</div>\n\n</div>\n";

/// Opens a fence; its label follows.
pub const FENCE: &'static str = "```";

/// Ends the line of a fence label.
pub const NEWLINE: &'static str = "\n";

/// The label of a pane that shows PRQL; also the label under which a sample
/// that is not evaluated is shown.
pub const PRQL_TITLE: &'static str = "prql title=\"PRQL\"";

/// The label of a pane that shows SQL.
pub const SQL_TITLE: &'static str = "sql title=\"SQL\"";

/// The label of a pane that shows a diagnostic.
pub const ERROR_TITLE: &'static str = "text title=\"Error\"";

/// The label of a pane that shows the rows of a query.
pub const TABLE_TITLE: &'static str = "text title=\"Table\"";

/// One pane: a fence with `label` around `text`, still open at the end.
pub open spec fn pane(label: Seq<char>, text: Seq<char>) -> Seq<char> {
    FENCE@ + label + NEWLINE@ + text
}

/// The block with `left` under `left_label` in its left pane and `right`
/// under `right_label` in its right pane.
pub open spec fn panel(
    left_label: Seq<char>,
    left: Seq<char>,
    right_label: Seq<char>,
    right: Seq<char>,
) -> Seq<char> {
    PANEL_OPEN@ + pane(left_label, left) + PANE_BREAK@ + pane(right_label, right) + PANEL_CLOSE@
}

/// The block that shows the sample `prql` beside the SQL `sql`.
pub open spec fn comparison(prql: Seq<char>, sql: Seq<char>) -> Seq<char> {
    panel(PRQL_TITLE@, trimmed(prql), SQL_TITLE@, trimmed(sql))
}

/// The block that shows the sample `prql` beside the diagnostic `message`.
pub open spec fn error_report(prql: Seq<char>, message: Seq<char>) -> Seq<char> {
    panel(PRQL_TITLE@, trimmed(prql), ERROR_TITLE@, trimmed(message))
}

/// The block that shows the sample `prql` beside `rows`, the rows that it
/// yields: the sample without the white space around it, the rows as they
/// are.
pub open spec fn table_report(prql: Seq<char>, rows: Seq<char>) -> Seq<char> {
    panel(PRQL_TITLE@, trimmed(prql), TABLE_TITLE@, rows)
}

/// Appends one pane to `out`.
fn push_pane(out: &mut String, label: &str, text: &str)
    ensures
        final(out)@ == old(out)@ + pane(label@, text@),
{
    out.append(FENCE);
    out.append(label);
    out.append(NEWLINE);
    out.append(text);
    assert(final(out)@ =~= old(out)@ + pane(label@, text@));
}

/// The block with `left` and `right` in its panes, as they are.
fn two_panes(left_label: &str, left: &str, right_label: &str, right: &str) -> (r: String)
    ensures
        r@ == panel(left_label@, left@, right_label@, right@),
{
    let mut out = String::from_str(PANEL_OPEN);
    push_pane(&mut out, left_label, left);
    out.append(PANE_BREAK);
    push_pane(&mut out, right_label, right);
    out.append(PANEL_CLOSE);
    out
}

/// Shows the sample `prql` beside the SQL it compiles to, each without the
/// white space around it.
pub fn table_of_comparison(prql: &str, sql: &str) -> (r: String)
    ensures
        r@ == comparison(prql@, sql@),
{
    two_panes(PRQL_TITLE, trim(prql), SQL_TITLE, trim(sql))
}

/// Shows the sample `prql` beside the diagnostic it is rejected with, each
/// without the white space around it.
pub fn table_of_error(prql: &str, message: &str) -> (r: String)
    ensures
        r@ == error_report(prql@, message@),
{
    two_panes(PRQL_TITLE, trim(prql), ERROR_TITLE, trim(message))
}

/// Shows the sample `prql`, without the white space around it, beside
/// `rows`, the rows it yields, which are taken as they are.
pub fn table_of_rows(prql: &str, rows: &str) -> (r: String)
    ensures
        r@ == table_report(prql@, rows@),
{
    two_panes(PRQL_TITLE, trim(prql), TABLE_TITLE, rows)
}

} // verus!
