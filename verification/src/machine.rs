//! The state machine that rewrites a document one event at a time. It makes
//! no call to the compiler or to the query engine: it says when their answer
//! is wanted, and what follows from each answer.

use crate::error::{RewriteError, RewriteErrorView};
use crate::event::{Emit, EmitView, Token, TokenView};
use crate::formatter::inline_markup;
use crate::mode::{is_prql_fence, is_tagged, mode_of, prql_block_mode, PrqlBlockMode};
use crate::panel::{
    comparison, error_report, table_of_comparison, table_of_error, table_of_rows, table_report,
    PRQL_TITLE,
};
use vstd::prelude::*;

verus! {

/// What stands in the place of the fence lines of a sample that is replaced
/// as a whole.
pub const PLACEHOLDER: &'static str = "\n";

/// Where the rewriter stands: outside any sample that it replaces, or inside
/// one, and then of which kind.
#[derive(Clone, Copy, Debug, PartialEq, Eq, Structural)]
pub enum BlockState {
    /// Outside: events pass untouched.
    Idle,
    /// Inside a sample that is shown beside its SQL.
    InEval,
    /// Inside a sample that is shown beside its diagnostic.
    InError,
    /// Inside a sample that is shown beside its rows.
    InTable,
}

/// What comes of one event.
#[derive(Clone, Debug, PartialEq, Eq)]
pub enum Outcome {
    /// The event is dealt with: the state after it, and what takes its place.
    Emitted(BlockState, Emit),
    /// The event is the text of a sample: what the compiler makes of this
    /// source is wanted.
    NeedsCompile(String),
}

/// An `Outcome` over sequences of characters.
pub enum OutcomeView {
    Emitted(BlockState, EmitView),
    NeedsCompile(Seq<char>),
}

impl View for Outcome {
    type V = OutcomeView;

    open spec fn view(&self) -> OutcomeView {
        match self {
            Outcome::Emitted(state, emit) => OutcomeView::Emitted(*state, emit@),
            Outcome::NeedsCompile(source) => OutcomeView::NeedsCompile(source@),
        }
    }
}

/// What comes of the text of a sample, once the compiler has answered.
#[derive(Clone, Debug, PartialEq, Eq)]
pub enum Verdict {
    /// The text is dealt with: the state after it, and what takes its place.
    Emitted(BlockState, Emit),
    /// The sample compiles, and its rows are wanted: the SQL to run.
    NeedsTable(String),
    /// The document cannot be rewritten.
    Failed(RewriteError),
}

/// A `Verdict` over sequences of characters.
pub enum VerdictView {
    Emitted(BlockState, EmitView),
    NeedsTable(Seq<char>),
    Failed(RewriteErrorView),
}

impl View for Verdict {
    type V = VerdictView;

    open spec fn view(&self) -> VerdictView {
        match self {
            Verdict::Emitted(state, emit) => VerdictView::Emitted(*state, emit@),
            Verdict::NeedsTable(sql) => VerdictView::NeedsTable(sql@),
            Verdict::Failed(error) => VerdictView::Failed(error@),
        }
    }
}

/// What the compiler made of a source, over sequences of characters: the
/// SQL, or the text of the diagnostic.
pub open spec fn answer_view(result: Result<String, String>) -> Result<Seq<char>, Seq<char>> {
    match result {
        Ok(sql) => Ok(sql@),
        Err(diagnostic) => Err(diagnostic@),
    }
}

/// The state inside a sample of mode `mode`; `Idle` for the modes whose
/// samples are not replaced.
pub open spec fn state_for(mode: PrqlBlockMode) -> BlockState {
    match mode {
        PrqlBlockMode::Eval => BlockState::InEval,
        PrqlBlockMode::Error => BlockState::InError,
        PrqlBlockMode::Table => BlockState::InTable,
        PrqlBlockMode::NoEval | PrqlBlockMode::NoTest => BlockState::Idle,
    }
}

/// A fence with `label` opens. A fence without the tag passes. A sample that
/// is not evaluated keeps its fence under the display title. Any other sample
/// loses its fence, and the state says which kind of sample has begun.
pub open spec fn opened(state: BlockState, label: Seq<char>) -> (BlockState, EmitView) {
    if !is_tagged(label) {
        (state, EmitView::Keep)
    } else if state_for(mode_of(label)) is Idle {
        (state, EmitView::FenceOpen(PRQL_TITLE@))
    } else {
        (state_for(mode_of(label)), EmitView::Text(PLACEHOLDER@))
    }
}

/// A code block closes. The end of a sample that was replaced is dropped,
/// and the rewriter is outside again; any other end passes.
pub open spec fn closed(state: BlockState) -> (BlockState, EmitView) {
    if state is Idle {
        (state, EmitView::Keep)
    } else {
        (BlockState::Idle, EmitView::Text(PLACEHOLDER@))
    }
}

/// What comes of the event `token` in `state`. A text inside a sample asks
/// for the compiler; every other event is dealt with at once.
pub open spec fn stepped(state: BlockState, token: TokenView) -> OutcomeView {
    match token {
        TokenView::FenceOpen(label) => OutcomeView::Emitted(
            opened(state, label).0,
            opened(state, label).1,
        ),
        TokenView::BlockClose => OutcomeView::Emitted(closed(state).0, closed(state).1),
        TokenView::Text(source) => if state is Idle {
            OutcomeView::Emitted(state, EmitView::Keep)
        } else {
            OutcomeView::NeedsCompile(source)
        },
        TokenView::Other => OutcomeView::Emitted(state, EmitView::Keep),
    }
}

/// The sample `source` is to be shown beside its SQL, and `result` is what
/// the compiler made of it.
pub open spec fn evaluated(source: Seq<char>, result: Result<Seq<char>, Seq<char>>) -> VerdictView {
    match result {
        Ok(sql) => VerdictView::Emitted(BlockState::InEval, EmitView::Html(comparison(source, sql))),
        Err(diagnostic) => VerdictView::Failed(
            RewriteErrorView::CompileFailed { source, diagnostic },
        ),
    }
}

/// The sample `source` is to be shown beside its rows, and `result` is what
/// the compiler made of it.
pub open spec fn tabulated(source: Seq<char>, result: Result<Seq<char>, Seq<char>>) -> VerdictView {
    match result {
        Ok(sql) => VerdictView::NeedsTable(sql),
        Err(diagnostic) => VerdictView::Failed(
            RewriteErrorView::CompileFailed { source, diagnostic },
        ),
    }
}

/// The sample `source` was rejected with `diagnostic`, and `markup` is the
/// diagnostic as inline markup, if it can be had.
pub open spec fn reported(
    source: Seq<char>,
    diagnostic: Seq<char>,
    markup: Option<Seq<char>>,
) -> VerdictView {
    match markup {
        Some(message) => VerdictView::Emitted(
            BlockState::InError,
            EmitView::Html(error_report(source, message)),
        ),
        None => VerdictView::Failed(RewriteErrorView::BadDiagnostic { source, diagnostic }),
    }
}

/// The sample `source` is to be shown beside its diagnostic, and `result` is
/// what the compiler made of it.
pub open spec fn rejected(source: Seq<char>, result: Result<Seq<char>, Seq<char>>) -> VerdictView {
    match result {
        Ok(sql) => VerdictView::Failed(RewriteErrorView::UnexpectedSuccess { source, sql }),
        Err(diagnostic) => reported(source, diagnostic, inline_markup(diagnostic)),
    }
}

/// What comes of the text `source` in `state`, once the compiler has made
/// `result` of it. Outside a sample the text passes, whatever the result.
pub open spec fn answered(
    state: BlockState,
    source: Seq<char>,
    result: Result<Seq<char>, Seq<char>>,
) -> VerdictView {
    match state {
        BlockState::Idle => VerdictView::Emitted(state, EmitView::Keep),
        BlockState::InEval => evaluated(source, result),
        BlockState::InError => rejected(source, result),
        BlockState::InTable => tabulated(source, result),
    }
}

/// The sample `source` yields `rows`: one panel takes its place, with the
/// rows as they are in its right pane.
pub open spec fn tabled(source: Seq<char>, rows: Seq<char>) -> (BlockState, EmitView) {
    (BlockState::InTable, EmitView::Html(table_report(source, rows)))
}

/// Deals with the opening of a fence with the label `label`.
pub fn open_fence(state: BlockState, label: &str) -> (r: (BlockState, Emit))
    ensures
        (r.0, r.1@) == opened(state, label@),
{
    if !is_prql_fence(label) {
        return (state, Emit::Keep);
    }
    match prql_block_mode(label) {
        Some(PrqlBlockMode::Eval) => (BlockState::InEval, Emit::Text(String::from_str(PLACEHOLDER))),
        Some(PrqlBlockMode::Table) => (
            BlockState::InTable,
            Emit::Text(String::from_str(PLACEHOLDER)),
        ),
        Some(PrqlBlockMode::Error) => (
            BlockState::InError,
            Emit::Text(String::from_str(PLACEHOLDER)),
        ),
        _ => (state, Emit::FenceOpen(String::from_str(PRQL_TITLE))),
    }
}

/// Deals with the end of a code block.
pub fn close_block(state: BlockState) -> (r: (BlockState, Emit))
    ensures
        (r.0, r.1@) == closed(state),
{
    match state {
        BlockState::Idle => (state, Emit::Keep),
        _ => (BlockState::Idle, Emit::Text(String::from_str(PLACEHOLDER))),
    }
}

/// Deals with one event: what takes its place and the state after it, or,
/// for the text of a sample, the source that the compiler is wanted for.
pub fn step(state: BlockState, token: &Token) -> (r: Outcome)
    ensures
        r@ == stepped(state, token@),
{
    match token {
        Token::FenceOpen(label) => {
            let (next, emit) = open_fence(state, label.as_str());
            Outcome::Emitted(next, emit)
        },
        Token::BlockClose => {
            let (next, emit) = close_block(state);
            Outcome::Emitted(next, emit)
        },
        Token::Text(source) => match state {
            BlockState::Idle => Outcome::Emitted(state, Emit::Keep),
            _ => Outcome::NeedsCompile(source.clone()),
        },
        Token::Other => Outcome::Emitted(state, Emit::Keep),
    }
}

/// Shows the sample `source` beside its SQL, where `result` holds it; fails
/// where `result` holds a diagnostic.
pub fn show_sql(source: &str, result: Result<String, String>) -> (r: Verdict)
    ensures
        r@ == evaluated(source@, answer_view(result)),
{
    match result {
        Ok(sql) => Verdict::Emitted(
            BlockState::InEval,
            Emit::Html(table_of_comparison(source, sql.as_str())),
        ),
        Err(diagnostic) => Verdict::Failed(
            RewriteError::CompileFailed { source: String::from_str(source), diagnostic },
        ),
    }
}

/// Asks for the rows of the SQL of the sample `source`, where `result` holds
/// it; fails where `result` holds a diagnostic.
pub fn want_rows(source: &str, result: Result<String, String>) -> (r: Verdict)
    ensures
        r@ == tabulated(source@, answer_view(result)),
{
    match result {
        Ok(sql) => Verdict::NeedsTable(sql),
        Err(diagnostic) => Verdict::Failed(
            RewriteError::CompileFailed { source: String::from_str(source), diagnostic },
        ),
    }
}

/// Shows the sample `source` beside the diagnostic it was rejected with,
/// where `markup` holds the diagnostic as inline markup; fails where it holds
/// none.
pub fn show_error(source: &str, diagnostic: String, markup: Option<String>) -> (r: Verdict)
    ensures
        r@ == reported(
            source@,
            diagnostic@,
            match markup {
                Some(message) => Some(message@),
                None => None,
            },
        ),
{
    match markup {
        Some(message) => Verdict::Emitted(
            BlockState::InError,
            Emit::Html(table_of_error(source, message.as_str())),
        ),
        None => Verdict::Failed(
            RewriteError::BadDiagnostic { source: String::from_str(source), diagnostic },
        ),
    }
}

/// Deals with a sample that is to show an error: fails where `result` holds
/// SQL, for then the sample compiles against its label; else shows the
/// sample beside the diagnostic, which is turned into inline markup first.
pub fn show_failure(source: &str, result: Result<String, String>) -> (r: Verdict)
    ensures
        r@ == rejected(source@, answer_view(result)),
{
    match result {
        Ok(sql) => Verdict::Failed(
            RewriteError::UnexpectedSuccess { source: String::from_str(source), sql },
        ),
        Err(diagnostic) => {
            let markup = match ansi_to_html::convert_escaped(diagnostic.as_str()) {
                Ok(message) => Some(message),
                Err(_) => None,
            };
            show_error(source, diagnostic, markup)
        },
    }
}

/// Deals with the text `source` in `state`, now that the compiler has made
/// `result` of it: what takes the place of the text, or the SQL whose rows
/// are wanted first, or why the document cannot be rewritten.
pub fn resume(state: BlockState, source: &str, result: Result<String, String>) -> (r: Verdict)
    ensures
        r@ == answered(state, source@, answer_view(result)),
{
    match state {
        BlockState::Idle => Verdict::Emitted(state, Emit::Keep),
        BlockState::InEval => show_sql(source, result),
        BlockState::InError => show_failure(source, result),
        BlockState::InTable => want_rows(source, result),
    }
}

/// Shows the sample `source` beside `rows`, the rows that its SQL yields.
pub fn show_rows(source: &str, rows: &str) -> (r: (BlockState, Emit))
    ensures
        (r.0, r.1@) == tabled(source@, rows@),
{
    (BlockState::InTable, Emit::Html(table_of_rows(source, rows)))
}

} // verus!
