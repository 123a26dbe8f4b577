//! Why a document is not rewritten.

use vstd::prelude::*;

verus! {

/// What stops the rewriting of a document. Each is final: nothing of the
/// document is written once one has come up.
#[derive(Clone, Debug, PartialEq, Eq)]
pub enum RewriteError {
    /// A sample that is to be evaluated does not compile.
    CompileFailed { source: String, diagnostic: String },
    /// A sample that is to show an error compiles.
    UnexpectedSuccess { source: String, sql: String },
    /// The diagnostic of a sample cannot be shown as inline markup.
    BadDiagnostic { source: String, diagnostic: String },
    /// The document is asked for before all its events are dealt with.
    Unfinished,
    /// The rewritten events cannot be written as a document.
    Unwritable,
}

/// A `RewriteError` over sequences of characters.
pub enum RewriteErrorView {
    CompileFailed { source: Seq<char>, diagnostic: Seq<char> },
    UnexpectedSuccess { source: Seq<char>, sql: Seq<char> },
    BadDiagnostic { source: Seq<char>, diagnostic: Seq<char> },
    Unfinished,
    Unwritable,
}

impl View for RewriteError {
    type V = RewriteErrorView;

    open spec fn view(&self) -> RewriteErrorView {
        match self {
            RewriteError::CompileFailed { source, diagnostic } => RewriteErrorView::CompileFailed {
                source: source@,
                diagnostic: diagnostic@,
            },
            RewriteError::UnexpectedSuccess { source, sql } => RewriteErrorView::UnexpectedSuccess {
                source: source@,
                sql: sql@,
            },
            RewriteError::BadDiagnostic { source, diagnostic } => RewriteErrorView::BadDiagnostic {
                source: source@,
                diagnostic: diagnostic@,
            },
            RewriteError::Unfinished => RewriteErrorView::Unfinished,
            RewriteError::Unwritable => RewriteErrorView::Unwritable,
        }
    }
}

/// Opens the message for a sample that does not compile.
pub const COMPILE_FAILED: &'static str = "Query was labeled to compile, but failed.\n";

/// Opens the message for a sample that compiles against its label.
pub const UNEXPECTED_SUCCESS: &'static str =
    "Query was labeled to raise an error, but succeeded.\n";

/// Opens the message for a diagnostic that cannot be shown.
pub const BAD_DIAGNOSTIC: &'static str = "Diagnostic of a query cannot be shown as markup.\n";

/// The message for a document that is asked for too early.
pub const UNFINISHED: &'static str = "Document is not rewritten to its end.\n";

/// The message for events that cannot be written.
pub const UNWRITABLE: &'static str = "Rewritten document cannot be written.\n";

/// Stands between the sample and what the compiler made of it, and after.
pub const GAP: &'static str = "\n\n";

/// A message about the sample `source` and what the compiler made of it.
pub open spec fn about(opening: Seq<char>, source: Seq<char>, made: Seq<char>) -> Seq<char> {
    opening + source + GAP@ + made + GAP@
}

/// The message that describes `error`.
pub open spec fn message_of(error: RewriteErrorView) -> Seq<char> {
    match error {
        RewriteErrorView::CompileFailed { source, diagnostic } => about(
            COMPILE_FAILED@,
            source,
            diagnostic,
        ),
        RewriteErrorView::UnexpectedSuccess { source, sql } => about(
            UNEXPECTED_SUCCESS@,
            source,
            sql,
        ),
        RewriteErrorView::BadDiagnostic { source, diagnostic } => about(
            BAD_DIAGNOSTIC@,
            source,
            diagnostic,
        ),
        RewriteErrorView::Unfinished => UNFINISHED@,
        RewriteErrorView::Unwritable => UNWRITABLE@,
    }
}

fn describe(opening: &str, source: &str, made: &str) -> (r: String)
    ensures
        r@ == about(opening@, source@, made@),
{
    let mut out = String::from_str(opening);
    out.append(source);
    out.append(GAP);
    out.append(made);
    out.append(GAP);
    out
}

impl RewriteError {
    /// A message for the reader: what went wrong, then the sample and what
    /// the compiler made of it.
    pub fn message(&self) -> (r: String)
        ensures
            r@ == message_of(self@),
    {
        match self {
            RewriteError::CompileFailed { source, diagnostic } => describe(
                COMPILE_FAILED,
                source.as_str(),
                diagnostic.as_str(),
            ),
            RewriteError::UnexpectedSuccess { source, sql } => describe(
                UNEXPECTED_SUCCESS,
                source.as_str(),
                sql.as_str(),
            ),
            RewriteError::BadDiagnostic { source, diagnostic } => describe(
                BAD_DIAGNOSTIC,
                source.as_str(),
                diagnostic.as_str(),
            ),
            RewriteError::Unfinished => String::from_str(UNFINISHED),
            RewriteError::Unwritable => String::from_str(UNWRITABLE),
        }
    }
}

} // verus!
