//! Rewrites documentation so that each embedded PRQL sample is shown beside
//! what the compiler makes of it: the SQL it compiles to, the diagnostic it is
//! rejected with, or the rows it yields.
//!
//! The library reads the document, decides what becomes of each event and
//! writes the document back. It calls neither the compiler nor the query
//! engine: the [`rewriter::Rewriter`] says which source it wants compiled and
//! which SQL it wants run, and its caller hands it the answers.

pub mod error;
pub mod event;
pub mod formatter;
pub mod laws;
pub mod machine;
pub mod markdown;
pub mod mode;
pub mod panel;
pub mod rewriter;
pub mod text;
