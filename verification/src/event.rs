//! The events of a document, as far as the rewriter reads and writes them.

use vstd::prelude::*;

verus! {

/// What the rewriter reads of one event of a document.
#[derive(Clone, Debug, PartialEq, Eq)]
pub enum Token {
    /// A fenced code block opens; the field is the fence label.
    FenceOpen(String),
    /// A code block closes.
    BlockClose,
    /// A run of text; inside a code block, the block's content.
    Text(String),
    /// Any other event.
    Other,
}

/// A `Token` over sequences of characters.
pub enum TokenView {
    FenceOpen(Seq<char>),
    BlockClose,
    Text(Seq<char>),
    Other,
}

impl View for Token {
    type V = TokenView;

    open spec fn view(&self) -> TokenView {
        match self {
            Token::FenceOpen(label) => TokenView::FenceOpen(label@),
            Token::BlockClose => TokenView::BlockClose,
            Token::Text(text) => TokenView::Text(text@),
            Token::Other => TokenView::Other,
        }
    }
}

/// What the rewriter puts in the place of one event.
#[derive(Clone, Debug, PartialEq, Eq)]
pub enum Emit {
    /// The event itself, untouched.
    Keep,
    /// A run of text.
    Text(String),
    /// The opening of a fenced code block with this label.
    FenceOpen(String),
    /// Markup that the document format passes through as it stands.
    Html(String),
}

/// An `Emit` over sequences of characters.
pub enum EmitView {
    Keep,
    Text(Seq<char>),
    FenceOpen(Seq<char>),
    Html(Seq<char>),
}

impl View for Emit {
    type V = EmitView;

    open spec fn view(&self) -> EmitView {
        match self {
            Emit::Keep => EmitView::Keep,
            Emit::Text(text) => EmitView::Text(text@),
            Emit::FenceOpen(label) => EmitView::FenceOpen(label@),
            Emit::Html(html) => EmitView::Html(html@),
        }
    }
}

/// The views of the tokens in `tokens`, in order.
pub open spec fn token_views(tokens: Seq<Token>) -> Seq<TokenView> {
    tokens.map_values(|t: Token| t@)
}

/// The views of the emits in `emits`, in order.
pub open spec fn emit_views(emits: Seq<Emit>) -> Seq<EmitView> {
    emits.map_values(|e: Emit| e@)
}

} // verus!
