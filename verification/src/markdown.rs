//! Reading a Markdown document as events and writing the events back.

use crate::event::{emit_views, token_views, Emit, EmitView, Token, TokenView};
use pulldown_cmark::{CodeBlockKind, Event, Parser, Tag};
use vstd::prelude::*;

verus! {

/// The events that the Markdown document `md` is read as, in order.
pub uninterp spec fn tokens(md: Seq<char>) -> Seq<TokenView>;

/// The document that the events of `md` are written back as, once the event
/// at each place has made way for what `emits` holds at that place; `None`
/// where the events cannot be written.
pub uninterp spec fn assembled(md: Seq<char>, emits: Seq<EmitView>) -> Option<Seq<char>>;

/// Reads `md` as events.
///
/// Walks `pulldown_cmark::Parser::new(md)` to its end. Of each event it keeps
/// what tells a fence opening (with its label), the end of a code block and a
/// text (with its content) from the rest. The contract only gives the events a
/// name.
#[verifier::external_body]
pub(crate) fn tokenize(md: &str) -> (r: Vec<Token>)
    ensures
        token_views(r@) == tokens(md@),
{
    Parser::new(md).map(
        |event|
            match event {
                Event::Start(Tag::CodeBlock(CodeBlockKind::Fenced(label))) => Token::FenceOpen(
                    label.to_string(),
                ),
                Event::End(Tag::CodeBlock(_)) => Token::BlockClose,
                Event::Text(text) => Token::Text(text.to_string()),
                _ => Token::Other,
            },
    ).collect()
}

/// Writes the events of `md` back as a document, with the event at each place
/// replaced as `emits` says at that place.
///
/// Hands `pulldown_cmark_to_cmark::cmark` the events of
/// `pulldown_cmark::Parser::new(md)`, each paired with the emit at its place:
/// the event itself for `Keep`, else a text event, the opening of a fenced
/// code block or an HTML event with the emit's content. `cmark` fails only
/// where writing to its buffer fails. The contract only gives the document a
/// name.
#[verifier::external_body]
pub(crate) fn reassemble(md: &str, emits: &Vec<Emit>) -> (r: Option<String>)
    ensures
        match r {
            Some(text) => assembled(md@, emit_views(emits@)) == Some(text@),
            None => assembled(md@, emit_views(emits@)) is None,
        },
{
    let events = Parser::new(md).zip(emits.iter()).map(
        |(event, emit)|
            match emit {
                Emit::Keep => event,
                Emit::Text(text) => Event::Text(text.as_str().into()),
                Emit::FenceOpen(label) => Event::Start(
                    Tag::CodeBlock(CodeBlockKind::Fenced(label.as_str().into())),
                ),
                Emit::Html(html) => Event::Html(html.as_str().into()),
            },
    );
    let mut out = String::new();
    pulldown_cmark_to_cmark::cmark(events, &mut out).ok().map(|_| out)
}

} // verus!
