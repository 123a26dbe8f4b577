//! What holds of every document and of every sample.

use crate::error::RewriteErrorView;
use crate::event::{EmitView, TokenView};
use crate::formatter::inline_markup;
use crate::machine::{
    answered, stepped, tabled, BlockState, OutcomeView, VerdictView, PLACEHOLDER,
};
use crate::markdown::{assembled, tokens};
use crate::mode::{is_tagged, mode_of, PrqlBlockMode};
use crate::panel::{panel, ERROR_TITLE, PRQL_TITLE, SQL_TITLE, TABLE_TITLE};
use crate::rewriter::{run, Halt, Run};
use crate::text::trimmed;
use vstd::prelude::*;

verus! {

/// Whether `token` opens a sample: a fence whose label carries the tag.
pub open spec fn opens_sample(token: TokenView) -> bool {
    token matches TokenView::FenceOpen(label) && is_tagged(label)
}

/// Whether no event of `events` opens a sample.
pub open spec fn plain(events: Seq<TokenView>) -> bool {
    forall|i: int| 0 <= i < events.len() ==> !opens_sample(#[trigger] events[i])
}

/// `n` events, each kept as it stands.
pub open spec fn kept(n: nat) -> Seq<EmitView> {
    Seq::new(n, |i: int| EmitView::Keep)
}

/// The document that `md` is written back as when none of its events is
/// touched: `md` itself, up to how the format writes its events.
pub open spec fn round_trip(md: Seq<char>) -> Option<Seq<char>> {
    assembled(md, kept(tokens(md).len()))
}

/// The event that is written where `token` stood and `emit` takes its place.
pub open spec fn replaced(token: TokenView, emit: EmitView) -> TokenView {
    match emit {
        EmitView::Keep => token,
        EmitView::Text(text) => TokenView::Text(text),
        EmitView::FenceOpen(label) => TokenView::FenceOpen(label),
        EmitView::Html(_) => TokenView::Other,
    }
}

/// The events that are written for `events` once `emits` have taken their
/// places.
pub open spec fn applied(events: Seq<TokenView>, emits: Seq<EmitView>) -> Seq<TokenView> {
    Seq::new(
        events.len(),
        |i: int|
            if i < emits.len() {
                replaced(events[i], emits[i])
            } else {
                events[i]
            },
    )
}

/// The events of one sample: its fence with `label`, its content `source`,
/// its end.
pub open spec fn sample(label: Seq<char>, source: Seq<char>) -> Seq<TokenView> {
    seq![TokenView::FenceOpen(label), TokenView::Text(source), TokenView::BlockClose]
}

/// What stands in the place of a fence line that is dropped.
pub open spec fn dropped() -> EmitView {
    EmitView::Text(PLACEHOLDER@)
}

/// What comes of the event `token` in `state` when every question is
/// answered at once: `compiler` says what the compiler makes of a source,
/// `engine` which rows a query yields.
pub open spec fn settled(
    compiler: spec_fn(Seq<char>) -> Result<Seq<char>, Seq<char>>,
    engine: spec_fn(Seq<char>) -> Seq<char>,
    state: BlockState,
    token: TokenView,
) -> VerdictView {
    match stepped(state, token) {
        OutcomeView::Emitted(next, emit) => VerdictView::Emitted(next, emit),
        OutcomeView::NeedsCompile(source) => match answered(state, source, compiler(source)) {
            VerdictView::NeedsTable(sql) => VerdictView::Emitted(
                tabled(source, engine(sql)).0,
                tabled(source, engine(sql)).1,
            ),
            verdict => verdict,
        },
    }
}

/// Where the rewriting of a document ends.
pub struct Rewrite {
    /// The state after the last event that was dealt with.
    pub state: BlockState,
    /// What takes the place of each event that was dealt with, in order.
    pub emits: Seq<EmitView>,
    /// Why the rewriting stopped, where it did not reach the end.
    pub failure: Option<RewriteErrorView>,
}

/// The rewriting of `events` from `state`, with the first `emits.len()`
/// events dealt with, under `compiler` and `engine`: event after event in
/// order, up to the end or to the first sample that stops it.
pub open spec fn rewritten(
    compiler: spec_fn(Seq<char>) -> Result<Seq<char>, Seq<char>>,
    engine: spec_fn(Seq<char>) -> Seq<char>,
    events: Seq<TokenView>,
    state: BlockState,
    emits: Seq<EmitView>,
) -> Rewrite
    decreases events.len() - emits.len(),
{
    if emits.len() >= events.len() {
        Rewrite { state, emits, failure: None }
    } else {
        match settled(compiler, engine, state, events[emits.len() as int]) {
            VerdictView::Emitted(next, emit) => rewritten(
                compiler,
                engine,
                events,
                next,
                emits.push(emit),
            ),
            VerdictView::NeedsTable(_) => Rewrite { state, emits, failure: None },
            VerdictView::Failed(error) => Rewrite { state, emits, failure: Some(error) },
        }
    }
}

/// The rewriter does what `rewritten` says, whoever answers it. A run goes
/// as far as the rewriting needs no answer. Where the run ends on the text
/// of a sample, the rewriting goes on from there with what follows from the
/// compiler's answer, and, for a sample that wants rows, from the engine's.
pub proof fn law_rewriter_follows_the_rewriting(
    compiler: spec_fn(Seq<char>) -> Result<Seq<char>, Seq<char>>,
    engine: spec_fn(Seq<char>) -> Seq<char>,
    events: Seq<TokenView>,
    state: BlockState,
    emits: Seq<EmitView>,
)
    ensures
        rewritten(compiler, engine, events, state, emits) == match run(events, state, emits).halt {
            Halt::Done => Rewrite {
                state: run(events, state, emits).state,
                emits: run(events, state, emits).emits,
                failure: None,
            },
            Halt::NeedsCompile(source) => match answered(
                run(events, state, emits).state,
                source,
                compiler(source),
            ) {
                VerdictView::Emitted(next, emit) => rewritten(
                    compiler,
                    engine,
                    events,
                    next,
                    run(events, state, emits).emits.push(emit),
                ),
                VerdictView::NeedsTable(sql) => rewritten(
                    compiler,
                    engine,
                    events,
                    tabled(source, engine(sql)).0,
                    run(events, state, emits).emits.push(tabled(source, engine(sql)).1),
                ),
                VerdictView::Failed(error) => Rewrite {
                    state: run(events, state, emits).state,
                    emits: run(events, state, emits).emits,
                    failure: Some(error),
                },
            },
        },
    decreases events.len() - emits.len(),
{
    if emits.len() < events.len() {
        match stepped(state, events[emits.len() as int]) {
            OutcomeView::Emitted(next, emit) => {
                law_rewriter_follows_the_rewriting(
                    compiler,
                    engine,
                    events,
                    next,
                    emits.push(emit),
                );
            },
            OutcomeView::NeedsCompile(_) => {},
        }
    }
}

/// Outside a sample the rewriter touches nothing: an event that opens no
/// sample is kept as it stands, and the rewriter stays outside. A text is
/// then not handed to the compiler.
pub proof fn law_outside_events_are_kept(token: TokenView)
    requires
        !opens_sample(token),
    ensures
        stepped(BlockState::Idle, token) == OutcomeView::Emitted(BlockState::Idle, EmitView::Keep),
{
}

/// Where no event opens a sample and the first `k` events are kept, the
/// rewriter keeps the rest too.
proof fn lemma_plain_run(events: Seq<TokenView>, k: nat)
    requires
        plain(events),
        k <= events.len(),
    ensures
        run(events, BlockState::Idle, kept(k)) == (Run {
            state: BlockState::Idle,
            emits: kept(events.len()),
            halt: Halt::Done,
        }),
    decreases events.len() - k,
{
    if k < events.len() {
        assert(!opens_sample(events[k as int]));
        assert(kept(k).push(EmitView::Keep) =~= kept(k + 1));
        lemma_plain_run(events, k + 1);
    }
}

/// Where no event opens a sample, the rewriter runs to the end without
/// asking for the compiler, stays outside, and keeps every event as it
/// stands.
pub proof fn law_plain_events_are_kept(events: Seq<TokenView>)
    requires
        plain(events),
    ensures
        run(events, BlockState::Idle, Seq::empty()) == (Run {
            state: BlockState::Idle,
            emits: kept(events.len()),
            halt: Halt::Done,
        }),
{
    assert(kept(0) =~= Seq::<EmitView>::empty());
    lemma_plain_run(events, 0);
}

/// A document without samples is written back as itself, up to how the
/// format writes its events: the rewriter reaches the end, and what is
/// assembled from its emits is the round trip of the document.
pub proof fn law_plain_document_round_trips(md: Seq<char>)
    requires
        plain(tokens(md)),
    ensures
        run(tokens(md), BlockState::Idle, Seq::empty()).halt is Done,
        assembled(md, run(tokens(md), BlockState::Idle, Seq::empty()).emits) == round_trip(md),
{
    law_plain_events_are_kept(tokens(md));
}

/// Rewriting events without samples a second time changes nothing: the
/// events that the first pass writes are the events it read, so the second
/// pass ends as the first did.
pub proof fn law_plain_rewrite_is_idempotent(events: Seq<TokenView>)
    requires
        plain(events),
    ensures
        applied(events, run(events, BlockState::Idle, Seq::empty()).emits) == events,
        run(
            applied(events, run(events, BlockState::Idle, Seq::empty()).emits),
            BlockState::Idle,
            Seq::empty(),
        ) == run(events, BlockState::Idle, Seq::empty()),
{
    law_plain_events_are_kept(events);
    assert(applied(events, kept(events.len())) =~= events);
}

/// Where a run has ended, it stays: a run that starts from the end of a run
/// ends there again, for the same reason.
pub proof fn law_run_is_settled(events: Seq<TokenView>, state: BlockState, emits: Seq<EmitView>)
    ensures
        run(
            events,
            run(events, state, emits).state,
            run(events, state, emits).emits,
        ) == run(events, state, emits),
    decreases events.len() - emits.len(),
{
    if emits.len() < events.len() {
        match stepped(state, events[emits.len() as int]) {
            OutcomeView::Emitted(next, emit) => {
                law_run_is_settled(events, next, emits.push(emit));
            },
            _ => {},
        }
    }
}

/// A sample whose label asks for evaluation and whose source compiles is
/// replaced by one panel: the trimmed source in its left pane, the trimmed
/// SQL in its right pane. Its fence lines are dropped.
pub proof fn law_eval_sample_is_compared(
    compiler: spec_fn(Seq<char>) -> Result<Seq<char>, Seq<char>>,
    engine: spec_fn(Seq<char>) -> Seq<char>,
    label: Seq<char>,
    source: Seq<char>,
    sql: Seq<char>,
)
    requires
        is_tagged(label),
        mode_of(label) == PrqlBlockMode::Eval,
        compiler(source) == Ok::<Seq<char>, Seq<char>>(sql),
    ensures
        rewritten(compiler, engine, sample(label, source), BlockState::Idle, Seq::empty()) == (
        Rewrite {
            state: BlockState::Idle,
            emits: seq![
                dropped(),
                EmitView::Html(panel(PRQL_TITLE@, trimmed(source), SQL_TITLE@, trimmed(sql))),
                dropped(),
            ],
            failure: None,
        }),
{
    reveal_with_fuel(rewritten, 4);
    let shown = EmitView::Html(panel(PRQL_TITLE@, trimmed(source), SQL_TITLE@, trimmed(sql)));
    assert(Seq::<EmitView>::empty().push(dropped()) =~= seq![dropped()]);
    assert(seq![dropped()].push(shown).push(dropped()) =~= seq![dropped(), shown, dropped()]);
}

/// A sample whose label asks for evaluation or for a table and whose source
/// does not compile stops the rewriting, with the source and the diagnostic.
pub proof fn law_evaluated_sample_must_compile(
    compiler: spec_fn(Seq<char>) -> Result<Seq<char>, Seq<char>>,
    engine: spec_fn(Seq<char>) -> Seq<char>,
    label: Seq<char>,
    source: Seq<char>,
    diagnostic: Seq<char>,
)
    requires
        is_tagged(label),
        mode_of(label) == PrqlBlockMode::Eval || mode_of(label) == PrqlBlockMode::Table,
        compiler(source) == Err::<Seq<char>, Seq<char>>(diagnostic),
    ensures
        rewritten(
            compiler,
            engine,
            sample(label, source),
            BlockState::Idle,
            Seq::empty(),
        ).failure == Some(RewriteErrorView::CompileFailed { source, diagnostic }),
{
    reveal_with_fuel(rewritten, 3);
}

/// A sample whose label asks for an error and whose source compiles stops
/// the rewriting, with the source and the SQL that was not expected.
pub proof fn law_error_sample_must_fail(
    compiler: spec_fn(Seq<char>) -> Result<Seq<char>, Seq<char>>,
    engine: spec_fn(Seq<char>) -> Seq<char>,
    label: Seq<char>,
    source: Seq<char>,
    sql: Seq<char>,
)
    requires
        is_tagged(label),
        mode_of(label) == PrqlBlockMode::Error,
        compiler(source) == Ok::<Seq<char>, Seq<char>>(sql),
    ensures
        rewritten(
            compiler,
            engine,
            sample(label, source),
            BlockState::Idle,
            Seq::empty(),
        ).failure == Some(RewriteErrorView::UnexpectedSuccess { source, sql }),
{
    reveal_with_fuel(rewritten, 3);
}

/// A sample whose label asks for an error and whose source is rejected is
/// replaced by one panel: the trimmed source in its left pane, the trimmed
/// diagnostic, as inline markup, in its right pane.
pub proof fn law_error_sample_is_reported(
    compiler: spec_fn(Seq<char>) -> Result<Seq<char>, Seq<char>>,
    engine: spec_fn(Seq<char>) -> Seq<char>,
    label: Seq<char>,
    source: Seq<char>,
    diagnostic: Seq<char>,
    message: Seq<char>,
)
    requires
        is_tagged(label),
        mode_of(label) == PrqlBlockMode::Error,
        compiler(source) == Err::<Seq<char>, Seq<char>>(diagnostic),
        inline_markup(diagnostic) == Some(message),
    ensures
        rewritten(compiler, engine, sample(label, source), BlockState::Idle, Seq::empty()) == (
        Rewrite {
            state: BlockState::Idle,
            emits: seq![
                dropped(),
                EmitView::Html(
                    panel(PRQL_TITLE@, trimmed(source), ERROR_TITLE@, trimmed(message)),
                ),
                dropped(),
            ],
            failure: None,
        }),
{
    reveal_with_fuel(rewritten, 4);
    let shown = EmitView::Html(
        panel(PRQL_TITLE@, trimmed(source), ERROR_TITLE@, trimmed(message)),
    );
    assert(Seq::<EmitView>::empty().push(dropped()) =~= seq![dropped()]);
    assert(seq![dropped()].push(shown).push(dropped()) =~= seq![dropped(), shown, dropped()]);
}

/// A sample whose label asks for a table and whose source compiles is
/// replaced by one panel: the trimmed source in its left pane, and in its
/// right pane the rows that the engine yields for the compiled SQL, as they
/// are.
pub proof fn law_table_sample_is_tabled(
    compiler: spec_fn(Seq<char>) -> Result<Seq<char>, Seq<char>>,
    engine: spec_fn(Seq<char>) -> Seq<char>,
    label: Seq<char>,
    source: Seq<char>,
    sql: Seq<char>,
)
    requires
        is_tagged(label),
        mode_of(label) == PrqlBlockMode::Table,
        compiler(source) == Ok::<Seq<char>, Seq<char>>(sql),
    ensures
        rewritten(compiler, engine, sample(label, source), BlockState::Idle, Seq::empty()) == (
        Rewrite {
            state: BlockState::Idle,
            emits: seq![
                dropped(),
                EmitView::Html(panel(PRQL_TITLE@, trimmed(source), TABLE_TITLE@, engine(sql))),
                dropped(),
            ],
            failure: None,
        }),
{
    reveal_with_fuel(rewritten, 4);
    let shown = EmitView::Html(panel(PRQL_TITLE@, trimmed(source), TABLE_TITLE@, engine(sql)));
    assert(Seq::<EmitView>::empty().push(dropped()) =~= seq![dropped()]);
    assert(seq![dropped()].push(shown).push(dropped()) =~= seq![dropped(), shown, dropped()]);
}

/// A sample that is not evaluated keeps its content and its end, and its
/// fence gets the display title. The rewriter runs through it without asking
/// for the compiler.
pub proof fn law_unevaluated_sample_is_relabeled(label: Seq<char>, source: Seq<char>)
    requires
        is_tagged(label),
        mode_of(label) == PrqlBlockMode::NoEval || mode_of(label) == PrqlBlockMode::NoTest,
    ensures
        run(sample(label, source), BlockState::Idle, Seq::empty()) == (Run {
            state: BlockState::Idle,
            emits: seq![EmitView::FenceOpen(PRQL_TITLE@), EmitView::Keep, EmitView::Keep],
            halt: Halt::Done,
        }),
{
    reveal_with_fuel(run, 4);
    let title = EmitView::FenceOpen(PRQL_TITLE@);
    assert(Seq::<EmitView>::empty().push(title) =~= seq![title]);
    assert(seq![title].push(EmitView::Keep).push(EmitView::Keep) =~= seq![
        title,
        EmitView::Keep,
        EmitView::Keep,
    ]);
}

} // verus!
