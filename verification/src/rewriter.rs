//! Rewriting a whole document: the events are dealt with in order, and the
//! rewriter stops where it needs what only its caller can fetch: what the
//! compiler makes of a sample, or the rows that a query yields.

use crate::error::{RewriteError, RewriteErrorView};
use crate::event::{emit_views, token_views, Emit, EmitView, Token, TokenView};
use crate::machine::{
    answer_view, answered, resume, show_rows, step, stepped, tabled, BlockState, Outcome,
    OutcomeView, Verdict, VerdictView,
};
use crate::markdown::{assembled, reassemble, tokenize, tokens};
use vstd::prelude::*;

verus! {

/// Why a run over the events of a document ends.
pub enum Halt {
    /// Every event is dealt with.
    Done,
    /// The next event is the text of a sample: what the compiler makes of
    /// this source is wanted.
    NeedsCompile(Seq<char>),
}

/// Where a run over the events of a document ends.
pub struct Run {
    /// The state after the last event that was dealt with.
    pub state: BlockState,
    /// What takes the place of each event that was dealt with, in order.
    pub emits: Seq<EmitView>,
    /// Why the run ends there.
    pub halt: Halt,
}

/// The run over `events` that starts in `state` with the first
/// `emits.len()` events dealt with: event after event in order, up to the
/// end, or to the first text of a sample.
pub open spec fn run(events: Seq<TokenView>, state: BlockState, emits: Seq<EmitView>) -> Run
    decreases events.len() - emits.len(),
{
    if emits.len() >= events.len() {
        Run { state, emits, halt: Halt::Done }
    } else {
        match stepped(state, events[emits.len() as int]) {
            OutcomeView::Emitted(next, emit) => run(events, next, emits.push(emit)),
            OutcomeView::NeedsCompile(source) => Run {
                state,
                emits,
                halt: Halt::NeedsCompile(source),
            },
        }
    }
}

/// Where a run ends. It only adds to the emits it started with, one for
/// each event it dealt with. It ends with every event dealt with, or before
/// the text of a sample, inside that sample.
pub proof fn lemma_run_ends(events: Seq<TokenView>, state: BlockState, emits: Seq<EmitView>)
    ensures
        emits.is_prefix_of(run(events, state, emits).emits),
        emits.len() <= events.len() ==> run(events, state, emits).emits.len() <= events.len(),
        match run(events, state, emits).halt {
            Halt::Done => run(events, state, emits).emits.len() >= events.len(),
            Halt::NeedsCompile(source) => {
                &&& run(events, state, emits).emits.len() < events.len()
                &&& events[run(events, state, emits).emits.len() as int] == TokenView::Text(source)
                &&& !(run(events, state, emits).state is Idle)
            },
        },
    decreases events.len() - emits.len(),
{
    if emits.len() < events.len() {
        match stepped(state, events[emits.len() as int]) {
            OutcomeView::Emitted(next, emit) => {
                lemma_run_ends(events, next, emits.push(emit));
                assert(emits =~= emits.push(emit).take(emits.len() as int));
            },
            _ => {},
        }
    }
}

/// How far a rewriter has come.
#[derive(Clone, Debug, PartialEq, Eq)]
pub enum Progress {
    /// Every event is dealt with.
    Done,
    /// What the compiler makes of this source is wanted; hand it to
    /// `supply_compiled`.
    NeedsCompile(String),
    /// The rows of this SQL are wanted; hand them to `supply_table`.
    NeedsTable(String),
}

/// A `Progress` over sequences of characters.
pub enum ProgressView {
    Done,
    NeedsCompile(Seq<char>),
    NeedsTable(Seq<char>),
}

impl View for Progress {
    type V = ProgressView;

    open spec fn view(&self) -> ProgressView {
        match self {
            Progress::Done => ProgressView::Done,
            Progress::NeedsCompile(source) => ProgressView::NeedsCompile(source@),
            Progress::NeedsTable(sql) => ProgressView::NeedsTable(sql@),
        }
    }
}

/// The progress that the end of a run amounts to.
pub open spec fn progress_at(halt: Halt) -> ProgressView {
    match halt {
        Halt::Done => ProgressView::Done,
        Halt::NeedsCompile(source) => ProgressView::NeedsCompile(source),
    }
}

/// Deals with the events of `tokens` in order, from `state` and with the
/// first `emits.len()` of them dealt with already: up to the end, or to the
/// first text of a sample. Returns the state and the emits at that point,
/// and why it stopped there.
pub fn run_events(tokens: &Vec<Token>, state: BlockState, emits: Vec<Emit>) -> (r: (
    BlockState,
    Vec<Emit>,
    Progress,
))
    ensures
        r.0 == run(token_views(tokens@), state, emit_views(emits@)).state,
        emit_views(r.1@) == run(token_views(tokens@), state, emit_views(emits@)).emits,
        r.2@ == progress_at(run(token_views(tokens@), state, emit_views(emits@)).halt),
{
    let ghost whole = run(token_views(tokens@), state, emit_views(emits@));
    let mut current = state;
    let mut done = emits;
    while done.len() < tokens.len()
        invariant
            run(token_views(tokens@), current, emit_views(done@)) == whole,
            whole == run(token_views(tokens@), state, emit_views(emits@)),
        decreases tokens@.len() - done@.len(),
    {
        let ghost before = emit_views(done@);
        assert(token_views(tokens@)[before.len() as int] == tokens@[done@.len() as int]@);
        match step(current, &tokens[done.len()]) {
            Outcome::Emitted(next, emit) => {
                current = next;
                done.push(emit);
                assert(emit_views(done@) =~= before.push(emit@));
            },
            Outcome::NeedsCompile(source) => {
                return (current, done, Progress::NeedsCompile(source));
            },
        }
    }
    (current, done, Progress::Done)
}

/// A document on its way to being rewritten.
pub struct Rewriter {
    source: String,
    tokens: Vec<Token>,
    emits: Vec<Emit>,
    state: BlockState,
    awaited: Option<String>,
}

impl Rewriter {
    #[verifier::type_invariant]
    spec fn inv(self) -> bool {
        &&& token_views(self.tokens@) == tokens(self.source@)
        &&& self.emits@.len() <= self.tokens@.len()
        &&& self.awaited is Some ==> self.emits@.len() < self.tokens@.len()
            && self.tokens@[self.emits@.len() as int] is Text
    }

    /// The document as it was given.
    pub closed spec fn source(&self) -> Seq<char> {
        self.source@
    }

    /// The events of the document.
    pub closed spec fn tokens(&self) -> Seq<TokenView> {
        token_views(self.tokens@)
    }

    /// What takes the place of each event that is dealt with, in order.
    pub closed spec fn emitted(&self) -> Seq<EmitView> {
        emit_views(self.emits@)
    }

    /// The state after the last event that is dealt with.
    pub closed spec fn state(&self) -> BlockState {
        self.state
    }

    /// The SQL whose rows the rewriter waits for.
    pub closed spec fn awaited(&self) -> Option<Seq<char>> {
        match self.awaited {
            Some(sql) => Some(sql@),
            None => None,
        }
    }

    /// Whether every event is dealt with.
    pub open spec fn complete(&self) -> bool {
        self.emitted().len() == self.tokens().len()
    }

    /// The source that the compiler is wanted for: the next event, where
    /// that is the text of a sample and no rows are awaited for it yet.
    pub open spec fn uncompiled(&self) -> Option<Seq<char>> {
        if self.awaited() is None && self.emitted().len() < self.tokens().len() {
            match stepped(self.state(), self.tokens()[self.emitted().len() as int]) {
                OutcomeView::NeedsCompile(source) => Some(source),
                OutcomeView::Emitted(_, _) => None,
            }
        } else {
            None
        }
    }

    /// The sample whose rows are awaited: the text of the next event.
    pub open spec fn unrendered(&self) -> Option<Seq<char>> {
        if self.awaited() is Some && self.emitted().len() < self.tokens().len() {
            match self.tokens()[self.emitted().len() as int] {
                TokenView::Text(source) => Some(source),
                _ => None,
            }
        } else {
            None
        }
    }

    /// Reads the document `md`. No event is dealt with yet.
    pub fn new(md: &str) -> (r: Rewriter)
        ensures
            r.source() == md@,
            r.tokens() == tokens(md@),
            r.emitted() == Seq::<EmitView>::empty(),
            r.state() is Idle,
            r.awaited() is None,
    {
        let r = Rewriter {
            source: String::from_str(md),
            tokens: tokenize(md),
            emits: Vec::new(),
            state: BlockState::Idle,
            awaited: None,
        };
        assert(emit_views(r.emits@) =~= Seq::<EmitView>::empty());
        r
    }

    /// Deals with the events that remain, in order, up to the end of the
    /// document or to the text of a sample, and says what is wanted there.
    /// Where rows are awaited, it asks for them again and goes no further.
    pub fn advance(&mut self) -> (r: Progress)
        ensures
            final(self).source() == old(self).source(),
            final(self).tokens() == old(self).tokens(),
            final(self).awaited() == old(self).awaited(),
            final(self).emitted().len() <= final(self).tokens().len(),
            match old(self).awaited() {
                Some(sql) => {
                    &&& r@ == ProgressView::NeedsTable(sql)
                    &&& final(self).state() == old(self).state()
                    &&& final(self).emitted() == old(self).emitted()
                },
                None => {
                    &&& final(self).state() == run(
                        old(self).tokens(),
                        old(self).state(),
                        old(self).emitted(),
                    ).state
                    &&& final(self).emitted() == run(
                        old(self).tokens(),
                        old(self).state(),
                        old(self).emitted(),
                    ).emits
                    &&& r@ == progress_at(
                        run(old(self).tokens(), old(self).state(), old(self).emitted()).halt,
                    )
                },
            },
            r is Done ==> final(self).complete(),
            r matches Progress::NeedsCompile(source) ==> final(self).uncompiled() == Some(source@),
    {
        proof {
            use_type_invariant(&*self);
        }
        if let Some(sql) = &self.awaited {
            return Progress::NeedsTable(sql.clone());
        }
        let mut emits: Vec<Emit> = Vec::new();
        core::mem::swap(&mut self.emits, &mut emits);
        let (state, mut emits, progress) = run_events(&self.tokens, self.state, emits);
        proof {
            lemma_run_ends(old(self).tokens(), old(self).state(), old(self).emitted());
        }
        self.state = state;
        core::mem::swap(&mut self.emits, &mut emits);
        progress
    }

    /// Takes `result`, what the compiler made of the source that is to be
    /// compiled: the SQL, or the text of the diagnostic. Returns `Ok(true)`
    /// where the sample is dealt with or its rows are now awaited,
    /// `Ok(false)` where no compiling was wanted, and the error where the
    /// result stops the rewriting; in the last two cases nothing changes.
    pub fn supply_compiled(&mut self, result: Result<String, String>) -> (r: Result<
        bool,
        RewriteError,
    >)
        ensures
            final(self).source() == old(self).source(),
            final(self).tokens() == old(self).tokens(),
            match old(self).uncompiled() {
                None => {
                    &&& r == Ok::<bool, RewriteError>(false)
                    &&& final(self).state() == old(self).state()
                    &&& final(self).emitted() == old(self).emitted()
                    &&& final(self).awaited() == old(self).awaited()
                },
                Some(source) => match answered(old(self).state(), source, answer_view(result)) {
                    VerdictView::Emitted(next, emit) => {
                        &&& r == Ok::<bool, RewriteError>(true)
                        &&& final(self).state() == next
                        &&& final(self).emitted() == old(self).emitted().push(emit)
                        &&& final(self).awaited() is None
                    },
                    VerdictView::NeedsTable(sql) => {
                        &&& r == Ok::<bool, RewriteError>(true)
                        &&& final(self).state() == old(self).state()
                        &&& final(self).emitted() == old(self).emitted()
                        &&& final(self).awaited() == Some(sql)
                    },
                    VerdictView::Failed(error) => {
                        &&& r matches Err(e) && e@ == error
                        &&& final(self).state() == old(self).state()
                        &&& final(self).emitted() == old(self).emitted()
                        &&& final(self).awaited() is None
                    },
                },
            },
    {
        proof {
            use_type_invariant(&*self);
        }
        if self.awaited.is_some() || self.emits.len() >= self.tokens.len() {
            return Ok(false);
        }
        let ghost before = self.emitted();
        assert(token_views(self.tokens@)[before.len() as int]
            == self.tokens@[self.emits@.len() as int]@);
        match step(self.state, &self.tokens[self.emits.len()]) {
            Outcome::Emitted(_, _) => Ok(false),
            Outcome::NeedsCompile(source) => match resume(self.state, source.as_str(), result) {
                Verdict::Emitted(next, emit) => {
                    let ghost emit_view = emit@;
                    self.state = next;
                    let mut emits: Vec<Emit> = Vec::new();
                    core::mem::swap(&mut self.emits, &mut emits);
                    emits.push(emit);
                    core::mem::swap(&mut self.emits, &mut emits);
                    assert(self.emitted() =~= before.push(emit_view));
                    Ok(true)
                },
                Verdict::NeedsTable(sql) => {
                    self.awaited = Some(sql);
                    Ok(true)
                },
                Verdict::Failed(error) => Err(error),
            },
        }
    }

    /// Takes `rows`, the rows that the awaited SQL yields when it is run:
    /// the sample makes way for one panel, with the rows as they are in its
    /// right pane. Returns whether rows were awaited; where none were,
    /// nothing changes.
    pub fn supply_table(&mut self, rows: String) -> (r: bool)
        ensures
            r == old(self).awaited() is Some,
            r == old(self).unrendered() is Some,
            final(self).source() == old(self).source(),
            final(self).tokens() == old(self).tokens(),
            final(self).awaited() is None,
            match old(self).unrendered() {
                Some(source) => {
                    &&& final(self).state() == tabled(source, rows@).0
                    &&& final(self).emitted() == old(self).emitted().push(tabled(source, rows@).1)
                },
                None => {
                    &&& final(self).state() == old(self).state()
                    &&& final(self).emitted() == old(self).emitted()
                },
            },
    {
        proof {
            use_type_invariant(&*self);
        }
        if self.awaited.is_none() {
            return false;
        }
        let ghost before = self.emitted();
        assert(token_views(self.tokens@)[before.len() as int]
            == self.tokens@[self.emits@.len() as int]@);
        let (next, emit) = match &self.tokens[self.emits.len()] {
            Token::Text(source) => show_rows(source.as_str(), rows.as_str()),
            _ => {
                return false;
            },
        };
        let ghost emit_view = emit@;
        self.awaited = None;
        self.state = next;
        let mut emits: Vec<Emit> = Vec::new();
        core::mem::swap(&mut self.emits, &mut emits);
        emits.push(emit);
        core::mem::swap(&mut self.emits, &mut emits);
        assert(self.emitted() =~= before.push(emit_view));
        true
    }

    /// The events of the document, in order.
    pub fn events(&self) -> (r: &Vec<Token>)
        ensures
            token_views(r@) == self.tokens(),
    {
        &self.tokens
    }

    /// What takes the place of each event that is dealt with, in order.
    pub fn emits(&self) -> (r: &Vec<Emit>)
        ensures
            emit_views(r@) == self.emitted(),
    {
        &self.emits
    }

    /// The state after the last event that is dealt with.
    pub fn block_state(&self) -> (r: BlockState)
        ensures
            r == self.state(),
    {
        self.state
    }

    /// Writes the rewritten document, once every event is dealt with.
    pub fn finish(&self) -> (r: Result<String, RewriteError>)
        ensures
            match r {
                Ok(text) => self.complete() && assembled(self.source(), self.emitted()) == Some(
                    text@,
                ),
                Err(error) => if self.complete() {
                    error@ == RewriteErrorView::Unwritable && assembled(
                        self.source(),
                        self.emitted(),
                    ) is None
                } else {
                    error@ == RewriteErrorView::Unfinished
                },
            },
    {
        proof {
            use_type_invariant(self);
        }
        if self.emits.len() < self.tokens.len() {
            return Err(RewriteError::Unfinished);
        }
        match reassemble(self.source.as_str(), &self.emits) {
            Some(text) => Ok(text),
            None => Err(RewriteError::Unwritable),
        }
    }
}

} // verus!
