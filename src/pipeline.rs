//! One run of the copy, read, transform, write and paste transaction, as a
//! state machine. The machine never touches the keyboard or the clipboard
//! itself: each step hands out the [`Action`] to perform next, and the
//! caller answers with the [`Reply`] that the action produced.

use vstd::prelude::*;
use crate::transform::{flattened, remove_newlines};

verus! {

/// Pause between the simulated key events of one chord, in milliseconds.
pub const KEY_DELAY_MS: u64 = 30;

/// Pause that lets the clipboard catch up with a copy or a write, in
/// milliseconds.
pub const SETTLE_DELAY_MS: u64 = 150;

/// Number of steps in one simulated chord.
pub const CHORD_LEN: usize = 7;

/// A key that the pipeline presses or releases.
#[derive(Clone, Copy, Debug, PartialEq, Eq, Structural)]
pub enum Key {
    ControlLeft,
    KeyC,
    KeyV,
}

/// The two simulated shortcuts.
#[derive(Clone, Copy, Debug, PartialEq, Eq, Structural)]
pub enum Chord {
    Copy,
    Paste,
}

/// How a finished run ended well.
#[derive(Clone, Copy, Debug, PartialEq, Eq, Structural)]
pub enum Completion {
    /// The transformed text was written and the paste chord was sent.
    Pasted,
    /// The clipboard held no text, so nothing was written or pasted.
    SkippedEmpty,
}

/// Why a run was aborted.
#[derive(Clone, Copy, Debug, PartialEq, Eq, Structural)]
pub enum PipelineError {
    /// A simulated key event of the given chord was refused.
    SimulationFailure(Chord),
    /// The clipboard could not be read as text.
    ClipboardReadFailure,
    /// The transformed text could not be written to the clipboard.
    ClipboardWriteFailure,
}

/// What the caller is asked to do next.
#[derive(Debug, PartialEq, Eq)]
pub enum Action {
    Press(Key),
    Release(Key),
    Wait(u64),
    ReadClipboard,
    WriteClipboard(String),
    /// The run is over; nothing more is to be done.
    Finish(Result<Completion, PipelineError>),
}

/// What came of the last action.
#[derive(Debug, PartialEq, Eq)]
pub enum Reply {
    /// The action was carried out.
    Done,
    /// The action failed.
    Failed,
    /// The clipboard was read and held this text.
    Text(String),
}

/// The mathematical form of an [`Action`].
pub enum ActionView {
    Press(Key),
    Release(Key),
    Wait(u64),
    ReadClipboard,
    WriteClipboard(Seq<char>),
    Finish(Result<Completion, PipelineError>),
}

/// The mathematical form of a [`Reply`].
pub enum ReplyView {
    Done,
    Failed,
    Text(Seq<char>),
}

impl View for Action {
    type V = ActionView;

    open spec fn view(&self) -> ActionView {
        match self {
            Action::Press(k) => ActionView::Press(*k),
            Action::Release(k) => ActionView::Release(*k),
            Action::Wait(ms) => ActionView::Wait(*ms),
            Action::ReadClipboard => ActionView::ReadClipboard,
            Action::WriteClipboard(t) => ActionView::WriteClipboard(t@),
            Action::Finish(r) => ActionView::Finish(*r),
        }
    }
}

impl View for Reply {
    type V = ReplyView;

    open spec fn view(&self) -> ReplyView {
        match self {
            Reply::Done => ReplyView::Done,
            Reply::Failed => ReplyView::Failed,
            Reply::Text(t) => ReplyView::Text(t@),
        }
    }
}

/// The letter that goes with the modifier in a chord.
pub open spec fn letter_of(chord: Chord) -> Key {
    match chord {
        Chord::Copy => Key::KeyC,
        Chord::Paste => Key::KeyV,
    }
}

/// The steps of a chord: press the modifier, press the letter, release the
/// letter, release the modifier, with a short pause between two events.
pub open spec fn chord_steps(chord: Chord) -> Seq<ActionView> {
    seq![
        ActionView::Press(Key::ControlLeft),
        ActionView::Wait(KEY_DELAY_MS),
        ActionView::Press(letter_of(chord)),
        ActionView::Wait(KEY_DELAY_MS),
        ActionView::Release(letter_of(chord)),
        ActionView::Wait(KEY_DELAY_MS),
        ActionView::Release(Key::ControlLeft),
    ]
}

/// The first half of a run: copy, let the clipboard settle, read it.
pub open spec fn copy_steps() -> Seq<ActionView> {
    chord_steps(Chord::Copy) + seq![ActionView::Wait(SETTLE_DELAY_MS), ActionView::ReadClipboard]
}

/// The second half of a run: write the transformed text, let the clipboard
/// settle, paste.
pub open spec fn paste_steps(text: Seq<char>) -> Seq<ActionView> {
    seq![ActionView::WriteClipboard(text), ActionView::Wait(SETTLE_DELAY_MS)] + chord_steps(
        Chord::Paste,
    )
}

/// Where a run stands.
pub enum PhaseView {
    /// Going through `copy_steps()`.
    Copying,
    /// Going through `paste_steps(text)`.
    Pasting(Seq<char>),
    /// The run is over.
    Finished,
}

/// The model of a [`Pipeline`]: its phase and the position, in that phase's
/// steps, of the action that awaits its reply.
pub struct PipelineView {
    pub phase: PhaseView,
    pub pos: nat,
}

/// The steps of a phase.
pub open spec fn steps_of(phase: PhaseView) -> Seq<ActionView> {
    match phase {
        PhaseView::Copying => copy_steps(),
        PhaseView::Pasting(t) => paste_steps(t),
        PhaseView::Finished => Seq::empty(),
    }
}

/// The action that awaits its reply.
pub open spec fn current_of(v: PipelineView) -> ActionView {
    steps_of(v.phase)[v.pos as int]
}

/// The model of a run that has not started yet.
pub open spec fn initial() -> PipelineView {
    PipelineView { phase: PhaseView::Copying, pos: 0 }
}

/// The replies that an action can get: a key event or a write either is
/// carried out or fails, a pause always ends, a read gives text or fails.
pub open spec fn fits(a: ActionView, r: ReplyView) -> bool {
    match a {
        ActionView::Press(_) | ActionView::Release(_) | ActionView::WriteClipboard(_) => r is Done
            || r is Failed,
        ActionView::Wait(_) => r is Done,
        ActionView::ReadClipboard => r is Text || r is Failed,
        ActionView::Finish(_) => false,
    }
}

/// The error that ends a run when the action awaiting its reply fails.
pub open spec fn error_of(a: ActionView, phase: PhaseView) -> PipelineError {
    match a {
        ActionView::ReadClipboard => PipelineError::ClipboardReadFailure,
        ActionView::WriteClipboard(_) => PipelineError::ClipboardWriteFailure,
        _ => PipelineError::SimulationFailure(
            if phase is Pasting {
                Chord::Paste
            } else {
                Chord::Copy
            },
        ),
    }
}

/// The state after a reply, and the action handed out with it.
///
/// A failure ends the run with the error of the failed step. A read of empty
/// text ends it with nothing written or pasted. A read of other text starts
/// the second half with a write of that text, flattened. Any other reply moves
/// on to the next step, and past the last step of the second half the run
/// ends as pasted.
pub open spec fn next(v: PipelineView, r: ReplyView) -> (PipelineView, ActionView) {
    let done = PipelineView { phase: PhaseView::Finished, pos: 0 };
    match r {
        ReplyView::Failed => (done, ActionView::Finish(Err(error_of(current_of(v), v.phase)))),
        ReplyView::Text(t) => if t.len() == 0 {
            (done, ActionView::Finish(Ok(Completion::SkippedEmpty)))
        } else {
            (
                PipelineView { phase: PhaseView::Pasting(flattened(t)), pos: 0 },
                ActionView::WriteClipboard(flattened(t)),
            )
        },
        ReplyView::Done => if v.pos + 1 < steps_of(v.phase).len() {
            (PipelineView { pos: v.pos + 1, ..v }, steps_of(v.phase)[v.pos + 1 as int])
        } else {
            (done, ActionView::Finish(Ok(Completion::Pasted)))
        },
    }
}

/// The actions handed out, one per reply, while a run goes on.
pub open spec fn run(v: PipelineView, replies: Seq<ReplyView>) -> Seq<ActionView>
    decreases replies.len(),
{
    if replies.len() == 0 || v.phase is Finished {
        Seq::empty()
    } else {
        seq![next(v, replies[0]).1] + run(next(v, replies[0]).0, replies.drop_first())
    }
}

/// Every action of a run, from the first, given the replies in order.
pub open spec fn trace(replies: Seq<ReplyView>) -> Seq<ActionView> {
    seq![current_of(initial())] + run(initial(), replies)
}

/// `n` replies that say the action was carried out.
pub open spec fn dones(n: nat) -> Seq<ReplyView> {
    Seq::new(n, |i: int| ReplyView::Done)
}

/// While every action is carried out, a run walks through the steps of its
/// phase in order.
pub proof fn lemma_run_through_steps(v: PipelineView, n: nat, tail: Seq<ReplyView>)
    requires
        !(v.phase is Finished),
        v.pos + n < steps_of(v.phase).len(),
    ensures
        run(v, dones(n) + tail) == steps_of(v.phase).subrange(v.pos + 1 as int, v.pos + n + 1 as int) + run(
            PipelineView { pos: v.pos + n, ..v },
            tail,
        ),
    decreases n,
{
    let steps = steps_of(v.phase);
    if n == 0 {
        assert(dones(0) + tail =~= tail);
        assert(PipelineView { pos: v.pos + n, ..v } == v);
        assert(steps.subrange(v.pos + 1 as int, v.pos + 1 as int) =~= Seq::<ActionView>::empty());
        assert(Seq::<ActionView>::empty() + run(v, tail) =~= run(v, tail));
    } else {
        let replies = dones(n) + tail;
        let w = PipelineView { pos: v.pos + 1, ..v };
        assert(replies[0] == ReplyView::Done);
        assert(replies.drop_first() =~= dones((n - 1) as nat) + tail);
        assert(next(v, replies[0]) == (w, steps[v.pos + 1 as int]));
        lemma_run_through_steps(w, (n - 1) as nat, tail);
        assert(PipelineView { pos: w.pos + (n - 1) as nat, ..w } == PipelineView {
            pos: v.pos + n,
            ..v
        });
        assert(seq![steps[v.pos + 1 as int]] + steps.subrange(v.pos + 2 as int, v.pos + n + 1 as int)
            =~= steps.subrange(v.pos + 1 as int, v.pos + n + 1 as int));
        assert(seq![steps[v.pos + 1 as int]] + (steps.subrange(v.pos + 2 as int, v.pos + n + 1 as int) + run(
            PipelineView { pos: v.pos + n, ..v },
            tail,
        )) =~= steps.subrange(v.pos + 1 as int, v.pos + n + 1 as int) + run(
            PipelineView { pos: v.pos + n, ..v },
            tail,
        ));
    }
}

/// A finished run hands out nothing more.
pub proof fn lemma_run_finished(v: PipelineView, replies: Seq<ReplyView>)
    requires
        v.phase is Finished,
    ensures
        run(v, replies) == Seq::<ActionView>::empty(),
{
}

/// A run that reads an empty clipboard ends there as skipped: it writes
/// nothing and never presses the paste letter.
pub proof fn empty_read_writes_and_pastes_nothing(rest: Seq<ReplyView>)
    ensures
        ({
            let t = trace(dones(8) + seq![ReplyView::Text(Seq::empty())] + rest);
            &&& t == copy_steps() + seq![ActionView::Finish(Ok(Completion::SkippedEmpty))]
            &&& forall|i: int|
                0 <= i < t.len() ==> !(#[trigger] t[i] is WriteClipboard) && t[i]
                    != ActionView::Press(Key::KeyV)
        }),
{
    let tail = seq![ReplyView::Text(Seq::empty())] + rest;
    assert(dones(8) + seq![ReplyView::Text(Seq::empty())] + rest =~= dones(8) + tail);
    lemma_run_through_steps(initial(), 8, tail);
    let at_read = PipelineView { phase: PhaseView::Copying, pos: 8 };
    let done = PipelineView { phase: PhaseView::Finished, pos: 0 };
    assert(tail[0] == ReplyView::Text(Seq::empty()));
    assert(next(at_read, tail[0]) == (done, ActionView::Finish(Ok(Completion::SkippedEmpty))));
    lemma_run_finished(done, tail.drop_first());
    assert(run(at_read, tail) =~= seq![ActionView::Finish(Ok(Completion::SkippedEmpty))]);
    let t = trace(dones(8) + tail);
    assert(t =~= copy_steps() + seq![ActionView::Finish(Ok(Completion::SkippedEmpty))]);
}

/// A run in which a key event of the copy chord fails ends there with a
/// simulation failure, before the clipboard is read.
pub proof fn copy_failure_stops_before_read(k: nat, rest: Seq<ReplyView>)
    requires
        k < CHORD_LEN,
    ensures
        ({
            let t = trace(dones(k) + seq![ReplyView::Failed] + rest);
            &&& t == copy_steps().take(k + 1 as int) + seq![
                ActionView::Finish(Err(PipelineError::SimulationFailure(Chord::Copy))),
            ]
            &&& forall|i: int| 0 <= i < t.len() ==> !(#[trigger] t[i] is ReadClipboard)
        }),
{
    let tail = seq![ReplyView::Failed] + rest;
    assert(dones(k) + seq![ReplyView::Failed] + rest =~= dones(k) + tail);
    lemma_run_through_steps(initial(), k, tail);
    let at = PipelineView { phase: PhaseView::Copying, pos: k };
    let done = PipelineView { phase: PhaseView::Finished, pos: 0 };
    let fin = ActionView::Finish(Err(PipelineError::SimulationFailure(Chord::Copy)));
    assert(tail[0] == ReplyView::Failed);
    assert(next(at, tail[0]) == (done, fin));
    lemma_run_finished(done, tail.drop_first());
    assert(run(at, tail) =~= seq![fin]);
    let t = trace(dones(k) + tail);
    assert(t =~= copy_steps().take(k + 1 as int) + seq![fin]);
}

/// A run whose write fails ends there: the paste chord is never sent, and
/// the one write of the run, the failed one, is the only one, so the
/// clipboard keeps the text that was read.
pub proof fn failed_write_pastes_nothing(text: Seq<char>, rest: Seq<ReplyView>)
    requires
        text.len() > 0,
    ensures
        ({
            let t = trace(dones(8) + seq![ReplyView::Text(text), ReplyView::Failed] + rest);
            &&& t == copy_steps() + seq![
                ActionView::WriteClipboard(flattened(text)),
                ActionView::Finish(Err(PipelineError::ClipboardWriteFailure)),
            ]
            &&& forall|i: int|
                0 <= i < t.len() ==> #[trigger] t[i] != ActionView::Press(Key::KeyV) && (
                t[i] is WriteClipboard ==> i == 9)
        }),
{
    let tail = seq![ReplyView::Text(text), ReplyView::Failed] + rest;
    assert(dones(8) + seq![ReplyView::Text(text), ReplyView::Failed] + rest =~= dones(8) + tail);
    lemma_run_through_steps(initial(), 8, tail);
    let at_read = PipelineView { phase: PhaseView::Copying, pos: 8 };
    let at_write = PipelineView { phase: PhaseView::Pasting(flattened(text)), pos: 0 };
    let done = PipelineView { phase: PhaseView::Finished, pos: 0 };
    let write = ActionView::WriteClipboard(flattened(text));
    let fin = ActionView::Finish(Err(PipelineError::ClipboardWriteFailure));
    assert(tail[0] == ReplyView::Text(text));
    assert(next(at_read, tail[0]) == (at_write, write));
    let tail2 = tail.drop_first();
    assert(tail2[0] == ReplyView::Failed);
    assert(next(at_write, tail2[0]) == (done, fin));
    lemma_run_finished(done, tail2.drop_first());
    assert(run(at_write, tail2) =~= seq![fin]);
    assert(run(at_read, tail) =~= seq![write, fin]);
    let t = trace(dones(8) + tail);
    assert(t =~= copy_steps() + seq![write, fin]);
}

enum Phase {
    Copying,
    Pasting(String),
    Finished,
}

/// The state of one run of the transaction.
pub struct Pipeline {
    phase: Phase,
    pos: usize,
}

impl View for Pipeline {
    type V = PipelineView;

    closed spec fn view(&self) -> PipelineView {
        PipelineView {
            phase: match self.phase {
                Phase::Copying => PhaseView::Copying,
                Phase::Pasting(t) => PhaseView::Pasting(t@),
                Phase::Finished => PhaseView::Finished,
            },
            pos: self.pos as nat,
        }
    }
}

/// The action at position `i` of a chord.
pub fn chord_action(chord: Chord, i: usize) -> (r: Action)
    requires
        i < CHORD_LEN,
    ensures
        r@ == chord_steps(chord)[i as int],
{
    let letter = match chord {
        Chord::Copy => Key::KeyC,
        Chord::Paste => Key::KeyV,
    };
    if i == 0 {
        Action::Press(Key::ControlLeft)
    } else if i == 2 {
        Action::Press(letter)
    } else if i == 4 {
        Action::Release(letter)
    } else if i == 6 {
        Action::Release(Key::ControlLeft)
    } else {
        Action::Wait(KEY_DELAY_MS)
    }
}

impl Pipeline {
    /// Well-formed: a run that goes on points into the steps of its phase.
    pub open spec fn wf(&self) -> bool {
        self@.phase is Finished || self@.pos < steps_of(self@.phase).len()
    }

    /// A run that has not started: its first action is the press of the
    /// modifier of the copy chord.
    pub fn new() -> (r: Pipeline)
        ensures
            r@ == initial(),
            r.wf(),
    {
        Pipeline { phase: Phase::Copying, pos: 0 }
    }

    /// Whether the run is over.
    pub fn is_finished(&self) -> (r: bool)
        ensures
            r == self@.phase is Finished,
    {
        match self.phase {
            Phase::Finished => true,
            _ => false,
        }
    }

    /// The action that awaits its reply.
    pub fn current(&self) -> (r: Action)
        requires
            self.wf(),
            !(self@.phase is Finished),
        ensures
            r@ == current_of(self@),
    {
        match &self.phase {
            Phase::Copying => {
                if self.pos < CHORD_LEN {
                    chord_action(Chord::Copy, self.pos)
                } else if self.pos == CHORD_LEN {
                    Action::Wait(SETTLE_DELAY_MS)
                } else {
                    Action::ReadClipboard
                }
            },
            Phase::Pasting(t) => {
                if self.pos == 0 {
                    Action::WriteClipboard(t.clone())
                } else if self.pos == 1 {
                    Action::Wait(SETTLE_DELAY_MS)
                } else {
                    chord_action(Chord::Paste, self.pos - 2)
                }
            },
            Phase::Finished => vstd::pervasive::unreached(),
        }
    }

    /// Whether `reply` is one that the action awaiting it can get.
    pub fn accepts(&self, reply: &Reply) -> (r: bool)
        requires
            self.wf(),
        ensures
            r == (!(self@.phase is Finished) && fits(current_of(self@), reply@)),
    {
        if self.is_finished() {
            return false;
        }
        let a = self.current();
        match (&a, reply) {
            (Action::Press(_), Reply::Done) | (Action::Press(_), Reply::Failed) => true,
            (Action::Release(_), Reply::Done) | (Action::Release(_), Reply::Failed) => true,
            (Action::WriteClipboard(_), Reply::Done) | (Action::WriteClipboard(_), Reply::Failed) => true,
            (Action::Wait(_), Reply::Done) => true,
            (Action::ReadClipboard, Reply::Text(_)) | (Action::ReadClipboard, Reply::Failed) => true,
            _ => false,
        }
    }

    /// Takes the reply to the action awaiting it and hands out the next
    /// action; the text that was read is flattened here before it is written.
    pub fn advance(&mut self, reply: Reply) -> (r: Action)
        requires
            old(self).wf(),
            !(old(self)@.phase is Finished),
            fits(current_of(old(self)@), reply@),
        ensures
            final(self).wf(),
            (final(self)@, r@) == next(old(self)@, reply@),
    {
        match reply {
            Reply::Failed => {
                let err = if self.pos == 0 && matches!(self.phase, Phase::Pasting(_)) {
                    PipelineError::ClipboardWriteFailure
                } else if matches!(self.phase, Phase::Pasting(_)) {
                    PipelineError::SimulationFailure(Chord::Paste)
                } else if self.pos == CHORD_LEN + 1 {
                    PipelineError::ClipboardReadFailure
                } else {
                    PipelineError::SimulationFailure(Chord::Copy)
                };
                self.phase = Phase::Finished;
                self.pos = 0;
                Action::Finish(Err(err))
            },
            Reply::Text(t) => {
                if t.as_str().is_empty() {
                    self.phase = Phase::Finished;
                    self.pos = 0;
                    Action::Finish(Ok(Completion::SkippedEmpty))
                } else {
                    let flat = remove_newlines(t.as_str());
                    let out = flat.clone();
                    self.phase = Phase::Pasting(flat);
                    self.pos = 0;
                    Action::WriteClipboard(out)
                }
            },
            Reply::Done => {
                // Both halves of a run have two steps besides their chord.
                if self.pos + 1 < CHORD_LEN + 2 {
                    self.pos = self.pos + 1;
                    self.current()
                } else {
                    self.phase = Phase::Finished;
                    self.pos = 0;
                    Action::Finish(Ok(Completion::Pasted))
                }
            },
        }
    }
}

} // verus!
