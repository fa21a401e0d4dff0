//! Drag state machine: a single dragging flag, independent of visibility.
//! A press on the drag icon starts a drag session; the next global pointer
//! release ends it. A release with no drag in progress is a no-op, and a
//! second press while already dragging is ignored.

use vstd::prelude::*;

verus! {

/// One input of the drag state machine.
#[derive(Clone, Copy, Debug, PartialEq, Eq)]
pub enum DragEvent {
    /// Primary button down on the drag icon.
    Press,
    /// Primary button up, anywhere on the scene.
    Release,
}

/// The pure transition function: a press drags, a release ends the drag,
/// whatever the prior state.
pub open spec fn drag_step(dragging: bool, e: DragEvent) -> bool {
    match e {
        DragEvent::Press => true,
        DragEvent::Release => false,
    }
}

/// Whether the event starts a drag session: a press while idle.
pub open spec fn drag_started(dragging: bool, e: DragEvent) -> bool {
    e is Press && !dragging
}

/// Whether the event ends a drag session: a release while dragging. A
/// release while idle reports nothing, so unmatched releases are no-ops.
pub open spec fn drag_ended(dragging: bool, e: DragEvent) -> bool {
    e is Release && dragging
}

/// The machine run over a whole event sequence, first event first.
pub open spec fn drag_run(dragging: bool, events: Seq<DragEvent>) -> bool
    decreases events.len(),
{
    if events.len() == 0 {
        dragging
    } else {
        drag_step(drag_run(dragging, events.drop_last()), events.last())
    }
}

/// How many events of the sequence start a drag session.
pub open spec fn drag_start_count(dragging: bool, events: Seq<DragEvent>) -> nat
    decreases events.len(),
{
    if events.len() == 0 {
        0
    } else {
        drag_start_count(dragging, events.drop_last()) + if drag_started(
            drag_run(dragging, events.drop_last()),
            events.last(),
        ) {
            1nat
        } else {
            0nat
        }
    }
}

/// How many events of the sequence end a drag session.
pub open spec fn drag_end_count(dragging: bool, events: Seq<DragEvent>) -> nat
    decreases events.len(),
{
    if events.len() == 0 {
        0
    } else {
        drag_end_count(dragging, events.drop_last()) + if drag_ended(
            drag_run(dragging, events.drop_last()),
            events.last(),
        ) {
            1nat
        } else {
            0nat
        }
    }
}

/// Pressing the drag icon and next releasing the pointer always brings the
/// machine back to idle, and the release reports the end of the session.
pub proof fn lemma_press_release_returns_to_idle(dragging: bool)
    ensures
        drag_step(drag_step(dragging, DragEvent::Press), DragEvent::Release) == false,
        drag_ended(drag_step(dragging, DragEvent::Press), DragEvent::Release),
{
}

/// A release with no drag in progress is a no-op: the machine stays idle and
/// no end of a session is reported.
pub proof fn lemma_release_without_press_is_noop()
    ensures
        drag_step(false, DragEvent::Release) == false,
        !drag_ended(false, DragEvent::Release),
{
}

/// Sessions end exactly once per start: over any event sequence, the ends
/// reported balance the starts reported, up to the session still open at
/// either boundary. In particular a run that starts and finishes idle
/// reports exactly one end per start.
pub proof fn lemma_one_end_per_start(dragging: bool, events: Seq<DragEvent>)
    ensures
        drag_end_count(dragging, events) + (if drag_run(dragging, events) {
            1nat
        } else {
            0nat
        }) == drag_start_count(dragging, events) + (if dragging {
            1nat
        } else {
            0nat
        }),
    decreases events.len(),
{
    if events.len() > 0 {
        lemma_one_end_per_start(dragging, events.drop_last());
    }
}

/// The executable drag machine. Its view is the dragging flag.
pub struct DragMachine {
    dragging: bool,
}

impl View for DragMachine {
    type V = bool;

    closed spec fn view(&self) -> bool {
        self.dragging
    }
}

impl DragMachine {
    /// A machine with no drag in progress.
    pub fn new() -> (m: Self)
        ensures
            !m@,
    {
        DragMachine { dragging: false }
    }

    /// Whether a drag session is in progress.
    pub fn is_dragging(&self) -> (b: bool)
        ensures
            b == self@,
    {
        self.dragging
    }

    /// Primary button down on the drag icon. Reports whether this press
    /// started a session; a press while already dragging reports nothing.
    pub fn press(&mut self) -> (started: bool)
        ensures
            final(self)@ == drag_step(old(self)@, DragEvent::Press),
            started == drag_started(old(self)@, DragEvent::Press),
    {
        let started = !self.dragging;
        self.dragging = true;
        started
    }

    /// Primary button up anywhere. Reports whether this release ended a
    /// session; a release while idle reports nothing and changes nothing.
    pub fn release(&mut self) -> (ended: bool)
        ensures
            final(self)@ == drag_step(old(self)@, DragEvent::Release),
            ended == drag_ended(old(self)@, DragEvent::Release),
    {
        let ended = self.dragging;
        self.dragging = false;
        ended
    }
}

} // verus!
