//! Selection mediator: relays the nested chooser's "entry chosen" event
//! outward, swallowing any event that carries no selection. Deselection is
//! not a legal outward state — once a visualization has been chosen the bar
//! offers no way back to "nothing chosen" — so empty picks, which the
//! chooser can emit while it reinitializes, are dropped silently.

use vstd::prelude::*;

verus! {

/// Identifier of a visualization that the chooser can pick.
pub type VisId = u64;

/// What the mediator forwards outward for one chooser pick: `None` when the
/// event is swallowed, `Some(payload)` when an outward event fires. The
/// payload keeps the chooser's optional shape, and the mediator guarantees
/// it is never the empty value.
pub open spec fn chosen_forward(entry: Option<VisId>) -> Option<Option<VisId>> {
    if entry is Some {
        Some(entry)
    } else {
        None
    }
}

/// The mediator never emits an empty payload, for any chosen-entry event.
pub proof fn lemma_no_empty_selection(entry: Option<VisId>)
    ensures
        chosen_forward(entry) matches Some(payload) ==> payload is Some,
{
}

/// The executable mediator. Its view is the last externally confirmed
/// choice.
pub struct SelectionMediator {
    selected: Option<VisId>,
}

impl View for SelectionMediator {
    type V = Option<VisId>;

    closed spec fn view(&self) -> Option<VisId> {
        self.selected
    }
}

impl SelectionMediator {
    /// A mediator with nothing chosen yet.
    pub fn new() -> (m: Self)
        ensures
            m@ is None,
    {
        SelectionMediator { selected: None }
    }

    /// The last externally confirmed choice.
    pub fn selected(&self) -> (v: Option<VisId>)
        ensures
            v == self@,
    {
        self.selected
    }

    /// The chooser picked an entry. A concrete pick is recorded and
    /// forwarded outward; an empty pick is swallowed and the recorded
    /// choice stands.
    pub fn on_chosen_entry(&mut self, entry: Option<VisId>) -> (emitted: Option<Option<VisId>>)
        ensures
            emitted == chosen_forward(entry),
            entry is Some ==> final(self)@ == entry,
            entry is None ==> final(self)@ == old(self)@,
            emitted matches Some(payload) ==> payload is Some,
    {
        match entry {
            Some(id) => {
                self.selected = Some(id);
                Some(Some(id))
            },
            None => None,
        }
    }

    /// External command: seed or update the chooser's displayed choice. The
    /// command is routed onward to the chooser and produces no outward
    /// selection event.
    pub fn set_selected(&mut self, choice: Option<VisId>) -> (to_chooser: Option<VisId>)
        ensures
            final(self)@ == choice,
            to_chooser == choice,
    {
        self.selected = choice;
        choice
    }
}

} // verus!
