//! Visibility state machine: aggregates hover edges from every sub-region,
//! explicit show/hide commands and the nested chooser menu's state into one
//! visible/hidden flag.
//!
//! The rule: any hover-enter edge or the explicit show command is a show
//! request and makes the bar visible. The explicit hide command, a
//! hover-leave edge that leaves no source hovered while the nested menu is
//! shut, and a menu-closed edge that fires while no source is hovered are
//! hide requests and make the bar hidden. Every other event leaves the flag
//! unchanged. Within one event the hover flags are updated before a hide
//! request is judged, so a hover-enter racing a menu-closed edge keeps the
//! bar visible.

use vstd::prelude::*;

use crate::hover::HoverSet;
use crate::hover::any_hovered;

verus! {

/// One input of the visibility state machine.
#[derive(Clone, Copy, Debug, PartialEq, Eq)]
pub enum VisEvent {
    /// Explicit command: show the bar.
    Show,
    /// Explicit command: hide the bar.
    Hide,
    /// The pointer entered the hover source with this index.
    HoverEnter(usize),
    /// The pointer left the hover source with this index.
    HoverLeave(usize),
    /// The nested chooser reported whether its menu is currently open.
    MenuVisibility(bool),
    /// The nested chooser reported that its menu closed.
    MenuClosed,
}

/// Mathematical state of the visibility machine.
#[verifier::ext_equal]
pub struct VisState {
    /// One "currently hovered" flag per hover source.
    pub hovered: Seq<bool>,
    /// The nested chooser menu's last reported open/shut state.
    pub menu_open: bool,
    /// Whether the bar is visible.
    pub visible: bool,
}

/// The initial state: `n` sources, none hovered, menu shut, bar hidden.
pub open spec fn vis_init(n: nat) -> VisState {
    VisState { hovered: Seq::new(n, |i: int| false), menu_open: false, visible: false }
}

/// Hover events carry a source index that must name one of the `n` sources.
pub open spec fn vis_event_wf(e: VisEvent, n: int) -> bool {
    match e {
        VisEvent::HoverEnter(i) => (i as int) < n,
        VisEvent::HoverLeave(i) => (i as int) < n,
        _ => true,
    }
}

/// How an event updates the hover flags.
pub open spec fn hover_update(h: Seq<bool>, e: VisEvent) -> Seq<bool> {
    match e {
        VisEvent::HoverEnter(i) => h.update(i as int, true),
        VisEvent::HoverLeave(i) => h.update(i as int, false),
        _ => h,
    }
}

/// How an event updates the menu-open level. Only the chooser's level signal
/// moves it; the menu-closed edge is consumed by the hide rule alone.
pub open spec fn menu_update(m: bool, e: VisEvent) -> bool {
    match e {
        VisEvent::MenuVisibility(b) => b,
        _ => m,
    }
}

/// A show request: the explicit show command or any hover-enter edge.
pub open spec fn show_request(e: VisEvent) -> bool {
    match e {
        VisEvent::Show => true,
        VisEvent::HoverEnter(_) => true,
        _ => false,
    }
}

/// A hide request, judged on the hover flags and menu level as they stand
/// after the event's own update: the explicit hide command, a hover-leave
/// that leaves no source hovered while the menu is shut, or a menu-closed
/// edge while no source is hovered.
pub open spec fn hide_request(hovered: Seq<bool>, menu_open: bool, e: VisEvent) -> bool {
    match e {
        VisEvent::Hide => true,
        VisEvent::HoverLeave(_) => !any_hovered(hovered) && !menu_open,
        VisEvent::MenuClosed => !any_hovered(hovered),
        _ => false,
    }
}

/// The pure transition function of the visibility machine.
pub open spec fn vis_step(s: VisState, e: VisEvent) -> VisState {
    let hovered = hover_update(s.hovered, e);
    let menu_open = menu_update(s.menu_open, e);
    let visible = if show_request(e) {
        true
    } else if hide_request(hovered, menu_open, e) {
        false
    } else {
        s.visible
    };
    VisState { hovered, menu_open, visible }
}

/// The machine run over a whole event sequence, first event first.
pub open spec fn vis_run(s: VisState, events: Seq<VisEvent>) -> VisState
    decreases events.len(),
{
    if events.len() == 0 {
        s
    } else {
        vis_step(vis_run(s, events.drop_last()), events.last())
    }
}

/// Whether the event at index `i` of `events`, run from `s0`, is a show or a
/// hide request at the moment it is processed.
pub open spec fn request_at(s0: VisState, events: Seq<VisEvent>, i: int) -> bool
    recommends
        0 <= i < events.len(),
{
    show_request(events[i]) || {
        let s = vis_run(s0, events.take(i));
        hide_request(hover_update(s.hovered, events[i]), menu_update(s.menu_open, events[i]), events[i])
    }
}

/// The visibility that the requests in `events` dictate: the most recent
/// show or hide request wins; with no request at all the initial visibility
/// stands.
pub open spec fn latest_request_visible(s0: VisState, events: Seq<VisEvent>) -> bool
    decreases events.len(),
{
    if events.len() == 0 {
        s0.visible
    } else if request_at(s0, events, events.len() - 1) {
        show_request(events.last())
    } else {
        latest_request_visible(s0, events.drop_last())
    }
}

/// After any event sequence the bar is visible exactly when the most recent
/// show or hide request among the events was a show request (a show command
/// or a hover-enter edge); with no request at all the initial visibility
/// stands. In particular an explicit show is in effect until a hide command
/// or a valid hide condition fires, and every hover-enter makes the bar
/// visible on the spot.
pub proof fn lemma_visibility_latest_request_wins(s0: VisState, events: Seq<VisEvent>)
    ensures
        vis_run(s0, events).visible == latest_request_visible(s0, events),
    decreases events.len(),
{
    if events.len() == 0 {
    } else {
        let prefix = events.drop_last();
        let k = events.len() - 1;
        lemma_visibility_latest_request_wins(s0, prefix);
        assert(events.take(k) =~= prefix);
        if !request_at(s0, events, k) {
            assert forall|i: int| 0 <= i < k implies request_at(s0, events, i) == request_at(
                s0,
                prefix,
                i,
            ) by {
                assert(events.take(i) =~= prefix.take(i));
            }
            lemma_latest_request_visible_drop_last(s0, events);
        }
    }
}

/// With no request in the last event, dropping it does not change what the
/// requests dictate.
proof fn lemma_latest_request_visible_drop_last(s0: VisState, events: Seq<VisEvent>)
    requires
        events.len() > 0,
        !request_at(s0, events, events.len() - 1),
    ensures
        latest_request_visible(s0, events) == latest_request_visible(s0, events.drop_last()),
{
}

/// No well-formed event changes the number of hover sources.
pub proof fn lemma_vis_run_keeps_len(s0: VisState, events: Seq<VisEvent>)
    requires
        forall|i: int|
            0 <= i < events.len() ==> vis_event_wf(
                #[trigger] events[i],
                s0.hovered.len() as int,
            ),
    ensures
        vis_run(s0, events).hovered.len() == s0.hovered.len(),
    decreases events.len(),
{
    if events.len() > 0 {
        let prefix = events.drop_last();
        assert forall|i: int| 0 <= i < prefix.len() implies vis_event_wf(
            #[trigger] prefix[i],
            s0.hovered.len() as int,
        ) by {
            assert(prefix[i] == events[i]);
        }
        lemma_vis_run_keeps_len(s0, prefix);
    }
}

/// A hovered source keeps the bar visible: over any event sequence free of
/// the explicit hide command and of menu-closed edges, if some source is
/// hovered after the run, the bar is visible after the run. (A hide command
/// hides the bar even while a source is hovered, so the restriction cannot
/// be dropped.)
pub proof fn lemma_hovered_implies_visible(s0: VisState, events: Seq<VisEvent>)
    requires
        any_hovered(s0.hovered) ==> s0.visible,
        forall|i: int|
            0 <= i < events.len() ==> vis_event_wf(
                #[trigger] events[i],
                s0.hovered.len() as int,
            ),
        forall|i: int|
            0 <= i < events.len() ==> !(#[trigger] events[i] is Hide) && !(events[i] is MenuClosed),
    ensures
        any_hovered(vis_run(s0, events).hovered) ==> vis_run(s0, events).visible,
    decreases events.len(),
{
    if events.len() == 0 {
    } else {
        let prefix = events.drop_last();
        let e = events.last();
        assert forall|i: int| 0 <= i < prefix.len() implies !(#[trigger] prefix[i] is Hide) && !(
        prefix[i] is MenuClosed) && vis_event_wf(prefix[i], s0.hovered.len() as int) by {
            assert(prefix[i] == events[i]);
        }
        lemma_vis_run_keeps_len(s0, prefix);
        lemma_hovered_implies_visible(s0, prefix);
        let s1 = vis_run(s0, prefix);
        let s2 = vis_run(s0, events);
        match e {
            VisEvent::HoverLeave(i) => {
                assert(s2 == vis_step(s1, e));
                assert(s2.hovered == s1.hovered.update(i as int, false));
                if any_hovered(s2.hovered) {
                    let j = choose|j: int| 0 <= j < s2.hovered.len() && s2.hovered[j];
                    assert(j != i as int);
                    assert(s1.hovered[j]);
                    assert(any_hovered(s1.hovered));
                }
            },
            _ => {},
        }
    }
}

/// The executable visibility machine. Its view is the [`VisState`] it would
/// reach by folding [`vis_step`] over the events handed to [`Self::step`].
pub struct VisibilityMachine {
    hovered: HoverSet,
    menu_open: bool,
    visible: bool,
}

impl View for VisibilityMachine {
    type V = VisState;

    closed spec fn view(&self) -> VisState {
        VisState { hovered: self.hovered@, menu_open: self.menu_open, visible: self.visible }
    }
}

/// What one step reports back to the caller.
#[derive(Clone, Copy, Debug, PartialEq, Eq)]
pub struct VisStepResult {
    /// The bar was hidden before the event and is visible after it.
    pub became_visible: bool,
    /// The event was a hide request (the bar is told to close its children
    /// and the nested menu on every such request, visible or not).
    pub hide_requested: bool,
}

impl VisibilityMachine {
    /// A machine over `n_sources` hover sources, in the initial state.
    pub fn new(n_sources: usize) -> (m: Self)
        ensures
            m@ == vis_init(n_sources as nat),
    {
        let m = VisibilityMachine {
            hovered: HoverSet::new(n_sources),
            menu_open: false,
            visible: false,
        };
        proof {
            assert(m@.hovered =~= vis_init(n_sources as nat).hovered);
            assert(m@ =~= vis_init(n_sources as nat));
        }
        m
    }

    /// The number of hover sources.
    pub fn n_sources(&self) -> (n: usize)
        ensures
            n == self@.hovered.len(),
    {
        self.hovered.len()
    }

    /// Whether the bar is currently visible.
    pub fn is_visible(&self) -> (b: bool)
        ensures
            b == self@.visible,
    {
        self.visible
    }

    /// Feed one event through the transition function.
    pub fn step(&mut self, e: &VisEvent) -> (r: VisStepResult)
        requires
            vis_event_wf(*e, old(self)@.hovered.len() as int),
        ensures
            final(self)@ == vis_step(old(self)@, *e),
            r.became_visible == (!old(self)@.visible && final(self)@.visible),
            r.hide_requested == hide_request(
                final(self)@.hovered,
                final(self)@.menu_open,
                *e,
            ),
    {
        let was_visible = self.visible;
        let mut hide_requested = false;
        match e {
            VisEvent::Show => {
                self.visible = true;
            },
            VisEvent::Hide => {
                self.visible = false;
                hide_requested = true;
            },
            VisEvent::HoverEnter(i) => {
                self.hovered.enter(*i);
                self.visible = true;
            },
            VisEvent::HoverLeave(i) => {
                self.hovered.leave(*i);
                if !self.hovered.is_any_hovered() && !self.menu_open {
                    self.visible = false;
                    hide_requested = true;
                }
            },
            VisEvent::MenuVisibility(b) => {
                self.menu_open = *b;
            },
            VisEvent::MenuClosed => {
                if !self.hovered.is_any_hovered() {
                    self.visible = false;
                    hide_requested = true;
                }
            },
        }
        proof {
            assert(self@ =~= vis_step(old(self)@, *e));
        }
        VisStepResult { became_visible: !was_visible && self.visible, hide_requested }
    }
}

} // verus!
