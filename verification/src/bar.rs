//! The action bar's command/event surface: the composition of the
//! visibility machine, the drag machine, the reset-icon controller, the
//! selection mediator and the gated input-type relay.
//!
//! All inputs arrive as discrete events on one logical event loop. One call
//! of [`ActionBar::step`] is one propagation step: the sub-machines are
//! updated in dependency order (hover flags before visibility, visibility
//! before the relay, drag state before the reset icon), so a single input
//! is observed consistently by everything downstream, and the emitted
//! outputs are returned to the caller as one record.

use vstd::prelude::*;

use crate::drag::DragEvent;
use crate::drag::DragMachine;
use crate::drag::drag_run;
use crate::relay::InputType;
use crate::relay::InputTypeRelay;
use crate::relay::RelayState;
use crate::relay::relay_init;
use crate::relay::relay_show;
use crate::relay::relay_show_forward;
use crate::relay::relay_update;
use crate::relay::relay_update_forward;
use crate::reset_icon::ResetIconController;
use crate::selection::SelectionMediator;
use crate::selection::VisId;
use crate::selection::chosen_forward;
use crate::visibility::VisEvent;
use crate::visibility::VisState;
use crate::visibility::VisibilityMachine;
use crate::visibility::hide_request;
use crate::visibility::vis_event_wf;
use crate::visibility::vis_init;
use crate::visibility::vis_run;
use crate::visibility::vis_step;

verus! {

/// One input on the action bar's surface: an external command, a raw
/// pointer edge from one of the hover sources or icons, or a notification
/// from the nested chooser.
#[derive(Clone, Copy, Debug, PartialEq, Eq)]
pub enum BarEvent {
    /// Command: show the bar.
    ShowIcons,
    /// Command: hide the bar.
    HideIcons,
    /// Command: seed or update the chooser's displayed choice.
    SetSelectedVisualization(Option<VisId>),
    /// The type-inference side pushed the current input type.
    SetVisInputType(Option<InputType>),
    /// The pointer entered the hover source with this index.
    HoverEnter(usize),
    /// The pointer left the hover source with this index.
    HoverLeave(usize),
    /// The nested chooser reported whether its menu is currently open.
    MenuVisibility(bool),
    /// The nested chooser reported that its menu closed.
    MenuClosed,
    /// The nested chooser picked an entry (possibly the empty one).
    ChosenEntry(Option<VisId>),
    /// Primary button down on the drag icon.
    DragIconPressed,
    /// Primary button up anywhere on the scene.
    PointerReleased,
    /// Primary button down on the reset icon.
    ResetIconPressed,
}

/// Everything one propagation step can emit. A `bool` field is an edge
/// event that either fired or did not; an `Option` field is an event with a
/// payload, `None` when it did not fire. Level signals (`is_visible`,
/// `container_drag_state`, `reset_icon_visible`) are broadcast on change.
#[derive(Clone, Copy, Debug, PartialEq, Eq)]
pub struct Outputs {
    /// Outward: a concrete visualization was chosen. The payload keeps the
    /// chooser's optional shape but is never the empty value.
    pub visualisation_selection: Option<Option<VisId>>,
    /// Outward: aggregated hover-enter edge.
    pub mouse_over: bool,
    /// Outward: aggregated hover-leave edge.
    pub mouse_out: bool,
    /// Outward: the reset icon was pressed.
    pub on_container_reset_position: bool,
    /// Outward: the dragging level changed to this value.
    pub container_drag_state: Option<bool>,
    /// Outward: the bar's visibility level changed to this value.
    pub is_visible: Option<bool>,
    /// To the rendering layer: the reset icon's visibility changed.
    pub reset_icon_visible: Option<bool>,
    /// To the nested chooser: set its displayed choice.
    pub chooser_set_selected: Option<Option<VisId>>,
    /// To the nested chooser: the current input type.
    pub chooser_set_input_type: Option<Option<InputType>>,
    /// To the nested chooser: close the selection menu.
    pub chooser_hide_menu: bool,
}

/// The step that emitted nothing.
pub open spec fn no_outputs() -> Outputs {
    Outputs {
        visualisation_selection: None,
        mouse_over: false,
        mouse_out: false,
        on_container_reset_position: false,
        container_drag_state: None,
        is_visible: None,
        reset_icon_visible: None,
        chooser_set_selected: None,
        chooser_set_input_type: None,
        chooser_hide_menu: false,
    }
}

/// Mathematical state of the whole bar.
#[verifier::ext_equal]
pub struct BarState {
    /// The visibility machine's state.
    pub vis: VisState,
    /// Whether a drag session is in progress.
    pub dragging: bool,
    /// Whether the reset icon is shown.
    pub reset_icon_visible: bool,
    /// The last externally confirmed choice.
    pub selected: Option<VisId>,
    /// The gated relay's state.
    pub relay: RelayState,
}

/// The initial state over `n` hover sources: hidden, idle, nothing chosen,
/// nothing cached.
pub open spec fn bar_init(n: nat) -> BarState {
    BarState {
        vis: vis_init(n),
        dragging: false,
        reset_icon_visible: false,
        selected: None,
        relay: relay_init(),
    }
}

/// Hover events carry a source index that must name one of the `n` sources.
pub open spec fn bar_event_wf(e: BarEvent, n: int) -> bool {
    match e {
        BarEvent::HoverEnter(i) => (i as int) < n,
        BarEvent::HoverLeave(i) => (i as int) < n,
        _ => true,
    }
}

/// The visibility-machine event behind a bar event, if it drives one.
pub open spec fn vis_event_of(e: BarEvent) -> Option<VisEvent> {
    match e {
        BarEvent::ShowIcons => Some(VisEvent::Show),
        BarEvent::HideIcons => Some(VisEvent::Hide),
        BarEvent::HoverEnter(i) => Some(VisEvent::HoverEnter(i)),
        BarEvent::HoverLeave(i) => Some(VisEvent::HoverLeave(i)),
        BarEvent::MenuVisibility(b) => Some(VisEvent::MenuVisibility(b)),
        BarEvent::MenuClosed => Some(VisEvent::MenuClosed),
        _ => None,
    }
}

/// State after an event that drives the visibility machine: the machine
/// steps first; if the bar turned visible, the relay forwards its cached
/// value.
pub open spec fn bar_step_vis_state(s: BarState, ve: VisEvent) -> BarState {
    let vis = vis_step(s.vis, ve);
    let relay = if !s.vis.visible && vis.visible {
        relay_show(s.relay)
    } else {
        s.relay
    };
    BarState {
        vis,
        dragging: s.dragging,
        reset_icon_visible: s.reset_icon_visible,
        selected: s.selected,
        relay,
    }
}

/// Outputs of an event that drives the visibility machine: the hover edge
/// is forwarded outward; a visibility change is broadcast; a hide request
/// closes the nested menu; turning visible forwards the relay's cached
/// value.
pub open spec fn bar_step_vis_outputs(s: BarState, ve: VisEvent) -> Outputs {
    let vis = vis_step(s.vis, ve);
    let became_visible = !s.vis.visible && vis.visible;
    Outputs {
        visualisation_selection: None,
        mouse_over: (ve is HoverEnter),
        mouse_out: (ve is HoverLeave),
        on_container_reset_position: false,
        container_drag_state: None,
        is_visible: if vis.visible != s.vis.visible {
            Some(vis.visible)
        } else {
            None
        },
        reset_icon_visible: None,
        chooser_set_selected: None,
        chooser_set_input_type: if became_visible {
            relay_show_forward(s.relay)
        } else {
            None
        },
        chooser_hide_menu: hide_request(vis.hovered, vis.menu_open, ve),
    }
}

/// The pure transition function of the whole bar: the next state.
pub open spec fn bar_step_state(s: BarState, e: BarEvent) -> BarState {
    match e {
        BarEvent::ShowIcons => bar_step_vis_state(s, VisEvent::Show),
        BarEvent::HideIcons => bar_step_vis_state(s, VisEvent::Hide),
        BarEvent::HoverEnter(i) => bar_step_vis_state(s, VisEvent::HoverEnter(i)),
        BarEvent::HoverLeave(i) => bar_step_vis_state(s, VisEvent::HoverLeave(i)),
        BarEvent::MenuVisibility(b) => bar_step_vis_state(s, VisEvent::MenuVisibility(b)),
        BarEvent::MenuClosed => bar_step_vis_state(s, VisEvent::MenuClosed),
        BarEvent::SetSelectedVisualization(choice) => BarState {
            vis: s.vis,
            dragging: s.dragging,
            reset_icon_visible: s.reset_icon_visible,
            selected: choice,
            relay: s.relay,
        },
        BarEvent::SetVisInputType(value) => BarState {
            vis: s.vis,
            dragging: s.dragging,
            reset_icon_visible: s.reset_icon_visible,
            selected: s.selected,
            relay: relay_update(s.relay, value, s.vis.visible),
        },
        BarEvent::ChosenEntry(entry) => BarState {
            vis: s.vis,
            dragging: s.dragging,
            reset_icon_visible: s.reset_icon_visible,
            selected: if entry is Some {
                entry
            } else {
                s.selected
            },
            relay: s.relay,
        },
        BarEvent::DragIconPressed => BarState {
            vis: s.vis,
            dragging: true,
            reset_icon_visible: true,
            selected: s.selected,
            relay: s.relay,
        },
        BarEvent::PointerReleased => BarState {
            vis: s.vis,
            dragging: false,
            reset_icon_visible: false,
            selected: s.selected,
            relay: s.relay,
        },
        BarEvent::ResetIconPressed => s,
    }
}

/// The pure transition function of the whole bar: the emitted outputs.
pub open spec fn bar_step_outputs(s: BarState, e: BarEvent) -> Outputs {
    match e {
        BarEvent::ShowIcons => bar_step_vis_outputs(s, VisEvent::Show),
        BarEvent::HideIcons => bar_step_vis_outputs(s, VisEvent::Hide),
        BarEvent::HoverEnter(i) => bar_step_vis_outputs(s, VisEvent::HoverEnter(i)),
        BarEvent::HoverLeave(i) => bar_step_vis_outputs(s, VisEvent::HoverLeave(i)),
        BarEvent::MenuVisibility(b) => bar_step_vis_outputs(s, VisEvent::MenuVisibility(b)),
        BarEvent::MenuClosed => bar_step_vis_outputs(s, VisEvent::MenuClosed),
        BarEvent::SetSelectedVisualization(choice) => Outputs {
            chooser_set_selected: Some(choice),
            ..no_outputs()
        },
        BarEvent::SetVisInputType(value) => Outputs {
            chooser_set_input_type: relay_update_forward(s.relay, value, s.vis.visible),
            ..no_outputs()
        },
        BarEvent::ChosenEntry(entry) => Outputs {
            visualisation_selection: chosen_forward(entry),
            ..no_outputs()
        },
        BarEvent::DragIconPressed => Outputs {
            container_drag_state: if !s.dragging {
                Some(true)
            } else {
                None
            },
            reset_icon_visible: if !s.reset_icon_visible {
                Some(true)
            } else {
                None
            },
            ..no_outputs()
        },
        BarEvent::PointerReleased => Outputs {
            container_drag_state: if s.dragging {
                Some(false)
            } else {
                None
            },
            reset_icon_visible: if s.reset_icon_visible {
                Some(false)
            } else {
                None
            },
            ..no_outputs()
        },
        BarEvent::ResetIconPressed => Outputs { on_container_reset_position: true, ..no_outputs() },
    }
}

/// The bar run over a whole event sequence, first event first.
pub open spec fn bar_run(s: BarState, events: Seq<BarEvent>) -> BarState
    decreases events.len(),
{
    if events.len() == 0 {
        s
    } else {
        bar_step_state(bar_run(s, events.drop_last()), events.last())
    }
}

/// The visibility-machine events behind a whole bar event sequence, in
/// order.
pub open spec fn vis_events_of(events: Seq<BarEvent>) -> Seq<VisEvent>
    decreases events.len(),
{
    if events.len() == 0 {
        Seq::empty()
    } else {
        match vis_event_of(events.last()) {
            Some(ve) => vis_events_of(events.drop_last()).push(ve),
            None => vis_events_of(events.drop_last()),
        }
    }
}

/// The composition changes nothing about visibility: after any bar event
/// sequence, the bar's visibility state is the visibility machine run over
/// the projected events. Together with the machine's latest-request-wins
/// law this characterises the whole bar's visible flag.
pub proof fn lemma_bar_visibility_follows_machine(s: BarState, events: Seq<BarEvent>)
    ensures
        bar_run(s, events).vis == vis_run(s.vis, vis_events_of(events)),
    decreases events.len(),
{
    if events.len() > 0 {
        let prefix = events.drop_last();
        lemma_bar_visibility_follows_machine(s, prefix);
        match vis_event_of(events.last()) {
            Some(ve) => {
                let ves = vis_events_of(prefix).push(ve);
                assert(ves.drop_last() =~= vis_events_of(prefix));
                assert(ves.last() == ve);
            },
            None => {},
        }
    }
}

/// The drag-machine events behind a whole bar event sequence, in order.
pub open spec fn drag_events_of(events: Seq<BarEvent>) -> Seq<DragEvent>
    decreases events.len(),
{
    if events.len() == 0 {
        Seq::empty()
    } else {
        match events.last() {
            BarEvent::DragIconPressed => drag_events_of(events.drop_last()).push(DragEvent::Press),
            BarEvent::PointerReleased => drag_events_of(events.drop_last()).push(
                DragEvent::Release,
            ),
            _ => drag_events_of(events.drop_last()),
        }
    }
}

/// The composition changes nothing about dragging either: after any bar
/// event sequence, the bar's dragging flag is the drag machine run over the
/// projected press and release events, so the one-end-per-start law holds
/// of the whole bar.
pub proof fn lemma_bar_drag_follows_machine(s: BarState, events: Seq<BarEvent>)
    ensures
        bar_run(s, events).dragging == drag_run(s.dragging, drag_events_of(events)),
    decreases events.len(),
{
    if events.len() > 0 {
        let prefix = events.drop_last();
        lemma_bar_drag_follows_machine(s, prefix);
        match events.last() {
            BarEvent::DragIconPressed => {
                let des = drag_events_of(prefix).push(DragEvent::Press);
                assert(des.drop_last() =~= drag_events_of(prefix));
            },
            BarEvent::PointerReleased => {
                let des = drag_events_of(prefix).push(DragEvent::Release);
                assert(des.drop_last() =~= drag_events_of(prefix));
            },
            _ => {},
        }
    }
}

/// The bar never emits an outward selection with an empty payload, whatever
/// the event and whatever the state.
pub proof fn lemma_bar_never_emits_empty_selection(s: BarState, e: BarEvent)
    ensures
        bar_step_outputs(s, e).visualisation_selection matches Some(payload) ==> payload is Some,
{
}

/// An input type that arrives while the bar is hidden is not forwarded on
/// the spot; when the bar is shown just after, with no further update in
/// between, the chooser receives exactly one forward carrying that value.
/// The restriction says only that the value is not already the last one
/// forwarded: for a repeated value the de-duplication rule suppresses the
/// second forward.
pub proof fn lemma_hidden_input_type_forwarded_once_on_show(s: BarState, value: Option<InputType>)
    requires
        !s.vis.visible,
        s.relay.forwarded != Some(value),
    ensures
        (bar_step_outputs(s, BarEvent::SetVisInputType(value)).chooser_set_input_type is None),
        bar_step_outputs(
            bar_step_state(s, BarEvent::SetVisInputType(value)),
            BarEvent::ShowIcons,
        ).chooser_set_input_type == Some(value),
{
}

/// The bar's invariant: the reset icon mirrors the drag state.
pub open spec fn bar_wf(s: BarState) -> bool {
    s.reset_icon_visible == s.dragging
}

/// The reset icon's visibility equals the dragging flag at every
/// observation point: it holds initially and every step keeps it.
pub proof fn lemma_reset_icon_tracks_drag(s: BarState, e: BarEvent)
    requires
        bar_wf(s),
    ensures
        bar_wf(bar_step_state(s, e)),
{
}

/// The same, over any whole run from the initial state.
pub proof fn lemma_reset_icon_tracks_drag_always(n: nat, events: Seq<BarEvent>)
    ensures
        bar_wf(bar_run(bar_init(n), events)),
    decreases events.len(),
{
    if events.len() > 0 {
        lemma_reset_icon_tracks_drag_always(n, events.drop_last());
    }
}

/// The executable action bar. Its view is the [`BarState`] reached by the
/// events handed to [`Self::step`].
pub struct ActionBar {
    visibility: VisibilityMachine,
    drag: DragMachine,
    reset_icon: ResetIconController,
    selection: SelectionMediator,
    relay: InputTypeRelay,
}

impl View for ActionBar {
    type V = BarState;

    closed spec fn view(&self) -> BarState {
        BarState {
            vis: self.visibility@,
            dragging: self.drag@,
            reset_icon_visible: self.reset_icon@,
            selected: self.selection@,
            relay: self.relay@,
        }
    }
}

impl ActionBar {
    /// A bar over `n_sources` hover sources, in the initial state: hidden,
    /// idle, nothing chosen, nothing cached.
    pub fn new(n_sources: usize) -> (bar: Self)
        ensures
            bar@ == bar_init(n_sources as nat),
    {
        let bar = ActionBar {
            visibility: VisibilityMachine::new(n_sources),
            drag: DragMachine::new(),
            reset_icon: ResetIconController::new(),
            selection: SelectionMediator::new(),
            relay: InputTypeRelay::new(),
        };
        proof {
            assert(bar@ =~= bar_init(n_sources as nat));
        }
        bar
    }

    /// The number of hover sources.
    pub fn n_sources(&self) -> (n: usize)
        ensures
            n == self@.vis.hovered.len(),
    {
        self.visibility.n_sources()
    }

    /// Whether the bar is currently visible.
    pub fn is_visible(&self) -> (b: bool)
        ensures
            b == self@.vis.visible,
    {
        self.visibility.is_visible()
    }

    /// Whether a drag session is in progress.
    pub fn is_dragging(&self) -> (b: bool)
        ensures
            b == self@.dragging,
    {
        self.drag.is_dragging()
    }

    /// Whether the reset icon is currently shown.
    pub fn reset_icon_visible(&self) -> (b: bool)
        ensures
            b == self@.reset_icon_visible,
    {
        self.reset_icon.is_visible()
    }

    /// The last externally confirmed choice.
    pub fn selected_visualization(&self) -> (v: Option<VisId>)
        ensures
            v == self@.selected,
    {
        self.selection.selected()
    }

    /// One propagation step: feed one event through every concerned
    /// sub-machine, in dependency order, and collect what was emitted.
    pub fn step(&mut self, e: &BarEvent) -> (out: Outputs)
        requires
            bar_event_wf(*e, old(self)@.vis.hovered.len() as int),
        ensures
            final(self)@ == bar_step_state(old(self)@, *e),
            out == bar_step_outputs(old(self)@, *e),
    {
        let mut out = Outputs {
            visualisation_selection: None,
            mouse_over: false,
            mouse_out: false,
            on_container_reset_position: false,
            container_drag_state: None,
            is_visible: None,
            reset_icon_visible: None,
            chooser_set_selected: None,
            chooser_set_input_type: None,
            chooser_hide_menu: false,
        };
        match e {
            BarEvent::ShowIcons => self.step_visibility(VisEvent::Show, &mut out),
            BarEvent::HideIcons => self.step_visibility(VisEvent::Hide, &mut out),
            BarEvent::HoverEnter(i) => {
                self.step_visibility(VisEvent::HoverEnter(*i), &mut out);
                out.mouse_over = true;
            },
            BarEvent::HoverLeave(i) => {
                self.step_visibility(VisEvent::HoverLeave(*i), &mut out);
                out.mouse_out = true;
            },
            BarEvent::MenuVisibility(b) => self.step_visibility(VisEvent::MenuVisibility(*b), &mut out),
            BarEvent::MenuClosed => self.step_visibility(VisEvent::MenuClosed, &mut out),
            BarEvent::SetSelectedVisualization(choice) => {
                out.chooser_set_selected = Some(self.selection.set_selected(*choice));
            },
            BarEvent::SetVisInputType(value) => {
                let visible = self.visibility.is_visible();
                out.chooser_set_input_type = self.relay.on_set_input_type(*value, visible);
            },
            BarEvent::ChosenEntry(entry) => {
                out.visualisation_selection = self.selection.on_chosen_entry(*entry);
            },
            BarEvent::DragIconPressed => {
                let started = self.drag.press();
                if started {
                    out.container_drag_state = Some(true);
                }
                out.reset_icon_visible = self.reset_icon.on_drag_state(true);
            },
            BarEvent::PointerReleased => {
                let ended = self.drag.release();
                if ended {
                    out.container_drag_state = Some(false);
                }
                out.reset_icon_visible = self.reset_icon.on_drag_state(false);
            },
            BarEvent::ResetIconPressed => {
                out.on_container_reset_position = true;
            },
        }
        proof {
            assert(self@ =~= bar_step_state(old(self)@, *e));
        }
        out
    }

    /// Drive the visibility machine and, on the turn to visible, the relay.
    fn step_visibility(&mut self, ve: VisEvent, out: &mut Outputs)
        requires
            vis_event_wf(ve, old(self)@.vis.hovered.len() as int),
        ensures
            final(self)@ == bar_step_vis_state(old(self)@, ve),
            *final(out) == (Outputs {
                mouse_over: old(out).mouse_over,
                mouse_out: old(out).mouse_out,
                is_visible: bar_step_vis_outputs(old(self)@, ve).is_visible,
                chooser_set_input_type: bar_step_vis_outputs(old(self)@, ve).chooser_set_input_type,
                chooser_hide_menu: bar_step_vis_outputs(old(self)@, ve).chooser_hide_menu,
                visualisation_selection: old(out).visualisation_selection,
                on_container_reset_position: old(out).on_container_reset_position,
                container_drag_state: old(out).container_drag_state,
                reset_icon_visible: old(out).reset_icon_visible,
                chooser_set_selected: old(out).chooser_set_selected,
            }),
    {
        let was_visible = self.visibility.is_visible();
        let r = self.visibility.step(&ve);
        let now_visible = self.visibility.is_visible();
        out.is_visible = if now_visible != was_visible {
            Some(now_visible)
        } else {
            None
        };
        out.chooser_set_input_type = if r.became_visible {
            self.relay.on_became_visible()
        } else {
            None
        };
        out.chooser_hide_menu = r.hide_requested;
        proof {
            assert(self@ =~= bar_step_vis_state(old(self)@, ve));
        }
    }
}

} // verus!
