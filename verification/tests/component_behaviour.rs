//! Tests of the single state machines, driven directly.

use action_bar::drag::DragMachine;
use action_bar::hover::HoverSet;
use action_bar::relay::InputTypeRelay;
use action_bar::reset_icon::ResetIconController;
use action_bar::selection::SelectionMediator;
use action_bar::visibility::VisEvent;
use action_bar::visibility::VisibilityMachine;

#[test]
fn hover_set_tracks_each_source() {
    let mut hover = HoverSet::new(3);
    assert_eq!(hover.len(), 3);
    assert!(!hover.is_any_hovered());
    hover.enter(1);
    assert!(hover.is_any_hovered());
    hover.enter(2);
    hover.leave(1);
    assert!(hover.is_any_hovered());
    hover.leave(2);
    assert!(!hover.is_any_hovered());
}

#[test]
fn hover_set_enter_is_idempotent() {
    let mut hover = HoverSet::new(1);
    hover.enter(0);
    hover.enter(0);
    assert!(hover.is_any_hovered());
    hover.leave(0);
    assert!(!hover.is_any_hovered());
}

#[test]
fn visibility_machine_show_and_hide_requests() {
    let mut vis = VisibilityMachine::new(2);
    assert!(!vis.is_visible());

    let r = vis.step(&VisEvent::Show);
    assert!(vis.is_visible());
    assert!(r.became_visible);
    assert!(!r.hide_requested);

    let r = vis.step(&VisEvent::Show);
    assert!(!r.became_visible);

    let r = vis.step(&VisEvent::Hide);
    assert!(!vis.is_visible());
    assert!(r.hide_requested);
}

#[test]
fn visibility_machine_menu_gates_hover_leave() {
    let mut vis = VisibilityMachine::new(2);
    vis.step(&VisEvent::HoverEnter(0));
    vis.step(&VisEvent::MenuVisibility(true));

    let r = vis.step(&VisEvent::HoverLeave(0));
    assert!(vis.is_visible());
    assert!(!r.hide_requested);

    // The menu level goes down, but only the closed edge can hide.
    vis.step(&VisEvent::MenuVisibility(false));
    assert!(vis.is_visible());

    let r = vis.step(&VisEvent::MenuClosed);
    assert!(!vis.is_visible());
    assert!(r.hide_requested);
}

#[test]
fn visibility_machine_hover_beats_menu_closed() {
    let mut vis = VisibilityMachine::new(2);
    vis.step(&VisEvent::HoverEnter(1));
    let r = vis.step(&VisEvent::MenuClosed);
    assert!(vis.is_visible());
    assert!(!r.hide_requested);
}

#[test]
fn drag_machine_press_release_pairs() {
    let mut drag = DragMachine::new();
    assert!(!drag.is_dragging());

    assert!(drag.press());
    assert!(drag.is_dragging());
    assert!(!drag.press());

    assert!(drag.release());
    assert!(!drag.is_dragging());
    assert!(!drag.release());
}

#[test]
fn reset_icon_reports_only_changes() {
    let mut icon = ResetIconController::new();
    assert!(!icon.is_visible());
    assert_eq!(icon.on_drag_state(true), Some(true));
    assert_eq!(icon.on_drag_state(true), None);
    assert!(icon.is_visible());
    assert_eq!(icon.on_drag_state(false), Some(false));
    assert_eq!(icon.on_drag_state(false), None);
}

#[test]
fn mediator_swallows_empty_picks() {
    let mut mediator = SelectionMediator::new();
    assert_eq!(mediator.on_chosen_entry(None), None);
    assert_eq!(mediator.on_chosen_entry(Some(4)), Some(Some(4)));
    assert_eq!(mediator.selected(), Some(4));
    assert_eq!(mediator.on_chosen_entry(None), None);
    assert_eq!(mediator.selected(), Some(4));
}

#[test]
fn mediator_set_selected_can_reseed() {
    let mut mediator = SelectionMediator::new();
    assert_eq!(mediator.set_selected(Some(9)), Some(9));
    assert_eq!(mediator.selected(), Some(9));
    assert_eq!(mediator.set_selected(None), None);
    assert_eq!(mediator.selected(), None);
}

#[test]
fn relay_caches_while_hidden_and_forwards_on_show() {
    let mut relay = InputTypeRelay::new();
    assert_eq!(relay.on_set_input_type(Some(1), false), None);
    assert_eq!(relay.pending(), Some(1));
    assert_eq!(relay.on_set_input_type(Some(2), false), None);
    assert_eq!(relay.on_became_visible(), Some(Some(2)));
    // The same value is not forwarded twice.
    assert_eq!(relay.on_became_visible(), None);
}

#[test]
fn relay_forwards_immediately_while_visible() {
    let mut relay = InputTypeRelay::new();
    assert_eq!(relay.on_set_input_type(Some(3), true), Some(Some(3)));
    assert_eq!(relay.on_set_input_type(Some(3), true), None);
    assert_eq!(relay.on_set_input_type(None, true), Some(None));
}
