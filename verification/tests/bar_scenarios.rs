//! Scenario tests driving the whole action bar through its event surface.
//!
//! Hover sources: index 0 stands for the background-and-icons bundle,
//! index 1 for the nested chooser's own hover area.

use action_bar::bar::ActionBar;
use action_bar::bar::BarEvent;

const BACKGROUND: usize = 0;
const CHOOSER: usize = 1;

#[test]
fn hover_controls_visibility() {
    let mut bar = ActionBar::new(2);
    assert!(!bar.is_visible());

    let out = bar.step(&BarEvent::HoverEnter(BACKGROUND));
    assert!(bar.is_visible());
    assert!(out.mouse_over);
    assert!(!out.mouse_out);
    assert_eq!(out.is_visible, Some(true));

    let out = bar.step(&BarEvent::HoverEnter(CHOOSER));
    assert!(bar.is_visible());
    assert_eq!(out.is_visible, None);

    let out = bar.step(&BarEvent::HoverLeave(BACKGROUND));
    assert!(bar.is_visible());
    assert!(out.mouse_out);
    assert!(!out.chooser_hide_menu);

    let out = bar.step(&BarEvent::HoverLeave(CHOOSER));
    assert!(!bar.is_visible());
    assert_eq!(out.is_visible, Some(false));
    assert!(out.chooser_hide_menu);
}

#[test]
fn hide_command_wins_while_hovered() {
    let mut bar = ActionBar::new(2);
    bar.step(&BarEvent::HoverEnter(BACKGROUND));
    assert!(bar.is_visible());

    let out = bar.step(&BarEvent::HideIcons);
    assert!(!bar.is_visible());
    assert!(out.chooser_hide_menu);
}

#[test]
fn menu_keeps_bar_open_until_remote_close() {
    let mut bar = ActionBar::new(2);
    bar.step(&BarEvent::ShowIcons);
    assert!(bar.is_visible());

    bar.step(&BarEvent::HoverEnter(BACKGROUND));
    bar.step(&BarEvent::MenuVisibility(true));

    let out = bar.step(&BarEvent::HoverLeave(BACKGROUND));
    assert!(bar.is_visible());
    assert!(!out.chooser_hide_menu);

    let out = bar.step(&BarEvent::MenuClosed);
    assert!(!bar.is_visible());
    assert!(out.chooser_hide_menu);
}

#[test]
fn menu_closed_while_hovered_keeps_bar_visible() {
    let mut bar = ActionBar::new(2);
    bar.step(&BarEvent::HoverEnter(BACKGROUND));

    let out = bar.step(&BarEvent::MenuClosed);
    assert!(bar.is_visible());
    assert!(!out.chooser_hide_menu);
}

#[test]
fn menu_level_alone_does_not_show_the_bar() {
    let mut bar = ActionBar::new(2);
    let out = bar.step(&BarEvent::MenuVisibility(true));
    assert!(!bar.is_visible());
    assert_eq!(out.is_visible, None);
}

#[test]
fn latest_input_type_wins_on_show() {
    const INT: u64 = 1;
    const TEXT: u64 = 2;
    let mut bar = ActionBar::new(2);

    let out = bar.step(&BarEvent::SetVisInputType(Some(INT)));
    assert_eq!(out.chooser_set_input_type, None);
    let out = bar.step(&BarEvent::SetVisInputType(Some(TEXT)));
    assert_eq!(out.chooser_set_input_type, None);

    let out = bar.step(&BarEvent::ShowIcons);
    assert_eq!(out.chooser_set_input_type, Some(Some(TEXT)));

    // Still visible: no new edge, so nothing is forwarded again.
    let out = bar.step(&BarEvent::ShowIcons);
    assert_eq!(out.chooser_set_input_type, None);
}

#[test]
fn hidden_update_forwarded_on_hover_show() {
    let mut bar = ActionBar::new(2);
    let out = bar.step(&BarEvent::SetVisInputType(Some(42)));
    assert_eq!(out.chooser_set_input_type, None);

    let out = bar.step(&BarEvent::HoverEnter(BACKGROUND));
    assert_eq!(out.chooser_set_input_type, Some(Some(42)));
}

#[test]
fn input_type_deduplicated_while_visible() {
    let mut bar = ActionBar::new(2);
    bar.step(&BarEvent::ShowIcons);

    let out = bar.step(&BarEvent::SetVisInputType(Some(5)));
    assert_eq!(out.chooser_set_input_type, Some(Some(5)));
    let out = bar.step(&BarEvent::SetVisInputType(Some(5)));
    assert_eq!(out.chooser_set_input_type, None);
    let out = bar.step(&BarEvent::SetVisInputType(Some(6)));
    assert_eq!(out.chooser_set_input_type, Some(Some(6)));
}

#[test]
fn first_show_forwards_the_empty_cache() {
    // Nothing has arrived yet, so the first turn to visible hands the
    // chooser the cached empty value once.
    let mut bar = ActionBar::new(2);
    let out = bar.step(&BarEvent::ShowIcons);
    assert_eq!(out.chooser_set_input_type, Some(None));
}

#[test]
fn empty_pick_swallowed_concrete_pick_forwarded() {
    const A: u64 = 10;
    let mut bar = ActionBar::new(2);

    let out = bar.step(&BarEvent::ChosenEntry(None));
    assert_eq!(out.visualisation_selection, None);
    assert_eq!(bar.selected_visualization(), None);

    let out = bar.step(&BarEvent::ChosenEntry(Some(A)));
    assert_eq!(out.visualisation_selection, Some(Some(A)));
    assert_eq!(bar.selected_visualization(), Some(A));

    // A later empty pick never clears the confirmed choice.
    let out = bar.step(&BarEvent::ChosenEntry(None));
    assert_eq!(out.visualisation_selection, None);
    assert_eq!(bar.selected_visualization(), Some(A));
}

#[test]
fn set_selected_routed_without_outward_event() {
    let mut bar = ActionBar::new(2);
    let out = bar.step(&BarEvent::SetSelectedVisualization(Some(7)));
    assert_eq!(out.chooser_set_selected, Some(Some(7)));
    assert_eq!(out.visualisation_selection, None);
    assert_eq!(bar.selected_visualization(), Some(7));
}

#[test]
fn drag_press_release_cycle() {
    let mut bar = ActionBar::new(2);

    let out = bar.step(&BarEvent::DragIconPressed);
    assert!(bar.is_dragging());
    assert_eq!(out.container_drag_state, Some(true));
    assert_eq!(out.reset_icon_visible, Some(true));

    // A second press while dragging is ignored.
    let out = bar.step(&BarEvent::DragIconPressed);
    assert!(bar.is_dragging());
    assert_eq!(out.container_drag_state, None);
    assert_eq!(out.reset_icon_visible, None);

    let out = bar.step(&BarEvent::PointerReleased);
    assert!(!bar.is_dragging());
    assert_eq!(out.container_drag_state, Some(false));
    assert_eq!(out.reset_icon_visible, Some(false));

    // A release with no drag in progress is a no-op.
    let out = bar.step(&BarEvent::PointerReleased);
    assert!(!bar.is_dragging());
    assert_eq!(out.container_drag_state, None);
    assert_eq!(out.reset_icon_visible, None);
}

#[test]
fn drag_state_independent_of_visibility() {
    let mut bar = ActionBar::new(2);
    bar.step(&BarEvent::DragIconPressed);
    bar.step(&BarEvent::HideIcons);
    assert!(bar.is_dragging());
    assert!(!bar.is_visible());
    bar.step(&BarEvent::PointerReleased);
    assert!(!bar.is_dragging());
}

#[test]
fn reset_icon_mirrors_drag_at_every_point() {
    let events = [
        BarEvent::HoverEnter(BACKGROUND),
        BarEvent::DragIconPressed,
        BarEvent::SetVisInputType(Some(3)),
        BarEvent::DragIconPressed,
        BarEvent::HoverLeave(BACKGROUND),
        BarEvent::PointerReleased,
        BarEvent::PointerReleased,
        BarEvent::ShowIcons,
        BarEvent::DragIconPressed,
        BarEvent::ResetIconPressed,
        BarEvent::PointerReleased,
    ];
    let mut bar = ActionBar::new(2);
    assert_eq!(bar.reset_icon_visible(), bar.is_dragging());
    for e in events.iter() {
        bar.step(e);
        assert_eq!(bar.reset_icon_visible(), bar.is_dragging());
    }
}

#[test]
fn one_drag_end_per_start_over_a_run() {
    let events = [
        BarEvent::DragIconPressed,
        BarEvent::DragIconPressed,
        BarEvent::PointerReleased,
        BarEvent::PointerReleased,
        BarEvent::HoverEnter(BACKGROUND),
        BarEvent::DragIconPressed,
        BarEvent::PointerReleased,
    ];
    let mut bar = ActionBar::new(2);
    let mut starts: u32 = 0;
    let mut ends: u32 = 0;
    for e in events.iter() {
        let out = bar.step(e);
        match out.container_drag_state {
            Some(true) => starts += 1,
            Some(false) => ends += 1,
            None => {}
        }
    }
    assert_eq!(starts, 2);
    assert_eq!(ends, 2);
    assert!(!bar.is_dragging());
}

#[test]
fn reset_press_fires_reset_event() {
    let mut bar = ActionBar::new(2);
    bar.step(&BarEvent::DragIconPressed);
    let out = bar.step(&BarEvent::ResetIconPressed);
    assert!(out.on_container_reset_position);
    // The press resets the container's position, not the drag state.
    assert!(bar.is_dragging());
}
