//! Reset-icon visibility controller: the reset affordance is offered exactly
//! while a drag is in progress. The controller has no memory of its own — it
//! mirrors the drag state it is told about, so its flag equals the dragging
//! flag at every observation point.

use vstd::prelude::*;

verus! {

/// The executable controller. Its view is the icon's visibility flag.
pub struct ResetIconController {
    visible: bool,
}

impl View for ResetIconController {
    type V = bool;

    closed spec fn view(&self) -> bool {
        self.visible
    }
}

impl ResetIconController {
    /// A controller with the icon hidden (no drag is in progress yet).
    pub fn new() -> (c: Self)
        ensures
            !c@,
    {
        ResetIconController { visible: false }
    }

    /// Whether the reset icon is currently shown.
    pub fn is_visible(&self) -> (b: bool)
        ensures
            b == self@,
    {
        self.visible
    }

    /// The drag state changed: mirror it. Reports the new flag when it
    /// differs from the old one, so the rendering layer is told only about
    /// actual changes.
    pub fn on_drag_state(&mut self, dragging: bool) -> (changed: Option<bool>)
        ensures
            final(self)@ == dragging,
            changed == if old(self)@ != dragging {
                Some(dragging)
            } else {
                Option::<bool>::None
            },
    {
        let changed: Option<bool> = if self.visible != dragging {
            Some(dragging)
        } else {
            None
        };
        self.visible = dragging;
        changed
    }
}

} // verus!
