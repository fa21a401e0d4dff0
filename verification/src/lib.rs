//! Control-state core of a visualization action bar: a small overlay
//! attached to a node in a node-based editor. The bar shows a visualization
//! chooser and two interaction icons (drag-to-reposition, reset-position)
//! and must decide, at every instant, whether it is visible, whether a drag
//! is in progress, which visualization is selected, and when to forward
//! input-type updates to the nested chooser.
//!
//! Each concern is an explicit state machine with a pure transition
//! function, and the laws the machines obey are stated and proved beside
//! them:
//!
//! - [`hover`]: the per-region "currently hovered" flags and their
//!   aggregate;
//! - [`visibility`]: show and hide decisions from hover edges, commands and
//!   the nested menu's state;
//! - [`drag`]: the drag-in-progress flag toggled by icon press and pointer
//!   release;
//! - [`reset_icon`]: the reset icon's visibility, derived from the drag
//!   state;
//! - [`selection`]: the mediator that forwards only concrete chooser picks;
//! - [`relay`]: the gated relay that caches input-type updates while hidden
//!   and forwards the latest one when the bar turns visible;
//! - [`bar`]: the composition of all of the above behind the action bar's
//!   command/event surface.
//!
//! Rendering, layout and the chooser's own menu logic are collaborators
//! outside this crate: the core only consumes their events and emits
//! commands for them.

pub mod bar;
pub mod drag;
pub mod hover;
pub mod relay;
pub mod reset_icon;
pub mod selection;
pub mod visibility;
