//! A fixed-content, arrow-key-navigable menu screen for a terminal UI.
//!
//! The library models one selectable-list control: a list of game labels
//! with a single highlighted entry. Key events move the selection up or
//! down with wraparound at both ends, and a render-description operation
//! turns the current state and a drawable area into a plan (regions,
//! styled lines, scrollbar position) that a host shell can draw.
//!
//! The host shell owns the event loop, the terminal backend and the
//! outbound action channel; this crate owns the selection state machine
//! and the layout arithmetic, both verified.

pub mod menu;
pub mod render;

pub use menu::{GamesArchive, KeyPress, MenuAction};
pub use render::{LineStyle, Region, RenderPlan, StyledLabel};
