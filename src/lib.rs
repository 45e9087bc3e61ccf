//! A vertical scroll region for an immediate-mode UI, with integer geometry.
//!
//! Lengths are whole points (`i64`), times are microseconds. A frame runs
//! `ScrollArea::begin` (or `show_rows`), lets the caller draw the content, then
//! runs `Prepared::end`, which returns the state to keep for the next frame.
use vstd::prelude::*;

mod arith;
pub mod geometry;
pub mod input;
pub mod rows;
pub mod scroll_area;
pub mod state;

pub use geometry::{Rect, Vec2, MAX_COORD};
pub use input::{
    button_from_code, modifiers_from_flags, select_touch, str_eq, text_from_key, translate_key, Key,
    Modifiers, PointerButton,
};
pub use rows::{row_layout, AutoIds, RowLayout};
pub use scroll_area::{
    decay, Align, Available, BarGeometry, BarResponse, FrameInput, FrameOutput, Prepared, ScrollArea,
    ScrollTarget,
};
pub use state::ScrollState;

verus! {

} // verus!
