use vstd::prelude::*;
use crate::geometry::{bounded, Vec2, MAX_COORD};

verus! {

/// What a scroll region remembers from one frame to the next.
#[derive(Clone, Copy, Debug, PartialEq, Eq, Structural)]
pub struct ScrollState {
    /// Offset of the viewport into the content; positive means scrolled down.
    pub offset: Vec2,
    /// Whether the scrollbar was shown last frame.
    pub show_scroll: bool,
    /// Momentum for kinetic scrolling, in thousandths of a point per second.
    pub vel: Vec2,
    /// Distance from the pointer to the top of the handle while the handle is dragged.
    pub drag_anchor: Option<i64>,
}

impl ScrollState {
    /// Values stay small enough that all arithmetic on them fits in `i64`.
    pub open spec fn wf(self) -> bool {
        &&& self.offset.is_bounded(MAX_COORD as int)
        &&& self.vel.is_bounded(MAX_COORD as int)
        &&& match self.drag_anchor {
            Some(a) => bounded(a as int, 4 * MAX_COORD),
            None => true,
        }
    }

    /// The state of a region seen for the first time.
    pub fn new() -> (r: ScrollState)
        ensures
            r.offset == (Vec2 { x: 0, y: 0 }),
            !r.show_scroll,
            r.vel == (Vec2 { x: 0, y: 0 }),
            r.drag_anchor.is_none(),
            r.wf(),
    {
        ScrollState { offset: Vec2::zero(), show_scroll: false, vel: Vec2::zero(), drag_anchor: None }
    }
}

impl Default for ScrollState {
    fn default() -> (r: ScrollState)
        ensures
            r.offset == (Vec2 { x: 0, y: 0 }),
            !r.show_scroll,
            r.vel == (Vec2 { x: 0, y: 0 }),
            r.drag_anchor.is_none(),
    {
        ScrollState::new()
    }
}

} // verus!
