use vstd::prelude::*;
use crate::arith::{floor_div, is_sqrt_floor, isqrt, lemma_sqrt_unique, lemma_sqrt_zero, scale, scale_toward_zero, sqrt_floor};
use crate::geometry::{bounded, Rect, Vec2, MAX_COORD};
use crate::state::ScrollState;

verus! {

/// Deceleration of kinetic scrolling, in thousandths of a point per second
/// squared (1000 points per second squared).
pub const FRICTION_COEFF: i64 = 1_000_000;

/// Below this speed, in thousandths of a point per second (20 points per
/// second), kinetic scrolling stops.
pub const STOP_SPEED: i64 = 20_000;

/// Microseconds in a second.
pub const MICROS_PER_SEC: i64 = 1_000_000;

/// Microseconds in a second times thousandths in a point: a velocity times a
/// time, divided by this, is a distance in points.
pub const VEL_TIME_DIV: i64 = 1_000_000_000;

/// Configuration of one vertical scroll region; build it, then call `begin`.
#[derive(Clone, Copy, Debug, PartialEq, Eq, Structural)]
pub struct ScrollArea {
    /// Largest height of the region; `None` means as high as the parent allows.
    pub max_height: Option<i64>,
    pub always_show_scroll: bool,
    /// Seed for the region's identity; the host combines it with its own.
    pub id_source: Option<u64>,
    /// Offset to jump to before this frame's interaction.
    pub offset: Option<Vec2>,
}

/// Space the parent offers to the region.
#[derive(Clone, Copy, Debug, PartialEq, Eq, Structural)]
pub struct Available {
    pub min: Vec2,
    /// `None` means unbounded.
    pub width: Option<i64>,
    /// `None` means unbounded.
    pub height: Option<i64>,
    /// The parent's clip rectangle.
    pub clip: Rect,
    /// Margin by which the content clip extends past the region.
    pub clip_margin: i64,
}

/// What `begin` hands to the content and to `end`.
#[derive(Clone, Copy, Debug, PartialEq, Eq, Structural)]
pub struct Prepared {
    pub id: u64,
    pub state: ScrollState,
    pub always_show_scroll: bool,
    /// Top-left corner of the region on screen.
    pub rect_min: Vec2,
    /// `None` means unbounded.
    pub width: Option<i64>,
    /// `None` means unbounded.
    pub height: Option<i64>,
    /// Screen position of the content's top-left corner.
    pub content_origin: Vec2,
    /// Clip rectangle for the content.
    pub clip: Rect,
    /// Top-left corner of the visible window, in content coordinates; its size is the region's.
    pub viewport_min: Vec2,
}

pub open spec fn length_ok(v: Option<i64>) -> bool {
    match v {
        Some(l) => 0 <= l <= MAX_COORD,
        None => true,
    }
}

pub open spec fn min_len(a: Option<i64>, b: Option<i64>) -> Option<i64> {
    match (a, b) {
        (Some(x), Some(y)) => Some(if x <= y { x } else { y }),
        (Some(x), None) => Some(x),
        (None, Some(y)) => Some(y),
        (None, None) => None,
    }
}

pub open spec fn max_i(a: int, b: int) -> int {
    if a >= b { a } else { b }
}

pub open spec fn min_i(a: int, b: int) -> int {
    if a <= b { a } else { b }
}

impl ScrollArea {
    pub open spec fn wf(self) -> bool {
        &&& length_ok(self.max_height)
        &&& match self.offset {
            Some(o) => o.is_bounded(MAX_COORD as int),
            None => true,
        }
    }

    /// A region as high as the parent allows.
    pub fn auto_sized() -> (r: ScrollArea)
        ensures
            r.max_height.is_none(),
            !r.always_show_scroll,
            r.id_source.is_none(),
            r.offset.is_none(),
            r.wf(),
    {
        ScrollArea { max_height: None, always_show_scroll: false, id_source: None, offset: None }
    }

    /// A region at most `max_height` high; a negative height counts as zero.
    pub fn from_max_height(max_height: i64) -> (r: ScrollArea)
        requires
            max_height <= MAX_COORD,
        ensures
            r.max_height == Some(if max_height < 0 { 0 } else { max_height }),
            !r.always_show_scroll,
            r.id_source.is_none(),
            r.offset.is_none(),
            r.wf(),
    {
        let h: i64 = if max_height < 0 { 0 } else { max_height };
        ScrollArea { max_height: Some(h), always_show_scroll: false, id_source: None, offset: None }
    }

    /// Show the scrollbar even when the content fits.
    pub fn always_show_scroll(self, always_show_scroll: bool) -> (r: ScrollArea)
        ensures
            r == (ScrollArea { always_show_scroll, ..self }),
    {
        ScrollArea { always_show_scroll, ..self }
    }

    /// Seed the region's identity, to tell apart regions in the same parent.
    pub fn id_source(self, id_source: u64) -> (r: ScrollArea)
        ensures
            r == (ScrollArea { id_source: Some(id_source), ..self }),
    {
        ScrollArea { id_source: Some(id_source), ..self }
    }

    /// Jump to the vertical offset `offset` this frame.
    pub fn scroll_offset(self, offset: i64) -> (r: ScrollArea)
        requires
            bounded(offset as int, MAX_COORD as int),
        ensures
            r == (ScrollArea { offset: Some(Vec2 { x: 0, y: offset }), ..self }),
    {
        ScrollArea { offset: Some(Vec2 { x: 0, y: offset }), ..self }
    }
}

impl Available {
    pub open spec fn wf(self) -> bool {
        &&& self.min.is_bounded(MAX_COORD as int)
        &&& length_ok(self.width)
        &&& length_ok(self.height)
        &&& self.clip.min.is_bounded(MAX_COORD as int)
        &&& self.clip.max.is_bounded(MAX_COORD as int)
        &&& 0 <= self.clip_margin <= MAX_COORD
    }
}

fn min_length(a: Option<i64>, b: Option<i64>) -> (r: Option<i64>)
    ensures
        r == min_len(a, b),
{
    match (a, b) {
        (Some(x), Some(y)) => Some(if x <= y { x } else { y }),
        (Some(x), None) => Some(x),
        (None, Some(y)) => Some(y),
        (None, None) => None,
    }
}

fn max_i64(a: i64, b: i64) -> (r: i64)
    ensures
        r == max_i(a as int, b as int),
{
    if a >= b { a } else { b }
}

fn min_i64(a: i64, b: i64) -> (r: i64)
    ensures
        r == min_i(a as int, b as int),
{
    if a <= b { a } else { b }
}

impl Prepared {
    pub open spec fn wf(self) -> bool {
        &&& self.state.wf()
        &&& self.rect_min.is_bounded(MAX_COORD as int)
        &&& length_ok(self.width)
        &&& length_ok(self.height)
        &&& self.content_origin.is_bounded(2 * MAX_COORD)
        &&& self.clip.min.is_bounded(2 * MAX_COORD)
        &&& self.clip.max.is_bounded(2 * MAX_COORD)
    }

    /// Bottom edge of the visible window in content coordinates; `None` when unbounded.
    pub open spec fn viewport_max_y(self) -> Option<int> {
        match self.height {
            Some(h) => Some(self.viewport_min.y + h),
            None => None,
        }
    }
}

impl ScrollArea {
    /// The prepared region for `begin`: the stored state with the configured
    /// offset applied, the region's size, where the content goes and its clip.
    pub open spec fn begin_spec(self, id: u64, stored: ScrollState, available: Available) -> Prepared {
        let state = match self.offset {
            Some(o) => ScrollState { offset: o, ..stored },
            None => stored,
        };
        let height = min_len(available.height, self.max_height);
        let m = available.clip_margin as int;
        Prepared {
            id,
            state,
            always_show_scroll: self.always_show_scroll,
            rect_min: available.min,
            width: available.width,
            height,
            content_origin: Vec2 {
                x: (available.min.x - state.offset.x) as i64,
                y: (available.min.y - state.offset.y) as i64,
            },
            clip: Rect {
                min: Vec2 {
                    x: max_i(available.min.x - m, available.clip.min.x as int) as i64,
                    y: max_i(available.min.y - m, available.clip.min.y as int) as i64,
                },
                max: Vec2 {
                    x: available.clip.max.x,
                    y: (match height {
                        Some(h) => min_i(available.min.y + h + m, available.clip.max.y as int),
                        None => available.clip.max.y as int,
                    }) as i64,
                },
            },
            viewport_min: state.offset,
        }
    }

    /// Lays out the region: its size, where the content is drawn, what is visible.
    ///
    /// `stored` is the state remembered for identity `id` (`ScrollState::new()` the
    /// first time).
    pub fn begin(self, id: u64, stored: ScrollState, available: Available) -> (p: Prepared)
        requires
            self.wf(),
            stored.wf(),
            available.wf(),
        ensures
            p.wf(),
            p == self.begin_spec(id, stored, available),
    {
        let mut state = stored;
        match self.offset {
            Some(o) => {
                state.offset = o;
            },
            None => {},
        }
        let height = min_length(available.height, self.max_height);
        let content_origin = Vec2 {
            x: available.min.x - state.offset.x,
            y: available.min.y - state.offset.y,
        };
        let m = available.clip_margin;
        let clip_max_y = match height {
            Some(h) => min_i64(available.min.y + h + m, available.clip.max.y),
            None => available.clip.max.y,
        };
        let clip = Rect {
            min: Vec2 {
                x: max_i64(available.min.x - m, available.clip.min.x),
                y: max_i64(available.min.y - m, available.clip.min.y),
            },
            max: Vec2 { x: available.clip.max.x, y: clip_max_y },
        };
        Prepared {
            id,
            state,
            always_show_scroll: self.always_show_scroll,
            rect_min: available.min,
            width: available.width,
            height,
            content_origin,
            clip,
            viewport_min: state.offset,
        }
    }
}

/// Where a requested position should land in the viewport.
#[derive(Clone, Copy, Debug, PartialEq, Eq, Structural)]
pub enum Align {
    Top,
    Center,
    Bottom,
}

/// A one-shot request to bring screen position `y` into view.
#[derive(Clone, Copy, Debug, PartialEq, Eq, Structural)]
pub struct ScrollTarget {
    pub y: i64,
    pub align: Align,
}

/// How the host's hit testing answered for the scrollbar track.
#[derive(Clone, Copy, Debug, PartialEq, Eq, Structural)]
pub struct BarResponse {
    /// Pointer position while the track is pressed or dragged.
    pub interact_pos: Option<Vec2>,
    pub hovered: bool,
    pub dragged: bool,
}

/// Everything one frame's `end` reads besides the prepared region.
#[derive(Clone, Copy, Debug, PartialEq, Eq, Structural)]
pub struct FrameInput {
    /// Size the content took.
    pub content_size: Vec2,
    pub item_spacing_y: i64,
    /// Pointer position, if the pointer is present.
    pub hover_pos: Option<Vec2>,
    /// Full width of the scrollbar.
    pub bar_width: i64,
    pub bar: BarResponse,
    /// How idle the scrollbar looks, from 0 (hovered or dragged) to 1000 (idle).
    pub idle_fade: i64,
    /// Whether the content itself is being dragged.
    pub content_dragged: bool,
    pub pointer_delta: Vec2,
    /// Pointer velocity in thousandths of a point per second.
    pub pointer_velocity: Vec2,
    /// Time since the previous frame, in microseconds.
    pub dt_us: i64,
}

/// The scrollbar to paint: the track and the handle.
#[derive(Clone, Copy, Debug, PartialEq, Eq, Structural)]
pub struct BarGeometry {
    pub track: Rect,
    pub handle: Rect,
}

/// What `end` produces.
#[derive(Clone, Copy, Debug, PartialEq, Eq, Structural)]
pub struct FrameOutput {
    /// The state to remember for the next frame.
    pub state: ScrollState,
    /// The space the region takes in its parent.
    pub allocated: Rect,
    /// Whether another frame should be painted soon.
    pub repaint: bool,
    pub bar: Option<BarGeometry>,
}

impl FrameInput {
    pub open spec fn wf(self) -> bool {
        &&& 0 <= self.content_size.x <= MAX_COORD
        &&& 0 <= self.content_size.y <= MAX_COORD
        &&& 0 <= self.item_spacing_y <= MAX_COORD
        &&& match self.hover_pos {
            Some(p) => p.is_bounded(MAX_COORD as int),
            None => true,
        }
        &&& 0 <= self.bar_width <= MAX_COORD
        &&& match self.bar.interact_pos {
            Some(p) => p.is_bounded(MAX_COORD as int),
            None => true,
        }
        &&& 0 <= self.idle_fade <= 1000
        &&& self.pointer_delta.is_bounded(MAX_COORD as int)
        &&& self.pointer_velocity.is_bounded(MAX_COORD as int)
        &&& 0 <= self.dt_us <= MAX_COORD
    }
}

/// The offset that puts screen position `t.y` at the alignment point of the
/// visible window, nudged by half the item spacing away from the edge.
pub open spec fn target_offset_spec(t: ScrollTarget, top: int, clip_h: int, spacing: int) -> int {
    match t.align {
        Align::Top => t.y - top - spacing / 2,
        Align::Center => t.y - top - clip_h / 2,
        Align::Bottom => t.y - top - clip_h + spacing / 2,
    }
}

fn target_offset(t: ScrollTarget, top: i64, clip_h: i64, spacing: i64) -> (r: i64)
    requires
        bounded(t.y as int, MAX_COORD as int),
        bounded(top as int, 2 * MAX_COORD),
        bounded(clip_h as int, 4 * MAX_COORD),
        0 <= spacing <= MAX_COORD,
    ensures
        r == target_offset_spec(t, top as int, clip_h as int, spacing as int),
{
    match t.align {
        Align::Top => t.y - top - spacing / 2,
        Align::Center => t.y - top - floor_div(clip_h, 2),
        Align::Bottom => t.y - top - clip_h + spacing / 2,
    }
}

/// The region's width once the content is known: grown to fit it, never shrunk.
pub open spec fn grown_width(width: Option<i64>, content_w: int) -> int {
    match width {
        Some(w) => max_i(w as int, content_w),
        None => content_w,
    }
}

/// The region's height; an unbounded region is as high as its content.
pub open spec fn view_height(height: Option<i64>, content_h: int) -> int {
    match height {
        Some(h) => h as int,
        None => content_h,
    }
}

/// The largest offset at which the viewport stays inside the content.
pub open spec fn max_scroll(content_h: int, h: int) -> int {
    max_i(0, content_h - h)
}

/// Whether a wheel delta `dy` moves an offset that is not yet at the matching end.
pub open spec fn wheel_consumes(offset_y: int, max_offset: int, dy: int) -> bool {
    (offset_y > 0 && dy > 0) || (offset_y < max_offset && dy < 0)
}

/// The scrollbar track right of `rect`, a quarter of its width outside it.
pub open spec fn track_spec(rect: Rect, bar_w: int) -> Rect {
    let right = rect.max.x + bar_w / 4;
    Rect {
        min: Vec2 { x: (right - bar_w) as i64, y: rect.min.y },
        max: Vec2 { x: right as i64, y: rect.max.y },
    }
}

/// Content position `y` mapped onto the track `[top, bottom]`, clamped to it.
pub open spec fn from_content(y: int, content_h: int, top: int, bottom: int) -> int {
    if y <= 0 {
        top
    } else if y >= content_h {
        bottom
    } else {
        top + y * (bottom - top) / content_h
    }
}

/// Track position `handle_top` mapped back to a content offset.
pub open spec fn to_content(handle_top: int, top: int, bottom: int, content_h: int) -> int {
    if bottom - top <= 0 {
        0
    } else {
        (handle_top - top) * content_h / (bottom - top)
    }
}

/// The handle for `offset_y`, a window of height `h` over content of height `content_h`.
pub open spec fn handle_spec(offset_y: int, h: int, content_h: int, track: Rect) -> Rect {
    Rect {
        min: Vec2 {
            x: track.min.x,
            y: from_content(offset_y, content_h, track.min.y as int, track.max.y as int) as i64,
        },
        max: Vec2 {
            x: track.max.x,
            y: from_content(offset_y + h, content_h, track.min.y as int, track.max.y as int) as i64,
        },
    }
}

/// Where the pointer holds the handle when a drag starts at `p`: where it was
/// grabbed, or its middle when the press was outside the handle.
pub open spec fn anchor_spec(p: Vec2, handle: Rect, top: int, bottom: int) -> int {
    if handle.contains_spec(p) {
        p.y - handle.min.y
    } else {
        let hh = handle.height_spec();
        let want = p.y - hh / 2;
        let at_bottom = bottom - hh;
        let new_top = if want < top {
            top
        } else if want > at_bottom {
            at_bottom
        } else {
            want
        };
        p.y - new_top
    }
}

/// The anchor after this frame's scrollbar interaction.
pub open spec fn bar_anchor_spec(anchor: Option<i64>, interact: Option<Vec2>, handle: Rect, track: Rect) -> Option<i64> {
    match interact {
        None => None,
        Some(p) => match anchor {
            Some(a) => Some(a),
            None => Some(anchor_spec(p, handle, track.min.y as int, track.max.y as int) as i64),
        },
    }
}

/// The offset after this frame's scrollbar interaction, before clamping.
pub open spec fn bar_offset_spec(offset_y: int, anchor: Option<i64>, interact: Option<Vec2>, handle: Rect, track: Rect, content_h: int) -> int {
    match (interact, bar_anchor_spec(anchor, interact, handle, track)) {
        (Some(p), Some(a)) => to_content(p.y - a, track.min.y as int, track.max.y as int, content_h),
        _ => offset_y,
    }
}

/// The offset clamped to `[0, max_offset]`, the lower bound first.
pub open spec fn bar_clamp(offset_y: int, max_offset: int) -> int {
    min_i(max_i(offset_y, 0), max_offset)
}

/// The handle stretched about its middle to at least `min_h`.
pub open spec fn min_handle_spec(handle: Rect, min_h: int) -> Rect {
    if handle.height_spec() < min_h {
        let lo = (handle.min.y + handle.max.y - min_h) / 2;
        Rect {
            min: Vec2 { x: handle.min.x, y: lo as i64 },
            max: Vec2 { x: handle.max.x, y: (lo + min_h) as i64 },
        }
    } else {
        handle
    }
}

/// How far the left edge of track and handle moves right: up to three quarters
/// of the bar's width when idle.
pub open spec fn idle_inset(bar_w: int, idle_fade: int) -> int {
    bar_w * 3 * idle_fade / 4000
}

pub open spec fn friction_spec(dt: int) -> int {
    (FRICTION_COEFF as int) * dt / (MICROS_PER_SEC as int)
}

pub open spec fn speed_spec(v: Vec2) -> int {
    sqrt_floor(v.x * v.x + v.y * v.y)
}

/// Whether kinetic scrolling stops this frame.
pub open spec fn decay_stops(v: Vec2, dt: int) -> bool {
    friction_spec(dt) > speed_spec(v) || speed_spec(v) < STOP_SPEED as int
}

/// The velocity after one frame of friction, while it keeps moving.
pub open spec fn decayed_vel(v: Vec2, dt: int) -> Vec2 {
    let f = friction_spec(dt);
    let len = speed_spec(v);
    Vec2 {
        x: (v.x - scale_toward_zero(v.x as int, f, len)) as i64,
        y: (v.y - scale_toward_zero(v.y as int, f, len)) as i64,
    }
}

/// The offset clamped to `[0, content_h - h]`, the upper bound first.
pub open spec fn final_clamp(offset_y: int, content_h: int, h: int) -> int {
    max_i(min_i(offset_y, content_h - h), 0)
}

fn from_content_exec(y: i64, content_h: i64, top: i64, bottom: i64) -> (r: i64)
    requires
        0 <= content_h <= MAX_COORD,
        bounded(top as int, MAX_COORD as int),
        top <= bottom <= top + MAX_COORD,
    ensures
        r == from_content(y as int, content_h as int, top as int, bottom as int),
        top <= r <= bottom,
{
    if y <= 0 {
        top
    } else if y >= content_h {
        bottom
    } else {
        let span: i64 = bottom - top;
        proof {
            let (yy, sp, c) = (y as int, span as int, content_h as int);
            assert(0 <= yy * sp <= 1_000_000_000 * 1_000_000_000) by (nonlinear_arith)
                requires 0 < yy < c <= 1_000_000_000, 0 <= sp <= 1_000_000_000;
            assert(yy * sp / c <= sp) by (nonlinear_arith)
                requires 0 < yy < c, 0 <= sp;
            assert(yy * sp / c >= 0) by (nonlinear_arith)
                requires 0 < yy < c, 0 <= sp;
        }
        top + y * span / content_h
    }
}

proof fn lemma_from_content_monotone(a: int, b: int, content_h: int, top: int, bottom: int)
    requires
        a <= b,
        0 <= content_h,
        top <= bottom,
    ensures
        from_content(a, content_h, top, bottom) <= from_content(b, content_h, top, bottom),
{
    if 0 < a && b < content_h {
        let span = bottom - top;
        assert(a * span <= b * span) by (nonlinear_arith) requires a <= b, 0 <= span;
        vstd::arithmetic::div_mod::lemma_div_is_ordered(a * span, b * span, content_h);
    }
    if 0 < a && a < content_h {
        let span = bottom - top;
        assert(a * span / content_h <= span) by (nonlinear_arith) requires 0 < a < content_h, 0 <= span;
    }
    if 0 < b && b < content_h {
        let span = bottom - top;
        assert(b * span / content_h >= 0) by (nonlinear_arith) requires 0 < b < content_h, 0 <= span;
    }
}

fn handle_exec(offset_y: i64, h: i64, content_h: i64, track: Rect) -> (r: Rect)
    requires
        bounded(offset_y as int, 10 * MAX_COORD),
        0 <= h <= MAX_COORD,
        0 <= content_h <= MAX_COORD,
        bounded(track.min.y as int, MAX_COORD as int),
        track.min.y <= track.max.y <= track.min.y + MAX_COORD,
    ensures
        r == handle_spec(offset_y as int, h as int, content_h as int, track),
        track.min.y <= r.min.y <= track.max.y,
        track.min.y <= r.max.y <= track.max.y,
        r.min.y <= r.max.y,
{
    proof {
        lemma_from_content_monotone(offset_y as int, offset_y + h, content_h as int, track.min.y as int, track.max.y as int);
    }
    Rect {
        min: Vec2 { x: track.min.x, y: from_content_exec(offset_y, content_h, track.min.y, track.max.y) },
        max: Vec2 { x: track.max.x, y: from_content_exec(offset_y + h, content_h, track.min.y, track.max.y) },
    }
}

fn anchor_exec(p: Vec2, handle: Rect, top: i64, bottom: i64) -> (r: i64)
    requires
        p.is_bounded(MAX_COORD as int),
        bounded(top as int, MAX_COORD as int),
        top <= bottom <= top + MAX_COORD,
        top <= handle.min.y <= handle.max.y <= bottom,
    ensures
        r == anchor_spec(p, handle, top as int, bottom as int),
        bounded(r as int, 4 * MAX_COORD),
{
    if handle.contains(p) {
        p.y - handle.min.y
    } else {
        let hh: i64 = handle.max.y - handle.min.y;
        let want: i64 = p.y - hh / 2;
        let at_bottom: i64 = bottom - hh;
        let new_top: i64 = if want < top {
            top
        } else if want > at_bottom {
            at_bottom
        } else {
            want
        };
        p.y - new_top
    }
}

fn to_content_exec(handle_top: i64, top: i64, bottom: i64, content_h: i64) -> (r: i64)
    requires
        bounded(handle_top as int, 5 * MAX_COORD),
        bounded(top as int, MAX_COORD as int),
        top <= bottom <= top + MAX_COORD,
        0 <= content_h <= MAX_COORD,
    ensures
        r == to_content(handle_top as int, top as int, bottom as int, content_h as int),
{
    if bottom - top <= 0 {
        0
    } else {
        let n: i64 = handle_top - top;
        proof {
            let (nn, c) = (n as int, content_h as int);
            assert(-6_000_000_000 * 1_000_000_000 <= nn * c <= 6_000_000_000 * 1_000_000_000)
                by (nonlinear_arith)
                requires -6_000_000_000 <= nn <= 6_000_000_000, 0 <= c <= 1_000_000_000;
        }
        floor_div(n * content_h, bottom - top)
    }
}

/// The scrollbar's own step: returns the unclamped offset and the new anchor.
fn drag_bar(offset_y: i64, anchor: Option<i64>, interact: Option<Vec2>, handle: Rect, track: Rect, content_h: i64) -> (r: (i64, Option<i64>))
    requires
        match interact {
            Some(p) => p.is_bounded(MAX_COORD as int),
            None => true,
        },
        match anchor {
            Some(a) => bounded(a as int, 4 * MAX_COORD),
            None => true,
        },
        bounded(track.min.y as int, MAX_COORD as int),
        track.min.y <= track.max.y <= track.min.y + MAX_COORD,
        track.min.y <= handle.min.y <= handle.max.y <= track.max.y,
        0 <= content_h <= MAX_COORD,
    ensures
        r.0 == bar_offset_spec(offset_y as int, anchor, interact, handle, track, content_h as int),
        r.1 == bar_anchor_spec(anchor, interact, handle, track),
        match r.1 {
            Some(a) => bounded(a as int, 4 * MAX_COORD),
            None => true,
        },
{
    match interact {
        None => (offset_y, None),
        Some(p) => {
            let a: i64 = match anchor {
                Some(a) => a,
                None => anchor_exec(p, handle, track.min.y, track.max.y),
            };
            (to_content_exec(p.y - a, track.min.y, track.max.y, content_h), Some(a))
        },
    }
}

fn min_handle_exec(handle: Rect, min_h: i64) -> (r: Rect)
    requires
        handle.min.is_bounded(4 * MAX_COORD),
        handle.max.is_bounded(4 * MAX_COORD),
        0 <= min_h <= MAX_COORD,
    ensures
        r == min_handle_spec(handle, min_h as int),
{
    if handle.max.y - handle.min.y < min_h {
        let lo: i64 = floor_div(handle.min.y + handle.max.y - min_h, 2);
        Rect { min: Vec2 { x: handle.min.x, y: lo }, max: Vec2 { x: handle.max.x, y: lo + min_h } }
    } else {
        handle
    }
}

/// One frame of friction: the new velocity, and whether it still moves.
pub fn decay(v: Vec2, dt: i64) -> (r: (Vec2, bool))
    requires
        v.is_bounded(MAX_COORD as int),
        0 <= dt <= MAX_COORD,
    ensures
        r.1 == !decay_stops(v, dt as int),
        r.0 == (if r.1 { decayed_vel(v, dt as int) } else { Vec2 { x: 0, y: 0 } }),
        r.0.is_bounded(MAX_COORD as int),
{
    let friction: i64 = FRICTION_COEFF * dt / MICROS_PER_SEC;
    proof {
        let d = dt as int;
        assert(0 <= 1_000_000 * d / 1_000_000 <= 1_000_000_000) by (nonlinear_arith)
            requires 0 <= d <= 1_000_000_000;
        assert(v.x * v.x <= MAX_COORD * MAX_COORD && v.y * v.y <= MAX_COORD * MAX_COORD && v.x * v.x >= 0 && v.y * v.y >= 0)
            by (nonlinear_arith) requires v.is_bounded(MAX_COORD as int);
    }
    let len2: u64 = (v.x * v.x + v.y * v.y) as u64;
    let len: u64 = isqrt(len2);
    proof {
        assert(len <= 2_000_000_000) by (nonlinear_arith)
            requires len * len <= len2, len2 <= 2 * MAX_COORD * MAX_COORD;
    }
    let len: i64 = len as i64;
    if friction > len || len < STOP_SPEED {
        (Vec2 { x: 0, y: 0 }, false)
    } else {
        let dx: i64 = scale(v.x, friction, len);
        let dy: i64 = scale(v.y, friction, len);
        proof {
            let (vx, vy, f, l) = (v.x as int, v.y as int, friction as int, len as int);
            if vx >= 0 {
                assert(0 <= vx * f / l <= vx) by (nonlinear_arith)
                    requires 0 <= f <= l, 0 < l, vx >= 0;
            } else {
                assert(0 <= (-vx) * f / l <= -vx) by (nonlinear_arith)
                    requires 0 <= f <= l, 0 < l, vx < 0;
            }
            if vy >= 0 {
                assert(0 <= vy * f / l <= vy) by (nonlinear_arith)
                    requires 0 <= f <= l, 0 < l, vy >= 0;
            } else {
                assert(0 <= (-vy) * f / l <= -vy) by (nonlinear_arith)
                    requires 0 <= f <= l, 0 < l, vy < 0;
            }
        }
        (Vec2 { x: v.x - dx, y: v.y - dy }, true)
    }
}

pub open spec fn target_ok(t: Option<ScrollTarget>) -> bool {
    match t {
        Some(t) => bounded(t.y as int, MAX_COORD as int),
        None => true,
    }
}

impl Prepared {
    /// Height of the region.
    pub open spec fn h_spec(self, f: FrameInput) -> int {
        view_height(self.height, f.content_size.y as int)
    }

    /// The region, widened to fit the content.
    pub open spec fn rect_spec(self, f: FrameInput) -> Rect {
        Rect {
            min: self.rect_min,
            max: Vec2 {
                x: (self.rect_min.x + grown_width(self.width, f.content_size.x as int)) as i64,
                y: (self.rect_min.y + self.h_spec(f)) as i64,
            },
        }
    }

    pub open spec fn max_offset_spec(self, f: FrameInput) -> int {
        f.content_size.y - self.h_spec(f)
    }

    /// Whether the scrollbar is shown this frame.
    pub open spec fn shows(self, f: FrameInput) -> bool {
        f.content_size.y > self.h_spec(f) || self.always_show_scroll
    }

    /// The offset once a pending scroll target has been applied.
    pub open spec fn target_step(self, f: FrameInput, target: Option<ScrollTarget>) -> int {
        match target {
            Some(t) => target_offset_spec(
                t,
                self.content_origin.y as int,
                self.clip.max.y - self.clip.min.y,
                f.item_spacing_y as int,
            ),
            None => self.state.offset.y as int,
        }
    }

    /// Whether this region takes the wheel delta.
    pub open spec fn consumes(self, f: FrameInput, target: Option<ScrollTarget>, delta: Vec2) -> bool {
        &&& match f.hover_pos {
            Some(p) => self.rect_spec(f).contains_spec(p),
            None => false,
        }
        &&& wheel_consumes(self.target_step(f, target), self.max_offset_spec(f), delta.y as int)
    }

    /// The offset after the wheel.
    pub open spec fn wheel_step(self, f: FrameInput, target: Option<ScrollTarget>, delta: Vec2) -> int {
        if self.consumes(f, target, delta) {
            self.target_step(f, target) - delta.y
        } else {
            self.target_step(f, target)
        }
    }

    pub open spec fn track(self, f: FrameInput) -> Rect {
        track_spec(self.rect_spec(f), f.bar_width as int)
    }

    /// The handle before this frame's scrollbar interaction.
    pub open spec fn handle_before(self, f: FrameInput, target: Option<ScrollTarget>, delta: Vec2) -> Rect {
        handle_spec(self.wheel_step(f, target, delta), self.h_spec(f), f.content_size.y as int, self.track(f))
    }

    /// The drag anchor after the scrollbar step.
    pub open spec fn anchor_step(self, f: FrameInput, target: Option<ScrollTarget>, delta: Vec2) -> Option<i64> {
        if self.shows(f) {
            bar_anchor_spec(self.state.drag_anchor, f.bar.interact_pos, self.handle_before(f, target, delta), self.track(f))
        } else {
            None
        }
    }

    /// The offset after the scrollbar step, before its clamp.
    pub open spec fn bar_step(self, f: FrameInput, target: Option<ScrollTarget>, delta: Vec2) -> int {
        if self.shows(f) {
            bar_offset_spec(
                self.wheel_step(f, target, delta),
                self.state.drag_anchor,
                f.bar.interact_pos,
                self.handle_before(f, target, delta),
                self.track(f),
                f.content_size.y as int,
            )
        } else {
            self.wheel_step(f, target, delta)
        }
    }

    /// The offset after the scrollbar step and its clamp.
    pub open spec fn clamp_step(self, f: FrameInput, target: Option<ScrollTarget>, delta: Vec2) -> int {
        if self.shows(f) {
            bar_clamp(self.bar_step(f, target, delta), self.max_offset_spec(f))
        } else {
            self.bar_step(f, target, delta)
        }
    }

    /// The velocity after the clamp: stopped where the clamp moved the offset.
    pub open spec fn clamp_vel(self, f: FrameInput, target: Option<ScrollTarget>, delta: Vec2) -> Vec2 {
        if self.shows(f) && self.clamp_step(f, target, delta) != self.bar_step(f, target, delta) {
            Vec2 { x: 0, y: 0 }
        } else {
            self.state.vel
        }
    }

    /// Whether the content may be dragged or coast this frame.
    pub open spec fn pans(self, f: FrameInput) -> bool {
        f.content_size.y > self.h_spec(f) && !(self.shows(f) && f.bar.dragged)
    }

    /// Whether kinetic scrolling moves the content this frame.
    pub open spec fn coasting(self, f: FrameInput, target: Option<ScrollTarget>, delta: Vec2) -> bool {
        self.pans(f) && !f.content_dragged && !decay_stops(self.clamp_vel(f, target, delta), f.dt_us as int)
    }

    /// The offset and velocity after dragging the content or coasting.
    pub open spec fn pan_step(self, f: FrameInput, target: Option<ScrollTarget>, delta: Vec2) -> (int, Vec2) {
        let o = self.clamp_step(f, target, delta);
        let v = self.clamp_vel(f, target, delta);
        if !self.pans(f) {
            (o, v)
        } else if f.content_dragged {
            (o - f.pointer_delta.y, f.pointer_velocity)
        } else if decay_stops(v, f.dt_us as int) {
            (o, Vec2 { x: 0, y: 0 })
        } else {
            let w = decayed_vel(v, f.dt_us as int);
            (o - scale_toward_zero(w.y as int, f.dt_us as int, VEL_TIME_DIV as int), w)
        }
    }

    /// The state that `end` stores for the next frame.
    pub open spec fn end_state(self, f: FrameInput, target: Option<ScrollTarget>, delta: Vec2) -> ScrollState {
        ScrollState {
            offset: Vec2 {
                x: self.state.offset.x,
                y: final_clamp(self.pan_step(f, target, delta).0, f.content_size.y as int, self.h_spec(f)) as i64,
            },
            show_scroll: self.shows(f),
            vel: if final_clamp(self.pan_step(f, target, delta).0, f.content_size.y as int, self.h_spec(f))
                != self.pan_step(f, target, delta).0 {
                Vec2 { x: 0, y: 0 }
            } else {
                self.pan_step(f, target, delta).1
            },
            drag_anchor: self.anchor_step(f, target, delta),
        }
    }

    /// The space taken in the parent: no higher than the content.
    pub open spec fn allocated_spec(self, f: FrameInput) -> Rect {
        Rect {
            min: self.rect_min,
            max: Vec2 {
                x: self.rect_spec(f).max.x,
                y: (self.rect_min.y + min_i(self.h_spec(f), f.content_size.y as int)) as i64,
            },
        }
    }

    /// The scrollbar to paint.
    pub open spec fn bar_spec(self, f: FrameInput, target: Option<ScrollTarget>, delta: Vec2) -> Option<BarGeometry> {
        if self.shows(f) {
            let inset = idle_inset(f.bar_width as int, f.idle_fade as int);
            let track = self.track(f);
            let handle = min_handle_spec(
                handle_spec(self.clamp_step(f, target, delta), self.h_spec(f), f.content_size.y as int, track),
                f.bar_width as int,
            );
            Some(BarGeometry {
                track: Rect { min: Vec2 { x: (track.min.x + inset) as i64, y: track.min.y }, max: track.max },
                handle: Rect { min: Vec2 { x: (handle.min.x + inset) as i64, y: handle.min.y }, max: handle.max },
            })
        } else {
            None
        }
    }

    /// Finishes the frame once the content is drawn: sizes the region to the
    /// content, applies wheel, scrollbar, drag and momentum, clamps the offset,
    /// and returns the state to remember.
    ///
    /// `scroll_target` is the frame's pending scroll request, taken here so that
    /// only the innermost region honours it; `scroll_delta` is the frame's wheel
    /// delta, zeroed when this region uses it so that no enclosing region does.
    #[verifier::rlimit(50)]
    pub fn end(self, f: &FrameInput, scroll_target: &mut Option<ScrollTarget>, scroll_delta: &mut Vec2) -> (out: FrameOutput)
        requires
            self.wf(),
            f.wf(),
            target_ok(*old(scroll_target)),
            old(scroll_delta).is_bounded(MAX_COORD as int),
        ensures
            final(scroll_target).is_none(),
            0 <= out.state.offset.y <= max_scroll(f.content_size.y as int, self.h_spec(*f)),
            out.state.wf(),
            out.state == self.end_state(*f, *old(scroll_target), *old(scroll_delta)),
            *final(scroll_delta) == (if self.consumes(*f, *old(scroll_target), *old(scroll_delta)) {
                Vec2 { x: 0, y: 0 }
            } else {
                *old(scroll_delta)
            }),
            out.allocated == self.allocated_spec(*f),
            out.repaint == (self.shows(*f) != self.state.show_scroll
                || self.coasting(*f, *old(scroll_target), *old(scroll_delta))),
            out.bar == self.bar_spec(*f, *old(scroll_target), *old(scroll_delta)),
            f.bar.interact_pos.is_none() || !self.shows(*f) ==> out.state.drag_anchor.is_none(),
    {
        let ghost target0 = *scroll_target;
        let ghost delta0 = *scroll_delta;
        let mut state = self.state;
        let content_w = f.content_size.x;
        let content_h = f.content_size.y;

        let taken = *scroll_target;
        *scroll_target = None;
        match taken {
            Some(t) => {
                state.offset.y = target_offset(
                    t,
                    self.content_origin.y,
                    self.clip.max.y - self.clip.min.y,
                    f.item_spacing_y,
                );
            },
            None => {},
        }

        let width: i64 = match self.width {
            Some(w) => max_i64(w, content_w),
            None => content_w,
        };
        let h: i64 = match self.height {
            Some(h) => h,
            None => content_h,
        };
        let rect = Rect::from_min_size(self.rect_min, width, h);
        let content_is_too_small = content_h > h;
        let max_offset: i64 = content_h - h;
        assert(rect == self.rect_spec(*f));

        let hovered = match f.hover_pos {
            Some(p) => rect.contains(p),
            None => false,
        };
        if hovered {
            let d = scroll_delta.y;
            let scrolling_up = state.offset.y > 0 && d > 0;
            let scrolling_down = state.offset.y < max_offset && d < 0;
            if scrolling_up || scrolling_down {
                state.offset.y = state.offset.y - d;
                *scroll_delta = Vec2 { x: 0, y: 0 };
            }
        }
        assert(state.offset.y == self.wheel_step(*f, target0, delta0));

        let show = content_is_too_small || self.always_show_scroll;
        let bar_w = f.bar_width;
        let mut bar: Option<BarGeometry> = None;
        let mut bar_dragging = false;
        if show {
            let right: i64 = rect.max.x + bar_w / 4;
            let track = Rect { min: Vec2 { x: right - bar_w, y: rect.min.y }, max: Vec2 { x: right, y: rect.max.y } };
            assert(track == self.track(*f));
            let handle = handle_exec(state.offset.y, h, content_h, track);
            let (unbounded, anchor) = drag_bar(
                state.offset.y,
                state.drag_anchor,
                f.bar.interact_pos,
                handle,
                track,
                content_h,
            );
            state.drag_anchor = anchor;
            let clamped = min_i64(max_i64(unbounded, 0), max_offset);
            state.offset.y = clamped;
            if clamped != unbounded {
                state.vel = Vec2 { x: 0, y: 0 };
            }
            let handle = min_handle_exec(handle_exec(clamped, h, content_h, track), bar_w);
            proof {
                let (b, i) = (bar_w as int, f.idle_fade as int);
                assert(0 <= b * 3 * i <= 3_000_000_000_000) by (nonlinear_arith)
                    requires 0 <= b <= 1_000_000_000, 0 <= i <= 1000;
                assert(0 <= b * 3 * i / 4000 <= b) by (nonlinear_arith)
                    requires 0 <= b, 0 <= i <= 1000;
            }
            let inset: i64 = bar_w * 3 * f.idle_fade / 4000;
            bar = Some(BarGeometry {
                track: Rect { min: Vec2 { x: track.min.x + inset, y: track.min.y }, max: track.max },
                handle: Rect { min: Vec2 { x: handle.min.x + inset, y: handle.min.y }, max: handle.max },
            });
            bar_dragging = f.bar.dragged;
        } else {
            state.drag_anchor = None;
        }
        assert(state.offset.y == self.clamp_step(*f, target0, delta0));
        assert(state.vel == self.clamp_vel(*f, target0, delta0));

        let mut repaint = false;
        if content_is_too_small && !bar_dragging {
            if f.content_dragged {
                state.offset.y = state.offset.y - f.pointer_delta.y;
                state.vel = f.pointer_velocity;
            } else {
                let (v, moving) = decay(state.vel, f.dt_us);
                state.vel = v;
                if moving {
                    state.offset.y = state.offset.y - scale(v.y, f.dt_us, VEL_TIME_DIV);
                    repaint = true;
                }
            }
        }
        assert(state.offset.y == self.pan_step(*f, target0, delta0).0);
        assert(state.vel == self.pan_step(*f, target0, delta0).1);

        let allocated = Rect::from_min_size(self.rect_min, width, min_i64(h, content_h));
        if show != self.state.show_scroll {
            repaint = true;
        }

        let unclamped: i64 = state.offset.y;
        state.offset.y = max_i64(min_i64(unclamped, content_h - h), 0);
        if state.offset.y != unclamped {
            state.vel = Vec2 { x: 0, y: 0 };
        }
        state.show_scroll = show;
        FrameOutput { state, allocated, repaint, bar }
    }
}

/// With no wheel movement, no drag and no momentum, running `end` again on
/// the state it stored, with the same frame, stores the same state: nothing
/// drifts.
pub proof fn lemma_end_idempotent(p: Prepared, f: FrameInput, delta: Vec2)
    requires
        delta.y == 0,
        f.bar.interact_pos.is_none(),
        !f.content_dragged,
        p.state.vel == (Vec2 { x: 0, y: 0 }),
    ensures
        (Prepared { state: p.end_state(f, None, delta), ..p }).end_state(f, None, delta)
            == p.end_state(f, None, delta),
{
    lemma_sqrt_zero();
    let z = Vec2 { x: 0, y: 0 };
    assert(z.x * z.x + z.y * z.y == 0);
    assert(speed_spec(z) == 0);
    assert(decay_stops(z, f.dt_us as int));
    let s1 = p.end_state(f, None, delta);
    let p2 = Prepared { state: s1, ..p };
    assert(p.clamp_vel(f, None, delta) == z);
    assert(s1.vel == z);
    assert(p2.clamp_vel(f, None, delta) == z);
    assert(p2.pan_step(f, None, delta).1 == z);
    assert(p2.pan_step(f, None, delta).0 == p2.clamp_step(f, None, delta));
    let c = f.content_size.y as int;
    let h = p.h_spec(f);
    if c - h >= 0 {
        assert(p2.clamp_step(f, None, delta) == s1.offset.y);
    } else {
        assert(s1.offset.y == 0);
    }
    assert(p2.end_state(f, None, delta).offset == s1.offset);
    assert(p2.end_state(f, None, delta).drag_anchor == s1.drag_anchor);
}

/// Wheel arbitration between nested regions under the pointer: an inner
/// region at its top leaves a delta that scrolls up, and stays at the top; an
/// outer region that can still scroll up takes it and moves by it, stopping at
/// its top. Both regions are otherwise at rest (no momentum, no drag, no
/// scroll request).
pub proof fn lemma_saturated_inner_yields(inner: Prepared, fi: FrameInput, outer: Prepared, fo: FrameInput, delta: Vec2)
    requires
        inner.state.offset.y == 0,
        inner.state.vel == (Vec2 { x: 0, y: 0 }),
        fi.bar.interact_pos.is_none(),
        !fi.content_dragged,
        delta.y > 0,
        0 < outer.state.offset.y <= outer.max_offset_spec(fo),
        outer.state.vel == (Vec2 { x: 0, y: 0 }),
        fo.bar.interact_pos.is_none(),
        !fo.content_dragged,
        fo.hover_pos == fi.hover_pos,
        match fo.hover_pos {
            Some(q) => outer.rect_spec(fo).contains_spec(q),
            None => false,
        },
    ensures
        !inner.consumes(fi, None, delta),
        inner.end_state(fi, None, delta).offset.y == 0,
        outer.consumes(fo, None, delta),
        outer.end_state(fo, None, delta).offset.y == max_i(outer.state.offset.y - delta.y, 0),
{
    lemma_sqrt_zero();
    let z = Vec2 { x: 0, y: 0 };
    assert(z.x * z.x + z.y * z.y == 0);
    assert(speed_spec(z) == 0);
    assert(decay_stops(z, fi.dt_us as int));
    assert(decay_stops(z, fo.dt_us as int));
    assert(inner.clamp_vel(fi, None, delta) == z);
    assert(outer.clamp_vel(fo, None, delta) == z);
    assert(inner.pan_step(fi, None, delta).0 == inner.clamp_step(fi, None, delta));
    assert(outer.pan_step(fo, None, delta).0 == outer.clamp_step(fo, None, delta));
    assert(outer.wheel_step(fo, None, delta) == outer.state.offset.y - delta.y);
    assert(outer.shows(fo));
    assert(outer.clamp_step(fo, None, delta) == max_i(outer.state.offset.y - delta.y, 0));
}

/// Scrollbar drag round trip: pressing inside the handle at the top anchors the
/// grab point; moving the pointer until the handle's top meets the track's
/// bottom less the handle's height scrolls exactly to the largest offset; and
/// releasing clears the anchor.
pub proof fn lemma_drag_handle_to_bottom(c: int, h: int, track: Rect, press: Vec2, at: Vec2, later: Option<i64>, x: int, any: Rect)
    requires
        0 < h < c <= MAX_COORD,
        track.max.y == track.min.y + h,
        bounded(track.min.y as int, MAX_COORD as int),
        handle_spec(0, h, c, track).contains_spec(press),
        bounded(press.y as int, MAX_COORD as int),
        at.y == press.y + (track.max.y - handle_spec(0, h, c, track).max.y),
    ensures
        bar_anchor_spec(None, Some(press), handle_spec(0, h, c, track), track)
            == Some((press.y - track.min.y) as i64),
        bar_offset_spec(0, None, Some(press), handle_spec(0, h, c, track), track, c) == 0,
        bar_clamp(bar_offset_spec(x, Some((press.y - track.min.y) as i64), Some(at), any, track, c), c - h) == c - h,
        bar_anchor_spec(later, None, any, track).is_none(),
{
    let top = track.min.y as int;
    let hh = h * h / c;
    assert(0 <= hh <= h) by (nonlinear_arith) requires hh == h * h / c, 0 < h < c;
    assert(from_content(h, c, top, top + h) == top + hh);
    assert(handle_spec(0, h, c, track).max.y == top + hh);
    assert(handle_spec(0, h, c, track).min.y == top);
    assert(0 * c / h == 0) by (nonlinear_arith) requires h > 0;
    assert(to_content(top, top, top + h, c) == 0);
    assert(at.y - (press.y - top) == top + h - hh);
    assert(hh * c <= h * h) by (nonlinear_arith) requires hh == h * h / c, c > 0;
    assert((h - hh) * c >= (c - h) * h) by (nonlinear_arith) requires hh * c <= h * h;
    assert((h - hh) * c / h >= c - h) by (nonlinear_arith) requires (h - hh) * c >= (c - h) * h, h > 0;
    assert(to_content(top + h - hh, top, top + h, c) == (h - hh) * c / h);
}

/// Kinetic scrolling ends: while vertical momentum keeps moving, each frame
/// takes exactly the frame's friction off its speed, so with a positive
/// friction it stops after at most `|v.y| / friction + 1` frames.
pub proof fn lemma_vertical_decay(v: Vec2, dt: int)
    requires
        v.x == 0,
        friction_spec(dt) > 0,
        !decay_stops(v, dt),
    ensures
        decayed_vel(v, dt).x == 0,
        v.y >= 0 ==> decayed_vel(v, dt).y >= 0,
        v.y < 0 ==> decayed_vel(v, dt).y <= 0,
        speed_spec(v) == (if v.y >= 0 { v.y as int } else { -v.y }),
        (if v.y >= 0 { decayed_vel(v, dt).y as int } else { -decayed_vel(v, dt).y })
            == speed_spec(v) - friction_spec(dt),
{
    let a: int = if v.y >= 0 { v.y as int } else { -v.y };
    assert(v.x * v.x + v.y * v.y == a * a) by (nonlinear_arith) requires v.x == 0, a == v.y || a == -v.y;
    assert(a * a < (a + 1) * (a + 1)) by (nonlinear_arith) requires a >= 0;
    assert(is_sqrt_floor(a * a, a));
    assert(is_sqrt_floor(a * a, sqrt_floor(a * a)));
    lemma_sqrt_unique(a * a, a, sqrt_floor(a * a));
    let f = friction_spec(dt);
    assert(a > 0);
    assert(a * f / a == f) by (nonlinear_arith) requires a > 0;
    assert(f * a / a == f) by (nonlinear_arith) requires a > 0;
    assert(0 * f / a == 0) by (nonlinear_arith) requires a > 0;
    assert(f * a == a * f) by (nonlinear_arith);
}

/// Scrollbar drag round trip through `end`: while the handle is dragged with
/// anchor `a`, a pointer at the track's bottom less the handle's height at the
/// top (`h * h / c`) plus `a` stores the largest offset `c - h` and keeps the
/// anchor; a frame without the pointer on the bar clears the anchor.
pub proof fn lemma_drag_to_bottom_in_end(p: Prepared, f: FrameInput, a: i64, at: Vec2, delta: Vec2)
    requires
        p.wf(),
        f.wf(),
        p.state.drag_anchor == Some(a),
        f.bar.interact_pos == Some(at),
        f.bar.dragged,
        delta.y == 0,
        0 < p.h_spec(f) < f.content_size.y,
        at.y - a == p.rect_min.y + p.h_spec(f) - p.h_spec(f) * p.h_spec(f) / (f.content_size.y as int),
    ensures
        p.end_state(f, None, delta).offset.y == f.content_size.y - p.h_spec(f),
        p.end_state(f, None, delta).drag_anchor == Some(a),
        (p.end_state(
            (FrameInput { bar: BarResponse { interact_pos: None, ..f.bar }, ..f }),
            None,
            delta,
        )).drag_anchor.is_none(),
{
    let c = f.content_size.y as int;
    let h = p.h_spec(f);
    let top = p.rect_min.y as int;
    let hh = h * h / c;
    assert(0 <= hh <= h) by (nonlinear_arith) requires hh == h * h / c, 0 < h < c;
    assert(p.track(f).min.y == top);
    assert(p.track(f).max.y == top + h);
    assert(hh * c <= h * h) by (nonlinear_arith) requires hh == h * h / c, c > 0;
    assert((h - hh) * c >= (c - h) * h) by (nonlinear_arith) requires hh * c <= h * h;
    assert((h - hh) * c / h >= c - h) by (nonlinear_arith) requires (h - hh) * c >= (c - h) * h, h > 0;
    assert(to_content(top + h - hh, top, top + h, c) == (h - hh) * c / h);
    assert(p.bar_step(f, None, delta) >= c - h);
    assert(p.clamp_step(f, None, delta) == c - h);
    assert(!p.pans(f));
}

} // verus!
