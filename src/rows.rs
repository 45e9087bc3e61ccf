use vstd::prelude::*;
use crate::arith::floor_div;
use crate::geometry::{bounded, MAX_COORD};
use crate::scroll_area::{max_i, min_i, Available, Prepared, ScrollArea};
use crate::state::ScrollState;

verus! {

/// Counter for automatically assigned element identities.
#[derive(Clone, Copy, Debug, PartialEq, Eq, Structural)]
pub struct AutoIds {
    pub next: u64,
}

impl AutoIds {
    pub fn new(start: u64) -> (r: AutoIds)
        ensures
            r.next == start,
    {
        AutoIds { next: start }
    }

    /// Skips the identities that `n` elements would have taken.
    pub fn skip_ahead_auto_ids(&mut self, n: usize)
        requires
            old(self).next + n <= u64::MAX,
        ensures
            final(self).next == old(self).next + n,
    {
        self.next = self.next + n as u64;
    }

    /// Hands out the next identity.
    pub fn next_id(&mut self) -> (r: u64)
        requires
            old(self).next < u64::MAX,
        ensures
            r == old(self).next,
            final(self).next == old(self).next + 1,
    {
        let r = self.next;
        self.next = self.next + 1;
        r
    }
}

/// Which rows of a uniform list to build, and where.
#[derive(Clone, Copy, Debug, PartialEq, Eq, Structural)]
pub struct RowLayout {
    /// Height of all rows together, spacing between them included.
    pub content_height: i64,
    /// First row to build.
    pub min_row: usize,
    /// One past the last row to build.
    pub max_row: usize,
    /// Screen top of `min_row`.
    pub top: i64,
    /// Screen bottom of the slot of `max_row - 1`.
    pub bottom: i64,
    /// How many automatic identities to skip before building `min_row`.
    pub id_skip: usize,
}

/// Height of `num_rows` rows of `row_height`, with `spacing` between them.
pub open spec fn rows_height(row_height: int, spacing: int, num_rows: int) -> int {
    max_i(0, (row_height + spacing) * num_rows - spacing)
}

/// First row whose slot reaches below content position `y_min`.
pub open spec fn first_row(y_min: int, stride: int) -> int {
    if stride <= 0 {
        0
    } else {
        max_i(0, y_min / stride)
    }
}

/// One past the last row to build for a window ending at `y_max`, with one row
/// of overscan.
pub open spec fn end_row(y_max: Option<int>, stride: int, num_rows: int) -> int {
    match y_max {
        Some(y) if stride > 0 => min_i(num_rows, max_i(0, -((-y) / stride)) + 1),
        _ => num_rows,
    }
}

/// Chooses the rows of a uniform list that the window `[y_min, y_max)` of the
/// content shows; `content_top` is the screen position of content row 0.
pub fn row_layout(
    y_min: i64,
    y_max: Option<i64>,
    content_top: i64,
    row_height: i64,
    spacing: i64,
    num_rows: usize,
) -> (r: RowLayout)
    requires
        bounded(y_min as int, 2 * MAX_COORD),
        match y_max {
            Some(y) => bounded(y as int, 2 * MAX_COORD),
            None => true,
        },
        bounded(content_top as int, 2 * MAX_COORD),
        0 <= row_height,
        0 <= spacing,
        (row_height + spacing) * num_rows <= MAX_COORD,
        row_height + spacing <= MAX_COORD,
    ensures
        r.content_height == rows_height(row_height as int, spacing as int, num_rows as int),
        r.min_row == first_row(y_min as int, row_height + spacing),
        r.max_row == end_row(
            match y_max {
                Some(y) => Some(y as int),
                None => None,
            },
            row_height + spacing,
            num_rows as int,
        ),
        r.max_row <= num_rows,
        r.top == content_top + r.min_row * (row_height + spacing),
        r.bottom == content_top + r.max_row * (row_height + spacing),
        r.id_skip == r.min_row,
{
    let stride: i64 = row_height + spacing;
    proof {
        let (s, n) = (stride as int, num_rows as int);
        assert(0 <= s * n) by (nonlinear_arith) requires 0 <= s, 0 <= n;
        if s >= 1 {
            assert(n <= s * n) by (nonlinear_arith) requires s >= 1, n >= 0;
        } else {
            assert(s * n == 0) by (nonlinear_arith) requires s == 0;
        }
    }
    let total: i64 = if stride == 0 { 0 } else { stride * num_rows as i64 - spacing };
    let content_height: i64 = if total < 0 { 0 } else { total };
    assert(content_height == rows_height(row_height as int, spacing as int, num_rows as int));
    let min_row: usize;
    let max_row: usize;
    if stride <= 0 {
        min_row = 0;
        max_row = num_rows;
        assert(min_row as int * stride as int <= 2_000_000_000);
    } else {
        let q: i64 = floor_div(y_min, stride);
        proof {
            let (y, s) = (y_min as int, stride as int);
            if y >= 0 {
                assert(0 <= y / s <= y) by (nonlinear_arith) requires s >= 1, y >= 0;
                assert((y / s) * s <= y) by (nonlinear_arith) requires s >= 1, y >= 0;
            }
        }
        min_row = if q < 0 { 0 } else { q as usize };
        proof {
            let (a, ss, y) = (min_row as int, stride as int, y_min as int);
            if y < 0 {
                assert(y / ss < 0) by (nonlinear_arith) requires y < 0, ss >= 1;
            }
            if q >= 0 {
                assert(a * ss <= y) by (nonlinear_arith) requires a == y / ss, ss >= 1, y >= 0;
            }
        }
        assert(min_row as int * stride as int <= 2_000_000_000);
        max_row = match y_max {
            Some(y) => {
                proof {
                    let (yy, ss) = (-y as int, stride as int);
                    assert(-4_000_000_000 <= yy / ss <= 4_000_000_000) by (nonlinear_arith)
                        requires ss >= 1, -2_000_000_000 <= yy <= 2_000_000_000;
                }
                let ceil: i64 = -floor_div(-y, stride);
                let c: i64 = if ceil < 0 { 1 } else { ceil + 1 };
                if c as usize >= num_rows {
                    num_rows
                } else {
                    c as usize
                }
            },
            None => num_rows,
        };
    }
    proof {
        let (s, a, b, n) = (stride as int, min_row as int, max_row as int, num_rows as int);
        assert(0 <= b * s <= n * s) by (nonlinear_arith) requires 0 <= b <= n, 0 <= s;
        assert(n * s == s * n) by (nonlinear_arith);
        if s >= 1 {
            assert(b <= b * s) by (nonlinear_arith) requires s >= 1, b >= 0;
            assert(a <= a * s) by (nonlinear_arith) requires s >= 1, a >= 0;
        } else {
            assert(a * s == 0 && b * s == 0) by (nonlinear_arith) requires s == 0;
        }
        assert(0 <= a * s) by (nonlinear_arith) requires 0 <= s, 0 <= a;
    }
    RowLayout {
        content_height,
        min_row,
        max_row,
        top: if stride == 0 { content_top } else { content_top + min_row as i64 * stride },
        bottom: if stride == 0 { content_top } else { content_top + max_row as i64 * stride },
        id_skip: min_row,
    }
}

/// Every row whose slot overlaps the window `(y_min, y_max)` is built.
pub proof fn lemma_rows_cover_window(y_min: int, y_max: int, row_height: int, spacing: int, num_rows: int, row: int)
    requires
        0 <= row_height,
        0 <= spacing,
        row_height + spacing > 0,
        0 <= row < num_rows,
        row * (row_height + spacing) < y_max,
        row * (row_height + spacing) + row_height > y_min,
    ensures
        first_row(y_min, row_height + spacing) <= row,
        row < end_row(Some(y_max), row_height + spacing, num_rows),
{
    let s = row_height + spacing;
    assert(y_min < (row + 1) * s) by (nonlinear_arith)
        requires row * s + row_height > y_min, row_height <= s;
    assert(y_min / s <= row) by (nonlinear_arith) requires y_min < (row + 1) * s, s > 0;
    assert(row < -((-y_max) / s)) by (nonlinear_arith)
        requires row * s < y_max, s > 0;
}

/// At most one row beyond each edge of the window is built: the row after the
/// first starts below `y_min`, and the row before the last starts above `y_max`.
pub proof fn lemma_rows_overscan(y_min: int, y_max: int, stride: int, num_rows: int)
    requires
        stride > 0,
        y_min >= 0,
    ensures
        (first_row(y_min, stride) + 1) * stride > y_min,
        end_row(Some(y_max), stride, num_rows) <= num_rows,
        end_row(Some(y_max), stride, num_rows) < 2
            || (end_row(Some(y_max), stride, num_rows) - 2) * stride < y_max,
{
    assert((y_min / stride + 1) * stride > y_min) by (nonlinear_arith)
        requires stride > 0, y_min >= 0;
    assert(y_min / stride >= 0) by (nonlinear_arith) requires stride > 0, y_min >= 0;
    let c = -((-y_max) / stride);
    assert((c - 1) * stride < y_max) by (nonlinear_arith) requires c == -((-y_max) / stride), stride > 0;
    let e = end_row(Some(y_max), stride, num_rows);
    if e >= 2 {
        assert(e - 2 <= c - 1);
        assert((e - 2) * stride <= (c - 1) * stride) by (nonlinear_arith)
            requires e - 2 <= c - 1, stride > 0;
    }
}

impl ScrollArea {
    /// Begins a region showing `num_rows` rows of `row_height` with `spacing`
    /// between them, and picks the rows to build: those the viewport shows and
    /// one more on each side. The content is `content_height` high; skip
    /// `id_skip` automatic identities before building the rows.
    pub fn show_rows(
        self,
        id: u64,
        stored: ScrollState,
        available: Available,
        row_height: i64,
        spacing: i64,
        num_rows: usize,
    ) -> (r: (Prepared, RowLayout))
        requires
            self.wf(),
            stored.wf(),
            available.wf(),
            0 <= row_height,
            0 <= spacing,
            (row_height + spacing) * num_rows <= MAX_COORD,
            row_height + spacing <= MAX_COORD,
        ensures
            r.0 == self.begin_spec(id, stored, available),
            r.0.wf(),
            r.1.content_height == rows_height(row_height as int, spacing as int, num_rows as int),
            r.1.min_row == first_row(r.0.viewport_min.y as int, row_height + spacing),
            r.1.max_row == end_row(r.0.viewport_max_y(), row_height + spacing, num_rows as int),
            r.1.max_row <= num_rows,
            r.1.top == r.0.content_origin.y + r.1.min_row * (row_height + spacing),
            r.1.bottom == r.0.content_origin.y + r.1.max_row * (row_height + spacing),
            r.1.id_skip == r.1.min_row,
    {
        let p = self.begin(id, stored, available);
        let y_max: Option<i64> = match p.height {
            Some(h) => Some(p.viewport_min.y + h),
            None => None,
        };
        let layout = row_layout(p.viewport_min.y, y_max, p.content_origin.y, row_height, spacing, num_rows);
        (p, layout)
    }
}

/// The identity that row `row` of `layout` receives from a counter at `base`:
/// the counter skips `id_skip` identities, then each built row takes one.
pub open spec fn row_identity(base: int, layout: RowLayout, row: int) -> int {
    base + layout.id_skip + (row - layout.min_row)
}

impl RowLayout {
    /// Hands out the identities of the built rows, in order, from `ids`: first
    /// skips `id_skip` identities, then gives one to each row.
    pub fn row_ids(&self, ids: &mut AutoIds) -> (r: Vec<u64>)
        requires
            old(ids).next + self.id_skip + self.max_row <= u64::MAX,
        ensures
            r@.len() == (if self.max_row >= self.min_row { self.max_row - self.min_row } else { 0 }),
            forall|i: int| 0 <= i < r@.len() ==> r@[i] == row_identity(old(ids).next as int, *self, self.min_row + i),
    {
        let ghost base = ids.next as int;
        ids.skip_ahead_auto_ids(self.id_skip);
        let mut out: Vec<u64> = Vec::new();
        let mut row: usize = self.min_row;
        while row < self.max_row
            invariant
                self.min_row <= row,
                row <= self.max_row || row == self.min_row,
                ids.next == base + self.id_skip + (row - self.min_row),
                base + self.id_skip + self.max_row <= u64::MAX,
                out@.len() == row - self.min_row,
                forall|i: int| 0 <= i < out@.len() ==> out@[i] == row_identity(base, *self, self.min_row + i),
            decreases self.max_row - row,
        {
            let id = ids.next_id();
            out.push(id);
            row = row + 1;
        }
        out
    }
}

/// A row keeps its identity wherever the built range starts: for two layouts
/// that skip as many identities as rows above them (as `row_layout` and
/// `show_rows` do), a row built in both gets the same identity, `base + row`.
pub proof fn lemma_row_identity_stable(base: int, a: RowLayout, b: RowLayout, row: int)
    requires
        a.id_skip == a.min_row,
        b.id_skip == b.min_row,
        a.min_row <= row < a.max_row,
        b.min_row <= row < b.max_row,
    ensures
        row_identity(base, a, row) == row_identity(base, b, row),
        row_identity(base, a, row) == base + row,
{
}

} // verus!
