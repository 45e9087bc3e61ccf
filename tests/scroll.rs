use scroll_area::{
    decay, row_layout, Align, AutoIds, Available, BarResponse, FrameInput, Prepared, Rect,
    ScrollArea, ScrollState, ScrollTarget, Vec2,
};

fn v(x: i64, y: i64) -> Vec2 {
    Vec2 { x, y }
}

fn available(width: i64) -> Available {
    Available {
        min: v(0, 0),
        width: Some(width),
        height: None,
        clip: Rect { min: v(-1000, -1000), max: v(5000, 5000) },
        clip_margin: 0,
    }
}

fn region(height: i64, offset: i64) -> Prepared {
    let mut stored = ScrollState::new();
    stored.offset = v(0, offset);
    ScrollArea::from_max_height(height).begin(7, stored, available(100))
}

fn idle_frame(content_h: i64) -> FrameInput {
    FrameInput {
        content_size: v(100, content_h),
        item_spacing_y: 8,
        hover_pos: None,
        bar_width: 8,
        bar: BarResponse { interact_pos: None, hovered: false, dragged: false },
        idle_fade: 1000,
        content_dragged: false,
        pointer_delta: v(0, 0),
        pointer_velocity: v(0, 0),
        dt_us: 16_667,
    }
}

#[test]
fn offset_stays_within_content_after_every_frame() {
    let offsets = [-500, 0, 37, 900, 5000];
    let contents = [0, 50, 100, 1000];
    let deltas = [-400, -1, 0, 3, 700];
    for &o in offsets.iter() {
        for &c in contents.iter() {
            for &d in deltas.iter() {
                let p = ScrollArea::from_max_height(100).scroll_offset(o).begin(1, ScrollState::new(), available(100));
                let mut f = idle_frame(c);
                f.hover_pos = Some(v(10, 10));
                let mut target = None;
                let mut delta = v(0, d);
                let out = p.end(&f, &mut target, &mut delta);
                let limit = if c > 100 { c - 100 } else { 0 };
                assert!(out.state.offset.y >= 0 && out.state.offset.y <= limit);
            }
        }
    }
}

#[test]
fn end_twice_stores_the_same_state() {
    let f = idle_frame(1000);
    let p = region(100, 1200);
    let first = p.end(&f, &mut None, &mut v(0, 0));
    let again = ScrollArea::from_max_height(100).begin(7, first.state, available(100));
    let second = again.end(&f, &mut None, &mut v(0, 0));
    assert_eq!(first.state, second.state);
    assert_eq!(first.state.offset.y, 900);
}

#[test]
fn rows_for_large_list() {
    let l = row_layout(0, Some(400), 0, 20, 4, 10_000);
    assert_eq!(l.min_row, 0);
    assert_eq!(l.max_row, 18);
    assert_eq!(l.content_height, 24 * 10_000 - 4);
    for r in 0..10_000usize {
        let start = r as i64 * 24;
        let visible = start < 400 && start + 20 > 0;
        if visible {
            assert!(l.min_row <= r && r < l.max_row);
        }
    }
    // The last built row begins at or past the window's bottom: one row of overscan.
    assert!((l.max_row as i64 - 1) * 24 >= 400);
    assert!((l.max_row as i64 - 2) * 24 < 400);
    assert_eq!(l.top, 0);
    assert_eq!(l.bottom, 18 * 24);
}

#[test]
fn rows_through_show_rows() {
    let mut stored = ScrollState::new();
    stored.offset = v(0, 130);
    let (p, l) = ScrollArea::from_max_height(100).show_rows(3, stored, available(100), 20, 4, 50);
    assert_eq!(p.viewport_min.y, 130);
    assert_eq!(l.min_row, 5);
    assert_eq!(l.max_row, 11);
    assert_eq!(l.id_skip, 5);
    assert_eq!(l.top, -130 + 5 * 24);
    let last = row_layout(2000, Some(5000), 0, 20, 4, 50);
    assert_eq!(last.min_row, 83);
    assert_eq!(last.max_row, 50);
}

#[test]
fn row_identity_does_not_depend_on_first_visible_row() {
    let id_of_row_10 = |min_row: usize| {
        let mut ids = AutoIds::new(1000);
        ids.skip_ahead_auto_ids(min_row);
        let mut got = 0;
        for row in min_row..=10 {
            let id = ids.next_id();
            if row == 10 {
                got = id;
            }
        }
        got
    };
    assert_eq!(id_of_row_10(5), id_of_row_10(8));
    assert_eq!(id_of_row_10(5), 1010);
}

#[test]
fn saturated_inner_region_leaves_the_wheel_to_the_outer() {
    let inner = region(100, 0);
    let outer = ScrollArea::from_max_height(200).begin(
        9,
        ScrollState { offset: v(0, 50), ..ScrollState::new() },
        available(200),
    );
    let mut fi = idle_frame(1000);
    fi.hover_pos = Some(v(50, 50));
    let mut fo = idle_frame(2000);
    fo.hover_pos = Some(v(50, 50));
    let mut delta = v(0, 30);
    let mut target = None;
    let inner_out = inner.end(&fi, &mut target, &mut delta);
    assert_eq!(delta, v(0, 30));
    assert_eq!(inner_out.state.offset.y, 0);
    let outer_out = outer.end(&fo, &mut target, &mut delta);
    assert_eq!(delta, v(0, 0));
    assert_eq!(outer_out.state.offset.y, 20);
}

#[test]
fn inner_region_takes_wheel_when_it_can_move() {
    let inner = region(100, 40);
    let mut fi = idle_frame(1000);
    fi.hover_pos = Some(v(50, 50));
    let mut delta = v(0, 30);
    let out = inner.end(&fi, &mut None, &mut delta);
    assert_eq!(delta, v(0, 0));
    assert_eq!(out.state.offset.y, 10);
}

#[test]
fn dragging_handle_to_bottom_reaches_max_offset() {
    let mut f = idle_frame(1000);
    f.bar = BarResponse { interact_pos: Some(v(98, 5)), hovered: true, dragged: true };
    let out1 = region(100, 0).end(&f, &mut None, &mut v(0, 0));
    assert_eq!(out1.state.drag_anchor, Some(5));
    assert_eq!(out1.state.offset.y, 0);
    let bar = out1.bar.unwrap();
    assert_eq!(bar.track.max, v(102, 100));
    assert_eq!(bar.handle.min.y, 0);
    assert_eq!(bar.handle.max.y, 10);

    let p2 = ScrollArea::from_max_height(100).begin(7, out1.state, available(100));
    f.bar.interact_pos = Some(v(98, 95));
    let out2 = p2.end(&f, &mut None, &mut v(0, 0));
    assert_eq!(out2.state.offset.y, 900);
    assert_eq!(out2.state.drag_anchor, Some(5));

    let p3 = ScrollArea::from_max_height(100).begin(7, out2.state, available(100));
    f.bar = BarResponse { interact_pos: None, hovered: false, dragged: false };
    let out3 = p3.end(&f, &mut None, &mut v(0, 0));
    assert_eq!(out3.state.drag_anchor, None);
    assert_eq!(out3.state.offset.y, 900);
}

#[test]
fn press_outside_handle_centers_it_under_pointer() {
    let mut f = idle_frame(1000);
    f.bar = BarResponse { interact_pos: Some(v(98, 50)), hovered: true, dragged: true };
    let out = region(100, 0).end(&f, &mut None, &mut v(0, 0));
    // Handle 10 high: its top goes to 45, so the pointer holds it 5 below its top.
    assert_eq!(out.state.drag_anchor, Some(5));
    assert_eq!(out.state.offset.y, 450);
}

#[test]
fn kinetic_decay_stops_in_bounded_steps() {
    // 500 points per second, in thousandths of a point per second.
    let mut vel = v(0, 500_000);
    let mut steps = 0;
    while vel != v(0, 0) {
        let (next, _) = decay(vel, 16_667);
        vel = next;
        steps += 1;
        assert!(steps <= 100);
    }
    assert_eq!(steps, 30);
    assert_eq!(decay(v(0, 500_000), 16_667), (v(0, 483_333), true));
    assert_eq!(decay(v(0, 33_324), 16_667), (v(0, 16_657), true));
    assert_eq!(decay(v(0, 16_657), 16_667), (v(0, 0), false));
    assert_eq!(decay(v(0, 19_999), 1), (v(0, 0), false));
}

#[test]
fn coasting_moves_the_offset_and_asks_for_a_frame() {
    let mut stored = ScrollState::new();
    stored.offset = v(0, 100);
    stored.vel = v(0, 600_000);
    stored.show_scroll = true;
    let p = ScrollArea::from_max_height(100).begin(7, stored, available(100));
    let out = p.end(&idle_frame(1000), &mut None, &mut v(0, 0));
    assert_eq!(out.state.vel, v(0, 583_333));
    // 583.333 points per second for 16667 microseconds.
    assert_eq!(out.state.offset.y, 100 - 9);
    assert!(out.repaint);
}

#[test]
fn dragging_content_follows_pointer() {
    let mut f = idle_frame(1000);
    f.content_dragged = true;
    f.pointer_delta = v(0, -30);
    f.pointer_velocity = v(0, -900_000);
    let out = region(100, 100).end(&f, &mut None, &mut v(0, 0));
    assert_eq!(out.state.offset.y, 130);
    assert_eq!(out.state.vel, v(0, -900_000));
}

#[test]
fn width_grows_to_content() {
    let mut f = idle_frame(1000);
    f.content_size = v(150, 1000);
    let out = region(100, 0).end(&f, &mut None, &mut v(0, 0));
    assert_eq!(out.allocated.max.x - out.allocated.min.x, 150);
    f.content_size = v(60, 1000);
    let out = region(100, 0).end(&f, &mut None, &mut v(0, 0));
    assert_eq!(out.allocated.max.x - out.allocated.min.x, 100);
}

#[test]
fn unbounded_width_takes_content_width() {
    let mut a = available(100);
    a.width = None;
    let p = ScrollArea::from_max_height(100).begin(1, ScrollState::new(), a);
    let mut f = idle_frame(1000);
    f.content_size = v(70, 1000);
    let out = p.end(&f, &mut None, &mut v(0, 0));
    assert_eq!(out.allocated.max.x, 70);
}

#[test]
fn short_content_allocates_only_its_height() {
    let out = region(100, 0).end(&idle_frame(40), &mut None, &mut v(0, 0));
    assert_eq!(out.allocated, Rect { min: v(0, 0), max: v(100, 40) });
    assert!(out.bar.is_none());
    assert!(!out.state.show_scroll);
    assert!(!out.repaint);
}

#[test]
fn scrollbar_appearing_requests_repaint() {
    let out = region(100, 0).end(&idle_frame(1000), &mut None, &mut v(0, 0));
    assert!(out.state.show_scroll);
    assert!(out.repaint);
    let bar = out.bar.unwrap();
    // Idle: the left edge moves in by three quarters of the width.
    assert_eq!(bar.track.min.x, 94 + 6);
}

#[test]
fn always_shown_scrollbar_with_short_content() {
    let p = ScrollArea::from_max_height(100).always_show_scroll(true).begin(1, ScrollState::new(), available(100));
    let out = p.end(&idle_frame(40), &mut None, &mut v(0, 0));
    assert!(out.bar.is_some());
    assert_eq!(out.state.offset.y, 0);
}

#[test]
fn scroll_target_alignments() {
    let cases = [(Align::Top, 496), (Align::Center, 450), (Align::Bottom, 404)];
    for (align, want) in cases.iter() {
        let mut target = Some(ScrollTarget { y: 500, align: *align });
        let out = region(100, 0).end(&idle_frame(1000), &mut target, &mut v(0, 0));
        assert_eq!(out.state.offset.y, *want);
        assert!(target.is_none());
    }
}

#[test]
fn begin_lays_out_the_region() {
    let a = Available {
        min: v(10, 20),
        width: Some(300),
        height: Some(500),
        clip: Rect { min: v(0, 0), max: v(250, 400) },
        clip_margin: 3,
    };
    let p = ScrollArea::from_max_height(200).scroll_offset(40).begin(5, ScrollState::new(), a);
    assert_eq!(p.height, Some(200));
    assert_eq!(p.width, Some(300));
    assert_eq!(p.content_origin, v(10, -20));
    assert_eq!(p.viewport_min, v(0, 40));
    assert_eq!(p.clip, Rect { min: v(7, 17), max: v(250, 223) });
    let q = ScrollArea::auto_sized().begin(5, ScrollState::new(), a);
    assert_eq!(q.height, Some(500));
    assert_eq!(ScrollArea::from_max_height(-5).max_height, Some(0));
    assert_eq!(ScrollArea::auto_sized().id_source(4).id_source, Some(4));
}

#[test]
fn kinetic_decay_through_end_stops_after_thirty_frames() {
    let mut state = ScrollState { offset: v(0, 5000), vel: v(0, 500_000), show_scroll: true, drag_anchor: None };
    for frame in 1..=40 {
        let p = ScrollArea::from_max_height(100).begin(7, state, available(100));
        let out = p.end(&idle_frame(100_000), &mut None, &mut v(0, 0));
        state = out.state;
        if frame < 30 {
            assert!(state.vel != v(0, 0));
        } else {
            assert_eq!(state.vel, v(0, 0));
        }
    }
}

#[test]
fn anchor_cleared_when_bar_hidden() {
    let stored = ScrollState { offset: v(0, 0), vel: v(0, 0), show_scroll: true, drag_anchor: Some(5) };
    let p = ScrollArea::from_max_height(100).begin(7, stored, available(100));
    let out = p.end(&idle_frame(40), &mut None, &mut v(0, 0));
    assert_eq!(out.state.drag_anchor, None);
}

#[test]
fn final_clamp_stops_momentum() {
    let stored = ScrollState { offset: v(0, 50), vel: v(0, 100_000), show_scroll: false, drag_anchor: None };
    let p = ScrollArea::from_max_height(100).begin(7, stored, available(100));
    let out = p.end(&idle_frame(40), &mut None, &mut v(0, 0));
    assert_eq!(out.state.offset.y, 0);
    assert_eq!(out.state.vel, v(0, 0));
}

#[test]
fn row_ten_keeps_its_identity_when_scrolling() {
    let id_of_row_10 = |offset: i64| {
        let stored = ScrollState { offset: v(0, offset), ..ScrollState::new() };
        let (_, layout) = ScrollArea::from_max_height(100).show_rows(3, stored, available(100), 20, 4, 50);
        let ids = layout.row_ids(&mut AutoIds::new(1000));
        (layout.min_row, ids[10 - layout.min_row])
    };
    assert_eq!(id_of_row_10(130), (5, 1010));
    assert_eq!(id_of_row_10(200), (8, 1010));
}
