use region_zoom::{
    Button, DrawOp, Event, Flow, Key, Mode, Modifiers, Rect, Region, Rgba, Tracker, Viewport,
};

fn rect(left: i32, top: i32, width: u32, height: u32) -> Rect {
    Rect { left, top, width, height }
}

fn mods(ctrl: bool, shift: bool, alt: bool, gui: bool) -> Modifiers {
    Modifiers { ctrl, shift, alt, gui }
}

#[test]
fn normalize_takes_min_corner_and_distances() {
    let r = Region { x0: 5, y0: -3, x1: -7, y1: 2 }.normalize();
    assert_eq!(r, rect(-7, -3, 12, 5));
}

#[test]
fn normalize_ignores_corner_order() {
    let cases = [(0, 0, 10, 20), (10, 20, 0, 0), (-4, 9, 3, -1), (7, 7, 7, 7)];
    for &(a, b, c, d) in cases.iter() {
        let one = Region { x0: a, y0: b, x1: c, y1: d }.normalize();
        let other = Region { x0: c, y0: d, x1: a, y1: b }.normalize();
        assert_eq!(one, other);
        assert_eq!(one.left, a.min(c));
        assert_eq!(one.top, b.min(d));
        assert_eq!(one.width as i64, (c as i64 - a as i64).abs());
        assert_eq!(one.height as i64, (d as i64 - b as i64).abs());
    }
}

#[test]
fn normalize_widest_span() {
    let r = Region { x0: i32::MAX, y0: i32::MIN, x1: i32::MIN, y1: i32::MAX }.normalize();
    assert_eq!(r, rect(i32::MIN, i32::MIN, u32::MAX, u32::MAX));
}

#[test]
fn starts_idle_on_full_view() {
    let t = Tracker::new();
    assert_eq!(t.mode, Mode::Idle);
    assert_eq!(t.viewport, Viewport::Full);
    assert!(!t.is_selecting());
}

#[test]
fn reset_twice_equals_reset_once() {
    let mut t = Tracker::new();
    t.pointer_down(3, 4);
    t.pointer_up(50, 60);
    let mut once = t;
    once.reset();
    let mut twice = t;
    twice.reset();
    twice.reset();
    assert_eq!(once, twice);
    assert_eq!(twice.viewport, Viewport::Full);
}

#[test]
fn click_without_drag_commits_empty_rect() {
    let mut t = Tracker::new();
    t.pointer_down(10, 10);
    assert!(t.pointer_up(10, 10));
    assert_eq!(t.viewport, Viewport::Cropped(rect(10, 10, 0, 0)));
    assert_eq!(t.mode, Mode::Idle);
    let ops = t.frame();
    assert_eq!(
        ops,
        vec![DrawOp::Clear, DrawOp::Blit(Some(rect(10, 10, 0, 0))), DrawOp::Present]
    );
}

#[test]
fn drag_across_window_commits_full_size_rect() {
    let mut t = Tracker::new();
    t.pointer_down(0, 0);
    assert!(t.pointer_move(320, 240));
    assert_eq!(t.mode, Mode::Selecting(Region { x0: 0, y0: 0, x1: 320, y1: 240 }));
    assert!(t.pointer_up(640, 480));
    assert_eq!(t.viewport, Viewport::Cropped(rect(0, 0, 640, 480)));
}

#[test]
fn move_without_drag_changes_nothing() {
    let mut t = Tracker::new();
    assert!(!t.pointer_move(100, 200));
    assert_eq!(t, Tracker::new());

    t.pointer_down(1, 1);
    t.pointer_up(9, 9);
    let before = t;
    assert!(!t.pointer_move(30, 40));
    assert_eq!(t, before);
}

#[test]
fn release_without_drag_changes_nothing() {
    let mut t = Tracker::new();
    assert!(!t.pointer_up(100, 200));
    assert_eq!(t, Tracker::new());
}

#[test]
fn reset_after_zoom_returns_to_start() {
    let mut t = Tracker::new();
    t.pointer_down(100, 50);
    t.pointer_move(150, 80);
    t.pointer_up(200, 90);
    assert_eq!(t.viewport, Viewport::Cropped(rect(100, 50, 100, 40)));
    t.reset();
    assert_eq!(t, Tracker::new());
}

#[test]
fn second_zoom_replaces_first() {
    let mut t = Tracker::new();
    t.pointer_down(10, 10);
    t.pointer_up(20, 30);
    t.pointer_down(5, 6);
    t.pointer_up(1, 2);
    assert_eq!(t.viewport, Viewport::Cropped(rect(1, 2, 4, 4)));
}

#[test]
fn new_press_replaces_drag_in_progress() {
    let mut t = Tracker::new();
    t.pointer_down(10, 10);
    t.pointer_move(40, 40);
    t.pointer_down(7, 8);
    assert_eq!(t.mode, Mode::Selecting(Region { x0: 7, y0: 8, x1: 7, y1: 8 }));
}

#[test]
fn reset_abandons_drag() {
    let mut t = Tracker::new();
    t.pointer_down(10, 10);
    t.pointer_up(20, 20);
    t.pointer_down(1, 1);
    t.reset();
    assert_eq!(t, Tracker::new());
    assert!(!t.pointer_up(5, 5));
    assert_eq!(t.viewport, Viewport::Full);
}

#[test]
fn frame_while_selecting_overlays_highlight() {
    let mut t = Tracker::new();
    t.pointer_down(50, 60);
    t.pointer_move(20, 100);
    assert_eq!(
        t.frame(),
        vec![
            DrawOp::Clear,
            DrawOp::Blit(None),
            DrawOp::SetColor(Rgba { r: 0, g: 102, b: 204, a: 200 }),
            DrawOp::FillRect(rect(20, 60, 30, 40)),
            DrawOp::Present,
        ]
    );
}

#[test]
fn frame_of_full_view() {
    let t = Tracker::new();
    assert_eq!(t.frame(), vec![DrawOp::Clear, DrawOp::Blit(None), DrawOp::Present]);
}

#[test]
fn quit_and_escape_stop_the_loop() {
    let mut t = Tracker::new();
    assert_eq!(t.handle_event(Event::Quit), Flow::Stop);
    let esc = Event::KeyDown { key: Key::Escape, mods: mods(false, false, false, false) };
    assert_eq!(t.handle_event(esc), Flow::Stop);
    assert_eq!(t, Tracker::new());
}

#[test]
fn modified_escape_does_not_stop() {
    let mut t = Tracker::new();
    let ctrl_esc = Event::KeyDown { key: Key::Escape, mods: mods(true, false, false, false) };
    assert_eq!(t.handle_event(ctrl_esc), Flow::Continue { redraw: false });
    let shift_esc = Event::KeyDown { key: Key::Escape, mods: mods(false, true, false, false) };
    assert_eq!(t.handle_event(shift_esc), Flow::Continue { redraw: false });
}

#[test]
fn ctrl_zero_resets_and_plain_zero_does_not() {
    let mut t = Tracker::new();
    t.pointer_down(10, 10);
    t.pointer_up(20, 20);
    let zoomed = t;
    let plain = Event::KeyDown { key: Key::Num0, mods: mods(false, false, false, false) };
    assert_eq!(t.handle_event(plain), Flow::Continue { redraw: false });
    assert_eq!(t, zoomed);
    let ctrl = Event::KeyDown { key: Key::Num0, mods: mods(true, true, false, false) };
    assert_eq!(t.handle_event(ctrl), Flow::Continue { redraw: true });
    assert_eq!(t, Tracker::new());
}

#[test]
fn events_drive_a_zoom() {
    let mut t = Tracker::new();
    let down = Event::ButtonDown { x: 0, y: 0, button: Button::Primary };
    assert_eq!(t.handle_event(down), Flow::Continue { redraw: true });
    let mv = Event::PointerMove { x: 320, y: 240 };
    assert_eq!(t.handle_event(mv), Flow::Continue { redraw: true });
    let up = Event::ButtonUp { x: 640, y: 480, button: Button::Primary };
    assert_eq!(t.handle_event(up), Flow::Continue { redraw: true });
    assert_eq!(t.viewport, Viewport::Cropped(rect(0, 0, 640, 480)));
}

#[test]
fn other_buttons_and_events_are_ignored() {
    let mut t = Tracker::new();
    let down = Event::ButtonDown { x: 5, y: 5, button: Button::Other };
    assert_eq!(t.handle_event(down), Flow::Continue { redraw: false });
    assert_eq!(t.handle_event(Event::PointerMove { x: 9, y: 9 }), Flow::Continue { redraw: false });
    let up = Event::ButtonUp { x: 9, y: 9, button: Button::Other };
    assert_eq!(t.handle_event(up), Flow::Continue { redraw: false });
    let key = Event::KeyDown { key: Key::Other, mods: mods(true, false, false, false) };
    assert_eq!(t.handle_event(key), Flow::Continue { redraw: false });
    assert_eq!(t.handle_event(Event::Ignored), Flow::Continue { redraw: false });
    assert_eq!(t, Tracker::new());
}
