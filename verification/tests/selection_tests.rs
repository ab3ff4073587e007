use snip::geom::{Point, Rect};
use snip::selection::{App, InputSnapshot, Status};

fn idle(focused: bool) -> InputSnapshot {
    InputSnapshot { focused, escape_pressed: false, pointer: None }
}

fn pointer_at(x: i32, y: i32) -> InputSnapshot {
    InputSnapshot { focused: true, escape_pressed: false, pointer: Some(Point { x, y }) }
}

fn escape() -> InputSnapshot {
    InputSnapshot { focused: true, escape_pressed: true, pointer: None }
}

#[test]
fn drag_and_release_finalizes_selection() {
    let mut app = App::default();
    assert_eq!(app.update(&pointer_at(50, 50)), Status::Running);
    assert_eq!(app.update(&pointer_at(250, 150)), Status::Running);
    assert_eq!(app.update(&idle(true)), Status::Quit);
    let sel = app.selection();
    assert_eq!(
        sel,
        Some(Rect { min: Point { x: 50, y: 50 }, max: Point { x: 250, y: 150 } })
    );
}

#[test]
fn drag_in_reverse_direction_normalizes() {
    let mut app = App::default();
    assert_eq!(app.update(&pointer_at(300, 300)), Status::Running);
    assert_eq!(app.update(&pointer_at(100, 100)), Status::Running);
    assert_eq!(app.update(&idle(true)), Status::Quit);
    assert_eq!(
        app.selection(),
        Some(Rect { min: Point { x: 100, y: 100 }, max: Point { x: 300, y: 300 } })
    );
}

#[test]
fn escape_after_pointer_down_cancels() {
    let mut app = App::default();
    assert_eq!(app.update(&pointer_at(50, 50)), Status::Running);
    assert_eq!(app.update(&escape()), Status::Quit);
    assert_eq!(app.selection(), None);
}

#[test]
fn escape_with_no_selection_cancels() {
    let mut app = App::default();
    assert_eq!(app.update(&escape()), Status::Quit);
    assert_eq!(app.selection(), None);
}

#[test]
fn escape_during_drag_beats_pointer() {
    let mut app = App::default();
    assert_eq!(app.update(&pointer_at(10, 20)), Status::Running);
    let both = InputSnapshot {
        focused: true,
        escape_pressed: true,
        pointer: Some(Point { x: 30, y: 40 }),
    };
    assert_eq!(app.update(&both), Status::Quit);
    assert_eq!(app.selection(), None);
}

#[test]
fn focus_loss_cancels_mid_drag() {
    let mut app = App::default();
    assert_eq!(app.update(&pointer_at(50, 50)), Status::Running);
    assert_eq!(app.update(&pointer_at(90, 90)), Status::Running);
    assert_eq!(app.update(&idle(false)), Status::Quit);
    assert_eq!(app.selection(), None);
}

#[test]
fn focus_loss_cancels_when_idle() {
    let mut app = App::default();
    assert_eq!(app.update(&idle(true)), Status::Running);
    assert_eq!(app.update(&idle(false)), Status::Quit);
    assert_eq!(app.selection(), None);
}

#[test]
fn never_focused_tick_keeps_running() {
    let mut app = App::default();
    assert_eq!(app.update(&idle(false)), Status::Running);
    assert_eq!(app.selection(), None);
}

#[test]
fn selection_read_is_idempotent() {
    let mut app = App::default();
    assert_eq!(app.update(&pointer_at(5, 6)), Status::Running);
    let first = app.selection();
    let second = app.selection();
    assert_eq!(first, second);
    assert_eq!(
        first,
        Some(Rect { min: Point { x: 5, y: 6 }, max: Point { x: 5, y: 6 } })
    );
}

#[test]
fn pointer_down_starts_zero_size_selection() {
    let mut app = App::default();
    assert_eq!(app.update(&pointer_at(7, 8)), Status::Running);
    assert_eq!(
        app.selection(),
        Some(Rect { min: Point { x: 7, y: 8 }, max: Point { x: 7, y: 8 } })
    );
}

#[test]
fn move_updates_far_corner_only() {
    let mut app = App::default();
    assert_eq!(app.update(&pointer_at(40, 60)), Status::Running);
    assert_eq!(app.update(&pointer_at(10, 90)), Status::Running);
    assert_eq!(
        app.selection(),
        Some(Rect { min: Point { x: 40, y: 60 }, max: Point { x: 10, y: 90 } })
    );
}
