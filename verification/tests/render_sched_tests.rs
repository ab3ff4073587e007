use snip::geom::{Point, Rect};
use snip::render::frame_commands;
use snip::sched::{next_mode, SchedMode};
use snip::selection::Status;

fn rect(min_x: i32, min_y: i32, max_x: i32, max_y: i32) -> Rect {
    Rect { min: Point { x: min_x, y: min_y }, max: Point { x: max_x, y: max_y } }
}

#[test]
fn frame_commands_for_a_centered_selection() {
    let container = rect(0, 0, 1920, 1080);
    let selection = rect(50, 50, 250, 150);
    let f = frame_commands(selection, container);
    assert_eq!(f.outline, rect(50, 50, 250, 150));
    assert_eq!(f.cover_top, rect(0, 0, 250, 50));
    assert_eq!(f.cover_bottom, rect(50, 150, 1920, 1080));
    assert_eq!(f.cover_left, rect(0, 50, 50, 1080));
    assert_eq!(f.cover_right, rect(250, 0, 1920, 150));
    assert_eq!(f.label_pos, Point { x: 50, y: 50 });
    assert_eq!(f.label_width, 200);
    assert_eq!(f.label_height, 100);
}

#[test]
fn frame_commands_normalize_reverse_drags() {
    let container = rect(0, 0, 800, 600);
    let selection = rect(300, 300, 100, 100);
    let f = frame_commands(selection, container);
    assert_eq!(f.outline, rect(100, 100, 300, 300));
    assert_eq!(f.label_width, 200);
    assert_eq!(f.label_height, 200);
}

#[test]
fn frame_commands_zero_size_selection() {
    let container = rect(0, 0, 640, 480);
    let selection = rect(10, 20, 10, 20);
    let f = frame_commands(selection, container);
    assert_eq!(f.outline, rect(10, 20, 10, 20));
    assert_eq!(f.label_width, 0);
    assert_eq!(f.label_height, 0);
    assert_eq!(f.cover_top, rect(0, 0, 10, 20));
    assert_eq!(f.cover_bottom, rect(10, 20, 640, 480));
}

#[test]
fn label_shows_width_by_height() {
    let container = rect(0, 0, 1920, 1080);
    let f = frame_commands(rect(50, 50, 250, 150), container);
    assert_eq!(f.label(), "200x100");
    let g = frame_commands(rect(10, 20, 10, 20), container);
    assert_eq!(g.label(), "0x0");
}

#[test]
fn label_text_renders_plain_decimals() {
    assert_eq!(snip::text::label_text(0, 0), "0x0");
    assert_eq!(snip::text::label_text(1920, 1080), "1920x1080");
    assert_eq!(snip::text::label_text(u64::MAX, 1), "18446744073709551615x1");
    assert_eq!(snip::text::label_text(100, 10), "100x10");
}

#[test]
fn quit_exits() {
    assert_eq!(next_mode(Status::Quit, Some(0), 123), SchedMode::Exit);
    assert_eq!(next_mode(Status::Quit, None, 123), SchedMode::Exit);
}

#[test]
fn zero_delay_polls_immediately() {
    assert_eq!(next_mode(Status::Running, Some(0), 10_000), SchedMode::Poll);
}

#[test]
fn positive_delay_sleeps_until_now_plus_delay() {
    assert_eq!(
        next_mode(Status::Running, Some(16_000_000), 1_000_000_000),
        SchedMode::WaitUntil(1_016_000_000)
    );
}

#[test]
fn unrepresentable_wake_instant_blocks() {
    assert_eq!(next_mode(Status::Running, Some(u64::MAX), 2), SchedMode::Block);
}

#[test]
fn no_pending_repaint_blocks() {
    assert_eq!(next_mode(Status::Running, None, 55), SchedMode::Block);
}
