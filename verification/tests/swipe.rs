//! Recognition of swipes.

use touch_ui::component::Component;
use touch_ui::display::Display;
use touch_ui::event::{Event, EventCtx, TimerToken, TouchEvent};
use touch_ui::geometry::{Point, Rect};
use touch_ui::swipe::{Swipe, SwipeDirection, SWIPE_DISTANCE, SWIPE_THRESHOLD};
use touch_ui::theme::{BACKLIGHT_NONE, BACKLIGHT_NORMAL};

fn screen() -> Rect {
    Rect { x0: 0, y0: 0, x1: 240, y1: 240 }
}

fn all_directions() -> Swipe {
    Swipe::new(screen()).up().down().left().right()
}

fn start(x: i32, y: i32) -> Event {
    Event::Touch(TouchEvent::TouchStart(Point::new(x, y)))
}

fn moved(x: i32, y: i32) -> Event {
    Event::Touch(TouchEvent::TouchMove(Point::new(x, y)))
}

fn end(x: i32, y: i32) -> Event {
    Event::Touch(TouchEvent::TouchEnd(Point::new(x, y)))
}

/// Handles the events and returns what was reported, event by event.
fn run(swipe: &mut Swipe, events: &[Event]) -> Vec<Option<SwipeDirection>> {
    let mut ctx = EventCtx::new();
    events.iter().map(|e| swipe.event(&mut ctx, *e)).collect()
}

#[test]
fn swipe_constructors() {
    let s = Swipe::new(screen());
    assert_eq!(s.area, screen());
    assert!(!s.allow_up && !s.allow_down && !s.allow_left && !s.allow_right);
    assert_eq!(s.origin, None);
    let v = Swipe::vertical(screen());
    assert!(v.allow_up && v.allow_down && !v.allow_left && !v.allow_right);
    let h = Swipe::horizontal(screen());
    assert!(!h.allow_up && !h.allow_down && h.allow_left && h.allow_right);
}

#[test]
fn swipe_in_each_direction() {
    let mut s = all_directions();
    assert_eq!(
        run(&mut s, &[start(100, 100), moved(100, 80), end(100, 20)]),
        vec![None, None, Some(SwipeDirection::Up)]
    );
    assert_eq!(
        run(&mut s, &[start(100, 100), end(100, 180)]),
        vec![None, Some(SwipeDirection::Down)]
    );
    assert_eq!(
        run(&mut s, &[start(100, 100), end(20, 100)]),
        vec![None, Some(SwipeDirection::Left)]
    );
    assert_eq!(
        run(&mut s, &[start(100, 100), end(180, 100)]),
        vec![None, Some(SwipeDirection::Right)]
    );
}

#[test]
fn swipe_must_exceed_the_threshold() {
    assert_eq!(SWIPE_THRESHOLD, 35);
    let mut s = all_directions();
    assert_eq!(run(&mut s, &[start(100, 100), end(100, 65)]), vec![None, None]);
    assert_eq!(
        run(&mut s, &[start(100, 100), end(100, 64)]),
        vec![None, Some(SwipeDirection::Up)]
    );
    assert_eq!(run(&mut s, &[start(100, 100), end(135, 100)]), vec![None, None]);
    assert_eq!(
        run(&mut s, &[start(100, 100), end(136, 100)]),
        vec![None, Some(SwipeDirection::Right)]
    );
    assert_eq!(run(&mut s, &[start(100, 100), end(100, 100)]), vec![None, None]);
}

#[test]
fn swipe_goes_by_the_larger_displacement_and_ties_go_sideways() {
    let mut s = all_directions();
    assert_eq!(
        run(&mut s, &[start(100, 100), end(160, 159)]),
        vec![None, Some(SwipeDirection::Right)]
    );
    assert_eq!(
        run(&mut s, &[start(100, 100), end(159, 160)]),
        vec![None, Some(SwipeDirection::Down)]
    );
    assert_eq!(
        run(&mut s, &[start(100, 100), end(160, 160)]),
        vec![None, Some(SwipeDirection::Right)]
    );
    assert_eq!(
        run(&mut s, &[start(100, 100), end(40, 40)]),
        vec![None, Some(SwipeDirection::Left)]
    );
    assert_eq!(
        run(&mut s, &[start(100, 100), end(40, 160)]),
        vec![None, Some(SwipeDirection::Left)]
    );
}

#[test]
fn swipe_counts_net_displacement_only() {
    let mut s = all_directions();
    // A long way round that ends near the origin is no swipe.
    assert_eq!(
        run(
            &mut s,
            &[start(100, 100), moved(200, 100), moved(200, 200), moved(10, 10), end(110, 90)]
        ),
        vec![None, None, None, None, None]
    );
    // And a detour does not change the direction of one.
    assert_eq!(
        run(&mut s, &[start(100, 100), moved(230, 100), moved(100, 230), end(100, 10)]),
        vec![None, None, None, Some(SwipeDirection::Up)]
    );
}

#[test]
fn swipe_one_gesture_per_touch() {
    let mut s = all_directions();
    let reported = run(
        &mut s,
        &[start(100, 200), moved(100, 150), moved(100, 100), end(100, 50), end(100, 0), moved(0, 0)],
    );
    assert_eq!(reported.iter().filter(|r| r.is_some()).count(), 1);
    assert_eq!(reported[3], Some(SwipeDirection::Up));
    assert_eq!(s.origin, None);
}

#[test]
fn swipe_only_in_allowed_directions() {
    let mut s = Swipe::new(screen()).up();
    assert_eq!(run(&mut s, &[start(100, 100), end(100, 200)]), vec![None, None]);
    assert_eq!(run(&mut s, &[start(100, 100), end(200, 100)]), vec![None, None]);
    assert_eq!(
        run(&mut s, &[start(100, 100), end(100, 0)]),
        vec![None, Some(SwipeDirection::Up)]
    );
    // The larger displacement decides even where its direction is not allowed.
    assert_eq!(run(&mut s, &[start(100, 100), end(200, 10)]), vec![None, None]);
}

#[test]
fn swipe_that_allows_nothing_takes_no_notice() {
    let mut s = Swipe::new(screen());
    let mut ctx = EventCtx::new();
    assert_eq!(s.event(&mut ctx, start(100, 100)), None);
    assert_eq!(s.origin, None);
    assert_eq!(s.event(&mut ctx, end(100, 0)), None);
    assert_eq!(ctx.backlight, None);
}

#[test]
fn swipe_must_begin_inside_the_area() {
    let mut s = Swipe::vertical(Rect { x0: 50, y0: 50, x1: 100, y1: 100 });
    assert_eq!(run(&mut s, &[start(10, 10), end(10, 200)]), vec![None, None]);
    assert_eq!(s.origin, None);
    // It may end outside.
    assert_eq!(
        run(&mut s, &[start(60, 60), end(60, 200)]),
        vec![None, Some(SwipeDirection::Down)]
    );
    // Events outside a touch are ignored.
    assert_eq!(run(&mut s, &[moved(60, 60), end(60, 200)]), vec![None, None]);
    assert_eq!(
        run(&mut s, &[Event::Timer(TimerToken { id: 2 })]),
        vec![None]
    );
}

#[test]
fn swipe_tracks_the_touch() {
    let mut s = Swipe::vertical(screen());
    let mut ctx = EventCtx::new();
    s.event(&mut ctx, start(20, 100));
    assert_eq!(s.origin, Some(Point::new(20, 100)));
    s.event(&mut ctx, moved(20, 60));
    assert_eq!(s.origin, Some(Point::new(20, 100)));
    // A second touch-start moves the origin.
    s.event(&mut ctx, start(30, 30));
    assert_eq!(s.origin, Some(Point::new(30, 30)));
    s.event(&mut ctx, end(30, 31));
    assert_eq!(s.origin, None);
}

#[test]
fn swipe_dims_the_backlight_while_the_finger_moves() {
    assert_eq!(SWIPE_DISTANCE, 120);
    assert_eq!(BACKLIGHT_NORMAL, 150);
    assert_eq!(BACKLIGHT_NONE, 2);
    let mut s = Swipe::vertical(screen());
    let mut ctx = EventCtx::new();
    s.event(&mut ctx, start(20, 200));
    assert_eq!(ctx.backlight, None);
    s.event(&mut ctx, moved(20, 199));
    assert_eq!(ctx.backlight, Some(148));
    s.event(&mut ctx, moved(20, 140));
    assert_eq!(ctx.backlight, Some(76));
    s.event(&mut ctx, moved(20, 80));
    assert_eq!(ctx.backlight, Some(2));
    s.event(&mut ctx, moved(20, 0));
    assert_eq!(ctx.backlight, Some(2));
    // Sideways is not allowed here: the level stays.
    s.event(&mut ctx, moved(220, 200));
    assert_eq!(ctx.backlight, Some(2));
    // A touch that ends without a swipe brings the light back.
    s.event(&mut ctx, end(20, 190));
    assert_eq!(ctx.backlight, Some(150));
}

#[test]
fn swipe_leaves_the_backlight_dimmed_after_a_swipe() {
    let mut s = Swipe::vertical(screen());
    let mut ctx = EventCtx::new();
    s.event(&mut ctx, start(20, 200));
    s.event(&mut ctx, moved(20, 140));
    assert_eq!(s.event(&mut ctx, end(20, 100)), Some(SwipeDirection::Up));
    assert_eq!(ctx.backlight, Some(76));
    assert!(!ctx.paint_requested);
    assert_eq!(ctx.timers.len(), 0);
}

#[test]
fn swipe_far_apart_points() {
    let mut s = Swipe::new(Rect { x0: i32::MIN, y0: i32::MIN, x1: i32::MAX, y1: i32::MAX })
        .up()
        .down()
        .left()
        .right();
    assert_eq!(
        run(&mut s, &[start(i32::MIN, 0), end(i32::MAX, 0)]),
        vec![None, Some(SwipeDirection::Right)]
    );
    assert_eq!(
        run(&mut s, &[start(0, i32::MAX - 1), end(5, i32::MIN)]),
        vec![None, Some(SwipeDirection::Up)]
    );
}

#[test]
fn swipe_paints_nothing_and_reports_its_area() {
    let mut s = Swipe::vertical(screen());
    let mut display = Display::new();
    s.paint(&mut display);
    assert!(display.cmds.is_empty());
    let mut sink = Vec::new();
    s.bounds(&mut sink);
    assert_eq!(sink, vec![screen()]);
}
