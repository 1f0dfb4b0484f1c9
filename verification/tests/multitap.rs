//! Keys that stand for several characters, and the text they edit.

use touch_ui::event::{Event, EventCtx, Timer, TimerToken, TouchEvent};
use touch_ui::geometry::Point;
use touch_ui::keyboard::common::{
    MultiTapKeyboard, Pending, TextBox, TextEdit, PENDING_TIMEOUT_MS,
};

fn text<const L: usize>(t: &TextBox<L>) -> String {
    String::from_utf8(t.content().to_vec()).unwrap()
}

#[test]
fn textbox_appends_up_to_its_capacity() {
    let mut t: TextBox<3> = TextBox::empty();
    let mut ctx = EventCtx::new();
    assert!(t.is_empty());
    assert_eq!(t.len(), 0);
    assert!(t.append(&mut ctx, b'a'));
    assert!(ctx.paint_requested);
    assert!(t.append(&mut ctx, b'b'));
    assert!(t.append(&mut ctx, b'c'));
    assert_eq!(text(&t), "abc");
    ctx.clear_paint_requests();
    // A full text takes no more, and stays as it is.
    assert!(!t.append(&mut ctx, b'd'));
    assert_eq!(text(&t), "abc");
    assert_eq!(t.len(), 3);
    assert!(!ctx.paint_requested);
    assert!(!t.apply(&mut ctx, TextEdit::Append(b'e')));
    assert_eq!(text(&t), "abc");
}

#[test]
fn textbox_replaces_the_last_character() {
    let mut t: TextBox<3> = TextBox::empty();
    let mut ctx = EventCtx::new();
    // On an empty text, to replace is to append.
    assert!(t.replace_last(&mut ctx, b'x'));
    assert_eq!(text(&t), "x");
    assert!(t.replace_last(&mut ctx, b'y'));
    assert_eq!(text(&t), "y");
    t.append(&mut ctx, b'z');
    t.append(&mut ctx, b'z');
    // A full text can still have its last character replaced.
    assert!(t.apply(&mut ctx, TextEdit::ReplaceLast(b'!')));
    assert_eq!(text(&t), "yz!");
}

#[test]
fn textbox_without_capacity_takes_nothing() {
    let mut t: TextBox<0> = TextBox::empty();
    let mut ctx = EventCtx::new();
    assert!(!t.append(&mut ctx, b'a'));
    assert!(!t.replace_last(&mut ctx, b'a'));
    assert!(t.is_empty());
    assert!(!ctx.paint_requested);
}

#[test]
fn textbox_deletes_and_clears() {
    let mut t: TextBox<8> = TextBox::empty();
    let mut ctx = EventCtx::new();
    t.delete_last(&mut ctx);
    assert!(t.is_empty());
    assert!(!ctx.paint_requested);
    t.append(&mut ctx, b'a');
    t.append(&mut ctx, b'b');
    ctx.clear_paint_requests();
    t.delete_last(&mut ctx);
    assert_eq!(text(&t), "a");
    assert!(ctx.paint_requested);
    t.append(&mut ctx, b'c');
    t.clear(&mut ctx);
    assert!(t.is_empty());
    assert_eq!(t.content(), b"");
}

#[test]
fn multitap_starts_with_no_key_pending() {
    let k = MultiTapKeyboard::new();
    assert_eq!(PENDING_TIMEOUT_MS, 1000);
    assert_eq!(k, MultiTapKeyboard { timeout_ms: 1000, pending: None });
    assert_eq!(k.pending_key(), None);
    assert_eq!(k.pending_press(), None);
    assert_eq!(k.pending_timer(), None);
}

#[test]
fn multitap_cycles_through_the_characters_of_a_key() {
    let mut k = MultiTapKeyboard::new();
    let mut ctx = EventCtx::new();
    assert_eq!(k.click_key(&mut ctx, 2, b"abc"), TextEdit::Append(b'a'));
    assert_eq!(
        k.pending,
        Some(Pending { key: 2, press: 0, timer: TimerToken { id: 2 } })
    );
    assert_eq!(k.click_key(&mut ctx, 2, b"abc"), TextEdit::ReplaceLast(b'b'));
    assert_eq!(k.pending_press(), Some(1));
    assert_eq!(k.pending_timer(), Some(TimerToken { id: 3 }));
    assert_eq!(k.click_key(&mut ctx, 2, b"abc"), TextEdit::ReplaceLast(b'c'));
    assert_eq!(k.click_key(&mut ctx, 2, b"abc"), TextEdit::ReplaceLast(b'a'));
    assert_eq!(k.pending_press(), Some(0));
    assert_eq!(k.pending_key(), Some(2));
    // Every press starts a timer of one second.
    assert_eq!(ctx.timers.len(), 4);
    assert_eq!(ctx.timers[0], Timer { token: TimerToken { id: 2 }, delay_ms: 1000 });
    assert_eq!(ctx.next_token, 6);
}

#[test]
fn multitap_another_key_begins_anew() {
    let mut k = MultiTapKeyboard::new();
    let mut ctx = EventCtx::new();
    k.click_key(&mut ctx, 2, b"abc");
    k.click_key(&mut ctx, 2, b"abc");
    assert_eq!(k.click_key(&mut ctx, 3, b"def"), TextEdit::Append(b'd'));
    assert_eq!(k.pending_key(), Some(3));
    assert_eq!(k.pending_press(), Some(0));
    assert_eq!(k.click_key(&mut ctx, 2, b"abc"), TextEdit::Append(b'a'));
}

#[test]
fn multitap_key_with_one_character_is_never_pending() {
    let mut k = MultiTapKeyboard::new();
    let mut ctx = EventCtx::new();
    assert_eq!(k.click_key(&mut ctx, 0, b" "), TextEdit::Append(b' '));
    assert_eq!(k.pending, None);
    assert_eq!(k.click_key(&mut ctx, 0, b" "), TextEdit::Append(b' '));
    assert!(ctx.timers.is_empty());
    assert_eq!(ctx.next_token, 2);
    // It also ends the pending state of another key.
    k.click_key(&mut ctx, 2, b"abc");
    assert_eq!(k.click_key(&mut ctx, 0, b"1"), TextEdit::Append(b'1'));
    assert_eq!(k.pending, None);
}

#[test]
fn multitap_times_out_on_its_own_timer_only() {
    let mut k = MultiTapKeyboard::new();
    let mut ctx = EventCtx::new();
    let touch = Event::Touch(TouchEvent::TouchStart(Point::new(0, 0)));
    assert!(!k.is_timeout_event(Event::Timer(TimerToken { id: 2 })));
    k.click_key(&mut ctx, 2, b"abc");
    assert!(k.is_timeout_event(Event::Timer(TimerToken { id: 2 })));
    assert!(!k.is_timeout_event(Event::Timer(TimerToken { id: 3 })));
    assert!(!k.is_timeout_event(Event::Timer(TimerToken { id: 1 })));
    assert!(!k.is_timeout_event(touch));
    k.click_key(&mut ctx, 2, b"abc");
    // The timer of the earlier press no longer counts.
    assert!(!k.is_timeout_event(Event::Timer(TimerToken { id: 2 })));
    assert!(k.is_timeout_event(Event::Timer(TimerToken { id: 3 })));
}

#[test]
fn multitap_clear_asks_for_paint_only_if_a_key_was_pending() {
    let mut k = MultiTapKeyboard::new();
    let mut ctx = EventCtx::new();
    k.clear_pending_state(&mut ctx);
    assert!(!ctx.paint_requested);
    k.click_key(&mut ctx, 2, b"abc");
    k.clear_pending_state(&mut ctx);
    assert!(ctx.paint_requested);
    assert_eq!(k.pending, None);
    assert_eq!(k.timeout_ms, 1000);
}

#[test]
fn multitap_no_cycling_across_the_timeout() {
    let mut k = MultiTapKeyboard::new();
    let mut t: TextBox<50> = TextBox::empty();
    let mut ctx = EventCtx::new();
    let edit = k.click_key(&mut ctx, 5, b"mno");
    t.apply(&mut ctx, edit);
    assert_eq!(text(&t), "m");
    let timer = ctx.pop_timer().unwrap();
    assert!(k.is_timeout_event(Event::Timer(timer.token)));
    k.clear_pending_state(&mut ctx);
    let edit = k.click_key(&mut ctx, 5, b"mno");
    assert_eq!(edit, TextEdit::Append(b'm'));
    t.apply(&mut ctx, edit);
    assert_eq!(text(&t), "mm");
    // Without the timeout the second press would have cycled.
    let edit = k.click_key(&mut ctx, 5, b"mno");
    t.apply(&mut ctx, edit);
    assert_eq!(text(&t), "mn");
}

#[test]
fn multitap_position_beyond_the_key_wraps() {
    let mut k = MultiTapKeyboard {
        timeout_ms: 5,
        pending: Some(Pending { key: 1, press: usize::MAX, timer: TimerToken { id: 9 } }),
    };
    let mut ctx = EventCtx::new();
    let expected = (usize::MAX % 3 + 1) % 3;
    assert_eq!(
        k.click_key(&mut ctx, 1, b"abc"),
        TextEdit::ReplaceLast(b"abc"[expected])
    );
    assert_eq!(k.pending_press(), Some(expected));
    assert_eq!(ctx.timers[0].delay_ms, 5);
}
