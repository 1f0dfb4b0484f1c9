//! The PIN keyboard.

use touch_ui::button::{ButtonContent, ButtonState};
use touch_ui::component::Component;
use touch_ui::display::{Display, DrawCmd};
use touch_ui::event::{Event, EventCtx, TouchEvent};
use touch_ui::geometry::{Alignment, Offset, Point, Rect};
use touch_ui::keyboard::pin::{
    shuffle_digits, PinBuffer, PinControl, PinDots, PinKeyboard, PinKeyboardMsg, DIGIT_COUNT,
    MAX_LENGTH,
};
use touch_ui::theme::{
    label_default, ButtonKind, Icon, BG, FG, FONT_BOLD, FONT_NORMAL, GREY_DARK, GREY_LIGHT, RED,
};
use touch_ui::trace::{Trace, Tracer};

fn screen() -> Rect {
    Rect { x0: 0, y0: 0, x1: 240, y1: 240 }
}

fn rect(x0: i32, y0: i32, x1: i32, y1: i32) -> Rect {
    Rect { x0, y0, x1, y1 }
}

const DRAWS: [u32; 9] = [3, 1, 4, 1, 5, 9, 2, 6, 5];

/// The order that `DRAWS` gives.
const LAYOUT: [u8; 10] = [9, 6, 0, 2, 7, 5, 8, 4, 1, 3];

fn keyboard(allow_cancel: bool) -> PinKeyboard {
    PinKeyboard::new(screen(), b"Enter PIN".to_vec(), b"2 tries left".to_vec(), None, allow_cancel, &DRAWS)
}

/// A finger comes down on `area` and is lifted again.
fn tap(kb: &mut PinKeyboard, area: Rect) -> Option<PinKeyboardMsg> {
    let mut ctx = EventCtx::new();
    let p = area.center();
    let first = kb.event(&mut ctx, Event::Touch(TouchEvent::TouchStart(p)));
    assert!(first.is_none());
    kb.event(&mut ctx, Event::Touch(TouchEvent::TouchEnd(p)))
}

fn tap_digit(kb: &mut PinKeyboard, slot: usize) -> Option<PinKeyboardMsg> {
    let area = kb.digit_btns[slot].area;
    tap(kb, area)
}

fn key_digits(kb: &PinKeyboard) -> Vec<u8> {
    kb.digit_btns
        .iter()
        .map(|b| match &b.content {
            ButtonContent::Text(t) => {
                assert_eq!(t.len(), 1);
                t[0] - b'0'
            }
            other => panic!("a digit key shows {:?}", other),
        })
        .collect()
}

#[test]
fn pin_buffer_holds_nine_bytes_at_most() {
    let mut b = PinBuffer::new();
    assert!(b.is_empty());
    assert!(!b.is_full());
    assert_eq!(b.len(), 0);
    assert_eq!(b.as_bytes(), b"");
    assert!(b.extend(b"1"));
    assert!(b.extend(b"234"));
    assert_eq!(b.as_bytes(), b"1234");
    assert_eq!(b.len(), 4);
    assert!(!b.is_empty());
    // All or nothing.
    assert!(!b.extend(b"567890"));
    assert_eq!(b.as_bytes(), b"1234");
    assert!(b.extend(b"56789"));
    assert!(b.is_full());
    assert_eq!(b.len(), 9);
    assert!(!b.extend(b"0"));
    assert_eq!(b.as_bytes(), b"123456789");
    assert!(b.extend(b""));
    assert_eq!(b.as_bytes(), b"123456789");
}

#[test]
fn pin_buffer_pops_the_newest_byte() {
    let mut b = PinBuffer::new();
    assert_eq!(b.pop(), None);
    assert!(b.is_empty());
    b.extend(b"123");
    assert_eq!(b.pop(), Some(b'3'));
    assert_eq!(b.as_bytes(), b"12");
    assert_eq!(b.len(), 2);
    assert_eq!(b.pop(), Some(b'2'));
    assert_eq!(b.pop(), Some(b'1'));
    assert_eq!(b.pop(), None);
    assert_eq!(b.as_bytes(), b"");
    b.extend(b"123456789");
    assert_eq!(b.pop(), Some(b'9'));
    assert!(!b.is_full());
    assert!(b.extend(b"0"));
    assert_eq!(b.as_bytes(), b"123456780");
}

#[test]
fn shuffle_gives_the_order_that_the_draws_say() {
    assert_eq!(shuffle_digits(&[0; 9]), [1, 2, 3, 4, 5, 6, 7, 8, 9, 0]);
    // Each draw picks the digit that is in the slot already: nothing moves.
    assert_eq!(shuffle_digits(&[9, 8, 7, 6, 5, 4, 3, 2, 1]), [0, 1, 2, 3, 4, 5, 6, 7, 8, 9]);
    assert_eq!(shuffle_digits(&DRAWS), LAYOUT);
    // Draws are reduced to the digits not yet placed.
    assert_eq!(shuffle_digits(&[10, 9, 8, 7, 6, 5, 4, 3, 2]), [1, 2, 3, 4, 5, 6, 7, 8, 9, 0]);
    assert_eq!(shuffle_digits(&[u32::MAX; 9]), [2, 1, 4, 9, 0, 6, 8, 7, 3, 5]);
}

#[test]
fn shuffle_is_a_permutation() {
    let mut draws = [0u32; 9];
    let mut seed: u32 = 12345;
    for _ in 0..500 {
        for d in draws.iter_mut() {
            seed = seed.wrapping_mul(1664525).wrapping_add(1013904223);
            *d = seed >> 3;
        }
        let mut seen = [0u8; 10];
        for digit in shuffle_digits(&draws) {
            seen[digit as usize] += 1;
        }
        assert_eq!(seen, [1; 10]);
    }
}

#[test]
fn pin_keyboard_keys_carry_each_digit_once() {
    let kb = keyboard(true);
    assert_eq!(DIGIT_COUNT, 10);
    assert_eq!(key_digits(&kb), LAYOUT.to_vec());
    let other = PinKeyboard::new(screen(), Vec::new(), Vec::new(), None, true, &[0; 9]);
    assert_eq!(key_digits(&other), vec![1, 2, 3, 4, 5, 6, 7, 8, 9, 0]);
}

#[test]
fn pin_keyboard_layout() {
    let kb = keyboard(true);
    // Header (5, 0)-(230, 25); keypad below y = 37, cells 73 wide and 44 high, 8 apart.
    assert_eq!(kb.dots.area, rect(5, 0, 230, 25));
    assert_eq!(kb.major_prompt.area, rect(5, -2, 230, 23));
    assert_eq!(kb.minor_prompt.area, rect(5, -1, 230, 24));
    assert_eq!(kb.major_prompt.text, b"Enter PIN".to_vec());
    assert_eq!(kb.minor_prompt.text, b"2 tries left".to_vec());
    assert!(kb.major_warning.is_none());
    assert_eq!(kb.digit_btns[0].area, rect(0, 37, 73, 81));
    assert_eq!(kb.digit_btns[1].area, rect(81, 37, 154, 81));
    assert_eq!(kb.digit_btns[2].area, rect(162, 37, 235, 81));
    assert_eq!(kb.digit_btns[3].area, rect(0, 89, 73, 133));
    assert_eq!(kb.digit_btns[8].area, rect(162, 141, 235, 185));
    assert_eq!(kb.digit_btns[9].area, rect(81, 193, 154, 237));
    assert_eq!(kb.reset_btn.button.area, rect(0, 193, 73, 237));
    assert_eq!(kb.cancel_btn.button.area, rect(0, 193, 73, 237));
    assert_eq!(kb.confirm_btn.area, rect(162, 193, 235, 237));
    assert_eq!(kb.confirm_btn.content, ButtonContent::Icon(Icon::Confirm));
    assert_eq!(kb.confirm_btn.kind, ButtonKind::Confirm);
    assert_eq!(kb.reset_btn.button.content, ButtonContent::Icon(Icon::Back));
    assert_eq!(kb.reset_btn.button.kind, ButtonKind::Reset);
    assert_eq!(kb.cancel_btn.button.content, ButtonContent::Icon(Icon::Cancel));
    assert_eq!(kb.cancel_btn.button.kind, ButtonKind::Cancel);
    assert!(kb.digit_btns.iter().all(|b| b.kind == ButtonKind::Pin));
    let _ = Offset::new(0, 0);
}

#[test]
fn pin_keyboard_starts_empty_with_cancel_and_without_confirm() {
    let kb = keyboard(true);
    assert_eq!(kb.pin(), b"");
    assert!(kb.cancel_btn.visible);
    assert!(kb.cancel_btn.button.is_enabled());
    assert!(!kb.confirm_btn.is_enabled());
    assert!(!kb.reset_btn.visible);
    assert!(!kb.reset_btn.button.is_enabled());
    assert!(kb.digit_btns.iter().all(|b| b.is_enabled()));
    assert_eq!(kb.dots.digit_count, 0);
    let no_cancel = keyboard(false);
    assert!(!no_cancel.cancel_btn.visible);
    assert!(!no_cancel.allow_cancel);
}

#[test]
fn pin_keyboard_any_digit_hides_cancel_and_enables_confirm() {
    for slot in 0..10 {
        let mut kb = keyboard(true);
        assert_eq!(tap_digit(&mut kb, slot), None);
        assert_eq!(kb.pin(), &[b'0' + LAYOUT[slot]]);
        assert!(!kb.cancel_btn.visible);
        assert!(!kb.cancel_btn.button.is_enabled());
        assert!(kb.confirm_btn.is_enabled());
        assert!(kb.reset_btn.visible);
        assert!(kb.reset_btn.button.is_enabled());
        assert_eq!(kb.dots.digit_count, 1);
    }
}

#[test]
fn pin_keyboard_enters_the_digits_on_the_keys() {
    let mut kb = keyboard(true);
    // The keys show 9 6 0 / 2 7 5 / 8 4 1 / 3.
    for slot in [2, 9, 9, 0, 8] {
        assert_eq!(tap_digit(&mut kb, slot), None);
    }
    assert_eq!(kb.pin(), b"03391");
    assert_eq!(kb.dots.digit_count, 5);
    assert_eq!(key_digits(&kb), LAYOUT.to_vec());
}

#[test]
fn pin_keyboard_takes_nine_digits_and_no_more() {
    assert_eq!(MAX_LENGTH, 9);
    let mut kb = keyboard(true);
    for i in 0..9 {
        assert!(kb.digit_btns.iter().all(|b| b.is_enabled()));
        tap_digit(&mut kb, i);
        assert_eq!(kb.pin().len(), i + 1);
    }
    assert_eq!(kb.pin(), b"960275841");
    // The keys take no touch now.
    assert!(kb.digit_btns.iter().all(|b| !b.is_enabled()));
    assert_eq!(tap_digit(&mut kb, 9), None);
    assert_eq!(kb.pin(), b"960275841");
    // And a press that comes nevertheless changes nothing.
    let mut ctx = EventCtx::new();
    assert_eq!(kb.press(&mut ctx, PinControl::Digit(9)), None);
    assert_eq!(kb.pin(), b"960275841");
    assert_eq!(kb.dots.digit_count, 9);
    assert!(kb.confirm_btn.is_enabled());
    // Erasing makes room again.
    let area = kb.reset_btn.button.area;
    assert_eq!(tap(&mut kb, area), None);
    assert_eq!(kb.pin(), b"96027584");
    assert!(kb.digit_btns.iter().all(|b| b.is_enabled()));
    tap_digit(&mut kb, 9);
    assert_eq!(kb.pin(), b"960275843");
}

#[test]
fn pin_keyboard_erase_takes_the_last_digit_back() {
    let mut kb = keyboard(true);
    tap_digit(&mut kb, 0);
    tap_digit(&mut kb, 1);
    tap_digit(&mut kb, 2);
    assert_eq!(kb.pin(), b"960");
    let erase = kb.reset_btn.button.area;
    assert_eq!(tap(&mut kb, erase), None);
    assert_eq!(kb.pin(), b"96");
    assert_eq!(kb.dots.digit_count, 2);
    assert_eq!(tap(&mut kb, erase), None);
    assert_eq!(tap(&mut kb, erase), None);
    assert_eq!(kb.pin(), b"");
    // Nothing left: the control is gone and cancel is back.
    assert!(!kb.reset_btn.visible);
    assert!(kb.cancel_btn.visible);
    assert!(!kb.confirm_btn.is_enabled());
    // On the same spot there is now the cancel control.
    assert_eq!(tap(&mut kb, erase), Some(PinKeyboardMsg::Cancelled));
}

#[test]
fn pin_keyboard_erase_on_nothing_is_no_op() {
    let mut kb = keyboard(false);
    let mut ctx = EventCtx::new();
    assert_eq!(kb.press(&mut ctx, PinControl::Erase), None);
    assert_eq!(kb.pin(), b"");
    assert!(!kb.reset_btn.visible);
    assert!(!kb.cancel_btn.visible);
    assert_eq!(kb.dots.digit_count, 0);
    // Where nothing may be cancelled, that corner is dead.
    let corner = kb.reset_btn.button.area;
    assert_eq!(tap(&mut kb, corner), None);
}

#[test]
fn pin_keyboard_confirm_carries_the_pin() {
    let mut kb = keyboard(true);
    let confirm = kb.confirm_btn.area;
    // Nothing entered: the control takes no touch.
    assert_eq!(tap(&mut kb, confirm), None);
    tap_digit(&mut kb, 4);
    tap_digit(&mut kb, 5);
    assert_eq!(tap(&mut kb, confirm), Some(PinKeyboardMsg::Confirmed(b"75".to_vec())));
    assert_eq!(kb.pin(), b"75");
    let mut ctx = EventCtx::new();
    assert_eq!(
        kb.press(&mut ctx, PinControl::Confirm),
        Some(PinKeyboardMsg::Confirmed(b"75".to_vec()))
    );
    assert_eq!(kb.press(&mut ctx, PinControl::Cancel), Some(PinKeyboardMsg::Cancelled));
    assert_eq!(kb.pin(), b"75");
}

#[test]
fn pin_keyboard_cancel() {
    let mut kb = keyboard(true);
    let cancel = kb.cancel_btn.button.area;
    assert_eq!(tap(&mut kb, cancel), Some(PinKeyboardMsg::Cancelled));
    assert_eq!(kb.pin(), b"");
}

#[test]
fn pin_keyboard_click_names_the_control() {
    let mut kb = keyboard(true);
    let mut ctx = EventCtx::new();
    let p = kb.digit_btns[7].area.center();
    assert_eq!(kb.click(&mut ctx, Event::Touch(TouchEvent::TouchStart(p))), None);
    assert_eq!(kb.digit_btns[7].state, ButtonState::Pressed);
    assert_eq!(
        kb.click(&mut ctx, Event::Touch(TouchEvent::TouchEnd(p))),
        Some(PinControl::Digit(7))
    );
    // To click is not yet to enter.
    assert_eq!(kb.pin(), b"");
    let p = kb.cancel_btn.button.area.center();
    kb.click(&mut ctx, Event::Touch(TouchEvent::TouchStart(p)));
    assert_eq!(
        kb.click(&mut ctx, Event::Touch(TouchEvent::TouchEnd(p))),
        Some(PinControl::Cancel)
    );
    // A touch between the keys clicks nothing.
    let gap = Point::new(77, 50);
    kb.click(&mut ctx, Event::Touch(TouchEvent::TouchStart(gap)));
    assert_eq!(kb.click(&mut ctx, Event::Touch(TouchEvent::TouchEnd(gap))), None);
}

#[test]
fn pin_keyboard_touch_that_slides_off_enters_nothing() {
    let mut kb = keyboard(true);
    let mut ctx = EventCtx::new();
    let on = kb.digit_btns[0].area.center();
    let off = kb.digit_btns[5].area.center();
    kb.event(&mut ctx, Event::Touch(TouchEvent::TouchStart(on)));
    kb.event(&mut ctx, Event::Touch(TouchEvent::TouchMove(off)));
    assert_eq!(kb.event(&mut ctx, Event::Touch(TouchEvent::TouchEnd(off))), None);
    assert_eq!(kb.pin(), b"");
    assert!(kb.digit_btns.iter().all(|b| b.state == ButtonState::Initial));
}

#[test]
fn pin_keyboard_first_paint_draws_everything() {
    let mut kb = keyboard(true);
    let mut d = Display::new();
    kb.paint(&mut d);
    // Background where the dots would be, two prompts, cancel (2), confirm (2), ten keys (2 each).
    assert_eq!(d.cmds.len(), 1 + 2 + 2 + 2 + 20);
    assert_eq!(d.cmds[0], DrawCmd::Fill { area: rect(5, 0, 230, 25), color: BG });
    assert_eq!(
        d.cmds[1],
        DrawCmd::Text {
            at: Point::new(5, 23),
            align: Alignment::Start,
            text: b"Enter PIN".to_vec(),
            font: FONT_BOLD,
            fg: GREY_LIGHT,
            bg: BG,
        }
    );
    assert_eq!(
        d.cmds[2],
        DrawCmd::Text {
            at: Point::new(230, 24),
            align: Alignment::End,
            text: b"2 tries left".to_vec(),
            font: FONT_NORMAL,
            fg: GREY_DARK,
            bg: BG,
        }
    );
    assert_eq!(d.cmds[3], DrawCmd::Fill { area: rect(0, 193, 73, 237), color: RED });
    // The first key shows "9".
    assert_eq!(d.cmds[7], DrawCmd::Fill { area: rect(0, 37, 73, 81), color: GREY_DARK });
    match &d.cmds[8] {
        DrawCmd::Text { at, text, .. } => {
            assert_eq!(*at, Point::new(36, 59));
            assert_eq!(text, b"9");
        }
        other => panic!("unexpected {:?}", other),
    }
}

#[test]
fn pin_keyboard_paints_again_only_what_has_changed() {
    let mut kb = keyboard(true);
    let mut d = Display::new();
    kb.paint(&mut d);
    // While nothing is entered the header is drawn on every pass, and nothing else.
    let mut d = Display::new();
    kb.paint(&mut d);
    assert_eq!(d.cmds.len(), 3);
    tap_digit(&mut kb, 0);
    tap_digit(&mut kb, 1);
    tap_digit(&mut kb, 2);
    let mut d = Display::new();
    kb.paint(&mut d);
    // Erase appears (2), cancel goes (background), dots (1 + 3), confirm (2), key 0..2 (2 each).
    let dot = |x: i32| DrawCmd::Icon {
        at: Point::new(x, 9),
        align: Alignment::Start,
        icon: Icon::DotActive,
        fg: FG,
        bg: BG,
    };
    assert!(d.cmds.contains(&DrawCmd::Fill { area: rect(5, 0, 230, 25), color: BG }));
    assert!(d.cmds.contains(&dot(104)));
    assert!(d.cmds.contains(&dot(114)));
    assert!(d.cmds.contains(&dot(124)));
    assert!(!d.cmds.contains(&dot(134)));
    // Nothing has changed since: nothing is drawn.
    let mut d = Display::new();
    kb.paint(&mut d);
    assert_eq!(d.cmds, vec![]);
    // A press that changes nothing asks for no dots either.
    let mut ctx = EventCtx::new();
    kb.request_complete_repaint(&mut ctx);
    assert!(ctx.paint_requested);
    let mut d = Display::new();
    kb.paint(&mut d);
    assert_eq!(d.cmds.len(), 2 + 1 + 4 + 2 + 20);
}

#[test]
fn pin_keyboard_shows_the_warning_in_place_of_the_prompt() {
    let mut kb = PinKeyboard::new(
        screen(),
        b"Enter PIN".to_vec(),
        b"".to_vec(),
        Some(b"Wrong PIN".to_vec()),
        true,
        &DRAWS,
    );
    let mut d = Display::new();
    kb.paint(&mut d);
    assert_eq!(
        d.cmds[1],
        DrawCmd::Text {
            at: Point::new(5, 23),
            align: Alignment::Start,
            text: b"Wrong PIN".to_vec(),
            font: FONT_BOLD,
            fg: RED,
            bg: BG,
        }
    );
    assert!(!d.cmds.iter().any(|c| matches!(c, DrawCmd::Text { text, .. } if text == b"Enter PIN")));
}

#[test]
fn pin_keyboard_bounds_and_trace() {
    let kb = keyboard(true);
    let mut sink = Vec::new();
    kb.bounds(&mut sink);
    assert_eq!(sink.len(), 18);
    assert_eq!(sink[0], rect(5, -2, 230, 23));
    assert_eq!(sink[6], rect(162, 193, 235, 237));
    assert_eq!(sink[7], rect(5, 0, 230, 25));
    assert_eq!(sink[17], rect(81, 193, 154, 237));
    let mut t = Tracer::new();
    kb.trace(&mut t);
    assert_eq!(t.out, b"<PinKeyboard >");
}

#[test]
fn pin_dots() {
    let mut dots = PinDots::new(rect(0, 0, 100, 20), 0, label_default());
    assert_eq!(dots.get_size(), Offset::new(0, 6));
    let mut ctx = EventCtx::new();
    dots.update(&mut ctx, 0);
    assert!(!ctx.paint_requested);
    dots.update(&mut ctx, 3);
    assert!(ctx.paint_requested);
    assert_eq!(dots.digit_count, 3);
    assert_eq!(dots.get_size(), Offset::new(26, 6));
    let mut d = Display::new();
    dots.paint(&mut d);
    let dot = |x: i32| DrawCmd::Icon {
        at: Point::new(x, 7),
        align: Alignment::Start,
        icon: Icon::DotActive,
        fg: FG,
        bg: BG,
    };
    assert_eq!(
        d.cmds,
        vec![DrawCmd::Fill { area: rect(0, 0, 100, 20), color: BG }, dot(37), dot(47), dot(57)]
    );
    dots.paint(&mut d);
    assert_eq!(d.cmds.len(), 4);
    let mut d = Display::new();
    dots.clear(&mut d);
    assert_eq!(d.cmds, vec![DrawCmd::Fill { area: rect(0, 0, 100, 20), color: BG }]);
    dots.update(&mut ctx, 1);
    assert_eq!(dots.get_size(), Offset::new(6, 6));
    dots.update(&mut ctx, usize::MAX);
    assert_eq!(dots.get_size(), Offset::new(i32::MAX, 6));
}
