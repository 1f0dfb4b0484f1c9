//! The keyboard on which a PIN is entered.
//!
//! Ten keys carry the digits in an order that is drawn anew for every
//! keyboard, so that neither the movement of a hand nor the marks of fingers
//! on the glass tell which digits were pressed. The digits entered are held
//! in a buffer of fixed capacity and shown as a row of dots.
use vstd::prelude::*;
use crate::button::{
    all_in_state, any_state_changed, bounds_of_all, buttons_painted, click_first, enable_all,
    first_clicked, paint_all, stale_all, Button, ButtonContent, ButtonMsg, ButtonState,
    OptionalButton,
};
use crate::component::{Component, Label, Never, Pad};
use crate::display::{copy_bytes, lemma_appended_in_turn, Display, DrawOp};
use crate::event::{Event, EventCtx};
use crate::geometry::{sat, saturate, Alignment, Grid, Insets, Offset, Point, Rect};
use crate::keyboard::common::{HEADER_HEIGHT, HEADER_PADDING_BOTTOM, HEADER_PADDING_SIDE};
use crate::trace::{closing, opening, Trace, Tracer};
use crate::theme::{
    label_default, label_keyboard, label_keyboard_minor, label_keyboard_warning, ButtonKind, Icon,
    TextStyle, BG, CONTENT_BORDER, KEYBOARD_SPACING,
};

verus! {

/// The most digits a PIN can have.
pub const MAX_LENGTH: usize = 9;

/// The number of digit keys.
pub const DIGIT_COUNT: usize = 10;

/// The width and the height of the dot that stands for a digit.
pub const DOT: i32 = 6;

/// The free space between two dots.
pub const DOT_PADDING: i32 = 4;

// The buffer of digits is a `heapless::Vec`. What follows says what its
// methods do, as its source has it; none of it is proved here.

/// `heapless::Vec`: a vector of fixed capacity that lives where its owner
/// lives. Nothing is known of what is inside one but what [`pin_digits`] says.
#[verifier::external_type_specification]
#[verifier::external_body]
#[verifier::reject_recursive_types(T)]
pub struct ExFixedVec<T, const N: usize>(heapless::Vec<T, N>);

/// The bytes that a `heapless::Vec` of digits holds, oldest first.
pub uninterp spec fn pin_digits(buffer: heapless::Vec<u8, MAX_LENGTH>) -> Seq<u8>;

/// `heapless::Vec::new`: a buffer that holds nothing.
#[verifier::external_body]
fn buffer_new() -> (buffer: heapless::Vec<u8, MAX_LENGTH>)
    ensures
        pin_digits(buffer) == Seq::<u8>::empty(),
{
    heapless::Vec::new()
}

/// `heapless::Vec::as_slice`: the bytes held, oldest first.
#[verifier::external_body]
fn buffer_slice(buffer: &heapless::Vec<u8, MAX_LENGTH>) -> (bytes: &[u8])
    ensures
        bytes@ == pin_digits(*buffer),
{
    buffer.as_slice()
}

/// `heapless::Vec::is_full`: whether as many bytes are held as the buffer has room for.
#[verifier::external_body]
fn buffer_is_full(buffer: &heapless::Vec<u8, MAX_LENGTH>) -> (full: bool)
    ensures
        full == (pin_digits(*buffer).len() == MAX_LENGTH),
{
    buffer.is_full()
}

/// `heapless::Vec::is_empty`: whether no byte is held.
#[verifier::external_body]
fn buffer_is_empty(buffer: &heapless::Vec<u8, MAX_LENGTH>) -> (empty: bool)
    ensures
        empty == (pin_digits(*buffer).len() == 0),
{
    buffer.is_empty()
}

/// `heapless::Vec::extend_from_slice`: appends all of `bytes` if there is
/// room for all of them, and else changes nothing and says so.
#[verifier::external_body]
fn buffer_extend(buffer: &mut heapless::Vec<u8, MAX_LENGTH>, bytes: &[u8]) -> (r: Result<(), ()>)
    ensures
        r is Ok <==> pin_digits(*old(buffer)).len() + bytes@.len() <= MAX_LENGTH,
        r is Ok ==> pin_digits(*final(buffer)) == pin_digits(*old(buffer)) + bytes@,
        r is Err ==> pin_digits(*final(buffer)) == pin_digits(*old(buffer)),
{
    buffer.extend_from_slice(bytes)
}

/// `heapless::Vec::pop`: takes the newest byte out and returns it; from an
/// empty buffer nothing.
#[verifier::external_body]
fn buffer_pop(buffer: &mut heapless::Vec<u8, MAX_LENGTH>) -> (last: Option<u8>)
    ensures
        last is Some <==> pin_digits(*old(buffer)).len() > 0,
        last is Some ==> last->0 == pin_digits(*old(buffer)).last() && pin_digits(*final(buffer))
            == pin_digits(*old(buffer)).drop_last(),
        last is None ==> pin_digits(*final(buffer)) == pin_digits(*old(buffer)),
{
    buffer.pop()
}

/// The digits of a PIN as far as it is entered: at most nine bytes, held in
/// place. What does not fit is not taken, and what is held is never cut short.
pub struct PinBuffer {
    digits: heapless::Vec<u8, MAX_LENGTH>,
}

impl View for PinBuffer {
    type V = Seq<u8>;

    closed spec fn view(&self) -> Seq<u8> {
        pin_digits(self.digits)
    }
}

impl PinBuffer {
    /// There are no more bytes than the buffer has room for.
    pub open spec fn wf(&self) -> bool {
        self@.len() <= MAX_LENGTH
    }

    /// An empty buffer.
    pub fn new() -> (buffer: PinBuffer)
        ensures
            buffer@ == Seq::<u8>::empty(),
            buffer.wf(),
    {
        PinBuffer { digits: buffer_new() }
    }

    /// The bytes held, oldest first.
    pub fn as_bytes(&self) -> (bytes: &[u8])
        ensures
            bytes@ == self@,
    {
        buffer_slice(&self.digits)
    }

    /// The number of bytes held.
    pub fn len(&self) -> (n: usize)
        ensures
            n == self@.len(),
    {
        buffer_slice(&self.digits).len()
    }

    /// Whether nothing is held.
    pub fn is_empty(&self) -> (empty: bool)
        ensures
            empty == (self@.len() == 0),
    {
        buffer_is_empty(&self.digits)
    }

    /// Whether there is no room for another byte.
    pub fn is_full(&self) -> (full: bool)
        ensures
            full == (self@.len() == MAX_LENGTH),
    {
        buffer_is_full(&self.digits)
    }

    /// Appends all of `bytes` if there is room for all of them, and says
    /// so; else the buffer stays as it is.
    pub fn extend(&mut self, bytes: &[u8]) -> (taken: bool)
        ensures
            taken == (old(self)@.len() + bytes@.len() <= MAX_LENGTH),
            final(self)@ == (if taken {
                old(self)@ + bytes@
            } else {
                old(self)@
            }),
            old(self).wf() ==> final(self).wf(),
    {
        buffer_extend(&mut self.digits, bytes).is_ok()
    }

    /// Takes the newest byte out and returns it; from an empty buffer nothing.
    pub fn pop(&mut self) -> (last: Option<u8>)
        ensures
            last == (if old(self)@.len() > 0 {
                Some(old(self)@.last())
            } else {
                None
            }),
            final(self)@ == (if old(self)@.len() > 0 {
                old(self)@.drop_last()
            } else {
                old(self)@
            }),
            old(self).wf() ==> final(self).wf(),
    {
        buffer_pop(&mut self.digits)
    }
}

/// `s` with the entries at `i` and `j` exchanged.
pub open spec fn swapped(s: Seq<u8>, i: int, j: int) -> Seq<u8> {
    s.update(i, s[j]).update(j, s[i])
}

/// The digits in their natural order.
pub open spec fn in_order() -> Seq<u8> {
    Seq::new(DIGIT_COUNT as nat, |i: int| i as u8)
}

/// The slot that step `step` of the shuffle fills, steps counted from zero:
/// the last slot first.
pub open spec fn slot_of(step: int) -> int {
    DIGIT_COUNT - 1 - step
}

/// The order of the digits after the first `steps` steps of the shuffle.
/// Each step fills one slot, from the last slot down, with one of the digits
/// not yet placed, which it exchanges for the digit in that slot; which one,
/// the draw of the step says.
pub open spec fn shuffled(draws: Seq<u32>, steps: nat) -> Seq<u8>
    decreases steps,
{
    if steps == 0 {
        in_order()
    } else {
        let slot = slot_of(steps - 1);
        swapped(shuffled(draws, (steps - 1) as nat), slot, draws[steps - 1] as int % (slot + 1))
    }
}

/// Whether `digit` is on one of the keys.
pub open spec fn appears(layout: Seq<u8>, digit: u8) -> bool {
    exists|i: int| 0 <= i < layout.len() && layout[i] == digit
}

/// Whether `layout` gives each of the ten keys a digit of its own: every
/// digit is on a key, and no digit is on two.
pub open spec fn is_layout(layout: Seq<u8>) -> bool {
    &&& layout.len() == DIGIT_COUNT
    &&& forall|d: u8| d < DIGIT_COUNT ==> #[trigger] appears(layout, d)
    &&& forall|i: int, j: int| 0 <= i < j < DIGIT_COUNT ==> layout[i] != layout[j]
    &&& forall|i: int| 0 <= i < DIGIT_COUNT ==> (#[trigger] layout[i]) < DIGIT_COUNT
}

/// Exchanging two keys leaves every digit on exactly one key.
pub proof fn lemma_swap_keeps_layout(layout: Seq<u8>, i: int, j: int)
    requires
        is_layout(layout),
        0 <= i < DIGIT_COUNT,
        0 <= j < DIGIT_COUNT,
    ensures
        is_layout(swapped(layout, i, j)),
{
    let after = swapped(layout, i, j);
    assert forall|d: u8| d < DIGIT_COUNT implies #[trigger] appears(after, d) by {
        assert(appears(layout, d));
        let k = choose|k: int| 0 <= k < layout.len() && layout[k] == d;
        if k == i {
            assert(after[j] == d);
        } else if k == j {
            assert(after[i] == d);
        } else {
            assert(after[k] == d);
        }
    }
}

/// Draws the order of the digits on the keys.
///
/// This is the shuffle of Fisher and Yates. The draw of step `k` is
/// reduced to one of the `10 - k` digits not yet placed. For every order to
/// be as likely as any other, draw `k` must be uniform over a range that
/// `10 - k` divides, and unknown to anyone who watches the device.
/// Whatever the draws are, every digit is on exactly one key afterwards.
pub fn shuffle_digits(draws: &[u32; 9]) -> (layout: [u8; 10])
    ensures
        layout@ == shuffled(draws@, 9),
        is_layout(layout@),
{
    let mut layout: [u8; 10] = [0, 1, 2, 3, 4, 5, 6, 7, 8, 9];
    proof {
        assert(layout@ =~= in_order());
        assert forall|d: u8| d < DIGIT_COUNT implies #[trigger] appears(layout@, d) by {
            assert(layout@[d as int] == d);
        }
    }
    let mut step: usize = 0;
    while step < 9
        invariant
            step <= 9,
            layout@ == shuffled(draws@, step as nat),
            is_layout(layout@),
        decreases 9 - step,
    {
        let slot: usize = 9 - step;
        let pick: usize = (draws[step] % (slot as u32 + 1)) as usize;
        proof {
            lemma_swap_keeps_layout(layout@, slot as int, pick as int);
        }
        let a = layout[slot];
        let b = layout[pick];
        layout[slot] = b;
        layout[pick] = a;
        assert(layout@ =~= swapped(shuffled(draws@, step as nat), slot as int, pick as int));
        step = step + 1;
    }
    layout
}

/// The row of dots that stands for the digits entered.
#[derive(Clone, Copy, Debug, PartialEq, Eq, Structural)]
pub struct PinDots {
    pub area: Rect,
    pub style: TextStyle,
    pub digit_count: usize,
    /// Whether the next paint pass draws the dots.
    pub dirty: bool,
}

impl PinDots {
    /// A row of `digit_count` dots, yet to be drawn.
    pub fn new(area: Rect, digit_count: usize, style: TextStyle) -> (dots: PinDots)
        ensures
            dots == (PinDots { area, style, digit_count, dirty: true }),
    {
        PinDots { area, style, digit_count, dirty: true }
    }

    /// The row with `digit_count` dots; it needs to be drawn if that is a change.
    pub open spec fn showing(self, digit_count: usize) -> PinDots {
        PinDots { digit_count, dirty: self.dirty || self.digit_count != digit_count, ..self }
    }

    /// Sets the number of dots, and asks for a paint pass if that is a change.
    pub fn update(&mut self, ctx: &mut EventCtx, digit_count: usize)
        ensures
            *final(self) == old(self).showing(digit_count),
            final(ctx).after_paint_request(*old(ctx), old(self).digit_count != digit_count),
    {
        if digit_count != self.digit_count {
            self.digit_count = digit_count;
            self.dirty = true;
            ctx.request_paint();
        }
    }

    /// What wipes the dots out.
    pub open spec fn cleared(&self) -> DrawOp {
        DrawOp::Fill { area: self.area, color: self.style.background_color }
    }

    /// Clear the area with the background color.
    pub fn clear(&self, display: &mut Display)
        ensures
            final(display)@ == old(display)@.push(self.cleared()),
    {
        display.rect_fill(self.area, self.style.background_color);
    }

    /// The extent of the row: the dots and the padding between them.
    pub open spec fn spec_get_size(&self) -> Offset {
        Offset {
            x: sat(
                DOT * self.digit_count + DOT_PADDING * (if self.digit_count > 0 {
                    self.digit_count - 1
                } else {
                    0
                }),
            ),
            y: DOT,
        }
    }

    #[verifier::when_used_as_spec(spec_get_size)]
    pub fn get_size(&self) -> (size: Offset)
        ensures
            size == self.spec_get_size(),
    {
        let n: i128 = self.digit_count as i128;
        let gaps: i128 = if n > 0 {
            n - 1
        } else {
            0
        };
        let width: i128 = (DOT as i128) * n + (DOT_PADDING as i128) * gaps;
        let x: i32 = if width > i32::MAX as i128 {
            i32::MAX
        } else {
            width as i32
        };
        Offset { x, y: DOT }
    }

    /// The top-left corner of dot `i`. The row is centred in the area.
    pub open spec fn dot_position(&self, i: int) -> Point {
        let c = self.area.spec_center();
        let size = self.spec_get_size();
        Point { x: sat(c.x - size.x / 2 + i * (DOT + DOT_PADDING)), y: sat(c.y - size.y / 2) }
    }

    /// Dot `i`.
    pub open spec fn dot(&self, i: int) -> DrawOp {
        DrawOp::Icon {
            at: self.dot_position(i),
            align: Alignment::Start,
            icon: Icon::DotActive,
            fg: self.style.text_color,
            bg: self.style.background_color,
        }
    }

    /// What is drawn of the row: the background, and on it a dot for each digit.
    pub open spec fn face(&self) -> Seq<DrawOp> {
        seq![self.cleared()] + Seq::new(self.digit_count as nat, |i: int| self.dot(i))
    }

    /// The row once drawn.
    pub open spec fn clean(self) -> PinDots {
        PinDots { dirty: false, ..self }
    }
}

impl Component for PinDots {
    type Msg = Never;

    open spec fn handled(
        &self,
        before: &Self,
        ctx: EventCtx,
        event: Event,
        msg: Option<Never>,
        asked: EventCtx,
    ) -> bool {
        *self == *before && msg is None && asked == ctx
    }

    open spec fn drawn(&self, before: &Self) -> bool {
        *self == before.clean()
    }

    open spec fn due_for_repaint(&self, before: &Self, ctx: EventCtx, asked: EventCtx) -> bool {
        *self == (PinDots { dirty: true, ..*before }) && asked.after_paint_request(ctx, true)
    }

    /// What a paint pass draws: the row, if it has changed since it was drawn last.
    open spec fn painted(&self) -> Seq<DrawOp> {
        if self.dirty {
            self.face()
        } else {
            Seq::empty()
        }
    }

    open spec fn regions(&self) -> Seq<Rect> {
        seq![self.area]
    }

    /// The dots react to nothing: the keyboard sets their number.
    fn event(&mut self, ctx: &mut EventCtx, event: Event) -> (msg: Option<Never>)
        ensures
            msg is None,
            *final(self) == *old(self),
            *final(ctx) == *old(ctx),
    {
        None
    }

    /// Draws the row if it has changed since it was drawn last.
    fn paint(&mut self, display: &mut Display)
        ensures
            *final(self) == old(self).clean(),
            final(display)@ == old(display)@ + old(self).painted(),
    {
        if self.dirty {
            self.dirty = false;
            self.clear(display);
            let size = self.get_size();
            let c = self.area.center();
            let x0: i64 = c.x as i64 - (size.x / 2) as i64;
            let y: i32 = saturate(c.y as i64 - (size.y / 2) as i64);
            // Draw a dot for each PIN digit.
            let mut i: usize = 0;
            while i < self.digit_count
                invariant
                    i <= self.digit_count,
                    *self == old(self).clean(),
                    size == self.spec_get_size(),
                    c == self.area.spec_center(),
                    x0 == c.x - size.x / 2,
                    y == sat(c.y - size.y / 2),
                    display@ == old(display)@ + seq![self.cleared()] + Seq::new(
                        i as nat,
                        |k: int| self.dot(k),
                    ),
                decreases self.digit_count - i,
            {
                let k: i128 = i as i128;
                assert(0 <= k <= 0xffff_ffff_ffff_ffff && DOT + DOT_PADDING == 10);
                let wide: i128 = x0 as i128 + k * 10;
                let x: i32 = if wide > i32::MAX as i128 {
                    i32::MAX
                } else if wide < i32::MIN as i128 {
                    i32::MIN
                } else {
                    wide as i32
                };
                display.icon(
                    Point { x, y },
                    Alignment::Start,
                    Icon::DotActive,
                    self.style.text_color,
                    self.style.background_color,
                );
                i = i + 1;
                assert(display@ =~= old(display)@ + seq![self.cleared()] + Seq::new(
                    i as nat,
                    |k: int| self.dot(k),
                ));
            }
            assert(display@ =~= old(display)@ + old(self).painted());
        } else {
            assert(display@ =~= old(display)@ + old(self).painted());
        }
    }

    fn bounds(&self, sink: &mut Vec<Rect>)
        ensures
            final(sink)@ == old(sink)@.push(self.area),
    {
        sink.push(self.area);
    }

    fn request_complete_repaint(&mut self, ctx: &mut EventCtx)
        ensures
            *final(self) == (PinDots { dirty: true, ..*old(self) }),
            final(ctx).after_paint_request(*old(ctx), true),
    {
        self.dirty = true;
        ctx.request_paint();
    }
}

/// A control of the PIN keyboard.
#[derive(Clone, Copy, Debug, PartialEq, Eq, Structural)]
pub enum PinControl {
    /// Finishes the entry.
    Confirm,
    /// Abandons the entry.
    Cancel,
    /// Takes the last digit back.
    Erase,
    /// The digit key in the given slot, slots counted from zero, row by row.
    Digit(usize),
}

/// How the entry of a PIN ends.
#[derive(Debug, PartialEq, Eq)]
pub enum PinKeyboardMsg {
    /// The user has confirmed the PIN, which comes along.
    Confirmed(Vec<u8>),
    /// The user has abandoned the entry.
    Cancelled,
}

/// The ASCII character of the digit `digit`.
pub open spec fn digit_char(digit: u8) -> u8 {
    (48 + digit) as u8
}

/// The cell of the keypad that the digit key in slot `slot` occupies. The
/// keypad has four rows of three cells. The keys fill the first three rows,
/// and the last key sits in the middle of the fourth, between the controls.
pub open spec fn digit_cell(slot: int) -> int {
    if slot < 9 {
        slot
    } else {
        slot + 1
    }
}

/// How far the main prompt is moved from the top of the header.
pub const MAJOR_OFF: i32 = -2;

/// How far the other prompt is moved from the top of the header.
pub const MINOR_OFF: i32 = -1;

/// Whether every byte of `pin` is the ASCII character of a digit.
pub open spec fn all_digits(pin: Seq<u8>) -> bool {
    forall|k: int| 0 <= k < pin.len() ==> 48 <= #[trigger] pin[k] <= 57
}

/// What `key` shows, if it shows text.
pub open spec fn text_of(key: Button) -> Seq<u8> {
    match key.content {
        ButtonContent::Text(text) => text@,
        _ => Seq::empty(),
    }
}

/// The digit of each of `keys`, by slot.
pub open spec fn layout_of(keys: Seq<Button>) -> Seq<u8> {
    Seq::new(DIGIT_COUNT as nat, |slot: int| (text_of(keys[slot])[0] - 48) as u8)
}

/// There are ten keys, each shows one digit, and every digit is on exactly one key.
pub open spec fn labelled(keys: Seq<Button>) -> bool {
    &&& keys.len() == DIGIT_COUNT
    &&& forall|slot: int|
        0 <= slot < DIGIT_COUNT ==> text_of(#[trigger] keys[slot]).len() == 1 && 48 <= text_of(
            keys[slot],
        )[0] <= 57
    &&& is_layout(layout_of(keys))
}

/// Keys that show what `before` show, key by key, carry the same digits.
pub proof fn lemma_same_text_same_layout(before: Seq<Button>, after: Seq<Button>)
    requires
        labelled(before),
        after.len() == before.len(),
        forall|slot: int|
            0 <= slot < before.len() ==> (#[trigger] after[slot]).content == before[slot].content,
    ensures
        labelled(after),
        layout_of(after) == layout_of(before),
{
    assert(layout_of(after) =~= layout_of(before));
}

/// The keyboard on which a PIN is entered.
pub struct PinKeyboard {
    /// The digits entered so far, as ASCII characters.
    pub digits: PinBuffer,
    /// Whether the user may abandon the entry.
    pub allow_cancel: bool,
    pub major_prompt: Label,
    pub minor_prompt: Label,
    /// Shown in place of the main prompt where there is one.
    pub major_warning: Option<Label>,
    pub dots: PinDots,
    /// Takes the last digit back.
    pub reset_btn: OptionalButton,
    pub cancel_btn: OptionalButton,
    pub confirm_btn: Button,
    /// The digit keys by slot.
    pub digit_btns: Vec<Button>,
}

impl PinKeyboard {
    /// The area of the keyboard short of the border on the right.
    pub open spec fn inner_area(area: Rect) -> Rect {
        area.spec_inset(Insets { top: 0, right: CONTENT_BORDER, bottom: 0, left: 0 })
    }

    /// The line above the keys, where the prompts and the dots go.
    pub open spec fn header_of(area: Rect) -> Rect {
        Self::inner_area(area).spec_split_top(HEADER_HEIGHT + HEADER_PADDING_BOTTOM).0.spec_inset(
            Insets {
                top: 0,
                right: HEADER_PADDING_SIDE,
                bottom: HEADER_PADDING_BOTTOM,
                left: HEADER_PADDING_SIDE,
            },
        )
    }

    /// The keypad: four rows of three cells below the header.
    pub open spec fn keypad_of(area: Rect) -> Grid {
        Grid {
            rows: 4,
            cols: 3,
            spacing: KEYBOARD_SPACING,
            area: Self::inner_area(area).spec_split_top(HEADER_HEIGHT + HEADER_PADDING_BOTTOM).1,
        }
    }

    /// The digits entered so far, as ASCII characters, oldest first.
    pub open spec fn pin_view(&self) -> Seq<u8> {
        self.digits@
    }

    /// The digit of each key, by slot.
    pub open spec fn layout(&self) -> Seq<u8> {
        layout_of(self.digit_btns@)
    }

    /// There are ten keys, each shows one digit, and every digit is on exactly one key.
    pub open spec fn labelled(&self) -> bool {
        labelled(self.digit_btns@)
    }

    /// What can be done follows from what was entered: the digit keys take
    /// touches while there is room for a digit; the erase control is shown
    /// and takes touches while there is a digit to take back; the cancel
    /// control is shown while nothing is entered and the entry may be
    /// abandoned; the confirm control takes touches while there is a digit;
    /// and there are as many dots as digits.
    pub open spec fn consistent(&self) -> bool {
        let entered = self.pin_view().len();
        &&& forall|slot: int|
            0 <= slot < self.digit_btns@.len() ==>
                (#[trigger] self.digit_btns@[slot]).spec_is_enabled()
                == (entered < MAX_LENGTH)
        &&& self.reset_btn.visible == (entered > 0)
        &&& self.reset_btn.button.spec_is_enabled() == (entered > 0)
        &&& self.cancel_btn.visible == (entered == 0 && self.allow_cancel)
        &&& self.cancel_btn.button.spec_is_enabled() == (entered == 0)
        &&& self.confirm_btn.spec_is_enabled() == (entered > 0)
        &&& self.dots.digit_count == entered
    }

    /// Where everything is on a keyboard in `area`, and how it looks.
    pub open spec fn laid_out(&self, area: Rect) -> bool {
        let header = Self::header_of(area);
        let keypad = Self::keypad_of(area);
        &&& self.major_prompt.area == header.spec_translate(Offset { x: 0, y: MAJOR_OFF })
        &&& self.major_prompt.align == Alignment::Start
        &&& self.major_prompt.style == label_keyboard()
        &&& self.minor_prompt.area == header.spec_translate(Offset { x: 0, y: MINOR_OFF })
        &&& self.minor_prompt.align == Alignment::End
        &&& self.minor_prompt.style == label_keyboard_minor()
        &&& (self.major_warning matches Some(warning) ==> warning.area == self.major_prompt.area
            && warning.align == Alignment::Start && warning.style == label_keyboard_warning())
        &&& self.dots.area == header
        &&& self.dots.style == label_default()
        &&& self.reset_btn.pad == (Pad { area: keypad.spec_row_col(3, 0), color: BG, dirty: false })
        &&& self.reset_btn.button.area == keypad.spec_row_col(3, 0)
        &&& self.reset_btn.button.content == ButtonContent::Icon(Icon::Back)
        &&& self.reset_btn.button.kind == ButtonKind::Reset
        &&& self.cancel_btn.pad
            == (Pad { area: keypad.spec_row_col(3, 0), color: BG, dirty: false })
        &&& self.cancel_btn.button.area == keypad.spec_row_col(3, 0)
        &&& self.cancel_btn.button.content == ButtonContent::Icon(Icon::Cancel)
        &&& self.cancel_btn.button.kind == ButtonKind::Cancel
        &&& self.confirm_btn.area == keypad.spec_row_col(3, 2)
        &&& self.confirm_btn.content == ButtonContent::Icon(Icon::Confirm)
        &&& self.confirm_btn.kind == ButtonKind::Confirm
        &&& forall|slot: int|
            0 <= slot < self.digit_btns@.len() ==> (#[trigger] self.digit_btns@[slot]).area
                == keypad.spec_cell(digit_cell(slot)) && self.digit_btns@[slot].kind
                == ButtonKind::Pin
    }

    /// No control is touched, none was drawn yet, and the controls are as
    /// they are while nothing is entered: the keys take touches, the erase
    /// and the confirm control do not, the erase control is hidden, and
    /// the cancel control is shown if the entry may be abandoned.
    pub open spec fn fresh(&self) -> bool {
        &&& self.dots.digit_count == 0
        &&& self.dots.dirty
        &&& !self.reset_btn.visible
        &&& self.reset_btn.button.state == ButtonState::Disabled
        &&& self.reset_btn.button.dirty
        &&& self.cancel_btn.visible == self.allow_cancel
        &&& self.cancel_btn.button.state == ButtonState::Initial
        &&& self.cancel_btn.button.dirty
        &&& self.confirm_btn.state == ButtonState::Disabled
        &&& self.confirm_btn.dirty
        &&& forall|slot: int|
            0 <= slot < self.digit_btns@.len() ==> (#[trigger] self.digit_btns@[slot]).state
                == ButtonState::Initial && self.digit_btns@[slot].dirty
    }

    /// A keyboard in `area` with nothing entered yet.
    ///
    /// The order of the digits on the keys is drawn by [`shuffle_digits`]
    /// from `draws`, which must come from a source that nobody watching the
    /// device can predict. The order stays for as long as the keyboard lives.
    pub fn new(
        area: Rect,
        major_prompt: Vec<u8>,
        minor_prompt: Vec<u8>,
        major_warning: Option<Vec<u8>>,
        allow_cancel: bool,
        draws: &[u32; 9],
    ) -> (kb: PinKeyboard)
        ensures
            kb.inv(),
            kb.pin_view() == Seq::<u8>::empty(),
            kb.layout() == shuffled(draws@, 9),
            kb.allow_cancel == allow_cancel,
            kb.laid_out(area),
            kb.major_prompt.text@ == major_prompt@,
            kb.minor_prompt.text@ == minor_prompt@,
            match major_warning {
                Some(text) => kb.major_warning is Some && kb.major_warning->0.text@ == text@,
                None => kb.major_warning is None,
            },
            kb.fresh(),
    {
        let area = area.inset(Insets::right(CONTENT_BORDER));
        let digits = PinBuffer::new();

        // Prompts and PIN dots display.
        let (header, keypad) = area.split_top(HEADER_HEIGHT + HEADER_PADDING_BOTTOM);
        let header = header.inset(
            Insets::new(0, HEADER_PADDING_SIDE, HEADER_PADDING_BOTTOM, HEADER_PADDING_SIDE),
        );
        let major_area = header.translate(Offset::new(0, MAJOR_OFF));
        let major_prompt = Label::left_aligned(major_area, major_prompt, label_keyboard());
        let minor_prompt = Label::right_aligned(
            header.translate(Offset::new(0, MINOR_OFF)),
            minor_prompt,
            label_keyboard_minor(),
        );
        let major_warning = match major_warning {
            Some(text) => Some(Label::left_aligned(major_area, text, label_keyboard_warning())),
            None => None,
        };
        let dots = PinDots::new(header, 0, label_default());

        // Control buttons.
        let grid = Grid::new(keypad, 4, 3).with_spacing(KEYBOARD_SPACING);
        let reset_cancel_area = grid.row_col(3, 0);
        let reset_btn = Button::with_icon(reset_cancel_area, Icon::Back).styled(
            ButtonKind::Reset,
        ).initially_enabled(false);
        let reset_btn = OptionalButton::hidden(reset_cancel_area, BG, reset_btn);

        let cancel_btn = Button::with_icon(reset_cancel_area, Icon::Cancel).styled(ButtonKind::Cancel);
        let cancel_btn = OptionalButton::new(
            Pad::with_background(reset_cancel_area, BG),
            cancel_btn,
            allow_cancel,
        );

        let confirm_btn = Button::with_icon(grid.row_col(3, 2), Icon::Confirm).styled(
            ButtonKind::Confirm,
        ).initially_enabled(false);

        // PIN digit buttons.
        let layout = shuffle_digits(draws);
        let digit_btns = Self::generate_digit_buttons(&grid, &layout);

        let kb = PinKeyboard {
            digits,
            allow_cancel,
            major_prompt,
            minor_prompt,
            major_warning,
            dots,
            reset_btn,
            cancel_btn,
            confirm_btn,
            digit_btns,
        };
        proof {
            assert forall|slot: int| 0 <= slot < DIGIT_COUNT implies text_of(
                #[trigger] kb.digit_btns@[slot],
            ) == seq![digit_char(layout@[slot])] && layout@[slot] < DIGIT_COUNT by {
                assert(kb.digit_btns@[slot].content matches ButtonContent::Text(text) && text@
                    == seq![digit_char(layout@[slot])]);
            }
            assert(kb.layout() =~= layout@);
        }
        kb
    }

    /// The digit keys for the order `layout`, one in each cell of `grid`
    /// that [`digit_cell`] names, each ready to be pressed and yet to be drawn.
    pub fn generate_digit_buttons(grid: &Grid, layout: &[u8; 10]) -> (buttons: Vec<Button>)
        requires
            grid.wf(),
            grid.rows * grid.cols > DIGIT_COUNT,
            is_layout(layout@),
        ensures
            buttons@.len() == DIGIT_COUNT,
            forall|slot: int|
                0 <= slot < DIGIT_COUNT ==> {
                    &&& (#[trigger] buttons@[slot]).area == grid.spec_cell(digit_cell(slot))
                    &&& buttons@[slot].content matches ButtonContent::Text(text) && text@
                        == seq![digit_char(layout@[slot])]
                    &&& buttons@[slot].kind == ButtonKind::Pin
                    &&& buttons@[slot].state == ButtonState::Initial
                    &&& buttons@[slot].dirty
                },
    {
        let mut buttons: Vec<Button> = Vec::new();
        let mut slot: usize = 0;
        while slot < DIGIT_COUNT
            invariant
                slot <= DIGIT_COUNT,
                grid.wf(),
                grid.rows * grid.cols > DIGIT_COUNT,
                is_layout(layout@),
                buttons@.len() == slot,
                forall|k: int|
                    0 <= k < slot ==> {
                        &&& (#[trigger] buttons@[k]).area == grid.spec_cell(digit_cell(k))
                        &&& buttons@[k].content matches ButtonContent::Text(text) && text@
                            == seq![digit_char(layout@[k])]
                        &&& buttons@[k].kind == ButtonKind::Pin
                        &&& buttons@[k].state == ButtonState::Initial
                        &&& buttons@[k].dirty
                    },
            decreases DIGIT_COUNT - slot,
        {
            // Assign the digits to buttons on a 4x3 grid.
            let cell: usize = if slot < 9 {
                // The grid has 3 columns.
                slot
            } else {
                // For the last key (the "0" position) we skip one cell.
                slot + 1
            };
            let area = grid.cell(cell);
            let digit: u8 = layout[slot];
            assert(layout@[slot as int] < DIGIT_COUNT);
            let mut text: Vec<u8> = Vec::new();
            text.push(48 + digit);
            assert(text@ =~= seq![digit_char(digit)]);
            buttons.push(Button::with_text(area, text).styled(ButtonKind::Pin));
            slot = slot + 1;
        }
        buttons
    }

    /// Whether a control is in another state than in `before`, is shown
    /// where it was hidden or hidden where it was shown, or the number of
    /// dots is another: whether there is anything new to draw.
    pub open spec fn differs_from(&self, before: &PinKeyboard) -> bool {
        ||| any_state_changed(before.digit_btns@, self.digit_btns@)
        ||| self.reset_btn.visible != before.reset_btn.visible
        ||| self.reset_btn.button.state != before.reset_btn.button.state
        ||| self.cancel_btn.visible != before.cancel_btn.visible
        ||| self.cancel_btn.button.state != before.cancel_btn.button.state
        ||| self.confirm_btn.state != before.confirm_btn.state
        ||| self.dots.digit_count != before.dots.digit_count
    }

    /// The controls of `before` brought in line with the PIN that `self`
    /// holds: each is shown and takes touches as the PIN allows, and the
    /// dots show how long it is.
    pub open spec fn settled(&self, before: &PinKeyboard) -> bool {
        let entered = self.pin_view().len();
        &&& self.allow_cancel == before.allow_cancel
        &&& self.major_prompt == before.major_prompt
        &&& self.minor_prompt == before.minor_prompt
        &&& self.major_warning == before.major_warning
        &&& all_in_state(before.digit_btns@, self.digit_btns@, entered < MAX_LENGTH)
        &&& self.reset_btn == before.reset_btn.set_to(entered > 0, entered > 0)
        &&& self.cancel_btn == before.cancel_btn.set_to(
            entered == 0 && before.allow_cancel,
            entered == 0,
        )
        &&& self.confirm_btn == before.confirm_btn.in_state(Button::state_if(entered > 0))
        &&& self.dots == before.dots.showing(entered as usize)
    }

    /// Brings every control in line with the PIN; to be called after every change to it.
    pub fn pin_modified(&mut self, ctx: &mut EventCtx)
        requires
            old(self).pin_view().len() <= MAX_LENGTH,
        ensures
            final(self).pin_view() == old(self).pin_view(),
            final(self).settled(old(self)),
            final(self).consistent(),
            final(ctx).after_paint_request(*old(ctx), final(self).differs_from(old(self))),
    {
        let is_full = self.digits.is_full();
        enable_all(&mut self.digit_btns, ctx, !is_full);
        let is_empty = self.digits.is_empty();
        let cancel_enabled = is_empty && self.allow_cancel;
        self.reset_btn.set(ctx, !is_empty, !is_empty);
        self.cancel_btn.set(ctx, cancel_enabled, is_empty);
        self.confirm_btn.enabled(ctx, !is_empty);
        let digit_count = self.digits.len();
        self.dots.update(ctx, digit_count);
    }

    /// The digits entered so far, as ASCII characters.
    pub fn pin(&self) -> (pin: &[u8])
        ensures
            pin@ == self.pin_view(),
    {
        self.digits.as_bytes()
    }

    /// The PIN after `control` was used: erasing takes the last digit back,
    /// if there is one; a digit key enters its digit, if there is room for
    /// it; the other controls leave the PIN alone.
    pub open spec fn pin_after(&self, control: PinControl) -> Seq<u8> {
        match control {
            PinControl::Erase => if self.pin_view().len() > 0 {
                self.pin_view().drop_last()
            } else {
                self.pin_view()
            },
            PinControl::Digit(slot) => if self.pin_view().len() < MAX_LENGTH {
                self.pin_view().push(digit_char(self.layout()[slot as int]))
            } else {
                self.pin_view()
            },
            _ => self.pin_view(),
        }
    }

    /// Whether the keyboard ends the entry when `control` is used, and how.
    pub open spec fn answers(&self, control: PinControl, msg: Option<PinKeyboardMsg>) -> bool {
        match control {
            PinControl::Confirm => msg matches Some(PinKeyboardMsg::Confirmed(pin)) && pin@
                == self.pin_view(),
            PinControl::Cancel => msg matches Some(PinKeyboardMsg::Cancelled),
            _ => msg is None,
        }
    }

    /// The keyboard after `control` was used on `before`: confirming and
    /// cancelling change nothing; erasing and entering a digit change the
    /// PIN, and the controls are brought in line with it.
    pub open spec fn used(&self, before: &PinKeyboard, control: PinControl) -> bool {
        &&& self.pin_view() == before.pin_after(control)
        &&& match control {
            PinControl::Confirm | PinControl::Cancel => *self == *before,
            _ => self.settled(before),
        }
    }

    /// Does what `control` stands for. Confirming and cancelling end the
    /// entry and change nothing. Erasing and entering a digit change the PIN
    /// as [`Self::pin_after`] says, and every control is brought in line with
    /// the new PIN. There is no digit key past the tenth.
    pub fn press(&mut self, ctx: &mut EventCtx, control: PinControl) -> (msg: Option<PinKeyboardMsg>)
        requires
            old(self).inv(),
            control matches PinControl::Digit(slot) ==> slot < DIGIT_COUNT,
        ensures
            final(self).inv(),
            final(self).layout() == old(self).layout(),
            final(self).allow_cancel == old(self).allow_cancel,
            final(self).used(old(self), control),
            old(self).answers(control, msg),
            final(ctx).after_paint_request(*old(ctx), final(self).differs_from(old(self))),
    {
        match control {
            PinControl::Confirm => {
                let pin = copy_bytes(self.digits.as_bytes());
                Some(PinKeyboardMsg::Confirmed(pin))
            },
            PinControl::Cancel => Some(PinKeyboardMsg::Cancelled),
            PinControl::Erase => {
                let _ = self.digits.pop();
                let ghost popped = *self;
                self.pin_modified(ctx);
                proof {
                    self.lemma_settled_keeps_keys(&popped);
                }
                None
            },
            PinControl::Digit(slot) => {
                assert(text_of(old(self).digit_btns@[slot as int]).len() == 1);
                match self.digit_btns[slot].content() {
                    ButtonContent::Text(text) => {
                        // A full buffer takes no more digits and says so; there is
                        // nothing to do about it.
                        let _ = self.digits.extend(text.as_slice());
                        assert(text@ =~= seq![digit_char(old(self).layout()[slot as int])]);
                        assert(old(self).pin_view() + text@ =~= old(self).pin_view().push(text@[0]));
                    },
                    _ => {},
                }
                let ghost entered = *self;
                self.pin_modified(ctx);
                proof {
                    self.lemma_settled_keeps_keys(&entered);
                }
                None
            },
        }
    }

    /// Bringing the controls in line changes no key's digit.
    pub proof fn lemma_settled_keeps_keys(&self, before: &PinKeyboard)
        requires
            self.settled(before),
            before.labelled(),
        ensures
            self.labelled(),
            self.layout() == before.layout(),
    {
        lemma_same_text_same_layout(before.digit_btns@, self.digit_btns@);
    }

    /// The control that `event` clicks. The controls are asked in a fixed
    /// order, and the first that is clicked counts: confirm, cancel, erase,
    /// then the digit keys by slot.
    pub open spec fn hit(&self, event: Event) -> Option<PinControl> {
        if self.confirm_btn.clicked_by(event) {
            Some(PinControl::Confirm)
        } else if self.cancel_btn.clicked_by(event) {
            Some(PinControl::Cancel)
        } else if self.reset_btn.clicked_by(event) {
            Some(PinControl::Erase)
        } else {
            match first_clicked(self.digit_btns@, event, 0) {
                Some(slot) => Some(PinControl::Digit(slot as usize)),
                None => None,
            }
        }
    }

    /// How the controls have followed `event`: each control up to the one
    /// that was clicked has seen the event, and the ones behind it have not.
    pub open spec fn followed(&self, before: &PinKeyboard, event: Event) -> bool {
        let confirmed = before.confirm_btn.clicked_by(event);
        let cancelled = before.cancel_btn.clicked_by(event);
        let erased = before.reset_btn.clicked_by(event);
        let keys = !confirmed && !cancelled && !erased;
        &&& self.pin_view() == before.pin_view()
        &&& self.allow_cancel == before.allow_cancel
        &&& self.major_prompt == before.major_prompt
        &&& self.minor_prompt == before.minor_prompt
        &&& self.major_warning == before.major_warning
        &&& self.dots == before.dots
        &&& self.confirm_btn == before.confirm_btn.after(event)
        &&& self.cancel_btn == if confirmed {
            before.cancel_btn
        } else {
            before.cancel_btn.after(event)
        }
        &&& self.reset_btn == if confirmed || cancelled {
            before.reset_btn
        } else {
            before.reset_btn.after(event)
        }
        &&& self.digit_btns@.len() == before.digit_btns@.len()
        &&& forall|slot: int|
            0 <= slot < before.digit_btns@.len() ==> (#[trigger] self.digit_btns@[slot]) == (if keys
                && (first_clicked(before.digit_btns@, event, 0) is None || slot <= first_clicked(
                before.digit_btns@,
                event,
                0,
            )->0) {
                before.digit_btns@[slot].after(event)
            } else {
                before.digit_btns@[slot]
            })
    }

    /// Hands `event` to the controls in their order and returns the one that it clicks.
    pub fn click(&mut self, ctx: &mut EventCtx, event: Event) -> (hit: Option<PinControl>)
        requires
            old(self).inv(),
        ensures
            final(self).inv(),
            hit == old(self).hit(event),
            hit matches Some(PinControl::Digit(slot)) ==> slot < DIGIT_COUNT,
            final(self).followed(old(self), event),
            final(self).layout() == old(self).layout(),
            final(ctx).after_paint_request(*old(ctx), final(self).differs_from(old(self))),
    {
        let hit = self.route(ctx, event);
        proof {
            lemma_same_text_same_layout(old(self).digit_btns@, self.digit_btns@);
        }
        hit
    }

    fn route(&mut self, ctx: &mut EventCtx, event: Event) -> (hit: Option<PinControl>)
        requires
            old(self).digit_btns@.len() == DIGIT_COUNT,
        ensures
            hit == old(self).hit(event),
            hit matches Some(PinControl::Digit(slot)) ==> slot < DIGIT_COUNT,
            final(self).followed(old(self), event),
            final(ctx).after_paint_request(*old(ctx), final(self).differs_from(old(self))),
    {
        if let Some(ButtonMsg::Clicked) = self.confirm_btn.event(ctx, event) {
            return Some(PinControl::Confirm);
        }
        if let Some(ButtonMsg::Clicked) = self.cancel_btn.event(ctx, event) {
            return Some(PinControl::Cancel);
        }
        if let Some(ButtonMsg::Clicked) = self.reset_btn.event(ctx, event) {
            return Some(PinControl::Erase);
        }
        match click_first(&mut self.digit_btns, ctx, event) {
            Some(slot) => Some(PinControl::Digit(slot)),
            None => None,
        }
    }

    /// What a paint pass draws while nothing is entered: where the dots
    /// would be there is background, and on it the warning, or else the
    /// main prompt, and the other prompt; then the cancel control.
    pub open spec fn prompts_painted(&self) -> Seq<DrawOp> {
        seq![self.dots.cleared()] + (match self.major_warning {
            Some(warning) => warning.painted(),
            None => self.major_prompt.painted(),
        }) + self.minor_prompt.painted() + self.cancel_btn.painted()
    }

    /// The keyboard after a paint pass: what was drawn is up to date.
    pub open spec fn painted_over(&self, before: &PinKeyboard) -> bool {
        &&& self.pin_view() == before.pin_view()
        &&& self.allow_cancel == before.allow_cancel
        &&& self.major_prompt == before.major_prompt
        &&& self.minor_prompt == before.minor_prompt
        &&& self.major_warning == before.major_warning
        &&& self.reset_btn == before.reset_btn.clean()
        &&& self.cancel_btn == if before.pin_view().len() == 0 {
            before.cancel_btn.clean()
        } else {
            before.cancel_btn
        }
        &&& self.dots == if before.pin_view().len() == 0 {
            before.dots
        } else {
            before.dots.clean()
        }
        &&& self.confirm_btn == before.confirm_btn.clean()
        &&& self.digit_btns@.len() == before.digit_btns@.len()
        &&& forall|slot: int|
            0 <= slot < before.digit_btns@.len() ==> (#[trigger] self.digit_btns@[slot])
                == before.digit_btns@[slot].clean()
    }

}

impl Component for PinKeyboard {
    type Msg = PinKeyboardMsg;

    /// The controls follow the event, and the one that it clicks, if any, is used.
    open spec fn handled(
        &self,
        before: &Self,
        ctx: EventCtx,
        event: Event,
        msg: Option<PinKeyboardMsg>,
        asked: EventCtx,
    ) -> bool {
        &&& match before.hit(event) {
            Some(control) => before.answers(control, msg),
            None => msg is None,
        }
        &&& exists|touched: PinKeyboard|
            {
                &&& #[trigger] touched.followed(before, event)
                &&& match before.hit(event) {
                    Some(control) => self.used(&touched, control),
                    None => *self == touched,
                }
                &&& asked.after_paint_request(
                    ctx,
                    touched.differs_from(before) || self.differs_from(&touched),
                )
            }
    }

    /// The PIN and the keys are as they were, and every control is due to be drawn.
    open spec fn drawn(&self, before: &Self) -> bool {
        self.painted_over(before)
    }

    open spec fn due_for_repaint(&self, before: &Self, ctx: EventCtx, asked: EventCtx) -> bool {
        &&& self.pin_view() == before.pin_view()
        &&& self.layout() == before.layout()
        &&& self.allow_cancel == before.allow_cancel
        &&& self.dots == (PinDots { dirty: true, ..before.dots })
        &&& self.confirm_btn == before.confirm_btn.stale()
        &&& self.reset_btn == before.reset_btn.all_stale()
        &&& self.cancel_btn == before.cancel_btn.all_stale()
        &&& asked.after_paint_request(ctx, true)
        &&& self.digit_btns@.len() == before.digit_btns@.len()
        &&& forall|slot: int|
            0 <= slot < before.digit_btns@.len() ==> (#[trigger] self.digit_btns@[slot])
                == before.digit_btns@[slot].stale()
    }

    /// What a paint pass draws: the erase control; the prompts while
    /// nothing is entered, and else the dots; the confirm control; the keys.
    open spec fn painted(&self) -> Seq<DrawOp> {
        self.reset_btn.painted() + (if self.pin_view().len() == 0 {
            self.prompts_painted()
        } else {
            self.dots.painted()
        }) + self.confirm_btn.painted() + buttons_painted(
            self.digit_btns@,
            self.digit_btns@.len() as int,
        )
    }

    /// The regions of the keyboard.
    open spec fn regions(&self) -> Seq<Rect> {
        seq![
            self.major_prompt.area,
            self.minor_prompt.area,
            self.reset_btn.pad.area,
            self.reset_btn.button.area,
            self.cancel_btn.pad.area,
            self.cancel_btn.button.area,
            self.confirm_btn.area,
            self.dots.area,
        ] + Seq::new(self.digit_btns@.len(), |slot: int| self.digit_btns@[slot].area)
    }

    /// The keys carry the ten digits, the PIN is made of at most nine
    /// digits, and the controls are in line with it.
    open spec fn inv(&self) -> bool {
        &&& self.labelled()
        &&& self.pin_view().len() <= MAX_LENGTH
        &&& all_digits(self.pin_view())
        &&& self.consistent()
    }

    /// Hands `event` to the controls, and does what the control stands for
    /// that the event clicks.
    fn event(&mut self, ctx: &mut EventCtx, event: Event) -> (msg: Option<PinKeyboardMsg>)
        ensures
            final(self).layout() == old(self).layout(),
            final(self).allow_cancel == old(self).allow_cancel,
            match old(self).hit(event) {
                Some(control) => final(self).pin_view()
                    == old(self).pin_after(control) && old(self).answers(control, msg),
                None => final(self).pin_view() == old(self).pin_view() && msg is None,
            },
            exists|touched: PinKeyboard|
                {
                    &&& #[trigger] touched.followed(old(self), event)
                    &&& match old(self).hit(event) {
                        Some(control) => final(self).used(&touched, control),
                        None => *final(self) == touched,
                    }
                    &&& final(ctx).after_paint_request(
                        *old(ctx),
                        touched.differs_from(old(self)) || final(self).differs_from(&touched),
                    )
                },
    {
        let hit = self.click(ctx, event);
        let ghost touched = *self;
        assert(touched.pin_view() == old(self).pin_view());
        assert(touched.layout() == old(self).layout());
        let msg = match hit {
            Some(control) => self.press(ctx, control),
            None => None,
        };
        assert(touched.followed(old(self), event) && (match old(self).hit(event) {
            Some(control) => self.used(&touched, control),
            None => *self == touched,
        }) && ctx.after_paint_request(
            *old(ctx),
            touched.differs_from(old(self)) || self.differs_from(&touched),
        ));
        msg
    }

    fn paint(&mut self, display: &mut Display)
        ensures
            final(self).painted_over(old(self)),
            final(display)@ == old(display)@ + old(self).painted(),
    {
        self.reset_btn.paint(display);
        let ghost middle = if old(self).pin_view().len() == 0 {
            old(self).prompts_painted()
        } else {
            old(self).dots.painted()
        };
        let ghost above = display@;
        if self.digits.is_empty() {
            self.dots.clear(display);
            match &self.major_warning {
                Some(w) => {
                    w.paint(display);
                },
                None => {
                    self.major_prompt.paint(display);
                },
            }
            self.minor_prompt.paint(display);
            self.cancel_btn.paint(display);
            assert(display@ =~= above + middle);
        } else {
            self.dots.paint(display);
        }
        assert(display@ == above + middle);
        self.confirm_btn.paint(display);
        paint_all(&mut self.digit_btns, display);
        proof {
            lemma_appended_in_turn(
                old(display)@,
                old(self).reset_btn.painted(),
                middle,
                old(self).confirm_btn.painted(),
                buttons_painted(old(self).digit_btns@, old(self).digit_btns@.len() as int),
                Seq::empty(),
                Seq::empty(),
            );
        }
        proof {
            lemma_same_text_same_layout(old(self).digit_btns@, self.digit_btns@);
        }
    }

    fn bounds(&self, sink: &mut Vec<Rect>)
        ensures
            final(sink)@ == old(sink)@ + self.regions(),
    {
        self.major_prompt.bounds(sink);
        self.minor_prompt.bounds(sink);
        self.reset_btn.bounds(sink);
        self.cancel_btn.bounds(sink);
        self.confirm_btn.bounds(sink);
        self.dots.bounds(sink);
        bounds_of_all(&self.digit_btns, sink);
        assert(sink@ =~= old(sink)@ + self.regions());
    }

    fn request_complete_repaint(&mut self, ctx: &mut EventCtx)
        ensures
            final(self).pin_view() == old(self).pin_view(),
            final(self).layout() == old(self).layout(),
            final(self).allow_cancel == old(self).allow_cancel,
            final(self).dots.dirty,
            final(self).confirm_btn.dirty,
            final(self).reset_btn.button.dirty,
            final(self).cancel_btn.button.dirty,
            forall|slot: int| 0 <= slot < DIGIT_COUNT ==>
                (#[trigger] final(self).digit_btns@[slot]).dirty,
    {
        self.dots.request_complete_repaint(ctx);
        self.reset_btn.request_complete_repaint(ctx);
        self.cancel_btn.request_complete_repaint(ctx);
        self.confirm_btn.request_complete_repaint(ctx);
        stale_all(&mut self.digit_btns, ctx);
        proof {
            lemma_same_text_same_layout(old(self).digit_btns@, self.digit_btns@);
        }
    }
}

impl Trace for PinKeyboard {
    open spec fn traced(&self) -> Seq<u8> {
        opening("PinKeyboard") + closing()
    }

    fn trace(&self, t: &mut Tracer) {
        t.open("PinKeyboard");
        t.close();
        assert(t@ =~= old(t)@ + self.traced());
    }
}

} // verus!
