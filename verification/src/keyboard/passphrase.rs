//! The keyboard on which a passphrase is entered.
//!
//! Ten keys on each of four pages: digits, small letters, capital letters
//! and symbols. A swipe to the left or to the right turns the page, and
//! from the last page one comes to the first. Most keys stand for several
//! characters, which are entered as [`crate::keyboard::common`] describes.
use vstd::prelude::*;
use vstd::string::*;
use crate::button::{
    any_state_changed, bounds_of_all, buttons_painted, click_first, first_clicked, paint_all,
    stale_all, Button, ButtonContent, ButtonMsg, ButtonState,
};
use crate::component::{Component, Never};
use crate::display::{copy_bytes, lemma_appended_in_turn, Display, DrawOp};
use crate::event::{Event, EventCtx, TimerToken, TouchEvent};
use crate::geometry::{sat, Alignment, Axis, Grid, Insets, Offset, Point, Rect};
use crate::keyboard::common::{
    edited, fits, MultiTapKeyboard, TextBox, HEADER_PADDING_SIDE, PENDING_TIMEOUT_MS,
};
use crate::scroll::{ScrollBar, DOT_SIZE};
use crate::swipe::{abs, Swipe, SwipeDirection, SWIPE_THRESHOLD};
use crate::theme::{
    label_default, ButtonKind, Icon, BACKLIGHT_NORMAL, BG, KEYBOARD_SPACING,
};
use crate::trace::{closing, opening, Trace, Tracer};

verus! {

/// How the entry of a passphrase ends.
#[derive(Clone, Copy, Debug, PartialEq, Eq, Structural)]
pub enum PassphraseKeyboardMsg {
    /// The user has confirmed the passphrase, which is in the text box.
    Confirmed,
    /// The user has abandoned the entry.
    Cancelled,
}

/// The page shown first: the small letters.
pub const STARTING_PAGE: usize = 1;

/// The number of pages.
pub const PAGE_COUNT: usize = 4;

/// The number of keys on a page.
pub const KEY_COUNT: usize = 10;

/// The most characters a passphrase can have.
pub const MAX_LENGTH: usize = 50;

/// How far above the bottom of its area the text is written.
pub const TEXT_OFFSET: i32 = 8;

/// What key `key` of page `page` stands for.
pub open spec fn keyboard(page: int, key: int) -> &'static str {
    if page == 0 {
        if key == 0 { "1" } else if key == 1 { "2" } else if key == 2 { "3" }
        else if key == 3 { "4" } else if key == 4 { "5" } else if key == 5 { "6" }
        else if key == 6 { "7" } else if key == 7 { "8" } else if key == 8 { "9" }
        else { "0" }
    } else if page == 1 {
        if key == 0 { " " } else if key == 1 { "abc" } else if key == 2 { "def" }
        else if key == 3 { "ghi" } else if key == 4 { "jkl" } else if key == 5 { "mno" }
        else if key == 6 { "pqrs" } else if key == 7 { "tuv" } else if key == 8 { "wxyz" }
        else { "*#" }
    } else if page == 2 {
        if key == 0 { " " } else if key == 1 { "ABC" } else if key == 2 { "DEF" }
        else if key == 3 { "GHI" } else if key == 4 { "JKL" } else if key == 5 { "MNO" }
        else if key == 6 { "PQRS" } else if key == 7 { "TUV" } else if key == 8 { "WXYZ" }
        else { "*#" }
    } else {
        if key == 0 { "_<>" } else if key == 1 { ".:@" } else if key == 2 { "/|\\" }
        else if key == 3 { "!()" } else if key == 4 { "+%&" } else if key == 5 { "-[]" }
        else if key == 6 { "?{}" } else if key == 7 { ",'`" } else if key == 8 { ";\"~" }
        else { "$^=" }
    }
}

/// What key `key` of page `page` stands for.
pub fn key_label(page: usize, key: usize) -> (label: &'static str)
    ensures
        label == keyboard(page as int, key as int),
{
    if page == 0 {
        if key == 0 { "1" } else if key == 1 { "2" } else if key == 2 { "3" }
        else if key == 3 { "4" } else if key == 4 { "5" } else if key == 5 { "6" }
        else if key == 6 { "7" } else if key == 7 { "8" } else if key == 8 { "9" }
        else { "0" }
    } else if page == 1 {
        if key == 0 { " " } else if key == 1 { "abc" } else if key == 2 { "def" }
        else if key == 3 { "ghi" } else if key == 4 { "jkl" } else if key == 5 { "mno" }
        else if key == 6 { "pqrs" } else if key == 7 { "tuv" } else if key == 8 { "wxyz" }
        else { "*#" }
    } else if page == 2 {
        if key == 0 { " " } else if key == 1 { "ABC" } else if key == 2 { "DEF" }
        else if key == 3 { "GHI" } else if key == 4 { "JKL" } else if key == 5 { "MNO" }
        else if key == 6 { "PQRS" } else if key == 7 { "TUV" } else if key == 8 { "WXYZ" }
        else { "*#" }
    } else {
        if key == 0 { "_<>" } else if key == 1 { ".:@" } else if key == 2 { "/|\\" }
        else if key == 3 { "!()" } else if key == 4 { "+%&" } else if key == 5 { "-[]" }
        else if key == 6 { "?{}" } else if key == 7 { ",'`" } else if key == 8 { ";\"~" }
        else { "$^=" }
    }
}

/// The characters that a key with the given content stands for: those of
/// its text; a space where it shows the icon of the space bar; none where
/// it shows nothing.
pub open spec fn label_of(content: ButtonContent) -> Seq<u8> {
    match content {
        ButtonContent::Text(text) => text@,
        ButtonContent::Icon(_) => seq![32u8],
        ButtonContent::Empty => Seq::empty(),
    }
}

/// Whether a key with the given content shows what a key that stands for
/// `label` shows: the icon of the space bar for a space, and for anything
/// else the characters themselves.
pub open spec fn shows(content: ButtonContent, label: Seq<u8>) -> bool {
    if label == seq![32u8] {
        content == ButtonContent::Icon(Icon::Space)
    } else {
        content matches ButtonContent::Text(text) && text@ == label
    }
}

/// The cell of the key grid that key `key` occupies. The grid has five rows
/// of three cells. The first row is left to the text; the keys fill the next
/// three, and the last key sits in the middle of the fifth, between the
/// controls.
pub open spec fn key_cell(key: int) -> int {
    if key < 9 {
        key + 3
    } else {
        key + 4
    }
}

/// The page that a swipe in direction `swipe` turns to from page `page`:
/// the next one for a swipe to the left and the previous one for a swipe to
/// the right, the first page following the last.
pub open spec fn page_after(page: usize, swipe: SwipeDirection) -> usize {
    match swipe {
        SwipeDirection::Left => ((page + 1) % (PAGE_COUNT as int)) as usize,
        SwipeDirection::Right => ((page + PAGE_COUNT - 1) % (PAGE_COUNT as int)) as usize,
        _ => page,
    }
}

/// A control of the passphrase keyboard.
#[derive(Clone, Copy, Debug, PartialEq, Eq, Structural)]
pub enum PassphraseControl {
    /// Finishes the entry.
    Confirm,
    /// Takes the last character back.
    Erase,
    /// The key with the given number on the page shown, keys counted from zero, row by row.
    Key(usize),
}

/// The line in which the passphrase is shown.
pub struct Input {
    pub area: Rect,
    pub textbox: TextBox<MAX_LENGTH>,
    pub multi_tap: MultiTapKeyboard,
    /// Whether the next paint pass draws the line.
    pub dirty: bool,
}

impl Input {
    /// An empty line, yet to be drawn.
    pub fn new(area: Rect) -> (input: Input)
        ensures
            input.area == area,
            input.textbox@ == Seq::<u8>::empty(),
            input.textbox.wf(),
            input.multi_tap == (MultiTapKeyboard {
                timeout_ms: PENDING_TIMEOUT_MS,
                pending: None,
            }),
            input.dirty,
    {
        Input { area, textbox: TextBox::empty(), multi_tap: MultiTapKeyboard::new(), dirty: true }
    }

    /// Where the text begins.
    pub open spec fn baseline(&self) -> Point {
        Point { x: self.area.x0, y: sat(self.area.y1 - TEXT_OFFSET) }
    }

    /// What is drawn of the line: the background, the text, and the mark of
    /// a pending character where there is one.
    pub open spec fn face(&self) -> Seq<DrawOp> {
        let style = label_default();
        let text = seq![
            DrawOp::Fill { area: self.area, color: BG },
            DrawOp::Text {
                at: self.baseline(),
                align: Alignment::Start,
                text: self.textbox@,
                font: style.font,
                fg: style.text_color,
                bg: style.background_color,
            },
        ];
        if self.multi_tap.pending is Some {
            text.push(
                DrawOp::PendingMarker {
                    at: self.baseline(),
                    text: self.textbox@,
                    font: style.font,
                    color: style.text_color,
                },
            )
        } else {
            text
        }
    }

    /// Ends the pending state; the line needs to be drawn if a key was pending.
    pub fn clear_pending(&mut self, ctx: &mut EventCtx)
        ensures
            final(self).area == old(self).area,
            final(self).textbox == old(self).textbox,
            final(self).multi_tap == old(self).multi_tap.cleared(),
            final(self).dirty == (old(self).dirty || old(self).multi_tap.pending is Some),
            final(ctx).after_paint_request(*old(ctx), old(self).multi_tap.pending is Some),
    {
        if self.multi_tap.pending.is_some() {
            self.dirty = true;
        }
        self.multi_tap.clear_pending_state(ctx);
    }

    /// Takes the last character back and ends the pending state; the line
    /// needs to be drawn if either is a change.
    pub fn erase(&mut self, ctx: &mut EventCtx)
        requires
            old(self).textbox.wf(),
        ensures
            final(self).textbox.wf(),
            final(self).area == old(self).area,
            final(self).textbox@ == (if old(self).textbox@.len() > 0 {
                old(self).textbox@.drop_last()
            } else {
                old(self).textbox@
            }),
            final(self).multi_tap == old(self).multi_tap.cleared(),
            final(self).dirty == (old(self).dirty || old(self).multi_tap.pending is Some
                || old(self).textbox@.len() > 0),
            final(ctx).after_paint_request(
                *old(ctx),
                old(self).multi_tap.pending is Some || old(self).textbox@.len() > 0,
            ),
    {
        if self.multi_tap.pending.is_some() || !self.textbox.is_empty() {
            self.dirty = true;
        }
        self.multi_tap.clear_pending_state(ctx);
        self.textbox.delete_last(ctx);
    }

    /// The pending state after a press of key `key`, which stands for
    /// `label`, where `timer` is the timer started with the press. A key
    /// that stands for nothing changes nothing. A key whose character the
    /// text has no room for is not pending, so that a further press cannot
    /// replace a character that was entered before.
    pub open spec fn multi_tap_after(
        &self,
        key: usize,
        label: Seq<u8>,
        timer: TimerToken,
    ) -> MultiTapKeyboard {
        if label.len() == 0 {
            self.multi_tap
        } else if fits(self.textbox@, self.multi_tap.edit_of(key, label), MAX_LENGTH as nat) {
            self.multi_tap.pressed(key, label, timer)
        } else {
            self.multi_tap.cleared()
        }
    }

    /// The text after a press of key `key`, which stands for `label`.
    pub open spec fn text_after(&self, key: usize, label: Seq<u8>) -> Seq<u8> {
        if label.len() == 0 {
            self.textbox@
        } else {
            edited(self.textbox@, self.multi_tap.edit_of(key, label), MAX_LENGTH as nat)
        }
    }

    /// Takes a press of key `key`, which stands for `label`: the character
    /// that the press means is entered into the text, or replaces the
    /// pending one.
    pub fn press_key(&mut self, ctx: &mut EventCtx, key: usize, label: &[u8])
        requires
            old(self).textbox.wf(),
        ensures
            final(self).textbox.wf(),
            final(self).area == old(self).area,
            final(self).textbox@ == old(self).text_after(key, label@),
            final(self).multi_tap == old(self).multi_tap_after(
                key,
                label@,
                TimerToken { id: old(ctx).next_token },
            ),
            final(self).dirty == (old(self).dirty || label@.len() > 0),
            final(ctx).after_requests(
                *old(ctx),
                label@.len() > 0,
                if label@.len() > 1 {
                    Some(old(self).multi_tap.timeout_ms)
                } else {
                    None
                },
            ),
    {
        if label.len() > 0 {
            let edit = self.multi_tap.click_key(ctx, key, label);
            let applied = self.textbox.apply(ctx, edit);
            if !applied {
                self.multi_tap.clear_pending_state(ctx);
            }
            self.dirty = true;
            ctx.request_paint();
        }
    }
}

impl Component for Input {
    type Msg = Never;

    open spec fn handled(
        &self,
        before: &Self,
        ctx: EventCtx,
        event: Event,
        msg: Option<Never>,
        asked: EventCtx,
    ) -> bool {
        *self == *before && msg is None && asked == ctx
    }

    open spec fn drawn(&self, before: &Self) -> bool {
        &&& self.area == before.area
        &&& self.textbox == before.textbox
        &&& self.multi_tap == before.multi_tap
        &&& !self.dirty
    }

    open spec fn due_for_repaint(&self, before: &Self, ctx: EventCtx, asked: EventCtx) -> bool {
        &&& self.area == before.area
        &&& self.textbox == before.textbox
        &&& self.multi_tap == before.multi_tap
        &&& self.dirty
        &&& asked.after_paint_request(ctx, true)
    }

    /// What a paint pass draws: the line, if it has changed since it was drawn last.
    open spec fn painted(&self) -> Seq<DrawOp> {
        if self.dirty {
            self.face()
        } else {
            Seq::empty()
        }
    }

    open spec fn regions(&self) -> Seq<Rect> {
        seq![self.area]
    }

    open spec fn inv(&self) -> bool {
        self.textbox.wf()
    }

    /// The line reacts to nothing: the keyboard edits it.
    fn event(&mut self, ctx: &mut EventCtx, event: Event) -> (msg: Option<Never>)
        ensures
            msg is None,
            *final(self) == *old(self),
            *final(ctx) == *old(ctx),
    {
        None
    }

    /// Draws the line if it has changed since it was drawn last.
    fn paint(&mut self, display: &mut Display)
        ensures
            final(self).area == old(self).area,
            final(self).textbox == old(self).textbox,
            final(self).multi_tap == old(self).multi_tap,
            !final(self).dirty,
            final(display)@ == old(display)@ + old(self).painted(),
    {
        if self.dirty {
            self.dirty = false;
            let style = label_default();
            let text_baseline = self.area.bottom_left().translate(Offset::new(0, -TEXT_OFFSET));
            let text = self.textbox.content();
            display.rect_fill(self.area, BG);
            display.text(
                text_baseline,
                Alignment::Start,
                text,
                style.font,
                style.text_color,
                style.background_color,
            );
            // Paint the pending marker.
            if self.multi_tap.pending_key().is_some() {
                display.pending_marker(text_baseline, text, style.font, style.text_color);
            }
        }
        assert(display@ =~= old(display)@ + old(self).painted());
    }

    fn bounds(&self, sink: &mut Vec<Rect>)
        ensures
            final(sink)@ == old(sink)@.push(self.area),
    {
        sink.push(self.area);
    }

    fn request_complete_repaint(&mut self, ctx: &mut EventCtx)
        ensures
            final(self).area == old(self).area,
            final(self).textbox == old(self).textbox,
            final(self).multi_tap == old(self).multi_tap,
            final(self).dirty,
            final(ctx).after_paint_request(*old(ctx), true),
    {
        self.dirty = true;
        ctx.request_paint();
    }
}

/// Whether `keys` are the keys of the four pages: ten on each, and each
/// shows what a key shows that stands for what [`keyboard`] says.
pub open spec fn keys_labelled(keys: Seq<Vec<Button>>) -> bool {
    &&& keys.len() == PAGE_COUNT
    &&& forall|page: int| 0 <= page < PAGE_COUNT ==> (#[trigger] keys[page])@.len() == KEY_COUNT
    &&& forall|page: int, key: int|
        0 <= page < PAGE_COUNT && 0 <= key < KEY_COUNT ==> shows(
            (#[trigger] keys[page]@[key]).content,
            keyboard(page, key).spec_bytes(),
        )
}

/// Keys that show what `before` show, key by key, stand for the same characters.
pub proof fn lemma_same_labels(before: Seq<Vec<Button>>, after: Seq<Vec<Button>>)
    requires
        keys_labelled(before),
        after.len() == before.len(),
        forall|p: int| 0 <= p < before.len() ==> (#[trigger] after[p])@.len() == before[p]@.len(),
        forall|p: int, k: int|
            0 <= p < before.len() && 0 <= k < before[p]@.len() ==> (#[trigger] after[p]@[k]).content
                == before[p]@[k].content,
    ensures
        keys_labelled(after),
{
    assert forall|page: int, key: int|
        0 <= page < PAGE_COUNT && 0 <= key < KEY_COUNT implies shows(
        (#[trigger] after[page]@[key]).content,
        keyboard(page, key).spec_bytes(),
    ) by {
        assert(before[page]@.len() == KEY_COUNT);
        assert(after[page]@[key].content == before[page]@[key].content);
    }
}

/// Paints the keys of page `page`, in order.
pub fn paint_page(keys: &mut Vec<Vec<Button>>, page: usize, display: &mut Display)
    requires
        page < old(keys)@.len(),
    ensures
        final(keys)@.len() == old(keys)@.len(),
        forall|p: int| 0 <= p < old(keys)@.len() ==>
            (#[trigger] final(keys)@[p])@.len() == old(keys)@[p]@.len(),
        forall|p: int, k: int|
            0 <= p < old(keys)@.len() && 0 <= k < old(keys)@[p]@.len() ==> (
            #[trigger] final(keys)@[p]@[k]) == (if p == page {
                old(keys)@[p]@[k].clean()
            } else {
                old(keys)@[p]@[k]
            }),
        final(display)@ == old(display)@ + buttons_painted(
            old(keys)@[page as int]@,
            old(keys)@[page as int]@.len() as int,
        ),
{
    paint_all(&mut keys[page], display);
}

/// The keyboard on which a passphrase is entered.
pub struct PassphraseKeyboard {
    pub page_swipe: Swipe,
    pub input: Input,
    /// Takes the last character back.
    pub back: Button,
    pub confirm: Button,
    /// The keys, by page and number.
    pub keys: Vec<Vec<Button>>,
    pub scrollbar: ScrollBar,
    /// Whether the backlight is to fade back to normal at the end of the next paint pass.
    pub fade: bool,
}

impl PassphraseKeyboard {
    /// The text entered so far.
    pub open spec fn text(&self) -> Seq<u8> {
        self.input.textbox@
    }

    /// The number of the page shown.
    pub open spec fn page(&self) -> usize {
        self.scrollbar.active_page
    }

    /// The keys of the page shown.
    pub open spec fn shown_keys(&self) -> Seq<Button> {
        self.keys@[self.page() as int]@
    }

    /// The grid in which the keys and the controls lie.
    pub open spec fn key_grid(area: Rect) -> Grid {
        Grid { rows: 5, cols: 3, spacing: KEYBOARD_SPACING, area }
    }

    /// The top row of the keyboard, which the text and the scroll bar share.
    pub open spec fn top_row(area: Rect) -> Rect {
        (Grid { rows: 5, cols: 1, spacing: KEYBOARD_SPACING, area }).spec_row_col(0, 0)
    }

    /// Where the text goes: the top row above the scroll bar, with free space at the sides.
    pub open spec fn input_area(area: Rect) -> Rect {
        let row = Self::top_row(area);
        row.spec_split_top(row.y1 - row.y0 - DOT_SIZE).0.spec_inset(
            Insets { top: 0, right: HEADER_PADDING_SIDE, bottom: 2, left: HEADER_PADDING_SIDE },
        )
    }

    /// Where the scroll bar goes: the bottom of the top row.
    pub open spec fn scroll_area(area: Rect) -> Rect {
        let row = Self::top_row(area);
        row.spec_split_top(row.y1 - row.y0 - DOT_SIZE).1
    }

    /// Where everything is on a keyboard in `area`, and how it looks.
    pub open spec fn laid_out(&self, area: Rect) -> bool {
        let grid = Self::key_grid(area);
        &&& self.page_swipe == (Swipe { allow_left: true, allow_right: true, ..Swipe::idle(area) })
        &&& self.input.area == Self::input_area(area)
        &&& self.confirm.area == grid.spec_cell(14)
        &&& self.confirm.content == ButtonContent::Icon(Icon::Confirm)
        &&& self.confirm.kind == ButtonKind::Confirm
        &&& self.back.area == grid.spec_cell(12)
        &&& self.back.content == ButtonContent::Icon(Icon::Back)
        &&& self.back.kind == ButtonKind::Reset
        &&& self.scrollbar.area == Self::scroll_area(area)
        &&& self.scrollbar.layout == ScrollBar::dots_along(Axis::Horizontal)
        &&& !self.scrollbar.arrows
        &&& forall|page: int, key: int|
            0 <= page < PAGE_COUNT && 0 <= key < KEY_COUNT ==>
                (#[trigger] self.keys@[page]@[key]).area
                == grid.spec_cell(key_cell(key))
    }

    /// Nothing is entered and no key is pending; the small letters are
    /// shown; no control is touched and none was drawn yet; the confirm
    /// control and the keys take touches and the erase control does not; and
    /// no fading of the backlight is due.
    pub open spec fn fresh(&self) -> bool {
        &&& self.text() == Seq::<u8>::empty()
        &&& self.input.multi_tap == (MultiTapKeyboard {
            timeout_ms: PENDING_TIMEOUT_MS,
            pending: None,
        })
        &&& self.input.dirty
        &&& self.scrollbar.page_count == PAGE_COUNT
        &&& self.scrollbar.active_page == STARTING_PAGE
        &&& !self.fade
        &&& self.confirm.state == ButtonState::Initial
        &&& self.confirm.dirty
        &&& self.back.state == ButtonState::Disabled
        &&& self.back.dirty
        &&& forall|page: int, key: int|
            0 <= page < PAGE_COUNT && 0 <= key < KEY_COUNT ==> (#[trigger] self.keys@[page]@[key]).state
                == ButtonState::Initial && self.keys@[page]@[key].dirty && self.keys@[page]@[key].kind
                == ButtonKind::Default
    }

    /// A keyboard in `area` with nothing entered yet. It shows the small letters.
    pub fn new(area: Rect) -> (kb: PassphraseKeyboard)
        ensures
            kb.inv(),
            kb.fresh(),
            kb.laid_out(area),
    {
        let input_area = Grid::new(area, 5, 1).with_spacing(KEYBOARD_SPACING).row_col(0, 0);

        let (input_area, scroll_area) = input_area.split_bottom(DOT_SIZE);
        let input_area = input_area.inset(
            Insets::new(0, HEADER_PADDING_SIDE, 2, HEADER_PADDING_SIDE),
        );

        let key_grid = Grid::new(area, 5, 3).with_spacing(KEYBOARD_SPACING);
        let confirm_btn_area = key_grid.cell(14);
        let back_btn_area = key_grid.cell(12);

        PassphraseKeyboard {
            page_swipe: Swipe::horizontal(area),
            input: Input::new(input_area),
            confirm: Button::with_icon(confirm_btn_area, Icon::Confirm).styled(ButtonKind::Confirm),
            back: Button::with_icon(back_btn_area, Icon::Back).styled(
                ButtonKind::Reset,
            ).initially_enabled(false),
            keys: Self::generate_keyboard(&key_grid),
            scrollbar: ScrollBar::horizontal(scroll_area, PAGE_COUNT, STARTING_PAGE),
            fade: false,
        }
    }

    /// The keys of all pages.
    pub fn generate_keyboard(grid: &Grid) -> (keys: Vec<Vec<Button>>)
        requires
            grid.wf(),
            grid.rows * grid.cols > KEY_COUNT + 3,
        ensures
            keys_labelled(keys@),
            forall|page: int, key: int|
                0 <= page < PAGE_COUNT && 0 <= key < KEY_COUNT ==> {
                    &&& (#[trigger] keys@[page]@[key]).area == grid.spec_cell(key_cell(key))
                    &&& keys@[page]@[key].kind == ButtonKind::Default
                    &&& keys@[page]@[key].state == ButtonState::Initial
                    &&& keys@[page]@[key].dirty
                },
    {
        let mut keys: Vec<Vec<Button>> = Vec::new();
        let mut page: usize = 0;
        while page < PAGE_COUNT
            invariant
                page <= PAGE_COUNT,
                grid.wf(),
                grid.rows * grid.cols > KEY_COUNT + 3,
                keys@.len() == page,
                forall|p: int| 0 <= p < page ==> (#[trigger] keys@[p])@.len() == KEY_COUNT,
                forall|p: int, k: int|
                    0 <= p < page && 0 <= k < KEY_COUNT ==> {
                        &&& shows((#[trigger] keys@[p]@[k]).content, keyboard(p, k).spec_bytes())
                        &&& keys@[p]@[k].area == grid.spec_cell(key_cell(k))
                        &&& keys@[p]@[k].kind == ButtonKind::Default
                        &&& keys@[p]@[k].state == ButtonState::Initial
                        &&& keys@[p]@[k].dirty
                    },
            decreases PAGE_COUNT - page,
        {
            let mut row: Vec<Button> = Vec::new();
            let mut key: usize = 0;
            while key < KEY_COUNT
                invariant
                    key <= KEY_COUNT,
                    page < PAGE_COUNT,
                    grid.wf(),
                    grid.rows * grid.cols > KEY_COUNT + 3,
                    row@.len() == key,
                    forall|k: int|
                        0 <= k < key ==> {
                            &&& shows(
                                (#[trigger] row@[k]).content,
                                keyboard(page as int, k).spec_bytes(),
                            )
                            &&& row@[k].area == grid.spec_cell(key_cell(k))
                            &&& row@[k].kind == ButtonKind::Default
                            &&& row@[k].state == ButtonState::Initial
                            &&& row@[k].dirty
                        },
                decreases KEY_COUNT - key,
            {
                row.push(Self::generate_key(grid, key, key_label(page, key)));
                key = key + 1;
            }
            keys.push(row);
            page = page + 1;
        }
        keys
    }

    /// The key with number `key` that stands for `text`: a key that stands
    /// for a space shows the icon of the space bar, any other shows what it
    /// stands for. It is of the default kind, takes touches, and is yet to
    /// be drawn.
    pub fn generate_key(grid: &Grid, key: usize, text: &'static str) -> (button: Button)
        requires
            grid.wf(),
            grid.rows * grid.cols > KEY_COUNT + 3,
            key < KEY_COUNT,
        ensures
            button.area == grid.spec_cell(key_cell(key as int)),
            shows(button.content, text.spec_bytes()),
            button.kind == ButtonKind::Default,
            button.state == ButtonState::Initial,
            button.dirty,
    {
        // Assign the keys in each page to buttons on a 5x3 grid, starting from the
        // second row.
        let cell: usize = if key < 9 {
            // The grid has 3 columns, and we skip the first row.
            key + 3
        } else {
            // For the last key (the "0" position) we skip one cell.
            key + 1 + 3
        };
        let area = grid.cell(cell);
        let bytes = text.as_bytes();
        if bytes.len() == 1 && bytes[0] == 32 {
            assert(bytes@ =~= seq![32u8]);
            Button::with_icon(area, Icon::Space)
        } else {
            Button::with_text(area, copy_bytes(bytes))
        }
    }

    /// The characters that a key with the given content stands for.
    pub fn key_text(content: &ButtonContent) -> (label: Vec<u8>)
        ensures
            label@ == label_of(*content),
    {
        match content {
            ButtonContent::Text(text) => copy_bytes(text.as_slice()),
            ButtonContent::Icon(_) => {
                let mut space: Vec<u8> = Vec::new();
                space.push(32);
                assert(space@ =~= seq![32u8]);
                space
            },
            ButtonContent::Empty => Vec::new(),
        }
    }

    /// The keyboard after the page was turned by a swipe in direction
    /// `swipe`: the scroll bar shows the new page, no key is pending, the keys
    /// of the new page are due to be drawn, and so is the fading of the
    /// backlight, which the swipe has dimmed.
    pub open spec fn turned(&self, before: &PassphraseKeyboard, swipe: SwipeDirection) -> bool {
        let page = page_after(before.page(), swipe);
        &&& self.scrollbar == (ScrollBar { active_page: page, ..before.scrollbar })
        &&& self.input.area == before.input.area
        &&& self.input.dirty == (before.input.dirty || before.input.multi_tap.pending is Some)
        &&& self.input.textbox == before.input.textbox
        &&& self.input.multi_tap == before.input.multi_tap.cleared()
        &&& self.back == before.back
        &&& self.confirm == before.confirm
        &&& self.fade
        &&& self.keys@.len() == before.keys@.len()
        &&& forall|p: int|
            0 <= p < before.keys@.len() ==>
                (#[trigger] self.keys@[p])@.len() == before.keys@[p]@.len()
        &&& forall|p: int, k: int|
            0 <= p < before.keys@.len() && 0 <= k < before.keys@[p]@.len() ==> (
            #[trigger] self.keys@[p]@[k]) == (if p == page {
                before.keys@[p]@[k].stale()
            } else {
                before.keys@[p]@[k]
            })
    }

    /// Turns the page as a swipe in direction `swipe` asks.
    pub fn on_page_swipe(&mut self, ctx: &mut EventCtx, swipe: SwipeDirection)
        requires
            old(self).inv(),
        ensures
            final(self).inv(),
            final(self).turned(old(self), swipe),
            final(self).page_swipe == old(self).page_swipe,
            final(ctx).after_paint_request(*old(ctx), true),
    {
        // Change the page number.
        let key_page: usize = self.scrollbar.active_page;
        let key_page: usize = match swipe {
            SwipeDirection::Left => (key_page + 1) % PAGE_COUNT,
            SwipeDirection::Right => (key_page + PAGE_COUNT - 1) % PAGE_COUNT,
            _ => key_page,
        };
        self.scrollbar.go_to(key_page);
        // Clear the pending state.
        self.input.clear_pending(ctx);
        // Make sure to completely repaint the buttons.
        stale_all(&mut self.keys[key_page], ctx);
        proof {
            lemma_same_labels(old(self).keys@, self.keys@);
        }
        // Reset backlight to normal level on next paint.
        self.fade = true;
        ctx.request_paint();
    }

    /// Brings the erase control in line with the text: it takes touches
    /// while there is a character to take back.
    pub fn after_edit(&mut self, ctx: &mut EventCtx)
        ensures
            final(self).back
                == old(self).back.in_state(Button::state_if(old(self).text().len() > 0)),
            final(self).page_swipe == old(self).page_swipe,
            final(self).input == old(self).input,
            final(self).confirm == old(self).confirm,
            final(self).keys == old(self).keys,
            final(self).scrollbar == old(self).scrollbar,
            final(self).fade == old(self).fade,
            final(ctx).after_paint_request(*old(ctx), final(self).back.state != old(self).back.state),
    {
        if self.input.textbox.is_empty() {
            self.back.disable(ctx);
        } else {
            self.back.enable(ctx);
        }
    }

    /// How the use of `control` ends the entry, if it does: confirming
    /// confirms, and erasing where there is nothing to erase cancels.
    pub open spec fn answer(&self, control: PassphraseControl) -> Option<PassphraseKeyboardMsg> {
        match control {
            PassphraseControl::Confirm => Some(PassphraseKeyboardMsg::Confirmed),
            PassphraseControl::Erase => if self.text().len() == 0 {
                Some(PassphraseKeyboardMsg::Cancelled)
            } else {
                None
            },
            PassphraseControl::Key(_) => None,
        }
    }

    /// What the key with number `key` on the page shown stands for.
    pub open spec fn shown_label(&self, key: usize) -> Seq<u8> {
        keyboard(self.page() as int, key as int).spec_bytes()
    }

    /// The text after `control` was used: erasing takes the last character
    /// back, a key enters the character that the press means, and
    /// confirming leaves the text alone.
    pub open spec fn text_after(&self, control: PassphraseControl) -> Seq<u8> {
        match control {
            PassphraseControl::Confirm => self.text(),
            PassphraseControl::Erase => if self.text().len() > 0 {
                self.text().drop_last()
            } else {
                self.text()
            },
            PassphraseControl::Key(key) => self.input.text_after(key, self.shown_label(key)),
        }
    }

    /// The pending state after `control` was used, where `timer` is the
    /// timer that a press of a key starts: erasing ends it, a key changes
    /// it as the press means, and confirming leaves it alone.
    pub open spec fn multi_tap_after(
        &self,
        control: PassphraseControl,
        timer: TimerToken,
    ) -> MultiTapKeyboard {
        match control {
            PassphraseControl::Confirm => self.input.multi_tap,
            PassphraseControl::Erase => if self.text().len() > 0 {
                self.input.multi_tap.cleared()
            } else {
                self.input.multi_tap
            },
            PassphraseControl::Key(key) => self.input.multi_tap_after(
                key,
                self.shown_label(key),
                timer,
            ),
        }
    }

    /// The delay of the timer that the use of `control` starts, if it starts
    /// one: a key that stands for more than one character does.
    pub open spec fn timer_of(&self, control: PassphraseControl) -> Option<u32> {
        match control {
            PassphraseControl::Key(key) if self.shown_label(key).len() > 1 => Some(
                self.input.multi_tap.timeout_ms,
            ),
            _ => None,
        }
    }

    /// Whether the use of `control` changes anything: confirming does not,
    /// and neither does erasing where there is nothing to erase.
    pub open spec fn edits(&self, control: PassphraseControl) -> bool {
        match control {
            PassphraseControl::Confirm => false,
            PassphraseControl::Erase => self.text().len() > 0,
            PassphraseControl::Key(_) => true,
        }
    }

    /// The keyboard after `control` was used on `before`, where `timer` is
    /// the timer that a press of a key starts. The text and the pending
    /// state are as the control says. After an edit the erase control takes
    /// touches exactly if there is a character to take back, and the line of
    /// text is due to be drawn if the edit has changed what it shows.
    /// Everything else is as it was.
    pub open spec fn used(
        &self,
        before: &PassphraseKeyboard,
        control: PassphraseControl,
        timer: TimerToken,
    ) -> bool {
        &&& self.text() == before.text_after(control)
        &&& self.input.multi_tap == before.multi_tap_after(control, timer)
        &&& self.input.area == before.input.area
        &&& self.input.dirty == (before.input.dirty || match control {
            PassphraseControl::Confirm => false,
            PassphraseControl::Erase => before.text().len() > 0,
            PassphraseControl::Key(key) => before.shown_label(key).len() > 0,
        })
        &&& self.back == if before.edits(control) {
            before.back.in_state(Button::state_if(self.text().len() > 0))
        } else {
            before.back
        }
        &&& self.confirm == before.confirm
        &&& self.keys == before.keys
        &&& self.scrollbar == before.scrollbar
        &&& self.fade == before.fade
    }

    /// Does what `control` stands for. Confirming ends the entry. Erasing
    /// takes the last character back; where there is none it ends the entry
    /// as cancelled. A key enters a character. There is no key past the tenth.
    pub fn press(&mut self, ctx: &mut EventCtx, control: PassphraseControl) -> (msg: Option<
        PassphraseKeyboardMsg,
    >)
        requires
            old(self).inv(),
            control matches PassphraseControl::Key(key) ==> key < KEY_COUNT,
        ensures
            final(self).inv(),
            msg == old(self).answer(control),
            final(self).used(old(self), control, TimerToken { id: old(ctx).next_token }),
            final(self).page_swipe == old(self).page_swipe,
            final(ctx).after_requests(
                *old(ctx),
                final(self).redraws(old(self), control),
                old(self).timer_of(control),
            ),
    {
        match control {
            PassphraseControl::Confirm => {
                // Confirm button was clicked, we're done.
                Some(PassphraseKeyboardMsg::Confirmed)
            },
            PassphraseControl::Erase => {
                // Backspace button was clicked. If we have any content in the textbox, let's
                // delete the last character. Otherwise cancel.
                if self.input.textbox.is_empty() {
                    Some(PassphraseKeyboardMsg::Cancelled)
                } else {
                    self.input.erase(ctx);
                    self.after_edit(ctx);
                    None
                }
            },
            PassphraseControl::Key(key) => {
                // Key button was clicked. If this button is pending, let's cycle the pending
                // character in textbox. If not, let's just append the first character.
                let page: usize = self.scrollbar.active_page;
                let text = Self::key_text(self.keys[page][key].content());
                self.input.press_key(ctx, key, text.as_slice());
                self.after_edit(ctx);
                None
            },
        }
    }

    /// The control that `event` clicks. The controls are asked in a fixed
    /// order, and the first that is clicked counts: confirm, erase, then the
    /// keys of the page shown by number.
    pub open spec fn hit(&self, event: Event) -> Option<PassphraseControl> {
        if self.confirm.clicked_by(event) {
            Some(PassphraseControl::Confirm)
        } else if self.back.clicked_by(event) {
            Some(PassphraseControl::Erase)
        } else {
            match first_clicked(self.shown_keys(), event, 0) {
                Some(key) => Some(PassphraseControl::Key(key as usize)),
                None => None,
            }
        }
    }

    /// How the controls have followed `event`: each control up to the one
    /// that was clicked has seen the event, and the ones behind it have
    /// not; nor have the keys of the pages that are not shown.
    pub open spec fn followed(&self, before: &PassphraseKeyboard, event: Event) -> bool {
        let confirmed = before.confirm.clicked_by(event);
        let erased = before.back.clicked_by(event);
        let page = before.page() as int;
        &&& self.input == before.input
        &&& self.scrollbar == before.scrollbar
        &&& self.fade == before.fade
        &&& self.confirm == before.confirm.after(event)
        &&& self.back == if confirmed {
            before.back
        } else {
            before.back.after(event)
        }
        &&& self.keys@.len() == before.keys@.len()
        &&& forall|p: int|
            0 <= p < before.keys@.len() ==>
                (#[trigger] self.keys@[p])@.len() == before.keys@[p]@.len()
        &&& forall|p: int, k: int|
            0 <= p < before.keys@.len() && 0 <= k < before.keys@[p]@.len() ==> (
            #[trigger] self.keys@[p]@[k]) == (if p == page && !confirmed && !erased && (first_clicked(
                before.shown_keys(),
                event,
                0,
            ) is None || k <= first_clicked(before.shown_keys(), event, 0)->0) {
                before.keys@[p]@[k].after(event)
            } else {
                before.keys@[p]@[k]
            })
    }

    /// Whether a control is in another state than in `before`.
    pub open spec fn differs_from(&self, before: &PassphraseKeyboard) -> bool {
        ||| self.confirm.state != before.confirm.state
        ||| self.back.state != before.back.state
        ||| any_state_changed(before.shown_keys(), self.keys@[before.page() as int]@)
    }

    /// Whether the use of `control` on `before` has left anything new to
    /// draw: an edit of the text has, and so has a change in the state of
    /// the erase control.
    pub open spec fn redraws(&self, before: &PassphraseKeyboard, control: PassphraseControl) -> bool {
        match control {
            PassphraseControl::Confirm => false,
            PassphraseControl::Erase => before.text().len() > 0,
            PassphraseControl::Key(key) => before.shown_label(key).len() > 0 || self.back.state
                != before.back.state,
        }
    }

    /// Hands `event` to the controls in their order and returns the one that it clicks.
    pub fn click(&mut self, ctx: &mut EventCtx, event: Event) -> (hit: Option<PassphraseControl>)
        requires
            old(self).inv(),
        ensures
            final(self).inv(),
            hit == old(self).hit(event),
            hit matches Some(PassphraseControl::Key(key)) ==> key < KEY_COUNT,
            final(self).followed(old(self), event),
            final(self).page_swipe == old(self).page_swipe,
            final(ctx).after_paint_request(*old(ctx), final(self).differs_from(old(self))),
    {
        if let Some(ButtonMsg::Clicked) = self.confirm.event(ctx, event) {
            return Some(PassphraseControl::Confirm);
        }
        if let Some(ButtonMsg::Clicked) = self.back.event(ctx, event) {
            return Some(PassphraseControl::Erase);
        }
        let page: usize = self.scrollbar.active_page;
        match click_first(&mut self.keys[page], ctx, event) {
            Some(key) => Some(PassphraseControl::Key(key)),
            None => None,
        }
    }

    /// The keyboard after the pending state of `before` has timed out: no
    /// key is pending, the line of text is due to be drawn if one was, and
    /// everything else is as it was.
    pub open spec fn timed_out(&self, before: &PassphraseKeyboard) -> bool {
        &&& self.input.textbox == before.input.textbox
        &&& self.input.multi_tap == before.input.multi_tap.cleared()
        &&& self.input.area == before.input.area
        &&& self.input.dirty == (before.input.dirty || before.input.multi_tap.pending is Some)
        &&& self.back == before.back
        &&& self.confirm == before.confirm
        &&& self.keys == before.keys
        &&& self.scrollbar == before.scrollbar
        &&& self.fade == before.fade
    }

    /// The keyboard after the touch event `event`, where it completes no
    /// swipe: first the controls follow the event, then the one that it
    /// clicks, if any, is used. `timer` is the timer that a press of a key
    /// starts. A paint pass is asked for (`paint_after`) if one was
    /// (`paint_before`), if a control has changed its state, or if the use of
    /// the control has left something new to draw.
    pub open spec fn touched(
        &self,
        before: &PassphraseKeyboard,
        event: Event,
        timer: TimerToken,
        paint_before: bool,
        paint_after: bool,
    ) -> bool {
        exists|held: PassphraseKeyboard|
            {
                &&& #[trigger] held.followed(before, event)
                &&& match before.hit(event) {
                    Some(control) => self.used(&held, control, timer) && paint_after == (
                    paint_before || held.differs_from(before) || self.redraws(&held, control)),
                    None => *self == held && paint_after == (paint_before || held.differs_from(
                        before,
                    )),
                }
            }
    }

    /// The control that `event` is a use of, if it is one: the control it
    /// clicks, unless it is a timeout or completes a swipe.
    pub open spec fn control_on(&self, event: Event) -> Option<PassphraseControl> {
        if self.input.multi_tap.spec_is_timeout_event(event) || self.page_swipe.recognized(
            event,
        ) is Some {
            None
        } else {
            self.hit(event)
        }
    }

    /// What the keyboard says to `event`: how the use of a control ends the
    /// entry, if the event is one and it does.
    pub open spec fn reply(&self, event: Event) -> Option<PassphraseKeyboardMsg> {
        match self.control_on(event) {
            Some(control) => self.answer(control),
            None => None,
        }
    }

    /// The text after `event`: only the use of a control changes it.
    pub open spec fn text_on(&self, event: Event) -> Seq<u8> {
        match self.control_on(event) {
            Some(control) => self.text_after(control),
            None => self.text(),
        }
    }

    /// The page shown after `event`: only a swipe turns it.
    pub open spec fn page_on(&self, event: Event) -> usize {
        if self.input.multi_tap.spec_is_timeout_event(event) {
            self.page()
        } else {
            match self.page_swipe.recognized(event) {
                Some(swipe) => page_after(self.page(), swipe),
                None => self.page(),
            }
        }
    }

    /// The delay of the timer that `event` starts, if it starts one.
    pub open spec fn timer_on(&self, event: Event) -> Option<u32> {
        match self.control_on(event) {
            Some(control) => self.timer_of(control),
            None => None,
        }
    }

}

impl Component for PassphraseKeyboard {
    type Msg = PassphraseKeyboardMsg;

    /// The event is taken as the end of the pending state, as a swipe that
    /// turns the page, or as a touch of the controls, in this order.
    open spec fn handled(
        &self,
        before: &Self,
        ctx: EventCtx,
        event: Event,
        msg: Option<PassphraseKeyboardMsg>,
        asked: EventCtx,
    ) -> bool {
        &&& msg == before.reply(event)
        &&& if before.input.multi_tap.spec_is_timeout_event(event) {
            &&& self.timed_out(before)
            &&& self.page_swipe == before.page_swipe
            &&& asked.after_requests(ctx, true, None)
        } else {
            &&& self.page_swipe == before.page_swipe.after(event)
            &&& match before.page_swipe.recognized(event) {
                Some(swipe) => self.turned(before, swipe) && asked.paint_requested,
                None => self.touched(
                    before,
                    event,
                    TimerToken { id: ctx.next_token },
                    ctx.paint_requested,
                    asked.paint_requested,
                ),
            }
            &&& asked.backlight == (match before.page_swipe.backlight_after(event) {
                Some(level) => Some(level),
                None => ctx.backlight,
            })
            &&& asked.timers_after(ctx, before.timer_on(event))
        }
    }

    /// What is entered and the page shown are as they were, and the line of
    /// text, the controls and the keys of the page shown are due to be drawn.
    /// What was drawn is up to date, and no fading of the backlight is due.
    open spec fn drawn(&self, before: &Self) -> bool {
        &&& self.input.drawn(&before.input)
        &&& self.page_swipe == before.page_swipe
        &&& self.scrollbar == before.scrollbar
        &&& !self.fade
        &&& self.confirm == before.confirm.clean()
        &&& self.back == before.back.clean()
        &&& self.keys@.len() == before.keys@.len()
        &&& forall|p: int|
            0 <= p < before.keys@.len() ==> (#[trigger] self.keys@[p])@.len() == before.keys@[p]@.len()
        &&& forall|p: int, k: int|
            0 <= p < before.keys@.len() && 0 <= k < before.keys@[p]@.len() ==> (
            #[trigger] self.keys@[p]@[k]) == (if p == before.page() {
                before.keys@[p]@[k].clean()
            } else {
                before.keys@[p]@[k]
            })
    }

    open spec fn due_for_repaint(&self, before: &Self, ctx: EventCtx, asked: EventCtx) -> bool {
        &&& self.input.area == before.input.area
        &&& self.input.textbox == before.input.textbox
        &&& self.input.multi_tap == before.input.multi_tap
        &&& self.input.dirty
        &&& asked.after_paint_request(ctx, true)
        &&& self.page_swipe == before.page_swipe
        &&& self.scrollbar == before.scrollbar
        &&& self.fade == before.fade
        &&& self.confirm == before.confirm.stale()
        &&& self.back == before.back.stale()
        &&& self.keys@.len() == before.keys@.len()
        &&& forall|p: int|
            0 <= p < before.keys@.len() ==> (#[trigger] self.keys@[p])@.len() == before.keys@[p]@.len()
        &&& forall|p: int, k: int|
            0 <= p < before.keys@.len() && 0 <= k < before.keys@[p]@.len() ==> (
            #[trigger] self.keys@[p]@[k]) == (if p == before.page() {
                before.keys@[p]@[k].stale()
            } else {
                before.keys@[p]@[k]
            })
    }

    /// What a paint pass draws: the text, the scroll bar, the controls and
    /// the keys of the page shown; and at the end the backlight fades back
    /// to normal if a page was turned since the last paint pass.
    open spec fn painted(&self) -> Seq<DrawOp> {
        self.input.painted() + self.scrollbar.painted() + self.confirm.painted()
            + self.back.painted() + buttons_painted(self.shown_keys(), KEY_COUNT as int) + (
        if self.fade {
            seq![DrawOp::FadeBacklight { level: BACKLIGHT_NORMAL }]
        } else {
            Seq::empty()
        })
    }

    /// The regions of the keyboard.
    open spec fn regions(&self) -> Seq<Rect> {
        seq![self.input.area, self.scrollbar.area, self.confirm.area, self.back.area] + Seq::new(
            self.shown_keys().len(),
            |key: int| self.shown_keys()[key].area,
        )
    }

    /// There are four pages of ten keys that stand for what [`keyboard`]
    /// says, and one of the pages is shown. The text is within its
    /// capacity; a pending character is part of it; the erase control takes
    /// touches exactly while there is a character to take back; and the
    /// recognizer allows swipes to the left and to the right, and no other.
    open spec fn inv(&self) -> bool {
        &&& keys_labelled(self.keys@)
        &&& self.scrollbar.valid()
        &&& self.scrollbar.page_count == PAGE_COUNT
        &&& self.input.textbox.wf()
        &&& (self.input.multi_tap.pending is Some ==> self.text().len() > 0)
        &&& self.back.spec_is_enabled() == (self.text().len() > 0)
        &&& self.page_swipe.allow_left
        &&& self.page_swipe.allow_right
        &&& !self.page_swipe.allow_up
        &&& !self.page_swipe.allow_down
    }

    /// Takes `event`, in this order: as the end of the pending state, if it
    /// is the expiry of the timer of the pending key; as a swipe that turns
    /// the page; as a touch of one of the controls.
    fn event(&mut self, ctx: &mut EventCtx, event: Event) -> (msg: Option<PassphraseKeyboardMsg>)
        ensures
            msg == old(self).reply(event),
            final(self).text() == old(self).text_on(event),
            final(self).page() == old(self).page_on(event),
            old(self).input.multi_tap.spec_is_timeout_event(event) ==> {
                &&& final(self).timed_out(old(self))
                &&& final(self).page_swipe == old(self).page_swipe
                &&& final(ctx).after_requests(*old(ctx), true, None)
            },
            !old(self).input.multi_tap.spec_is_timeout_event(event) ==> {
                &&& final(self).page_swipe == old(self).page_swipe.after(event)
                &&& match old(self).page_swipe.recognized(event) {
                    Some(swipe) => final(self).turned(old(self), swipe) && final(ctx).paint_requested,
                    None => final(self).touched(
                        old(self),
                        event,
                        TimerToken { id: old(ctx).next_token },
                        old(ctx).paint_requested,
                        final(ctx).paint_requested,
                    ),
                }
                &&& final(ctx).backlight == (match old(self).page_swipe.backlight_after(event) {
                    Some(level) => Some(level),
                    None => old(ctx).backlight,
                })
                &&& final(ctx).timers_after(*old(ctx), old(self).timer_on(event))
            },
    {
        if self.input.multi_tap.is_timeout_event(event) {
            self.input.clear_pending(ctx);
            return None;
        }
        if let Some(swipe) = self.page_swipe.event(ctx, event) {
            // We have detected a horizontal swipe. Change the keyboard page.
            self.on_page_swipe(ctx, swipe);
            return None;
        }
        let hit = self.click(ctx, event);
        let ghost held = *self;
        let msg = match hit {
            Some(control) => self.press(ctx, control),
            None => None,
        };
        assert(held.followed(old(self), event) && match old(self).hit(event) {
            Some(control) => self.used(&held, control, TimerToken { id: old(ctx).next_token })
                && ctx.paint_requested == (old(ctx).paint_requested || held.differs_from(old(self))
                || self.redraws(&held, control)),
            None => *self == held && ctx.paint_requested == (old(ctx).paint_requested
                || held.differs_from(old(self))),
        });
        assert(self.touched(
            old(self),
            event,
            TimerToken { id: old(ctx).next_token },
            old(ctx).paint_requested,
            ctx.paint_requested,
        ));
        msg
    }

    fn paint(&mut self, display: &mut Display)
        ensures
            final(display)@ == old(display)@ + old(self).painted(),
            final(self).text() == old(self).text(),
            final(self).input.multi_tap == old(self).input.multi_tap,
            final(self).page_swipe == old(self).page_swipe,
            final(self).scrollbar == old(self).scrollbar,
            !final(self).fade,
            !final(self).input.dirty,
            final(self).confirm == old(self).confirm.clean(),
            final(self).back == old(self).back.clean(),
            forall|k: int|
                0 <= k < KEY_COUNT ==>
                    (#[trigger] final(self).shown_keys()[k]) == old(self).shown_keys()[k].clean(),
    {
        self.input.paint(display);
        self.scrollbar.paint(display);
        self.confirm.paint(display);
        self.back.paint(display);
        let page: usize = self.scrollbar.active_page;
        paint_page(&mut self.keys, page, display);
        proof {
            lemma_same_labels(old(self).keys@, self.keys@);
        }
        let ghost faded = if self.fade {
            seq![DrawOp::FadeBacklight { level: BACKLIGHT_NORMAL }]
        } else {
            Seq::empty()
        };
        let ghost before_fade = display@;
        if self.fade {
            self.fade = false;
            // Note that this is blocking and takes some time.
            display.fade_backlight(BACKLIGHT_NORMAL);
        }
        proof {
            assert(display@ =~= before_fade + faded);
            lemma_appended_in_turn(
                old(display)@,
                old(self).input.painted(),
                old(self).scrollbar.painted(),
                old(self).confirm.painted(),
                old(self).back.painted(),
                buttons_painted(old(self).shown_keys(), KEY_COUNT as int),
                faded,
            );
        }
    }

    fn bounds(&self, sink: &mut Vec<Rect>)
        ensures
            final(sink)@ == old(sink)@ + self.regions(),
    {
        self.input.bounds(sink);
        self.scrollbar.bounds(sink);
        self.confirm.bounds(sink);
        self.back.bounds(sink);
        let page: usize = self.scrollbar.active_page;
        bounds_of_all(&self.keys[page], sink);
        assert(sink@ =~= old(sink)@ + self.regions());
    }

    fn request_complete_repaint(&mut self, ctx: &mut EventCtx)
        ensures
            final(self).text() == old(self).text(),
            final(self).input.multi_tap == old(self).input.multi_tap,
            final(self).page() == old(self).page(),
            final(self).input.dirty,
            final(self).confirm == old(self).confirm.stale(),
            final(self).back == old(self).back.stale(),
    {
        self.input.request_complete_repaint(ctx);
        self.confirm.request_complete_repaint(ctx);
        self.back.request_complete_repaint(ctx);
        let page: usize = self.scrollbar.active_page;
        stale_all(&mut self.keys[page], ctx);
        proof {
            lemma_same_labels(old(self).keys@, self.keys@);
        }
    }
}

impl Trace for PassphraseKeyboard {
    open spec fn traced(&self) -> Seq<u8> {
        opening("PassphraseKeyboard") + closing()
    }

    fn trace(&self, t: &mut Tracer) {
        t.open("PassphraseKeyboard");
        t.close();
        assert(t@ =~= old(t)@ + self.traced());
    }
}

/// A swipe along the keys turns the page by one, and nothing else. Take a
/// keyboard in order that follows a touch which began at `origin`, and let
/// the finger be lifted at `end`, further away sideways than up or down. If
/// it is more than [`SWIPE_THRESHOLD`] away, the page after the one shown is
/// shown for a swipe to the left and the page before it for a swipe to the
/// right, the first page following the last; the keyboard says nothing, and
/// the text stays as it is. If it is not that far away, the page stays.
pub proof fn lemma_swipe_turns_one_page(keyboard: PassphraseKeyboard, origin: Point, end: Point)
    requires
        keyboard.inv(),
        keyboard.page_swipe.origin == Some(origin),
        abs(end.x - origin.x) > abs(end.y - origin.y),
    ensures
        ({
            let lifted = Event::Touch(TouchEvent::TouchEnd(end));
            let page = keyboard.page() as int;
            if abs(end.x - origin.x) > SWIPE_THRESHOLD {
                &&& keyboard.page_on(lifted) == (if end.x < origin.x {
                    (page + 1) % 4
                } else {
                    (page + 3) % 4
                })
                &&& keyboard.reply(lifted) is None
                &&& keyboard.text_on(lifted) == keyboard.text()
            } else {
                keyboard.page_on(lifted) == page
            }
        }),
{
}

} // verus!
