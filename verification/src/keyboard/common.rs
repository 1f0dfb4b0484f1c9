//! Text entry with keys that stand for several characters each.
//!
//! The first press of such a key enters the first of its characters. While
//! that character is pending, each further press of the same key replaces it
//! with the next character of the key, and after the last with the first
//! again. The character stops being pending when another key is pressed, when
//! a second has passed without a press, or when the keyboard says so.
use vstd::prelude::*;
use crate::event::{Event, EventCtx, TimerToken};

verus! {

/// How long a character stays pending without a press, in milliseconds.
pub const PENDING_TIMEOUT_MS: u32 = 1000;

/// The height of the line above the keys of a keyboard.
pub const HEADER_HEIGHT: i32 = 25;

/// The free space left and right of that line.
pub const HEADER_PADDING_SIDE: i32 = 5;

/// The free space between that line and the keys.
pub const HEADER_PADDING_BOTTOM: i32 = 12;

/// A change to the end of a text.
#[derive(Clone, Copy, Debug, PartialEq, Eq, Structural)]
pub enum TextEdit {
    /// Put the character in the place of the last one.
    ReplaceLast(u8),
    /// Put the character after the last one.
    Append(u8),
}

/// `text` after `edit`, where a text holds `capacity` characters at most.
/// An edit that would make the text longer than that leaves it as it is.
/// To replace the last character of an empty text is to append to it.
pub open spec fn edited(text: Seq<u8>, edit: TextEdit, capacity: nat) -> Seq<u8> {
    match edit {
        TextEdit::Append(ch) => if text.len() < capacity {
            text.push(ch)
        } else {
            text
        },
        TextEdit::ReplaceLast(ch) => if text.len() > 0 {
            text.drop_last().push(ch)
        } else if capacity > 0 {
            seq![ch]
        } else {
            text
        },
    }
}

/// Whether `edit` can be made to `text`: it cannot where it would make the
/// text longer than `capacity`.
pub open spec fn fits(text: Seq<u8>, edit: TextEdit, capacity: nat) -> bool {
    match edit {
        TextEdit::Append(_) => text.len() < capacity,
        TextEdit::ReplaceLast(_) => text.len() > 0 || capacity > 0,
    }
}

/// A text of at most `L` characters that is edited at its end.
pub struct TextBox<const L: usize> {
    text: Vec<u8>,
}

impl<const L: usize> View for TextBox<L> {
    type V = Seq<u8>;

    closed spec fn view(&self) -> Seq<u8> {
        self.text@
    }
}

impl<const L: usize> TextBox<L> {
    /// The text is no longer than `L` characters.
    pub open spec fn wf(&self) -> bool {
        self@.len() <= L
    }

    /// An empty text.
    pub fn empty() -> (t: Self)
        ensures
            t@ == Seq::<u8>::empty(),
            t.wf(),
    {
        TextBox { text: Vec::new() }
    }

    /// The characters of the text.
    pub fn content(&self) -> (c: &[u8])
        ensures
            c@ == self@,
    {
        self.text.as_slice()
    }

    /// The number of characters.
    pub fn len(&self) -> (n: usize)
        ensures
            n == self@.len(),
    {
        self.text.len()
    }

    pub fn is_empty(&self) -> (b: bool)
        ensures
            b == (self@.len() == 0),
    {
        self.text.len() == 0
    }

    /// Deletes the last character, if there is one, and asks for a paint pass if there was.
    pub fn delete_last(&mut self, ctx: &mut EventCtx)
        requires
            old(self).wf(),
        ensures
            final(self).wf(),
            final(self)@ == (if old(self)@.len() > 0 {
                old(self)@.drop_last()
            } else {
                old(self)@
            }),
            final(ctx).after_paint_request(*old(ctx), old(self)@.len() > 0),
    {
        let changed = self.text.pop().is_some();
        if changed {
            ctx.request_paint();
        }
    }

    /// Replaces the last character by `ch`; appends `ch` to an empty text.
    /// Says whether the text took the edit, and asks for a paint pass if it did.
    pub fn replace_last(&mut self, ctx: &mut EventCtx, ch: u8) -> (applied: bool)
        requires
            old(self).wf(),
        ensures
            final(self).wf(),
            applied == fits(old(self)@, TextEdit::ReplaceLast(ch), L as nat),
            final(self)@ == edited(old(self)@, TextEdit::ReplaceLast(ch), L as nat),
            final(ctx).after_paint_request(*old(ctx), applied),
    {
        if self.text.len() > 0 {
            self.text.pop();
            self.text.push(ch);
            ctx.request_paint();
            true
        } else if L > 0 {
            self.text.push(ch);
            assert(self.text@ =~= seq![ch]);
            ctx.request_paint();
            true
        } else {
            false
        }
    }

    /// Appends `ch` unless the text is full. Says whether the text took the
    /// edit, and asks for a paint pass if it did.
    pub fn append(&mut self, ctx: &mut EventCtx, ch: u8) -> (applied: bool)
        requires
            old(self).wf(),
        ensures
            final(self).wf(),
            applied == fits(old(self)@, TextEdit::Append(ch), L as nat),
            final(self)@ == edited(old(self)@, TextEdit::Append(ch), L as nat),
            final(ctx).after_paint_request(*old(ctx), applied),
    {
        if self.text.len() < L {
            self.text.push(ch);
            ctx.request_paint();
            true
        } else {
            false
        }
    }

    /// Empties the text, and asks for a paint pass.
    pub fn clear(&mut self, ctx: &mut EventCtx)
        ensures
            final(self).wf(),
            final(self)@ == Seq::<u8>::empty(),
            final(ctx).after_paint_request(*old(ctx), true),
    {
        self.text.clear();
        ctx.request_paint();
    }

    /// Makes `edit`. Says whether the text took it, and asks for a paint pass if it did.
    pub fn apply(&mut self, ctx: &mut EventCtx, edit: TextEdit) -> (applied: bool)
        requires
            old(self).wf(),
        ensures
            final(self).wf(),
            applied == fits(old(self)@, edit, L as nat),
            final(self)@ == edited(old(self)@, edit, L as nat),
            final(ctx).after_paint_request(*old(ctx), applied),
    {
        match edit {
            TextEdit::ReplaceLast(ch) => self.replace_last(ctx, ch),
            TextEdit::Append(ch) => self.append(ctx, ch),
        }
    }
}

/// A key whose character is pending.
#[derive(Clone, Copy, Debug, PartialEq, Eq, Structural)]
pub struct Pending {
    /// The number of the key.
    pub key: usize,
    /// The position of the pending character among the characters of the key.
    pub press: usize,
    /// The timer that ends the pending state.
    pub timer: TimerToken,
}

/// Which key is pending, if any. There is never more than one.
#[derive(Clone, Copy, Debug, PartialEq, Eq, Structural)]
pub struct MultiTapKeyboard {
    /// How long a character stays pending without a press, in milliseconds.
    pub timeout_ms: u32,
    pub pending: Option<Pending>,
}

impl MultiTapKeyboard {
    /// A keyboard on which no key is pending.
    pub fn new() -> (k: MultiTapKeyboard)
        ensures
            k == (MultiTapKeyboard { timeout_ms: PENDING_TIMEOUT_MS, pending: None }),
    {
        MultiTapKeyboard { timeout_ms: PENDING_TIMEOUT_MS, pending: None }
    }

    /// The number of the pending key, if one is pending.
    pub fn pending_key(&self) -> (key: Option<usize>)
        ensures
            key == (match self.pending {
                Some(p) => Some(p.key),
                None => None,
            }),
    {
        match self.pending {
            Some(p) => Some(p.key),
            None => None,
        }
    }

    /// The position of the pending character among those of its key.
    pub fn pending_press(&self) -> (press: Option<usize>)
        ensures
            press == (match self.pending {
                Some(p) => Some(p.press),
                None => None,
            }),
    {
        match self.pending {
            Some(p) => Some(p.press),
            None => None,
        }
    }

    /// The token of the timer that ends the pending state.
    pub fn pending_timer(&self) -> (timer: Option<TimerToken>)
        ensures
            timer == (match self.pending {
                Some(p) => Some(p.timer),
                None => None,
            }),
    {
        match self.pending {
            Some(p) => Some(p.timer),
            None => None,
        }
    }

    /// Whether `event` says that the pending state has timed out: it is the
    /// expiry of the very timer that was started with the last press. No
    /// other timer counts.
    pub open spec fn spec_is_timeout_event(&self, event: Event) -> bool {
        match (event, self.pending) {
            (Event::Timer(t), Some(p)) => p.timer == t,
            _ => false,
        }
    }

    #[verifier::when_used_as_spec(spec_is_timeout_event)]
    pub fn is_timeout_event(&self, event: Event) -> (b: bool)
        ensures
            b == self.spec_is_timeout_event(event),
    {
        match (event, self.pending) {
            (Event::Timer(t), Some(p)) => p.timer.id == t.id,
            _ => false,
        }
    }

    /// The keyboard with no key pending.
    pub open spec fn cleared(self) -> MultiTapKeyboard {
        MultiTapKeyboard { pending: None, ..self }
    }

    /// Ends the pending state, and asks for a paint pass if a key was pending.
    pub fn clear_pending_state(&mut self, ctx: &mut EventCtx)
        ensures
            *final(self) == old(self).cleared(),
            final(ctx).after_paint_request(*old(ctx), old(self).pending is Some),
    {
        if self.pending.is_some() {
            self.pending = None;
            ctx.request_paint();
        }
    }

    /// The position, among the characters `key_text` of key `key`, of the
    /// character that a press of that key enters: the one after the pending
    /// character where the key is pending, the first after the last; and
    /// the first where the key is not pending.
    pub open spec fn press_of(self, key: usize, key_text: Seq<u8>) -> int {
        match self.pending {
            Some(p) if p.key == key => ((p.press as int) % (key_text.len() as int) + 1) % (
            key_text.len() as int),
            _ => 0,
        }
    }

    /// What a press of key `key` with the characters `key_text` does to the
    /// text: where the key is pending, its next character replaces the
    /// pending one; else its first character is appended.
    pub open spec fn edit_of(self, key: usize, key_text: Seq<u8>) -> TextEdit {
        match self.pending {
            Some(p) if p.key
                == key => TextEdit::ReplaceLast(key_text[self.press_of(key, key_text)]),
            _ => TextEdit::Append(key_text[0]),
        }
    }

    /// The keyboard after a press of key `key` with the characters
    /// `key_text`, where `timer` is the timer started with the press: the
    /// key is pending if it has more than one character, and else no key is.
    pub open spec fn pressed(
        self,
        key: usize,
        key_text: Seq<u8>,
        timer: TimerToken,
    ) -> MultiTapKeyboard {
        MultiTapKeyboard {
            pending: if key_text.len() > 1 {
                Some(Pending { key, press: self.press_of(key, key_text) as usize, timer })
            } else {
                None
            },
            ..self
        }
    }

    /// Takes a press of key `key`, whose characters are `key_text`; a key
    /// has at least one. Returns the edit to make to the text. If the key has
    /// more than one character, it is pending from now on, and a timer is
    /// asked for that ends the pending state.
    pub fn click_key(&mut self, ctx: &mut EventCtx, key: usize, key_text: &[u8]) -> (edit: TextEdit)
        requires
            key_text@.len() > 0,
        ensures
            edit == old(self).edit_of(key, key_text@),
            *final(self) == old(self).pressed(
                key,
                key_text@,
                TimerToken { id: old(ctx).next_token },
            ),
            key_text@.len() > 1 ==> final(ctx).after_timer_request(*old(ctx), old(self).timeout_ms),
            key_text@.len() <= 1 ==> *final(ctx) == *old(ctx),
    {
        let (is_pending, press) = match self.pending {
            Some(p) => {
                if p.key == key {
                    // This key is pending. Cycle the last inserted character through the
                    // key content.
                    let next: usize = (p.press % key_text.len() + 1) % key_text.len();
                    (true, next)
                } else {
                    (false, 0)
                }
            },
            // This key is not pending. Append the first character in the key.
            None => (false, 0),
        };
        // If the key has more then one character, we need to set it as pending, so we
        // can cycle through on the repeated clicks. We also request a timer so we can
        // reset the pending state after a deadline.
        self.pending = if key_text.len() > 1 {
            Some(Pending { key, press, timer: ctx.request_timer(self.timeout_ms) })
        } else {
            None
        };
        let ch = key_text[press];
        if is_pending {
            TextEdit::ReplaceLast(ch)
        } else {
            TextEdit::Append(ch)
        }
    }
}

/// No cycling across the timeout. Take a keyboard on which key `key` is not
/// pending and a text with room for two more characters. Press the key,
/// let the pending state time out, and press the key again: the text has
/// grown by the first character of the key, twice.
///
/// `first` and `second` are the timers started with the two presses.
pub proof fn lemma_no_cycling_across_timeout(
    keyboard: MultiTapKeyboard,
    text: Seq<u8>,
    capacity: nat,
    key: usize,
    key_text: Seq<u8>,
    first: TimerToken,
    second: TimerToken,
)
    requires
        key_text.len() > 0,
        text.len() + 2 <= capacity,
        !(keyboard.pending matches Some(p) && p.key == key),
    ensures
        ({
            let once = keyboard.pressed(key, key_text, first);
            let text_once = edited(text, keyboard.edit_of(key, key_text), capacity);
            let waited = once.cleared();
            let twice = waited.pressed(key, key_text, second);
            let text_twice = edited(text_once, waited.edit_of(key, key_text), capacity);
            &&& (key_text.len() > 1 ==> once.spec_is_timeout_event(Event::Timer(first)))
            &&& (key_text.len() <= 1 ==> once.pending is None)
            &&& waited.pending is None
            &&& text_twice == text.push(key_text[0]).push(key_text[0])
        }),
{
}

} // verus!
