//! Events, and the side channel through which a component that handles one
//! asks its owner for something.
use vstd::prelude::*;
use crate::geometry::Point;

verus! {

/// What the touch panel reports.
#[derive(Clone, Copy, Debug, PartialEq, Eq, Structural)]
pub enum TouchEvent {
    /// A finger came down at the point.
    TouchStart(Point),
    /// The finger moved to the point.
    TouchMove(Point),
    /// The finger was lifted at the point.
    TouchEnd(Point),
}

/// The name of a timer. An expired timer comes back as an [`Event::Timer`] with its token.
#[derive(Clone, Copy, Debug, PartialEq, Eq, Structural)]
pub struct TimerToken {
    pub id: u32,
}

/// What a component is told.
#[derive(Clone, Copy, Debug, PartialEq, Eq, Structural)]
pub enum Event {
    Touch(TouchEvent),
    /// The timer with this token has expired.
    Timer(TimerToken),
}

/// A timer that was asked for and not yet handed to the owner.
#[derive(Clone, Copy, Debug, PartialEq, Eq, Structural)]
pub struct Timer {
    pub token: TimerToken,
    pub delay_ms: u32,
}

/// The most timers that can wait in an [`EventCtx`].
pub const MAX_TIMERS: usize = 4;

/// The token of the first timer of a fresh [`EventCtx`].
pub const STARTING_TIMER_TOKEN: u32 = 2;

/// What a component asks of its owner while it handles an event: a paint
/// pass, a timer, a backlight level. It carries nothing of the event itself.
pub struct EventCtx {
    /// The timers asked for, oldest first.
    pub timers: Vec<Timer>,
    /// The token that the next timer will get.
    pub next_token: u32,
    /// Whether something has changed that is worth a paint pass.
    pub paint_requested: bool,
    /// The backlight level asked for last, if any.
    pub backlight: Option<i32>,
}

impl EventCtx {
    /// `self` differs from `before` at most in that a paint pass is asked
    /// for now, and it is if `requested`.
    pub open spec fn after_paint_request(self, before: EventCtx, requested: bool) -> bool {
        &&& self.timers@ == before.timers@
        &&& self.next_token == before.next_token
        &&& self.paint_requested == (before.paint_requested || requested)
        &&& self.backlight == before.backlight
    }

    /// The token after `token` in the order in which tokens are given out.
    pub open spec fn token_after(token: u32) -> u32 {
        if token == u32::MAX {
            0
        } else {
            (token + 1) as u32
        }
    }

    /// `self` differs from `before` in that one more timer of `delay_ms`
    /// was asked for. It waits in `self` unless [`MAX_TIMERS`] were waiting.
    pub open spec fn after_timer_request(self, before: EventCtx, delay_ms: u32) -> bool {
        &&& self.timers@ == if before.timers@.len() < MAX_TIMERS {
            before.timers@.push(Timer { token: TimerToken { id: before.next_token }, delay_ms })
        } else {
            before.timers@
        }
        &&& self.next_token == Self::token_after(before.next_token)
        &&& self.paint_requested == before.paint_requested
        &&& self.backlight == before.backlight
    }

    /// The timers of `self` are those of `before` and, if `timer` gives a
    /// delay, one more with that delay, as [`Self::after_timer_request`] says.
    pub open spec fn timers_after(self, before: EventCtx, timer: Option<u32>) -> bool {
        &&& self.timers@ == match timer {
            Some(delay_ms) if before.timers@.len() < MAX_TIMERS => before.timers@.push(
                Timer { token: TimerToken { id: before.next_token }, delay_ms },
            ),
            _ => before.timers@,
        }
        &&& self.next_token == match timer {
            Some(_) => Self::token_after(before.next_token),
            None => before.next_token,
        }
    }

    /// `self` differs from `before` by what was asked for: a paint pass if
    /// `paint`, and a timer if `timer` gives its delay.
    pub open spec fn after_requests(self, before: EventCtx, paint: bool, timer: Option<u32>) -> bool {
        &&& self.timers_after(before, timer)
        &&& self.paint_requested == (before.paint_requested || paint)
        &&& self.backlight == before.backlight
    }

    /// A context in which nothing was asked for.
    pub fn new() -> (ctx: EventCtx)
        ensures
            ctx.timers@.len() == 0,
            ctx.next_token == STARTING_TIMER_TOKEN,
            !ctx.paint_requested,
            ctx.backlight is None,
    {
        EventCtx {
            timers: Vec::new(),
            next_token: STARTING_TIMER_TOKEN,
            paint_requested: false,
            backlight: None,
        }
    }

    /// Asks for a paint pass.
    pub fn request_paint(&mut self)
        ensures
            final(self).after_paint_request(*old(self), true),
    {
        self.paint_requested = true;
    }

    /// Forgets that a paint pass was asked for.
    pub fn clear_paint_requests(&mut self)
        ensures
            final(self).timers@ == old(self).timers@,
            final(self).next_token == old(self).next_token,
            !final(self).paint_requested,
            final(self).backlight == old(self).backlight,
    {
        self.paint_requested = false;
    }

    /// Asks for a timer that expires after `delay_ms` milliseconds, and
    /// returns its token. Tokens are given out in turn; after the last one
    /// the count starts again at zero. When [`MAX_TIMERS`] timers wait
    /// already, the token is still given out but the timer is dropped.
    pub fn request_timer(&mut self, delay_ms: u32) -> (token: TimerToken)
        ensures
            token.id == old(self).next_token,
            final(self).after_timer_request(*old(self), delay_ms),
    {
        let token = TimerToken { id: self.next_token };
        self.next_token = if self.next_token == u32::MAX {
            0
        } else {
            self.next_token + 1
        };
        if self.timers.len() < MAX_TIMERS {
            self.timers.push(Timer { token, delay_ms });
        }
        token
    }

    /// Hands out the timer asked for last, if one waits.
    pub fn pop_timer(&mut self) -> (timer: Option<Timer>)
        ensures
            old(self).timers@.len() == 0 ==>
                timer is None && final(self).timers@ == old(self).timers@,
            old(self).timers@.len() > 0 ==> timer == Some(old(self).timers@.last())
                && final(self).timers@ == old(self).timers@.drop_last(),
            final(self).next_token == old(self).next_token,
            final(self).paint_requested == old(self).paint_requested,
            final(self).backlight == old(self).backlight,
    {
        self.timers.pop()
    }

    /// Asks for the backlight to be set to `level` at once.
    pub fn set_backlight(&mut self, level: i32)
        ensures
            final(self).timers@ == old(self).timers@,
            final(self).next_token == old(self).next_token,
            final(self).paint_requested == old(self).paint_requested,
            final(self).backlight == Some(level),
    {
        self.backlight = Some(level);
    }
}

} // verus!
