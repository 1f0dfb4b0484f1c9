//! Recognition of swipe gestures.
//!
//! A touch that begins inside the area of interest and ends far enough from
//! where it began is a swipe, in the direction of the larger of its
//! horizontal and vertical displacement.
use vstd::prelude::*;
use crate::component::Component;
use crate::display::{Display, DrawOp};
use crate::event::{Event, EventCtx, TouchEvent};
use crate::geometry::{Point, Rect};
use crate::theme::{BACKLIGHT_NONE, BACKLIGHT_NORMAL};

verus! {

/// The direction in which the finger travelled.
#[derive(Clone, Copy, Debug, PartialEq, Eq, Structural)]
pub enum SwipeDirection {
    Up,
    Down,
    Left,
    Right,
}

/// The displacement that a touch must exceed to count as a swipe.
pub const SWIPE_THRESHOLD: i32 = 35;

/// The displacement at which the display is as dark as a swipe makes it.
pub const SWIPE_DISTANCE: i32 = 120;

/// The distance of `v` from zero.
pub open spec fn abs(v: int) -> int {
    if v < 0 {
        -v
    } else {
        v
    }
}

/// The direction of the displacement from `origin` to `end`: that of the axis
/// along which it is larger, the horizontal one where both are equal.
/// `None` where the finger did not move at all.
pub open spec fn heading(origin: Point, end: Point) -> Option<SwipeDirection> {
    let dx = end.x - origin.x;
    let dy = end.y - origin.y;
    if abs(dx) >= abs(dy) {
        if dx < 0 {
            Some(SwipeDirection::Left)
        } else if dx > 0 {
            Some(SwipeDirection::Right)
        } else {
            None
        }
    } else if dy < 0 {
        Some(SwipeDirection::Up)
    } else {
        Some(SwipeDirection::Down)
    }
}

/// How far the finger went from `origin` to `end` along the axis of [`heading`].
pub open spec fn reach(origin: Point, end: Point) -> int {
    if abs(end.x - origin.x) >= abs(end.y - origin.y) {
        abs(end.x - origin.x)
    } else {
        abs(end.y - origin.y)
    }
}

/// The swipe that a touch from `origin` to `end` makes, if it makes one.
pub open spec fn gesture(origin: Point, end: Point) -> Option<SwipeDirection> {
    if reach(origin, end) > SWIPE_THRESHOLD {
        heading(origin, end)
    } else {
        None
    }
}

/// The backlight level while the finger is `reach` away from where it came
/// down: from normal it falls evenly to the lowest level at
/// [`SWIPE_DISTANCE`], and stays there.
pub open spec fn dimmed(reach: int) -> i32 {
    let r = if reach > SWIPE_DISTANCE {
        SWIPE_DISTANCE as int
    } else {
        reach
    };
    ((BACKLIGHT_NORMAL * SWIPE_DISTANCE - r * (BACKLIGHT_NORMAL - BACKLIGHT_NONE))
        / (SWIPE_DISTANCE as int)) as i32
}

/// A recognizer of swipes over `area`. It reports a swipe only in a
/// direction that is allowed, and knows nothing of why one is.
#[derive(Clone, Copy, Debug, PartialEq, Eq, Structural)]
pub struct Swipe {
    pub area: Rect,
    pub allow_up: bool,
    pub allow_down: bool,
    pub allow_left: bool,
    pub allow_right: bool,
    /// Where the finger came down, while a touch is under way.
    pub origin: Option<Point>,
}

impl Swipe {
    /// A recognizer over `area` that allows no direction and sees no touch under way.
    pub open spec fn idle(area: Rect) -> Swipe {
        Swipe {
            area,
            allow_up: false,
            allow_down: false,
            allow_left: false,
            allow_right: false,
            origin: None,
        }
    }

    /// A recognizer that allows no direction yet.
    pub fn new(area: Rect) -> (s: Swipe)
        ensures
            s == Swipe::idle(area),
    {
        Swipe {
            area,
            allow_up: false,
            allow_down: false,
            allow_left: false,
            allow_right: false,
            origin: None,
        }
    }

    /// A recognizer of swipes up and down.
    pub fn vertical(area: Rect) -> (s: Swipe)
        ensures
            s == (Swipe { allow_up: true, allow_down: true, ..Swipe::idle(area) }),
    {
        Swipe::new(area).up().down()
    }

    /// A recognizer of swipes to the left and to the right.
    pub fn horizontal(area: Rect) -> (s: Swipe)
        ensures
            s == (Swipe { allow_left: true, allow_right: true, ..Swipe::idle(area) }),
    {
        Swipe::new(area).left().right()
    }

    pub fn up(self) -> (s: Swipe)
        ensures
            s == (Swipe { allow_up: true, ..self }),
    {
        Swipe { allow_up: true, ..self }
    }

    pub fn down(self) -> (s: Swipe)
        ensures
            s == (Swipe { allow_down: true, ..self }),
    {
        Swipe { allow_down: true, ..self }
    }

    pub fn left(self) -> (s: Swipe)
        ensures
            s == (Swipe { allow_left: true, ..self }),
    {
        Swipe { allow_left: true, ..self }
    }

    pub fn right(self) -> (s: Swipe)
        ensures
            s == (Swipe { allow_right: true, ..self }),
    {
        Swipe { allow_right: true, ..self }
    }

    /// Whether any direction is allowed.
    pub open spec fn is_active(self) -> bool {
        self.allow_up || self.allow_down || self.allow_left || self.allow_right
    }

    /// Whether swipes in direction `dir` are allowed.
    pub open spec fn allows(self, dir: SwipeDirection) -> bool {
        match dir {
            SwipeDirection::Up => self.allow_up,
            SwipeDirection::Down => self.allow_down,
            SwipeDirection::Left => self.allow_left,
            SwipeDirection::Right => self.allow_right,
        }
    }

    /// The swipe that `event` completes: the touch under way ends, it makes
    /// a [`gesture`], and the direction of that gesture is allowed.
    pub open spec fn recognized(self, event: Event) -> Option<SwipeDirection> {
        match (event, self.origin) {
            (Event::Touch(TouchEvent::TouchEnd(end)), Some(origin)) => match gesture(origin, end) {
                Some(dir) if self.allows(dir) => Some(dir),
                _ => None,
            },
            _ => None,
        }
    }

    /// The recognizer after `event`. A touch that begins inside the area is
    /// under way from then on; the end of a touch ends it. A recognizer that
    /// allows no direction takes no notice of anything.
    pub open spec fn after(self, event: Event) -> Swipe {
        if !self.is_active() {
            self
        } else {
            match event {
                Event::Touch(TouchEvent::TouchStart(pos)) if self.area.contains(pos) => Swipe {
                    origin: Some(pos),
                    ..self
                },
                Event::Touch(TouchEvent::TouchEnd(_)) => Swipe { origin: None, ..self },
                _ => self,
            }
        }
    }

    /// The backlight level that `event` calls for, if it calls for one:
    /// while the finger moves in an allowed direction the display gets
    /// darker; when a touch ends without a swipe it is normal again.
    pub open spec fn backlight_after(self, event: Event) -> Option<i32> {
        match (event, self.origin) {
            (Event::Touch(TouchEvent::TouchMove(pos)), Some(origin)) => match heading(origin, pos) {
                Some(dir) if self.allows(dir) => Some(dimmed(reach(origin, pos))),
                _ => None,
            },
            (Event::Touch(TouchEvent::TouchEnd(_)), Some(_)) => if self.recognized(event) is None
                && self.is_active() {
                Some(BACKLIGHT_NORMAL)
            } else {
                None
            },
            _ => None,
        }
    }

    /// Whether `asked` is what is asked for once the recognizer has handled
    /// `event`, where `ctx` is what was asked for before: the backlight
    /// level that the event calls for, if it calls for one, and nothing else.
    pub open spec fn asks(self, event: Event, ctx: EventCtx, asked: EventCtx) -> bool {
        &&& asked.timers@ == ctx.timers@
        &&& asked.next_token == ctx.next_token
        &&& asked.paint_requested == ctx.paint_requested
        &&& asked.backlight == match self.backlight_after(event) {
            Some(level) => Some(level),
            None => ctx.backlight,
        }
    }

    /// The recognizer after all of `events`, handled in order.
    pub open spec fn after_all(self, events: Seq<Event>) -> Swipe
        decreases events.len(),
    {
        if events.len() == 0 {
            self
        } else {
            self.after_all(events.drop_last()).after(events.last())
        }
    }

    /// The swipes reported while `events` are handled in order.
    pub open spec fn reports(self, events: Seq<Event>) -> Seq<SwipeDirection>
        decreases events.len(),
    {
        if events.len() == 0 {
            Seq::empty()
        } else {
            let earlier = self.reports(events.drop_last());
            match self.after_all(events.drop_last()).recognized(events.last()) {
                Some(dir) => earlier.push(dir),
                None => earlier,
            }
        }
    }

    fn heading_of(origin: Point, end: Point) -> (r: (Option<SwipeDirection>, i64))
        ensures
            r.0 == heading(origin, end),
            r.1 == reach(origin, end),
            0 <= r.1 <= 0xffff_ffff,
    {
        let dx: i64 = end.x as i64 - origin.x as i64;
        let dy: i64 = end.y as i64 - origin.y as i64;
        let ax: i64 = if dx < 0 { -dx } else { dx };
        let ay: i64 = if dy < 0 { -dy } else { dy };
        if ax >= ay {
            if dx < 0 {
                (Some(SwipeDirection::Left), ax)
            } else if dx > 0 {
                (Some(SwipeDirection::Right), ax)
            } else {
                (None, ax)
            }
        } else if dy < 0 {
            (Some(SwipeDirection::Up), ay)
        } else {
            (Some(SwipeDirection::Down), ay)
        }
    }

    fn is_allowed(&self, dir: SwipeDirection) -> (b: bool)
        ensures
            b == self.allows(dir),
    {
        match dir {
            SwipeDirection::Up => self.allow_up,
            SwipeDirection::Down => self.allow_down,
            SwipeDirection::Left => self.allow_left,
            SwipeDirection::Right => self.allow_right,
        }
    }

    fn dim(reach: i64) -> (level: i32)
        requires
            0 <= reach,
        ensures
            level == dimmed(reach as int),
    {
        let r: i64 = if reach > SWIPE_DISTANCE as i64 {
            SWIPE_DISTANCE as i64
        } else {
            reach
        };
        let span: i64 = (BACKLIGHT_NORMAL - BACKLIGHT_NONE) as i64;
        ((BACKLIGHT_NORMAL as i64 * SWIPE_DISTANCE as i64 - r * span) / (SWIPE_DISTANCE as i64)) as i32
    }
}

impl Component for Swipe {
    type Msg = SwipeDirection;

    open spec fn handled(
        &self,
        before: &Self,
        ctx: EventCtx,
        event: Event,
        msg: Option<SwipeDirection>,
        asked: EventCtx,
    ) -> bool {
        &&& *self == before.after(event)
        &&& msg == before.recognized(event)
        &&& before.asks(event, ctx, asked)
    }

    open spec fn drawn(&self, before: &Self) -> bool {
        *self == *before
    }

    open spec fn due_for_repaint(&self, before: &Self, ctx: EventCtx, asked: EventCtx) -> bool {
        *self == *before && asked == ctx
    }

    /// A recognizer shows nothing.
    open spec fn painted(&self) -> Seq<DrawOp> {
        Seq::empty()
    }

    open spec fn regions(&self) -> Seq<Rect> {
        seq![self.area]
    }

    /// Follows the touch. Reports the swipe that `event` completes, and asks
    /// for the backlight level that goes with the state of the touch.
    fn event(&mut self, ctx: &mut EventCtx, event: Event) -> (msg: Option<SwipeDirection>)
        ensures
            msg == old(self).recognized(event),
            *final(self) == old(self).after(event),
            final(ctx).timers@ == old(ctx).timers@,
            final(ctx).next_token == old(ctx).next_token,
            final(ctx).paint_requested == old(ctx).paint_requested,
            final(ctx).backlight == match old(self).backlight_after(event) {
                Some(level) => Some(level),
                None => old(ctx).backlight,
            },
    {
        if !(self.allow_up || self.allow_down || self.allow_left || self.allow_right) {
            return None;
        }
        match event {
            Event::Touch(TouchEvent::TouchStart(pos)) => {
                if self.area.contains(pos) {
                    self.origin = Some(pos);
                }
                None
            },
            Event::Touch(TouchEvent::TouchMove(pos)) => {
                if let Some(origin) = self.origin {
                    let (dir, reach) = Self::heading_of(origin, pos);
                    if let Some(dir) = dir {
                        if self.is_allowed(dir) {
                            ctx.set_backlight(Self::dim(reach));
                        }
                    }
                }
                None
            },
            Event::Touch(TouchEvent::TouchEnd(pos)) => {
                if let Some(origin) = self.origin {
                    self.origin = None;
                    let (dir, reach) = Self::heading_of(origin, pos);
                    if reach > SWIPE_THRESHOLD as i64 {
                        if let Some(dir) = dir {
                            if self.is_allowed(dir) {
                                return Some(dir);
                            }
                        }
                    }
                    ctx.set_backlight(BACKLIGHT_NORMAL);
                }
                None
            },
            Event::Timer(_) => None,
        }
    }

    /// A recognizer shows nothing.
    fn paint(&mut self, display: &mut Display)
        ensures
            *final(self) == *old(self),
            final(display)@ == old(display)@,
    {
    }

    fn bounds(&self, sink: &mut Vec<Rect>)
        ensures
            final(sink)@ == old(sink)@.push(self.area),
    {
        sink.push(self.area);
    }

    fn request_complete_repaint(&mut self, ctx: &mut EventCtx)
        ensures
            *final(self) == *old(self),
            *final(ctx) == *old(ctx),
    {
    }
}

/// The events of one touch: the finger comes down at `start`, passes
/// through `moves` and is lifted at `end`.
pub open spec fn touch_cycle(start: Point, moves: Seq<Point>, end: Point) -> Seq<Event> {
    seq![Event::Touch(TouchEvent::TouchStart(start))] + moves.map_values(
        |p: Point| Event::Touch(TouchEvent::TouchMove(p)),
    ) + seq![Event::Touch(TouchEvent::TouchEnd(end))]
}

/// While the finger only moves, a touch under way stays under way with the
/// same origin, and nothing is reported.
pub proof fn lemma_moves_report_nothing(swipe: Swipe, events: Seq<Event>)
    requires
        forall|i: int|
            0 <= i < events.len() ==> (#[trigger] events[i]) matches Event::Touch(
                TouchEvent::TouchMove(_),
            ),
    ensures
        swipe.after_all(events) == swipe,
        swipe.reports(events) == Seq::<SwipeDirection>::empty(),
    decreases events.len(),
{
    if events.len() > 0 {
        lemma_moves_report_nothing(swipe, events.drop_last());
    }
}

/// Handling `earlier` and then `event` is handling `earlier.push(event)`.
pub proof fn lemma_after_push(swipe: Swipe, earlier: Seq<Event>, event: Event)
    ensures
        swipe.after_all(earlier.push(event)) == swipe.after_all(earlier).after(event),
        swipe.reports(earlier.push(event)) == match swipe.after_all(earlier).recognized(event) {
            Some(dir) => swipe.reports(earlier).push(dir),
            None => swipe.reports(earlier),
        },
{
    assert(earlier.push(event).drop_last() =~= earlier);
}

/// Handling `first` and then `rest` is handling them one after the other.
pub proof fn lemma_after_first(swipe: Swipe, first: Event, rest: Seq<Event>)
    ensures
        swipe.after_all(seq![first] + rest) == swipe.after(first).after_all(rest),
        swipe.reports(seq![first] + rest) == (match swipe.recognized(first) {
            Some(dir) => seq![dir],
            None => Seq::<SwipeDirection>::empty(),
        }) + swipe.after(first).reports(rest),
    decreases rest.len(),
{
    let all = seq![first] + rest;
    if rest.len() == 0 {
        assert(all =~= seq![first]);
        assert(all.drop_last() =~= Seq::<Event>::empty());
        assert(swipe.after_all(all.drop_last()) == swipe);
        assert(swipe.reports(all.drop_last()) =~= Seq::<SwipeDirection>::empty());
        assert(swipe.after(first).reports(rest) =~= Seq::<SwipeDirection>::empty());
        match swipe.recognized(first) {
            Some(dir) => {
                assert(swipe.reports(all) =~= seq![dir]);
            },
            None => {},
        }
    } else {
        lemma_after_first(swipe, first, rest.drop_last());
        assert(all.drop_last() =~= seq![first] + rest.drop_last());
        assert(all.last() == rest.last());
        let head = match swipe.recognized(first) {
            Some(dir) => seq![dir],
            None => Seq::<SwipeDirection>::empty(),
        };
        let mid = swipe.after(first).reports(rest.drop_last());
        match swipe.after(first).after_all(rest.drop_last()).recognized(rest.last()) {
            Some(dir) => {
                assert((head + mid).push(dir) =~= head + mid.push(dir));
            },
            None => {},
        }
    }
}

/// One touch, one swipe at most: a recognizer that allows all four
/// directions, told of a touch that begins inside its area, reports exactly
/// one swipe if the finger is lifted more than [`SWIPE_THRESHOLD`] from
/// where it came down, along the axis on which it went further, and reports
/// nothing otherwise. Where the finger went in between does not matter.
/// Afterwards no touch is under way.
pub proof fn lemma_one_swipe_per_touch(swipe: Swipe, start: Point, moves: Seq<Point>, end: Point)
    requires
        swipe.allow_up && swipe.allow_down && swipe.allow_left && swipe.allow_right,
        swipe.area.contains(start),
    ensures
        reach(start, end) > SWIPE_THRESHOLD ==> heading(start, end) is Some && swipe.reports(
            touch_cycle(start, moves, end),
        ) == seq![heading(start, end)->0],
        reach(start, end) <= SWIPE_THRESHOLD ==> swipe.reports(touch_cycle(start, moves, end))
            == Seq::<SwipeDirection>::empty(),
        swipe.after_all(touch_cycle(start, moves, end)).origin is None,
{
    let first = Event::Touch(TouchEvent::TouchStart(start));
    let last = Event::Touch(TouchEvent::TouchEnd(end));
    let between = moves.map_values(|p: Point| Event::Touch(TouchEvent::TouchMove(p)));
    let down = swipe.after(first);
    assert(down.origin == Some(start));
    assert(swipe.recognized(first) is None);
    assert(touch_cycle(start, moves, end) =~= seq![first] + between.push(last));
    lemma_after_first(swipe, first, between.push(last));
    lemma_after_push(down, between, last);
    lemma_moves_report_nothing(down, between);
    assert(Seq::<SwipeDirection>::empty() + down.reports(between.push(last)) =~= down.reports(
        between.push(last),
    ));
    match down.recognized(last) {
        Some(dir) => {
            assert(Seq::<SwipeDirection>::empty().push(dir) =~= seq![dir]);
        },
        None => {},
    }
}

} // verus!
