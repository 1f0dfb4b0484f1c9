//! The scroll bar: which of a number of pages is shown.
use vstd::prelude::*;
use crate::component::{Component, Never};
use crate::display::{Display, DrawOp};
use crate::event::{Event, EventCtx};
use crate::geometry::{sat, saturate, Alignment, Axis, LinearLayout, Offset, Point, Rect};
use crate::swipe::SwipeDirection;
use crate::theme::{Icon, BG, FG};

verus! {

/// The width and the height of a dot.
pub const DOT_SIZE: i32 = 6;

/// The free space between two dots.
pub const DOT_INTERVAL: i32 = 6;

/// The free space between the outermost dot and the middle of an arrow.
pub const ARROW_SPACE: i32 = 26;

/// A row of dots, one for each page, with the dot of the page shown set off
/// from the others; optionally with an arrow at each end where there is a
/// page to go to.
#[derive(Clone, Copy, Debug, PartialEq, Eq, Structural)]
pub struct ScrollBar {
    pub area: Rect,
    /// How the dots are laid out in the area.
    pub layout: LinearLayout,
    pub arrows: bool,
    pub page_count: usize,
    pub active_page: usize,
}

impl ScrollBar {
    /// There is a page, and the page shown is one of the pages.
    pub open spec fn valid(self) -> bool {
        1 <= self.page_count && self.active_page < self.page_count
    }

    /// How the dots of a scroll bar along `axis` are laid out: in the
    /// middle of the area, [`DOT_INTERVAL`] apart.
    pub open spec fn dots_along(axis: Axis) -> LinearLayout {
        LinearLayout { axis, align: Alignment::Center, spacing: DOT_INTERVAL }
    }

    /// A scroll bar without arrows, with the dots in the middle of the area
    /// along the axis of `layout`. There is at least one page, and the page
    /// shown is one of the pages.
    pub fn new(
        layout: LinearLayout,
        area: Rect,
        page_count: usize,
        active_page: usize,
    ) -> (bar: ScrollBar)
        requires
            1 <= page_count,
            active_page < page_count,
        ensures
            bar == (ScrollBar {
                area,
                layout: ScrollBar::dots_along(layout.axis),
                arrows: false,
                page_count,
                active_page,
            }),
            bar.valid(),
    {
        let layout = layout.align_at_center().with_spacing(DOT_INTERVAL);
        ScrollBar { area, layout, arrows: false, page_count, active_page }
    }

    /// A scroll bar whose dots run from top to bottom.
    pub fn vertical(area: Rect, page_count: usize, active_page: usize) -> (bar: ScrollBar)
        requires
            1 <= page_count,
            active_page < page_count,
        ensures
            bar == (ScrollBar {
                area,
                layout: ScrollBar::dots_along(Axis::Vertical),
                arrows: false,
                page_count,
                active_page,
            }),
            bar.valid(),
    {
        ScrollBar::new(LinearLayout::vertical(), area, page_count, active_page)
    }

    /// A scroll bar whose dots run from left to right.
    pub fn horizontal(area: Rect, page_count: usize, active_page: usize) -> (bar: ScrollBar)
        requires
            1 <= page_count,
            active_page < page_count,
        ensures
            bar == (ScrollBar {
                area,
                layout: ScrollBar::dots_along(Axis::Horizontal),
                arrows: false,
                page_count,
                active_page,
            }),
            bar.valid(),
    {
        ScrollBar::new(LinearLayout::horizontal(), area, page_count, active_page)
    }

    /// The same scroll bar with arrows.
    pub fn with_arrows(self) -> (bar: ScrollBar)
        ensures
            bar == (ScrollBar { arrows: true, ..self }),
    {
        ScrollBar { arrows: true, ..self }
    }

    /// Whether there is more than one page.
    pub fn has_pages(&self) -> (b: bool)
        ensures
            b == (self.page_count > 1),
    {
        self.page_count > 1
    }

    pub open spec fn spec_has_next_page(&self) -> bool {
        self.active_page + 1 < self.page_count
    }

    /// Whether a page follows the one shown.
    #[verifier::when_used_as_spec(spec_has_next_page)]
    pub fn has_next_page(&self) -> (b: bool)
        ensures
            b == self.spec_has_next_page(),
    {
        self.page_count > 0 && self.active_page < self.page_count - 1
    }

    pub open spec fn spec_has_previous_page(&self) -> bool {
        self.active_page > 0
    }

    /// Whether a page precedes the one shown.
    #[verifier::when_used_as_spec(spec_has_previous_page)]
    pub fn has_previous_page(&self) -> (b: bool)
        ensures
            b == self.spec_has_previous_page(),
    {
        self.active_page > 0
    }

    /// The scroll bar one page further, or as it is on the last page.
    pub open spec fn next_page(self) -> ScrollBar {
        if self.active_page + 1 < self.page_count {
            ScrollBar { active_page: (self.active_page + 1) as usize, ..self }
        } else {
            self
        }
    }

    /// The scroll bar one page back, or as it is on the first page.
    pub open spec fn previous_page(self) -> ScrollBar {
        if self.active_page > 0 {
            ScrollBar { active_page: (self.active_page - 1) as usize, ..self }
        } else {
            self
        }
    }

    /// The scroll bar after a swipe: a swipe up brings the next page, a
    /// swipe down the previous one, and any other swipe changes nothing.
    pub open spec fn scrolled(self, swipe: SwipeDirection) -> ScrollBar {
        match swipe {
            SwipeDirection::Up => self.next_page(),
            SwipeDirection::Down => self.previous_page(),
            _ => self,
        }
    }

    /// The scroll bar after all of `swipes`, in order.
    pub open spec fn scrolled_all(self, swipes: Seq<SwipeDirection>) -> ScrollBar
        decreases swipes.len(),
    {
        if swipes.len() == 0 {
            self
        } else {
            self.scrolled_all(swipes.drop_last()).scrolled(swipes.last())
        }
    }

    /// Goes to the next page, if there is one.
    pub fn go_to_next_page(&mut self)
        requires
            old(self).valid(),
        ensures
            *final(self) == old(self).next_page(),
            final(self).valid(),
    {
        let last: usize = self.page_count - 1;
        let next: usize = if self.active_page < last {
            self.active_page + 1
        } else {
            last
        };
        self.go_to(next);
    }

    /// Goes to the previous page, if there is one.
    pub fn go_to_previous_page(&mut self)
        requires
            old(self).valid(),
        ensures
            *final(self) == old(self).previous_page(),
            final(self).valid(),
    {
        let previous: usize = if self.active_page > 0 {
            self.active_page - 1
        } else {
            0
        };
        self.go_to(previous);
    }

    /// Goes to the page with the given number. There is no page past the last.
    pub fn go_to(&mut self, active_page: usize)
        requires
            active_page < old(self).page_count,
        ensures
            *final(self) == (ScrollBar { active_page, ..*old(self) }),
            final(self).valid(),
    {
        self.active_page = active_page;
    }

    /// The top-left corner of the dot of page `i`.
    pub open spec fn dot_position(self, i: int) -> Point {
        self.layout.spec_place(
            self.area,
            self.page_count as int,
            Offset { x: DOT_SIZE, y: DOT_SIZE },
            i,
        )
    }

    /// The dot of page `i`.
    pub open spec fn dot(self, i: int) -> DrawOp {
        DrawOp::Icon {
            at: self.dot_position(i),
            align: Alignment::Start,
            icon: if i == self.active_page {
                Icon::DotActive
            } else {
                Icon::DotInactive
            },
            fg: FG,
            bg: BG,
        }
    }

    /// How far from the middle of the area the middle of an arrow lies: as
    /// far as the left edge of the first dot lies left of the middle, and
    /// [`ARROW_SPACE`] more. The distance is measured from left to right
    /// whichever way the dots run.
    pub open spec fn arrow_distance(self) -> int {
        self.area.spec_center().x - self.dot_position(0).x + ARROW_SPACE
    }

    /// The middle of the arrow towards the next page (`forward`) or towards
    /// the previous one: on the line through the middle of the area along
    /// which the dots run, [`Self::arrow_distance`] from the middle.
    pub open spec fn arrow_position(self, forward: bool) -> Point {
        let c = self.area.spec_center();
        let along = if forward {
            self.arrow_distance()
        } else {
            -self.arrow_distance()
        };
        match self.layout.axis {
            Axis::Horizontal => Point { x: sat(c.x + along), y: c.y },
            Axis::Vertical => Point { x: c.x, y: sat(c.y + along) },
        }
    }

    /// The arrows: one towards the previous page and one towards the next,
    /// each only if the bar has arrows and there is such a page.
    pub open spec fn arrows_painted(self) -> Seq<DrawOp> {
        let back = if self.arrows && self.active_page > 0 {
            seq![
                DrawOp::Icon {
                    at: self.arrow_position(false),
                    align: Alignment::Center,
                    icon: Icon::ScrollUp,
                    fg: FG,
                    bg: BG,
                },
            ]
        } else {
            Seq::empty()
        };
        let forth = if self.arrows && self.active_page + 1 < self.page_count {
            seq![
                DrawOp::Icon {
                    at: self.arrow_position(true),
                    align: Alignment::Center,
                    icon: Icon::ScrollDown,
                    fg: FG,
                    bg: BG,
                },
            ]
        } else {
            Seq::empty()
        };
        back + forth
    }

    fn arrow_at(&self, forward: bool) -> (p: Point)
        ensures
            p == self.arrow_position(forward),
    {
        let c = self.area.center();
        let first = self.layout.place(
            self.area,
            self.page_count,
            Offset { x: DOT_SIZE, y: DOT_SIZE },
            0,
        );
        let distance: i64 = c.x as i64 - first.x as i64 + ARROW_SPACE as i64;
        let along: i64 = if forward {
            distance
        } else {
            -distance
        };
        match self.layout.axis {
            Axis::Horizontal => Point { x: saturate(c.x as i64 + along), y: c.y },
            Axis::Vertical => Point { x: c.x, y: saturate(c.y as i64 + along) },
        }
    }
}

impl Component for ScrollBar {
    type Msg = Never;

    open spec fn handled(
        &self,
        before: &Self,
        ctx: EventCtx,
        event: Event,
        msg: Option<Never>,
        asked: EventCtx,
    ) -> bool {
        *self == *before && msg is None && asked == ctx
    }

    open spec fn drawn(&self, before: &Self) -> bool {
        *self == *before
    }

    open spec fn due_for_repaint(&self, before: &Self, ctx: EventCtx, asked: EventCtx) -> bool {
        *self == *before && asked == ctx
    }

    /// What a paint pass draws: a dot for each page, first page first, and the arrows.
    open spec fn painted(&self) -> Seq<DrawOp> {
        Seq::new(self.page_count as nat, |i: int| self.dot(i)) + self.arrows_painted()
    }

    open spec fn regions(&self) -> Seq<Rect> {
        seq![self.area]
    }

    open spec fn inv(&self) -> bool {
        self.valid()
    }

    /// A scroll bar reacts to nothing: its owner moves it.
    fn event(&mut self, ctx: &mut EventCtx, event: Event) -> (msg: Option<Never>)
        ensures
            msg is None,
            *final(self) == *old(self),
            *final(ctx) == *old(ctx),
    {
        None
    }

    /// Draws the dots and the arrows.
    fn paint(&mut self, display: &mut Display)
        ensures
            *final(self) == *old(self),
            final(display)@ == old(display)@ + old(self).painted(),
    {
        let mut i: usize = 0;
        while i < self.page_count
            invariant
                i <= self.page_count,
                *self == *old(self),
                display@ == old(display)@ + Seq::new(i as nat, |k: int| self.dot(k)),
            decreases self.page_count - i,
        {
            let at = self.layout.place(
                self.area,
                self.page_count,
                Offset { x: DOT_SIZE, y: DOT_SIZE },
                i,
            );
            let icon = if i == self.active_page {
                Icon::DotActive
            } else {
                Icon::DotInactive
            };
            display.icon(at, Alignment::Start, icon, FG, BG);
            i = i + 1;
            assert(display@ =~= old(display)@ + Seq::new(i as nat, |k: int| self.dot(k)));
        }
        if self.arrows {
            if self.has_previous_page() {
                let at = self.arrow_at(false);
                display.icon(at, Alignment::Center, Icon::ScrollUp, FG, BG);
            }
            if self.has_next_page() {
                let at = self.arrow_at(true);
                display.icon(at, Alignment::Center, Icon::ScrollDown, FG, BG);
            }
        }
        assert(display@ =~= old(display)@ + old(self).painted());
    }

    fn bounds(&self, sink: &mut Vec<Rect>)
        ensures
            final(sink)@ == old(sink)@.push(self.area),
    {
        sink.push(self.area);
    }

    /// A scroll bar is drawn in full on every paint pass.
    fn request_complete_repaint(&mut self, ctx: &mut EventCtx)
        ensures
            *final(self) == *old(self),
            *final(ctx) == *old(ctx),
    {
    }
}

/// Paging never leaves the pages: whatever swipes come, the number of pages
/// stays what it was and the page shown stays one of them. A swipe up on
/// the last page changes nothing, and neither does a swipe down on the first.
pub proof fn lemma_paging_stays_within_pages(bar: ScrollBar, swipes: Seq<SwipeDirection>)
    requires
        bar.valid(),
    ensures
        bar.scrolled_all(swipes).valid(),
        bar.scrolled_all(swipes).page_count == bar.page_count,
        bar.active_page == bar.page_count - 1 ==> bar.scrolled(SwipeDirection::Up) == bar,
        bar.active_page == 0 ==> bar.scrolled(SwipeDirection::Down) == bar,
    decreases swipes.len(),
{
    if swipes.len() > 0 {
        lemma_paging_stays_within_pages(bar, swipes.drop_last());
    }
}

} // verus!
