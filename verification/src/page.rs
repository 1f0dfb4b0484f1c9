//! Content of several pages, turned by swiping, with controls below the last page.
use vstd::prelude::*;
use vstd::string::*;
use crate::component::{Component, Dimensions, Pad, Paginate};
use crate::display::{lemma_appended_in_turn, Display, DrawOp};
use crate::event::{Event, EventCtx};
use crate::geometry::{sat, Alignment, Axis, Offset, Point, Rect};
use crate::scroll::ScrollBar;
use crate::swipe::{Swipe, SwipeDirection};
use crate::theme::{
    Color, BACKLIGHT_NORMAL, BG, BUTTON_HEIGHT, CONTENT_BORDER, FONT_BOLD, GREY_LIGHT,
};
use crate::trace::{closing, decimal, field, opening, Trace, Tracer};

verus! {

/// What a page tells its owner: what its content or its controls said.
#[derive(Debug, PartialEq, Eq)]
pub enum PageMsg<T, U> {
    Content(T),
    Controls(U),
}

impl<T, U> PageMsg<T, U> {
    /// What the page says when its content has said `content` and its
    /// controls have said `controls`: it passes on what the content said, and
    /// what the controls said only if the content said nothing.
    pub open spec fn spec_of(content: Option<T>, controls: Option<U>) -> Option<PageMsg<T, U>> {
        match (content, controls) {
            (Some(said), _) => Some(PageMsg::Content(said)),
            (None, Some(said)) => Some(PageMsg::Controls(said)),
            (None, None) => None,
        }
    }

    /// What the page says when its content has said `content` and its
    /// controls have said `controls`.
    pub fn of(content: Option<T>, controls: Option<U>) -> (msg: Option<PageMsg<T, U>>)
        ensures
            msg == PageMsg::spec_of(content, controls),
    {
        match content {
            Some(said) => Some(PageMsg::Content(said)),
            None => match controls {
                Some(said) => Some(PageMsg::Controls(said)),
                None => None,
            },
        }
    }
}

/// The free space between the content and the controls.
pub const BUTTON_SPACE: i32 = 6;

/// The width of the strip that holds the scroll bar.
pub const SCROLLBAR_WIDTH: i32 = 10;

/// The free space between the content and the scroll bar.
pub const SCROLLBAR_SPACE: i32 = 10;

/// How far above the bottom edge the hint is written.
pub const HINT_OFFSET: i32 = 3;

/// The regions of a page.
#[derive(Clone, Copy, Debug, PartialEq, Eq, Structural)]
pub struct PageLayout {
    /// Where content goes that fits on one page.
    pub content_single_page: Rect,
    /// Where content goes that takes more than one page.
    pub content: Rect,
    /// Where the scroll bar goes beside such content.
    pub scrollbar: Rect,
    /// Where the controls go.
    pub buttons: Rect,
}

impl PageLayout {
    /// The regions of a page in `area`.
    ///
    /// The controls take a row of [`BUTTON_HEIGHT`] at the bottom, short of
    /// the border on the right. The content takes what is above that row and
    /// [`BUTTON_SPACE`], with a border left and right. Where a scroll bar is
    /// needed, the content ends [`SCROLLBAR_SPACE`] before a strip of
    /// [`SCROLLBAR_WIDTH`] on the right. In an area too small for all that,
    /// each cut stops at the edge it would cross.
    pub open spec fn of(area: Rect) -> PageLayout {
        let above = area.spec_split_top(area.y1 - area.y0 - BUTTON_HEIGHT).0;
        let row = area.spec_split_top(area.y1 - area.y0 - BUTTON_HEIGHT).1;
        let tall = above.spec_split_top(above.y1 - above.y0 - BUTTON_SPACE).0;
        let buttons = row.spec_split_left(row.x1 - row.x0 - CONTENT_BORDER).0;
        let wide = tall.spec_split_left(CONTENT_BORDER as int).1;
        let single = wide.spec_split_left(wide.x1 - wide.x0 - CONTENT_BORDER).0;
        let narrow = wide.spec_split_left(wide.x1 - wide.x0 - (SCROLLBAR_SPACE + SCROLLBAR_WIDTH));
        let strip = narrow.1.spec_split_left(SCROLLBAR_SPACE as int).1;
        PageLayout { content_single_page: single, content: narrow.0, scrollbar: strip, buttons }
    }

    /// Whether `area` has room for every region.
    pub open spec fn roomy(area: Rect) -> bool {
        &&& area.x1 - area.x0 >= CONTENT_BORDER + SCROLLBAR_SPACE + SCROLLBAR_WIDTH
        &&& area.y1 - area.y0 >= BUTTON_HEIGHT + BUTTON_SPACE
    }

    /// The region for content of `page_count` pages: more than one page
    /// leaves room for the scroll bar.
    pub fn region_for(&self, page_count: usize) -> (region: Rect)
        ensures
            region == (if page_count > 1 {
                self.content
            } else {
                self.content_single_page
            }),
    {
        if page_count > 1 {
            self.content
        } else {
            self.content_single_page
        }
    }

    /// Divides `area`.
    pub fn new(area: Rect) -> (layout: PageLayout)
        ensures
            layout == PageLayout::of(area),
            PageLayout::roomy(area) ==> layout == (PageLayout {
                content_single_page: Rect {
                    x0: (area.x0 + CONTENT_BORDER) as i32,
                    y0: area.y0,
                    x1: (area.x1 - CONTENT_BORDER) as i32,
                    y1: (area.y1 - BUTTON_HEIGHT - BUTTON_SPACE) as i32,
                },
                content: Rect {
                    x0: (area.x0 + CONTENT_BORDER) as i32,
                    y0: area.y0,
                    x1: (area.x1 - SCROLLBAR_SPACE - SCROLLBAR_WIDTH) as i32,
                    y1: (area.y1 - BUTTON_HEIGHT - BUTTON_SPACE) as i32,
                },
                scrollbar: Rect {
                    x0: (area.x1 - SCROLLBAR_WIDTH) as i32,
                    y0: area.y0,
                    x1: area.x1,
                    y1: (area.y1 - BUTTON_HEIGHT - BUTTON_SPACE) as i32,
                },
                buttons: Rect {
                    x0: area.x0,
                    y0: (area.y1 - BUTTON_HEIGHT) as i32,
                    x1: (area.x1 - CONTENT_BORDER) as i32,
                    y1: area.y1,
                },
            }),
    {
        let (content, buttons) = area.split_bottom(BUTTON_HEIGHT);
        let (content, _space) = content.split_bottom(BUTTON_SPACE);
        let (buttons, _space) = buttons.split_right(CONTENT_BORDER);
        let (_space, content) = content.split_left(CONTENT_BORDER);
        let (content_single_page, _space) = content.split_right(CONTENT_BORDER);
        let (content, scrollbar) = content.split_right(SCROLLBAR_SPACE + SCROLLBAR_WIDTH);
        let (_space, scrollbar) = scrollbar.split_left(SCROLLBAR_SPACE);
        PageLayout { content_single_page, content, scrollbar, buttons }
    }
}

/// Content shown page by page. A swipe up turns to the next page and a
/// swipe down to the previous one; a scroll bar tells where one is. The
/// controls can be reached on the last page only.
pub struct SwipePage<T, U> {
    pub content: T,
    pub buttons: U,
    pub pad: Pad,
    pub swipe: Swipe,
    pub scrollbar: ScrollBar,
    /// The backlight level to fade to at the end of the next paint pass, if any.
    pub fade: Option<i32>,
}

/// The recognizer of a page with the given scroll bar: over `area`, it
/// allows a swipe up where a page follows and a swipe down where one
/// precedes, and no other.
pub open spec fn page_swipe(area: Rect, scrollbar: ScrollBar) -> Swipe {
    Swipe {
        allow_up: scrollbar.spec_has_next_page(),
        allow_down: scrollbar.spec_has_previous_page(),
        ..Swipe::idle(area)
    }
}

/// The number of pages of a scroll bar for content that reports `reported`
/// pages: content that reports none is shown as one empty page.
pub open spec fn pages_shown(reported: usize) -> usize {
    if reported == 0 {
        1
    } else {
        reported
    }
}

/// The text shown in place of the controls while pages follow.
pub open spec fn hint_text() -> Seq<u8> {
    "SWIPE TO CONTINUE".spec_bytes()
}

/// The hint drawn at the bottom of `area`.
pub open spec fn hint(area: Rect) -> DrawOp {
    DrawOp::Text {
        at: Point { x: area.spec_bottom_center().x, y: sat(area.y1 - HINT_OFFSET) },
        align: Alignment::Center,
        text: hint_text(),
        font: FONT_BOLD,
        fg: GREY_LIGHT,
        bg: BG,
    }
}

impl<T: Paginate + Dimensions, U: Component> SwipePage<T, U> {
    /// A page in `area` on the given background. `content` and `controls`
    /// make the two children, each for the region it is given. The content
    /// is fitted in as [`Self::fitted`] says and then asked for its number
    /// of pages, which the scroll bar shows. The page starts on the first
    /// page of the content.
    pub fn new<F: FnOnce(Rect) -> T, G: FnOnce(Rect) -> U>(
        area: Rect,
        background: Color,
        content: F,
        controls: G,
    ) -> (page: Self)
        requires
            call_requires(content, (PageLayout::of(area).content_single_page,)),
            forall|t: T|
                call_ensures(content, (PageLayout::of(area).content_single_page,), t) ==> t.inv(),
            call_requires(controls, (PageLayout::of(area).buttons,)),
            forall|u: U| call_ensures(controls, (PageLayout::of(area).buttons,), u) ==> u.inv(),
        ensures
            page.inv(),
            page.scrollbar.area == PageLayout::of(area).scrollbar,
            page.scrollbar.layout == ScrollBar::dots_along(Axis::Vertical),
            page.scrollbar.arrows,
            page.scrollbar.active_page == 0,
            page.swipe == page_swipe(area, page.scrollbar),
            page.pad == (Pad { area, color: background, dirty: false }),
            page.fade is None,
            call_ensures(controls, (PageLayout::of(area).buttons,), page.buttons),
            exists|made: T, page_count: usize|
                {
                    &&& Self::fitted(made, PageLayout::of(area), content)
                    &&& #[trigger] page.content.counted(&made, page_count)
                    &&& page.scrollbar.page_count == pages_shown(page_count)
                },
    {
        let layout = PageLayout::new(area);
        let ghost maker = content;
        let mut content = Self::make_content(&layout, content);
        let ghost made = content;
        let page_count = content.page_count();
        let buttons = controls(layout.buttons);
        let page = Self::assemble(area, background, &layout, content, page_count, buttons);
        assert(Self::fitted(made, PageLayout::of(area), maker) && page.content.counted(
            &made,
            page_count,
        ) && page.scrollbar.page_count == pages_shown(page_count));
        page
    }

    /// The page made of the given children, for content that reports
    /// `page_count` pages. It shows the first page.
    pub fn assemble(
        area: Rect,
        background: Color,
        layout: &PageLayout,
        content: T,
        page_count: usize,
        buttons: U,
    ) -> (page: Self)
        requires
            content.inv(),
            buttons.inv(),
        ensures
            page.inv(),
            page.content == content,
            page.buttons == buttons,
            page.scrollbar == (ScrollBar {
                area: layout.scrollbar,
                layout: ScrollBar::dots_along(Axis::Vertical),
                arrows: true,
                page_count: pages_shown(page_count),
                active_page: 0,
            }),
            page.swipe == page_swipe(area, page.scrollbar),
            page.pad == (Pad { area, color: background, dirty: false }),
            page.fade is None,
    {
        let pages: usize = if page_count == 0 {
            1
        } else {
            page_count
        };
        // Always start at the first page.
        let scrollbar = ScrollBar::vertical(layout.scrollbar, pages, 0).with_arrows();
        let swipe = Self::make_swipe(area, &scrollbar);
        let pad = Pad::with_background(area, background);
        SwipePage { content, buttons, pad, swipe, scrollbar, fade: None }
    }

    /// The recognizer that goes with `scrollbar`.
    pub fn make_swipe(area: Rect, scrollbar: &ScrollBar) -> (swipe: Swipe)
        ensures
            swipe == page_swipe(area, *scrollbar),
    {
        let mut swipe = Swipe::new(area);
        swipe.allow_up = scrollbar.has_next_page();
        swipe.allow_down = scrollbar.has_previous_page();
        swipe
    }

    /// Whether `made` is what `content` made for the region of a single
    /// page, fitted in: it was asked for its number of pages; if it
    /// reported more than one, it was moved into the narrower region beside
    /// the scroll bar; and last it was turned to its first page.
    pub open spec fn fitted<F: FnOnce(Rect) -> T>(made: T, layout: PageLayout, content: F) -> bool {
        exists|first: T, asked: T, page_count: usize, placed: T|
            #![trigger asked.counted(&first, page_count), made.turned_to(&placed, 0)]
            {
                &&& call_ensures(content, (layout.content_single_page,), first)
                &&& asked.counted(&first, page_count)
                &&& if page_count > 1 {
                    placed.moved_into(&asked, layout.content)
                } else {
                    placed == asked
                }
                &&& made.turned_to(&placed, 0)
            }
    }

    /// Makes the content and fits it in: in the region for a single page
    /// if it needs no more, and else in the narrower one beside the scroll
    /// bar. It shows its first page.
    pub fn make_content<F: FnOnce(Rect) -> T>(layout: &PageLayout, content: F) -> (made: T)
        requires
            call_requires(content, (layout.content_single_page,)),
            forall|t: T| call_ensures(content, (layout.content_single_page,), t) ==> t.inv(),
        ensures
            made.inv(),
            Self::fitted(made, *layout, content),
    {
        // Check if content fits on single page.
        let ghost maker = content;
        let mut content = content(layout.content_single_page);
        let ghost first = content;
        let page_count = content.page_count();
        let ghost asked = content;
        if page_count > 1 {
            // Reduce area to make space for scrollbar if it doesn't fit.
            content.set_area(layout.region_for(page_count));
        }
        let ghost placed = content;
        content.change_page(0);
        assert(call_ensures(maker, (layout.content_single_page,), first) && asked.counted(
            &first,
            page_count,
        ) && (if page_count > 1 {
            placed.moved_into(&asked, layout.content)
        } else {
            placed == asked
        }) && content.turned_to(&placed, 0));
        content
    }

    /// Whether `after` is the content `before` turned to page `page` and
    /// then asked to draw all of itself, where `ctx` is what was asked for
    /// before and `asked` what is asked for after.
    pub open spec fn content_turned(
        after: T,
        before: T,
        page: usize,
        ctx: EventCtx,
        asked: EventCtx,
    ) -> bool {
        exists|turned: T| #[trigger]
            turned.turned_to(&before, page) && after.due_for_repaint(&turned, ctx, asked)
    }

    /// What happens when the page shown has changed to `page`: the
    /// recognizer allows what the scroll bar now has room for; the content is
    /// turned to that page and asked to draw all of itself; the background is
    /// cleared; and the backlight, which the swipe has dimmed, is due to
    /// fade back to normal.
    pub open spec fn turned(self, before: Self, page: usize, ctx: EventCtx, asked: EventCtx) -> bool {
        &&& self.swipe == page_swipe(before.swipe.area, before.scrollbar)
        &&& Self::content_turned(self.content, before.content, page, ctx, asked)
        &&& self.pad == (Pad { dirty: true, ..before.pad })
        &&& self.fade == Some(BACKLIGHT_NORMAL)
        &&& self.scrollbar == before.scrollbar
        &&& self.buttons == before.buttons
    }

    /// Follows the scroll bar to page `page`: shows that page of the content
    /// and has all of it drawn again.
    pub fn change_page(&mut self, ctx: &mut EventCtx, page: usize)
        requires
            old(self).content.inv(),
        ensures
            final(self).turned(*old(self), page, *old(ctx), *final(ctx)),
            final(self).content.inv(),
    {
        // Adjust the swipe parameters.
        self.swipe = Self::make_swipe(self.swipe.area, &self.scrollbar);

        // Change the page in the content, make sure it gets completely repainted and
        // clear the background under it.
        self.content.change_page(page);
        let ghost turned = self.content;
        self.content.request_complete_repaint(ctx);
        assert(turned.turned_to(&old(self).content, page) && self.content.due_for_repaint(
            &turned,
            *old(ctx),
            *ctx,
        ));
        self.pad.clear();

        // Swipe has dimmed the screen, so fade back to normal backlight after the next
        // paint.
        self.fade = Some(BACKLIGHT_NORMAL);
    }

    /// Writes the hint that more pages follow.
    pub fn paint_hint(&mut self, display: &mut Display)
        ensures
            *final(self) == *old(self),
            final(display)@ == old(display)@.push(hint(old(self).pad.area)),
    {
        let bottom = self.pad.area.bottom_center();
        let at = bottom.translate(Offset::new(0, -HINT_OFFSET));
        display.text(
            at,
            Alignment::Center,
            "SWIPE TO CONTINUE".as_bytes(),
            FONT_BOLD,
            GREY_LIGHT,
            BG,
        );
    }

    /// The page after a swipe in direction `dir` was recognized: a swipe up
    /// or down moves the scroll bar, as far as there are pages, and the page
    /// follows it.
    pub open spec fn swiped(
        self,
        before: Self,
        event: Event,
        dir: SwipeDirection,
        ctx: EventCtx,
        asked: EventCtx,
    ) -> bool {
        &&& self.scrollbar == before.scrollbar.scrolled(dir)
        &&& self.swipe == page_swipe(before.swipe.area, self.scrollbar)
        &&& exists|seen: EventCtx| #[trigger]
            before.swipe.asks(event, ctx, seen) && Self::content_turned(
                self.content,
                before.content,
                self.scrollbar.active_page,
                seen,
                asked,
            )
        &&& self.pad == (Pad { dirty: true, ..before.pad })
        &&& self.fade == Some(BACKLIGHT_NORMAL)
        &&& self.buttons == before.buttons
    }

    /// Whether the children `content` and `buttons` are what handling
    /// `event` has made of those of `before`, where the content has said
    /// `by_content` and the controls `by_controls`, `ctx` is what was asked
    /// for before and `asked` what is asked for after. The recognizer has
    /// seen the event first. Then the content has handled it. The controls
    /// have handled it after the content if the content said nothing and the
    /// last page is shown; else they are as they were and have said nothing.
    pub open spec fn children_asked(
        content: T,
        buttons: U,
        before: Self,
        event: Event,
        by_content: Option<T::Msg>,
        by_controls: Option<U::Msg>,
        ctx: EventCtx,
        asked: EventCtx,
    ) -> bool {
        exists|seen: EventCtx, between: EventCtx|
            #![trigger before.swipe.asks(event, ctx, seen), content.handled(&before.content, seen, event, by_content, between)]
            {
                &&& before.swipe.asks(event, ctx, seen)
                &&& content.handled(&before.content, seen, event, by_content, between)
                &&& if by_content is None && !before.scrollbar.spec_has_next_page() {
                    buttons.handled(&before.buttons, between, event, by_controls, asked)
                } else {
                    by_controls is None && buttons == before.buttons && asked == between
                }
            }
    }

    /// The page after an event that completes no swipe, and what it says:
    /// the children have handled the event as [`Self::children_asked`] says,
    /// and the page says what [`PageMsg::spec_of`] makes of what the two said.
    pub open spec fn passed_on(
        self,
        before: Self,
        event: Event,
        msg: Option<PageMsg<T::Msg, U::Msg>>,
        ctx: EventCtx,
        asked: EventCtx,
    ) -> bool {
        exists|by_content: Option<T::Msg>, by_controls: Option<U::Msg>|
            {
                &&& msg == #[trigger] PageMsg::spec_of(by_content, by_controls)
                &&& Self::children_asked(
                    self.content,
                    self.buttons,
                    before,
                    event,
                    by_content,
                    by_controls,
                    ctx,
                    asked,
                )
            }
    }
}

impl<T: Paginate + Dimensions, U: Component> Component for SwipePage<T, U> {
    type Msg = PageMsg<T::Msg, U::Msg>;

    /// The children are in order, the scroll bar shows one of its pages, and
    /// the recognizer allows exactly the swipes that lead to a page.
    open spec fn inv(&self) -> bool {
        &&& self.content.inv()
        &&& self.buttons.inv()
        &&& self.scrollbar.valid()
        &&& self.swipe.allow_up == self.scrollbar.spec_has_next_page()
        &&& self.swipe.allow_down == self.scrollbar.spec_has_previous_page()
        &&& !self.swipe.allow_left
        &&& !self.swipe.allow_right
    }

    /// A swipe up or down turns the page and nothing else sees the event.
    /// Any other event goes to the content, and, if the content has nothing
    /// to say and the last page is shown, to the controls.
    fn event(&mut self, ctx: &mut EventCtx, event: Event) -> (msg: Option<Self::Msg>)
        ensures
            old(self).swipe.recognized(event) matches Some(dir) ==> msg is None
                && final(self).swiped(*old(self), event, dir, *old(ctx), *final(ctx)),
            old(self).swipe.recognized(event) is None ==> {
                &&& final(self).scrollbar == old(self).scrollbar
                &&& final(self).swipe == old(self).swipe.after(event)
                &&& final(self).pad == old(self).pad
                &&& final(self).fade == old(self).fade
                &&& (msg matches Some(PageMsg::Controls(_)) ==>
                    !old(self).scrollbar.spec_has_next_page())
                &&& (msg matches Some(PageMsg::Content(_)) ==>
                    final(self).buttons == old(self).buttons)
                &&& (old(self).scrollbar.spec_has_next_page() ==>
                    final(self).buttons == old(self).buttons)
                &&& final(self).passed_on(*old(self), event, msg, *old(ctx), *final(ctx))
            },
    {
        let recognized = self.swipe.event(ctx, event);
        let ghost seen_by_content = *ctx;
        assert(old(self).swipe.asks(event, *old(ctx), seen_by_content));
        if let Some(swipe) = recognized {
            match swipe {
                SwipeDirection::Up => {
                    // Scroll down, if possible.
                    self.scrollbar.go_to_next_page();
                    let page = self.scrollbar.active_page;
                    self.change_page(ctx, page);
                    return None;
                },
                SwipeDirection::Down => {
                    // Scroll up, if possible.
                    self.scrollbar.go_to_previous_page();
                    let page = self.scrollbar.active_page;
                    self.change_page(ctx, page);
                    return None;
                },
                _ => {
                    // Ignore other directions.
                },
            }
        }
        let from_content = self.content.event(ctx, event);
        let ghost seen_by_controls = *ctx;
        let from_controls = if from_content.is_none() && !self.scrollbar.has_next_page() {
            self.buttons.event(ctx, event)
        } else {
            None
        };
        let ghost by_content = from_content;
        let ghost by_controls = from_controls;
        let msg = PageMsg::of(from_content, from_controls);
        proof {
            assert(self.content.handled(
                &old(self).content,
                seen_by_content,
                event,
                by_content,
                seen_by_controls,
            ));
            assert(Self::children_asked(
                self.content,
                self.buttons,
                *old(self),
                event,
                by_content,
                by_controls,
                *old(ctx),
                *ctx,
            ));
            assert(msg == PageMsg::spec_of(by_content, by_controls));
        }
        msg
    }

    /// A swipe up or down turns the page; any other event is passed on.
    open spec fn handled(
        &self,
        before: &Self,
        ctx: EventCtx,
        event: Event,
        msg: Option<Self::Msg>,
        asked: EventCtx,
    ) -> bool {
        match before.swipe.recognized(event) {
            Some(dir) => msg is None && self.swiped(*before, event, dir, ctx, asked),
            None => {
                &&& self.scrollbar == before.scrollbar
                &&& self.swipe == before.swipe.after(event)
                &&& self.pad == before.pad
                &&& self.fade == before.fade
                &&& self.passed_on(*before, event, msg, ctx, asked)
            },
        }
    }

    /// The background is cleared and both children are due to be drawn in full.
    /// The background is filled, no fading is due, the content has been
    /// through its paint pass, and so have the controls on the last page.
    open spec fn drawn(&self, before: &Self) -> bool {
        &&& self.scrollbar == before.scrollbar
        &&& self.swipe == before.swipe
        &&& self.pad == (Pad { dirty: false, ..before.pad })
        &&& self.fade is None
        &&& self.content.drawn(&before.content)
        &&& if before.scrollbar.spec_has_next_page() {
            self.buttons == before.buttons
        } else {
            self.buttons.drawn(&before.buttons)
        }
    }

    open spec fn due_for_repaint(&self, before: &Self, ctx: EventCtx, asked: EventCtx) -> bool {
        &&& self.scrollbar == before.scrollbar
        &&& self.swipe == before.swipe
        &&& self.pad == (Pad { dirty: true, ..before.pad })
        &&& self.fade == before.fade
        &&& exists|between: EventCtx| #[trigger]
            self.content.due_for_repaint(&before.content, ctx, between)
                && self.buttons.due_for_repaint(&before.buttons, between, asked)
    }

    /// What a paint pass draws, in this order: the background if it was
    /// cleared; what the content draws; the scroll bar if there is more than
    /// one page; the hint while a page follows, and on the last page what
    /// the controls draw; and last the fading of the backlight, if one is due.
    open spec fn painted(&self) -> Seq<DrawOp> {
        self.pad.painted() + self.content.painted() + (if self.scrollbar.page_count > 1 {
            self.scrollbar.painted()
        } else {
            Seq::empty()
        }) + (if self.scrollbar.spec_has_next_page() {
            seq![hint(self.pad.area)]
        } else {
            self.buttons.painted()
        }) + (match self.fade {
            Some(level) => seq![DrawOp::FadeBacklight { level }],
            None => Seq::empty(),
        })
    }

    /// The background, the scroll bar and what the content occupies; and
    /// what the controls occupy only on the last page, where they can be
    /// reached.
    open spec fn regions(&self) -> Seq<Rect> {
        seq![self.pad.area, self.scrollbar.area] + self.content.regions() + (
        if self.scrollbar.spec_has_next_page() {
            Seq::empty()
        } else {
            self.buttons.regions()
        })
    }

    /// Draws background, content and scroll bar; then the hint while pages
    /// follow, or the controls on the last page. If a page change has left
    /// the backlight dimmed, it fades back at the very end, once: after the
    /// pass no fading is due.
    fn paint(&mut self, display: &mut Display)
        ensures
            final(self).scrollbar == old(self).scrollbar,
            final(self).swipe == old(self).swipe,
            final(self).pad == (Pad { dirty: false, ..old(self).pad }),
            final(self).fade is None,
            old(self).scrollbar.spec_has_next_page() ==> final(self).buttons == old(self).buttons,
    {
        self.pad.paint(display);
        self.content.paint(display);
        if self.scrollbar.has_pages() {
            self.scrollbar.paint(display);
        }
        let ghost barred = display@;
        if self.scrollbar.has_next_page() {
            self.paint_hint(display);
            assert(display@ =~= barred + seq![hint(old(self).pad.area)]);
        } else {
            self.buttons.paint(display);
        }
        let ghost controlled = display@;
        if let Some(val) = self.fade.take() {
            // Note that this is blocking and takes some time.
            display.fade_backlight(val);
            assert(display@ =~= controlled + seq![DrawOp::FadeBacklight { level: val }]);
        }
        proof {
            lemma_appended_in_turn(
                old(display)@,
                old(self).pad.painted(),
                old(self).content.painted(),
                if old(self).scrollbar.page_count > 1 {
                    old(self).scrollbar.painted()
                } else {
                    Seq::empty()
                },
                if old(self).scrollbar.spec_has_next_page() {
                    seq![hint(old(self).pad.area)]
                } else {
                    old(self).buttons.painted()
                },
                match old(self).fade {
                    Some(level) => seq![DrawOp::FadeBacklight { level }],
                    None => Seq::empty(),
                },
                Seq::empty(),
            );
        }
    }

    /// Reports the background, the scroll bar and the content, and the
    /// controls only on the last page, where they can be reached.
    fn bounds(&self, sink: &mut Vec<Rect>) {
        sink.push(self.pad.area);
        self.scrollbar.bounds(sink);
        self.content.bounds(sink);
        if !self.scrollbar.has_next_page() {
            self.buttons.bounds(sink);
        }
        assert(sink@ =~= old(sink)@ + self.regions());
    }

    fn request_complete_repaint(&mut self, ctx: &mut EventCtx)
        ensures
            final(self).scrollbar == old(self).scrollbar,
            final(self).swipe == old(self).swipe,
            final(self).pad == (Pad { dirty: true, ..old(self).pad }),
            final(self).fade == old(self).fade,
    {
        self.pad.clear();
        self.content.request_complete_repaint(ctx);
        let ghost between = *ctx;
        self.buttons.request_complete_repaint(ctx);
        assert(self.content.due_for_repaint(&old(self).content, *old(ctx), between)
            && self.buttons.due_for_repaint(&old(self).buttons, between, *ctx));
    }
}

impl<T: Trace, U: Trace> Trace for SwipePage<T, U> {
    open spec fn traced(&self) -> Seq<u8> {
        opening("SwipePage") + field("active_page", decimal(self.scrollbar.active_page as nat))
            + field("page_count", decimal(self.scrollbar.page_count as nat)) + field(
            "content",
            self.content.traced(),
        ) + field("buttons", self.buttons.traced()) + closing()
    }

    fn trace(&self, t: &mut Tracer) {
        t.open("SwipePage");
        t.field("active_page", &self.scrollbar.active_page);
        t.field("page_count", &self.scrollbar.page_count);
        t.field("content", &self.content);
        t.field("buttons", &self.buttons);
        t.close();
        assert(t@ =~= old(t)@ + self.traced());
    }
}

} // verus!
