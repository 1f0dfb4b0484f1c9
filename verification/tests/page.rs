//! Paging through content with swipes.

use touch_ui::component::{Component, Dimensions, Empty, Never, Paginate};
use touch_ui::display::{Display, DrawCmd};
use touch_ui::event::{Event, EventCtx, TouchEvent};
use touch_ui::geometry::{Alignment, Offset, Point, Rect};
use touch_ui::page::{PageLayout, PageMsg, SwipePage};
use touch_ui::theme::{Font, BG, FONT_BOLD, FONT_MONO, FONT_NORMAL, GREY_LIGHT};
use touch_ui::trace::{Trace, Tracer};

/// The whole screen.
fn screen() -> Rect {
    Rect { x0: 0, y0: 0, x1: 240, y1: 240 }
}

/// Paragraphs of text, already broken into lines and pages. Breaking text
/// takes the metrics of a typeface, which are the business of whoever draws
/// it; here each page comes with the lines that fit on it.
struct Paragraphs {
    area: Rect,
    texts: Vec<(Font, &'static str)>,
    pages: Vec<&'static str>,
    current: usize,
}

impl Paragraphs {
    fn new(area: Rect) -> Self {
        Paragraphs { area, texts: Vec::new(), pages: Vec::new(), current: 0 }
    }

    fn add(mut self, font: Font, text: &'static str) -> Self {
        self.texts.push((font, text));
        self
    }

    fn broken_into(mut self, pages: &[&'static str]) -> Self {
        self.pages = pages.to_vec();
        self
    }
}

impl Component for Paragraphs {
    type Msg = Never;

    fn event(&mut self, _ctx: &mut EventCtx, _event: Event) -> Option<Never> {
        None
    }

    fn paint(&mut self, _display: &mut Display) {}

    fn bounds(&self, sink: &mut Vec<Rect>) {
        sink.push(self.area);
    }

    fn request_complete_repaint(&mut self, ctx: &mut EventCtx) {
        ctx.request_paint();
    }
}

impl Paginate for Paragraphs {
    fn page_count(&mut self) -> usize {
        self.pages.len().max(1)
    }

    fn change_page(&mut self, active_page: usize) {
        self.current = active_page;
    }
}

impl Dimensions for Paragraphs {
    fn get_size(&mut self) -> Offset {
        Offset { x: self.area.width(), y: self.area.height() }
    }

    fn set_area(&mut self, area: Rect) {
        self.area = area;
    }
}

impl Trace for Paragraphs {
    fn trace(&self, t: &mut Tracer) {
        t.open("Paragraphs");
        if let Some(page) = self.pages.get(self.current) {
            t.string(page);
        }
        t.close();
    }
}

fn trace(val: &impl Trace) -> String {
    let mut t = Tracer::new();
    val.trace(&mut t);
    String::from_utf8(t.out).unwrap()
}

fn swipe(component: &mut impl Component, points: &[(i32, i32)]) {
    let last = points.len().saturating_sub(1);
    let mut first = true;
    let mut ctx = EventCtx::new();
    for (i, &(x, y)) in points.iter().enumerate() {
        let p = Point::new(x, y);
        let ev = if first {
            TouchEvent::TouchStart(p)
        } else if i == last {
            TouchEvent::TouchEnd(p)
        } else {
            TouchEvent::TouchMove(p)
        };
        component.event(&mut ctx, Event::Touch(ev));
        first = false;
    }
}

fn swipe_up(component: &mut impl Component) {
    swipe(component, &[(20, 100), (20, 60), (20, 20)])
}

fn swipe_down(component: &mut impl Component) {
    swipe(component, &[(20, 20), (20, 60), (20, 100)])
}

#[test]
fn paragraphs_empty() {
    let mut page = SwipePage::new(screen(), BG, |area| Paragraphs::new(area), |_| Empty);

    let expected =
        "<SwipePage active_page:0 page_count:1 content:<Paragraphs > buttons:<Empty > >";

    assert_eq!(trace(&page), expected);
    swipe_up(&mut page);
    assert_eq!(trace(&page), expected);
    swipe_down(&mut page);
    assert_eq!(trace(&page), expected);
}

#[test]
fn paragraphs_single() {
    let mut page = SwipePage::new(
        screen(),
        BG,
        |area| {
            Paragraphs::new(area)
                .add(
                    FONT_NORMAL,
                    "This is the first paragraph and it should fit on the screen entirely.",
                )
                .add(
                    FONT_BOLD,
                    "Second, bold, paragraph should also fit on the screen whole I think.",
                )
                .broken_into(&["This is the first paragraph\nand it should fit on the\nscreen entirely.\nSecond, bold, paragraph\nshould also fit on the\nscreen whole I think.\n"])
        },
        |_| Empty,
    );

    let expected = "<SwipePage active_page:0 page_count:1 content:<Paragraphs This is the first paragraph\nand it should fit on the\nscreen entirely.\nSecond, bold, paragraph\nshould also fit on the\nscreen whole I think.\n> buttons:<Empty > >";

    assert_eq!(trace(&page), expected);
    swipe_up(&mut page);
    assert_eq!(trace(&page), expected);
    swipe_down(&mut page);
    assert_eq!(trace(&page), expected);
}

#[test]
fn paragraphs_one_long() {
    let mut page = SwipePage::new(
        screen(),
        BG,
        |area| {
            Paragraphs::new(area)
                .add(
                    FONT_BOLD,
                    "This is somewhat long paragraph that goes on and on and on and on and on and will definitely not fit on just a single screen. You have to swipe a bit to see all the text it contains I guess. There's just so much letters in it.",
                )
                .broken_into(&[
                    "This is somewhat long\nparagraph that goes\non and on and on and\non and on and will\ndefinitely not fit on\njust a single screen.\nYou have to swipe a bit\nto see all the text it...\n",
                    "contains I guess.\nThere's just so much\nletters in it.\n",
                ])
        },
        |_| Empty,
    );

    let expected1 = "<SwipePage active_page:0 page_count:2 content:<Paragraphs This is somewhat long\nparagraph that goes\non and on and on and\non and on and will\ndefinitely not fit on\njust a single screen.\nYou have to swipe a bit\nto see all the text it...\n> buttons:<Empty > >";
    let expected2 = "<SwipePage active_page:1 page_count:2 content:<Paragraphs contains I guess.\nThere's just so much\nletters in it.\n> buttons:<Empty > >";

    assert_eq!(trace(&page), expected1);
    swipe_down(&mut page);
    assert_eq!(trace(&page), expected1);
    swipe_up(&mut page);
    assert_eq!(trace(&page), expected2);
    swipe_up(&mut page);
    assert_eq!(trace(&page), expected2);
    swipe_down(&mut page);
    assert_eq!(trace(&page), expected1);
}

#[test]
fn paragraphs_three_long() {
    let mut page = SwipePage::new(
        screen(),
        BG,
        |area| {
            Paragraphs::new(area)
                .add(
                    FONT_BOLD,
                    "This paragraph is using a bold font. It doesn't need to be all that long.",
                )
                .add(
                    FONT_MONO,
                    "And this one is using MONO. Monospace is nice for numbers, they have the same width and can be scanned quickly. Even if they span several pages or something.",
                )
                .add(
                    FONT_BOLD,
                    "Let's add another one for a good measure. This one should overflow all the way to the third page with a bit of luck.",
                )
                .broken_into(&[
                    "This paragraph is\nusing a bold font. It\ndoesn't need to be all\nthat long.\nAnd this one is\nusing MONO.\nMonospace is nice\nfor numbers, they...\n",
                    "have the same\nwidth and can be\nscanned quickly.\nEven if they span\nseveral pages or\nsomething.\nLet's add another one\nfor a good measure....\n",
                    "This one should\noverflow all the way to\nthe third page with a\nbit of luck.\n",
                ])
        },
        |_| Empty,
    );

    let expected1 = "<SwipePage active_page:0 page_count:3 content:<Paragraphs This paragraph is\nusing a bold font. It\ndoesn't need to be all\nthat long.\nAnd this one is\nusing MONO.\nMonospace is nice\nfor numbers, they...\n> buttons:<Empty > >";
    let expected2 = "<SwipePage active_page:1 page_count:3 content:<Paragraphs have the same\nwidth and can be\nscanned quickly.\nEven if they span\nseveral pages or\nsomething.\nLet's add another one\nfor a good measure....\n> buttons:<Empty > >";
    let expected3 = "<SwipePage active_page:2 page_count:3 content:<Paragraphs This one should\noverflow all the way to\nthe third page with a\nbit of luck.\n> buttons:<Empty > >";

    assert_eq!(trace(&page), expected1);
    swipe_down(&mut page);
    assert_eq!(trace(&page), expected1);
    swipe_up(&mut page);
    assert_eq!(trace(&page), expected2);
    swipe_up(&mut page);
    assert_eq!(trace(&page), expected3);
    swipe_up(&mut page);
    assert_eq!(trace(&page), expected3);
    swipe_down(&mut page);
    assert_eq!(trace(&page), expected2);
    swipe_down(&mut page);
    assert_eq!(trace(&page), expected1);
    swipe_down(&mut page);
    assert_eq!(trace(&page), expected1);
}

/// A button-like double: says "hit" to every touch-end.
struct Controls {
    area: Rect,
    seen: usize,
    painted: usize,
}

impl Component for Controls {
    type Msg = &'static str;

    fn event(&mut self, _ctx: &mut EventCtx, event: Event) -> Option<&'static str> {
        self.seen += 1;
        match event {
            Event::Touch(TouchEvent::TouchEnd(_)) => Some("hit"),
            _ => None,
        }
    }

    fn paint(&mut self, _display: &mut Display) {
        self.painted += 1;
    }

    fn bounds(&self, sink: &mut Vec<Rect>) {
        sink.push(self.area);
    }

    fn request_complete_repaint(&mut self, _ctx: &mut EventCtx) {}
}

fn three_pages() -> SwipePage<Paragraphs, Controls> {
    SwipePage::new(
        screen(),
        BG,
        |area| Paragraphs::new(area).broken_into(&["one\n", "two\n", "three\n"]),
        |area| Controls { area, seen: 0, painted: 0 },
    )
}

#[test]
fn page_layout_regions() {
    let layout = PageLayout::new(screen());
    assert_eq!(layout.content_single_page, Rect { x0: 5, y0: 0, x1: 235, y1: 196 });
    assert_eq!(layout.content, Rect { x0: 5, y0: 0, x1: 220, y1: 196 });
    assert_eq!(layout.scrollbar, Rect { x0: 230, y0: 0, x1: 240, y1: 196 });
    assert_eq!(layout.buttons, Rect { x0: 0, y0: 202, x1: 235, y1: 240 });
    let shifted = PageLayout::new(Rect { x0: 100, y0: 50, x1: 200, y1: 150 });
    assert_eq!(shifted.content_single_page, Rect { x0: 105, y0: 50, x1: 195, y1: 106 });
    assert_eq!(shifted.content, Rect { x0: 105, y0: 50, x1: 180, y1: 106 });
    assert_eq!(shifted.scrollbar, Rect { x0: 190, y0: 50, x1: 200, y1: 106 });
    assert_eq!(shifted.buttons, Rect { x0: 100, y0: 112, x1: 195, y1: 150 });
}

#[test]
fn page_layout_in_an_area_too_small() {
    let layout = PageLayout::new(Rect { x0: 0, y0: 0, x1: 8, y1: 20 });
    assert_eq!(layout.buttons, Rect { x0: 0, y0: 0, x1: 3, y1: 20 });
    assert_eq!(layout.content_single_page, Rect { x0: 5, y0: 0, x1: 5, y1: 0 });
    assert_eq!(layout.content, Rect { x0: 5, y0: 0, x1: 5, y1: 0 });
    assert_eq!(layout.scrollbar, Rect { x0: 8, y0: 0, x1: 8, y1: 0 });
}

#[test]
fn page_content_gets_the_region_it_needs() {
    let single = SwipePage::new(screen(), BG, |area| Paragraphs::new(area), |_| Empty);
    assert_eq!(single.content.area, Rect { x0: 5, y0: 0, x1: 235, y1: 196 });
    assert_eq!(single.scrollbar.page_count, 1);
    let paged = three_pages();
    assert_eq!(paged.content.area, Rect { x0: 5, y0: 0, x1: 220, y1: 196 });
    assert_eq!(paged.buttons.area, Rect { x0: 0, y0: 202, x1: 235, y1: 240 });
    assert_eq!(paged.scrollbar.area, Rect { x0: 230, y0: 0, x1: 240, y1: 196 });
    assert_eq!(paged.scrollbar.page_count, 3);
    assert_eq!(paged.scrollbar.active_page, 0);
    assert!(paged.scrollbar.arrows);
    assert_eq!(paged.pad.area, screen());
    assert_eq!(paged.fade, None);
}

#[test]
fn page_three_pages_end_to_end() {
    let mut page = three_pages();
    assert_eq!(page.scrollbar.active_page, 0);
    swipe_up(&mut page);
    swipe_up(&mut page);
    assert_eq!(page.scrollbar.active_page, 2);
    assert_eq!(page.content.current, 2);
    swipe_up(&mut page);
    assert_eq!(page.scrollbar.active_page, 2);
    swipe_down(&mut page);
    swipe_down(&mut page);
    assert_eq!(page.scrollbar.active_page, 0);
    assert_eq!(page.content.current, 0);
    swipe_down(&mut page);
    assert_eq!(page.scrollbar.active_page, 0);
    assert_eq!(page.scrollbar.page_count, 3);
}

#[test]
fn page_swipe_permissions_follow_the_page() {
    let mut page = three_pages();
    assert!(page.swipe.allow_up && !page.swipe.allow_down);
    swipe_up(&mut page);
    assert!(page.swipe.allow_up && page.swipe.allow_down);
    swipe_up(&mut page);
    assert!(!page.swipe.allow_up && page.swipe.allow_down);
    assert!(!page.swipe.allow_left && !page.swipe.allow_right);
    // Sideways swipes turn nothing.
    swipe(&mut page, &[(200, 100), (100, 100), (20, 100)]);
    assert_eq!(page.scrollbar.active_page, 2);
}

#[test]
fn page_controls_are_reached_on_the_last_page_only() {
    let mut page = three_pages();
    let mut ctx = EventCtx::new();
    let tap = [
        Event::Touch(TouchEvent::TouchStart(Point::new(100, 220))),
        Event::Touch(TouchEvent::TouchEnd(Point::new(100, 220))),
    ];
    for _ in 0..2 {
        assert!(page.event(&mut ctx, tap[0]).is_none());
        assert!(page.event(&mut ctx, tap[1]).is_none());
        assert_eq!(page.buttons.seen, 0);
        let mut sink = Vec::new();
        page.bounds(&mut sink);
        assert_eq!(sink.len(), 3);
        swipe_up(&mut page);
    }
    assert_eq!(page.scrollbar.active_page, 2);
    assert_eq!(page.buttons.seen, 0);
    assert!(page.event(&mut ctx, tap[0]).is_none());
    assert_eq!(page.event(&mut ctx, tap[1]), Some(PageMsg::Controls("hit")));
    assert_eq!(page.buttons.seen, 2);
    let mut sink = Vec::new();
    page.bounds(&mut sink);
    assert_eq!(
        sink,
        vec![
            screen(),
            Rect { x0: 230, y0: 0, x1: 240, y1: 196 },
            Rect { x0: 5, y0: 0, x1: 220, y1: 196 },
            Rect { x0: 0, y0: 202, x1: 235, y1: 240 },
        ]
    );
}

#[test]
fn page_paints_hint_until_the_last_page() {
    let mut page = three_pages();
    let hint = DrawCmd::Text {
        at: Point::new(120, 237),
        align: Alignment::Center,
        text: b"SWIPE TO CONTINUE".to_vec(),
        font: FONT_BOLD,
        fg: GREY_LIGHT,
        bg: BG,
    };
    let mut d = Display::new();
    page.paint(&mut d);
    // Three dots, the arrow towards the next page, and the hint.
    assert_eq!(d.cmds.len(), 5);
    assert_eq!(d.cmds[4], hint);
    assert_eq!(page.buttons.painted, 0);
    swipe_up(&mut page);
    swipe_up(&mut page);
    let mut d = Display::new();
    page.paint(&mut d);
    assert!(!d.cmds.contains(&hint));
    assert_eq!(page.buttons.painted, 1);
}

#[test]
fn page_change_clears_and_fades_once() {
    let mut page = three_pages();
    let mut d = Display::new();
    page.paint(&mut d);
    assert!(!d.cmds.iter().any(|c| matches!(c, DrawCmd::FadeBacklight { .. })));
    swipe_up(&mut page);
    assert_eq!(page.fade, Some(150));
    assert!(page.pad.dirty);
    let mut d = Display::new();
    page.paint(&mut d);
    assert_eq!(d.cmds[0], DrawCmd::Fill { area: screen(), color: BG });
    assert_eq!(d.cmds.last(), Some(&DrawCmd::FadeBacklight { level: 150 }));
    assert_eq!(page.fade, None);
    let mut d = Display::new();
    page.paint(&mut d);
    assert!(!d.cmds.iter().any(|c| matches!(c, DrawCmd::FadeBacklight { .. })));
    assert!(!d.cmds.iter().any(|c| matches!(c, DrawCmd::Fill { .. })));
    swipe_up(&mut page);
    assert_eq!(page.scrollbar.active_page, 2);
    assert_eq!(page.fade, Some(150));
    let mut d = Display::new();
    page.paint(&mut d);
    // A swipe that cannot turn the page is not recognized: nothing fades.
    swipe_up(&mut page);
    assert_eq!(page.fade, None);
    assert!(!page.pad.dirty);
}

#[test]
fn page_of_content_that_reports_no_pages() {
    struct Nothing;
    impl Component for Nothing {
        type Msg = Never;
        fn event(&mut self, _: &mut EventCtx, _: Event) -> Option<Never> {
            None
        }
        fn paint(&mut self, _: &mut Display) {}
        fn bounds(&self, _: &mut Vec<Rect>) {}
        fn request_complete_repaint(&mut self, _: &mut EventCtx) {}
    }
    impl Paginate for Nothing {
        fn page_count(&mut self) -> usize {
            0
        }
        fn change_page(&mut self, _: usize) {}
    }
    impl Dimensions for Nothing {
        fn get_size(&mut self) -> Offset {
            Offset::new(0, 0)
        }
        fn set_area(&mut self, _: Rect) {}
    }
    let mut page = SwipePage::new(screen(), BG, |_| Nothing, |_| Empty);
    assert_eq!(page.scrollbar.page_count, 1);
    assert_eq!(page.scrollbar.active_page, 0);
    swipe_up(&mut page);
    swipe_down(&mut page);
    assert_eq!(page.scrollbar.active_page, 0);
}

/// Content of two pages that draws one mark for the page it shows.
struct Marks {
    area: Rect,
    current: usize,
}

impl Component for Marks {
    type Msg = &'static str;

    fn event(&mut self, _ctx: &mut EventCtx, event: Event) -> Option<&'static str> {
        match event {
            Event::Touch(TouchEvent::TouchStart(_)) => Some("content"),
            _ => None,
        }
    }

    fn paint(&mut self, display: &mut Display) {
        display.fade_backlight(self.current as i32);
    }

    fn bounds(&self, sink: &mut Vec<Rect>) {
        sink.push(self.area);
    }

    fn request_complete_repaint(&mut self, _ctx: &mut EventCtx) {}
}

impl Paginate for Marks {
    fn page_count(&mut self) -> usize {
        2
    }

    fn change_page(&mut self, active_page: usize) {
        self.current = active_page;
    }
}

impl Dimensions for Marks {
    fn get_size(&mut self) -> Offset {
        Offset::new(0, 0)
    }

    fn set_area(&mut self, area: Rect) {
        self.area = area;
    }
}

#[test]
fn page_paints_its_parts_in_order() {
    let mut page = SwipePage::new(
        screen(),
        BG,
        |area| Marks { area, current: 7 },
        |area| Controls { area, seen: 0, painted: 0 },
    );
    // Fitted in: told to show the first page, in the region beside the scroll bar.
    assert_eq!(page.content.current, 0);
    assert_eq!(page.content.area, Rect { x0: 5, y0: 0, x1: 220, y1: 196 });
    let mut d = Display::new();
    page.paint(&mut d);
    // Content, two dots, the arrow towards the next page, the hint.
    assert_eq!(d.cmds.len(), 5);
    assert_eq!(d.cmds[0], DrawCmd::FadeBacklight { level: 0 });
    assert!(matches!(d.cmds[1], DrawCmd::Icon { .. }));
    assert!(matches!(d.cmds[3], DrawCmd::Icon { .. }));
    assert!(matches!(d.cmds[4], DrawCmd::Text { .. }));
    swipe_up(&mut page);
    let mut d = Display::new();
    page.paint(&mut d);
    // Background, content, two dots, the arrow back, (controls draw nothing), fade.
    assert_eq!(d.cmds.len(), 6);
    assert_eq!(d.cmds[0], DrawCmd::Fill { area: screen(), color: BG });
    assert_eq!(d.cmds[1], DrawCmd::FadeBacklight { level: 1 });
    assert_eq!(d.cmds[5], DrawCmd::FadeBacklight { level: 150 });
    assert_eq!(page.buttons.painted, 1);
    // The next pass fades no more.
    let mut d = Display::new();
    page.paint(&mut d);
    assert_eq!(d.cmds.len(), 4);
    assert_eq!(d.cmds[0], DrawCmd::FadeBacklight { level: 1 });
    assert!(d.cmds[1..].iter().all(|c| matches!(c, DrawCmd::Icon { .. })));
}

#[test]
fn page_passes_on_what_its_children_say() {
    let mut page = SwipePage::new(
        screen(),
        BG,
        |area| Marks { area, current: 0 },
        |area| Controls { area, seen: 0, painted: 0 },
    );
    swipe_up(&mut page);
    let seen = page.buttons.seen;
    let mut ctx = EventCtx::new();
    let p = Point::new(100, 220);
    // The content speaks first, and then the controls are not asked.
    assert_eq!(
        page.event(&mut ctx, Event::Touch(TouchEvent::TouchStart(p))),
        Some(PageMsg::Content("content"))
    );
    assert_eq!(page.buttons.seen, seen);
    assert_eq!(
        page.event(&mut ctx, Event::Touch(TouchEvent::TouchEnd(p))),
        Some(PageMsg::Controls("hit"))
    );
    assert_eq!(page.buttons.seen, seen + 1);
    assert_eq!(PageMsg::<u8, u8>::of(Some(1), Some(2)), Some(PageMsg::Content(1)));
    assert_eq!(PageMsg::<u8, u8>::of(None, Some(2)), Some(PageMsg::Controls(2)));
    assert_eq!(PageMsg::<u8, u8>::of(None, None), None);
}
