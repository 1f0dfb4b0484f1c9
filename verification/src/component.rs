//! What every widget is: something that handles events, paints itself and
//! reports the regions it occupies. Also the simplest widgets.
use vstd::prelude::*;
use crate::display::{Display, DrawOp};
use crate::event::{Event, EventCtx};
use crate::geometry::{Alignment, Offset, Point, Rect};
use crate::theme::{Color, TextStyle};
use crate::trace::{closing, opening, Trace, Tracer};

verus! {

/// The message of a component that never has anything to say.
pub type Never = std::convert::Infallible;

/// A widget.
///
/// A parent owns its children and hands each event down to them in a fixed
/// order. A child answers with a message when the event meant something to
/// it, and with `None` when it did not.
///
/// Beside each method stands a relation or a function in which an
/// implementation says what the method does: [`Self::handled`] for
/// [`Self::event`], [`Self::painted`] and [`Self::drawn`] for
/// [`Self::paint`], [`Self::regions`] for [`Self::bounds`], and
/// [`Self::due_for_repaint`] for [`Self::request_complete_repaint`]. The
/// components of this library say it exactly. A parent whose children are
/// not known states in the same terms what it has asked of them, and in
/// which order.
pub trait Component {
    /// What the component tells its owner.
    type Msg;

    /// What must hold of the component between calls. Nothing, unless the
    /// component says otherwise.
    open spec fn inv(&self) -> bool {
        true
    }

    /// Whether `self` is what handling `event` makes of `before`, and `msg`
    /// what it says then, where `ctx` is what was asked for before and
    /// `asked` what is asked for after. A component that does not say what
    /// it does may become anything, say anything and ask for anything.
    open spec fn handled(
        &self,
        before: &Self,
        ctx: EventCtx,
        event: Event,
        msg: Option<Self::Msg>,
        asked: EventCtx,
    ) -> bool {
        true
    }

    /// Whether `self` is `before` with all of it due to be drawn, where
    /// `ctx` is what was asked for before and `asked` what is asked for
    /// after. A component that does not say what that means may become
    /// anything and ask for anything.
    open spec fn due_for_repaint(&self, before: &Self, ctx: EventCtx, asked: EventCtx) -> bool {
        true
    }

    /// Handles `event`. Through `ctx` the component may ask for a paint pass or a timer.
    fn event(&mut self, ctx: &mut EventCtx, event: Event) -> (msg: Option<Self::Msg>)
        requires
            old(self).inv(),
        ensures
            final(self).inv(),
            final(self).handled(old(self), *old(ctx), event, msg, *final(ctx)),
    ;

    /// What a paint pass draws of the component as it is. A component that
    /// does not say what that is still draws the same for the same state.
    open spec fn painted(&self) -> Seq<DrawOp> {
        arbitrary::<spec_fn(&Self) -> Seq<DrawOp>>()(self)
    }

    /// The regions that the component occupies as it is. A component that
    /// does not say which they are still reports the same for the same state.
    open spec fn regions(&self) -> Seq<Rect> {
        arbitrary::<spec_fn(&Self) -> Seq<Rect>>()(self)
    }

    /// Whether `self` is what a paint pass makes of `before`. A component
    /// that does not say may become anything.
    open spec fn drawn(&self, before: &Self) -> bool {
        true
    }

    /// Paints the component. Whether anything needs to be drawn is for the
    /// component to decide from its own state; the call is made on every
    /// paint pass. To paint is to add to what is on the display: what
    /// others have painted stays.
    fn paint(&mut self, display: &mut Display)
        requires
            old(self).inv(),
        ensures
            final(self).inv(),
            final(self).drawn(old(self)),
            final(display)@ == old(display)@ + old(self).painted(),
    ;

    /// Appends to `sink` the regions that the component occupies at present.
    /// What others have reported stays.
    fn bounds(&self, sink: &mut Vec<Rect>)
        requires
            self.inv(),
        ensures
            final(sink)@ == old(sink)@ + self.regions(),
    ;

    /// Makes sure that the next paint pass draws all of the component.
    fn request_complete_repaint(&mut self, ctx: &mut EventCtx)
        requires
            old(self).inv(),
        ensures
            final(self).inv(),
            final(self).due_for_repaint(old(self), *old(ctx), *final(ctx)),
    ;
}

/// Content that is shown one page at a time.
///
/// The library promises nothing of what an implementation does. Each
/// method has a relation beside it in which an implementation may say what
/// it does; one that does not say may do anything. The owner of the content
/// states in these relations what it has asked of the content, and in which
/// order.
pub trait Paginate: Component {
    /// Whether `self` is what counting its pages makes of `before`, and
    /// `n` the number it reports.
    open spec fn counted(&self, before: &Self, n: usize) -> bool {
        true
    }

    /// Whether `self` is `before` turned to page `page`.
    open spec fn turned_to(&self, before: &Self, page: usize) -> bool {
        true
    }

    /// How many pages the content takes in the area it has now.
    fn page_count(&mut self) -> (n: usize)
        requires
            old(self).inv(),
        ensures
            final(self).inv(),
            final(self).counted(old(self), n),
    ;

    /// Shows the page with the given number, pages counted from zero.
    fn change_page(&mut self, active_page: usize)
        requires
            old(self).inv(),
        ensures
            final(self).inv(),
            final(self).turned_to(old(self), active_page),
    ;
}

/// A component that can be given another area. As with [`Paginate`], an
/// implementation may say in the relations what it does.
pub trait Dimensions: Component {
    /// Whether `self` is what measuring makes of `before`, and `size` the
    /// extent it reports.
    open spec fn measured(&self, before: &Self, size: Offset) -> bool {
        true
    }

    /// Whether `self` is `before` moved into `area`.
    open spec fn moved_into(&self, before: &Self, area: Rect) -> bool {
        true
    }

    /// The extent that the component needs.
    fn get_size(&mut self) -> (size: Offset)
        requires
            old(self).inv(),
        ensures
            final(self).inv(),
            final(self).measured(old(self), size),
    ;

    /// Moves the component into `area`.
    fn set_area(&mut self, area: Rect)
        requires
            old(self).inv(),
        ensures
            final(self).inv(),
            final(self).moved_into(old(self), area),
    ;
}

/// A component that shows nothing and reacts to nothing.
#[derive(Clone, Copy, Debug, PartialEq, Eq, Structural)]
pub struct Empty;

impl Component for Empty {
    type Msg = Never;

    open spec fn handled(
        &self,
        before: &Self,
        ctx: EventCtx,
        event: Event,
        msg: Option<Never>,
        asked: EventCtx,
    ) -> bool {
        msg is None && asked == ctx
    }

    open spec fn due_for_repaint(&self, before: &Self, ctx: EventCtx, asked: EventCtx) -> bool {
        asked == ctx
    }

    open spec fn painted(&self) -> Seq<DrawOp> {
        Seq::empty()
    }

    open spec fn regions(&self) -> Seq<Rect> {
        Seq::empty()
    }

    fn event(&mut self, ctx: &mut EventCtx, event: Event) -> (msg: Option<Never>)
        ensures
            msg is None,
            *final(ctx) == *old(ctx),
    {
        None
    }

    fn paint(&mut self, display: &mut Display)
        ensures
            final(display)@ == old(display)@,
    {
    }

    fn bounds(&self, sink: &mut Vec<Rect>)
        ensures
            final(sink)@ == old(sink)@,
    {
    }

    fn request_complete_repaint(&mut self, ctx: &mut EventCtx)
        ensures
            *final(ctx) == *old(ctx),
    {
    }
}

impl Trace for Empty {
    open spec fn traced(&self) -> Seq<u8> {
        opening("Empty") + closing()
    }

    fn trace(&self, t: &mut Tracer) {
        t.open("Empty");
        t.close();
        assert(t@ =~= old(t)@ + self.traced());
    }
}

/// A background that is filled again whenever it was cleared.
#[derive(Clone, Copy, Debug, PartialEq, Eq, Structural)]
pub struct Pad {
    pub area: Rect,
    pub color: Color,
    /// Whether the next paint pass fills the area.
    pub dirty: bool,
}

impl Pad {
    /// A pad that has nothing to fill yet.
    pub fn with_background(area: Rect, color: Color) -> (pad: Pad)
        ensures
            pad == (Pad { area, color, dirty: false }),
    {
        Pad { area, color, dirty: false }
    }

    /// Has the next paint pass fill the area.
    pub fn clear(&mut self)
        ensures
            *final(self) == (Pad { dirty: true, ..*old(self) }),
    {
        self.dirty = true;
    }

    /// What a paint pass draws.
    pub open spec fn painted(self) -> Seq<DrawOp> {
        if self.dirty {
            seq![DrawOp::Fill { area: self.area, color: self.color }]
        } else {
            Seq::empty()
        }
    }

    /// Fills the area if it was cleared since the last paint pass.
    pub fn paint(&mut self, display: &mut Display)
        ensures
            *final(self) == (Pad { dirty: false, ..*old(self) }),
            final(display)@ == old(display)@ + old(self).painted(),
    {
        if self.dirty {
            self.dirty = false;
            display.rect_fill(self.area, self.color);
        }
        assert(display@ =~= old(display)@ + old(self).painted());
    }
}

/// A line of text that sits on the bottom edge of its area.
pub struct Label {
    pub area: Rect,
    /// `Start` begins the text at the left edge, `End` ends it at the right edge.
    pub align: Alignment,
    pub text: Vec<u8>,
    pub style: TextStyle,
}

impl Label {
    /// A label whose text begins at the left edge of `area`.
    pub fn left_aligned(area: Rect, text: Vec<u8>, style: TextStyle) -> (label: Label)
        ensures
            label.area == area,
            label.align == Alignment::Start,
            label.text@ == text@,
            label.style == style,
    {
        Label { area, align: Alignment::Start, text, style }
    }

    /// A label whose text ends at the right edge of `area`.
    pub fn right_aligned(area: Rect, text: Vec<u8>, style: TextStyle) -> (label: Label)
        ensures
            label.area == area,
            label.align == Alignment::End,
            label.text@ == text@,
            label.style == style,
    {
        Label { area, align: Alignment::End, text, style }
    }

    /// The point that the text is drawn at.
    pub open spec fn anchor(&self) -> Point {
        match self.align {
            Alignment::Start => Point { x: self.area.x0, y: self.area.y1 },
            Alignment::Center => Point {
                x: ((self.area.x0 + self.area.x1) / 2) as i32,
                y: self.area.y1,
            },
            Alignment::End => Point { x: self.area.x1, y: self.area.y1 },
        }
    }

    /// What a paint pass draws.
    pub open spec fn painted(&self) -> Seq<DrawOp> {
        seq![
            DrawOp::Text {
                at: self.anchor(),
                align: self.align,
                text: self.text@,
                font: self.style.font,
                fg: self.style.text_color,
                bg: self.style.background_color,
            },
        ]
    }

    /// Draws the text.
    pub fn paint(&self, display: &mut Display)
        ensures
            final(display)@ == old(display)@ + self.painted(),
    {
        let at = match self.align {
            Alignment::Start => self.area.bottom_left(),
            Alignment::Center => self.area.bottom_center(),
            Alignment::End => Point { x: self.area.x1, y: self.area.y1 },
        };
        display.text(
            at,
            self.align,
            self.text.as_slice(),
            self.style.font,
            self.style.text_color,
            self.style.background_color,
        );
        assert(display@ =~= old(display)@ + self.painted());
    }

    /// Appends the area of the label to `sink`.
    pub fn bounds(&self, sink: &mut Vec<Rect>)
        ensures
            final(sink)@ == old(sink)@.push(self.area),
    {
        sink.push(self.area);
    }
}

} // verus!
