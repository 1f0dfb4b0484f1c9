//! The list of drawing commands that painting produces.
//!
//! Components never touch a screen. Painting appends [`DrawCmd`]s to a
//! [`Display`]; whoever owns the screen carries them out in order.
use vstd::prelude::*;
use crate::geometry::{Alignment, Point, Rect};
use crate::theme::{Color, Font, Icon};

verus! {

/// One thing for the screen to do.
#[derive(Debug, PartialEq, Eq)]
pub enum DrawCmd {
    /// Fill `area` with `color`.
    Fill { area: Rect, color: Color },
    /// Draw `text` on the baseline through `at`.
    Text { at: Point, align: Alignment, text: Vec<u8>, font: Font, fg: Color, bg: Color },
    /// Draw `icon` at `at`.
    Icon { at: Point, align: Alignment, icon: Icon, fg: Color, bg: Color },
    /// Mark the last character of `text`, drawn from `at`, as not yet final.
    PendingMarker { at: Point, text: Vec<u8>, font: Font, color: Color },
    /// Bring the backlight to `level` gradually, and wait until it is there.
    FadeBacklight { level: i32 },
}

/// What a [`DrawCmd`] says, as a mathematical value.
pub ghost enum DrawOp {
    Fill { area: Rect, color: Color },
    Text { at: Point, align: Alignment, text: Seq<u8>, font: Font, fg: Color, bg: Color },
    Icon { at: Point, align: Alignment, icon: Icon, fg: Color, bg: Color },
    PendingMarker { at: Point, text: Seq<u8>, font: Font, color: Color },
    FadeBacklight { level: i32 },
}

impl View for DrawCmd {
    type V = DrawOp;

    open spec fn view(&self) -> DrawOp {
        match *self {
            DrawCmd::Fill { area, color } => DrawOp::Fill { area, color },
            DrawCmd::Text { at, align, text, font, fg, bg } => DrawOp::Text {
                at,
                align,
                text: text@,
                font,
                fg,
                bg,
            },
            DrawCmd::Icon { at, align, icon, fg, bg } => DrawOp::Icon { at, align, icon, fg, bg },
            DrawCmd::PendingMarker { at, text, font, color } => DrawOp::PendingMarker {
                at,
                text: text@,
                font,
                color,
            },
            DrawCmd::FadeBacklight { level } => DrawOp::FadeBacklight { level },
        }
    }
}

/// The commands painted so far, oldest first.
pub struct Display {
    pub cmds: Vec<DrawCmd>,
}

impl View for Display {
    type V = Seq<DrawOp>;

    open spec fn view(&self) -> Seq<DrawOp> {
        self.cmds@.map_values(|c: DrawCmd| c@)
    }
}

impl Display {
    /// A display on which nothing was painted yet.
    pub fn new() -> (d: Display)
        ensures
            d@ == Seq::<DrawOp>::empty(),
    {
        let d = Display { cmds: Vec::new() };
        assert(d@ =~= Seq::<DrawOp>::empty());
        d
    }

    /// Appends `cmd`.
    pub fn push(&mut self, cmd: DrawCmd)
        ensures
            final(self)@ == old(self)@.push(cmd@),
    {
        self.cmds.push(cmd);
        assert(self@ =~= old(self)@.push(cmd@));
    }

    /// Fills `area` with `color`.
    pub fn rect_fill(&mut self, area: Rect, color: Color)
        ensures
            final(self)@ == old(self)@.push(DrawOp::Fill { area, color }),
    {
        self.push(DrawCmd::Fill { area, color });
    }

    /// Draws a copy of `text`.
    pub fn text(&mut self, at: Point, align: Alignment, text: &[u8], font: Font, fg: Color, bg: Color)
        ensures
            final(self)@ == old(self)@.push(DrawOp::Text { at, align, text: text@, font, fg, bg }),
    {
        let copy = copy_bytes(text);
        self.push(DrawCmd::Text { at, align, text: copy, font, fg, bg });
    }

    /// Draws `icon`.
    pub fn icon(&mut self, at: Point, align: Alignment, icon: Icon, fg: Color, bg: Color)
        ensures
            final(self)@ == old(self)@.push(DrawOp::Icon { at, align, icon, fg, bg }),
    {
        self.push(DrawCmd::Icon { at, align, icon, fg, bg });
    }

    /// Marks the last character of `text` as not yet final.
    pub fn pending_marker(&mut self, at: Point, text: &[u8], font: Font, color: Color)
        ensures
            final(self)@ == old(self)@.push(DrawOp::PendingMarker { at, text: text@, font, color }),
    {
        let copy = copy_bytes(text);
        self.push(DrawCmd::PendingMarker { at, text: copy, font, color });
    }

    /// Brings the backlight to `level`.
    pub fn fade_backlight(&mut self, level: i32)
        ensures
            final(self)@ == old(self)@.push(DrawOp::FadeBacklight { level }),
    {
        self.push(DrawCmd::FadeBacklight { level });
    }
}

/// Appending sequences one after the other appends what they make
/// together; this holds of the first four and the first five of them too.
pub proof fn lemma_appended_in_turn<A>(
    o: Seq<A>,
    a: Seq<A>,
    b: Seq<A>,
    c: Seq<A>,
    d: Seq<A>,
    e: Seq<A>,
    f: Seq<A>,
)
    ensures
        o + a + b + c + d == o + (a + b + c + d),
        o + a + b + c + d + e == o + (a + b + c + d + e),
        o + a + b + c + d + e + f == o + (a + b + c + d + e + f),
{
    assert(o + a + b + c + d =~= o + (a + b + c + d));
    assert(o + a + b + c + d + e =~= o + (a + b + c + d + e));
    assert(o + a + b + c + d + e + f =~= o + (a + b + c + d + e + f));
}

/// A new vector with the bytes of `text`.
pub fn copy_bytes(text: &[u8]) -> (copy: Vec<u8>)
    ensures
        copy@ == text@,
{
    let mut copy: Vec<u8> = Vec::new();
    let mut i: usize = 0;
    while i < text.len()
        invariant
            i <= text.len(),
            copy@ == text@.subrange(0, i as int),
        decreases text.len() - i,
    {
        copy.push(text[i]);
        i = i + 1;
        assert(copy@ =~= text@.subrange(0, i as int));
    }
    assert(text@.subrange(0, text.len() as int) =~= text@);
    copy
}

} // verus!
