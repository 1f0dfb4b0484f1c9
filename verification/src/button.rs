//! Buttons: regions of the screen that report a click when a finger comes
//! down on them and is lifted from them.
use vstd::prelude::*;
use crate::component::{Component, Pad};
use crate::display::{Display, DrawOp};
use crate::event::{Event, EventCtx, TouchEvent};
use crate::geometry::{Alignment, Rect};
use crate::theme::{button_style, ButtonKind, ButtonLook, Color, Icon};

verus! {

/// What a button tells its owner.
#[derive(Clone, Copy, Debug, PartialEq, Eq, Structural)]
pub enum ButtonMsg {
    /// A finger is on the button now.
    Pressed,
    /// The finger has left the button without being lifted.
    Released,
    /// The finger was lifted from the button.
    Clicked,
}

/// What a button shows.
#[derive(Debug, PartialEq, Eq)]
pub enum ButtonContent {
    Empty,
    Text(Vec<u8>),
    Icon(Icon),
}

/// Where a button stands in the course of a touch.
#[derive(Clone, Copy, Debug, PartialEq, Eq, Structural)]
pub enum ButtonState {
    /// No finger is on the button.
    Initial,
    /// A finger is on the button.
    Pressed,
    /// The finger that was on the button has left it and is still down.
    Released,
    /// The button takes no touch.
    Disabled,
}

/// A button.
#[derive(Debug, PartialEq, Eq)]
pub struct Button {
    pub area: Rect,
    pub content: ButtonContent,
    pub kind: ButtonKind,
    pub state: ButtonState,
    /// Whether the next paint pass draws the button.
    pub dirty: bool,
}

impl Button {
    /// An enabled button of the default kind, yet to be drawn.
    pub fn new(area: Rect, content: ButtonContent) -> (b: Button)
        ensures
            b.area == area,
            b.content == content,
            b.kind == ButtonKind::Default,
            b.state == ButtonState::Initial,
            b.dirty,
    {
        Button { area, content, kind: ButtonKind::Default, state: ButtonState::Initial, dirty: true }
    }

    /// A button that shows `text`.
    pub fn with_text(area: Rect, text: Vec<u8>) -> (b: Button)
        ensures
            b.area == area,
            b.content == ButtonContent::Text(text),
            b.kind == ButtonKind::Default,
            b.state == ButtonState::Initial,
            b.dirty,
    {
        Button::new(area, ButtonContent::Text(text))
    }

    /// A button that shows `icon`.
    pub fn with_icon(area: Rect, icon: Icon) -> (b: Button)
        ensures
            b.area == area,
            b.content == ButtonContent::Icon(icon),
            b.kind == ButtonKind::Default,
            b.state == ButtonState::Initial,
            b.dirty,
    {
        Button::new(area, ButtonContent::Icon(icon))
    }

    /// The same button of another kind.
    pub fn styled(self, kind: ButtonKind) -> (b: Button)
        ensures
            b == (Button { kind, ..self }),
    {
        Button { kind, ..self }
    }

    /// The same button, enabled or disabled from the start.
    pub fn initially_enabled(self, enabled: bool) -> (b: Button)
        ensures
            b == (Button {
                state: if enabled {
                    ButtonState::Initial
                } else {
                    ButtonState::Disabled
                },
                ..self
            }),
    {
        let state = if enabled {
            ButtonState::Initial
        } else {
            ButtonState::Disabled
        };
        Button { state, ..self }
    }

    /// The button in state `state`; it needs to be drawn if that is a change.
    pub open spec fn in_state(self, state: ButtonState) -> Button {
        Button { state, dirty: self.dirty || self.state != state, ..self }
    }

    /// The state that `event` brings the button to.
    ///
    /// A finger that comes down on a button that is not disabled presses it.
    /// While the finger is down, the button is pressed when the finger is on
    /// it and released when it is not. When the finger is lifted, a button
    /// that is not disabled is as it was before the touch.
    pub open spec fn state_after(self, event: Event) -> ButtonState {
        match event {
            Event::Touch(TouchEvent::TouchStart(pos)) => if self.state != ButtonState::Disabled
                && self.area.contains(pos) {
                ButtonState::Pressed
            } else {
                self.state
            },
            Event::Touch(TouchEvent::TouchMove(pos)) => match self.state {
                ButtonState::Released if self.area.contains(pos) => ButtonState::Pressed,
                ButtonState::Pressed if !self.area.contains(pos) => ButtonState::Released,
                _ => self.state,
            },
            Event::Touch(TouchEvent::TouchEnd(_)) => match self.state {
                ButtonState::Disabled => ButtonState::Disabled,
                _ => ButtonState::Initial,
            },
            Event::Timer(_) => self.state,
        }
    }

    /// What the button says to `event`.
    ///
    /// It is clicked when the finger that pressed it is lifted from it. It
    /// says that it was pressed or released whenever a touch brings it into
    /// that state.
    pub open spec fn message(self, event: Event) -> Option<ButtonMsg> {
        match event {
            Event::Touch(TouchEvent::TouchStart(pos)) => if self.state != ButtonState::Disabled
                && self.area.contains(pos) {
                Some(ButtonMsg::Pressed)
            } else {
                None
            },
            Event::Touch(TouchEvent::TouchMove(pos)) => match self.state {
                ButtonState::Released if self.area.contains(pos) => Some(ButtonMsg::Pressed),
                ButtonState::Pressed if !self.area.contains(pos) => Some(ButtonMsg::Released),
                _ => None,
            },
            Event::Touch(TouchEvent::TouchEnd(pos)) => match self.state {
                ButtonState::Pressed if self.area.contains(pos) => Some(ButtonMsg::Clicked),
                _ => None,
            },
            Event::Timer(_) => None,
        }
    }

    /// Whether `event` clicks the button.
    pub open spec fn clicked_by(self, event: Event) -> bool {
        self.message(event) == Some(ButtonMsg::Clicked)
    }

    /// The button after `event`.
    pub open spec fn after(self, event: Event) -> Button {
        self.in_state(self.state_after(event))
    }

    /// Whether `event` changes the state of the button.
    pub open spec fn changed_by(self, event: Event) -> bool {
        self.state_after(event) != self.state
    }

    pub open spec fn spec_is_enabled(&self) -> bool {
        self.state != ButtonState::Disabled
    }

    /// Whether the button takes touches.
    #[verifier::when_used_as_spec(spec_is_enabled)]
    pub fn is_enabled(&self) -> (b: bool)
        ensures
            b == self.spec_is_enabled(),
    {
        !matches!(self.state, ButtonState::Disabled)
    }

    /// What the button shows.
    pub fn content(&self) -> (c: &ButtonContent)
        ensures
            *c == self.content,
    {
        &self.content
    }

    /// Brings the button into `state`, and asks for a paint pass if that is a change.
    pub fn set(&mut self, ctx: &mut EventCtx, state: ButtonState)
        ensures
            *final(self) == old(self).in_state(state),
            final(ctx).after_paint_request(*old(ctx), old(self).state != state),
    {
        if self.state != state {
            self.state = state;
            self.dirty = true;
            ctx.request_paint();
        }
    }

    /// Lets the button take touches, as if none had ever reached it.
    pub fn enable(&mut self, ctx: &mut EventCtx)
        ensures
            *final(self) == old(self).in_state(ButtonState::Initial),
            final(ctx).after_paint_request(*old(ctx), old(self).state != ButtonState::Initial),
    {
        self.set(ctx, ButtonState::Initial);
    }

    /// Stops the button from taking touches.
    pub fn disable(&mut self, ctx: &mut EventCtx)
        ensures
            *final(self) == old(self).in_state(ButtonState::Disabled),
            final(ctx).after_paint_request(*old(ctx), old(self).state != ButtonState::Disabled),
    {
        self.set(ctx, ButtonState::Disabled);
    }

    /// The state of a button that was just enabled or disabled.
    pub open spec fn state_if(enabled: bool) -> ButtonState {
        if enabled {
            ButtonState::Initial
        } else {
            ButtonState::Disabled
        }
    }

    /// Enables or disables the button.
    pub fn enabled(&mut self, ctx: &mut EventCtx, enabled: bool)
        ensures
            *final(self) == old(self).in_state(Button::state_if(enabled)),
            final(ctx).after_paint_request(*old(ctx), old(self).state != Button::state_if(enabled)),
    {
        if enabled {
            self.enable(ctx);
        } else {
            self.disable(ctx);
        }
    }

    /// How the button looks in its state.
    pub open spec fn look(&self) -> ButtonLook {
        match self.state {
            ButtonState::Initial | ButtonState::Released => ButtonLook::Normal,
            ButtonState::Pressed => ButtonLook::Active,
            ButtonState::Disabled => ButtonLook::Disabled,
        }
    }

    /// What is drawn of the button: its face, and on it the text or the icon.
    pub open spec fn face(&self) -> Seq<DrawOp> {
        let style = button_style(self.kind, self.look());
        let face = seq![DrawOp::Fill { area: self.area, color: style.button_color }];
        match self.content {
            ButtonContent::Empty => face,
            ButtonContent::Text(text) => face.push(
                DrawOp::Text {
                    at: self.area.spec_center(),
                    align: Alignment::Center,
                    text: text@,
                    font: style.font,
                    fg: style.text_color,
                    bg: style.button_color,
                },
            ),
            ButtonContent::Icon(icon) => face.push(
                DrawOp::Icon {
                    at: self.area.spec_center(),
                    align: Alignment::Center,
                    icon,
                    fg: style.text_color,
                    bg: style.button_color,
                },
            ),
        }
    }

    /// The button once drawn.
    pub open spec fn clean(self) -> Button {
        Button { dirty: false, ..self }
    }

    /// The button with a drawing due.
    pub open spec fn stale(self) -> Button {
        Button { dirty: true, ..self }
    }
}

impl Component for Button {
    type Msg = ButtonMsg;

    open spec fn handled(
        &self,
        before: &Self,
        ctx: EventCtx,
        event: Event,
        msg: Option<ButtonMsg>,
        asked: EventCtx,
    ) -> bool {
        &&& *self == before.after(event)
        &&& msg == before.message(event)
        &&& asked.after_paint_request(ctx, before.changed_by(event))
    }

    open spec fn drawn(&self, before: &Self) -> bool {
        *self == before.clean()
    }

    open spec fn due_for_repaint(&self, before: &Self, ctx: EventCtx, asked: EventCtx) -> bool {
        *self == before.stale() && asked.after_paint_request(ctx, true)
    }

    /// What a paint pass draws: the face, if the button needs to be drawn.
    open spec fn painted(&self) -> Seq<DrawOp> {
        if self.dirty {
            self.face()
        } else {
            Seq::empty()
        }
    }

    open spec fn regions(&self) -> Seq<Rect> {
        seq![self.area]
    }

    /// Follows the touch, and asks for a paint pass when the state changes.
    fn event(&mut self, ctx: &mut EventCtx, event: Event) -> (msg: Option<ButtonMsg>)
        ensures
            msg == old(self).message(event),
            *final(self) == old(self).after(event),
            final(ctx).after_paint_request(*old(ctx), old(self).changed_by(event)),
    {
        match event {
            Event::Touch(TouchEvent::TouchStart(pos)) => {
                if !matches!(self.state, ButtonState::Disabled) && self.area.contains(pos) {
                    self.set(ctx, ButtonState::Pressed);
                    return Some(ButtonMsg::Pressed);
                }
            },
            Event::Touch(TouchEvent::TouchMove(pos)) => {
                match self.state {
                    ButtonState::Released => {
                        if self.area.contains(pos) {
                            self.set(ctx, ButtonState::Pressed);
                            return Some(ButtonMsg::Pressed);
                        }
                    },
                    ButtonState::Pressed => {
                        if !self.area.contains(pos) {
                            self.set(ctx, ButtonState::Released);
                            return Some(ButtonMsg::Released);
                        }
                    },
                    _ => {},
                }
            },
            Event::Touch(TouchEvent::TouchEnd(pos)) => {
                match self.state {
                    ButtonState::Initial | ButtonState::Disabled => {},
                    ButtonState::Pressed => {
                        self.set(ctx, ButtonState::Initial);
                        if self.area.contains(pos) {
                            return Some(ButtonMsg::Clicked);
                        }
                    },
                    ButtonState::Released => {
                        self.set(ctx, ButtonState::Initial);
                    },
                }
            },
            Event::Timer(_) => {},
        }
        None
    }

    /// Draws the button if it has changed since it was drawn last.
    fn paint(&mut self, display: &mut Display)
        ensures
            *final(self) == old(self).clean(),
            final(display)@ == old(display)@ + old(self).painted(),
    {
        if self.dirty {
            self.dirty = false;
            let look = match self.state {
                ButtonState::Initial | ButtonState::Released => ButtonLook::Normal,
                ButtonState::Pressed => ButtonLook::Active,
                ButtonState::Disabled => ButtonLook::Disabled,
            };
            let style = button_style(self.kind, look);
            display.rect_fill(self.area, style.button_color);
            match &self.content {
                ButtonContent::Empty => {},
                ButtonContent::Text(text) => {
                    display.text(
                        self.area.center(),
                        Alignment::Center,
                        text.as_slice(),
                        style.font,
                        style.text_color,
                        style.button_color,
                    );
                },
                ButtonContent::Icon(icon) => {
                    display.icon(
                        self.area.center(),
                        Alignment::Center,
                        *icon,
                        style.text_color,
                        style.button_color,
                    );
                },
            }
        }
        assert(display@ =~= old(display)@ + old(self).painted());
    }

    fn bounds(&self, sink: &mut Vec<Rect>)
        ensures
            final(sink)@ == old(sink)@.push(self.area),
    {
        sink.push(self.area);
    }

    fn request_complete_repaint(&mut self, ctx: &mut EventCtx)
        ensures
            *final(self) == old(self).stale(),
            final(ctx).after_paint_request(*old(ctx), true),
    {
        self.dirty = true;
        ctx.request_paint();
    }
}

/// A button that can be hidden. Where it is hidden its background shows.
#[derive(Debug, PartialEq, Eq)]
pub struct OptionalButton {
    pub button: Button,
    pub pad: Pad,
    pub visible: bool,
}

impl OptionalButton {
    /// `button` over `pad`, shown or not.
    pub fn new(pad: Pad, button: Button, visible: bool) -> (b: OptionalButton)
        ensures
            b == (OptionalButton { button, pad, visible }),
    {
        OptionalButton { button, pad, visible }
    }

    /// `button`, hidden for now, over a background of `color` in `area`.
    pub fn hidden(area: Rect, color: Color, button: Button) -> (b: OptionalButton)
        ensures
            b == (OptionalButton { button, pad: Pad { area, color, dirty: false }, visible: false }),
    {
        OptionalButton { button, pad: Pad::with_background(area, color), visible: false }
    }

    /// The button shown or hidden. Hiding clears the background; showing
    /// has the button drawn.
    pub open spec fn shown_if(self, show: bool) -> OptionalButton {
        if self.visible == show {
            self
        } else if show {
            OptionalButton { button: self.button.stale(), pad: self.pad, visible: true }
        } else {
            OptionalButton {
                button: self.button,
                pad: Pad { dirty: true, ..self.pad },
                visible: false,
            }
        }
    }

    /// Shows or hides the button, and asks for a paint pass if that is a change.
    pub fn show_if(&mut self, ctx: &mut EventCtx, show: bool)
        ensures
            *final(self) == old(self).shown_if(show),
            final(ctx).after_paint_request(*old(ctx), old(self).visible != show),
    {
        if self.visible != show {
            self.visible = show;
            if show {
                self.button.dirty = true;
            } else {
                self.pad.clear();
            }
            ctx.request_paint();
        }
    }

    /// The button shown or hidden, and then enabled or disabled.
    pub open spec fn set_to(self, show: bool, enabled: bool) -> OptionalButton {
        OptionalButton {
            button: self.shown_if(show).button.in_state(Button::state_if(enabled)),
            ..self.shown_if(show)
        }
    }

    /// Shows or hides the button, then enables or disables it; asks for a
    /// paint pass if either is a change.
    pub fn set(&mut self, ctx: &mut EventCtx, show: bool, enabled: bool)
        ensures
            *final(self) == old(self).set_to(show, enabled),
            final(ctx).after_paint_request(
                *old(ctx),
                old(self).visible != show || old(self).button.state != Button::state_if(enabled),
            ),
    {
        self.show_if(ctx, show);
        self.button.enabled(ctx, enabled);
    }

    /// The button with all of it due to be drawn: the background and the button.
    pub open spec fn all_stale(self) -> OptionalButton {
        OptionalButton {
            button: self.button.stale(),
            pad: Pad { dirty: true, ..self.pad },
            visible: self.visible,
        }
    }

    /// Whether `event` clicks the button: only a button that is shown can be clicked.
    pub open spec fn clicked_by(self, event: Event) -> bool {
        self.visible && self.button.clicked_by(event)
    }

    /// The button after `event`: a hidden button takes no notice.
    pub open spec fn after(self, event: Event) -> OptionalButton {
        if self.visible {
            OptionalButton { button: self.button.after(event), pad: self.pad, visible: true }
        } else {
            self
        }
    }

    /// The button once its paint pass is over.
    pub open spec fn clean(self) -> OptionalButton {
        OptionalButton {
            button: if self.visible {
                self.button.clean()
            } else {
                self.button
            },
            pad: Pad { dirty: false, ..self.pad },
            visible: self.visible,
        }
    }
}

impl Component for OptionalButton {
    type Msg = ButtonMsg;

    open spec fn handled(
        &self,
        before: &Self,
        ctx: EventCtx,
        event: Event,
        msg: Option<ButtonMsg>,
        asked: EventCtx,
    ) -> bool {
        &&& *self == before.after(event)
        &&& msg == (if before.visible {
            before.button.message(event)
        } else {
            None
        })
        &&& asked.after_paint_request(ctx, before.visible && before.button.changed_by(event))
    }

    open spec fn drawn(&self, before: &Self) -> bool {
        *self == before.clean()
    }

    open spec fn due_for_repaint(&self, before: &Self, ctx: EventCtx, asked: EventCtx) -> bool {
        *self == before.all_stale() && asked.after_paint_request(ctx, true)
    }

    /// What a paint pass draws: the background if it was cleared, and the
    /// button if it is shown and has changed.
    open spec fn painted(&self) -> Seq<DrawOp> {
        self.pad.painted() + if self.visible {
            self.button.painted()
        } else {
            Seq::empty()
        }
    }

    open spec fn regions(&self) -> Seq<Rect> {
        seq![self.pad.area, self.button.area]
    }

    /// Hands `event` to the button if it is shown.
    fn event(&mut self, ctx: &mut EventCtx, event: Event) -> (msg: Option<ButtonMsg>)
        ensures
            msg == (if old(self).visible {
                old(self).button.message(event)
            } else {
                None
            }),
            *final(self) == old(self).after(event),
            final(ctx).after_paint_request(
                *old(ctx),
                old(self).visible && old(self).button.changed_by(event),
            ),
    {
        if self.visible {
            self.button.event(ctx, event)
        } else {
            None
        }
    }

    fn paint(&mut self, display: &mut Display)
        ensures
            *final(self) == old(self).clean(),
            final(display)@ == old(display)@ + old(self).painted(),
    {
        self.pad.paint(display);
        if self.visible {
            self.button.paint(display);
        }
        assert(display@ =~= old(display)@ + old(self).painted());
    }

    fn bounds(&self, sink: &mut Vec<Rect>)
        ensures
            final(sink)@ == old(sink)@.push(self.pad.area).push(self.button.area),
    {
        sink.push(self.pad.area);
        self.button.bounds(sink);
    }

    fn request_complete_repaint(&mut self, ctx: &mut EventCtx)
        ensures
            *final(self) == (OptionalButton {
                button: old(self).button.stale(),
                pad: Pad { dirty: true, ..old(self).pad },
                visible: old(self).visible,
            }),
            final(ctx).after_paint_request(*old(ctx), true),
    {
        self.pad.clear();
        self.button.request_complete_repaint(ctx);
    }
}

/// The buttons in `buttons` enabled or disabled, all alike.
pub open spec fn all_in_state(before: Seq<Button>, after: Seq<Button>, enabled: bool) -> bool {
    &&& after.len() == before.len()
    &&& forall|i: int|
        0 <= i < before.len() ==>
            (#[trigger] after[i]) == before[i].in_state(Button::state_if(enabled))
}

/// The first button from `from` on that `event` clicks, if it clicks one.
pub open spec fn first_clicked(buttons: Seq<Button>, event: Event, from: int) -> Option<int>
    decreases buttons.len() - from,
{
    if from >= buttons.len() || from < 0 {
        None
    } else if buttons[from].clicked_by(event) {
        Some(from)
    } else {
        first_clicked(buttons, event, from + 1)
    }
}

/// What a paint pass draws of the first `count` of `buttons`, in order.
pub open spec fn buttons_painted(buttons: Seq<Button>, count: int) -> Seq<DrawOp>
    decreases count,
{
    if count <= 0 {
        Seq::empty()
    } else {
        buttons_painted(buttons, count - 1) + buttons[count - 1].painted()
    }
}

/// Whether one of the first `count` buttons is in another state than it was.
pub open spec fn state_changed(before: Seq<Button>, after: Seq<Button>, count: int) -> bool {
    exists|i: int| 0 <= i < count && (#[trigger] after[i]).state != before[i].state
}

/// Whether any button is in another state than it was.
pub open spec fn any_state_changed(before: Seq<Button>, after: Seq<Button>) -> bool {
    state_changed(before, after, before.len() as int)
}

/// Enables or disables every button of `buttons`.
pub fn enable_all(buttons: &mut Vec<Button>, ctx: &mut EventCtx, enabled: bool)
    ensures
        all_in_state(old(buttons)@, final(buttons)@, enabled),
        final(ctx).after_paint_request(*old(ctx), any_state_changed(old(buttons)@, final(buttons)@)),
{
    let mut i: usize = 0;
    while i < buttons.len()
        invariant
            i <= buttons.len(),
            buttons@.len() == old(buttons)@.len(),
            forall|j: int|
                0 <= j < i ==> (#[trigger] buttons@[j]) == old(buttons)@[j].in_state(
                    Button::state_if(enabled),
                ),
            forall|j: int| i <= j < buttons@.len() ==> (#[trigger] buttons@[j]) == old(buttons)@[j],
            ctx.after_paint_request(*old(ctx), state_changed(old(buttons)@, buttons@, i as int)),
        decreases buttons.len() - i,
    {
        let ghost before = buttons@;
        buttons[i].enabled(ctx, enabled);
        proof {
            lemma_state_changed_next(old(buttons)@, before, buttons@, i as int);
        }
        i = i + 1;
    }
}

/// Hands `event` to the buttons in order until one is clicked, and returns
/// the position of that one. The buttons up to it have followed the event;
/// the ones behind it have not seen it.
pub fn click_first(buttons: &mut Vec<Button>, ctx: &mut EventCtx, event: Event) -> (hit: Option<usize>)
    ensures
        final(buttons)@.len() == old(buttons)@.len(),
        (match hit {
            Some(i) => i < old(buttons)@.len() && first_clicked(old(buttons)@, event, 0) == Some(
                i as int,
            ),
            None => first_clicked(old(buttons)@, event, 0) is None,
        }),
        forall|j: int|
            0 <= j < old(buttons)@.len() ==> (#[trigger] final(buttons)@[j]) == (if hit is None || j
                <= hit->0 {
                old(buttons)@[j].after(event)
            } else {
                old(buttons)@[j]
            }),
        final(ctx).after_paint_request(*old(ctx), any_state_changed(old(buttons)@, final(buttons)@)),
{
    let mut i: usize = 0;
    while i < buttons.len()
        invariant
            i <= buttons.len(),
            buttons@.len() == old(buttons)@.len(),
            first_clicked(old(buttons)@, event, 0) == first_clicked(old(buttons)@, event, i as int),
            forall|j: int| 0 <= j < i ==> (#[trigger] buttons@[j]) == old(buttons)@[j].after(event),
            forall|j: int| i <= j < buttons@.len() ==> (#[trigger] buttons@[j]) == old(buttons)@[j],
            ctx.after_paint_request(*old(ctx), state_changed(old(buttons)@, buttons@, i as int)),
        decreases buttons.len() - i,
    {
        let ghost before = buttons@;
        let msg = buttons[i].event(ctx, event);
        proof {
            lemma_state_changed_next(old(buttons)@, before, buttons@, i as int);
        }
        if let Some(ButtonMsg::Clicked) = msg {
            proof {
                lemma_state_changed_rest(old(buttons)@, buttons@, i as int + 1);
            }
            return Some(i);
        }
        i = i + 1;
    }
    None
}

/// One more button has taken its turn: a button is in another state among
/// the first `i + 1` if one was among the first `i` or this one is now.
proof fn lemma_state_changed_next(
    first: Seq<Button>,
    before: Seq<Button>,
    after: Seq<Button>,
    i: int,
)
    requires
        0 <= i < first.len(),
        before.len() == first.len(),
        after.len() == first.len(),
        before[i] == first[i],
        forall|j: int| 0 <= j < first.len() && j != i ==> (#[trigger] after[j]) == before[j],
    ensures
        state_changed(first, after, i + 1) == (state_changed(first, before, i) || after[i].state
            != first[i].state),
{
    if state_changed(first, before, i) {
        let j = choose|j: int| 0 <= j < i && (#[trigger] before[j]).state != first[j].state;
        assert(after[j].state != first[j].state);
    }
    if after[i].state != first[i].state {
        assert(state_changed(first, after, i + 1));
    }
    if state_changed(first, after, i + 1) {
        let j = choose|j: int| 0 <= j < i + 1 && (#[trigger] after[j]).state != first[j].state;
        if j < i {
            assert(before[j].state != first[j].state);
        }
    }
}

/// The buttons from `count` on have not had their turn: what holds of the
/// first `count` holds of all.
proof fn lemma_state_changed_rest(first: Seq<Button>, after: Seq<Button>, count: int)
    requires
        0 <= count <= first.len(),
        after.len() == first.len(),
        forall|j: int| count <= j < first.len() ==> (#[trigger] after[j]) == first[j],
    ensures
        any_state_changed(first, after) == state_changed(first, after, count),
{
    if any_state_changed(first, after) {
        let j = choose|j: int| 0 <= j < first.len() && (#[trigger] after[j]).state != first[j].state;
        assert(j < count);
    }
    if state_changed(first, after, count) {
        let j = choose|j: int| 0 <= j < count && (#[trigger] after[j]).state != first[j].state;
        assert(after[j].state != first[j].state);
    }
}

/// Paints every button of `buttons`, in order.
pub fn paint_all(buttons: &mut Vec<Button>, display: &mut Display)
    ensures
        final(buttons)@.len() == old(buttons)@.len(),
        forall|j: int|
            0 <= j < old(buttons)@.len() ==>
                (#[trigger] final(buttons)@[j]) == old(buttons)@[j].clean(),
        final(display)@
            == old(display)@ + buttons_painted(old(buttons)@, old(buttons)@.len() as int),
{
    let mut i: usize = 0;
    assert(display@ =~= old(display)@ + buttons_painted(old(buttons)@, 0));
    while i < buttons.len()
        invariant
            i <= buttons.len(),
            buttons@.len() == old(buttons)@.len(),
            forall|j: int| 0 <= j < i ==> (#[trigger] buttons@[j]) == old(buttons)@[j].clean(),
            forall|j: int| i <= j < buttons@.len() ==> (#[trigger] buttons@[j]) == old(buttons)@[j],
            display@ == old(display)@ + buttons_painted(old(buttons)@, i as int),
        decreases buttons.len() - i,
    {
        let ghost before = display@;
        buttons[i].paint(display);
        i = i + 1;
        assert(display@ =~= old(display)@ + buttons_painted(old(buttons)@, i as int));
    }
}

/// Appends the area of every button of `buttons` to `sink`, in order.
pub fn bounds_of_all(buttons: &Vec<Button>, sink: &mut Vec<Rect>)
    ensures
        final(sink)@ == old(sink)@ + Seq::new(buttons@.len(), |i: int| buttons@[i].area),
{
    let mut i: usize = 0;
    assert(sink@ =~= old(sink)@ + Seq::new(0, |i: int| buttons@[i].area));
    while i < buttons.len()
        invariant
            i <= buttons.len(),
            sink@ == old(sink)@ + Seq::new(i as nat, |k: int| buttons@[k].area),
        decreases buttons.len() - i,
    {
        sink.push(buttons[i].area);
        i = i + 1;
        assert(sink@ =~= old(sink)@ + Seq::new(i as nat, |k: int| buttons@[k].area));
    }
}

/// Has every button of `buttons` drawn by the next paint pass.
pub fn stale_all(buttons: &mut Vec<Button>, ctx: &mut EventCtx)
    ensures
        final(buttons)@.len() == old(buttons)@.len(),
        forall|k: int|
            0 <= k < old(buttons)@.len() ==>
                (#[trigger] final(buttons)@[k]) == old(buttons)@[k].stale(),
        final(ctx).after_paint_request(*old(ctx), old(buttons)@.len() > 0),
{
    let mut i: usize = 0;
    while i < buttons.len()
        invariant
            i <= buttons.len(),
            buttons@.len() == old(buttons)@.len(),
            forall|k: int| 0 <= k < i ==> (#[trigger] buttons@[k]) == old(buttons)@[k].stale(),
            forall|k: int| i <= k < buttons@.len() ==> (#[trigger] buttons@[k]) == old(buttons)@[k],
            ctx.after_paint_request(*old(ctx), i > 0),
        decreases buttons.len() - i,
    {
        buttons[i].request_complete_repaint(ctx);
        i = i + 1;
    }
}

} // verus!
