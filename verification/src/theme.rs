//! Colours, fonts, icons and distances shared by the components.
use vstd::prelude::*;

verus! {

/// A colour: one of the palette, or any other in the display's 16-bit format
/// (five bits of red, six of green, five of blue).
#[derive(Clone, Copy, Debug, PartialEq, Eq, Structural)]
pub enum Color {
    White,
    Black,
    Red,
    Yellow,
    Green,
    GreyLight,
    GreyDark,
    Rgb565(u16),
}

/// A typeface the display can render.
#[derive(Clone, Copy, Debug, PartialEq, Eq, Structural)]
pub enum Font {
    Normal,
    Bold,
    Mono,
}

/// A picture the display can render.
#[derive(Clone, Copy, Debug, PartialEq, Eq, Structural)]
pub enum Icon {
    Back,
    Cancel,
    Confirm,
    Space,
    DotActive,
    DotInactive,
    ScrollUp,
    ScrollDown,
}

pub const FG: Color = Color::White;

pub const BG: Color = Color::Black;

pub const RED: Color = Color::Red;

pub const YELLOW: Color = Color::Yellow;

pub const GREEN: Color = Color::Green;

pub const GREY_LIGHT: Color = Color::GreyLight;

pub const GREY_DARK: Color = Color::GreyDark;

pub const FONT_NORMAL: Font = Font::Normal;

pub const FONT_BOLD: Font = Font::Bold;

pub const FONT_MONO: Font = Font::Mono;

/// The backlight level of a display in use.
pub const BACKLIGHT_NORMAL: i32 = 150;

/// The backlight level of a dark display.
pub const BACKLIGHT_NONE: i32 = 2;

/// The free space between content and the edge of the display.
pub const CONTENT_BORDER: i32 = 5;

/// The free space between the keys of a keyboard.
pub const KEYBOARD_SPACING: i32 = 8;

/// The height of a button in a row of controls.
pub const BUTTON_HEIGHT: i32 = 38;

/// The colours and the font of a piece of text.
#[derive(Clone, Copy, Debug, PartialEq, Eq, Structural)]
pub struct TextStyle {
    pub font: Font,
    pub text_color: Color,
    pub background_color: Color,
}

pub open spec fn spec_label_default() -> TextStyle {
    TextStyle { font: FONT_NORMAL, text_color: FG, background_color: BG }
}

#[verifier::when_used_as_spec(spec_label_default)]
pub fn label_default() -> (s: TextStyle)
    ensures
        s == spec_label_default(),
{
    TextStyle { font: FONT_NORMAL, text_color: FG, background_color: BG }
}

pub open spec fn spec_label_keyboard() -> TextStyle {
    TextStyle { font: FONT_BOLD, text_color: GREY_LIGHT, background_color: BG }
}

#[verifier::when_used_as_spec(spec_label_keyboard)]
pub fn label_keyboard() -> (s: TextStyle)
    ensures
        s == spec_label_keyboard(),
{
    TextStyle { font: FONT_BOLD, text_color: GREY_LIGHT, background_color: BG }
}

pub open spec fn spec_label_keyboard_warning() -> TextStyle {
    TextStyle { font: FONT_BOLD, text_color: RED, background_color: BG }
}

#[verifier::when_used_as_spec(spec_label_keyboard_warning)]
pub fn label_keyboard_warning() -> (s: TextStyle)
    ensures
        s == spec_label_keyboard_warning(),
{
    TextStyle { font: FONT_BOLD, text_color: RED, background_color: BG }
}

pub open spec fn spec_label_keyboard_minor() -> TextStyle {
    TextStyle { font: FONT_NORMAL, text_color: GREY_DARK, background_color: BG }
}

#[verifier::when_used_as_spec(spec_label_keyboard_minor)]
pub fn label_keyboard_minor() -> (s: TextStyle)
    ensures
        s == spec_label_keyboard_minor(),
{
    TextStyle { font: FONT_NORMAL, text_color: GREY_DARK, background_color: BG }
}

/// The look of a button: what a press means to its user.
#[derive(Clone, Copy, Debug, PartialEq, Eq, Structural)]
pub enum ButtonKind {
    /// A neutral key.
    Default,
    /// Finishes the entry.
    Confirm,
    /// Abandons the entry.
    Cancel,
    /// Takes back what was entered.
    Reset,
    /// A key of the PIN keypad.
    Pin,
}

/// The state of a button as far as its look goes.
#[derive(Clone, Copy, Debug, PartialEq, Eq, Structural)]
pub enum ButtonLook {
    Normal,
    Active,
    Disabled,
}

/// The colours and the font of a button.
#[derive(Clone, Copy, Debug, PartialEq, Eq, Structural)]
pub struct ButtonStyle {
    pub font: Font,
    pub text_color: Color,
    pub button_color: Color,
}

/// The style of a button of kind `kind` that looks `look`: a pressed button
/// is light, a disabled one fades into the background, and otherwise the
/// kind gives the colour.
pub open spec fn spec_button_style(kind: ButtonKind, look: ButtonLook) -> ButtonStyle {
    match look {
        ButtonLook::Active => ButtonStyle { font: FONT_BOLD, text_color: BG, button_color: GREY_LIGHT },
        ButtonLook::Disabled => ButtonStyle { font: FONT_BOLD, text_color: GREY_DARK, button_color: BG },
        ButtonLook::Normal => ButtonStyle {
            font: match kind {
                ButtonKind::Pin => FONT_MONO,
                _ => FONT_BOLD,
            },
            text_color: FG,
            button_color: match kind {
                ButtonKind::Default => GREY_DARK,
                ButtonKind::Confirm => GREEN,
                ButtonKind::Cancel => RED,
                ButtonKind::Reset => YELLOW,
                ButtonKind::Pin => GREY_DARK,
            },
        },
    }
}

#[verifier::when_used_as_spec(spec_button_style)]
pub fn button_style(kind: ButtonKind, look: ButtonLook) -> (s: ButtonStyle)
    ensures
        s == spec_button_style(kind, look),
{
    match look {
        ButtonLook::Active => ButtonStyle { font: FONT_BOLD, text_color: BG, button_color: GREY_LIGHT },
        ButtonLook::Disabled => ButtonStyle { font: FONT_BOLD, text_color: GREY_DARK, button_color: BG },
        ButtonLook::Normal => ButtonStyle {
            font: match kind {
                ButtonKind::Pin => FONT_MONO,
                _ => FONT_BOLD,
            },
            text_color: FG,
            button_color: match kind {
                ButtonKind::Default => GREY_DARK,
                ButtonKind::Confirm => GREEN,
                ButtonKind::Cancel => RED,
                ButtonKind::Reset => YELLOW,
                ButtonKind::Pin => GREY_DARK,
            },
        },
    }
}

} // verus!
