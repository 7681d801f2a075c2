//! The color model: a concrete terminal style, the inheriting entry of a rule,
//! and the named styles that rule tables are written with.
use vstd::prelude::*;

verus! {

/// One of the terminal's named hues. `Gray` is the bright black of the
/// 256-color palette.
#[derive(Clone, Copy, Debug, PartialEq, Eq, Structural)]
pub enum NamedColor {
    Black,
    Blue,
    Green,
    Red,
    Cyan,
    Magenta,
    Yellow,
    White,
    Gray,
}

/// A concrete terminal style.
#[derive(Clone, Copy, Debug, PartialEq, Eq, Structural)]
pub struct Color {
    pub foreground: Option<NamedColor>,
    pub background: Option<NamedColor>,
    pub bold: bool,
    pub underline: bool,
    pub dim: bool,
}

/// The style with no attributes at all: what text has before any rule colors it.
pub open spec fn default_color() -> Color {
    Color { foreground: None, background: None, bold: false, underline: false, dim: false }
}

impl Color {
    /// The style with no attributes.
    pub fn plain() -> (r: Color)
        ensures
            r == default_color(),
    {
        Color { foreground: None, background: None, bold: false, underline: false, dim: false }
    }

    /// Whether this is the style with no attributes.
    pub fn is_plain(&self) -> (r: bool)
        ensures
            r == (*self == default_color()),
    {
        self.foreground.is_none() && self.background.is_none() && !self.bold && !self.underline
            && !self.dim
    }
}

/// An entry of a rule: a concrete style, or `Inherit`, which takes the style
/// that was resolved last while the same line was being colored.
#[derive(Clone, Copy, Debug, PartialEq, Eq, Structural)]
pub enum Paint {
    Inherit,
    Fixed(Color),
}

/// The named styles that rule tables are written with. `UnChanged` stands for
/// the inheriting entry; every other name is one concrete color.
#[derive(Clone, Copy, Debug, PartialEq, Eq, Structural)]
pub enum Colors {
    UnChanged,
    Default,
    Black,
    Blue,
    Green,
    Red,
    Cyan,
    Magenta,
    Yellow,
    White,
    BDefault,
    BBlack,
    BBlue,
    BGreen,
    BRed,
    BCyan,
    BMagenta,
    BYellow,
    BWhite,
    DDefault,
    DBlack,
    DBlue,
    DGreen,
    DRed,
    DCyan,
    DMagenta,
    DYellow,
    DWhite,
    OnBlack,
    OnBlue,
    OnGreen,
    OnRed,
    OnCyan,
    OnMagenta,
    OnYellow,
    OnWhite,
    BlackOnBlack,
    BlackOnBlue,
    BlackOnGreen,
    BlackOnRed,
    BlackOnCyan,
    BlackOnMagenta,
    BlackOnYellow,
    BlackOnWhite,
    UDefault,
    UBlack,
    UBlue,
    UGreen,
    URed,
    UCyan,
    UMagenta,
    UYellow,
    UWhite,
    UBDefault,
    UBBlack,
    UBBlue,
    UBGreen,
    UBRed,
    UBCyan,
    UBMagenta,
    UBYellow,
    UBWhite,
}

/// The paint that a named style stands for.
pub open spec fn paint_of(c: Colors) -> Paint {
    match c {
        Colors::UnChanged => Paint::Inherit,
        Colors::Default => Paint::Fixed(Color { foreground: None, background: None, bold: false, underline: false, dim: false }),
        Colors::Black => Paint::Fixed(Color { foreground: Some(NamedColor::Black), background: None, bold: false, underline: false, dim: false }),
        Colors::Blue => Paint::Fixed(Color { foreground: Some(NamedColor::Blue), background: None, bold: false, underline: false, dim: false }),
        Colors::Green => Paint::Fixed(Color { foreground: Some(NamedColor::Green), background: None, bold: false, underline: false, dim: false }),
        Colors::Red => Paint::Fixed(Color { foreground: Some(NamedColor::Red), background: None, bold: false, underline: false, dim: false }),
        Colors::Cyan => Paint::Fixed(Color { foreground: Some(NamedColor::Cyan), background: None, bold: false, underline: false, dim: false }),
        Colors::Magenta => Paint::Fixed(Color { foreground: Some(NamedColor::Magenta), background: None, bold: false, underline: false, dim: false }),
        Colors::Yellow => Paint::Fixed(Color { foreground: Some(NamedColor::Yellow), background: None, bold: false, underline: false, dim: false }),
        Colors::White => Paint::Fixed(Color { foreground: Some(NamedColor::White), background: None, bold: false, underline: false, dim: false }),
        Colors::BDefault => Paint::Fixed(Color { foreground: None, background: None, bold: true, underline: false, dim: false }),
        Colors::BBlack => Paint::Fixed(Color { foreground: Some(NamedColor::Gray), background: None, bold: true, underline: false, dim: false }),
        Colors::BBlue => Paint::Fixed(Color { foreground: Some(NamedColor::Blue), background: None, bold: true, underline: false, dim: false }),
        Colors::BGreen => Paint::Fixed(Color { foreground: Some(NamedColor::Green), background: None, bold: true, underline: false, dim: false }),
        Colors::BRed => Paint::Fixed(Color { foreground: Some(NamedColor::Red), background: None, bold: true, underline: false, dim: false }),
        Colors::BCyan => Paint::Fixed(Color { foreground: Some(NamedColor::Cyan), background: None, bold: true, underline: false, dim: false }),
        Colors::BMagenta => Paint::Fixed(Color { foreground: Some(NamedColor::Magenta), background: None, bold: true, underline: false, dim: false }),
        Colors::BYellow => Paint::Fixed(Color { foreground: Some(NamedColor::Yellow), background: None, bold: true, underline: false, dim: false }),
        Colors::BWhite => Paint::Fixed(Color { foreground: Some(NamedColor::White), background: None, bold: true, underline: false, dim: false }),
        Colors::DDefault => Paint::Fixed(Color { foreground: None, background: None, bold: false, underline: false, dim: true }),
        Colors::DBlack => Paint::Fixed(Color { foreground: Some(NamedColor::Black), background: None, bold: false, underline: false, dim: true }),
        Colors::DBlue => Paint::Fixed(Color { foreground: Some(NamedColor::Blue), background: None, bold: false, underline: false, dim: true }),
        Colors::DGreen => Paint::Fixed(Color { foreground: Some(NamedColor::Green), background: None, bold: false, underline: false, dim: true }),
        Colors::DRed => Paint::Fixed(Color { foreground: Some(NamedColor::Red), background: None, bold: false, underline: false, dim: true }),
        Colors::DCyan => Paint::Fixed(Color { foreground: Some(NamedColor::Cyan), background: None, bold: false, underline: false, dim: true }),
        Colors::DMagenta => Paint::Fixed(Color { foreground: Some(NamedColor::Magenta), background: None, bold: false, underline: false, dim: true }),
        Colors::DYellow => Paint::Fixed(Color { foreground: Some(NamedColor::Yellow), background: None, bold: false, underline: false, dim: true }),
        Colors::DWhite => Paint::Fixed(Color { foreground: Some(NamedColor::White), background: None, bold: false, underline: false, dim: true }),
        Colors::OnBlack => Paint::Fixed(Color { foreground: None, background: Some(NamedColor::Black), bold: false, underline: false, dim: false }),
        Colors::OnBlue => Paint::Fixed(Color { foreground: None, background: Some(NamedColor::Blue), bold: false, underline: false, dim: false }),
        Colors::OnGreen => Paint::Fixed(Color { foreground: None, background: Some(NamedColor::Green), bold: false, underline: false, dim: false }),
        Colors::OnRed => Paint::Fixed(Color { foreground: None, background: Some(NamedColor::Red), bold: false, underline: false, dim: false }),
        Colors::OnCyan => Paint::Fixed(Color { foreground: None, background: Some(NamedColor::Cyan), bold: false, underline: false, dim: false }),
        Colors::OnMagenta => Paint::Fixed(Color { foreground: None, background: Some(NamedColor::Magenta), bold: false, underline: false, dim: false }),
        Colors::OnYellow => Paint::Fixed(Color { foreground: None, background: Some(NamedColor::Yellow), bold: false, underline: false, dim: false }),
        Colors::OnWhite => Paint::Fixed(Color { foreground: None, background: Some(NamedColor::White), bold: false, underline: false, dim: false }),
        Colors::BlackOnBlack => Paint::Fixed(Color { foreground: Some(NamedColor::Black), background: Some(NamedColor::Black), bold: false, underline: false, dim: false }),
        Colors::BlackOnBlue => Paint::Fixed(Color { foreground: Some(NamedColor::Black), background: Some(NamedColor::Blue), bold: false, underline: false, dim: false }),
        Colors::BlackOnGreen => Paint::Fixed(Color { foreground: Some(NamedColor::Black), background: Some(NamedColor::Green), bold: false, underline: false, dim: false }),
        Colors::BlackOnRed => Paint::Fixed(Color { foreground: Some(NamedColor::Black), background: Some(NamedColor::Red), bold: false, underline: false, dim: false }),
        Colors::BlackOnCyan => Paint::Fixed(Color { foreground: Some(NamedColor::Black), background: Some(NamedColor::Cyan), bold: false, underline: false, dim: false }),
        Colors::BlackOnMagenta => Paint::Fixed(Color { foreground: Some(NamedColor::Black), background: Some(NamedColor::Magenta), bold: false, underline: false, dim: false }),
        Colors::BlackOnYellow => Paint::Fixed(Color { foreground: Some(NamedColor::Black), background: Some(NamedColor::Yellow), bold: false, underline: false, dim: false }),
        Colors::BlackOnWhite => Paint::Fixed(Color { foreground: Some(NamedColor::Black), background: Some(NamedColor::White), bold: false, underline: false, dim: false }),
        Colors::UDefault => Paint::Fixed(Color { foreground: None, background: None, bold: false, underline: true, dim: false }),
        Colors::UBlack => Paint::Fixed(Color { foreground: Some(NamedColor::Black), background: None, bold: false, underline: true, dim: false }),
        Colors::UBlue => Paint::Fixed(Color { foreground: Some(NamedColor::Blue), background: None, bold: false, underline: true, dim: false }),
        Colors::UGreen => Paint::Fixed(Color { foreground: Some(NamedColor::Green), background: None, bold: false, underline: true, dim: false }),
        Colors::URed => Paint::Fixed(Color { foreground: Some(NamedColor::Red), background: None, bold: false, underline: true, dim: false }),
        Colors::UCyan => Paint::Fixed(Color { foreground: Some(NamedColor::Cyan), background: None, bold: false, underline: true, dim: false }),
        Colors::UMagenta => Paint::Fixed(Color { foreground: Some(NamedColor::Magenta), background: None, bold: false, underline: true, dim: false }),
        Colors::UYellow => Paint::Fixed(Color { foreground: Some(NamedColor::Yellow), background: None, bold: false, underline: true, dim: false }),
        Colors::UWhite => Paint::Fixed(Color { foreground: Some(NamedColor::White), background: None, bold: false, underline: true, dim: false }),
        Colors::UBDefault => Paint::Fixed(Color { foreground: None, background: None, bold: true, underline: true, dim: false }),
        Colors::UBBlack => Paint::Fixed(Color { foreground: Some(NamedColor::Black), background: None, bold: true, underline: true, dim: false }),
        Colors::UBBlue => Paint::Fixed(Color { foreground: Some(NamedColor::Blue), background: None, bold: true, underline: true, dim: false }),
        Colors::UBGreen => Paint::Fixed(Color { foreground: Some(NamedColor::Green), background: None, bold: true, underline: true, dim: false }),
        Colors::UBRed => Paint::Fixed(Color { foreground: Some(NamedColor::Red), background: None, bold: true, underline: true, dim: false }),
        Colors::UBCyan => Paint::Fixed(Color { foreground: Some(NamedColor::Cyan), background: None, bold: true, underline: true, dim: false }),
        Colors::UBMagenta => Paint::Fixed(Color { foreground: Some(NamedColor::Magenta), background: None, bold: true, underline: true, dim: false }),
        Colors::UBYellow => Paint::Fixed(Color { foreground: Some(NamedColor::Yellow), background: None, bold: true, underline: true, dim: false }),
        Colors::UBWhite => Paint::Fixed(Color { foreground: Some(NamedColor::White), background: None, bold: true, underline: true, dim: false }),
    }
}

impl Colors {
    /// The paint that this named style stands for.
    pub fn paint(&self) -> (r: Paint)
        ensures
            r == paint_of(*self),
    {
        match self {
            Colors::UnChanged => Paint::Inherit,
            Colors::Default => Paint::Fixed(Color { foreground: None, background: None, bold: false, underline: false, dim: false }),
            Colors::Black => Paint::Fixed(Color { foreground: Some(NamedColor::Black), background: None, bold: false, underline: false, dim: false }),
            Colors::Blue => Paint::Fixed(Color { foreground: Some(NamedColor::Blue), background: None, bold: false, underline: false, dim: false }),
            Colors::Green => Paint::Fixed(Color { foreground: Some(NamedColor::Green), background: None, bold: false, underline: false, dim: false }),
            Colors::Red => Paint::Fixed(Color { foreground: Some(NamedColor::Red), background: None, bold: false, underline: false, dim: false }),
            Colors::Cyan => Paint::Fixed(Color { foreground: Some(NamedColor::Cyan), background: None, bold: false, underline: false, dim: false }),
            Colors::Magenta => Paint::Fixed(Color { foreground: Some(NamedColor::Magenta), background: None, bold: false, underline: false, dim: false }),
            Colors::Yellow => Paint::Fixed(Color { foreground: Some(NamedColor::Yellow), background: None, bold: false, underline: false, dim: false }),
            Colors::White => Paint::Fixed(Color { foreground: Some(NamedColor::White), background: None, bold: false, underline: false, dim: false }),
            Colors::BDefault => Paint::Fixed(Color { foreground: None, background: None, bold: true, underline: false, dim: false }),
            Colors::BBlack => Paint::Fixed(Color { foreground: Some(NamedColor::Gray), background: None, bold: true, underline: false, dim: false }),
            Colors::BBlue => Paint::Fixed(Color { foreground: Some(NamedColor::Blue), background: None, bold: true, underline: false, dim: false }),
            Colors::BGreen => Paint::Fixed(Color { foreground: Some(NamedColor::Green), background: None, bold: true, underline: false, dim: false }),
            Colors::BRed => Paint::Fixed(Color { foreground: Some(NamedColor::Red), background: None, bold: true, underline: false, dim: false }),
            Colors::BCyan => Paint::Fixed(Color { foreground: Some(NamedColor::Cyan), background: None, bold: true, underline: false, dim: false }),
            Colors::BMagenta => Paint::Fixed(Color { foreground: Some(NamedColor::Magenta), background: None, bold: true, underline: false, dim: false }),
            Colors::BYellow => Paint::Fixed(Color { foreground: Some(NamedColor::Yellow), background: None, bold: true, underline: false, dim: false }),
            Colors::BWhite => Paint::Fixed(Color { foreground: Some(NamedColor::White), background: None, bold: true, underline: false, dim: false }),
            Colors::DDefault => Paint::Fixed(Color { foreground: None, background: None, bold: false, underline: false, dim: true }),
            Colors::DBlack => Paint::Fixed(Color { foreground: Some(NamedColor::Black), background: None, bold: false, underline: false, dim: true }),
            Colors::DBlue => Paint::Fixed(Color { foreground: Some(NamedColor::Blue), background: None, bold: false, underline: false, dim: true }),
            Colors::DGreen => Paint::Fixed(Color { foreground: Some(NamedColor::Green), background: None, bold: false, underline: false, dim: true }),
            Colors::DRed => Paint::Fixed(Color { foreground: Some(NamedColor::Red), background: None, bold: false, underline: false, dim: true }),
            Colors::DCyan => Paint::Fixed(Color { foreground: Some(NamedColor::Cyan), background: None, bold: false, underline: false, dim: true }),
            Colors::DMagenta => Paint::Fixed(Color { foreground: Some(NamedColor::Magenta), background: None, bold: false, underline: false, dim: true }),
            Colors::DYellow => Paint::Fixed(Color { foreground: Some(NamedColor::Yellow), background: None, bold: false, underline: false, dim: true }),
            Colors::DWhite => Paint::Fixed(Color { foreground: Some(NamedColor::White), background: None, bold: false, underline: false, dim: true }),
            Colors::OnBlack => Paint::Fixed(Color { foreground: None, background: Some(NamedColor::Black), bold: false, underline: false, dim: false }),
            Colors::OnBlue => Paint::Fixed(Color { foreground: None, background: Some(NamedColor::Blue), bold: false, underline: false, dim: false }),
            Colors::OnGreen => Paint::Fixed(Color { foreground: None, background: Some(NamedColor::Green), bold: false, underline: false, dim: false }),
            Colors::OnRed => Paint::Fixed(Color { foreground: None, background: Some(NamedColor::Red), bold: false, underline: false, dim: false }),
            Colors::OnCyan => Paint::Fixed(Color { foreground: None, background: Some(NamedColor::Cyan), bold: false, underline: false, dim: false }),
            Colors::OnMagenta => Paint::Fixed(Color { foreground: None, background: Some(NamedColor::Magenta), bold: false, underline: false, dim: false }),
            Colors::OnYellow => Paint::Fixed(Color { foreground: None, background: Some(NamedColor::Yellow), bold: false, underline: false, dim: false }),
            Colors::OnWhite => Paint::Fixed(Color { foreground: None, background: Some(NamedColor::White), bold: false, underline: false, dim: false }),
            Colors::BlackOnBlack => Paint::Fixed(Color { foreground: Some(NamedColor::Black), background: Some(NamedColor::Black), bold: false, underline: false, dim: false }),
            Colors::BlackOnBlue => Paint::Fixed(Color { foreground: Some(NamedColor::Black), background: Some(NamedColor::Blue), bold: false, underline: false, dim: false }),
            Colors::BlackOnGreen => Paint::Fixed(Color { foreground: Some(NamedColor::Black), background: Some(NamedColor::Green), bold: false, underline: false, dim: false }),
            Colors::BlackOnRed => Paint::Fixed(Color { foreground: Some(NamedColor::Black), background: Some(NamedColor::Red), bold: false, underline: false, dim: false }),
            Colors::BlackOnCyan => Paint::Fixed(Color { foreground: Some(NamedColor::Black), background: Some(NamedColor::Cyan), bold: false, underline: false, dim: false }),
            Colors::BlackOnMagenta => Paint::Fixed(Color { foreground: Some(NamedColor::Black), background: Some(NamedColor::Magenta), bold: false, underline: false, dim: false }),
            Colors::BlackOnYellow => Paint::Fixed(Color { foreground: Some(NamedColor::Black), background: Some(NamedColor::Yellow), bold: false, underline: false, dim: false }),
            Colors::BlackOnWhite => Paint::Fixed(Color { foreground: Some(NamedColor::Black), background: Some(NamedColor::White), bold: false, underline: false, dim: false }),
            Colors::UDefault => Paint::Fixed(Color { foreground: None, background: None, bold: false, underline: true, dim: false }),
            Colors::UBlack => Paint::Fixed(Color { foreground: Some(NamedColor::Black), background: None, bold: false, underline: true, dim: false }),
            Colors::UBlue => Paint::Fixed(Color { foreground: Some(NamedColor::Blue), background: None, bold: false, underline: true, dim: false }),
            Colors::UGreen => Paint::Fixed(Color { foreground: Some(NamedColor::Green), background: None, bold: false, underline: true, dim: false }),
            Colors::URed => Paint::Fixed(Color { foreground: Some(NamedColor::Red), background: None, bold: false, underline: true, dim: false }),
            Colors::UCyan => Paint::Fixed(Color { foreground: Some(NamedColor::Cyan), background: None, bold: false, underline: true, dim: false }),
            Colors::UMagenta => Paint::Fixed(Color { foreground: Some(NamedColor::Magenta), background: None, bold: false, underline: true, dim: false }),
            Colors::UYellow => Paint::Fixed(Color { foreground: Some(NamedColor::Yellow), background: None, bold: false, underline: true, dim: false }),
            Colors::UWhite => Paint::Fixed(Color { foreground: Some(NamedColor::White), background: None, bold: false, underline: true, dim: false }),
            Colors::UBDefault => Paint::Fixed(Color { foreground: None, background: None, bold: true, underline: true, dim: false }),
            Colors::UBBlack => Paint::Fixed(Color { foreground: Some(NamedColor::Black), background: None, bold: true, underline: true, dim: false }),
            Colors::UBBlue => Paint::Fixed(Color { foreground: Some(NamedColor::Blue), background: None, bold: true, underline: true, dim: false }),
            Colors::UBGreen => Paint::Fixed(Color { foreground: Some(NamedColor::Green), background: None, bold: true, underline: true, dim: false }),
            Colors::UBRed => Paint::Fixed(Color { foreground: Some(NamedColor::Red), background: None, bold: true, underline: true, dim: false }),
            Colors::UBCyan => Paint::Fixed(Color { foreground: Some(NamedColor::Cyan), background: None, bold: true, underline: true, dim: false }),
            Colors::UBMagenta => Paint::Fixed(Color { foreground: Some(NamedColor::Magenta), background: None, bold: true, underline: true, dim: false }),
            Colors::UBYellow => Paint::Fixed(Color { foreground: Some(NamedColor::Yellow), background: None, bold: true, underline: true, dim: false }),
            Colors::UBWhite => Paint::Fixed(Color { foreground: Some(NamedColor::White), background: None, bold: true, underline: true, dim: false }),
        }
    }
}

} // verus!
