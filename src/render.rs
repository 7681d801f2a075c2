//! The renderer: fragments to the bytes written to the terminal.
use vstd::prelude::*;
use vstd::string::*;
use termcolor::WriteColor;
use termcolor::Color as TermColor;
use crate::color::{Color, NamedColor, default_color};
use crate::highlight::{Frag, Fragment, frags_view};

verus! {

#[verifier::external_type_specification]
#[verifier::external_body]
pub struct ExTerminalColor(TermColor);

/// The escape sequence that switches the terminal to a style: a reset, then
/// the style's attributes and hues.
pub uninterp spec fn ansi_escape(color: Color) -> Seq<u8>;

/// Relies on termcolor's `Color`: each named hue is the variant of the same
/// name, and `Gray` is entry 8 of the 256-color palette.
#[verifier::external_body]
fn terminal_color(c: NamedColor) -> TermColor {
    match c {
        NamedColor::Black => TermColor::Black,
        NamedColor::Blue => TermColor::Blue,
        NamedColor::Green => TermColor::Green,
        NamedColor::Red => TermColor::Red,
        NamedColor::Cyan => TermColor::Cyan,
        NamedColor::Magenta => TermColor::Magenta,
        NamedColor::Yellow => TermColor::Yellow,
        NamedColor::White => TermColor::White,
        NamedColor::Gray => TermColor::Ansi256(8),
    }
}

/// Relies on termcolor's ANSI `Buffer::set_color`, given a `ColorSpec` that
/// carries the style's fields: the bytes it writes depend on the style alone.
#[verifier::external_body]
fn escape_of(color: &Color) -> (r: Vec<u8>)
    ensures
        r@ == ansi_escape(*color),
{
    let mut spec = termcolor::ColorSpec::new();
    spec.set_fg(color.foreground.map(terminal_color))
        .set_bg(color.background.map(terminal_color))
        .set_bold(color.bold)
        .set_underline(color.underline)
        .set_dimmed(color.dim);
    let mut buffer = termcolor::Buffer::ansi();
    let _ = buffer.set_color(&spec);
    buffer.into_inner()
}

/// The bytes of one fragment: with color, its style's escape, its text, and
/// the escape back to the default; without, its text alone.
pub open spec fn fragment_bytes(f: Frag, color_enabled: bool) -> Seq<u8> {
    if color_enabled {
        ansi_escape(f.1) + f.0 + ansi_escape(default_color())
    } else {
        f.0
    }
}

/// The bytes of the fragments one after another.
pub open spec fn fragments_bytes(frags: Seq<Frag>, color_enabled: bool) -> Seq<u8>
    decreases frags.len(),
{
    if frags.len() == 0 {
        seq![]
    } else {
        fragments_bytes(frags.drop_last(), color_enabled) + fragment_bytes(frags.last(), color_enabled)
    }
}

/// A rendered line: its fragments, then one newline.
pub open spec fn render_spec(frags: Seq<Frag>, color_enabled: bool) -> Seq<u8> {
    fragments_bytes(frags, color_enabled).push(10u8)
}

fn append_bytes(out: &mut Vec<u8>, bytes: &[u8])
    ensures
        final(out)@ == old(out)@ + bytes@,
{
    let mut i: usize = 0;
    while i < bytes.len()
        invariant
            i <= bytes@.len(),
            out@ == old(out)@ + bytes@.take(i as int),
        decreases bytes.len() - i,
    {
        out.push(bytes[i]);
        proof {
            assert(bytes@.take(i as int + 1) =~= bytes@.take(i as int).push(bytes@[i as int]));
        }
        i += 1;
    }
    proof {
        assert(bytes@.take(i as int) =~= bytes@);
    }
}

/// Renders a highlighted line. With color, each fragment is written as its
/// style's escape, its text and the escape back to the default; without
/// color, the texts alone. The line always ends in one newline.
pub fn render(line: &Vec<Fragment>, color_enabled: bool) -> (r: Vec<u8>)
    ensures
        r@ == render_spec(frags_view(line@), color_enabled),
{
    let reset = escape_of(&Color::plain());
    let mut out: Vec<u8> = Vec::new();
    let mut i: usize = 0;
    while i < line.len()
        invariant
            i <= line@.len(),
            reset@ == ansi_escape(default_color()),
            out@ == fragments_bytes(frags_view(line@).take(i as int), color_enabled),
        decreases line.len() - i,
    {
        let f = &line[i];
        let ghost before = out@;
        if color_enabled {
            let start = escape_of(&f.color);
            append_bytes(&mut out, start.as_slice());
            append_bytes(&mut out, f.text.as_str().as_bytes());
            append_bytes(&mut out, reset.as_slice());
            proof {
                assert(out@ =~= before + (ansi_escape(f.color) + f@.0 + ansi_escape(default_color())));
            }
        } else {
            append_bytes(&mut out, f.text.as_str().as_bytes());
        }
        proof {
            let t = frags_view(line@).take(i as int + 1);
            assert(t.drop_last() =~= frags_view(line@).take(i as int));
            assert(t.last() == f@);
        }
        i += 1;
    }
    proof {
        assert(frags_view(line@).take(i as int) =~= frags_view(line@));
    }
    out.push(10u8);
    out
}

} // verus!
