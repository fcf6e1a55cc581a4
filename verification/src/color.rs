//! Terminal color sequences, built character by character.

use vstd::prelude::*;
use vstd::string::StringExecFns;
use crate::text::{spec_uint_string, string_from_chars, uint_string};

verus! {

/// A foreground color: the base palette, its bright half, or a direct
/// RGB triple.
#[derive(Clone, Copy, Debug, PartialEq, Eq, Structural)]
pub enum Color {
    Black,
    Red,
    Green,
    Yellow,
    Blue,
    Magenta,
    Cyan,
    White,
    BrightBlack,
    BrightRed,
    BrightGreen,
    BrightYellow,
    BrightBlue,
    BrightMagenta,
    BrightCyan,
    BrightWhite,
    Rgb(u8, u8, u8),
}

/// Whether the color belongs to the bright half of the palette.
pub open spec fn spec_is_bright(color: Color) -> bool {
    ||| color is BrightBlack
    ||| color is BrightRed
    ||| color is BrightGreen
    ||| color is BrightYellow
    ||| color is BrightBlue
    ||| color is BrightMagenta
    ||| color is BrightCyan
    ||| color is BrightWhite
}

fn is_bright(color: Color) -> (r: bool)
    ensures
        r == spec_is_bright(color),
{
    color == Color::BrightBlack || color == Color::BrightRed || color == Color::BrightGreen
        || color == Color::BrightYellow || color == Color::BrightBlue
        || color == Color::BrightMagenta || color == Color::BrightCyan
        || color == Color::BrightWhite
}

/// The digit selecting the color within its palette half.
pub open spec fn spec_color_str(color: Color) -> Seq<char> {
    match color {
        Color::Black => "0"@,
        Color::Red => "1"@,
        Color::Green => "2"@,
        Color::Yellow => "3"@,
        Color::Blue => "4"@,
        Color::Magenta => "5"@,
        Color::Cyan => "6"@,
        Color::White => "7"@,
        Color::BrightBlack => "0"@,
        Color::BrightRed => "1"@,
        Color::BrightGreen => "2"@,
        Color::BrightYellow => "3"@,
        Color::BrightBlue => "4"@,
        Color::BrightMagenta => "5"@,
        Color::BrightCyan => "6"@,
        Color::BrightWhite => "7"@,
        Color::Rgb(r, g, b) => "8;2;"@ + spec_uint_string(r as int) + ";"@
            + spec_uint_string(g as int) + ";"@ + spec_uint_string(b as int),
    }
}

fn color_str(color: Color) -> (r: String)
    ensures
        r@ == spec_color_str(color),
{
    match color {
        Color::Black => String::from_str("0"),
        Color::Red => String::from_str("1"),
        Color::Green => String::from_str("2"),
        Color::Yellow => String::from_str("3"),
        Color::Blue => String::from_str("4"),
        Color::Magenta => String::from_str("5"),
        Color::Cyan => String::from_str("6"),
        Color::White => String::from_str("7"),
        Color::BrightBlack => String::from_str("0"),
        Color::BrightRed => String::from_str("1"),
        Color::BrightGreen => String::from_str("2"),
        Color::BrightYellow => String::from_str("3"),
        Color::BrightBlue => String::from_str("4"),
        Color::BrightMagenta => String::from_str("5"),
        Color::BrightCyan => String::from_str("6"),
        Color::BrightWhite => String::from_str("7"),
        Color::Rgb(red, green, blue) => {
            let mut s = String::from_str("8;2;");
            let rs = string_from_chars(&uint_string(red as u64));
            s.append(rs.as_str());
            s.append(";");
            let gs = string_from_chars(&uint_string(green as u64));
            s.append(gs.as_str());
            s.append(";");
            let bs = string_from_chars(&uint_string(blue as u64));
            s.append(bs.as_str());
            s
        },
    }
}

/// The control sequence introducer every attribute string starts with.
fn prefix() -> (r: String)
    ensures
        r@ == "\u{1b}["@,
{
    String::from_str("\u{1b}[")
}

/// Wraps an attribute selector into a full control sequence.
fn format_text(sgr: &str) -> (r: String)
    ensures
        r@ == "\u{1b}["@ + sgr@ + "m"@,
{
    let mut s = prefix();
    s.append(sgr);
    s.append("m");
    s
}

/// The sequence that resets every display attribute.
fn reset_sgr_attributes() -> (r: String)
    ensures
        r@ == "\u{1b}["@ + "0"@ + "m"@,
{
    format_text("0")
}

fn set_nonbright_foreground_color(color: Color) -> (r: String)
    ensures
        r@ == "\u{1b}["@ + "3"@ + spec_color_str(color) + "m"@,
{
    let mut sgr = String::from_str("3");
    let cs = color_str(color);
    sgr.append(cs.as_str());
    format_text(sgr.as_str())
}

fn set_bright_foreground_color(color: Color) -> (r: String)
    ensures
        r@ == "\u{1b}["@ + "9"@ + spec_color_str(color) + "m"@,
{
    let mut sgr = String::from_str("9");
    let cs = color_str(color);
    sgr.append(cs.as_str());
    format_text(sgr.as_str())
}

/// The control sequence that selects the given foreground color.
pub open spec fn spec_foreground(color: Color) -> Seq<char> {
    if spec_is_bright(color) {
        "\u{1b}["@ + "9"@ + spec_color_str(color) + "m"@
    } else {
        "\u{1b}["@ + "3"@ + spec_color_str(color) + "m"@
    }
}

fn set_foreground_color(color: Color) -> (r: String)
    ensures
        r@ == spec_foreground(color),
{
    if is_bright(color) {
        return set_bright_foreground_color(color);
    }

    set_nonbright_foreground_color(color)
}

/// The given text wrapped in the color's control sequence and a
/// trailing attribute reset.
pub fn color_text(text: &str, color: Color) -> (r: String)
    ensures
        r@ == spec_foreground(color) + text@ + "\u{1b}["@ + "0"@ + "m"@,
{
    let mut s = set_foreground_color(color);
    s.append(text);
    let reset = reset_sgr_attributes();
    s.append(reset.as_str());
    s
}

} // verus!
