use vstd::prelude::*;

verus! {

/// One of the eight display colors that a branch name can be printed in.
#[derive(Clone, Copy, PartialEq, Eq, Structural, Debug)]
pub enum PaletteColor {
    Red,
    Green,
    Yellow,
    Blue,
    Magenta,
    Cyan,
    White,
    BrightPurple,
}

/// The color that a given random index selects: indices 0 through 6 pick the
/// first seven colors in order, and every other index picks bright purple.
pub open spec fn index_color(i: u8) -> PaletteColor {
    if i == 0 {
        PaletteColor::Red
    } else if i == 1 {
        PaletteColor::Green
    } else if i == 2 {
        PaletteColor::Yellow
    } else if i == 3 {
        PaletteColor::Blue
    } else if i == 4 {
        PaletteColor::Magenta
    } else if i == 5 {
        PaletteColor::Cyan
    } else if i == 6 {
        PaletteColor::White
    } else {
        PaletteColor::BrightPurple
    }
}

/// Maps a color index to its palette color.
pub fn color_for_index(i: u8) -> (c: PaletteColor)
    ensures
        c == index_color(i),
{
    match i {
        0 => PaletteColor::Red,
        1 => PaletteColor::Green,
        2 => PaletteColor::Yellow,
        3 => PaletteColor::Blue,
        4 => PaletteColor::Magenta,
        5 => PaletteColor::Cyan,
        6 => PaletteColor::White,
        _ => PaletteColor::BrightPurple,
    }
}

/// The ANSI escape sequence that starts text in the given color: an escape
/// character, a bracket, the color's foreground code, and a final `m`.
pub open spec fn ansi_prefix(c: PaletteColor) -> Seq<char> {
    match c {
        PaletteColor::Red => "\u{1b}[31m"@,
        PaletteColor::Green => "\u{1b}[32m"@,
        PaletteColor::Yellow => "\u{1b}[33m"@,
        PaletteColor::Blue => "\u{1b}[34m"@,
        PaletteColor::Magenta => "\u{1b}[35m"@,
        PaletteColor::Cyan => "\u{1b}[36m"@,
        PaletteColor::White => "\u{1b}[37m"@,
        PaletteColor::BrightPurple => "\u{1b}[95m"@,
    }
}

/// The ANSI escape sequence that resets the terminal's text attributes.
pub open spec fn ansi_reset() -> Seq<char> {
    "\u{1b}[0m"@
}

/// Holds of text that contains no ANSI escape character.
pub open spec fn has_no_escape(t: Seq<char>) -> bool {
    forall|i: int| 0 <= i < t.len() ==> t[i] != '\u{1b}'
}

/// Holds of an output `r` that colorizing escape-free text `t` may produce:
/// either the text unchanged (coloring disabled for this terminal), or the
/// text wrapped in one of the eight palette colors' ANSI sequences.
pub open spec fn colorized_ok(t: Seq<char>, r: Seq<char>) -> bool {
    has_no_escape(t) ==> (r == t || exists|c: PaletteColor| r == #[trigger] ansi_prefix(c) + t + ansi_reset())
}

/// Relies on rand::random_range over the range of indices below eight:
/// it returns a uniformly distributed value of that range and nothing
/// else can be promised of it.
#[verifier::external_body]
fn random_color_index() -> (r: u8)
    ensures
        r < 8,
{
    rand::random_range(0..8u8)
}

/// Relies on colored's Colorize::color and the Display of its result:
/// when coloring is off or overridden off the text is written unchanged;
/// when it is on, the text (escape-free, so inner-reset escaping leaves
/// it as it is) is wrapped in the color's ANSI sequence and a reset.
#[verifier::external_body]
fn paint(text: &str, c: &PaletteColor) -> (r: String)
    ensures
        has_no_escape(text@) ==> (r@ == text@ || r@ == ansi_prefix(*c) + text@ + ansi_reset()),
{
    let color = match c {
        PaletteColor::Red => colored::Color::Red,
        PaletteColor::Green => colored::Color::Green,
        PaletteColor::Yellow => colored::Color::Yellow,
        PaletteColor::Blue => colored::Color::Blue,
        PaletteColor::Magenta => colored::Color::Magenta,
        PaletteColor::Cyan => colored::Color::Cyan,
        PaletteColor::White => colored::Color::White,
        PaletteColor::BrightPurple => colored::Color::BrightMagenta,
    };
    format!("{}", colored::Colorize::color(text, color))
}

/// Wraps the text in terminal formatting for a color drawn at random from
/// the eight-color palette; escape-free text comes back either unchanged
/// or wrapped in one valid palette color's ANSI sequences.
pub fn get_random_color(text: &str) -> (r: String)
    ensures
        colorized_ok(text@, r@),
{
    let color_index = random_color_index();
    let color = color_for_index(color_index);
    let r = paint(text, &color);
    proof {
        if has_no_escape(text@) && r@ != text@ {
            assert(r@ == ansi_prefix(color) + text@ + ansi_reset());
        }
    }
    r
}

} // verus!
