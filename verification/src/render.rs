//! Rendering of accepted records: the display name and color of each
//! severity level, and the one output line written for a record.

use vstd::prelude::*;
use vstd::string::StringExecFns;
use crate::level::Level;

verus! {

/// Display color for a severity level's name.
#[derive(Clone, Copy, PartialEq, Eq, Structural, Debug)]
pub enum Color {
    Red,
    Purple,
    Yellow,
    Cyan,
    Blue,
}

/// The ANSI foreground code of a color.
pub open spec fn color_code(c: Color) -> Seq<char> {
    match c {
        Color::Red => "31"@,
        Color::Purple => "35"@,
        Color::Yellow => "33"@,
        Color::Cyan => "36"@,
        Color::Blue => "34"@,
    }
}

/// Text wrapped in the ANSI escape sequence that sets a foreground color,
/// followed by the sequence that resets the style.
pub open spec fn painted(c: Color, text: Seq<char>) -> Seq<char> {
    "\u{1b}["@ + color_code(c) + "m"@ + text + "\u{1b}[0m"@
}

/// The display name of a severity level.
pub open spec fn level_name(l: Level) -> Seq<char> {
    match l {
        Level::Error => "error"@,
        Level::Warn => "warn"@,
        Level::Info => "info"@,
        Level::Debug => "debug"@,
        Level::Trace => "trace"@,
    }
}

/// The display color of a severity level.
pub open spec fn level_color(l: Level) -> Color {
    match l {
        Level::Error => Color::Red,
        Level::Warn => Color::Purple,
        Level::Info => Color::Yellow,
        Level::Debug => Color::Cyan,
        Level::Trace => Color::Blue,
    }
}

/// The one line written to standard error for an accepted record: the
/// colored level name, `": "`, then the message.
pub open spec fn rendered_line(l: Level, message: Seq<char>) -> Seq<char> {
    painted(level_color(l), level_name(l)) + ": "@ + message
}

/// The display name of a severity level.
pub fn level_name_str(l: Level) -> (r: &'static str)
    ensures
        r@ == level_name(l),
{
    match l {
        Level::Error => "error",
        Level::Warn => "warn",
        Level::Info => "info",
        Level::Debug => "debug",
        Level::Trace => "trace",
    }
}

/// The display color of a severity level.
pub fn level_color_of(l: Level) -> (c: Color)
    ensures
        c == level_color(l),
{
    match l {
        Level::Error => Color::Red,
        Level::Warn => Color::Purple,
        Level::Info => Color::Yellow,
        Level::Debug => Color::Cyan,
        Level::Trace => Color::Blue,
    }
}

/// Relies on `ansi_term::Colour::paint` with a plain foreground color: the
/// rendered string is `ESC` `[`, the color's foreground code, `m`, the text,
/// then the reset sequence `ESC` `[0m`.
#[verifier::external_body]
fn paint(c: Color, text: &str) -> (r: String)
    ensures
        r@ == painted(c, text@),
{
    let colour = match c {
        Color::Red => ansi_term::Colour::Red,
        Color::Purple => ansi_term::Colour::Purple,
        Color::Yellow => ansi_term::Colour::Yellow,
        Color::Cyan => ansi_term::Colour::Cyan,
        Color::Blue => ansi_term::Colour::Blue,
    };
    colour.paint(text).to_string()
}

/// Renders a record of the given severity and pre-formatted message as the
/// line that is written to standard error.
pub fn format_record(l: Level, message: &str) -> (r: String)
    ensures
        r@ == rendered_line(l, message@),
{
    let mut line = paint(level_color_of(l), level_name_str(l));
    line.append(": ");
    line.append(message);
    line
}

} // verus!
