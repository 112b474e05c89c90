//! The terminal capabilities that the gateway relies on: the styling of a
//! label, the process-wide colour switch, the terminal handle and the query
//! whether the diagnostic stream is interactive.

use vstd::prelude::*;

verus! {

/// A foreground colour of the terminal palette.
#[derive(Clone, Copy, Debug, PartialEq, Eq, Structural)]
pub enum Color {
    Black,
    Red,
    Green,
    Yellow,
    Blue,
    Magenta,
    Cyan,
    White,
    Color256(u8),
}

/// The handle of a terminal, `console::Term`. Nothing is known of its inside.
#[verifier::external_type_specification]
#[verifier::external_body]
pub struct ExTerm(console::Term);

/// What `console::Style` makes of `text` when it is set to bold with the
/// foreground `color` and styling is forced on: the text wrapped in the escape
/// sequences of that style.
pub uninterp spec fn painted(text: Seq<char>, color: Color) -> Seq<char>;

/// What a label looks like once styled: wrapped in escape sequences when
/// styling is enabled, untouched otherwise.
pub open spec fn decorated(text: Seq<char>, color: Color, enabled: bool) -> Seq<char> {
    if enabled {
        painted(text, color)
    } else {
        text
    }
}

/// Renders `text` through `console::Style::apply_to`, with the style set to
/// bold, to the foreground `color`, and forced on or off by `enabled`.
///
/// Trusted, not proved: a style that is forced off writes the text alone; one
/// that is forced on does not look at the process-wide colour switch, so what
/// it writes depends on the text and the colour only.
#[verifier::external_body]
pub(crate) fn paint(text: &str, color: Color, enabled: bool) -> (out: String)
    ensures
        enabled ==> out@ == painted(text@, color),
        !enabled ==> out@ == text@,
{
    let fg = match color {
        Color::Black => console::Color::Black,
        Color::Red => console::Color::Red,
        Color::Green => console::Color::Green,
        Color::Yellow => console::Color::Yellow,
        Color::Blue => console::Color::Blue,
        Color::Magenta => console::Color::Magenta,
        Color::Cyan => console::Color::Cyan,
        Color::White => console::Color::White,
        Color::Color256(n) => console::Color::Color256(n),
    };
    console::Style::new().fg(fg).bold().force_styling(enabled).apply_to(text).to_string()
}

/// `console::colors_enabled` reads the process-wide colour switch. Nothing is
/// claimed of the answer: any part of the process may have set the switch.
pub assume_specification[ console::colors_enabled ]() -> (enabled: bool);

/// `console::set_colors_enabled` stores the process-wide colour switch.
/// Nothing is claimed of it: the switch is outside what is modelled here.
pub assume_specification[ console::set_colors_enabled ](val: bool);

/// `console::Term::stderr` makes a fresh unbuffered handle to the diagnostic
/// stream. Nothing is claimed of the handle.
pub assume_specification[ console::Term::stderr ]() -> (term: console::Term);

/// Asks `atty::is` whether the diagnostic stream is an interactive terminal.
/// Nothing is claimed of the answer: it is the environment's.
#[verifier::external_body]
pub(crate) fn stderr_is_tty() -> (tty: bool) {
    atty::is(atty::Stream::Stderr)
}

} // verus!
