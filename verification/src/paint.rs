//! ANSI colouring of short pieces of text, such as prompts and diagnostics.

use vstd::prelude::*;

verus! {

/// The foreground colours the harness uses.
#[derive(Clone, Copy, Debug, PartialEq, Eq, Structural)]
pub enum Hue {
    Green,
    Red,
    Yellow,
}

/// The escape sequence that clears every attribute: `ESC [ 0 m`.
pub open spec fn reset_code() -> Seq<char> {
    seq!['\x1b', '[', '0', 'm']
}

/// The digit that selects `hue` in a foreground escape sequence.
pub open spec fn hue_digit(hue: Hue) -> char {
    match hue {
        Hue::Red => '1',
        Hue::Green => '2',
        Hue::Yellow => '3',
    }
}

/// The escape sequence that selects `hue` as foreground: `ESC [ 3 d m`.
pub open spec fn hue_code(hue: Hue) -> Seq<char> {
    seq!['\x1b', '[', '3', hue_digit(hue), 'm']
}

/// `text` in colour `hue`: a reset, the colour, the text, and a reset.
pub open spec fn painted(hue: Hue, text: Seq<char>) -> Seq<char> {
    reset_code() + hue_code(hue) + text + reset_code()
}

/// Calls `set_color` of termcolor's `Ansi` writer, over an empty buffer, with
/// a fresh `ColorSpec` whose foreground is `hue`, and returns what was
/// written. The contract claims the bytes that `set_color` emits for such a
/// specification: a fresh `ColorSpec` asks for a reset first, which is
/// `ESC [ 0 m`, and has no other attribute set; a plain foreground colour is
/// written as `ESC [ 3 d m`. Writing to a `Vec<u8>` cannot fail.
#[verifier::external_body]
fn colour_on(hue: Hue) -> (code: String)
    ensures
        code@ == reset_code() + hue_code(hue),
{
    let mut spec = termcolor::ColorSpec::new();
    spec.set_fg(Some(match hue {
        Hue::Green => termcolor::Color::Green,
        Hue::Red => termcolor::Color::Red,
        Hue::Yellow => termcolor::Color::Yellow,
    }));
    let mut writer = termcolor::Ansi::new(Vec::new());
    termcolor::WriteColor::set_color(&mut writer, &spec).unwrap();
    String::from_utf8_lossy(writer.get_ref()).into_owned()
}

/// Calls `reset` of termcolor's `Ansi` writer, over an empty buffer, and
/// returns what was written. The contract claims the bytes that `reset`
/// emits: `ESC [ 0 m`. Writing to a `Vec<u8>` cannot fail.
#[verifier::external_body]
fn colour_off() -> (code: String)
    ensures
        code@ == reset_code(),
{
    let mut writer = termcolor::Ansi::new(Vec::new());
    termcolor::WriteColor::reset(&mut writer).unwrap();
    String::from_utf8_lossy(writer.get_ref()).into_owned()
}

/// `s` between the codes that switch `hue` on and all colour off.
fn style(s: &str, hue: Hue) -> (out: String)
    ensures
        out@ == painted(hue, s@),
{
    let mut out = colour_on(hue);
    out.append(s);
    let off = colour_off();
    out.append(off.as_str());
    out
}

/// `s` in green.
pub fn green(s: &str) -> (out: String)
    ensures
        out@ == painted(Hue::Green, s@),
{
    style(s, Hue::Green)
}

/// `s` in red.
pub fn red(s: &str) -> (out: String)
    ensures
        out@ == painted(Hue::Red, s@),
{
    style(s, Hue::Red)
}

/// `s` in yellow.
pub fn yellow(s: &str) -> (out: String)
    ensures
        out@ == painted(Hue::Yellow, s@),
{
    style(s, Hue::Yellow)
}

} // verus!
