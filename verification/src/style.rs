//! Tones of console text, and the escape sequences that carry them.

use vstd::prelude::*;

verus! {

/// What a piece of console text is meant to convey.
#[derive(Clone, Copy, Debug, PartialEq, Eq, Structural)]
pub enum Tone {
    /// Ordinary text.
    Plain,
    /// Something the user should act on.
    Attention,
    /// A name or a fact worth picking out.
    Highlight,
    /// Work that went through.
    Success,
    /// Something that went wrong.
    Failure,
}

/// `text` between the escape sequence that selects the foreground colour
/// `digit` and the one that resets all attributes.
pub open spec fn coloured(digit: char, text: Seq<char>) -> Seq<char> {
    seq!['\u{1b}', '[', '3', digit, 'm'] + text + seq!['\u{1b}', '[', '0', 'm']
}

/// The digit of the foreground colour that stands for `tone`.
pub open spec fn colour_digit(tone: Tone) -> char {
    match tone {
        Tone::Plain => '9',
        Tone::Attention => '5',
        Tone::Highlight => '3',
        Tone::Success => '2',
        Tone::Failure => '1',
    }
}

/// Whether `shown` is a way to put `text` on the console in `tone`: the text
/// itself, or, for any tone but the plain one, the text in the tone's colour.
pub open spec fn shows(tone: Tone, text: Seq<char>, shown: Seq<char>) -> bool {
    shown == text || (tone != Tone::Plain && shown == coloured(colour_digit(tone), text))
}

/// Trusted: `console::Style::magenta`, applied and displayed. The console
/// decides at run time whether colours are on; either the text comes back as
/// it is, or between the magenta and the reset sequences.
#[verifier::external_body]
fn magenta(text: &str) -> (r: String)
    ensures
        r@ == text@ || r@ == coloured('5', text@),
{
    console::Style::new().magenta().apply_to(text).to_string()
}

/// Trusted: `console::Style::yellow`, applied and displayed. Either the text
/// comes back as it is, or between the yellow and the reset sequences.
#[verifier::external_body]
fn yellow(text: &str) -> (r: String)
    ensures
        r@ == text@ || r@ == coloured('3', text@),
{
    console::Style::new().yellow().apply_to(text).to_string()
}

/// Trusted: `console::Style::green`, applied and displayed. Either the text
/// comes back as it is, or between the green and the reset sequences.
#[verifier::external_body]
fn green(text: &str) -> (r: String)
    ensures
        r@ == text@ || r@ == coloured('2', text@),
{
    console::Style::new().green().apply_to(text).to_string()
}

/// Trusted: `console::Style::red`, applied and displayed. Either the text
/// comes back as it is, or between the red and the reset sequences.
#[verifier::external_body]
fn red(text: &str) -> (r: String)
    ensures
        r@ == text@ || r@ == coloured('1', text@),
{
    console::Style::new().red().apply_to(text).to_string()
}

/// `text` as the console should show it in `tone`.
pub fn paint(tone: Tone, text: &str) -> (r: String)
    ensures
        shows(tone, text@, r@),
{
    match tone {
        Tone::Plain => text.to_owned(),
        Tone::Attention => magenta(text),
        Tone::Highlight => yellow(text),
        Tone::Success => green(text),
        Tone::Failure => red(text),
    }
}

} // verus!
