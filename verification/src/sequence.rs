//! The escape sequences that clear the screen, colour text and place the
//! cursor, as byte strings ready for the output stream.

use vstd::prelude::*;

verus! {

/// A 24-bit colour: red, green and blue.
#[derive(Clone, Copy, Debug, PartialEq, Eq, Structural)]
pub struct Rgb(pub u8, pub u8, pub u8);

/// The ASCII digit for `d`, where `d` is below ten.
pub open spec fn digit(d: nat) -> u8 {
    (48 + d) as u8
}

/// `n` in decimal, most significant digit first, without leading zeros.
pub open spec fn decimal(n: nat) -> Seq<u8>
    decreases n,
{
    if n < 10 {
        seq![digit(n)]
    } else {
        decimal(n / 10).push(digit(n % 10))
    }
}

/// The control sequence introducer: the escape byte and `[`.
pub open spec fn csi() -> Seq<u8> {
    seq![0x1bu8, '[' as u8]
}

/// Erase the whole display.
pub open spec fn clear_all_sequence() -> Seq<u8> {
    csi() + seq!['2' as u8, 'J' as u8]
}

/// Erase the line the cursor is on.
pub open spec fn clear_line_sequence() -> Seq<u8> {
    csi() + seq!['2' as u8, 'K' as u8]
}

/// Make the cursor invisible.
pub open spec fn hide_cursor_sequence() -> Seq<u8> {
    csi() + seq!['?' as u8, '2' as u8, '5' as u8, 'l' as u8]
}

/// Make the cursor visible.
pub open spec fn show_cursor_sequence() -> Seq<u8> {
    csi() + seq!['?' as u8, '2' as u8, '5' as u8, 'h' as u8]
}

/// Move the cursor to the one-based `column` and `row`; the row is sent first.
pub open spec fn goto_sequence(column: nat, row: nat) -> Seq<u8> {
    csi() + decimal(row) + seq![';' as u8] + decimal(column) + seq!['H' as u8]
}

/// The three channels of a colour, separated by `;` and closed by `m`.
pub open spec fn channels(color: Rgb) -> Seq<u8> {
    decimal(color.0 as nat) + seq![';' as u8] + decimal(color.1 as nat) + seq![';' as u8] + decimal(
        color.2 as nat,
    ) + seq!['m' as u8]
}

/// Select `color` for the text that follows.
pub open spec fn set_fg_sequence(color: Rgb) -> Seq<u8> {
    csi() + seq!['3' as u8, '8' as u8, ';' as u8, '2' as u8, ';' as u8] + channels(color)
}

/// Select `color` for the background of the text that follows.
pub open spec fn set_bg_sequence(color: Rgb) -> Seq<u8> {
    csi() + seq!['4' as u8, '8' as u8, ';' as u8, '2' as u8, ';' as u8] + channels(color)
}

/// Return to the default text colour.
pub open spec fn reset_fg_sequence() -> Seq<u8> {
    csi() + seq!['3' as u8, '9' as u8, 'm' as u8]
}

/// Return to the default background colour.
pub open spec fn reset_bg_sequence() -> Seq<u8> {
    csi() + seq!['4' as u8, '9' as u8, 'm' as u8]
}

/// `termion::clear::All`, formatted by its `Display` impl: the introducer
/// followed by `2J`.
#[verifier::external_body]
pub(crate) fn render_clear_all() -> (bytes: Vec<u8>)
    ensures
        bytes@ == clear_all_sequence(),
{
    format!("{}", termion::clear::All).into_bytes()
}

/// `termion::clear::CurrentLine`, formatted by its `Display` impl: the
/// introducer followed by `2K`.
#[verifier::external_body]
pub(crate) fn render_clear_line() -> (bytes: Vec<u8>)
    ensures
        bytes@ == clear_line_sequence(),
{
    format!("{}", termion::clear::CurrentLine).into_bytes()
}

/// `termion::cursor::Hide`, formatted by its `Display` impl: the introducer
/// followed by `?25l`.
#[verifier::external_body]
pub(crate) fn render_cursor_hide() -> (bytes: Vec<u8>)
    ensures
        bytes@ == hide_cursor_sequence(),
{
    format!("{}", termion::cursor::Hide).into_bytes()
}

/// `termion::cursor::Show`, formatted by its `Display` impl: the introducer
/// followed by `?25h`.
#[verifier::external_body]
pub(crate) fn render_cursor_show() -> (bytes: Vec<u8>)
    ensures
        bytes@ == show_cursor_sequence(),
{
    format!("{}", termion::cursor::Show).into_bytes()
}

/// `termion::cursor::Goto`, formatted by its `Display` impl: the introducer,
/// the row in decimal, `;`, the column in decimal, `H`. The impl asserts that
/// the two coordinates are not both zero, so that pair is left out.
#[verifier::external_body]
pub(crate) fn render_goto(column: u16, row: u16) -> (bytes: Vec<u8>)
    requires
        column != 0 || row != 0,
    ensures
        bytes@ == goto_sequence(column as nat, row as nat),
{
    format!("{}", termion::cursor::Goto(column, row)).into_bytes()
}

/// `termion::color::Fg` of a `termion::color::Rgb`, formatted by its
/// `Display` impl: the introducer, `38;2;`, then the three channels in
/// decimal, separated by `;` and closed by `m`.
#[verifier::external_body]
pub(crate) fn render_set_fg(color: Rgb) -> (bytes: Vec<u8>)
    ensures
        bytes@ == set_fg_sequence(color),
{
    format!("{}", termion::color::Fg(termion::color::Rgb(color.0, color.1, color.2))).into_bytes()
}

/// `termion::color::Bg` of a `termion::color::Rgb`, formatted by its
/// `Display` impl: the introducer, `48;2;`, then the three channels in
/// decimal, separated by `;` and closed by `m`.
#[verifier::external_body]
pub(crate) fn render_set_bg(color: Rgb) -> (bytes: Vec<u8>)
    ensures
        bytes@ == set_bg_sequence(color),
{
    format!("{}", termion::color::Bg(termion::color::Rgb(color.0, color.1, color.2))).into_bytes()
}

/// `termion::color::Fg` of `termion::color::Reset`, formatted by its
/// `Display` impl: the introducer followed by `39m`.
#[verifier::external_body]
pub(crate) fn render_reset_fg() -> (bytes: Vec<u8>)
    ensures
        bytes@ == reset_fg_sequence(),
{
    format!("{}", termion::color::Fg(termion::color::Reset)).into_bytes()
}

/// `termion::color::Bg` of `termion::color::Reset`, formatted by its
/// `Display` impl: the introducer followed by `49m`.
#[verifier::external_body]
pub(crate) fn render_reset_bg() -> (bytes: Vec<u8>)
    ensures
        bytes@ == reset_bg_sequence(),
{
    format!("{}", termion::color::Bg(termion::color::Reset)).into_bytes()
}

/// A colour's reset sequence is never the sequence that selects a colour,
/// whatever the colour, and the two layers do not share a reset: a reader of
/// the output can always tell where a coloured stretch ends.
pub proof fn lemma_reset_differs_from_set(color: Rgb)
    ensures
        set_fg_sequence(color) != reset_fg_sequence(),
        set_bg_sequence(color) != reset_bg_sequence(),
        set_fg_sequence(color).len() > reset_fg_sequence().len(),
        set_bg_sequence(color).len() > reset_bg_sequence().len(),
        reset_fg_sequence() != reset_bg_sequence(),
{
    assert(reset_fg_sequence().len() == 5);
    assert(reset_bg_sequence().len() == 5);
    assert(channels(color).len() >= 3);
    assert(set_fg_sequence(color).len() >= 10);
    assert(set_bg_sequence(color).len() >= 10);
    assert(reset_fg_sequence()[2] == '3' as u8);
    assert(reset_bg_sequence()[2] == '4' as u8);
}

/// Whether `out` is `set`, then `between`, then `reset`, each part in its
/// place and nothing else.
pub open spec fn brackets(out: Seq<u8>, set: Seq<u8>, between: Seq<u8>, reset: Seq<u8>) -> bool {
    let written: int = (set.len() + between.len()) as int;
    &&& out.len() == written + reset.len()
    &&& out.subrange(0, set.len() as int) == set
    &&& out.subrange(set.len() as int, written) == between
    &&& out.subrange(written, out.len() as int) == reset
}

/// Output that selects a colour, writes `between` and resets the colour
/// begins with the selecting sequence and ends with the reset, which starts
/// only after the selecting sequence and all of `between`.
pub proof fn lemma_reset_follows_set(color: Rgb, between: Seq<u8>)
    ensures
        brackets(
            set_fg_sequence(color) + between + reset_fg_sequence(),
            set_fg_sequence(color),
            between,
            reset_fg_sequence(),
        ),
        brackets(
            set_bg_sequence(color) + between + reset_bg_sequence(),
            set_bg_sequence(color),
            between,
            reset_bg_sequence(),
        ),
{
    lemma_concatenation_brackets(set_fg_sequence(color), between, reset_fg_sequence());
    lemma_concatenation_brackets(set_bg_sequence(color), between, reset_bg_sequence());
}

proof fn lemma_concatenation_brackets(set: Seq<u8>, between: Seq<u8>, reset: Seq<u8>)
    ensures
        brackets(set + between + reset, set, between, reset),
{
    let out = set + between + reset;
    let written: int = (set.len() + between.len()) as int;
    assert(out.subrange(0, set.len() as int) =~= set);
    assert(out.subrange(set.len() as int, written) =~= between);
    assert(out.subrange(written, out.len() as int) =~= reset);
}

} // verus!
