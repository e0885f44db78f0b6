//! Keyboard input: the keys a caller can be told about, which input is handed
//! to the decoder, and the decoder itself.

use termion::event::Key as Pressed;
use termion::input::{TermRead, TermReadEventsAndRaw};
use vstd::prelude::*;

verus! {

/// One keyboard event. Whatever the decoder reports and this set does not
/// name is `Null`.
#[derive(Clone, Copy, Debug, PartialEq, Eq, Structural)]
pub enum Key {
    /// A typed character. One that takes several bytes is still one key.
    Char(char),
    Up,
    Down,
    Left,
    Right,
    Backspace,
    Delete,
    Home,
    End,
    PageUp,
    PageDown,
    /// A function key, by its number.
    F(u8),
    /// A character typed with Alt held.
    Alt(char),
    /// A character typed with Ctrl held.
    Ctrl(char),
    /// The escape key by itself.
    Esc,
    /// The null byte, or a key that this set does not name.
    Null,
}

/// The byte that the escape key sends and that every escape sequence starts
/// with.
pub const ESCAPE: u8 = 0x1b;

/// An ASCII digit.
pub open spec fn is_digit(byte: u8) -> bool {
    '0' as u8 <= byte <= '9' as u8
}

/// A byte that ends a control sequence, other than the `M` of a mouse report.
pub open spec fn is_key_final(byte: u8) -> bool {
    64 <= byte <= 126 && byte != 'M' as u8
}

/// Whether a control sequence starts at `at`: the escape byte followed by `[`.
pub open spec fn control_sequence_at(bytes: Seq<u8>, at: int) -> bool {
    0 <= at && at + 1 < bytes.len() && bytes[at] == ESCAPE && bytes[at + 1] == '[' as u8
}

/// Whether what stands at `at` can be handed to the decoder. Anything that
/// does not start a control sequence can. A control sequence can if it is cut
/// off right after its introducer, or goes on with a byte that opens neither a
/// mouse report nor a parameter, or has a parameter of one or two digits, or
/// two parameters of one digit each, directly followed by its final byte.
pub open spec fn decodable_at(bytes: Seq<u8>, at: int) -> bool {
    control_sequence_at(bytes, at) && at + 2 < bytes.len() ==> {
        let next = bytes[at + 2];
        if next == 'M' as u8 || next == '<' as u8 {
            false
        } else if is_digit(next) {
            ||| (at + 3 < bytes.len() && is_key_final(bytes[at + 3]))
            ||| (at + 4 < bytes.len() && is_digit(bytes[at + 3]) && is_key_final(bytes[at + 4]))
            ||| (at + 5 < bytes.len() && bytes[at + 3] == ';' as u8 && is_digit(bytes[at + 4])
                && is_key_final(bytes[at + 5]))
        } else {
            true
        }
    }
}

/// Input that the decoder takes: every control sequence in it is one that
/// `decodable_at` admits. Mouse reports, parameters of more than two digits
/// and longer parameter lists are left out, and so is a sequence cut off
/// inside its parameter.
pub open spec fn decodable(bytes: Seq<u8>) -> bool {
    forall|at: int| 0 <= at < bytes.len() ==> #[trigger] decodable_at(bytes, at)
}

/// The first key that the decoder finds in `bytes`, or `None` where they hold
/// no key.
pub uninterp spec fn first_key(bytes: Seq<u8>) -> Option<Key>;

/// The number of bytes that the first event at the front of `bytes` takes,
/// and zero where they hold no event.
pub uninterp spec fn front_length(bytes: Seq<u8>) -> nat;

/// A space or a visible ASCII character.
pub open spec fn is_printable(byte: u8) -> bool {
    0x20 <= byte <= 0x7e
}

/// The key of a single byte that is all of the input. The line feed and the
/// carriage return are the same key, the tab is a character, the other bytes
/// below the space are Ctrl with a letter or, past the escape, with a digit,
/// and a byte above ASCII is no key by itself.
pub open spec fn byte_key(byte: u8) -> Option<Key> {
    if byte == ESCAPE {
        Some(Key::Esc)
    } else if byte == 0x0a || byte == 0x0d {
        Some(Key::Char('\n'))
    } else if byte == 0x09 {
        Some(Key::Char('\t'))
    } else if byte == 0x7f {
        Some(Key::Backspace)
    } else if 0x01 <= byte <= 0x1a {
        Some(Key::Ctrl((byte + 0x60) as u8 as char))
    } else if 0x1c <= byte <= 0x1f {
        Some(Key::Ctrl((byte + 0x18) as u8 as char))
    } else if byte == 0 {
        Some(Key::Null)
    } else if is_printable(byte) {
        Some(Key::Char(byte as char))
    } else {
        None
    }
}

/// The key of a chunk that is exactly one ASCII byte or the sequence of one
/// arrow key; `None` for every other chunk.
pub open spec fn plain_key(bytes: Seq<u8>) -> Option<Key> {
    if bytes.len() == 1 {
        byte_key(bytes[0])
    } else if bytes.len() == 3 && bytes[0] == ESCAPE && bytes[1] == '[' as u8 {
        if bytes[2] == 'A' as u8 {
            Some(Key::Up)
        } else if bytes[2] == 'B' as u8 {
            Some(Key::Down)
        } else if bytes[2] == 'C' as u8 {
            Some(Key::Right)
        } else if bytes[2] == 'D' as u8 {
            Some(Key::Left)
        } else {
            None
        }
    } else {
        None
    }
}

/// Whether `bytes` is a line feed or a carriage return by itself.
pub open spec fn is_line_end(bytes: Seq<u8>) -> bool {
    bytes.len() == 1 && (bytes[0] == 0x0a || bytes[0] == 0x0d)
}

/// `termion::input::TermRead::keys` on a byte slice, and the first item of
/// the iterator it gives. The iterator decodes events from the front of the
/// slice, skips those that are no key, and ends with the bytes; the result is
/// named `first_key`. Read from a slice it reports no error, and on no bytes
/// it ends at once. A single ASCII byte is the key that `byte_key` gives, as
/// the arms of `termion::event::parse_event` have it and, for the escape byte
/// alone, the iterator itself; the introducer followed by `A`, `B`, `C` or `D`
/// is the arrow up, down, right or left. Each variant has its own arm:
/// `BackTab`, `Insert` and the hidden variant have no key of their own and
/// become `Null`.
/// On a mouse report, on a parameter that is cut off, is no number or does not
/// fit eight bits, the decoder panics: `decodable` leaves those out.
#[verifier::external_body]
fn decode_first(bytes: &Vec<u8>) -> (key: Option<Key>)
    requires
        decodable(bytes@),
    ensures
        key == first_key(bytes@),
        bytes@.len() == 0 ==> key.is_none(),
        plain_key(bytes@).is_some() ==> key == plain_key(bytes@),
{
    Some(match bytes.as_slice().keys().next()?.ok()? {
        Pressed::Char(c) => Key::Char(c), Pressed::Alt(c) => Key::Alt(c),
        Pressed::Ctrl(c) => Key::Ctrl(c), Pressed::F(n) => Key::F(n),
        Pressed::Up => Key::Up, Pressed::Down => Key::Down,
        Pressed::Left => Key::Left, Pressed::Right => Key::Right,
        Pressed::Backspace => Key::Backspace, Pressed::Delete => Key::Delete,
        Pressed::Home => Key::Home, Pressed::End => Key::End,
        Pressed::PageUp => Key::PageUp, Pressed::PageDown => Key::PageDown,
        Pressed::Esc => Key::Esc, Pressed::Null => Key::Null,
        Pressed::BackTab => Key::Null, Pressed::Insert => Key::Null,
        Pressed::__IsNotComplete => Key::Null
    })
}

/// `termion::input::TermReadEventsAndRaw::events_and_raw` on a byte slice,
/// and the first item of the iterator it gives: one event, key or not, with
/// the bytes that the decoder took for it. The result is the number of those
/// bytes, named `front_length`. They are bytes of the slice, so there are no
/// more than it holds, and wherever the slice holds a byte the event takes at
/// least its first. A slice that is one ASCII byte or the sequence of one
/// arrow key is one event that takes all of it. Only the event at the front is
/// decoded, so only a control sequence there has to be one that
/// `decodable_at` admits.
#[verifier::external_body]
fn front_event_length(bytes: &Vec<u8>) -> (length: usize)
    requires
        decodable_at(bytes@, 0),
    ensures
        length == front_length(bytes@),
        length <= bytes@.len(),
        bytes@.len() > 0 ==> length >= 1,
        plain_key(bytes@).is_some() ==> length == bytes@.len(),
{
    match bytes.as_slice().events_and_raw().next() {
        Some(Ok((_, raw))) => raw.len(),
        _ => 0,
    }
}

/// Copies the bytes of `bytes` from `from` up to `to`.
fn part(bytes: &Vec<u8>, from: usize, to: usize) -> (out: Vec<u8>)
    requires
        from <= to <= bytes.len(),
    ensures
        out@ == bytes@.subrange(from as int, to as int),
{
    let mut out: Vec<u8> = Vec::new();
    let mut at: usize = from;
    while at < to
        invariant
            from <= at <= to <= bytes.len(),
            out@ == bytes@.subrange(from as int, at as int),
        decreases to - at,
    {
        out.push(bytes[at]);
        at += 1;
        assert(out@ =~= bytes@.subrange(from as int, at as int));
    }
    assert(out@ =~= bytes@.subrange(from as int, to as int));
    out
}

/// Tests whether `decodable_at` holds of `bytes` at `at`.
fn admits_at(bytes: &Vec<u8>, at: usize) -> (admitted: bool)
    requires
        at < bytes.len(),
    ensures
        admitted == decodable_at(bytes@, at as int),
{
    let len: usize = bytes.len();
    if bytes[at] != ESCAPE || len - at < 3 || bytes[at + 1] != '[' as u8 {
        return true;
    }
    let next: u8 = bytes[at + 2];
    if next == 'M' as u8 || next == '<' as u8 {
        false
    } else if digit_byte(next) {
        let one = len - at > 3 && final_byte(bytes[at + 3]);
        let two = len - at > 4 && digit_byte(bytes[at + 3]) && final_byte(bytes[at + 4]);
        let pair = len - at > 5 && bytes[at + 3] == ';' as u8 && digit_byte(bytes[at + 4])
            && final_byte(bytes[at + 5]);
        one || two || pair
    } else {
        true
    }
}

fn digit_byte(byte: u8) -> (is_decimal: bool)
    ensures
        is_decimal == is_digit(byte),
{
    '0' as u8 <= byte && byte <= '9' as u8
}

fn final_byte(byte: u8) -> (is_final: bool)
    ensures
        is_final == is_key_final(byte),
{
    64 <= byte && byte <= 126 && byte != 'M' as u8
}

impl Key {
    /// Tests whether `bytes` is input that the decoder takes.
    pub fn is_decodable(bytes: &Vec<u8>) -> (admitted: bool)
        ensures
            admitted == decodable(bytes@),
    {
        let mut at: usize = 0;
        while at < bytes.len()
            invariant
                at <= bytes.len(),
                forall|k: int| 0 <= k < at ==> #[trigger] decodable_at(bytes@, k),
            decreases bytes.len() - at,
        {
            if !admits_at(bytes, at) {
                return false;
            }
            at += 1;
        }
        true
    }

    /// The key of the one event that `event` holds.
    fn of_event(event: &Vec<u8>) -> (key: Option<Key>)
        ensures
            key == event_key(event@),
            plain_key(event@).is_some() ==> key == plain_key(event@),
    {
        proof {
            if plain_key(event@).is_some() {
                lemma_plain_key_decodable(event@);
            }
        }
        if Key::is_decodable(event) {
            decode_first(event)
        } else {
            None
        }
    }

    /// The first key in `bytes` and the number of bytes used up to its end.
    /// Events that are no key are passed over. Where no key is found all
    /// bytes are used; a control sequence that the decoder is not given ends
    /// the search and takes the rest of the bytes with it.
    pub fn decode(bytes: &Vec<u8>) -> (found: (Option<Key>, usize))
        ensures
            found.0 == decoding(bytes@).0,
            found.1 == decoding(bytes@).1,
            found.1 <= bytes@.len(),
            found.0.is_none() ==> found.1 == bytes@.len(),
            bytes@.len() > 0 ==> found.1 >= 1,
            plain_key(bytes@).is_some() ==> found.0 == plain_key(bytes@) && found.1
                == bytes@.len(),
    {
        let len: usize = bytes.len();
        let mut at: usize = 0;
        proof {
            assert(bytes@.subrange(0, len as int) =~= bytes@);
            if plain_key(bytes@).is_some() {
                lemma_plain_key_decodable(bytes@);
            }
        }
        while at < len
            invariant
                len == bytes.len(),
                at <= len,
                decoding(bytes@).0 == decoding(bytes@.subrange(at as int, len as int)).0,
                decoding(bytes@).1 == at + decoding(bytes@.subrange(at as int, len as int)).1,
                plain_key(bytes@).is_some() ==> at == 0 && decodable(bytes@),
            decreases len - at,
        {
            let rest = part(bytes, at, len);
            proof {
                if at == 0 {
                    assert(rest@ =~= bytes@);
                }
            }
            if !admits_at(&rest, 0) {
                return (None, len);
            }
            let taken: usize = front_event_length(&rest);
            let event = part(&rest, 0, taken);
            proof {
                if taken == rest.len() {
                    assert(event@ =~= rest@);
                }
            }
            let key = Key::of_event(&event);
            if key.is_some() {
                return (key, at + taken);
            }
            proof {
                assert(rest@.subrange(taken as int, rest@.len() as int) =~= bytes@.subrange(
                    at + taken,
                    len as int,
                ));
            }
            at = at + taken;
        }
        proof {
            assert(bytes@.subrange(at as int, len as int).len() == 0);
        }
        (None, len)
    }
}

/// The key of a chunk that holds one event: the decoder's first key where the
/// chunk is input that it takes, and none otherwise.
pub open spec fn event_key(event: Seq<u8>) -> Option<Key> {
    if decodable(event) {
        first_key(event)
    } else {
        None
    }
}

/// The first key in `bytes` and the number of bytes used up to its end. The
/// events are taken from the front one by one, each with the length the
/// decoder gives it, until one of them is a key. A control sequence at the
/// front that the decoder is not given ends the search, and so would an event
/// of no length: then there is no key and all bytes are used.
pub open spec fn decoding(bytes: Seq<u8>) -> (Option<Key>, nat)
    decreases bytes.len(),
{
    let taken = front_length(bytes);
    if bytes.len() == 0 {
        (None, 0)
    } else if !decodable_at(bytes, 0) || taken < 1 || taken > bytes.len() {
        (None, bytes.len())
    } else {
        let key = event_key(bytes.subrange(0, taken as int));
        if key.is_some() {
            (key, taken)
        } else {
            let after = decoding(bytes.subrange(taken as int, bytes.len() as int));
            (after.0, taken + after.1)
        }
    }
}

/// A chunk that is one ASCII byte or one arrow key is input that the decoder
/// takes.
pub proof fn lemma_plain_key_decodable(bytes: Seq<u8>)
    requires
        plain_key(bytes).is_some(),
    ensures
        decodable(bytes),
{
    assert forall|at: int| 0 <= at < bytes.len() implies #[trigger] decodable_at(bytes, at) by {
        if control_sequence_at(bytes, at) && at + 2 < bytes.len() {
            assert(at == 0);
        }
    }
}

/// Two different chunks that each are one ASCII byte or one arrow key stand
/// for two different keys, but for the line feed and the carriage return,
/// which are one key: the four arrows differ from each other, from a bare
/// escape and from every character.
pub proof fn lemma_plain_keys_distinct(first: Seq<u8>, second: Seq<u8>)
    requires
        plain_key(first).is_some(),
        plain_key(second).is_some(),
        first != second,
        !(is_line_end(first) && is_line_end(second)),
    ensures
        plain_key(first) != plain_key(second),
{
    if first.len() == 1 && second.len() == 1 {
        let a = first[0];
        let b = second[0];
        assert(a != b) by {
            if a == b {
                assert(first =~= second);
            }
        }
        lemma_byte_keys_distinct(a, b);
    } else if first.len() == 3 && second.len() == 3 {
        assert(first[2] != second[2]) by {
            if first[2] == second[2] {
                assert(first =~= second);
            }
        }
    } else if first.len() == 1 {
        lemma_byte_key_no_arrow(first[0]);
    } else {
        lemma_byte_key_no_arrow(second[0]);
    }
}

proof fn lemma_byte_key_no_arrow(byte: u8)
    ensures
        byte_key(byte) != Some(Key::Up),
        byte_key(byte) != Some(Key::Down),
        byte_key(byte) != Some(Key::Left),
        byte_key(byte) != Some(Key::Right),
{
}

proof fn lemma_byte_keys_distinct(a: u8, b: u8)
    requires
        a != b,
        byte_key(a).is_some(),
        byte_key(b).is_some(),
        !((a == 0x0a || a == 0x0d) && (b == 0x0a || b == 0x0d)),
    ensures
        byte_key(a) != byte_key(b),
{
}

} // verus!
