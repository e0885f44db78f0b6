//! The terminal session: how it starts, what its operations put on the
//! output stream, how a key is read, and how the session ends.

use crate::geometry::{display_height, terminal_coordinate, Position, Size};
use crate::key::{decoding, plain_key, Key};
use crate::sequence::{
    clear_all_sequence, clear_line_sequence, goto_sequence, hide_cursor_sequence, render_clear_all,
    render_clear_line, render_cursor_hide, render_cursor_show, render_goto, render_reset_bg,
    render_reset_fg, render_set_bg, render_set_fg, reset_bg_sequence, reset_fg_sequence,
    set_bg_sequence, set_fg_sequence, show_cursor_sequence, Rgb,
};
use vstd::prelude::*;

verus! {

/// What can go wrong between this layer and the device.
#[derive(Clone, Copy, Debug, PartialEq, Eq, Structural)]
pub enum TerminalError {
    /// The system could not tell the size of the terminal.
    SizeQueryFailed,
    /// The system refused to enter raw mode.
    RawModeEnterFailed,
    /// Reading from the input stream failed.
    ReadFailed,
    /// The buffered output could not be delivered.
    FlushFailed,
}

/// A raw-mode session. It is active from its construction until its first
/// release, and never again after that.
#[derive(Debug)]
pub struct Terminal {
    size: Size,
    active: bool,
}

/// What a poll of the input stream leads to, and how many of the bytes read
/// are used up: an error where the read failed, the first key where the bytes
/// hold one, and nothing yet otherwise.
pub open spec fn poll_result(input: Result<Seq<u8>, ()>) -> (
    Option<Result<Key, TerminalError>>,
    nat,
) {
    match input {
        Err(_) => (Some(Err(TerminalError::ReadFailed)), 0),
        Ok(bytes) => (key_result(decoding(bytes).0), decoding(bytes).1),
    }
}

/// What a decoded chunk of input leads to: the key, or nothing yet.
pub open spec fn key_result(decoded: Option<Key>) -> Option<Result<Key, TerminalError>> {
    match decoded {
        Some(key) => Some(Ok(key)),
        None => None,
    }
}

impl Terminal {
    /// The usable size of the screen.
    pub closed spec fn geometry(&self) -> Size {
        self.size
    }

    /// Whether the session still holds raw mode.
    pub closed spec fn active(&self) -> bool {
        self.active
    }

    /// The session after a release: the same geometry, no longer active.
    pub closed spec fn released(self) -> Terminal {
        Terminal { size: self.size, active: false }
    }

    /// How many of `releases` successive releases of this session ask for
    /// the previous input mode to be restored.
    pub open spec fn restorations(self, releases: nat) -> nat
        decreases releases,
    {
        if releases == 0 {
            0
        } else {
            let first: nat = if self.active() { 1 } else { 0 };
            first + self.released().restorations((releases - 1) as nat)
        }
    }

    /// Whether raw mode is to be entered after the size query: only where the
    /// query gave a size.
    pub fn wants_raw_mode(reported: Option<(u16, u16)>) -> (wanted: bool)
        ensures
            wanted == reported.is_some(),
    {
        reported.is_some()
    }

    /// Starts a session from what the system answered: `reported` is the
    /// terminal's width and height where the size query succeeded, and
    /// `raw_mode_entered` says whether raw mode was entered after it. A failed
    /// size query is reported first.
    pub fn default(reported: Option<(u16, u16)>, raw_mode_entered: bool) -> (started: Result<
        Terminal,
        TerminalError,
    >)
        ensures
            reported.is_none() ==> started == Err::<Terminal, TerminalError>(
                TerminalError::SizeQueryFailed,
            ),
            reported.is_some() && !raw_mode_entered ==> started == Err::<Terminal, TerminalError>(
                TerminalError::RawModeEnterFailed,
            ),
            reported.is_some() && raw_mode_entered ==> {
                &&& started.is_ok()
                &&& started.unwrap().active()
                &&& started.unwrap().geometry().width == reported.unwrap().0
                &&& started.unwrap().geometry().height as int == display_height(
                    reported.unwrap().1 as int,
                )
            },
    {
        match reported {
            None => Err(TerminalError::SizeQueryFailed),
            Some((columns, rows)) => {
                if raw_mode_entered {
                    Ok(Terminal { size: Size::from_reported(columns, rows), active: true })
                } else {
                    Err(TerminalError::RawModeEnterFailed)
                }
            },
        }
    }

    /// The usable size of the screen.
    pub fn size(&self) -> (size: &Size)
        ensures
            *size == self.geometry(),
    {
        &self.size
    }

    /// Whether the session still holds raw mode.
    pub fn is_active(&self) -> (active: bool)
        ensures
            active == self.active(),
    {
        self.active
    }

    /// Ends the session. The result says whether the previous input mode is to
    /// be restored now: it is on the first release of a session and never
    /// after.
    pub fn release(&mut self) -> (restore: bool)
        ensures
            restore == old(self).active(),
            *final(self) == old(self).released(),
            !final(self).active(),
            final(self).geometry() == old(self).geometry(),
    {
        let restore = self.active;
        self.active = false;
        restore
    }

    /// The bytes that clear the whole screen.
    pub fn clear_screen() -> (out: Vec<u8>)
        ensures
            out@ == clear_all_sequence(),
    {
        render_clear_all()
    }

    /// The bytes that clear the line the cursor is on.
    pub fn clear_current_line() -> (out: Vec<u8>)
        ensures
            out@ == clear_line_sequence(),
    {
        render_clear_line()
    }

    /// The bytes that select `color` as the background of what follows.
    pub fn set_bg_color(color: Rgb) -> (out: Vec<u8>)
        ensures
            out@ == set_bg_sequence(color),
    {
        render_set_bg(color)
    }

    /// The bytes that return to the default background.
    pub fn reset_bg_color() -> (out: Vec<u8>)
        ensures
            out@ == reset_bg_sequence(),
    {
        render_reset_bg()
    }

    /// The bytes that select `color` for the text that follows.
    pub fn set_fg_color(color: Rgb) -> (out: Vec<u8>)
        ensures
            out@ == set_fg_sequence(color),
    {
        render_set_fg(color)
    }

    /// The bytes that return to the default text colour.
    pub fn reset_fg_color() -> (out: Vec<u8>)
        ensures
            out@ == reset_fg_sequence(),
    {
        render_reset_fg()
    }

    /// The bytes that move the cursor to `position`, given in the terminal's
    /// one-based coordinates.
    pub fn cursor_position(position: &Position) -> (out: Vec<u8>)
        ensures
            out@ == goto_sequence(
                terminal_coordinate(position.x as int) as nat,
                terminal_coordinate(position.y as int) as nat,
            ),
    {
        let column: u16 = position.column();
        let row: u16 = position.row();
        render_goto(column, row)
    }

    /// The bytes that hide the cursor.
    pub fn cursor_hide() -> (out: Vec<u8>)
        ensures
            out@ == hide_cursor_sequence(),
    {
        render_cursor_hide()
    }

    /// The bytes that show the cursor.
    pub fn cursor_show() -> (out: Vec<u8>)
        ensures
            out@ == show_cursor_sequence(),
    {
        render_cursor_show()
    }

    /// The outcome of a flush, from whether the device took the output.
    pub fn flush(delivered: bool) -> (outcome: Result<(), TerminalError>)
        ensures
            delivered ==> outcome == Ok::<(), TerminalError>(()),
            !delivered ==> outcome == Err::<(), TerminalError>(TerminalError::FlushFailed),
    {
        if delivered {
            Ok(())
        } else {
            Err(TerminalError::FlushFailed)
        }
    }

    /// One poll of the input stream. `input` is what the read gave: the bytes
    /// that were available, or its failure. The result is the outcome and the
    /// number of bytes used up; the bytes after those are input still to be
    /// decoded. An outcome of `None` asks for another poll: that no key has
    /// come yet is no error.
    pub fn read_key(input: &Result<Vec<u8>, ()>) -> (next: (
        Option<Result<Key, TerminalError>>,
        usize,
    ))
        ensures
            next.0 == poll_result(
                match *input {
                    Ok(bytes) => Ok::<Seq<u8>, ()>(bytes@),
                    Err(_) => Err::<Seq<u8>, ()>(()),
                },
            ).0,
            next.1 == poll_result(
                match *input {
                    Ok(bytes) => Ok::<Seq<u8>, ()>(bytes@),
                    Err(_) => Err::<Seq<u8>, ()>(()),
                },
            ).1,
            input.is_err() <==> next.0 == Some(
                Err::<Key, TerminalError>(TerminalError::ReadFailed),
            ),
            input.is_err() ==> next.1 == 0,
            input.is_ok() ==> next.1 <= input.unwrap()@.len(),
            input.is_ok() && next.0.is_none() ==> next.1 == input.unwrap()@.len(),
            input.is_ok() && input.unwrap()@.len() > 0 ==> next.1 >= 1,
            input.is_ok() && plain_key(input.unwrap()@).is_some() ==> next.0 == Some(
                Ok::<Key, TerminalError>(plain_key(input.unwrap()@).unwrap()),
            ) && next.1 == input.unwrap()@.len(),
    {
        match input {
            Err(_) => (Some(Err(TerminalError::ReadFailed)), 0),
            Ok(bytes) => {
                let found = Key::decode(bytes);
                (Terminal::key_outcome(found.0), found.1)
            },
        }
    }

    /// What a decoded chunk of input leads to: the key, or `None` for another
    /// poll.
    pub fn key_outcome(decoded: Option<Key>) -> (next: Option<Result<Key, TerminalError>>)
        ensures
            next == key_result(decoded),
    {
        match decoded {
            Some(key) => Some(Ok(key)),
            None => None,
        }
    }
}

/// Release is idempotent: a released session is not active, releasing it
/// once more changes nothing, and the geometry outlives the session.
pub proof fn lemma_release_idempotent(terminal: Terminal)
    ensures
        !terminal.released().active(),
        terminal.released().released() == terminal.released(),
        terminal.released().geometry() == terminal.geometry(),
{
}

/// The previous input mode is restored exactly once: however often a session
/// is released, its first release asks for the restoration where the session
/// was active, and no later one does.
pub proof fn lemma_restored_exactly_once(terminal: Terminal, releases: nat)
    ensures
        terminal.active() && releases >= 1 ==> terminal.restorations(releases) == 1,
        !terminal.active() ==> terminal.restorations(releases) == 0,
        terminal.restorations(0) == 0,
    decreases releases,
{
    if releases > 0 {
        lemma_restored_exactly_once(terminal.released(), (releases - 1) as nat);
    }
}

} // verus!
