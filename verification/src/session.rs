use vstd::prelude::*;
use vstd::string::{StrSliceExecFns, StringExecFns};
use vstd::utf8::encode_utf8;
use crate::display::{display_text, msx_ascii_to_string};
use crate::faces::{faces_encode, str_to_faces_code};
use crate::hex::{dump_hex, hex_dump};
use crate::lower::{lower_program, lower_text};
use crate::program::{entered, Msxterm};
use crate::text::{chars_of, split, split_chars, string_of, texts, trim, trimmed, views};

verus! {

/// The character that ends a line sent to the device.
pub const C_CR: char = '\r';

/// The byte that ends a line received from the device.
pub const U_LF: u8 = 0x0A;

/// The byte that stops the program running on the device.
pub const U_BREAK: u8 = 0x03;

/// The byte that erases the character before the cursor.
pub const U_BS: u8 = 0x08;

/// What the line editor reports in place of a line.
#[derive(Clone, Copy, Debug, PartialEq, Eq, Structural)]
pub enum Signal {
    /// The user interrupted the input.
    Interrupted,
    /// The user ended the input.
    Eof,
}

/// The byte sent to the device on a signal of the line editor: a break when
/// the input is interrupted, an erase when it is ended.
pub open spec fn signal_code(signal: Signal) -> u8 {
    match signal {
        Signal::Interrupted => U_BREAK,
        Signal::Eof => U_BS,
    }
}

/// Finds the byte to send on a signal of the line editor.
pub fn signal_byte(signal: Signal) -> (code: u8)
    ensures
        code == signal_code(signal),
{
    match signal {
        Signal::Interrupted => U_BREAK,
        Signal::Eof => U_BS,
    }
}

/// What the input loop tells the loop that receives.
#[derive(Clone, Copy, Debug, PartialEq, Eq, Structural)]
pub enum ModeChange {
    /// Show received bytes as a dump from now on.
    DumpModeOn,
    /// Show received bytes as text from now on.
    DumpModeOff,
}

/// Whether received bytes are dumped once the change was made.
pub open spec fn dumps_after(change: ModeChange) -> bool {
    change == ModeChange::DumpModeOn
}

/// Tells whether received bytes are dumped once the change was made.
pub fn dump_mode_after(change: ModeChange) -> (dump: bool)
    ensures
        dump == dumps_after(change),
{
    match change {
        ModeChange::DumpModeOn => true,
        ModeChange::DumpModeOff => false,
    }
}

/// A text with carriage returns for line ends: a line feed after a carriage
/// return is left out, and every other line feed becomes a carriage return.
pub open spec fn with_returns(text: Seq<char>) -> Seq<char>
    decreases text.len(),
{
    if text.len() == 0 {
        Seq::empty()
    } else {
        let head = text.drop_last();
        if text.last() != '\n' {
            with_returns(head).push(text.last())
        } else if head.len() > 0 && head.last() == '\r' {
            with_returns(head)
        } else {
            with_returns(head).push('\r')
        }
    }
}

/// The lines of a piece of input, whatever line ends it uses.
pub open spec fn input_lines(text: Seq<char>) -> Seq<Seq<char>> {
    split(with_returns(text), '\r')
}

/// Splits a piece of input into its lines.
pub fn split_input(input: &str) -> (lines: Vec<String>)
    ensures
        texts(lines@) == input_lines(input@),
{
    let text = chars_of(input);
    let mut returned: Vec<char> = Vec::new();
    let mut i: usize = 0;
    while i < text.len()
        invariant
            i <= text.len(),
            returned@ == with_returns(text@.take(i as int)),
        decreases text.len() - i,
    {
        let c = text[i];
        proof {
            assert(text@.take(i + 1).drop_last() == text@.take(i as int));
        }
        if c != '\n' {
            returned.push(c);
        } else if i > 0 && text[i - 1] == '\r' {
        } else {
            returned.push('\r');
        }
        i += 1;
    }
    proof {
        assert(text@.take(text.len() as int) == text@);
    }
    let pieces = split_chars(&returned, '\r');
    let mut lines: Vec<String> = Vec::new();
    let mut j: usize = 0;
    while j < pieces.len()
        invariant
            j <= pieces.len(),
            lines.len() == j,
            forall|k: int| 0 <= k < j ==> (#[trigger] lines[k])@ == pieces[k]@,
        decreases pieces.len() - j,
    {
        lines.push(string_of(&pieces[j]));
        j += 1;
    }
    proof {
        assert(texts(lines@) == views(pieces@));
    }
    lines
}

/// What is typed on the device for a line of input: the line and a carriage
/// return, in lower case if lines are sent so.
pub open spec fn wire_text(lower: bool, line: Seq<char>) -> Seq<char> {
    if lower {
        lower_text(line.push(C_CR))
    } else {
        line.push(C_CR)
    }
}

/// What is shown for bytes received from the device: their dump, or the text
/// they display.
pub open spec fn received_text(dump: bool, bytes: Seq<u8>) -> Seq<char> {
    if dump {
        hex_dump(bytes)
    } else {
        display_text(bytes)
    }
}

/// The program after each of `lines` was taken in without the white space at
/// its ends.
pub open spec fn loaded(program: Map<u16, Seq<char>>, lines: Seq<Seq<char>>) -> Map<
    u16,
    Seq<char>,
>
    decreases lines.len(),
{
    if lines.len() == 0 {
        program
    } else {
        entered(loaded(program, lines.drop_last()), trim(lines.last()))
    }
}

/// `lines` without the white space at their ends, each with a carriage
/// return after it, one after the other.
pub open spec fn joined(lines: Seq<Seq<char>>) -> Seq<char>
    decreases lines.len(),
{
    if lines.len() == 0 {
        Seq::empty()
    } else {
        joined(lines.drop_last()) + trim(lines.last()).push(C_CR)
    }
}

/// What loading a program gives: the lines for the history and the bytes for
/// the device.
pub struct Loaded {
    pub history: Vec<String>,
    pub bytes: Vec<u8>,
}

/// Whether `bytes` holds a line feed.
pub open spec fn holds_line_feed(bytes: Seq<u8>) -> bool {
    exists|i: int| 0 <= i < bytes.len() && bytes[i] == U_LF
}

/// Takes the first received line off `pending`: the bytes up to the first
/// line feed, the line feed included. Without a line feed nothing is taken.
pub fn take_received(pending: &mut Vec<u8>) -> (line: Option<Vec<u8>>)
    ensures
        match line {
            Some(bytes) => {
                &&& bytes@ + final(pending)@ == old(pending)@
                &&& bytes.len() > 0
                &&& bytes@.last() == U_LF
                &&& !holds_line_feed(bytes@.drop_last())
            },
            None => !holds_line_feed(old(pending)@) && final(pending)@ == old(pending)@,
        },
{
    let mut i: usize = 0;
    while i < pending.len() && pending[i] != U_LF
        invariant
            i <= pending.len(),
            *pending == *old(pending),
            forall|j: int| 0 <= j < i ==> pending[j] != U_LF,
        decreases pending.len() - i,
    {
        i += 1;
    }
    if i == pending.len() {
        return None;
    }
    let mut rest = pending.split_off(i + 1);
    let mut line: Vec<u8> = Vec::new();
    line.append(pending);
    pending.append(&mut rest);
    proof {
        assert(line@ == old(pending)@.subrange(0, i + 1));
        assert(line@.drop_last() == old(pending)@.subrange(0, i as int));
    }
    Some(line)
}

/// Shows bytes received from the device, as a dump or as text.
pub fn show_received(dump: bool, bytes: Vec<u8>) -> (shown: String)
    ensures
        shown@ == received_text(dump, bytes@),
{
    if dump {
        dump_hex(bytes)
    } else {
        msx_ascii_to_string(bytes)
    }
}

impl Msxterm {
    /// Takes a line of input for the device: the line goes into the program
    /// if it is numbered, and the keystrokes that type it are returned.
    pub fn send_line(&mut self, line: &str) -> (keys: Vec<u8>)
        requires
            old(self).wf(),
        ensures
            final(self).wf(),
            final(self).program() == entered(old(self).program(), line@),
            final(self).dumps() == old(self).dumps(),
            final(self).lowers() == old(self).lowers(),
            final(self).commands() == old(self).commands(),
            keys@ == faces_encode(wire_text(old(self).lowers(), line@)),
    {
        self.parse_basic(line);
        let mut text = String::from_str(line);
        text.push(C_CR);
        if self.lower_mode() {
            text = lower_program(text.as_str());
        }
        str_to_faces_code(text.as_str())
    }

    /// Takes the lines of a program file: each goes into the program and
    /// into the history without the white space at its ends, and all of them
    /// are returned as the bytes to send, in lower case if lines are sent so.
    pub fn load_program(&mut self, lines: &Vec<String>) -> (loaded: Loaded)
        requires
            old(self).wf(),
        ensures
            final(self).wf(),
            final(self).program() == self::loaded(old(self).program(), texts(lines@)),
            final(self).dumps() == old(self).dumps(),
            final(self).lowers() == old(self).lowers(),
            final(self).commands() == old(self).commands(),
            texts(loaded.history@) == texts(lines@).map_values(|l: Seq<char>| trim(l)),
            loaded.bytes@ == encode_utf8(
                if old(self).lowers() {
                    lower_text(joined(texts(lines@)))
                } else {
                    joined(texts(lines@))
                },
            ),
    {
        let ghost all = texts(lines@);
        let mut history: Vec<String> = Vec::new();
        let mut program = String::new();
        let mut i: usize = 0;
        while i < lines.len()
            invariant
                i <= lines.len(),
                all == texts(lines@),
                self.wf(),
                self.program() == self::loaded(old(self).program(), all.take(i as int)),
                self.dumps() == old(self).dumps(),
                self.lowers() == old(self).lowers(),
                self.commands() == old(self).commands(),
                history.len() == i,
                forall|k: int| 0 <= k < i ==> (#[trigger] history[k])@ == trim(all[k]),
                program@ == joined(all.take(i as int)),
            decreases lines.len() - i,
        {
            proof {
                assert(all.take(i + 1).drop_last() == all.take(i as int));
                assert(all.take(i + 1).last() == lines[i as int]@);
            }
            let line = string_of(&trimmed(&chars_of(lines[i].as_str())));
            self.parse_basic(line.as_str());
            program.append(line.as_str());
            program.push(C_CR);
            history.push(line);
            i += 1;
        }
        proof {
            assert(all.take(lines.len() as int) == all);
            assert(texts(history@) == all.map_values(|l: Seq<char>| trim(l)));
        }
        if self.lower_mode() {
            program = lower_program(program.as_str());
        }
        Loaded { history, bytes: program.as_str().as_bytes_vec() }
    }
}

} // verus!
