use vstd::prelude::*;
use crate::text::{
    chars_of, copy_range, has_prefix, parse_u16, read_u16, split, split_chars, starts_with,
    string_of, trim, trimmed, views,
};

verus! {

/// What a line of input asks for. A line that begins with one of the command
/// names is that command; every other line is sent to the device.
#[derive(Clone, Copy, Debug, PartialEq, Eq, Structural)]
pub enum Command {
    /// `#quit`: end the session.
    Quit,
    /// `#hex`: send the bytes written in hexadecimal.
    Hex,
    /// `#dump_on`: show received bytes as a dump.
    DumpOn,
    /// `#dump_off`: show received bytes as text.
    DumpOff,
    /// `#lowsend_on`: send lines in lower case.
    LowerOn,
    /// `#lowsend_off`: send lines as they are.
    LowerOff,
    /// `#clear_history`: forget the history of input lines.
    ClearHistory,
    /// `#new`: empty the program.
    New,
    /// `#load`: read a program from a file and send it.
    Load,
    /// `#list`: show the program.
    List,
    /// `#save`: write the program to a file.
    Save,
    /// Anything else: a line for the device.
    Send,
}

/// The command that a line of input gives.
pub open spec fn command_of(line: Seq<char>) -> Command {
    if starts_with(line, "#quit"@) {
        Command::Quit
    } else if starts_with(line, "#hex"@) {
        Command::Hex
    } else if starts_with(line, "#dump_on"@) {
        Command::DumpOn
    } else if starts_with(line, "#dump_off"@) {
        Command::DumpOff
    } else if starts_with(line, "#lowsend_on"@) {
        Command::LowerOn
    } else if starts_with(line, "#lowsend_off"@) {
        Command::LowerOff
    } else if starts_with(line, "#clear_history"@) {
        Command::ClearHistory
    } else if starts_with(line, "#new"@) {
        Command::New
    } else if starts_with(line, "#load"@) {
        Command::Load
    } else if starts_with(line, "#list"@) {
        Command::List
    } else if starts_with(line, "#save"@) {
        Command::Save
    } else {
        Command::Send
    }
}

/// Tests whether `line` begins with `name`.
fn begins(line: &Vec<char>, name: &str) -> (b: bool)
    ensures
        b == starts_with(line@, name@),
{
    has_prefix(line, &chars_of(name))
}

/// Finds the command that a line of input gives.
pub fn read_command(line: &str) -> (command: Command)
    ensures
        command == command_of(line@),
{
    let chars = chars_of(line);
    if begins(&chars, "#quit") {
        Command::Quit
    } else if begins(&chars, "#hex") {
        Command::Hex
    } else if begins(&chars, "#dump_on") {
        Command::DumpOn
    } else if begins(&chars, "#dump_off") {
        Command::DumpOff
    } else if begins(&chars, "#lowsend_on") {
        Command::LowerOn
    } else if begins(&chars, "#lowsend_off") {
        Command::LowerOff
    } else if begins(&chars, "#clear_history") {
        Command::ClearHistory
    } else if begins(&chars, "#new") {
        Command::New
    } else if begins(&chars, "#load") {
        Command::Load
    } else if begins(&chars, "#list") {
        Command::List
    } else if begins(&chars, "#save") {
        Command::Save
    } else {
        Command::Send
    }
}

/// The range of line numbers that a command names in its second word:
/// `10-20` gives both ends, `40-` and `50` the first, `-50` the second. An end
/// that is missing or is no line number is left open.
pub open spec fn range_of(command: Seq<char>) -> (Option<u16>, Option<u16>) {
    let words = split(trim(command), ' ');
    if words.len() < 2 {
        (None, None)
    } else {
        let ends = split(words[1], '-');
        (
            parse_u16(ends[0]),
            if ends.len() < 2 {
                None
            } else {
                parse_u16(ends[1])
            },
        )
    }
}

/// Reads the range of line numbers that a command names.
pub fn parse_command(command: &str) -> (range: (Option<u16>, Option<u16>))
    ensures
        range == range_of(command@),
{
    let chars = chars_of(command);
    let line = trimmed(&chars);
    let words = split_chars(&line, ' ');
    proof {
        assert(views(words@).len() == words.len());
    }
    if words.len() < 2 {
        return (None, None);
    }
    let ends = split_chars(&words[1], '-');
    proof {
        assert(views(words@)[1] == words[1]@);
        assert(views(ends@).len() == ends.len());
        assert(ends.len() >= 1);
        assert(views(ends@)[0] == ends[0]@);
        assert(ends[0]@.subrange(0, ends[0].len() as int) == ends[0]@);
    }
    let start = read_u16(&ends[0], 0, ends[0].len());
    let end = if ends.len() < 2 {
        None
    } else {
        proof {
            assert(views(ends@)[1] == ends[1]@);
            assert(ends[1]@.subrange(0, ends[1].len() as int) == ends[1]@);
        }
        read_u16(&ends[1], 0, ends[1].len())
    };
    (start, end)
}

/// The last line number that a listing shows when none is named.
pub const LAST_LISTED: u16 = 65530;

/// The lines that a listing command shows: the range it names, from the
/// first line where it names no start, up to `LAST_LISTED` where it names no
/// end.
pub open spec fn listed_range(command: Seq<char>) -> (u16, u16) {
    let range = range_of(command);
    (
        match range.0 {
            Some(start) => start,
            None => 0,
        },
        match range.1 {
            Some(end) => end,
            None => LAST_LISTED,
        },
    )
}

/// Reads the lines that a listing command shows.
pub fn list_range(command: &str) -> (range: (u16, u16))
    ensures
        range == listed_range(command@),
{
    let (start, end) = parse_command(command);
    (
        match start {
            Some(start) => start,
            None => 0,
        },
        match end {
            Some(end) => end,
            None => LAST_LISTED,
        },
    )
}

/// `s` without the quotation marks at its two ends.
pub open spec fn unquote(s: Seq<char>) -> Seq<char>
    decreases s.len(),
{
    if s.len() > 0 && s.first() == '"' {
        unquote(s.drop_first())
    } else if s.len() > 0 && s.last() == '"' {
        unquote(s.drop_last())
    } else {
        s
    }
}

/// The path that a command names: its second word, without quotation marks
/// around it. A command of one word names none.
pub open spec fn path_of(command: Seq<char>) -> Option<Seq<char>> {
    let words = split(command, ' ');
    if words.len() < 2 {
        None
    } else {
        Some(unquote(words[1]))
    }
}

/// Takes the quotation marks from the two ends of `v`.
fn unquoted(v: &Vec<char>) -> (r: Vec<char>)
    ensures
        r@ == unquote(v@),
{
    let mut a: usize = 0;
    let to = v.len();
    proof {
        assert(v@.subrange(0, to as int) == v@);
    }
    while a < to && v[a] == '"'
        invariant
            a <= to == v.len(),
            unquote(v@.subrange(a as int, to as int)) == unquote(v@),
        decreases to - a,
    {
        proof {
            assert(v@.subrange(a as int, to as int).drop_first() == v@.subrange(a + 1, to as int));
        }
        a += 1;
    }
    let mut b: usize = to;
    while a < b && v[b - 1] == '"'
        invariant
            a <= b <= to == v.len(),
            a < to ==> v@[a as int] != '"',
            unquote(v@.subrange(a as int, b as int)) == unquote(v@),
        decreases b - a,
    {
        proof {
            assert(v@.subrange(a as int, b as int).drop_last() == v@.subrange(a as int, b - 1));
        }
        b -= 1;
    }
    copy_range(v, a, b)
}

/// Reads the path that a command names.
pub fn command_path(command: &str) -> (path: Option<String>)
    ensures
        match path {
            Some(p) => path_of(command@) == Some(p@),
            None => path_of(command@) is None,
        },
{
    let chars = chars_of(command);
    let words = split_chars(&chars, ' ');
    proof {
        assert(views(words@).len() == words.len());
    }
    if words.len() < 2 {
        None
    } else {
        proof {
            assert(views(words@)[1] == words[1]@);
        }
        Some(string_of(&unquoted(&words[1])))
    }
}

} // verus!
