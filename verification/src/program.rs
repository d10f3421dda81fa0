use std::collections::BTreeMap;
use vstd::prelude::*;
use vstd::string::StringExecFns;
use crate::keys::{ascending, sorted_keys};
use crate::ranges::{lemma_ascending_is_between, lemma_numbers_between, numbers_between, select_range};
use crate::text::{
    chars_of, copy_range, decimal, find_char, first_index, lemma_decimal,
    lemma_decimal_reads_back, lemma_first_index_after, parse_u16, push_decimal, read_u16,
    string_of, texts, trim, trim_range,
};

verus! {

/// The state of a terminal session: the two modes that the user switches, the
/// program that the lines sent so far make up, and the names of the commands
/// with a word on what each does.
pub struct Msxterm {
    dump_mode: bool,
    lower_mode: bool,
    prog_buff: BTreeMap<u16, String>,
    t_com: Vec<(String, String)>,
}

/// The program after a line with this number and content was stored. A line
/// without content takes the line of that number out of the program.
pub open spec fn stored(program: Map<u16, Seq<char>>, number: u16, content: Seq<char>) -> Map<
    u16,
    Seq<char>,
> {
    if content.len() == 0 {
        program.remove(number)
    } else {
        program.insert(number, content)
    }
}

/// Storing a line without content leaves the program without a line of that
/// number, whatever stood there before.
pub proof fn lemma_empty_content_removes(program: Map<u16, Seq<char>>, number: u16)
    ensures
        !stored(program, number, Seq::empty()).contains_key(number),
        forall|content: Seq<char>|
            stored(stored(program, number, content), number, Seq::empty()) == program.remove(
                number,
            ),
{
    assert forall|content: Seq<char>|
        stored(stored(program, number, content), number, Seq::empty()) == program.remove(
            number,
        ) by {
        assert(program.insert(number, content).remove(number) == program.remove(number));
        assert(program.remove(number).remove(number) == program.remove(number));
    }
}

/// The program after a line of input was taken in. The line counts if a
/// number stands before its first blank, or is all of it. What follows the
/// blank, without the white space at its ends, is stored under that number;
/// a number alone takes its line out of the program.
pub open spec fn entered(program: Map<u16, Seq<char>>, line: Seq<char>) -> Map<u16, Seq<char>> {
    let blank = first_index(line, ' ');
    match parse_u16(line.subrange(0, blank)) {
        None => program,
        Some(number) => if blank < line.len() {
            stored(program, number, trim(line.subrange(blank + 1, line.len() as int)))
        } else {
            program.remove(number)
        },
    }
}

/// A line of the program as it is written out: the number, a blank and the
/// content.
pub open spec fn record(number: u16, content: Seq<char>) -> Seq<char> {
    decimal(number as nat) + seq![' '] + content
}

/// A record is read back as the line it was written for: taken in as a line
/// of input, it stores its content, without the white space at the ends,
/// under its number.
pub proof fn lemma_record_reads_back(program: Map<u16, Seq<char>>, number: u16, content: Seq<char>)
    ensures
        entered(program, record(number, content)) == stored(program, number, trim(content)),
{
    let numeral = decimal(number as nat);
    let line = record(number, content);
    lemma_decimal(number as nat);
    assert forall|i: int| 0 <= i < numeral.len() implies numeral[i] != ' ' by {
        assert('0' <= numeral[i] <= '9');
    }
    lemma_first_index_after(numeral, content, ' ');
    lemma_decimal_reads_back(number);
    assert(line.subrange(0, numeral.len() as int) == numeral);
    assert(line.subrange(numeral.len() as int + 1, line.len() as int) == content);
}

/// The lines of the program with the numbers from `start` to `end`, both
/// included, each as its record, in ascending order of the numbers.
pub open spec fn listing(program: Map<u16, Seq<char>>, start: u16, end: u16) -> Seq<Seq<char>> {
    numbers_between(program.dom(), start as int, end as int).map_values(
        |number: u16| record(number, program[number]),
    )
}

/// A listing shows the lines of its range in ascending order of their
/// numbers, each line once.
pub proof fn lemma_listing_ascends(program: Map<u16, Seq<char>>, start: u16, end: u16)
    ensures
        ({
            let numbers = numbers_between(program.dom(), start as int, end as int);
            &&& listing(program, start, end).len() == numbers.len()
            &&& ascending(numbers)
            &&& forall|k: u16| #[trigger]
                numbers.contains(k) <==> program.contains_key(k) && start <= k <= end
        }),
{
    lemma_numbers_between(program.dom(), start as int, end as int);
}

/// The width of the column of line numbers: the number of digits of the
/// greatest line number of the program.
pub open spec fn number_width(program: Map<u16, Seq<char>>) -> nat {
    let numbers = numbers_between(program.dom(), 0, 0xFFFF);
    if numbers.len() == 0 {
        0
    } else {
        decimal(numbers.last() as nat).len()
    }
}

/// The blanks that bring a numeral up to a width.
pub open spec fn padding(width: nat, numeral: Seq<char>) -> Seq<char> {
    Seq::new(
        if width > numeral.len() {
            (width - numeral.len()) as nat
        } else {
            0
        },
        |i: int| ' ',
    )
}

/// What switches the colour of the line numbers on.
pub open spec fn colour_on() -> Seq<char> {
    seq!['\u{1b}', '[', '3', '6', 'm']
}

/// What switches the colour of the line numbers off.
pub open spec fn colour_off() -> Seq<char> {
    seq!['\u{1b}', '[', '0', 'm']
}

/// A line of the program as it is shown: the number in colour, moved to the
/// right in a column of the given width, a blank and the content.
pub open spec fn shown_record(width: nat, number: u16, content: Seq<char>) -> Seq<char> {
    let numeral = decimal(number as nat);
    padding(width, numeral) + colour_on() + numeral + colour_off() + seq![' '] + content
}

/// The lines of the program with the numbers from `start` to `end`, both
/// included, as they are shown, in ascending order of the numbers.
pub open spec fn display(program: Map<u16, Seq<char>>, start: u16, end: u16) -> Seq<Seq<char>> {
    numbers_between(program.dom(), start as int, end as int).map_values(
        |number: u16| shown_record(number_width(program), number, program[number]),
    )
}

/// The lines with the given numbers as they stand in a file: each record
/// with a line feed after it.
pub open spec fn written(program: Map<u16, Seq<char>>, numbers: Seq<u16>) -> Seq<char>
    decreases numbers.len(),
{
    if numbers.len() == 0 {
        Seq::empty()
    } else {
        written(program, numbers.drop_last()) + record(numbers.last(), program[numbers.last()])
            + seq!['\n']
    }
}

/// The program as it stands in a file: every line, in ascending order of the
/// numbers.
pub open spec fn program_text(program: Map<u16, Seq<char>>) -> Seq<char> {
    written(program, numbers_between(program.dom(), 0, 0xFFFF))
}

/// The commands that a session knows once it is set up.
pub open spec fn known_commands() -> Seq<(Seq<char>, Seq<char>)> {
    seq![("#list"@, "list Program"@)]
}

impl Msxterm {
    /// The stored program: the content of each line under its number.
    pub closed spec fn program(&self) -> Map<u16, Seq<char>> {
        self.prog_buff@.map_values(|s: String| s@)
    }

    /// Whether received bytes are shown as a hexadecimal dump.
    pub closed spec fn dumps(&self) -> bool {
        self.dump_mode
    }

    /// Whether lines are sent in lower case.
    pub closed spec fn lowers(&self) -> bool {
        self.lower_mode
    }

    /// The commands that the session knows by name, each with a word on
    /// what it does.
    pub closed spec fn commands(&self) -> Seq<(Seq<char>, Seq<char>)> {
        self.t_com@.map_values(|entry: (String, String)| (entry.0@, entry.1@))
    }

    /// What holds of every session: no line of the program is empty, and no
    /// command is known but the one that lists the program.
    pub closed spec fn wf(&self) -> bool {
        &&& forall|k: u16| #[trigger]
            self.prog_buff@.contains_key(k) ==> self.prog_buff@[k]@.len() > 0
        &&& self.commands() == Seq::<(Seq<char>, Seq<char>)>::empty() || self.commands()
            == known_commands()
    }

    /// No line of the program is empty.
    pub proof fn lemma_no_empty_line(&self, number: u16)
        requires
            self.wf(),
            self.program().contains_key(number),
        ensures
            self.program()[number].len() > 0,
    {
        assert(self.prog_buff@.contains_key(number));
    }

    /// The content of the line `number`, if the program has one.
    pub fn line(&self, number: u16) -> (content: Option<&String>)
        ensures
            match content {
                Some(text) => {
                    &&& self.program().contains_key(number)
                    &&& self.program()[number] == text@
                },
                None => !self.program().contains_key(number),
            },
    {
        let content = self.prog_buff.get(&number);
        proof {
            if let Some(text) = content {
                assert(self.prog_buff@.contains_key(number));
                assert(self.prog_buff@[number] == *text);
            }
        }
        content
    }

    /// A session with an empty program that sends in lower case and does not
    /// dump.
    pub fn new() -> (m: Msxterm)
        ensures
            m.wf(),
            m.program() == Map::<u16, Seq<char>>::empty(),
            m.commands() == Seq::<(Seq<char>, Seq<char>)>::empty(),
            !m.dumps(),
            m.lowers(),
    {
        let m = Msxterm {
            dump_mode: false,
            lower_mode: true,
            prog_buff: BTreeMap::new(),
            t_com: Vec::new(),
        };
        assert(m.program() == Map::<u16, Seq<char>>::empty());
        assert(m.commands() == Seq::<(Seq<char>, Seq<char>)>::empty());
        m
    }

    /// Makes the commands known to the session.
    pub fn init(&mut self)
        requires
            old(self).wf(),
        ensures
            final(self).wf(),
            final(self).commands() == known_commands(),
            final(self).program() == old(self).program(),
            final(self).dumps() == old(self).dumps(),
            final(self).lowers() == old(self).lowers(),
    {
        if self.t_com.len() == 0 {
            self.t_com.push(("#list".to_owned(), "list Program".to_owned()));
            assert(self.commands() == known_commands());
        }
    }

    /// Tells whether received bytes are shown as a hexadecimal dump.
    pub fn dump_mode(&self) -> (on: bool)
        ensures
            on == self.dumps(),
    {
        self.dump_mode
    }

    /// Tells whether lines are sent in lower case.
    pub fn lower_mode(&self) -> (on: bool)
        ensures
            on == self.lowers(),
    {
        self.lower_mode
    }

    /// Switches the dump of received bytes on or off.
    pub fn set_dump_mode(&mut self, on: bool)
        requires
            old(self).wf(),
        ensures
            final(self).wf(),
            final(self).dumps() == on,
            final(self).lowers() == old(self).lowers(),
            final(self).program() == old(self).program(),
            final(self).commands() == old(self).commands(),
    {
        self.dump_mode = on;
    }

    /// Switches sending in lower case on or off.
    pub fn set_lower_mode(&mut self, on: bool)
        requires
            old(self).wf(),
        ensures
            final(self).wf(),
            final(self).lowers() == on,
            final(self).dumps() == old(self).dumps(),
            final(self).program() == old(self).program(),
            final(self).commands() == old(self).commands(),
    {
        self.lower_mode = on;
    }

    /// Stores `content` as the line `number`, in place of the line that had
    /// the number before. Empty content takes that line out.
    pub fn set_line(&mut self, number: u16, content: &str)
        requires
            old(self).wf(),
        ensures
            final(self).wf(),
            final(self).program() == stored(old(self).program(), number, content@),
            final(self).dumps() == old(self).dumps(),
            final(self).lowers() == old(self).lowers(),
            final(self).commands() == old(self).commands(),
    {
        if content.is_empty() {
            self.delete_line(number);
        } else {
            self.prog_buff.insert(number, content.to_owned());
            assert(self.program() == old(self).program().insert(number, content@));
        }
    }

    /// Takes the line `number` out of the program, if there is one.
    pub fn delete_line(&mut self, number: u16)
        requires
            old(self).wf(),
        ensures
            final(self).wf(),
            final(self).program() == old(self).program().remove(number),
            final(self).dumps() == old(self).dumps(),
            final(self).lowers() == old(self).lowers(),
            final(self).commands() == old(self).commands(),
    {
        self.prog_buff.remove(&number);
        assert(self.program() == old(self).program().remove(number));
    }

    /// Empties the program.
    pub fn clear_basic(&mut self)
        requires
            old(self).wf(),
        ensures
            final(self).wf(),
            final(self).program() == Map::<u16, Seq<char>>::empty(),
            final(self).dumps() == old(self).dumps(),
            final(self).lowers() == old(self).lowers(),
            final(self).commands() == old(self).commands(),
    {
        self.prog_buff.clear();
        assert(self.program() == Map::<u16, Seq<char>>::empty());
    }

    /// Takes a line of input into the program, if it is a numbered line.
    pub fn parse_basic(&mut self, line: &str)
        requires
            old(self).wf(),
        ensures
            final(self).wf(),
            final(self).program() == entered(old(self).program(), line@),
            final(self).dumps() == old(self).dumps(),
            final(self).lowers() == old(self).lowers(),
            final(self).commands() == old(self).commands(),
    {
        let chars = chars_of(line);
        let blank = find_char(&chars, 0, chars.len(), ' ');
        proof {
            assert(chars@.subrange(0, chars.len() as int) == chars@);
        }
        match read_u16(&chars, 0, blank) {
            None => {},
            Some(number) => {
                if blank < chars.len() {
                    let (a, b) = trim_range(&chars, blank + 1, chars.len());
                    let instruction = copy_range(&chars, a, b);
                    let content = string_of(&instruction);
                    self.set_line(number, content.as_str());
                } else {
                    self.delete_line(number);
                }
            },
        }
    }

    /// The numbers of the program's lines from `start` to `end`, ascending.
    fn numbers(&self, start: u16, end: u16) -> (picked: Vec<u16>)
        ensures
            picked@ == numbers_between(self.program().dom(), start as int, end as int),
            forall|i: int| 0 <= i < picked.len() ==> self.prog_buff@.contains_key(#[trigger] picked[i]),
    {
        let keys = sorted_keys(&self.prog_buff);
        let picked = select_range(&keys, start, end);
        proof {
            assert(keys@.to_set() == self.program().dom());
            lemma_numbers_between(self.program().dom(), start as int, end as int);
            assert forall|i: int| 0 <= i < picked.len() implies self.prog_buff@.contains_key(
                #[trigger] picked[i],
            ) by {
                assert(picked@.contains(picked[i]));
            }
        }
        picked
    }

    /// The record of the line `number`.
    fn record_of(&self, number: u16) -> (line: String)
        requires
            self.prog_buff@.contains_key(number),
        ensures
            line@ == record(number, self.program()[number]),
    {
        let mut head: Vec<char> = Vec::new();
        push_decimal(&mut head, number);
        head.push(' ');
        let mut line = string_of(&head);
        match self.prog_buff.get(&number) {
            Some(content) => {
                line.append(content.as_str());
            },
            None => {},
        }
        line
    }

    /// Lists the lines with the numbers from `start` to `end` as records, for
    /// the history.
    pub fn print_basic(&self, start: u16, end: u16) -> (history: Vec<String>)
        ensures
            texts(history@) == listing(self.program(), start, end),
    {
        let picked = self.numbers(start, end);
        let mut history: Vec<String> = Vec::new();
        let mut i: usize = 0;
        while i < picked.len()
            invariant
                i <= picked.len(),
                forall|j: int|
                    0 <= j < picked.len() ==> self.prog_buff@.contains_key(#[trigger] picked[j]),
                history.len() == i,
                forall|j: int|
                    0 <= j < i ==> (#[trigger] history[j])@ == record(
                        picked[j],
                        self.program()[picked[j]],
                    ),
            decreases picked.len() - i,
        {
            history.push(self.record_of(picked[i]));
            i += 1;
        }
        proof {
            assert(texts(history@) == listing(self.program(), start, end));
        }
        history
    }

    /// The line `number` as it is shown in a column of the given width.
    fn shown_record_of(&self, width: usize, number: u16) -> (line: String)
        requires
            self.prog_buff@.contains_key(number),
        ensures
            line@ == shown_record(width as nat, number, self.program()[number]),
    {
        let mut numeral: Vec<char> = Vec::new();
        push_decimal(&mut numeral, number);
        let mut head: Vec<char> = Vec::new();
        let mut pad: usize = numeral.len();
        while pad < width
            invariant
                numeral@ == decimal(number as nat),
                pad >= numeral.len(),
                pad == numeral.len() || pad <= width,
                head.len() == pad - numeral.len(),
                forall|j: int| 0 <= j < head.len() ==> head[j] == ' ',
            decreases width - pad,
        {
            head.push(' ');
            pad += 1;
        }
        let ghost blanks = head@;
        assert(blanks == padding(width as nat, numeral@));
        head.push('\u{1b}');
        head.push('[');
        head.push('3');
        head.push('6');
        head.push('m');
        assert(head@ == blanks + colour_on());
        let mut line = string_of(&head);
        line.append(string_of(&numeral).as_str());
        let mut tail: Vec<char> = Vec::new();
        tail.push('\u{1b}');
        tail.push('[');
        tail.push('0');
        tail.push('m');
        tail.push(' ');
        assert(tail@ == colour_off() + seq![' ']);
        line.append(string_of(&tail).as_str());
        match self.prog_buff.get(&number) {
            Some(content) => {
                line.append(content.as_str());
            },
            None => {},
        }
        assert(line@ == blanks + colour_on() + numeral@ + colour_off() + seq![' ']
            + self.program()[number]);
        line
    }

    /// Lists the lines with the numbers from `start` to `end` as they are
    /// shown to the user.
    pub fn display_basic(&self, start: u16, end: u16) -> (shown: Vec<String>)
        ensures
            texts(shown@) == display(self.program(), start, end),
    {
        let keys = sorted_keys(&self.prog_buff);
        let mut shown: Vec<String> = Vec::new();
        proof {
            assert(keys@.to_set() == self.program().dom());
            lemma_ascending_is_between(keys@, self.program().dom(), 0, 0xFFFF);
        }
        let mut width: usize = 0;
        if keys.len() > 0 {
            let mut numeral: Vec<char> = Vec::new();
            push_decimal(&mut numeral, keys[keys.len() - 1]);
            width = numeral.len();
        }
        assert(width == number_width(self.program()));
        let picked = select_range(&keys, start, end);
        proof {
            lemma_numbers_between(self.program().dom(), start as int, end as int);
            assert forall|i: int| 0 <= i < picked.len() implies self.prog_buff@.contains_key(
                #[trigger] picked[i],
            ) by {
                assert(picked@.contains(picked[i]));
            }
        }
        let mut i: usize = 0;
        while i < picked.len()
            invariant
                i <= picked.len(),
                forall|j: int|
                    0 <= j < picked.len() ==> self.prog_buff@.contains_key(#[trigger] picked[j]),
                shown.len() == i,
                forall|j: int|
                    0 <= j < i ==> (#[trigger] shown[j])@ == shown_record(
                        width as nat,
                        picked[j],
                        self.program()[picked[j]],
                    ),
            decreases picked.len() - i,
        {
            shown.push(self.shown_record_of(width, picked[i]));
            i += 1;
        }
        proof {
            assert(texts(shown@) == display(self.program(), start, end));
        }
        shown
    }

    /// The program as it is written to a file.
    pub fn save_program(&self) -> (text: String)
        ensures
            text@ == program_text(self.program()),
    {
        let picked = self.numbers(0, 0xFFFF);
        let mut text = String::new();
        let mut i: usize = 0;
        while i < picked.len()
            invariant
                i <= picked.len(),
                forall|j: int|
                    0 <= j < picked.len() ==> self.prog_buff@.contains_key(#[trigger] picked[j]),
                text@ == written(self.program(), picked@.take(i as int)),
            decreases picked.len() - i,
        {
            let line = self.record_of(picked[i]);
            proof {
                assert(picked@.take(i + 1).drop_last() == picked@.take(i as int));
            }
            text.append(line.as_str());
            text.push('\n');
            i += 1;
        }
        proof {
            assert(picked@.take(picked.len() as int) == picked@);
        }
        text
    }
}

} // verus!
