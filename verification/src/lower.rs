use vstd::prelude::*;
use crate::text::{
    chars_of, copy_range, has_prefix, push_chars, split, split_chars, starts_with, trim, trimmed,
    views,
};

verus! {

/// The first character of the lower case of `c`.
pub uninterp spec fn lowercase_head(c: char) -> Option<char>;

/// `char::to_lowercase` yields the lower case of a character, which may be
/// more than one character; this takes the first of them. The result is a
/// function of the character alone.
#[verifier::external_body]
fn first_lowercase(c: char) -> (low: Option<char>)
    ensures
        low == lowercase_head(c),
{
    c.to_lowercase().next()
}

/// The lower case of `c`: the first character of its lower case, and `c`
/// itself if it has none.
pub open spec fn lower_char(c: char) -> char {
    match lowercase_head(c) {
        Some(low) => low,
        None => c,
    }
}

/// The lower case of each character of `s`.
pub open spec fn lower_chars(s: Seq<char>) -> Seq<char> {
    s.map_values(|c: char| lower_char(c))
}

/// Whether the end of `s` lies inside a quotation: whether `s` holds an odd
/// number of quotation marks.
pub open spec fn in_quotes(s: Seq<char>) -> bool
    decreases s.len(),
{
    if s.len() == 0 {
        false
    } else {
        in_quotes(s.drop_last()) != (s.last() == '"')
    }
}

/// `line` with each character outside quotations taken from `low` instead.
/// A quotation begins with its opening mark and ends before its closing mark.
pub open spec fn outside_quotes(line: Seq<char>, low: Seq<char>) -> Seq<char> {
    Seq::new(
        line.len(),
        |i: int|
            if in_quotes(line.take(i + 1)) {
                line[i]
            } else {
                low[i]
            },
    )
}

/// What is sent for a line whose lower case is `low`: the line in lower case
/// outside its quotations, or the line as it is if that begins with `rem`;
/// then a carriage return.
pub open spec fn lower_record(line: Seq<char>, low: Seq<char>) -> Seq<char> {
    let mixed = outside_quotes(line, low);
    if starts_with(mixed, "rem"@) {
        line.push('\r')
    } else {
        mixed.push('\r')
    }
}

/// A piece of text without the carriage return at its end, if it has one.
pub open spec fn strip_return(piece: Seq<char>) -> Seq<char> {
    if piece.len() > 0 && piece.last() == '\r' {
        piece.drop_last()
    } else {
        piece
    }
}

/// The lines of a text. A line ends at a line feed, or at a carriage return
/// and the line feed after it; what follows the last line feed is a line too
/// unless it is empty.
pub open spec fn text_lines(text: Seq<char>) -> Seq<Seq<char>> {
    let pieces = split(text, '\n');
    let ended = pieces.drop_last().map_values(|p: Seq<char>| strip_return(p));
    if pieces.last().len() == 0 {
        ended
    } else {
        ended.push(pieces.last())
    }
}

/// The records of `lines`, one after the other. Each line is taken without
/// the white space at its ends, and on its own: a quotation left open at the
/// end of a line does not reach into the next.
pub open spec fn lower_records(lines: Seq<Seq<char>>) -> Seq<char>
    decreases lines.len(),
{
    if lines.len() == 0 {
        Seq::empty()
    } else {
        let line = trim(lines.last());
        lower_records(lines.drop_last()) + lower_record(line, lower_chars(line))
    }
}

/// A program text as it is sent in lower case.
pub open spec fn lower_text(text: Seq<char>) -> Seq<char> {
    lower_records(text_lines(text))
}

/// Puts a line into lower case outside its quotations, given the lower case
/// of each of its characters, and ends it with a carriage return. A line that
/// then begins with `rem` is a remark and is kept as it is.
pub fn lower_line(line: &Vec<char>, low: &Vec<char>) -> (record: Vec<char>)
    requires
        low.len() == line.len(),
    ensures
        record@ == lower_record(line@, low@),
{
    let mut mixed: Vec<char> = Vec::new();
    let mut is_quoted = false;
    let mut i: usize = 0;
    while i < line.len()
        invariant
            i <= line.len() == low.len(),
            is_quoted == in_quotes(line@.take(i as int)),
            mixed.len() == i,
            forall|j: int|
                0 <= j < i ==> mixed[j] == if in_quotes(line@.take(j + 1)) {
                    line[j]
                } else {
                    low[j]
                },
        decreases line.len() - i,
    {
        let c = line[i];
        proof {
            assert(line@.take(i + 1).drop_last() == line@.take(i as int));
        }
        if c == '"' {
            is_quoted = !is_quoted;
        }
        if is_quoted {
            mixed.push(c);
        } else {
            mixed.push(low[i]);
        }
        i += 1;
    }
    proof {
        assert(mixed@ == outside_quotes(line@, low@));
    }
    let mut record = if has_prefix(&mixed, &chars_of("rem")) {
        copy_range(line, 0, line.len())
    } else {
        mixed
    };
    proof {
        assert(line@.subrange(0, line.len() as int) == line@);
    }
    record.push('\r');
    record
}

/// The lower case of each character of `line`.
fn lower_case_of(line: &Vec<char>) -> (low: Vec<char>)
    ensures
        low@ == lower_chars(line@),
{
    let mut low: Vec<char> = Vec::new();
    let mut i: usize = 0;
    while i < line.len()
        invariant
            i <= line.len(),
            low.len() == i,
            forall|j: int| 0 <= j < i ==> low[j] == lower_char(line[j]),
        decreases line.len() - i,
    {
        let c = line[i];
        match first_lowercase(c) {
            Some(l) => low.push(l),
            None => low.push(c),
        }
        i += 1;
    }
    proof {
        assert(low@ == lower_chars(line@));
    }
    low
}

/// Splits a text into its lines.
pub fn lines_of(text: &Vec<char>) -> (lines: Vec<Vec<char>>)
    ensures
        views(lines@) == text_lines(text@),
{
    let mut pieces = split_chars(text, '\n');
    let ghost all = views(pieces@);
    proof {
        assert(all.len() == pieces.len());
        assert(all.len() >= 1);
    }
    let mut lines: Vec<Vec<char>> = Vec::new();
    let last = pieces.len() - 1;
    let mut i: usize = 0;
    while i < last
        invariant
            i <= last == pieces.len() - 1,
            all == views(pieces@),
            lines.len() == i,
            forall|j: int| 0 <= j < i ==> (#[trigger] lines[j])@ == strip_return(all[j]),
        decreases last - i,
    {
        let piece = &pieces[i];
        proof {
            assert(all[i as int] == piece@);
        }
        let end = if piece.len() > 0 && piece[piece.len() - 1] == '\r' {
            piece.len() - 1
        } else {
            piece.len()
        };
        let line = copy_range(piece, 0, end);
        proof {
            assert(piece@.subrange(0, piece.len() as int) == piece@);
            assert(piece@.subrange(0, piece.len() - 1) == piece@.drop_last());
        }
        lines.push(line);
        i += 1;
    }
    proof {
        assert(all[last as int] == pieces[last as int]@);
        assert(views(lines@) == all.drop_last().map_values(|p: Seq<char>| strip_return(p)));
    }
    if pieces[last].len() > 0 {
        let ghost ended = views(lines@);
        let rest = copy_range(&pieces[last], 0, pieces[last].len());
        proof {
            assert(pieces[last as int]@.subrange(0, pieces[last as int].len() as int)
                == pieces[last as int]@);
        }
        lines.push(rest);
        proof {
            assert(views(lines@) == ended.push(all.last()));
        }
    }
    lines
}

/// Puts a program text into lower case, line by line. Quotations and remarks
/// keep their case.
pub fn lower_program(input: &str) -> (output: String)
    ensures
        output@ == lower_text(input@),
{
    let text = chars_of(input);
    let lines = lines_of(&text);
    let ghost all = views(lines@);
    let mut output = String::new();
    let mut i: usize = 0;
    while i < lines.len()
        invariant
            i <= lines.len(),
            all == views(lines@),
            output@ == lower_records(all.take(i as int)),
        decreases lines.len() - i,
    {
        proof {
            assert(all.take(i + 1).drop_last() == all.take(i as int));
            assert(all.take(i + 1).last() == lines[i as int]@);
        }
        let line = trimmed(&lines[i]);
        let low = lower_case_of(&line);
        let record = lower_line(&line, &low);
        push_chars(&mut output, &record, 0, record.len());
        proof {
            assert(record@.subrange(0, record.len() as int) == record@);
        }
        i += 1;
    }
    proof {
        assert(all.take(lines.len() as int) == all);
    }
    output
}

} // verus!
