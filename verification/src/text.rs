use vstd::prelude::*;

verus! {

/// `String::push` appends one character to the end of the string.
pub assume_specification[ String::push ](s: &mut String, c: char)
    ensures
        final(s)@ == old(s)@.push(c),
;

/// The characters of a string, in order.
pub fn chars_of(s: &str) -> (v: Vec<char>)
    ensures
        v@ == s@,
{
    let mut v: Vec<char> = Vec::new();
    for c in it: s.chars()
        invariant
            it.seq() == s@,
            v@ == it.seq().take(it.index()),
    {
        v.push(c);
    }
    v
}

/// Appends the characters `v[from..to]` to a string.
pub fn push_chars(s: &mut String, v: &Vec<char>, from: usize, to: usize)
    requires
        from <= to <= v.len(),
    ensures
        final(s)@ == old(s)@ + v@.subrange(from as int, to as int),
{
    let mut i: usize = from;
    while i < to
        invariant
            from <= i <= to <= v.len(),
            s@ == old(s)@ + v@.subrange(from as int, i as int),
        decreases to - i,
    {
        s.push(v[i]);
        i += 1;
    }
}

/// The string made of the characters of `v`.
pub fn string_of(v: &Vec<char>) -> (s: String)
    ensures
        s@ == v@,
{
    let mut s = String::new();
    push_chars(&mut s, v, 0, v.len());
    assert(v@.subrange(0, v.len() as int) == v@);
    s
}

/// A copy of the characters `v[from..to]`.
pub fn copy_range(v: &Vec<char>, from: usize, to: usize) -> (r: Vec<char>)
    requires
        from <= to <= v.len(),
    ensures
        r@ == v@.subrange(from as int, to as int),
{
    let mut r: Vec<char> = Vec::new();
    let mut i: usize = from;
    while i < to
        invariant
            from <= i <= to <= v.len(),
            r@ == v@.subrange(from as int, i as int),
        decreases to - i,
    {
        r.push(v[i]);
        i += 1;
    }
    r
}

/// Whether `s` begins with `prefix`.
pub open spec fn starts_with(s: Seq<char>, prefix: Seq<char>) -> bool {
    prefix.len() <= s.len() && s.subrange(0, prefix.len() as int) == prefix
}

/// Tests whether the characters of `v` begin with those of `prefix`.
pub fn has_prefix(v: &Vec<char>, prefix: &Vec<char>) -> (b: bool)
    ensures
        b == starts_with(v@, prefix@),
{
    if prefix.len() > v.len() {
        return false;
    }
    let mut i: usize = 0;
    while i < prefix.len()
        invariant
            i <= prefix.len() <= v.len(),
            v@.subrange(0, i as int) == prefix@.subrange(0, i as int),
        decreases prefix.len() - i,
    {
        if v[i] != prefix[i] {
            proof {
                assert(v@.subrange(0, prefix.len() as int)[i as int] != prefix@[i as int]);
            }
            return false;
        }
        proof {
            assert(v@.subrange(0, i + 1) == v@.subrange(0, i as int).push(v@[i as int]));
            assert(prefix@.subrange(0, i + 1) == prefix@.subrange(0, i as int).push(
                prefix@[i as int],
            ));
        }
        i += 1;
    }
    proof {
        assert(prefix@.subrange(0, prefix.len() as int) == prefix@);
    }
    true
}

/// The characters that count as white space: the Unicode property White_Space.
pub open spec fn is_white_space(c: char) -> bool {
    ||| '\u{0009}' <= c <= '\u{000D}'
    ||| c == ' '
    ||| c == '\u{0085}'
    ||| c == '\u{00A0}'
    ||| c == '\u{1680}'
    ||| '\u{2000}' <= c <= '\u{200A}'
    ||| c == '\u{2028}'
    ||| c == '\u{2029}'
    ||| c == '\u{202F}'
    ||| c == '\u{205F}'
    ||| c == '\u{3000}'
}

/// Tests whether `c` is white space.
pub fn char_is_white_space(c: char) -> (b: bool)
    ensures
        b == is_white_space(c),
{
    ('\u{0009}' <= c && c <= '\u{000D}') || c == ' ' || c == '\u{0085}' || c == '\u{00A0}' || c
        == '\u{1680}' || ('\u{2000}' <= c && c <= '\u{200A}') || c == '\u{2028}' || c
        == '\u{2029}' || c == '\u{202F}' || c == '\u{205F}' || c == '\u{3000}'
}

/// `s` without the white space at its two ends.
pub open spec fn trim(s: Seq<char>) -> Seq<char>
    decreases s.len(),
{
    if s.len() > 0 && is_white_space(s.first()) {
        trim(s.drop_first())
    } else if s.len() > 0 && is_white_space(s.last()) {
        trim(s.drop_last())
    } else {
        s
    }
}

/// Finds the part of `v[from..to]` that is left when the white space at its
/// two ends is taken away.
pub fn trim_range(v: &Vec<char>, from: usize, to: usize) -> (r: (usize, usize))
    requires
        from <= to <= v.len(),
    ensures
        from <= r.0 <= r.1 <= to,
        v@.subrange(r.0 as int, r.1 as int) == trim(v@.subrange(from as int, to as int)),
{
    let mut a: usize = from;
    while a < to && char_is_white_space(v[a])
        invariant
            from <= a <= to <= v.len(),
            trim(v@.subrange(a as int, to as int)) == trim(v@.subrange(from as int, to as int)),
        decreases to - a,
    {
        proof {
            assert(v@.subrange(a as int, to as int).drop_first() == v@.subrange(a + 1, to as int));
        }
        a += 1;
    }
    let mut b: usize = to;
    while a < b && char_is_white_space(v[b - 1])
        invariant
            a <= b <= to <= v.len(),
            a < to ==> !is_white_space(v@[a as int]),
            trim(v@.subrange(a as int, b as int)) == trim(v@.subrange(from as int, to as int)),
        decreases b - a,
    {
        proof {
            assert(v@.subrange(a as int, b as int).drop_last() == v@.subrange(a as int, b - 1));
        }
        b -= 1;
    }
    (a, b)
}

/// The characters of `s` without the white space at its two ends.
pub fn trimmed(s: &Vec<char>) -> (r: Vec<char>)
    ensures
        r@ == trim(s@),
{
    let (a, b) = trim_range(s, 0, s.len());
    proof {
        assert(s@.subrange(0, s.len() as int) == s@);
    }
    copy_range(s, a, b)
}

/// The place of the first `sep` in `s`, or the length of `s` if it holds none.
pub open spec fn first_index(s: Seq<char>, sep: char) -> int
    decreases s.len(),
{
    if s.len() == 0 || s.first() == sep {
        0
    } else {
        1 + first_index(s.drop_first(), sep)
    }
}

/// `first_index` is a place within `s` or its length, no `sep` stands before
/// it, and `sep` stands at it unless it is the length.
pub proof fn lemma_first_index(s: Seq<char>, sep: char)
    ensures
        0 <= first_index(s, sep) <= s.len(),
        forall|j: int| 0 <= j < first_index(s, sep) ==> s[j] != sep,
        first_index(s, sep) < s.len() ==> s[first_index(s, sep)] == sep,
    decreases s.len(),
{
    if s.len() == 0 || s.first() == sep {
    } else {
        lemma_first_index(s.drop_first(), sep);
        assert forall|j: int| 0 <= j < first_index(s, sep) implies s[j] != sep by {
            if j > 0 {
                assert(s[j] == s.drop_first()[j - 1]);
            }
        }
    }
}

/// Finds the first `sep` in `v[from..to]`; the result is `to` if there is none.
pub fn find_char(v: &Vec<char>, from: usize, to: usize, sep: char) -> (i: usize)
    requires
        from <= to <= v.len(),
    ensures
        from <= i <= to,
        i - from == first_index(v@.subrange(from as int, to as int), sep),
{
    let mut i: usize = from;
    while i < to && v[i] != sep
        invariant
            from <= i <= to <= v.len(),
            first_index(v@.subrange(from as int, to as int), sep) == (i - from) + first_index(
                v@.subrange(i as int, to as int),
                sep,
            ),
        decreases to - i,
    {
        proof {
            assert(v@.subrange(i as int, to as int).drop_first() == v@.subrange(i + 1, to as int));
        }
        i += 1;
    }
    i
}

/// The pieces of `s` between the occurrences of `sep`. There is always at
/// least one piece, and a piece may be empty.
pub open spec fn split(s: Seq<char>, sep: char) -> Seq<Seq<char>>
    decreases s.len(),
{
    let i = first_index(s, sep);
    if 0 <= i < s.len() {
        seq![s.subrange(0, i)] + split(s.subrange(i + 1, s.len() as int), sep)
    } else {
        seq![s]
    }
}

/// The views of the strings of characters in `pieces`.
pub open spec fn views(pieces: Seq<Vec<char>>) -> Seq<Seq<char>> {
    pieces.map_values(|p: Vec<char>| p@)
}

/// The texts of a sequence of strings.
pub open spec fn texts(strings: Seq<String>) -> Seq<Seq<char>> {
    strings.map_values(|s: String| s@)
}

/// Splits `v` at every `sep`.
pub fn split_chars(v: &Vec<char>, sep: char) -> (pieces: Vec<Vec<char>>)
    ensures
        views(pieces@) == split(v@, sep),
{
    let mut pieces: Vec<Vec<char>> = Vec::new();
    let mut start: usize = 0;
    proof {
        assert(v@.subrange(0, v.len() as int) == v@);
        assert(views(pieces@) == Seq::<Seq<char>>::empty());
    }
    loop
        invariant_except_break
            start <= v.len(),
            split(v@, sep) == views(pieces@) + split(v@.subrange(start as int, v.len() as int), sep),
        ensures
            views(pieces@) == split(v@, sep),
        decreases v.len() - start,
    {
        let ghost rest = v@.subrange(start as int, v.len() as int);
        let ghost done = views(pieces@);
        let i = find_char(v, start, v.len(), sep);
        let piece = copy_range(v, start, i);
        proof {
            lemma_first_index(rest, sep);
            assert(rest.subrange(0, i - start) == piece@);
        }
        pieces.push(piece);
        proof {
            assert(views(pieces@) == done.push(piece@));
        }
        if i == v.len() {
            proof {
                assert(rest.subrange(0, i - start) == rest);
                assert(done + seq![rest] == done.push(rest));
            }
            break ;
        }
        proof {
            assert(rest.subrange(i - start + 1, rest.len() as int) == v@.subrange(
                i + 1,
                v.len() as int,
            ));
            assert(done + (seq![piece@] + split(v@.subrange(i + 1, v.len() as int), sep))
                == done.push(piece@) + split(v@.subrange(i + 1, v.len() as int), sep));
        }
        start = i + 1;
    }
    pieces
}

/// The value of `c` as a digit of the given radix: `0` to `9`, then the
/// letters in either case.
pub open spec fn digit_value(c: char, radix: nat) -> Option<nat> {
    let v = if '0' <= c <= '9' {
        (c as int) - ('0' as int)
    } else if 'a' <= c <= 'z' {
        (c as int) - ('a' as int) + 10
    } else if 'A' <= c <= 'Z' {
        (c as int) - ('A' as int) + 10
    } else {
        radix as int
    };
    if v < radix {
        Some(v as nat)
    } else {
        None
    }
}

/// The number that a run of digits writes in the given radix, if every
/// character is a digit of that radix. The empty run writes zero.
pub open spec fn digits_value(s: Seq<char>, radix: nat) -> Option<nat>
    decreases s.len(),
{
    if s.len() == 0 {
        Some(0nat)
    } else {
        match (digits_value(s.drop_last(), radix), digit_value(s.last(), radix)) {
            (Some(v), Some(d)) => Some(v * radix + d),
            _ => None,
        }
    }
}

/// The number written by `s`: an optional `+` and then at least one digit,
/// nothing before, between or after, and a value of at most `max`.
pub open spec fn parse_number(s: Seq<char>, radix: nat, max: nat) -> Option<nat> {
    let digits = if s.len() > 0 && s.first() == '+' {
        s.drop_first()
    } else {
        s
    };
    if digits.len() == 0 {
        None
    } else {
        bounded_value(digits, radix, max)
    }
}

/// The 16-bit number written in decimal by `s`.
pub open spec fn parse_u16(s: Seq<char>) -> Option<u16> {
    match parse_number(s, 10, 0xFFFF) {
        Some(v) => Some(v as u16),
        None => None,
    }
}

/// The byte written in hexadecimal by `s`.
pub open spec fn parse_hex_u8(s: Seq<char>) -> Option<u8> {
    match parse_number(s, 16, 0xFF) {
        Some(v) => Some(v as u8),
        None => None,
    }
}

/// Finds the value of one digit.
pub fn digit_of(c: char, radix: u32) -> (d: Option<u32>)
    requires
        2 <= radix <= 36,
    ensures
        d matches Some(v) ==> digit_value(c, radix as nat) == Some(v as nat) && v < radix,
        d is None ==> digit_value(c, radix as nat) is None,
{
    let v: u32 = if '0' <= c && c <= '9' {
        c as u32 - '0' as u32
    } else if 'a' <= c && c <= 'z' {
        c as u32 - 'a' as u32 + 10
    } else if 'A' <= c && c <= 'Z' {
        c as u32 - 'A' as u32 + 10
    } else {
        return None;
    };
    if v < radix {
        Some(v)
    } else {
        None
    }
}

/// The value of a run of digits, if it is a number of at most `max`.
pub open spec fn bounded_value(digits: Seq<char>, radix: nat, max: nat) -> Option<nat> {
    match digits_value(digits, radix) {
        Some(v) => if v <= max {
            Some(v)
        } else {
            None
        },
        None => None,
    }
}

/// Reads the run of digits `v[from..to]`.
pub fn read_digits(v: &Vec<char>, from: usize, to: usize, radix: u32, max: u32) -> (r: Option<u32>)
    requires
        from <= to <= v.len(),
        2 <= radix <= 36,
        max <= 0xFFFF,
    ensures
        r matches Some(n) ==> bounded_value(
            v@.subrange(from as int, to as int),
            radix as nat,
            max as nat,
        ) == Some(n as nat),
        r is None ==> bounded_value(v@.subrange(from as int, to as int), radix as nat, max as nat)
            is None,
{
    let ghost digits = v@.subrange(from as int, to as int);
    let mut acc: u32 = 0;
    let mut over = false;
    let mut i: usize = from;
    while i < to
        invariant
            from <= i <= to <= v.len(),
            2 <= radix <= 36,
            max <= 0xFFFF,
            acc <= max,
            digits == v@.subrange(from as int, to as int),
            digits_value(digits.subrange(0, i - from), radix as nat) matches Some(n) && if over {
                n > max
            } else {
                n == acc
            },
        decreases to - i,
    {
        let ghost head = digits.subrange(0, i - from);
        let ghost n = digits_value(head, radix as nat).unwrap();
        proof {
            assert(digits.subrange(0, i + 1 - from).drop_last() == head);
            assert(digits.subrange(0, i + 1 - from).last() == v@[i as int]);
        }
        match digit_of(v[i], radix) {
            None => {
                proof {
                    assert(digits_value(digits.subrange(0, i + 1 - from), radix as nat) is None);
                    lemma_digits_value_prefix(digits, i + 1 - from, radix as nat);
                }
                return None;
            },
            Some(d) => {
                if !over {
                    assert(acc * radix + d <= 0xFFFF * 36 + 36) by (nonlinear_arith)
                        requires
                            acc <= 0xFFFF,
                            radix <= 36,
                            d < 36,
                    ;
                    let next = acc * radix + d;
                    if next > max {
                        over = true;
                    } else {
                        acc = next;
                    }
                } else {
                    assert(n * radix + d > max) by (nonlinear_arith)
                        requires
                            n > max,
                            radix >= 2,
                            d >= 0,
                    ;
                }
            },
        }
        i += 1;
    }
    proof {
        assert(digits.subrange(0, to - from) == digits);
    }
    if over {
        None
    } else {
        Some(acc)
    }
}

/// Reads the number written by `v[from..to]`.
pub fn read_number(v: &Vec<char>, from: usize, to: usize, radix: u32, max: u32) -> (r: Option<u32>)
    requires
        from <= to <= v.len(),
        2 <= radix <= 36,
        max <= 0xFFFF,
    ensures
        r matches Some(n) ==> parse_number(v@.subrange(from as int, to as int), radix as nat, max as nat)
            == Some(n as nat),
        r is None ==> parse_number(v@.subrange(from as int, to as int), radix as nat, max as nat)
            is None,
{
    let ghost s = v@.subrange(from as int, to as int);
    let start: usize = if from < to && v[from] == '+' {
        from + 1
    } else {
        from
    };
    proof {
        if from < to && v[from as int] == '+' {
            assert(s.drop_first() == v@.subrange(start as int, to as int));
        }
    }
    if start == to {
        None
    } else {
        read_digits(v, start, to, radix, max)
    }
}

/// A run of digits whose beginning is no number is no number either.
pub proof fn lemma_digits_value_prefix(s: Seq<char>, k: int, radix: nat)
    requires
        0 <= k <= s.len(),
        digits_value(s.subrange(0, k), radix) is None,
    ensures
        digits_value(s, radix) is None,
    decreases s.len() - k,
{
    if k < s.len() {
        assert(s.subrange(0, k + 1).drop_last() == s.subrange(0, k));
        lemma_digits_value_prefix(s, k + 1, radix);
    } else {
        assert(s.subrange(0, k) == s);
    }
}

/// Reads a 16-bit number written in decimal.
pub fn read_u16(v: &Vec<char>, from: usize, to: usize) -> (r: Option<u16>)
    requires
        from <= to <= v.len(),
    ensures
        r == parse_u16(v@.subrange(from as int, to as int)),
{
    match read_number(v, from, to, 10, 0xFFFF) {
        Some(n) => Some(n as u16),
        None => None,
    }
}

/// Reads a byte written in hexadecimal.
pub fn read_hex_u8(v: &Vec<char>, from: usize, to: usize) -> (r: Option<u8>)
    requires
        from <= to <= v.len(),
    ensures
        r == parse_hex_u8(v@.subrange(from as int, to as int)),
{
    match read_number(v, from, to, 16, 0xFF) {
        Some(n) => Some(n as u8),
        None => None,
    }
}

/// The character of a digit below sixteen, in upper case.
pub open spec fn digit_char(d: nat) -> char {
    if d < 10 {
        ('0' as nat + d) as char
    } else {
        ('A' as nat + d - 10) as char
    }
}

/// The decimal numeral of `n`, without leading zeros.
pub open spec fn decimal(n: nat) -> Seq<char>
    decreases n,
{
    if n < 10 {
        seq![digit_char(n)]
    } else {
        decimal(n / 10).push(digit_char(n % 10))
    }
}

/// Finds the character of a digit.
pub fn digit_char_of(d: u8) -> (c: char)
    requires
        d < 16,
    ensures
        c == digit_char(d as nat),
{
    if d < 10 {
        ('0' as u8 + d) as char
    } else {
        ('A' as u8 + (d - 10)) as char
    }
}

/// Appends the decimal numeral of `n` to `out`.
pub fn push_decimal(out: &mut Vec<char>, n: u16)
    ensures
        final(out)@ == old(out)@ + decimal(n as nat),
    decreases n,
{
    if n >= 10 {
        push_decimal(out, n / 10);
    }
    out.push(digit_char_of((n % 10) as u8));
    proof {
        if n >= 10 {
            assert(out@ == old(out)@ + decimal(n as nat / 10).push(digit_char(n as nat % 10)));
        } else {
            assert(out@ == old(out)@ + seq![digit_char(n as nat)]);
        }
    }
}

/// What is left after trimming is a part of the text, and it neither begins
/// nor ends with white space.
pub proof fn lemma_trim(s: Seq<char>)
    ensures
        exists|a: int, b: int| 0 <= a <= b <= s.len() && trim(s) == s.subrange(a, b),
        trim(s).len() > 0 ==> !is_white_space(trim(s).first()) && !is_white_space(trim(s).last()),
    decreases s.len(),
{
    if s.len() > 0 && is_white_space(s.first()) {
        lemma_trim(s.drop_first());
        let (a, b) = choose|a: int, b: int|
            0 <= a <= b <= s.drop_first().len() && trim(s.drop_first()) == s.drop_first().subrange(
                a,
                b,
            );
        assert(s.drop_first().subrange(a, b) == s.subrange(a + 1, b + 1));
    } else if s.len() > 0 && is_white_space(s.last()) {
        lemma_trim(s.drop_last());
        let (a, b) = choose|a: int, b: int|
            0 <= a <= b <= s.drop_last().len() && trim(s.drop_last()) == s.drop_last().subrange(
                a,
                b,
            );
        assert(s.drop_last().subrange(a, b) == s.subrange(a, b));
    } else {
        assert(s == s.subrange(0, s.len() as int));
    }
}

/// Splitting gives at least one piece, and no piece holds the separator.
pub proof fn lemma_split(s: Seq<char>, sep: char)
    ensures
        split(s, sep).len() >= 1,
        forall|i: int, j: int|
            0 <= i < split(s, sep).len() && 0 <= j < split(s, sep)[i].len() ==> split(
                s,
                sep,
            )[i][j] != sep,
    decreases s.len(),
{
    let at = first_index(s, sep);
    lemma_first_index(s, sep);
    if 0 <= at < s.len() {
        let rest = s.subrange(at + 1, s.len() as int);
        lemma_split(rest, sep);
        assert forall|i: int, j: int|
            0 <= i < split(s, sep).len() && 0 <= j < split(s, sep)[i].len() implies split(
            s,
            sep,
        )[i][j] != sep by {
            if i > 0 {
                assert(split(s, sep)[i] == split(rest, sep)[i - 1]);
            }
        }
    }
}

/// A text without the separator before the first separator: that is where
/// the first separator is found.
pub proof fn lemma_first_index_after(head: Seq<char>, tail: Seq<char>, sep: char)
    requires
        forall|i: int| 0 <= i < head.len() ==> head[i] != sep,
    ensures
        first_index(head + seq![sep] + tail, sep) == head.len(),
    decreases head.len(),
{
    let whole = head + seq![sep] + tail;
    if head.len() > 0 {
        assert(whole.first() == head[0]);
        assert(whole.drop_first() == head.drop_first() + seq![sep] + tail);
        assert forall|i: int| 0 <= i < head.drop_first().len() implies head.drop_first()[i]
            != sep by {
            assert(head.drop_first()[i] == head[i + 1]);
        }
        lemma_first_index_after(head.drop_first(), tail, sep);
    } else {
        assert(whole.first() == sep);
    }
}

/// A decimal numeral is made of decimal digits, and read as a number it gives
/// the number it was written for.
pub proof fn lemma_decimal(n: nat)
    ensures
        decimal(n).len() >= 1,
        forall|i: int| 0 <= i < decimal(n).len() ==> '0' <= #[trigger] decimal(n)[i] <= '9',
        digits_value(decimal(n), 10) == Some(n),
    decreases n,
{
    if n < 10 {
        assert(decimal(n).drop_last() == Seq::<char>::empty());
        assert(digits_value(Seq::<char>::empty(), 10) == Some(0nat));
    } else {
        lemma_decimal(n / 10);
        assert(decimal(n).drop_last() == decimal(n / 10));
        assert forall|i: int| 0 <= i < decimal(n).len() implies '0' <= #[trigger] decimal(n)[i]
            <= '9' by {
            if i < decimal(n / 10).len() {
                assert(decimal(n)[i] == decimal(n / 10)[i]);
            }
        }
    }
}

/// The decimal numeral of a 16-bit number is read back as that number.
pub proof fn lemma_decimal_reads_back(n: u16)
    ensures
        parse_u16(decimal(n as nat)) == Some(n),
{
    lemma_decimal(n as nat);
    assert('0' <= decimal(n as nat)[0] <= '9');
}

} // verus!
