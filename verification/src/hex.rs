use vstd::prelude::*;
use crate::text::{
    chars_of, digit_char, digit_char_of, parse_hex_u8, read_hex_u8, split, split_chars, views,
};

verus! {

/// How one byte is shown in a dump: two hexadecimal digits in upper case and
/// a blank.
pub open spec fn hex_pair(b: u8) -> Seq<char> {
    seq![digit_char(b as nat / 16), digit_char(b as nat % 16), ' ']
}

/// The dump of `bytes`: the pairs of its bytes, in order.
pub open spec fn hex_dump(bytes: Seq<u8>) -> Seq<char>
    decreases bytes.len(),
{
    if bytes.len() == 0 {
        Seq::empty()
    } else {
        hex_dump(bytes.drop_last()) + hex_pair(bytes.last())
    }
}

/// Shows bytes as hexadecimal digits.
pub fn dump_hex(uv: Vec<u8>) -> (cv: String)
    ensures
        cv@ == hex_dump(uv@),
{
    let mut cv = String::new();
    let mut i: usize = 0;
    while i < uv.len()
        invariant
            i <= uv.len(),
            cv@ == hex_dump(uv@.take(i as int)),
        decreases uv.len() - i,
    {
        let u = uv[i];
        let ghost before = cv@;
        cv.push(digit_char_of(u / 16));
        cv.push(digit_char_of(u % 16));
        cv.push(' ');
        proof {
            assert(uv@.take(i + 1).drop_last() == uv@.take(i as int));
            assert(cv@ == before + hex_pair(u));
        }
        i += 1;
    }
    proof {
        assert(uv@.take(uv.len() as int) == uv@);
    }
    cv
}

/// The bytes written by those of `tokens` that are hexadecimal numbers of at
/// most two significant digits; the other tokens are passed over.
pub open spec fn hex_values(tokens: Seq<Seq<char>>) -> Seq<u8>
    decreases tokens.len(),
{
    if tokens.len() == 0 {
        Seq::empty()
    } else {
        hex_values(tokens.drop_last()) + match parse_hex_u8(tokens.last()) {
            Some(b) => seq![b],
            None => Seq::empty(),
        }
    }
}

/// The bytes that a line of blank-separated hexadecimal numbers writes. The
/// first token is the name of the command and is not read.
pub open spec fn hex_bytes(line: Seq<char>) -> Seq<u8> {
    hex_values(split(line, ' ').drop_first())
}

/// Reads the bytes of a command that sends raw bytes.
pub fn hex2u8(hex: &str) -> (hex_vec: Vec<u8>)
    ensures
        hex_vec@ == hex_bytes(hex@),
{
    let line = chars_of(hex);
    let tokens = split_chars(&line, ' ');
    let mut hex_vec: Vec<u8> = Vec::new();
    let ghost all = views(tokens@);
    assert(all.len() >= 1);
    let mut i: usize = 1;
    while i < tokens.len()
        invariant
            1 <= i <= tokens.len(),
            all == views(tokens@),
            hex_vec@ == hex_values(all.subrange(1, i as int)),
        decreases tokens.len() - i,
    {
        let token = &tokens[i];
        let ghost before = hex_vec@;
        proof {
            assert(all.subrange(1, i + 1).drop_last() == all.subrange(1, i as int));
            assert(all.subrange(1, i + 1).last() == token@);
            assert(token@.subrange(0, token.len() as int) == token@);
        }
        match read_hex_u8(token, 0, token.len()) {
            Some(val) => {
                hex_vec.push(val);
                assert(hex_vec@ == before + seq![val]);
            },
            None => {
                assert(hex_vec@ == before + Seq::<u8>::empty());
            },
        }
        i += 1;
    }
    proof {
        assert(all.subrange(1, tokens.len() as int) == all.drop_first());
    }
    hex_vec
}

} // verus!
