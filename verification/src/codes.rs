use vstd::prelude::*;

verus! {

/// The device bytes that stand for one character: a single byte, or a base
/// byte followed by the byte of its voiced or semi-voiced mark.
#[derive(Clone, Copy, Debug, PartialEq, Eq, Structural)]
pub enum Codes {
    One(u8),
    Two(u8, u8),
}

impl Codes {
    /// The bytes in the order in which they are sent.
    pub open spec fn bytes(self) -> Seq<u8> {
        match self {
            Codes::One(a) => seq![a],
            Codes::Two(a, b) => seq![a, b],
        }
    }

    /// Appends the bytes to `out`.
    pub fn append_to(self, out: &mut Vec<u8>)
        ensures
            final(out)@ == old(out)@ + self.bytes(),
    {
        match self {
            Codes::One(a) => {
                out.push(a);
                assert(out@ == old(out)@ + seq![a]);
            },
            Codes::Two(a, b) => {
                out.push(a);
                out.push(b);
                assert(out@ == old(out)@ + seq![a, b]);
            },
        }
    }
}

/// Whether `c` is an ASCII character.
pub open spec fn is_ascii_char(c: char) -> bool {
    c <= '\u{7F}'
}

/// Tests whether `c` is an ASCII character.
pub fn char_is_ascii(c: char) -> (b: bool)
    ensures
        b == is_ascii_char(c),
{
    c <= '\u{7F}'
}

/// How often the byte `b` occurs in `s`.
pub open spec fn count_byte(s: Seq<u8>, b: u8) -> nat
    decreases s.len(),
{
    if s.len() == 0 {
        0
    } else {
        count_byte(s.drop_last(), b) + if s.last() == b {
            1nat
        } else {
            0nat
        }
    }
}

/// Occurrences add up over a concatenation.
pub proof fn lemma_count_byte_concat(s: Seq<u8>, t: Seq<u8>, b: u8)
    ensures
        count_byte(s + t, b) == count_byte(s, b) + count_byte(t, b),
    decreases t.len(),
{
    if t.len() == 0 {
        assert(s + t == s);
    } else {
        assert((s + t).drop_last() == s + t.drop_last());
        lemma_count_byte_concat(s, t.drop_last(), b);
    }
}

} // verus!
