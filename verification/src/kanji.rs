use encoding_rs::SHIFT_JIS;
use vstd::prelude::*;

verus! {

/// The text that a sequence of bytes stands for in Shift_JIS.
pub uninterp spec fn shift_jis_text(bytes: Seq<u8>) -> Seq<char>;

/// The Shift_JIS bytes that stand for a text.
pub uninterp spec fn shift_jis_bytes(text: Seq<char>) -> Seq<u8>;

/// The greatest number of bytes that is decoded in one piece, and the
/// greatest number of characters that is encoded in one piece. Below it the
/// sizes of the buffers involved stay within `usize` on every machine.
pub const KANJI_LIMIT: usize = 0x400_0000;

/// `Encoding::decode` of `encoding_rs`, on `SHIFT_JIS`: the whole input is
/// decoded, a byte order mark at its start selects another encoding and is
/// left out, and each malformed sequence gives the replacement character.
/// The text depends on the bytes alone. The call computes buffer sizes of up
/// to three times the input and fails where they overflow, which the limit
/// rules out.
#[verifier::external_body]
fn decode_shift_jis(bytes: &Vec<u8>) -> (text: String)
    requires
        bytes.len() <= KANJI_LIMIT,
    ensures
        text@ == shift_jis_text(bytes@),
{
    let (text, _, _) = SHIFT_JIS.decode(bytes);
    text.into_owned()
}

/// `Encoding::encode` of `encoding_rs`, on `SHIFT_JIS`: the whole text is
/// encoded, and each character that Shift_JIS lacks gives a decimal numeric
/// character reference. The bytes depend on the text alone. The call
/// computes buffer sizes from the length of the input and fails where they
/// overflow, which the limit rules out.
#[verifier::external_body]
fn encode_shift_jis(text: &str) -> (bytes: Vec<u8>)
    requires
        text@.len() <= KANJI_LIMIT,
    ensures
        bytes@ == shift_jis_bytes(text@),
{
    let (bytes, _, _) = SHIFT_JIS.encode(text);
    bytes.into_owned()
}

/// Decodes kanji text received from the device, which sends it in Shift_JIS.
pub fn msx_kanji_to_string(uv: Vec<u8>) -> (text: String)
    requires
        uv.len() <= KANJI_LIMIT,
    ensures
        text@ == shift_jis_text(uv@),
{
    decode_shift_jis(&uv)
}

/// Encodes kanji text for the device in Shift_JIS.
pub fn utf8_to_msx_kanji(input: &str) -> (bytes: Vec<u8>)
    requires
        input@.len() <= KANJI_LIMIT,
    ensures
        bytes@ == shift_jis_bytes(input@),
{
    encode_shift_jis(input)
}

} // verus!
