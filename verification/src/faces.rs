use vstd::prelude::*;
use crate::codes::{char_is_ascii, count_byte, is_ascii_char, lemma_count_byte_concat, Codes};
use crate::codes::Codes::{One, Two};
use crate::faces::FacesCode::{Ascii, Hiragana, Katakana};

verus! {

/// The marker byte of the kana key. It opens kana mode and closes it again.
pub const U_KANA: u8 = 0xF3;

/// The marker byte of the caps key. In kana mode it selects katakana.
pub const U_CAPS: u8 = 0xF2;

/// How a character is typed on the device's keyboard.
#[derive(Clone, Copy, Debug, PartialEq, Eq, Structural)]
pub enum FacesCode {
    /// A key of the plain layout.
    Ascii(u8),
    /// Keys of the kana layout, without caps.
    Hiragana(Codes),
    /// Keys of the kana layout, with caps.
    Katakana(Codes),
}

/// The characters that have keys of their own. Several characters may share
/// a key: small and large kana do, and kana the keyboard lacks borrow the key
/// of one that looks alike.
pub open spec fn faces_table(c: char) -> Option<FacesCode> {
    match c {
        // keys that cannot be typed: a blank takes their place
        '!' => Some(Ascii(0x20)),
        '%' => Some(Ascii(0x20)),
        '?' => Some(Ascii(0x20)),
        '`' => Some(Ascii(0x20)),
        '{' => Some(Ascii(0x20)),
        '|' => Some(Ascii(0x20)),
        '}' => Some(Ascii(0x20)),
        '~' => Some(Ascii(0x20)),
        // ASCII characters that sit on another key
        '@' => Some(Ascii(0xC0)),
        '[' => Some(Ascii(0xDB)),
        ']' => Some(Ascii(0xDD)),
        '^' => Some(Ascii(0xDE)),
        // hiragana
        'ぁ' => Some(Hiragana(One(0x23))),
        'ぃ' => Some(Hiragana(One(0x45))),
        'ぅ' => Some(Hiragana(One(0x24))),
        'ぇ' => Some(Hiragana(One(0x35))),
        'ぉ' => Some(Hiragana(One(0x26))),
        'ゃ' => Some(Hiragana(One(0x27))),
        'ゅ' => Some(Hiragana(One(0x28))),
        'ょ' => Some(Hiragana(One(0x29))),
        'っ' => Some(Hiragana(One(0x5A))),
        'あ' => Some(Hiragana(One(0x33))),
        'い' => Some(Hiragana(One(0x65))),
        'う' => Some(Hiragana(One(0x34))),
        'え' => Some(Hiragana(One(0x35))),
        'お' => Some(Hiragana(One(0x36))),
        'か' => Some(Hiragana(One(0x54))),
        'き' => Some(Hiragana(One(0x47))),
        'く' => Some(Hiragana(One(0x48))),
        'け' => Some(Hiragana(One(0x2A))),
        'こ' => Some(Hiragana(One(0x42))),
        'さ' => Some(Hiragana(One(0x58))),
        'し' => Some(Hiragana(One(0x44))),
        'す' => Some(Hiragana(One(0x52))),
        'せ' => Some(Hiragana(One(0x50))),
        'そ' => Some(Hiragana(One(0x43))),
        'た' => Some(Hiragana(One(0x51))),
        'ち' => Some(Hiragana(One(0x41))),
        'つ' => Some(Hiragana(One(0x7A))),
        'て' => Some(Hiragana(One(0x57))),
        'と' => Some(Hiragana(One(0x53))),
        'な' => Some(Hiragana(One(0x55))),
        'に' => Some(Hiragana(One(0x49))),
        'ぬ' => Some(Hiragana(One(0x31))),
        'ね' => Some(Hiragana(One(0x3B))),
        'の' => Some(Hiragana(One(0x4B))),
        'は' => Some(Hiragana(One(0x46))),
        'ひ' => Some(Hiragana(One(0x56))),
        'ふ' => Some(Hiragana(One(0x32))),
        'へ' => Some(Hiragana(One(0xDE))),
        'ほ' => Some(Hiragana(One(0x2D))),
        'ま' => Some(Hiragana(One(0x4A))),
        'み' => Some(Hiragana(One(0x4E))),
        'む' => Some(Hiragana(One(0xDD))),
        'め' => Some(Hiragana(One(0x2F))),
        'も' => Some(Hiragana(One(0x4D))),
        'や' => Some(Hiragana(One(0x37))),
        'ゆ' => Some(Hiragana(One(0x38))),
        'よ' => Some(Hiragana(One(0x39))),
        'ら' => Some(Hiragana(One(0x4F))),
        'り' => Some(Hiragana(One(0x4C))),
        'る' => Some(Hiragana(One(0x2E))),
        'れ' => Some(Hiragana(One(0x2B))),
        'ろ' => Some(Hiragana(One(0x5F))),
        'わ' => Some(Hiragana(One(0x30))),
        'を' => Some(Hiragana(One(0x36))),
        'ん' => Some(Hiragana(One(0x59))),
        // punctuation typed in kana mode
        '\u{3000}' => Some(Hiragana(One(0x20))),
        '・' => Some(Hiragana(One(0x20))),
        '゛' => Some(Hiragana(One(0xC0))),
        '゜' => Some(Hiragana(One(0xDB))),
        'ー' => Some(Hiragana(One(0x5C))),
        '、' => Some(Hiragana(One(0x3C))),
        '。' => Some(Hiragana(One(0x3E))),
        // hiragana with a voiced or semi-voiced mark
        'が' => Some(Hiragana(Two(0x54, 0xC0))),
        'ぎ' => Some(Hiragana(Two(0x47, 0xC0))),
        'ぐ' => Some(Hiragana(Two(0x48, 0xC0))),
        'げ' => Some(Hiragana(Two(0x2A, 0xC0))),
        'ご' => Some(Hiragana(Two(0x42, 0xC0))),
        'ざ' => Some(Hiragana(Two(0x58, 0xC0))),
        'じ' => Some(Hiragana(Two(0x44, 0xC0))),
        'ず' => Some(Hiragana(Two(0x52, 0xC0))),
        'ぜ' => Some(Hiragana(Two(0x50, 0xC0))),
        'ぞ' => Some(Hiragana(Two(0x43, 0xC0))),
        'だ' => Some(Hiragana(Two(0x51, 0xC0))),
        'ぢ' => Some(Hiragana(Two(0x41, 0xC0))),
        'づ' => Some(Hiragana(Two(0x7A, 0xC0))),
        'で' => Some(Hiragana(Two(0x57, 0xC0))),
        'ど' => Some(Hiragana(Two(0x53, 0xC0))),
        'ば' => Some(Hiragana(Two(0x46, 0xC0))),
        'び' => Some(Hiragana(Two(0x56, 0xC0))),
        'ぶ' => Some(Hiragana(Two(0x32, 0xC0))),
        'べ' => Some(Hiragana(Two(0xDE, 0xC0))),
        'ぼ' => Some(Hiragana(Two(0x2D, 0xC0))),
        'ぱ' => Some(Hiragana(Two(0x46, 0xDB))),
        'ぴ' => Some(Hiragana(Two(0x56, 0xDB))),
        'ぷ' => Some(Hiragana(Two(0x32, 0xDB))),
        'ぺ' => Some(Hiragana(Two(0xDE, 0xDB))),
        'ぽ' => Some(Hiragana(Two(0x2D, 0xDB))),
        // katakana
        'ァ' => Some(Katakana(One(0x23))),
        'ィ' => Some(Katakana(One(0x45))),
        'ゥ' => Some(Katakana(One(0x24))),
        'ェ' => Some(Katakana(One(0x35))),
        'ォ' => Some(Katakana(One(0x26))),
        'ャ' => Some(Katakana(One(0x27))),
        'ュ' => Some(Katakana(One(0x28))),
        'ョ' => Some(Katakana(One(0x29))),
        'ッ' => Some(Katakana(One(0x5A))),
        'ア' => Some(Katakana(One(0x33))),
        'イ' => Some(Katakana(One(0x65))),
        'ウ' => Some(Katakana(One(0x34))),
        'エ' => Some(Katakana(One(0x35))),
        'オ' => Some(Katakana(One(0x36))),
        'カ' => Some(Katakana(One(0x54))),
        'キ' => Some(Katakana(One(0x47))),
        'ク' => Some(Katakana(One(0x48))),
        'ケ' => Some(Katakana(One(0x2A))),
        'コ' => Some(Katakana(One(0x42))),
        'サ' => Some(Katakana(One(0x58))),
        'シ' => Some(Katakana(One(0x44))),
        'ス' => Some(Katakana(One(0x52))),
        'セ' => Some(Katakana(One(0x50))),
        'ソ' => Some(Katakana(One(0x43))),
        'タ' => Some(Katakana(One(0x51))),
        'チ' => Some(Katakana(One(0x41))),
        'ツ' => Some(Katakana(One(0x7A))),
        'テ' => Some(Katakana(One(0x57))),
        'ト' => Some(Katakana(One(0x53))),
        'ナ' => Some(Katakana(One(0x55))),
        'ニ' => Some(Katakana(One(0x49))),
        'ヌ' => Some(Katakana(One(0x31))),
        'ネ' => Some(Katakana(One(0x3B))),
        'ノ' => Some(Katakana(One(0x4B))),
        'ハ' => Some(Katakana(One(0x46))),
        'ヒ' => Some(Katakana(One(0x56))),
        'フ' => Some(Katakana(One(0x32))),
        'ヘ' => Some(Katakana(One(0xDE))),
        'ホ' => Some(Katakana(One(0x2D))),
        'マ' => Some(Katakana(One(0x4A))),
        'ミ' => Some(Katakana(One(0x4E))),
        'ム' => Some(Katakana(One(0xDD))),
        'メ' => Some(Katakana(One(0x2F))),
        'モ' => Some(Katakana(One(0x4D))),
        'ヤ' => Some(Katakana(One(0x37))),
        'ユ' => Some(Katakana(One(0x38))),
        'ヨ' => Some(Katakana(One(0x39))),
        'ラ' => Some(Katakana(One(0x4F))),
        'リ' => Some(Katakana(One(0x4C))),
        'ル' => Some(Katakana(One(0x2E))),
        'レ' => Some(Katakana(One(0x2B))),
        'ロ' => Some(Katakana(One(0x5F))),
        'ワ' => Some(Katakana(One(0x30))),
        'ヲ' => Some(Katakana(One(0x36))),
        'ン' => Some(Katakana(One(0x59))),
        // katakana with a voiced or semi-voiced mark
        'ガ' => Some(Katakana(Two(0x54, 0xC0))),
        'ギ' => Some(Katakana(Two(0x47, 0xC0))),
        'グ' => Some(Katakana(Two(0x48, 0xC0))),
        'ゲ' => Some(Katakana(Two(0x2A, 0xC0))),
        'ゴ' => Some(Katakana(Two(0x42, 0xC0))),
        'ザ' => Some(Katakana(Two(0x58, 0xC0))),
        'ジ' => Some(Katakana(Two(0x44, 0xC0))),
        'ズ' => Some(Katakana(Two(0x52, 0xC0))),
        'ゼ' => Some(Katakana(Two(0x50, 0xC0))),
        'ゾ' => Some(Katakana(Two(0x43, 0xC0))),
        'ダ' => Some(Katakana(Two(0x51, 0xC0))),
        'ヂ' => Some(Katakana(Two(0x41, 0xC0))),
        'ヅ' => Some(Katakana(Two(0x7A, 0xC0))),
        'デ' => Some(Katakana(Two(0x57, 0xC0))),
        'ド' => Some(Katakana(Two(0x53, 0xC0))),
        'バ' => Some(Katakana(Two(0x46, 0xC0))),
        'ビ' => Some(Katakana(Two(0x56, 0xC0))),
        'ブ' => Some(Katakana(Two(0x32, 0xC0))),
        'ベ' => Some(Katakana(Two(0xDE, 0xC0))),
        'ボ' => Some(Katakana(Two(0x2D, 0xC0))),
        'パ' => Some(Katakana(Two(0x46, 0xDB))),
        'ピ' => Some(Katakana(Two(0x56, 0xDB))),
        'プ' => Some(Katakana(Two(0x32, 0xDB))),
        'ペ' => Some(Katakana(Two(0xDE, 0xDB))),
        'ポ' => Some(Katakana(Two(0x2D, 0xDB))),
        _ => None,
    }
}

/// The keys for `c`: its entry in the table, else its own code if it is an
/// ASCII character. Every other character cannot be typed.
pub open spec fn faces_code(c: char) -> Option<FacesCode> {
    match faces_table(c) {
        Some(code) => Some(code),
        None => if is_ascii_char(c) {
            Some(Ascii(c as u8))
        } else {
            None
        },
    }
}

/// The keyboard while a text is typed: the bytes sent so far and the two
/// modes that they leave switched on.
pub struct Keyboard {
    pub sent: Seq<u8>,
    pub kana: bool,
    pub caps: bool,
}

/// The markers for a change of mode: the kana marker first, then the caps
/// marker, each only if its mode changes.
pub open spec fn markers(kana: bool, caps: bool) -> Seq<u8> {
    (if kana {
        seq![U_KANA]
    } else {
        Seq::<u8>::empty()
    }) + (if caps {
        seq![U_CAPS]
    } else {
        Seq::<u8>::empty()
    })
}

/// The keyboard before anything is typed.
pub open spec fn idle() -> Keyboard {
    Keyboard { sent: Seq::empty(), kana: false, caps: false }
}

/// Types one character. The keyboard first changes to the modes that the
/// character needs (none for a plain key, kana for hiragana, kana and caps for
/// katakana) and then sends the character's keys. A character without keys
/// changes nothing.
pub open spec fn press(k: Keyboard, c: char) -> Keyboard {
    match faces_code(c) {
        None => k,
        Some(Ascii(code)) => Keyboard {
            sent: k.sent + markers(k.kana, k.caps) + seq![code],
            kana: false,
            caps: false,
        },
        Some(Hiragana(codes)) => Keyboard {
            sent: k.sent + markers(!k.kana, k.caps) + codes.bytes(),
            kana: true,
            caps: false,
        },
        Some(Katakana(codes)) => Keyboard {
            sent: k.sent + markers(!k.kana, !k.caps) + codes.bytes(),
            kana: true,
            caps: true,
        },
    }
}

/// The keyboard after `text` was typed, one character after the other.
pub open spec fn typed(text: Seq<char>) -> Keyboard
    decreases text.len(),
{
    if text.len() == 0 {
        idle()
    } else {
        press(typed(text.drop_last()), text.last())
    }
}

/// The bytes that typing `text` sends: the keys of its characters, and at the
/// end the markers that switch off the modes still on.
pub open spec fn faces_encode(text: Seq<char>) -> Seq<u8> {
    let k = typed(text);
    k.sent + markers(k.kana, k.caps)
}

/// Looks a character up in the table of keys.
pub fn faces_lookup(c: char) -> (code: Option<FacesCode>)
    ensures
        code == faces_table(c),
{
    match c {
        // keys that cannot be typed: a blank takes their place
        '!' => Some(Ascii(0x20)),
        '%' => Some(Ascii(0x20)),
        '?' => Some(Ascii(0x20)),
        '`' => Some(Ascii(0x20)),
        '{' => Some(Ascii(0x20)),
        '|' => Some(Ascii(0x20)),
        '}' => Some(Ascii(0x20)),
        '~' => Some(Ascii(0x20)),
        // ASCII characters that sit on another key
        '@' => Some(Ascii(0xC0)),
        '[' => Some(Ascii(0xDB)),
        ']' => Some(Ascii(0xDD)),
        '^' => Some(Ascii(0xDE)),
        // hiragana
        'ぁ' => Some(Hiragana(One(0x23))),
        'ぃ' => Some(Hiragana(One(0x45))),
        'ぅ' => Some(Hiragana(One(0x24))),
        'ぇ' => Some(Hiragana(One(0x35))),
        'ぉ' => Some(Hiragana(One(0x26))),
        'ゃ' => Some(Hiragana(One(0x27))),
        'ゅ' => Some(Hiragana(One(0x28))),
        'ょ' => Some(Hiragana(One(0x29))),
        'っ' => Some(Hiragana(One(0x5A))),
        'あ' => Some(Hiragana(One(0x33))),
        'い' => Some(Hiragana(One(0x65))),
        'う' => Some(Hiragana(One(0x34))),
        'え' => Some(Hiragana(One(0x35))),
        'お' => Some(Hiragana(One(0x36))),
        'か' => Some(Hiragana(One(0x54))),
        'き' => Some(Hiragana(One(0x47))),
        'く' => Some(Hiragana(One(0x48))),
        'け' => Some(Hiragana(One(0x2A))),
        'こ' => Some(Hiragana(One(0x42))),
        'さ' => Some(Hiragana(One(0x58))),
        'し' => Some(Hiragana(One(0x44))),
        'す' => Some(Hiragana(One(0x52))),
        'せ' => Some(Hiragana(One(0x50))),
        'そ' => Some(Hiragana(One(0x43))),
        'た' => Some(Hiragana(One(0x51))),
        'ち' => Some(Hiragana(One(0x41))),
        'つ' => Some(Hiragana(One(0x7A))),
        'て' => Some(Hiragana(One(0x57))),
        'と' => Some(Hiragana(One(0x53))),
        'な' => Some(Hiragana(One(0x55))),
        'に' => Some(Hiragana(One(0x49))),
        'ぬ' => Some(Hiragana(One(0x31))),
        'ね' => Some(Hiragana(One(0x3B))),
        'の' => Some(Hiragana(One(0x4B))),
        'は' => Some(Hiragana(One(0x46))),
        'ひ' => Some(Hiragana(One(0x56))),
        'ふ' => Some(Hiragana(One(0x32))),
        'へ' => Some(Hiragana(One(0xDE))),
        'ほ' => Some(Hiragana(One(0x2D))),
        'ま' => Some(Hiragana(One(0x4A))),
        'み' => Some(Hiragana(One(0x4E))),
        'む' => Some(Hiragana(One(0xDD))),
        'め' => Some(Hiragana(One(0x2F))),
        'も' => Some(Hiragana(One(0x4D))),
        'や' => Some(Hiragana(One(0x37))),
        'ゆ' => Some(Hiragana(One(0x38))),
        'よ' => Some(Hiragana(One(0x39))),
        'ら' => Some(Hiragana(One(0x4F))),
        'り' => Some(Hiragana(One(0x4C))),
        'る' => Some(Hiragana(One(0x2E))),
        'れ' => Some(Hiragana(One(0x2B))),
        'ろ' => Some(Hiragana(One(0x5F))),
        'わ' => Some(Hiragana(One(0x30))),
        'を' => Some(Hiragana(One(0x36))),
        'ん' => Some(Hiragana(One(0x59))),
        // punctuation typed in kana mode
        '\u{3000}' => Some(Hiragana(One(0x20))),
        '・' => Some(Hiragana(One(0x20))),
        '゛' => Some(Hiragana(One(0xC0))),
        '゜' => Some(Hiragana(One(0xDB))),
        'ー' => Some(Hiragana(One(0x5C))),
        '、' => Some(Hiragana(One(0x3C))),
        '。' => Some(Hiragana(One(0x3E))),
        // hiragana with a voiced or semi-voiced mark
        'が' => Some(Hiragana(Two(0x54, 0xC0))),
        'ぎ' => Some(Hiragana(Two(0x47, 0xC0))),
        'ぐ' => Some(Hiragana(Two(0x48, 0xC0))),
        'げ' => Some(Hiragana(Two(0x2A, 0xC0))),
        'ご' => Some(Hiragana(Two(0x42, 0xC0))),
        'ざ' => Some(Hiragana(Two(0x58, 0xC0))),
        'じ' => Some(Hiragana(Two(0x44, 0xC0))),
        'ず' => Some(Hiragana(Two(0x52, 0xC0))),
        'ぜ' => Some(Hiragana(Two(0x50, 0xC0))),
        'ぞ' => Some(Hiragana(Two(0x43, 0xC0))),
        'だ' => Some(Hiragana(Two(0x51, 0xC0))),
        'ぢ' => Some(Hiragana(Two(0x41, 0xC0))),
        'づ' => Some(Hiragana(Two(0x7A, 0xC0))),
        'で' => Some(Hiragana(Two(0x57, 0xC0))),
        'ど' => Some(Hiragana(Two(0x53, 0xC0))),
        'ば' => Some(Hiragana(Two(0x46, 0xC0))),
        'び' => Some(Hiragana(Two(0x56, 0xC0))),
        'ぶ' => Some(Hiragana(Two(0x32, 0xC0))),
        'べ' => Some(Hiragana(Two(0xDE, 0xC0))),
        'ぼ' => Some(Hiragana(Two(0x2D, 0xC0))),
        'ぱ' => Some(Hiragana(Two(0x46, 0xDB))),
        'ぴ' => Some(Hiragana(Two(0x56, 0xDB))),
        'ぷ' => Some(Hiragana(Two(0x32, 0xDB))),
        'ぺ' => Some(Hiragana(Two(0xDE, 0xDB))),
        'ぽ' => Some(Hiragana(Two(0x2D, 0xDB))),
        // katakana
        'ァ' => Some(Katakana(One(0x23))),
        'ィ' => Some(Katakana(One(0x45))),
        'ゥ' => Some(Katakana(One(0x24))),
        'ェ' => Some(Katakana(One(0x35))),
        'ォ' => Some(Katakana(One(0x26))),
        'ャ' => Some(Katakana(One(0x27))),
        'ュ' => Some(Katakana(One(0x28))),
        'ョ' => Some(Katakana(One(0x29))),
        'ッ' => Some(Katakana(One(0x5A))),
        'ア' => Some(Katakana(One(0x33))),
        'イ' => Some(Katakana(One(0x65))),
        'ウ' => Some(Katakana(One(0x34))),
        'エ' => Some(Katakana(One(0x35))),
        'オ' => Some(Katakana(One(0x36))),
        'カ' => Some(Katakana(One(0x54))),
        'キ' => Some(Katakana(One(0x47))),
        'ク' => Some(Katakana(One(0x48))),
        'ケ' => Some(Katakana(One(0x2A))),
        'コ' => Some(Katakana(One(0x42))),
        'サ' => Some(Katakana(One(0x58))),
        'シ' => Some(Katakana(One(0x44))),
        'ス' => Some(Katakana(One(0x52))),
        'セ' => Some(Katakana(One(0x50))),
        'ソ' => Some(Katakana(One(0x43))),
        'タ' => Some(Katakana(One(0x51))),
        'チ' => Some(Katakana(One(0x41))),
        'ツ' => Some(Katakana(One(0x7A))),
        'テ' => Some(Katakana(One(0x57))),
        'ト' => Some(Katakana(One(0x53))),
        'ナ' => Some(Katakana(One(0x55))),
        'ニ' => Some(Katakana(One(0x49))),
        'ヌ' => Some(Katakana(One(0x31))),
        'ネ' => Some(Katakana(One(0x3B))),
        'ノ' => Some(Katakana(One(0x4B))),
        'ハ' => Some(Katakana(One(0x46))),
        'ヒ' => Some(Katakana(One(0x56))),
        'フ' => Some(Katakana(One(0x32))),
        'ヘ' => Some(Katakana(One(0xDE))),
        'ホ' => Some(Katakana(One(0x2D))),
        'マ' => Some(Katakana(One(0x4A))),
        'ミ' => Some(Katakana(One(0x4E))),
        'ム' => Some(Katakana(One(0xDD))),
        'メ' => Some(Katakana(One(0x2F))),
        'モ' => Some(Katakana(One(0x4D))),
        'ヤ' => Some(Katakana(One(0x37))),
        'ユ' => Some(Katakana(One(0x38))),
        'ヨ' => Some(Katakana(One(0x39))),
        'ラ' => Some(Katakana(One(0x4F))),
        'リ' => Some(Katakana(One(0x4C))),
        'ル' => Some(Katakana(One(0x2E))),
        'レ' => Some(Katakana(One(0x2B))),
        'ロ' => Some(Katakana(One(0x5F))),
        'ワ' => Some(Katakana(One(0x30))),
        'ヲ' => Some(Katakana(One(0x36))),
        'ン' => Some(Katakana(One(0x59))),
        // katakana with a voiced or semi-voiced mark
        'ガ' => Some(Katakana(Two(0x54, 0xC0))),
        'ギ' => Some(Katakana(Two(0x47, 0xC0))),
        'グ' => Some(Katakana(Two(0x48, 0xC0))),
        'ゲ' => Some(Katakana(Two(0x2A, 0xC0))),
        'ゴ' => Some(Katakana(Two(0x42, 0xC0))),
        'ザ' => Some(Katakana(Two(0x58, 0xC0))),
        'ジ' => Some(Katakana(Two(0x44, 0xC0))),
        'ズ' => Some(Katakana(Two(0x52, 0xC0))),
        'ゼ' => Some(Katakana(Two(0x50, 0xC0))),
        'ゾ' => Some(Katakana(Two(0x43, 0xC0))),
        'ダ' => Some(Katakana(Two(0x51, 0xC0))),
        'ヂ' => Some(Katakana(Two(0x41, 0xC0))),
        'ヅ' => Some(Katakana(Two(0x7A, 0xC0))),
        'デ' => Some(Katakana(Two(0x57, 0xC0))),
        'ド' => Some(Katakana(Two(0x53, 0xC0))),
        'バ' => Some(Katakana(Two(0x46, 0xC0))),
        'ビ' => Some(Katakana(Two(0x56, 0xC0))),
        'ブ' => Some(Katakana(Two(0x32, 0xC0))),
        'ベ' => Some(Katakana(Two(0xDE, 0xC0))),
        'ボ' => Some(Katakana(Two(0x2D, 0xC0))),
        'パ' => Some(Katakana(Two(0x46, 0xDB))),
        'ピ' => Some(Katakana(Two(0x56, 0xDB))),
        'プ' => Some(Katakana(Two(0x32, 0xDB))),
        'ペ' => Some(Katakana(Two(0xDE, 0xDB))),
        'ポ' => Some(Katakana(Two(0x2D, 0xDB))),
        _ => None,
    }
}

/// Finds the keys for a character.
pub fn faces_code_of(c: char) -> (code: Option<FacesCode>)
    ensures
        code == faces_code(c),
{
    match faces_lookup(c) {
        Some(code) => Some(code),
        None => if char_is_ascii(c) {
            Some(Ascii(c as u8))
        } else {
            None
        },
    }
}

/// Encodes a text as the keystrokes that type it on the device.
pub fn str_to_faces_code(input: &str) -> (result: Vec<u8>)
    ensures
        result@ == faces_encode(input@),
{
    let mut result: Vec<u8> = Vec::new();
    let mut kana_on = false;
    let mut caps_on = false;
    for c in it: input.chars()
        invariant
            it.seq() == input@,
            typed(it.seq().take(it.index())) == (Keyboard {
                sent: result@,
                kana: kana_on,
                caps: caps_on,
            }),
    {
        proof {
            assert(it.seq().take(it.index() + 1).drop_last() == it.seq().take(it.index()));
        }
        let ghost before = result@;
        let ghost kana_was = kana_on;
        let ghost caps_was = caps_on;
        match faces_code_of(c) {
            None => {},
            Some(Ascii(code)) => {
                if kana_on {
                    result.push(U_KANA);
                    kana_on = false;
                }
                if caps_on {
                    result.push(U_CAPS);
                    caps_on = false;
                }
                result.push(code);
                assert(result@ == before + markers(kana_was, caps_was) + seq![code]);
            },
            Some(Hiragana(codes)) => {
                if !kana_on {
                    result.push(U_KANA);
                    kana_on = true;
                }
                if caps_on {
                    result.push(U_CAPS);
                    caps_on = false;
                }
                codes.append_to(&mut result);
                assert(result@ == before + markers(!kana_was, caps_was) + codes.bytes());
            },
            Some(Katakana(codes)) => {
                if !kana_on {
                    result.push(U_KANA);
                    kana_on = true;
                }
                if !caps_on {
                    result.push(U_CAPS);
                    caps_on = true;
                }
                codes.append_to(&mut result);
                assert(result@ == before + markers(!kana_was, !caps_was) + codes.bytes());
            },
        }
    }
    let ghost typed_all = result@;
    assert(input@.take(input@.len() as int) == input@);
    if kana_on {
        result.push(U_KANA);
    }
    if caps_on {
        result.push(U_CAPS);
    }
    assert(result@ == typed_all + markers(kana_on, caps_on));
    result
}

/// The markers in the bytes for a change of mode: one kana marker if the kana
/// mode changes, one caps marker if the caps mode changes.
proof fn lemma_count_markers(kana: bool, caps: bool)
    ensures
        count_byte(markers(kana, caps), U_KANA) == if kana {
            1nat
        } else {
            0nat
        },
        count_byte(markers(kana, caps), U_CAPS) == if caps {
            1nat
        } else {
            0nat
        },
{
    let k = if kana {
        seq![U_KANA]
    } else {
        Seq::<u8>::empty()
    };
    let c = if caps {
        seq![U_CAPS]
    } else {
        Seq::<u8>::empty()
    };
    reveal_with_fuel(count_byte, 2);
    lemma_count_byte_concat(k, c, U_KANA);
    lemma_count_byte_concat(k, c, U_CAPS);
}

/// No key of a character is a mode marker.
proof fn lemma_keys_hold_no_marker(c: char)
    ensures
        match faces_code(c) {
            None => true,
            Some(Ascii(code)) => code != U_KANA && code != U_CAPS,
            Some(Hiragana(codes)) | Some(Katakana(codes)) => {
                &&& count_byte(codes.bytes(), U_KANA) == 0
                &&& count_byte(codes.bytes(), U_CAPS) == 0
            },
        },
{
    reveal_with_fuel(count_byte, 3);
    match faces_code(c) {
        Some(Hiragana(codes)) | Some(Katakana(codes)) => {
            match codes {
                One(a) => {
                    assert(seq![a].drop_last() == Seq::<u8>::empty());
                },
                Two(a, b) => {
                    assert(seq![a, b].drop_last() == seq![a]);
                    assert(seq![a].drop_last() == Seq::<u8>::empty());
                },
            }
        },
        _ => {},
    }
}

/// While a text is typed, a mode is on exactly if its marker was sent an odd
/// number of times: the mode in force is the one whose marker was sent last
/// without a marker that closes it.
pub proof fn lemma_modes_follow_markers(text: Seq<char>)
    ensures
        typed(text).kana <==> count_byte(typed(text).sent, U_KANA) % 2 == 1,
        typed(text).caps <==> count_byte(typed(text).sent, U_CAPS) % 2 == 1,
    decreases text.len(),
{
    if text.len() > 0 {
        let k = typed(text.drop_last());
        let c = text.last();
        lemma_modes_follow_markers(text.drop_last());
        lemma_keys_hold_no_marker(c);
        match faces_code(c) {
            None => {},
            Some(Ascii(code)) => {
                lemma_count_markers(k.kana, k.caps);
                reveal_with_fuel(count_byte, 2);
                assert(seq![code].drop_last() == Seq::<u8>::empty());
                lemma_count_byte_concat(k.sent, markers(k.kana, k.caps), U_KANA);
                lemma_count_byte_concat(k.sent, markers(k.kana, k.caps), U_CAPS);
                lemma_count_byte_concat(k.sent + markers(k.kana, k.caps), seq![code], U_KANA);
                lemma_count_byte_concat(k.sent + markers(k.kana, k.caps), seq![code], U_CAPS);
            },
            Some(Hiragana(codes)) => {
                lemma_count_markers(!k.kana, k.caps);
                lemma_count_byte_concat(k.sent, markers(!k.kana, k.caps), U_KANA);
                lemma_count_byte_concat(k.sent, markers(!k.kana, k.caps), U_CAPS);
                lemma_count_byte_concat(k.sent + markers(!k.kana, k.caps), codes.bytes(), U_KANA);
                lemma_count_byte_concat(k.sent + markers(!k.kana, k.caps), codes.bytes(), U_CAPS);
            },
            Some(Katakana(codes)) => {
                lemma_count_markers(!k.kana, !k.caps);
                lemma_count_byte_concat(k.sent, markers(!k.kana, !k.caps), U_KANA);
                lemma_count_byte_concat(k.sent, markers(!k.kana, !k.caps), U_CAPS);
                lemma_count_byte_concat(k.sent + markers(!k.kana, !k.caps), codes.bytes(), U_KANA);
                lemma_count_byte_concat(k.sent + markers(!k.kana, !k.caps), codes.bytes(), U_CAPS);
            },
        }
    }
}

/// The keystrokes of any text leave no mode switched on: they hold an even
/// number of kana markers and an even number of caps markers.
pub proof fn lemma_markers_balanced(text: Seq<char>)
    ensures
        count_byte(faces_encode(text), U_KANA) % 2 == 0,
        count_byte(faces_encode(text), U_CAPS) % 2 == 0,
{
    let k = typed(text);
    lemma_modes_follow_markers(text);
    lemma_count_markers(k.kana, k.caps);
    lemma_count_byte_concat(k.sent, markers(k.kana, k.caps), U_KANA);
    lemma_count_byte_concat(k.sent, markers(k.kana, k.caps), U_CAPS);
}

} // verus!
