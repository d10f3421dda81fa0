use vstd::prelude::*;
use crate::codes::{char_is_ascii, is_ascii_char, Codes};
use crate::codes::Codes::{One, Two};
use crate::display::{base_char, display_text, shift_pending, GRAPH_SHIFT};
use crate::native::MsxCode::{Ascii, Graph, Kana};

verus! {

/// How a character is written in the device's own character codes.
#[derive(Clone, Copy, Debug, PartialEq, Eq, Structural)]
pub enum MsxCode {
    /// A single byte of the base character set.
    Ascii(u8),
    /// A byte of the graphics set, sent after the graphics shift.
    Graph(u8),
    /// The bytes of a kana, with the byte of its mark if it has one.
    Kana(Codes),
}

impl MsxCode {
    /// The bytes sent for this code.
    pub open spec fn bytes(self) -> Seq<u8> {
        match self {
            Ascii(code) => seq![code],
            Graph(code) => seq![GRAPH_SHIFT, code],
            Kana(codes) => codes.bytes(),
        }
    }
}

/// The characters beyond ASCII that the device can show, each with its code.
pub open spec fn native_table(c: char) -> Option<MsxCode> {
    match c {
        // card suits and circles
        '\u{2660}' => Some(Ascii(0x80)),
        '\u{2665}' => Some(Ascii(0x81)),
        '\u{2663}' => Some(Ascii(0x82)),
        '\u{2666}' => Some(Ascii(0x83)),
        '\u{25CB}' => Some(Ascii(0x84)),
        '\u{25CF}' => Some(Ascii(0x85)),
        // symbols behind the graphics shift
        '月' => Some(Graph(0x41)),
        '火' => Some(Graph(0x42)),
        '水' => Some(Graph(0x43)),
        '木' => Some(Graph(0x44)),
        '金' => Some(Graph(0x45)),
        '土' => Some(Graph(0x46)),
        '日' => Some(Graph(0x47)),
        '年' => Some(Graph(0x48)),
        '円' => Some(Graph(0x49)),
        '時' => Some(Graph(0x4A)),
        '分' => Some(Graph(0x4B)),
        '秒' => Some(Graph(0x4C)),
        '百' => Some(Graph(0x4D)),
        '千' => Some(Graph(0x4E)),
        '万' => Some(Graph(0x4F)),
        'π' => Some(Graph(0x50)),
        '┻' => Some(Graph(0x51)),
        '┳' => Some(Graph(0x52)),
        '┫' => Some(Graph(0x53)),
        '┣' => Some(Graph(0x54)),
        '╋' => Some(Graph(0x55)),
        '┃' => Some(Graph(0x56)),
        '━' => Some(Graph(0x57)),
        '┏' => Some(Graph(0x58)),
        '┓' => Some(Graph(0x59)),
        '┗' => Some(Graph(0x5A)),
        '┛' => Some(Graph(0x5B)),
        '\u{2573}' => Some(Graph(0x5C)),
        '大' => Some(Graph(0x5D)),
        '中' => Some(Graph(0x5E)),
        '小' => Some(Graph(0x5F)),
        // hiragana
        'を' => Some(Kana(One(0x86))),
        'ぁ' => Some(Kana(One(0x87))),
        'ぃ' => Some(Kana(One(0x88))),
        'ぅ' => Some(Kana(One(0x89))),
        'ぇ' => Some(Kana(One(0x8A))),
        'ぉ' => Some(Kana(One(0x8B))),
        'ゃ' => Some(Kana(One(0x8C))),
        'ゅ' => Some(Kana(One(0x8D))),
        'ょ' => Some(Kana(One(0x8E))),
        'っ' => Some(Kana(One(0x8F))),
        'あ' => Some(Kana(One(0x91))),
        'い' => Some(Kana(One(0x92))),
        'う' => Some(Kana(One(0x93))),
        'え' => Some(Kana(One(0x94))),
        'お' => Some(Kana(One(0x95))),
        'か' => Some(Kana(One(0x96))),
        'き' => Some(Kana(One(0x97))),
        'く' => Some(Kana(One(0x98))),
        'け' => Some(Kana(One(0x99))),
        'こ' => Some(Kana(One(0x9A))),
        'さ' => Some(Kana(One(0x9B))),
        'し' => Some(Kana(One(0x9C))),
        'す' => Some(Kana(One(0x9D))),
        'せ' => Some(Kana(One(0x9E))),
        'そ' => Some(Kana(One(0x9F))),
        'た' => Some(Kana(One(0xE0))),
        'ち' => Some(Kana(One(0xE1))),
        'つ' => Some(Kana(One(0xE2))),
        'て' => Some(Kana(One(0xE3))),
        'と' => Some(Kana(One(0xE4))),
        'な' => Some(Kana(One(0xE5))),
        'に' => Some(Kana(One(0xE6))),
        'ぬ' => Some(Kana(One(0xE7))),
        'ね' => Some(Kana(One(0xE8))),
        'の' => Some(Kana(One(0xE9))),
        'は' => Some(Kana(One(0xEA))),
        'ひ' => Some(Kana(One(0xEB))),
        'ふ' => Some(Kana(One(0xEC))),
        'へ' => Some(Kana(One(0xED))),
        'ほ' => Some(Kana(One(0xEE))),
        'ま' => Some(Kana(One(0xEF))),
        'み' => Some(Kana(One(0xF0))),
        'む' => Some(Kana(One(0xF1))),
        'め' => Some(Kana(One(0xF2))),
        'も' => Some(Kana(One(0xF3))),
        'や' => Some(Kana(One(0xF4))),
        'ゆ' => Some(Kana(One(0xF5))),
        'よ' => Some(Kana(One(0xF6))),
        'ら' => Some(Kana(One(0xF7))),
        'り' => Some(Kana(One(0xF8))),
        'る' => Some(Kana(One(0xF9))),
        'れ' => Some(Kana(One(0xFA))),
        'ろ' => Some(Kana(One(0xFB))),
        'わ' => Some(Kana(One(0xFC))),
        'ん' => Some(Kana(One(0xFD))),
        // blank and punctuation
        '\u{3000}' => Some(Kana(One(0x20))),
        '。' => Some(Kana(One(0xA1))),
        '「' => Some(Kana(One(0xA2))),
        '」' => Some(Kana(One(0xA3))),
        '、' => Some(Kana(One(0xA4))),
        '・' => Some(Kana(One(0xA5))),
        // hiragana with a voiced or semi-voiced mark
        'が' => Some(Kana(Two(0x96, 0xDE))),
        'ぎ' => Some(Kana(Two(0x97, 0xDE))),
        'ぐ' => Some(Kana(Two(0x98, 0xDE))),
        'げ' => Some(Kana(Two(0x99, 0xDE))),
        'ご' => Some(Kana(Two(0x9A, 0xDE))),
        'ざ' => Some(Kana(Two(0x9B, 0xDE))),
        'じ' => Some(Kana(Two(0x9C, 0xDE))),
        'ず' => Some(Kana(Two(0x9D, 0xDE))),
        'ぜ' => Some(Kana(Two(0x9E, 0xDE))),
        'ぞ' => Some(Kana(Two(0x9F, 0xDE))),
        'だ' => Some(Kana(Two(0xE0, 0xDE))),
        'ぢ' => Some(Kana(Two(0xE1, 0xDE))),
        'づ' => Some(Kana(Two(0xE2, 0xDE))),
        'で' => Some(Kana(Two(0xE3, 0xDE))),
        'ど' => Some(Kana(Two(0xE4, 0xDE))),
        'ば' => Some(Kana(Two(0xEA, 0xDE))),
        'び' => Some(Kana(Two(0xEB, 0xDE))),
        'ぶ' => Some(Kana(Two(0xEC, 0xDE))),
        'べ' => Some(Kana(Two(0xED, 0xDE))),
        'ぼ' => Some(Kana(Two(0xEE, 0xDE))),
        'ぱ' => Some(Kana(Two(0xEA, 0xDF))),
        'ぴ' => Some(Kana(Two(0xEB, 0xDF))),
        'ぷ' => Some(Kana(Two(0xEC, 0xDF))),
        'ぺ' => Some(Kana(Two(0xED, 0xDF))),
        'ぽ' => Some(Kana(Two(0xEE, 0xDF))),
        // katakana
        'ヲ' => Some(Kana(One(0xA6))),
        'ァ' => Some(Kana(One(0xA7))),
        'ィ' => Some(Kana(One(0xA8))),
        'ゥ' => Some(Kana(One(0xA9))),
        'ェ' => Some(Kana(One(0xAA))),
        'ォ' => Some(Kana(One(0xAB))),
        'ャ' => Some(Kana(One(0xAC))),
        'ュ' => Some(Kana(One(0xAD))),
        'ョ' => Some(Kana(One(0xAE))),
        'ッ' => Some(Kana(One(0xAF))),
        'ー' => Some(Kana(One(0xB0))),
        'ア' => Some(Kana(One(0xB1))),
        'イ' => Some(Kana(One(0xB2))),
        'ウ' => Some(Kana(One(0xB3))),
        'エ' => Some(Kana(One(0xB4))),
        'オ' => Some(Kana(One(0xB5))),
        'カ' => Some(Kana(One(0xB6))),
        'キ' => Some(Kana(One(0xB7))),
        'ク' => Some(Kana(One(0xB8))),
        'ケ' => Some(Kana(One(0xB9))),
        'コ' => Some(Kana(One(0xBA))),
        'サ' => Some(Kana(One(0xBB))),
        'シ' => Some(Kana(One(0xBC))),
        'ス' => Some(Kana(One(0xBD))),
        'セ' => Some(Kana(One(0xBE))),
        'ソ' => Some(Kana(One(0xBF))),
        'タ' => Some(Kana(One(0xC0))),
        'チ' => Some(Kana(One(0xC1))),
        'ツ' => Some(Kana(One(0xC2))),
        'テ' => Some(Kana(One(0xC3))),
        'ト' => Some(Kana(One(0xC4))),
        'ナ' => Some(Kana(One(0xC5))),
        'ニ' => Some(Kana(One(0xC6))),
        'ヌ' => Some(Kana(One(0xC7))),
        'ネ' => Some(Kana(One(0xC8))),
        'ノ' => Some(Kana(One(0xC9))),
        'ハ' => Some(Kana(One(0xCA))),
        'ヒ' => Some(Kana(One(0xCB))),
        'フ' => Some(Kana(One(0xCC))),
        'ヘ' => Some(Kana(One(0xCD))),
        'ホ' => Some(Kana(One(0xCE))),
        'マ' => Some(Kana(One(0xCF))),
        'ミ' => Some(Kana(One(0xD0))),
        'ム' => Some(Kana(One(0xD1))),
        'メ' => Some(Kana(One(0xD2))),
        'モ' => Some(Kana(One(0xD3))),
        'ヤ' => Some(Kana(One(0xD4))),
        'ユ' => Some(Kana(One(0xD5))),
        'ヨ' => Some(Kana(One(0xD6))),
        'ラ' => Some(Kana(One(0xD7))),
        'リ' => Some(Kana(One(0xD8))),
        'ル' => Some(Kana(One(0xD9))),
        'レ' => Some(Kana(One(0xDA))),
        'ロ' => Some(Kana(One(0xDB))),
        'ワ' => Some(Kana(One(0xDC))),
        'ン' => Some(Kana(One(0xDD))),
        // the voiced and semi-voiced marks
        '゛' => Some(Kana(One(0xDE))),
        '゜' => Some(Kana(One(0xDF))),
        // katakana with a voiced or semi-voiced mark
        'ガ' => Some(Kana(Two(0xB6, 0xDE))),
        'ギ' => Some(Kana(Two(0xB7, 0xDE))),
        'グ' => Some(Kana(Two(0xB8, 0xDE))),
        'ゲ' => Some(Kana(Two(0xB9, 0xDE))),
        'ゴ' => Some(Kana(Two(0xBA, 0xDE))),
        'ザ' => Some(Kana(Two(0xBB, 0xDE))),
        'ジ' => Some(Kana(Two(0xBC, 0xDE))),
        'ズ' => Some(Kana(Two(0xBD, 0xDE))),
        'ゼ' => Some(Kana(Two(0xBE, 0xDE))),
        'ゾ' => Some(Kana(Two(0xBF, 0xDE))),
        'ダ' => Some(Kana(Two(0xC0, 0xDE))),
        'ヂ' => Some(Kana(Two(0xC1, 0xDE))),
        'ヅ' => Some(Kana(Two(0xC2, 0xDE))),
        'デ' => Some(Kana(Two(0xC3, 0xDE))),
        'ド' => Some(Kana(Two(0xC4, 0xDE))),
        'バ' => Some(Kana(Two(0xCA, 0xDE))),
        'ビ' => Some(Kana(Two(0xCB, 0xDE))),
        'ブ' => Some(Kana(Two(0xCC, 0xDE))),
        'ベ' => Some(Kana(Two(0xCD, 0xDE))),
        'ボ' => Some(Kana(Two(0xCE, 0xDE))),
        'パ' => Some(Kana(Two(0xCA, 0xDF))),
        'ピ' => Some(Kana(Two(0xCB, 0xDF))),
        'プ' => Some(Kana(Two(0xCC, 0xDF))),
        'ペ' => Some(Kana(Two(0xCD, 0xDF))),
        'ポ' => Some(Kana(Two(0xCE, 0xDF))),
        _ => None,
    }
}

/// The code for `c`: its entry in the table, else its own code if it is an
/// ASCII character. Every other character has no code.
pub open spec fn native_code(c: char) -> Option<MsxCode> {
    match native_table(c) {
        Some(code) => Some(code),
        None => if is_ascii_char(c) {
            Some(Ascii(c as u8))
        } else {
            None
        },
    }
}

/// The bytes sent for one character; none for a character without a code.
pub open spec fn native_bytes(c: char) -> Seq<u8> {
    match native_code(c) {
        Some(code) => code.bytes(),
        None => Seq::empty(),
    }
}

/// The device's character codes for `text`: the bytes of its characters in
/// order, each character on its own.
pub open spec fn native_encode(text: Seq<char>) -> Seq<u8>
    decreases text.len(),
{
    if text.len() == 0 {
        Seq::empty()
    } else {
        native_encode(text.drop_last()) + native_bytes(text.last())
    }
}

/// Looks a character up in the table of codes.
pub fn native_lookup(c: char) -> (code: Option<MsxCode>)
    ensures
        code == native_table(c),
{
    match c {
        // card suits and circles
        '\u{2660}' => Some(Ascii(0x80)),
        '\u{2665}' => Some(Ascii(0x81)),
        '\u{2663}' => Some(Ascii(0x82)),
        '\u{2666}' => Some(Ascii(0x83)),
        '\u{25CB}' => Some(Ascii(0x84)),
        '\u{25CF}' => Some(Ascii(0x85)),
        // symbols behind the graphics shift
        '月' => Some(Graph(0x41)),
        '火' => Some(Graph(0x42)),
        '水' => Some(Graph(0x43)),
        '木' => Some(Graph(0x44)),
        '金' => Some(Graph(0x45)),
        '土' => Some(Graph(0x46)),
        '日' => Some(Graph(0x47)),
        '年' => Some(Graph(0x48)),
        '円' => Some(Graph(0x49)),
        '時' => Some(Graph(0x4A)),
        '分' => Some(Graph(0x4B)),
        '秒' => Some(Graph(0x4C)),
        '百' => Some(Graph(0x4D)),
        '千' => Some(Graph(0x4E)),
        '万' => Some(Graph(0x4F)),
        'π' => Some(Graph(0x50)),
        '┻' => Some(Graph(0x51)),
        '┳' => Some(Graph(0x52)),
        '┫' => Some(Graph(0x53)),
        '┣' => Some(Graph(0x54)),
        '╋' => Some(Graph(0x55)),
        '┃' => Some(Graph(0x56)),
        '━' => Some(Graph(0x57)),
        '┏' => Some(Graph(0x58)),
        '┓' => Some(Graph(0x59)),
        '┗' => Some(Graph(0x5A)),
        '┛' => Some(Graph(0x5B)),
        '\u{2573}' => Some(Graph(0x5C)),
        '大' => Some(Graph(0x5D)),
        '中' => Some(Graph(0x5E)),
        '小' => Some(Graph(0x5F)),
        // hiragana
        'を' => Some(Kana(One(0x86))),
        'ぁ' => Some(Kana(One(0x87))),
        'ぃ' => Some(Kana(One(0x88))),
        'ぅ' => Some(Kana(One(0x89))),
        'ぇ' => Some(Kana(One(0x8A))),
        'ぉ' => Some(Kana(One(0x8B))),
        'ゃ' => Some(Kana(One(0x8C))),
        'ゅ' => Some(Kana(One(0x8D))),
        'ょ' => Some(Kana(One(0x8E))),
        'っ' => Some(Kana(One(0x8F))),
        'あ' => Some(Kana(One(0x91))),
        'い' => Some(Kana(One(0x92))),
        'う' => Some(Kana(One(0x93))),
        'え' => Some(Kana(One(0x94))),
        'お' => Some(Kana(One(0x95))),
        'か' => Some(Kana(One(0x96))),
        'き' => Some(Kana(One(0x97))),
        'く' => Some(Kana(One(0x98))),
        'け' => Some(Kana(One(0x99))),
        'こ' => Some(Kana(One(0x9A))),
        'さ' => Some(Kana(One(0x9B))),
        'し' => Some(Kana(One(0x9C))),
        'す' => Some(Kana(One(0x9D))),
        'せ' => Some(Kana(One(0x9E))),
        'そ' => Some(Kana(One(0x9F))),
        'た' => Some(Kana(One(0xE0))),
        'ち' => Some(Kana(One(0xE1))),
        'つ' => Some(Kana(One(0xE2))),
        'て' => Some(Kana(One(0xE3))),
        'と' => Some(Kana(One(0xE4))),
        'な' => Some(Kana(One(0xE5))),
        'に' => Some(Kana(One(0xE6))),
        'ぬ' => Some(Kana(One(0xE7))),
        'ね' => Some(Kana(One(0xE8))),
        'の' => Some(Kana(One(0xE9))),
        'は' => Some(Kana(One(0xEA))),
        'ひ' => Some(Kana(One(0xEB))),
        'ふ' => Some(Kana(One(0xEC))),
        'へ' => Some(Kana(One(0xED))),
        'ほ' => Some(Kana(One(0xEE))),
        'ま' => Some(Kana(One(0xEF))),
        'み' => Some(Kana(One(0xF0))),
        'む' => Some(Kana(One(0xF1))),
        'め' => Some(Kana(One(0xF2))),
        'も' => Some(Kana(One(0xF3))),
        'や' => Some(Kana(One(0xF4))),
        'ゆ' => Some(Kana(One(0xF5))),
        'よ' => Some(Kana(One(0xF6))),
        'ら' => Some(Kana(One(0xF7))),
        'り' => Some(Kana(One(0xF8))),
        'る' => Some(Kana(One(0xF9))),
        'れ' => Some(Kana(One(0xFA))),
        'ろ' => Some(Kana(One(0xFB))),
        'わ' => Some(Kana(One(0xFC))),
        'ん' => Some(Kana(One(0xFD))),
        // blank and punctuation
        '\u{3000}' => Some(Kana(One(0x20))),
        '。' => Some(Kana(One(0xA1))),
        '「' => Some(Kana(One(0xA2))),
        '」' => Some(Kana(One(0xA3))),
        '、' => Some(Kana(One(0xA4))),
        '・' => Some(Kana(One(0xA5))),
        // hiragana with a voiced or semi-voiced mark
        'が' => Some(Kana(Two(0x96, 0xDE))),
        'ぎ' => Some(Kana(Two(0x97, 0xDE))),
        'ぐ' => Some(Kana(Two(0x98, 0xDE))),
        'げ' => Some(Kana(Two(0x99, 0xDE))),
        'ご' => Some(Kana(Two(0x9A, 0xDE))),
        'ざ' => Some(Kana(Two(0x9B, 0xDE))),
        'じ' => Some(Kana(Two(0x9C, 0xDE))),
        'ず' => Some(Kana(Two(0x9D, 0xDE))),
        'ぜ' => Some(Kana(Two(0x9E, 0xDE))),
        'ぞ' => Some(Kana(Two(0x9F, 0xDE))),
        'だ' => Some(Kana(Two(0xE0, 0xDE))),
        'ぢ' => Some(Kana(Two(0xE1, 0xDE))),
        'づ' => Some(Kana(Two(0xE2, 0xDE))),
        'で' => Some(Kana(Two(0xE3, 0xDE))),
        'ど' => Some(Kana(Two(0xE4, 0xDE))),
        'ば' => Some(Kana(Two(0xEA, 0xDE))),
        'び' => Some(Kana(Two(0xEB, 0xDE))),
        'ぶ' => Some(Kana(Two(0xEC, 0xDE))),
        'べ' => Some(Kana(Two(0xED, 0xDE))),
        'ぼ' => Some(Kana(Two(0xEE, 0xDE))),
        'ぱ' => Some(Kana(Two(0xEA, 0xDF))),
        'ぴ' => Some(Kana(Two(0xEB, 0xDF))),
        'ぷ' => Some(Kana(Two(0xEC, 0xDF))),
        'ぺ' => Some(Kana(Two(0xED, 0xDF))),
        'ぽ' => Some(Kana(Two(0xEE, 0xDF))),
        // katakana
        'ヲ' => Some(Kana(One(0xA6))),
        'ァ' => Some(Kana(One(0xA7))),
        'ィ' => Some(Kana(One(0xA8))),
        'ゥ' => Some(Kana(One(0xA9))),
        'ェ' => Some(Kana(One(0xAA))),
        'ォ' => Some(Kana(One(0xAB))),
        'ャ' => Some(Kana(One(0xAC))),
        'ュ' => Some(Kana(One(0xAD))),
        'ョ' => Some(Kana(One(0xAE))),
        'ッ' => Some(Kana(One(0xAF))),
        'ー' => Some(Kana(One(0xB0))),
        'ア' => Some(Kana(One(0xB1))),
        'イ' => Some(Kana(One(0xB2))),
        'ウ' => Some(Kana(One(0xB3))),
        'エ' => Some(Kana(One(0xB4))),
        'オ' => Some(Kana(One(0xB5))),
        'カ' => Some(Kana(One(0xB6))),
        'キ' => Some(Kana(One(0xB7))),
        'ク' => Some(Kana(One(0xB8))),
        'ケ' => Some(Kana(One(0xB9))),
        'コ' => Some(Kana(One(0xBA))),
        'サ' => Some(Kana(One(0xBB))),
        'シ' => Some(Kana(One(0xBC))),
        'ス' => Some(Kana(One(0xBD))),
        'セ' => Some(Kana(One(0xBE))),
        'ソ' => Some(Kana(One(0xBF))),
        'タ' => Some(Kana(One(0xC0))),
        'チ' => Some(Kana(One(0xC1))),
        'ツ' => Some(Kana(One(0xC2))),
        'テ' => Some(Kana(One(0xC3))),
        'ト' => Some(Kana(One(0xC4))),
        'ナ' => Some(Kana(One(0xC5))),
        'ニ' => Some(Kana(One(0xC6))),
        'ヌ' => Some(Kana(One(0xC7))),
        'ネ' => Some(Kana(One(0xC8))),
        'ノ' => Some(Kana(One(0xC9))),
        'ハ' => Some(Kana(One(0xCA))),
        'ヒ' => Some(Kana(One(0xCB))),
        'フ' => Some(Kana(One(0xCC))),
        'ヘ' => Some(Kana(One(0xCD))),
        'ホ' => Some(Kana(One(0xCE))),
        'マ' => Some(Kana(One(0xCF))),
        'ミ' => Some(Kana(One(0xD0))),
        'ム' => Some(Kana(One(0xD1))),
        'メ' => Some(Kana(One(0xD2))),
        'モ' => Some(Kana(One(0xD3))),
        'ヤ' => Some(Kana(One(0xD4))),
        'ユ' => Some(Kana(One(0xD5))),
        'ヨ' => Some(Kana(One(0xD6))),
        'ラ' => Some(Kana(One(0xD7))),
        'リ' => Some(Kana(One(0xD8))),
        'ル' => Some(Kana(One(0xD9))),
        'レ' => Some(Kana(One(0xDA))),
        'ロ' => Some(Kana(One(0xDB))),
        'ワ' => Some(Kana(One(0xDC))),
        'ン' => Some(Kana(One(0xDD))),
        // the voiced and semi-voiced marks
        '゛' => Some(Kana(One(0xDE))),
        '゜' => Some(Kana(One(0xDF))),
        // katakana with a voiced or semi-voiced mark
        'ガ' => Some(Kana(Two(0xB6, 0xDE))),
        'ギ' => Some(Kana(Two(0xB7, 0xDE))),
        'グ' => Some(Kana(Two(0xB8, 0xDE))),
        'ゲ' => Some(Kana(Two(0xB9, 0xDE))),
        'ゴ' => Some(Kana(Two(0xBA, 0xDE))),
        'ザ' => Some(Kana(Two(0xBB, 0xDE))),
        'ジ' => Some(Kana(Two(0xBC, 0xDE))),
        'ズ' => Some(Kana(Two(0xBD, 0xDE))),
        'ゼ' => Some(Kana(Two(0xBE, 0xDE))),
        'ゾ' => Some(Kana(Two(0xBF, 0xDE))),
        'ダ' => Some(Kana(Two(0xC0, 0xDE))),
        'ヂ' => Some(Kana(Two(0xC1, 0xDE))),
        'ヅ' => Some(Kana(Two(0xC2, 0xDE))),
        'デ' => Some(Kana(Two(0xC3, 0xDE))),
        'ド' => Some(Kana(Two(0xC4, 0xDE))),
        'バ' => Some(Kana(Two(0xCA, 0xDE))),
        'ビ' => Some(Kana(Two(0xCB, 0xDE))),
        'ブ' => Some(Kana(Two(0xCC, 0xDE))),
        'ベ' => Some(Kana(Two(0xCD, 0xDE))),
        'ボ' => Some(Kana(Two(0xCE, 0xDE))),
        'パ' => Some(Kana(Two(0xCA, 0xDF))),
        'ピ' => Some(Kana(Two(0xCB, 0xDF))),
        'プ' => Some(Kana(Two(0xCC, 0xDF))),
        'ペ' => Some(Kana(Two(0xCD, 0xDF))),
        'ポ' => Some(Kana(Two(0xCE, 0xDF))),
        _ => None,
    }
}

/// Finds the code for a character.
pub fn native_code_of(c: char) -> (code: Option<MsxCode>)
    ensures
        code == native_code(c),
{
    match native_lookup(c) {
        Some(code) => Some(code),
        None => if char_is_ascii(c) {
            Some(Ascii(c as u8))
        } else {
            None
        },
    }
}

/// Encodes a text in the device's own character codes.
pub fn utf8_msx_jp_code(input: &str) -> (result: Vec<u8>)
    ensures
        result@ == native_encode(input@),
{
    let mut result: Vec<u8> = Vec::new();
    for c in it: input.chars()
        invariant
            it.seq() == input@,
            result@ == native_encode(it.seq().take(it.index())),
    {
        proof {
            assert(it.seq().take(it.index() + 1).drop_last() == it.seq().take(it.index()));
        }
        let ghost before = result@;
        match native_code_of(c) {
            None => {
                assert(result@ == before + Seq::<u8>::empty());
            },
            Some(Ascii(code)) => {
                result.push(code);
                assert(result@ == before + seq![code]);
            },
            Some(Graph(code)) => {
                result.push(GRAPH_SHIFT);
                result.push(code);
                assert(result@ == before + seq![GRAPH_SHIFT, code]);
            },
            Some(Kana(codes)) => {
                codes.append_to(&mut result);
            },
        }
    }
    assert(input@.take(input@.len() as int) == input@);
    result
}

/// Whether every character of `text` is a printable ASCII character.
pub open spec fn is_printable_ascii(text: Seq<char>) -> bool {
    forall|i: int| 0 <= i < text.len() ==> ' ' <= #[trigger] text[i] <= '~'
}

/// Printable ASCII text comes back unchanged when the device's codes for it
/// are decoded as display bytes.
pub proof fn lemma_ascii_round_trip(text: Seq<char>)
    requires
        is_printable_ascii(text),
    ensures
        display_text(native_encode(text)) == text,
        !shift_pending(native_encode(text)),
    decreases text.len(),
{
    if text.len() == 0 {
        assert(text == Seq::<char>::empty());
    } else {
        let c = text.last();
        let head = text.drop_last();
        assert(' ' <= text[text.len() - 1] <= '~');
        assert forall|i: int| 0 <= i < head.len() implies ' ' <= #[trigger] head[i] <= '~' by {
            assert(head[i] == text[i]);
        }
        lemma_ascii_round_trip(head);
        let sent = native_encode(head);
        let b = c as u8;
        assert(native_bytes(c) == seq![b]);
        assert(native_encode(text) == sent.push(b));
        assert(sent.push(b).drop_last() == sent);
        assert(sent.push(b).last() == b);
        assert(display_text(sent.push(b)) == head.push(base_char(b)));
        assert(base_char(b) == c);
        assert(head.push(c) == text);
    }
}

/// The encoder keeps nothing from one character to the next: the codes of a
/// text in two parts are the codes of the parts, one after the other.
pub proof fn lemma_native_encode_concat(first: Seq<char>, second: Seq<char>)
    ensures
        native_encode(first + second) == native_encode(first) + native_encode(second),
    decreases second.len(),
{
    if second.len() == 0 {
        assert(first + second == first);
    } else {
        assert((first + second).drop_last() == first + second.drop_last());
        lemma_native_encode_concat(first, second.drop_last());
    }
}

} // verus!
