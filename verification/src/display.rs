use vstd::prelude::*;
use crate::codes::count_byte;

verus! {

/// The byte that announces that the next display byte is a graphics symbol.
pub const GRAPH_SHIFT: u8 = 0x01;

/// The character shown for a display byte that has no glyph of its own
/// (the ideographic space).
pub const PLACEHOLDER: char = '\u{3000}';

/// The upper half of the display character set: card suits, hiragana,
/// punctuation and katakana. Bytes without a glyph show as the placeholder.
pub open spec fn kana_char(b: u8) -> char {
    match b {
        0x80 => '\u{2660}',
        0x81 => '\u{2665}',
        0x82 => '\u{2663}',
        0x83 => '\u{2666}',
        0x84 => '\u{25CB}',
        0x85 => '\u{25CF}',
        0x86 => 'を',
        0x87 => 'ぁ',
        0x88 => 'ぃ',
        0x89 => 'ぅ',
        0x8A => 'ぇ',
        0x8B => 'ぉ',
        0x8C => 'ゃ',
        0x8D => 'ゅ',
        0x8E => 'ょ',
        0x8F => 'っ',
        0x90 => PLACEHOLDER,
        0x91 => 'あ',
        0x92 => 'い',
        0x93 => 'う',
        0x94 => 'え',
        0x95 => 'お',
        0x96 => 'か',
        0x97 => 'き',
        0x98 => 'く',
        0x99 => 'け',
        0x9A => 'こ',
        0x9B => 'さ',
        0x9C => 'し',
        0x9D => 'す',
        0x9E => 'せ',
        0x9F => 'そ',
        0xA0 => PLACEHOLDER,
        0xA1 => '。',
        0xA2 => '「',
        0xA3 => '」',
        0xA4 => '、',
        0xA5 => '・',
        0xA6 => 'ヲ',
        0xA7 => 'ァ',
        0xA8 => 'ィ',
        0xA9 => 'ゥ',
        0xAA => 'ェ',
        0xAB => 'ォ',
        0xAC => 'ャ',
        0xAD => 'ュ',
        0xAE => 'ョ',
        0xAF => 'ッ',
        0xB0 => 'ー',
        0xB1 => 'ア',
        0xB2 => 'イ',
        0xB3 => 'ウ',
        0xB4 => 'エ',
        0xB5 => 'オ',
        0xB6 => 'カ',
        0xB7 => 'キ',
        0xB8 => 'ク',
        0xB9 => 'ケ',
        0xBA => 'コ',
        0xBB => 'サ',
        0xBC => 'シ',
        0xBD => 'ス',
        0xBE => 'セ',
        0xBF => 'ソ',
        0xC0 => 'タ',
        0xC1 => 'チ',
        0xC2 => 'ツ',
        0xC3 => 'テ',
        0xC4 => 'ト',
        0xC5 => 'ナ',
        0xC6 => 'ニ',
        0xC7 => 'ヌ',
        0xC8 => 'ネ',
        0xC9 => 'ノ',
        0xCA => 'ハ',
        0xCB => 'ヒ',
        0xCC => 'フ',
        0xCD => 'ヘ',
        0xCE => 'ホ',
        0xCF => 'マ',
        0xD0 => 'ミ',
        0xD1 => 'ム',
        0xD2 => 'メ',
        0xD3 => 'モ',
        0xD4 => 'ヤ',
        0xD5 => 'ユ',
        0xD6 => 'ヨ',
        0xD7 => 'ラ',
        0xD8 => 'リ',
        0xD9 => 'ル',
        0xDA => 'レ',
        0xDB => 'ロ',
        0xDC => 'ワ',
        0xDD => 'ン',
        0xDE => '゛',
        0xDF => '゜',
        0xE0 => 'た',
        0xE1 => 'ち',
        0xE2 => 'つ',
        0xE3 => 'て',
        0xE4 => 'と',
        0xE5 => 'な',
        0xE6 => 'に',
        0xE7 => 'ぬ',
        0xE8 => 'ね',
        0xE9 => 'の',
        0xEA => 'は',
        0xEB => 'ひ',
        0xEC => 'ふ',
        0xED => 'へ',
        0xEE => 'ほ',
        0xEF => 'ま',
        0xF0 => 'み',
        0xF1 => 'む',
        0xF2 => 'め',
        0xF3 => 'も',
        0xF4 => 'や',
        0xF5 => 'ゆ',
        0xF6 => 'よ',
        0xF7 => 'ら',
        0xF8 => 'り',
        0xF9 => 'る',
        0xFA => 'れ',
        0xFB => 'ろ',
        0xFC => 'わ',
        0xFD => 'ん',
        0xFE => PLACEHOLDER,
        0xFF => '■',
        _ => PLACEHOLDER,
    }
}

/// The symbols that the bytes 0x40 to 0x5F select after a graphics shift:
/// weekday and counter kanji and box-drawing glyphs.
pub open spec fn graph_symbol(b: u8) -> char {
    match b {
        0x40 => PLACEHOLDER,
        0x41 => '月',
        0x42 => '火',
        0x43 => '水',
        0x44 => '木',
        0x45 => '金',
        0x46 => '土',
        0x47 => '日',
        0x48 => '年',
        0x49 => '円',
        0x4A => '時',
        0x4B => '分',
        0x4C => '秒',
        0x4D => '百',
        0x4E => '千',
        0x4F => '万',
        0x50 => 'π',
        0x51 => '┻',
        0x52 => '┳',
        0x53 => '┫',
        0x54 => '┣',
        0x55 => '╋',
        0x56 => '┃',
        0x57 => '━',
        0x58 => '┏',
        0x59 => '┓',
        0x5A => '┗',
        0x5B => '┛',
        0x5C => '\u{2573}',
        0x5D => '大',
        0x5E => '中',
        0x5F => '小',
        _ => PLACEHOLDER,
    }
}

/// The base display table. Control codes and printable ASCII stand for
/// themselves, 0x7F shows as a blank, and the upper half is `kana_char`.
pub open spec fn base_char(b: u8) -> char {
    if b < 0x7F {
        b as char
    } else if b == 0x7F {
        ' '
    } else {
        kana_char(b)
    }
}

/// The graphics table, consulted for the byte that follows a graphics shift.
/// It differs from the base table in the range 0x40 to 0x5F only.
pub open spec fn graph_char(b: u8) -> char {
    if 0x40 <= b <= 0x5F {
        graph_symbol(b)
    } else {
        base_char(b)
    }
}

/// Whether a graphics shift is waiting for its byte once `bytes` were read.
pub open spec fn shift_pending(bytes: Seq<u8>) -> bool {
    bytes.len() > 0 && bytes.last() == GRAPH_SHIFT
}

/// The text that a stream of display bytes shows. A shift byte shows nothing;
/// the byte after a shift is looked up in the graphics table, every other byte
/// in the base table.
pub open spec fn display_text(bytes: Seq<u8>) -> Seq<char>
    decreases bytes.len(),
{
    if bytes.len() == 0 {
        Seq::empty()
    } else {
        let shown = display_text(bytes.drop_last());
        let b = bytes.last();
        if b == GRAPH_SHIFT {
            shown
        } else if shift_pending(bytes.drop_last()) {
            shown.push(graph_char(b))
        } else {
            shown.push(base_char(b))
        }
    }
}

fn kana_lookup(b: u8) -> (c: char)
    ensures
        c == kana_char(b),
{
    match b {
        0x80 => '\u{2660}',
        0x81 => '\u{2665}',
        0x82 => '\u{2663}',
        0x83 => '\u{2666}',
        0x84 => '\u{25CB}',
        0x85 => '\u{25CF}',
        0x86 => 'を',
        0x87 => 'ぁ',
        0x88 => 'ぃ',
        0x89 => 'ぅ',
        0x8A => 'ぇ',
        0x8B => 'ぉ',
        0x8C => 'ゃ',
        0x8D => 'ゅ',
        0x8E => 'ょ',
        0x8F => 'っ',
        0x90 => PLACEHOLDER,
        0x91 => 'あ',
        0x92 => 'い',
        0x93 => 'う',
        0x94 => 'え',
        0x95 => 'お',
        0x96 => 'か',
        0x97 => 'き',
        0x98 => 'く',
        0x99 => 'け',
        0x9A => 'こ',
        0x9B => 'さ',
        0x9C => 'し',
        0x9D => 'す',
        0x9E => 'せ',
        0x9F => 'そ',
        0xA0 => PLACEHOLDER,
        0xA1 => '。',
        0xA2 => '「',
        0xA3 => '」',
        0xA4 => '、',
        0xA5 => '・',
        0xA6 => 'ヲ',
        0xA7 => 'ァ',
        0xA8 => 'ィ',
        0xA9 => 'ゥ',
        0xAA => 'ェ',
        0xAB => 'ォ',
        0xAC => 'ャ',
        0xAD => 'ュ',
        0xAE => 'ョ',
        0xAF => 'ッ',
        0xB0 => 'ー',
        0xB1 => 'ア',
        0xB2 => 'イ',
        0xB3 => 'ウ',
        0xB4 => 'エ',
        0xB5 => 'オ',
        0xB6 => 'カ',
        0xB7 => 'キ',
        0xB8 => 'ク',
        0xB9 => 'ケ',
        0xBA => 'コ',
        0xBB => 'サ',
        0xBC => 'シ',
        0xBD => 'ス',
        0xBE => 'セ',
        0xBF => 'ソ',
        0xC0 => 'タ',
        0xC1 => 'チ',
        0xC2 => 'ツ',
        0xC3 => 'テ',
        0xC4 => 'ト',
        0xC5 => 'ナ',
        0xC6 => 'ニ',
        0xC7 => 'ヌ',
        0xC8 => 'ネ',
        0xC9 => 'ノ',
        0xCA => 'ハ',
        0xCB => 'ヒ',
        0xCC => 'フ',
        0xCD => 'ヘ',
        0xCE => 'ホ',
        0xCF => 'マ',
        0xD0 => 'ミ',
        0xD1 => 'ム',
        0xD2 => 'メ',
        0xD3 => 'モ',
        0xD4 => 'ヤ',
        0xD5 => 'ユ',
        0xD6 => 'ヨ',
        0xD7 => 'ラ',
        0xD8 => 'リ',
        0xD9 => 'ル',
        0xDA => 'レ',
        0xDB => 'ロ',
        0xDC => 'ワ',
        0xDD => 'ン',
        0xDE => '゛',
        0xDF => '゜',
        0xE0 => 'た',
        0xE1 => 'ち',
        0xE2 => 'つ',
        0xE3 => 'て',
        0xE4 => 'と',
        0xE5 => 'な',
        0xE6 => 'に',
        0xE7 => 'ぬ',
        0xE8 => 'ね',
        0xE9 => 'の',
        0xEA => 'は',
        0xEB => 'ひ',
        0xEC => 'ふ',
        0xED => 'へ',
        0xEE => 'ほ',
        0xEF => 'ま',
        0xF0 => 'み',
        0xF1 => 'む',
        0xF2 => 'め',
        0xF3 => 'も',
        0xF4 => 'や',
        0xF5 => 'ゆ',
        0xF6 => 'よ',
        0xF7 => 'ら',
        0xF8 => 'り',
        0xF9 => 'る',
        0xFA => 'れ',
        0xFB => 'ろ',
        0xFC => 'わ',
        0xFD => 'ん',
        0xFE => PLACEHOLDER,
        0xFF => '■',
        _ => PLACEHOLDER,
    }
}

fn graph_symbol_lookup(b: u8) -> (c: char)
    ensures
        c == graph_symbol(b),
{
    match b {
        0x40 => PLACEHOLDER,
        0x41 => '月',
        0x42 => '火',
        0x43 => '水',
        0x44 => '木',
        0x45 => '金',
        0x46 => '土',
        0x47 => '日',
        0x48 => '年',
        0x49 => '円',
        0x4A => '時',
        0x4B => '分',
        0x4C => '秒',
        0x4D => '百',
        0x4E => '千',
        0x4F => '万',
        0x50 => 'π',
        0x51 => '┻',
        0x52 => '┳',
        0x53 => '┫',
        0x54 => '┣',
        0x55 => '╋',
        0x56 => '┃',
        0x57 => '━',
        0x58 => '┏',
        0x59 => '┓',
        0x5A => '┗',
        0x5B => '┛',
        0x5C => '\u{2573}',
        0x5D => '大',
        0x5E => '中',
        0x5F => '小',
        _ => PLACEHOLDER,
    }
}

/// Looks a byte up in the base display table.
pub fn base_lookup(b: u8) -> (c: char)
    ensures
        c == base_char(b),
{
    if b < 0x7F {
        b as char
    } else if b == 0x7F {
        ' '
    } else {
        kana_lookup(b)
    }
}

/// Looks a byte up in the graphics table.
pub fn graph_lookup(b: u8) -> (c: char)
    ensures
        c == graph_char(b),
{
    if 0x40 <= b && b <= 0x5F {
        graph_symbol_lookup(b)
    } else {
        base_lookup(b)
    }
}

/// Decodes bytes received from the device into the text they display.
pub fn msx_ascii_to_string(uv: Vec<u8>) -> (cv: String)
    ensures
        cv@ == display_text(uv@),
{
    let mut graph = false;
    let mut cv = String::new();
    let mut i: usize = 0;
    while i < uv.len()
        invariant
            i <= uv.len(),
            cv@ == display_text(uv@.take(i as int)),
            graph == shift_pending(uv@.take(i as int)),
        decreases uv.len() - i,
    {
        let u = uv[i];
        proof {
            assert(uv@.take(i + 1).drop_last() == uv@.take(i as int));
        }
        if u == GRAPH_SHIFT {
            graph = true;
        } else if graph {
            cv.push(graph_lookup(u));
            graph = false;
        } else {
            cv.push(base_lookup(u));
        }
        i += 1;
    }
    proof {
        assert(uv@.take(uv.len() as int) == uv@);
    }
    cv
}

/// A shift byte at the very end of the input has no byte to apply to and
/// shows nothing.
pub proof fn lemma_dangling_shift(bytes: Seq<u8>)
    ensures
        display_text(bytes.push(GRAPH_SHIFT)) == display_text(bytes),
{
    assert(bytes.push(GRAPH_SHIFT).drop_last() == bytes);
}

/// Every byte but the shift shows exactly one character, whatever the bytes
/// are: the text has as many characters as there are bytes other than shifts.
pub proof fn lemma_display_length(bytes: Seq<u8>)
    ensures
        display_text(bytes).len() == bytes.len() - count_byte(bytes, GRAPH_SHIFT),
    decreases bytes.len(),
{
    if bytes.len() > 0 {
        lemma_display_length(bytes.drop_last());
    }
}

} // verus!
