use msxterm::codes::Codes;
use msxterm::display::{base_lookup, graph_lookup, msx_ascii_to_string};
use msxterm::faces::{faces_code_of, str_to_faces_code, FacesCode, U_CAPS, U_KANA};
use msxterm::hex::dump_hex;
use msxterm::kanji::{msx_kanji_to_string, utf8_to_msx_kanji};
use msxterm::native::{native_code_of, utf8_msx_jp_code, MsxCode};

#[test]
fn msx_asci_test() {
    let uv: Vec<u8> = vec![0x41, 0x51, 0x61, 0x71, 0x80, 0x81, 0x82, 0x83, 0x84, 0x85];
    let s = msx_ascii_to_string(uv);
    println!("{}", s);
    assert!(s == "AQaq♠♥♣♦○●");
}

#[test]
fn msx_kanji_test() {
    let uv: Vec<u8> = vec![0x82, 0x6c, 0x82, 0x72, 0x82, 0x77, 0x82, 0xcc, 0x8a, 0xbf, 0x8e, 0x9a];
    let s = msx_kanji_to_string(uv);
    println!("{}", s);
    assert_eq!(s, "ＭＳＸの漢字");
}

#[test]
fn test_str_to_faces_code() {
    let v = str_to_faces_code("Helloこんにちは・ぇねを・。!%?`{|}~");
    let s = dump_hex(v);
    println!("{}", s);
    assert!(
        s == "48 65 6C 6C 6F F3 42 59 49 41 46 20 35 3B 36 20 3E F3 20 20 20 20 20 20 20 20 "
    );

    let v = str_to_faces_code("ワタシはもうMSX0をてにいれました");
    let s = dump_hex(v);
    println!("{}", s);
    assert!(s == "F3 F2 30 51 44 F2 46 4D 34 F3 4D 53 58 30 F3 36 57 49 65 2B 4A 44 51 F3 ");
}

#[test]
fn test_str_to_msx_code() {
    let v = utf8_msx_jp_code("Helloこんにちは・ぇねを・。!%?`{|}~");
    let s = dump_hex(v);
    println!("{}", s);
    assert!(s == "48 65 6C 6C 6F 9A FD E6 E1 EA A5 8A E8 86 A5 A1 21 25 3F 60 7B 7C 7D 7E ");

    let v = utf8_msx_jp_code("ワタシはもうMSX0をてにいれました");
    let s = dump_hex(v);
    println!("{}", s);
    assert!(s == "DC C0 BC EA F3 93 4D 53 58 30 86 E3 E6 92 FA EF 9C E0 ");
}

#[test]
fn kanji_text_is_encoded_in_shift_jis() {
    let bytes = utf8_to_msx_kanji("ＭＳＸの漢字");
    assert_eq!(
        bytes,
        vec![0x82, 0x6c, 0x82, 0x72, 0x82, 0x77, 0x82, 0xcc, 0x8a, 0xbf, 0x8e, 0x9a]
    );
    assert_eq!(utf8_to_msx_kanji("MSX"), vec![0x4d, 0x53, 0x58]);
    assert_eq!(msx_kanji_to_string(vec![0x4d, 0x53, 0x58]), "MSX");
    assert_eq!(msx_kanji_to_string(Vec::new()), "");
}

#[test]
fn display_decodes_the_empty_stream() {
    assert_eq!(msx_ascii_to_string(Vec::new()), "");
}

#[test]
fn display_control_codes_stand_for_themselves() {
    assert_eq!(msx_ascii_to_string(vec![0x00, 0x07, 0x0D, 0x0A, 0x1F]), "\u{0}\u{7}\r\n\u{1f}");
}

#[test]
fn display_printable_ascii_stands_for_itself() {
    let bytes: Vec<u8> = (0x20u8..=0x7E).collect();
    let expected: String = (0x20u8..=0x7E).map(|b| b as char).collect();
    assert_eq!(msx_ascii_to_string(bytes), expected);
}

#[test]
fn display_shows_delete_as_blank() {
    assert_eq!(msx_ascii_to_string(vec![0x7F]), " ");
    assert_eq!(base_lookup(0x7F), ' ');
    assert_eq!(graph_lookup(0x7F), ' ');
}

#[test]
fn display_shows_bytes_without_glyph_as_ideographic_space() {
    assert_eq!(msx_ascii_to_string(vec![0x90, 0xA0, 0xFE]), "\u{3000}\u{3000}\u{3000}");
}

#[test]
fn display_shows_kana() {
    assert_eq!(
        msx_ascii_to_string(vec![0x86, 0x91, 0x9F, 0xA1, 0xA6, 0xB0, 0xB1, 0xDD, 0xDE, 0xDF, 0xE0, 0xFD, 0xFF]),
        "をあそ。ヲーアン゛゜たん■"
    );
}

#[test]
fn display_graphics_shift_selects_the_graphics_table() {
    assert_eq!(msx_ascii_to_string(vec![0x01, 0x41]), "月");
    assert_eq!(msx_ascii_to_string(vec![0x01, 0x40, 0x01, 0x50, 0x01, 0x5C, 0x01, 0x5F]), "\u{3000}π\u{2573}小");
    assert_eq!(msx_ascii_to_string(vec![0x41, 0x01, 0x41, 0x41]), "A月A");
    assert_eq!(msx_ascii_to_string(vec![0x01, 0x61, 0x01, 0x86]), "aを");
    assert_eq!(graph_lookup(0x57), '━');
    assert_eq!(base_lookup(0x57), 'W');
}

#[test]
fn display_repeated_shift_is_one_shift() {
    assert_eq!(msx_ascii_to_string(vec![0x01, 0x01, 0x42]), "火");
}

#[test]
fn display_dangling_shift_shows_nothing() {
    assert_eq!(msx_ascii_to_string(vec![0x01]), "");
    assert_eq!(msx_ascii_to_string(vec![0x41, 0x42, 0x01]), "AB");
    assert_eq!(
        msx_ascii_to_string(vec![0x41, 0x80, 0x01]),
        msx_ascii_to_string(vec![0x41, 0x80])
    );
}

#[test]
fn display_is_total_over_all_bytes() {
    let all: Vec<u8> = (0u8..=255).collect();
    let shown = msx_ascii_to_string(all);
    assert_eq!(shown.chars().count(), 255);
    for b in 0u8..=255 {
        let one = msx_ascii_to_string(vec![b]);
        assert_eq!(one.chars().count(), if b == 1 { 0 } else { 1 });
        let after_shift = msx_ascii_to_string(vec![1, b]);
        assert_eq!(after_shift.chars().count(), if b == 1 { 0 } else { 1 });
    }
}

#[test]
fn native_round_trip_on_printable_ascii() {
    let text: String = (0x20u8..=0x7E).map(|b| b as char).collect();
    assert_eq!(msx_ascii_to_string(utf8_msx_jp_code(&text)), text);
    let line = "10 PRINT \"HELLO, WORLD!\":GOTO 10";
    assert_eq!(msx_ascii_to_string(utf8_msx_jp_code(line)), line);
    assert_eq!(msx_ascii_to_string(utf8_msx_jp_code("")), "");
}

#[test]
fn native_round_trip_on_kana_and_symbols() {
    let text = "あいうえおアイウエオ。「」、・♠♥♣♦○●月火水木金土日";
    assert_eq!(msx_ascii_to_string(utf8_msx_jp_code(text)), text);
}

#[test]
fn native_graphics_symbols_follow_the_shift() {
    assert_eq!(utf8_msx_jp_code("月"), vec![0x01, 0x41]);
    assert_eq!(utf8_msx_jp_code("π小"), vec![0x01, 0x50, 0x01, 0x5F]);
    assert_eq!(native_code_of('╋'), Some(MsxCode::Graph(0x55)));
}

#[test]
fn native_card_suits_take_one_byte() {
    assert_eq!(utf8_msx_jp_code("♠♥♣♦○●"), vec![0x80, 0x81, 0x82, 0x83, 0x84, 0x85]);
    assert_eq!(native_code_of('♠'), Some(MsxCode::Ascii(0x80)));
}

#[test]
fn native_voiced_kana_take_two_bytes() {
    assert_eq!(utf8_msx_jp_code("が"), vec![0x96, 0xDE]);
    assert_eq!(utf8_msx_jp_code("ぱ"), vec![0xEA, 0xDF]);
    assert_eq!(utf8_msx_jp_code("ガポ"), vec![0xB6, 0xDE, 0xCE, 0xDF]);
    assert_eq!(native_code_of('ど'), Some(MsxCode::Kana(Codes::Two(0xE4, 0xDE))));
    assert_eq!(native_code_of('あ'), Some(MsxCode::Kana(Codes::One(0x91))));
}

#[test]
fn native_drops_characters_without_code() {
    assert_eq!(utf8_msx_jp_code("漢字"), Vec::<u8>::new());
    assert_eq!(utf8_msx_jp_code("A漢B"), vec![0x41, 0x42]);
    assert_eq!(utf8_msx_jp_code("é"), Vec::<u8>::new());
    assert_eq!(native_code_of('漢'), None);
    assert_eq!(utf8_msx_jp_code(""), Vec::<u8>::new());
}

#[test]
fn native_ascii_passes_through() {
    assert_eq!(utf8_msx_jp_code("@[]^"), vec![0x40, 0x5B, 0x5D, 0x5E]);
    assert_eq!(utf8_msx_jp_code("\r\n\u{7f}"), vec![0x0D, 0x0A, 0x7F]);
    assert_eq!(native_code_of('A'), Some(MsxCode::Ascii(0x41)));
}

#[test]
fn native_full_width_space_is_a_blank() {
    assert_eq!(utf8_msx_jp_code("\u{3000}"), vec![0x20]);
}

#[test]
fn faces_empty_text_sends_nothing() {
    assert_eq!(str_to_faces_code(""), Vec::<u8>::new());
}

#[test]
fn faces_plain_text_needs_no_marker() {
    assert_eq!(str_to_faces_code("MSX0"), vec![0x4D, 0x53, 0x58, 0x30]);
    assert_eq!(str_to_faces_code("\r"), vec![0x0D]);
}

#[test]
fn faces_keys_that_cannot_be_typed_give_a_blank() {
    assert_eq!(str_to_faces_code("!%?`{|}~"), vec![0x20; 8]);
}

#[test]
fn faces_keys_on_another_key() {
    assert_eq!(str_to_faces_code("@[]^"), vec![0xC0, 0xDB, 0xDD, 0xDE]);
    assert_eq!(faces_code_of('@'), Some(FacesCode::Ascii(0xC0)));
}

#[test]
fn faces_hiragana_opens_and_closes_kana() {
    assert_eq!(str_to_faces_code("あ"), vec![U_KANA, 0x33, U_KANA]);
    assert_eq!(str_to_faces_code("あい"), vec![U_KANA, 0x33, 0x65, U_KANA]);
    assert_eq!(faces_code_of('あ'), Some(FacesCode::Hiragana(Codes::One(0x33))));
}

#[test]
fn faces_katakana_opens_kana_then_caps() {
    assert_eq!(str_to_faces_code("ア"), vec![U_KANA, U_CAPS, 0x33, U_KANA, U_CAPS]);
    assert_eq!(faces_code_of('ア'), Some(FacesCode::Katakana(Codes::One(0x33))));
}

#[test]
fn faces_switches_between_the_layouts() {
    assert_eq!(str_to_faces_code("アあ"), vec![U_KANA, U_CAPS, 0x33, U_CAPS, 0x33, U_KANA]);
    assert_eq!(str_to_faces_code("あア"), vec![U_KANA, 0x33, U_CAPS, 0x33, U_KANA, U_CAPS]);
    assert_eq!(str_to_faces_code("アA"), vec![U_KANA, U_CAPS, 0x33, U_KANA, U_CAPS, 0x41]);
    assert_eq!(str_to_faces_code("AあA"), vec![0x41, U_KANA, 0x33, U_KANA, 0x41]);
}

#[test]
fn faces_voiced_kana_take_two_keys() {
    assert_eq!(str_to_faces_code("が"), vec![U_KANA, 0x54, 0xC0, U_KANA]);
    assert_eq!(str_to_faces_code("パ"), vec![U_KANA, U_CAPS, 0x46, 0xDB, U_KANA, U_CAPS]);
    assert_eq!(faces_code_of('ぽ'), Some(FacesCode::Hiragana(Codes::Two(0x2D, 0xDB))));
}

#[test]
fn faces_characters_without_key_change_nothing() {
    assert_eq!(str_to_faces_code("漢"), Vec::<u8>::new());
    assert_eq!(str_to_faces_code("あ漢い"), vec![U_KANA, 0x33, 0x65, U_KANA]);
    assert_eq!(str_to_faces_code("ア漢A"), vec![U_KANA, U_CAPS, 0x33, U_KANA, U_CAPS, 0x41]);
    assert_eq!(faces_code_of('漢'), None);
    assert_eq!(faces_code_of('♠'), None);
}

#[test]
fn faces_small_and_large_kana_share_keys() {
    assert_eq!(faces_code_of('ぇ'), faces_code_of('え'));
    assert_eq!(faces_code_of('ね'), Some(FacesCode::Hiragana(Codes::One(0x3B))));
    assert_eq!(faces_code_of('れ'), Some(FacesCode::Hiragana(Codes::One(0x2B))));
    assert_eq!(faces_code_of('ネ'), Some(FacesCode::Katakana(Codes::One(0x3B))));
}

fn count(bytes: &[u8], b: u8) -> usize {
    bytes.iter().filter(|x| **x == b).count()
}

#[test]
fn faces_markers_are_balanced() {
    let samples = [
        "",
        "A",
        "あ",
        "ア",
        "あア",
        "アあ",
        "アあA",
        "Aあア漢♠!",
        "ワタシはもうMSX0をてにいれました",
        "Helloこんにちは・ぇねを・。!%?`{|}~",
        "ガギグゲゴぱぴぷぺぽ",
        "10 PRINT \"コンニチハ\"\r",
        "ア",
        "アアア",
        "あAあAあ",
        "ーー",
    ];
    for text in samples {
        let keys = str_to_faces_code(text);
        assert_eq!(count(&keys, U_KANA) % 2, 0, "{}", text);
        assert_eq!(count(&keys, U_CAPS) % 2, 0, "{}", text);
    }
}

#[test]
fn codes_equal_by_their_bytes() {
    assert_eq!(Codes::One(1), Codes::One(1));
    assert_ne!(Codes::One(1), Codes::Two(1, 2));
}
