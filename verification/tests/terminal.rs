use msxterm::command::{
    command_path, list_range, parse_command, read_command, Command, LAST_LISTED,
};
use msxterm::hex::{dump_hex, hex2u8};
use msxterm::lower::{lines_of, lower_line, lower_program};
use msxterm::program::Msxterm;
use msxterm::session::{
    dump_mode_after, ModeChange, show_received, signal_byte, split_input, take_received, Signal, U_BREAK, U_BS,
};

#[test]
fn test_dump_hex() {
    let uv: Vec<u8> = [0x41, 0x51, 0x61, 0x71, 0x80, 0x81, 0x8A, 0xB3, 0xC4, 0x55].to_vec();
    let s = dump_hex(uv);
    println!("{}", s);
    assert!(s == "41 51 61 71 80 81 8A B3 C4 55 ");
}

#[test]
fn test_hex() {
    let s = "#HEX 40 41 42 43 44";
    let v = hex2u8(s);
    println!("{:?}", v);
}

#[test]
fn test_msxterm() {
    let mut mt = Msxterm::new();
    mt.init();

    let basfile = vec![
        "1000 print 10 + 20".to_string(),
        "100 cls".to_string(),
        "1010 goto 1000".to_string(),
        "20010 gosub 1000".to_string(),
    ];
    for s in basfile {
        mt.parse_basic(&s);
    }
    mt.print_basic(0, 65530);

    let (st, ed) = parse_command("#list 10-20");
    println!("list {}-{}", st.unwrap_or(0), ed.unwrap_or(65530));

    let (st, ed) = parse_command("#list 40-");
    println!("list {}-{}", st.unwrap_or(0), ed.unwrap_or(65530));

    let (st, ed) = parse_command("#list -50");
    println!("list {}-{}", st.unwrap_or(0), ed.unwrap_or(65530));

    let (st, ed) = parse_command("#list 50");
    println!("list {}-{}", st.unwrap_or(0), ed.unwrap_or(65530));
}

#[test]
fn test_lower_program() {
    let text = "input text \"PrintHello\"
                        REM Akio Setsumasa
                        Print A$ + B$
                        REM This Program is Free
                      END";
    println!("{}", text);
    let result = lower_program(text);
    println!("{}", result);
}

#[test]
fn dump_of_nothing_is_empty() {
    assert_eq!(dump_hex(Vec::new()), "");
}

#[test]
fn dump_pads_with_zero_and_uses_upper_case() {
    assert_eq!(dump_hex(vec![0x00, 0x0A, 0xFF, 0x10]), "00 0A FF 10 ");
}

#[test]
fn hex_line_gives_its_bytes() {
    assert_eq!(hex2u8("#HEX 40 41 42 43 44"), vec![0x40, 0x41, 0x42, 0x43, 0x44]);
    assert_eq!(hex2u8("#hex ff FF 0 00a +7"), vec![0xFF, 0xFF, 0x00, 0x0A, 0x07]);
}

#[test]
fn hex_line_passes_over_what_is_no_byte() {
    assert_eq!(hex2u8("#hex 1 100 zz  -1 0x10 + 2"), vec![0x01, 0x02]);
    assert_eq!(hex2u8("#hex"), Vec::<u8>::new());
    assert_eq!(hex2u8(""), Vec::<u8>::new());
    assert_eq!(hex2u8("41 42"), vec![0x42]);
}

#[test]
fn lower_program_expected_value() {
    let text = "input text \"PrintHello\"
                        REM Akio Setsumasa
                        Print A$ + B$
                        REM This Program is Free
                      END";
    assert_eq!(
        lower_program(text),
        "input text \"PrintHello\"\rREM Akio Setsumasa\rprint a$ + b$\rREM This Program is Free\rend\r"
    );
}

#[test]
fn lower_program_lowers_outside_quotes() {
    assert_eq!(lower_program("ABC"), "abc\r");
    assert_eq!(lower_program("10 PRINT \"Hello\";A$"), "10 print \"Hello\";a$\r");
    assert_eq!(lower_program("A\"B\"C\"D"), "a\"B\"c\"D\r");
    assert_eq!(lower_program("ÀÉ Ω"), "àé ω\r");
}

#[test]
fn lower_program_keeps_remarks() {
    assert_eq!(lower_program("REM Hello"), "REM Hello\r");
    assert_eq!(lower_program("Rem \"X\" Y"), "Rem \"X\" Y\r");
    assert_eq!(lower_program("  REMark  "), "REMark\r");
    assert_eq!(lower_program("10 REM Hello"), "10 rem hello\r");
    assert_eq!(lower_program("\"REM\""), "\"REM\"\r");
}

#[test]
fn lower_program_quotation_ends_with_its_line() {
    assert_eq!(lower_program("A\"B\nC"), "a\"B\rc\r");
}

#[test]
fn lower_program_lines_and_ends() {
    assert_eq!(lower_program(""), "");
    assert_eq!(lower_program("\n"), "\r");
    assert_eq!(lower_program("A\nB\n"), "a\rb\r");
    assert_eq!(lower_program("A\r\nB"), "a\rb\r");
    assert_eq!(lower_program("A\n\nB"), "a\r\rb\r");
    assert_eq!(lower_program("A\rB\r"), "a\rb\r");
    assert_eq!(lower_program("LIST\r"), "list\r");
}

fn chars(s: &str) -> Vec<char> {
    s.chars().collect()
}

#[test]
fn lines_of_follows_line_feeds() {
    assert_eq!(lines_of(&chars("")), Vec::<Vec<char>>::new());
    assert_eq!(lines_of(&chars("a")), vec![chars("a")]);
    assert_eq!(lines_of(&chars("a\n")), vec![chars("a")]);
    assert_eq!(lines_of(&chars("a\r\nb\r")), vec![chars("a"), chars("b\r")]);
    assert_eq!(lines_of(&chars("\n\n")), vec![chars(""), chars("")]);
    assert_eq!(lines_of(&chars("a\r\r\n")), vec![chars("a\r")]);
}

#[test]
fn lower_line_takes_the_given_lower_case() {
    assert_eq!(lower_line(&chars("AB\"CD\"E"), &chars("ab\"cd\"e")), chars("ab\"CD\"e\r"));
    assert_eq!(lower_line(&chars("REM X"), &chars("rem x")), chars("REM X\r"));
    assert_eq!(lower_line(&chars("ABC"), &chars("xyz")), chars("xyz\r"));
    assert_eq!(lower_line(&chars(""), &chars("")), chars("\r"));
}

#[test]
fn new_session_is_empty() {
    let mt = Msxterm::new();
    assert!(!mt.dump_mode());
    assert!(mt.lower_mode());
    assert_eq!(mt.print_basic(0, 65535), Vec::<String>::new());
    assert_eq!(mt.display_basic(0, 65535), Vec::<String>::new());
    assert_eq!(mt.save_program(), "");
}

#[test]
fn modes_are_switched() {
    let mut mt = Msxterm::new();
    mt.set_dump_mode(true);
    mt.set_lower_mode(false);
    assert!(mt.dump_mode());
    assert!(!mt.lower_mode());
    mt.set_dump_mode(false);
    mt.set_lower_mode(true);
    assert!(!mt.dump_mode());
    assert!(mt.lower_mode());
}

#[test]
fn set_line_with_empty_content_removes_the_line() {
    let mut mt = Msxterm::new();
    mt.set_line(100, "PRINT 1");
    assert_eq!(mt.line(100), Some(&"PRINT 1".to_string()));
    mt.set_line(100, "");
    assert_eq!(mt.line(100), None);
    assert_eq!(mt.print_basic(0, 65535), Vec::<String>::new());
}

#[test]
fn set_line_overwrites() {
    let mut mt = Msxterm::new();
    mt.set_line(10, "A");
    mt.set_line(10, "B");
    assert_eq!(mt.print_basic(0, 65535), vec!["10 B".to_string()]);
}

#[test]
fn delete_line_of_absent_number_changes_nothing() {
    let mut mt = Msxterm::new();
    mt.set_line(10, "A");
    mt.delete_line(20);
    assert_eq!(mt.print_basic(0, 65535), vec!["10 A".to_string()]);
    mt.delete_line(10);
    assert_eq!(mt.print_basic(0, 65535), Vec::<String>::new());
}

#[test]
fn listing_is_in_ascending_order() {
    let mut mt = Msxterm::new();
    mt.set_line(10, "ten");
    mt.set_line(5, "five");
    mt.set_line(20, "twenty");
    assert_eq!(
        mt.print_basic(0, 65535),
        vec!["5 five".to_string(), "10 ten".to_string(), "20 twenty".to_string()]
    );
}

#[test]
fn listing_takes_both_ends_of_the_range() {
    let mut mt = Msxterm::new();
    for n in [0u16, 5, 10, 20, 65535] {
        mt.set_line(n, "x");
    }
    assert_eq!(mt.print_basic(5, 20), vec!["5 x".to_string(), "10 x".to_string(), "20 x".to_string()]);
    assert_eq!(mt.print_basic(6, 19), vec!["10 x".to_string()]);
    assert_eq!(mt.print_basic(10, 10), vec!["10 x".to_string()]);
    assert_eq!(mt.print_basic(11, 19), Vec::<String>::new());
    assert_eq!(mt.print_basic(20, 5), Vec::<String>::new());
    assert_eq!(mt.print_basic(0, 65535).len(), 5);
    assert_eq!(mt.print_basic(0, 0), vec!["0 x".to_string()]);
    assert_eq!(mt.print_basic(65535, 65535), vec!["65535 x".to_string()]);
}

#[test]
fn display_aligns_the_numbers_to_the_widest() {
    let mut mt = Msxterm::new();
    mt.set_line(5, "five");
    mt.set_line(100, "hundred");
    mt.set_line(20010, "far");
    assert_eq!(
        mt.display_basic(0, 65535),
        vec![
            "    \x1b[36m5\x1b[0m five".to_string(),
            "  \x1b[36m100\x1b[0m hundred".to_string(),
            "\x1b[36m20010\x1b[0m far".to_string(),
        ]
    );
    assert_eq!(mt.display_basic(0, 10), vec!["    \x1b[36m5\x1b[0m five".to_string()]);
    mt.delete_line(20010);
    assert_eq!(mt.display_basic(0, 10), vec!["  \x1b[36m5\x1b[0m five".to_string()]);
}

#[test]
fn saved_program_has_a_line_feed_after_each_line() {
    let mut mt = Msxterm::new();
    mt.set_line(20, "GOTO 10");
    mt.set_line(10, "PRINT \"A\"");
    assert_eq!(mt.save_program(), "10 PRINT \"A\"\n20 GOTO 10\n");
}

#[test]
fn parse_basic_stores_numbered_lines() {
    let mut mt = Msxterm::new();
    mt.parse_basic("1000 print 10 + 20");
    mt.parse_basic("100 cls");
    mt.parse_basic("1010 goto 1000");
    mt.parse_basic("20010 gosub 1000");
    assert_eq!(
        mt.print_basic(0, 65530),
        vec![
            "100 cls".to_string(),
            "1000 print 10 + 20".to_string(),
            "1010 goto 1000".to_string(),
            "20010 gosub 1000".to_string(),
        ]
    );
    mt.parse_basic("100");
    mt.parse_basic("#list");
    assert_eq!(mt.print_basic(0, 999), Vec::<String>::new());
    mt.parse_basic("1010 for i=0 to 100");
    assert_eq!(mt.print_basic(1010, 1010), vec!["1010 for i=0 to 100".to_string()]);
    assert_eq!(mt.print_basic(2000, 65530), vec!["20010 gosub 1000".to_string()]);
}

#[test]
fn parse_basic_trims_the_content() {
    let mut mt = Msxterm::new();
    mt.parse_basic("10   PRINT 1  ");
    assert_eq!(mt.line(10), Some(&"PRINT 1".to_string()));
    mt.parse_basic("+20 A");
    assert_eq!(mt.line(20), Some(&"A".to_string()));
    mt.parse_basic("0030 B");
    assert_eq!(mt.line(30), Some(&"B".to_string()));
}

#[test]
fn parse_basic_with_blank_content_removes_the_line() {
    let mut mt = Msxterm::new();
    mt.parse_basic("10 PRINT 1");
    mt.parse_basic("10 ");
    assert_eq!(mt.line(10), None);
    mt.parse_basic("20 X");
    mt.parse_basic("20    ");
    assert_eq!(mt.line(20), None);
}

#[test]
fn parse_basic_passes_over_other_lines() {
    let mut mt = Msxterm::new();
    mt.parse_basic("10 A");
    for line in ["", " 10 B", "PRINT", "65536 X", "-1 X", "1O X", "10\tB", "#new", "１０ B"] {
        mt.parse_basic(line);
    }
    assert_eq!(mt.print_basic(0, 65535), vec!["10 A".to_string()]);
    mt.parse_basic("65535 last");
    assert_eq!(mt.line(65535), Some(&"last".to_string()));
}

#[test]
fn clear_basic_empties_the_program() {
    let mut mt = Msxterm::new();
    mt.parse_basic("10 A");
    mt.parse_basic("20 B");
    mt.clear_basic();
    assert_eq!(mt.print_basic(0, 65535), Vec::<String>::new());
    assert_eq!(mt.line(10), None);
}

#[test]
fn init_may_be_repeated() {
    let mut mt = Msxterm::new();
    mt.init();
    mt.init();
    mt.parse_basic("10 A");
    assert_eq!(mt.print_basic(0, 65535), vec!["10 A".to_string()]);
}

#[test]
fn parse_command_reads_the_range() {
    assert_eq!(parse_command("#list 10-20"), (Some(10), Some(20)));
    assert_eq!(parse_command("#list 40-"), (Some(40), None));
    assert_eq!(parse_command("#list -50"), (None, Some(50)));
    assert_eq!(parse_command("#list 50"), (Some(50), None));
    assert_eq!(parse_command("#list"), (None, None));
    assert_eq!(parse_command(""), (None, None));
    assert_eq!(parse_command("  #list 1-2  "), (Some(1), Some(2)));
    assert_eq!(parse_command("#list  1-2"), (None, None));
    assert_eq!(parse_command("#list 1-2-3"), (Some(1), Some(2)));
    assert_eq!(parse_command("#list a-b"), (None, None));
    assert_eq!(parse_command("#list 65535-65536"), (Some(65535), None));
    assert_eq!(parse_command("#list 10-20 30-40"), (Some(10), Some(20)));
}

#[test]
fn list_range_fills_the_open_ends() {
    assert_eq!(LAST_LISTED, 65530);
    assert_eq!(list_range("#list"), (0, 65530));
    assert_eq!(list_range("#list 10-20"), (10, 20));
    assert_eq!(list_range("#list 40-"), (40, 65530));
    assert_eq!(list_range("#list -50"), (0, 50));
}

#[test]
fn command_path_is_the_second_word() {
    assert_eq!(command_path("#load ./src/test.bas"), Some("./src/test.bas".to_string()));
    assert_eq!(command_path("#save \"prog.bas\""), Some("prog.bas".to_string()));
    assert_eq!(command_path("#save \"\"a\"b\"\" more"), Some("a\"b".to_string()));
    assert_eq!(command_path("#save"), None);
    assert_eq!(command_path("#save "), Some("".to_string()));
    assert_eq!(command_path("#save \"\""), Some("".to_string()));
}

#[test]
fn commands_are_known_by_the_start_of_the_line() {
    assert_eq!(read_command("#quit"), Command::Quit);
    assert_eq!(read_command("#quit now"), Command::Quit);
    assert_eq!(read_command("#hex 41 42"), Command::Hex);
    assert_eq!(read_command("#dump_on"), Command::DumpOn);
    assert_eq!(read_command("#dump_off"), Command::DumpOff);
    assert_eq!(read_command("#lowsend_on"), Command::LowerOn);
    assert_eq!(read_command("#lowsend_off"), Command::LowerOff);
    assert_eq!(read_command("#clear_history"), Command::ClearHistory);
    assert_eq!(read_command("#new"), Command::New);
    assert_eq!(read_command("#load a.bas"), Command::Load);
    assert_eq!(read_command("#list 10-20"), Command::List);
    assert_eq!(read_command("#save a.bas"), Command::Save);
    assert_eq!(read_command("#newest"), Command::New);
}

#[test]
fn other_lines_are_sent() {
    assert_eq!(read_command(""), Command::Send);
    assert_eq!(read_command("10 PRINT"), Command::Send);
    assert_eq!(read_command(" #quit"), Command::Send);
    assert_eq!(read_command("#QUIT"), Command::Send);
    assert_eq!(read_command("#dump"), Command::Send);
    assert_eq!(read_command("#"), Command::Send);
}

#[test]
fn input_is_split_at_every_kind_of_line_end() {
    assert_eq!(split_input(""), vec!["".to_string()]);
    assert_eq!(split_input("LIST"), vec!["LIST".to_string()]);
    assert_eq!(split_input("a\nb"), vec!["a".to_string(), "b".to_string()]);
    assert_eq!(split_input("a\r\nb"), vec!["a".to_string(), "b".to_string()]);
    assert_eq!(split_input("a\rb"), vec!["a".to_string(), "b".to_string()]);
    assert_eq!(split_input("a\n"), vec!["a".to_string(), "".to_string()]);
    assert_eq!(
        split_input("a\r\n\nb"),
        vec!["a".to_string(), "".to_string(), "b".to_string()]
    );
    assert_eq!(
        split_input("a\r\r\nb"),
        vec!["a".to_string(), "".to_string(), "b".to_string()]
    );
}

#[test]
fn signals_send_break_and_erase() {
    assert_eq!(signal_byte(Signal::Interrupted), 0x03);
    assert_eq!(signal_byte(Signal::Eof), 0x08);
    assert_eq!(U_BREAK, 0x03);
    assert_eq!(U_BS, 0x08);
}

#[test]
fn received_bytes_are_shown_as_text_or_dump() {
    assert_eq!(show_received(false, vec![0x4F, 0x6B, 0x0D, 0x0A]), "Ok\r\n");
    assert_eq!(show_received(true, vec![0x4F, 0x6B, 0x0D, 0x0A]), "4F 6B 0D 0A ");
    assert_eq!(show_received(false, vec![0x01, 0x41]), "月");
}

#[test]
fn send_line_stores_and_encodes() {
    let mut mt = Msxterm::new();
    let keys = mt.send_line("10 PRINT \"A\"");
    assert_eq!(mt.line(10), Some(&"PRINT \"A\"".to_string()));
    assert_eq!(dump_hex(keys), "31 30 20 70 72 69 6E 74 20 22 41 22 0D ");
    mt.set_lower_mode(false);
    let keys = mt.send_line("RUN");
    assert_eq!(keys, vec![0x52, 0x55, 0x4E, 0x0D]);
    let keys = mt.send_line("アA");
    assert_eq!(keys, vec![0xF3, 0xF2, 0x33, 0xF3, 0xF2, 0x41, 0x0D]);
    let keys = mt.send_line("10");
    assert_eq!(keys, vec![0x31, 0x30, 0x0D]);
    assert_eq!(mt.line(10), None);
}

#[test]
fn load_program_stores_the_lines_and_gives_the_bytes() {
    let mut mt = Msxterm::new();
    let lines = vec!["  10 PRINT \"Hi\"  ".to_string(), "20 GOTO 10".to_string(), "".to_string()];
    let loaded = mt.load_program(&lines);
    assert_eq!(
        loaded.history,
        vec!["10 PRINT \"Hi\"".to_string(), "20 GOTO 10".to_string(), "".to_string()]
    );
    assert_eq!(loaded.bytes, "10 print \"Hi\"\r20 goto 10\r".as_bytes().to_vec());
    assert_eq!(
        mt.print_basic(0, 65535),
        vec!["10 PRINT \"Hi\"".to_string(), "20 GOTO 10".to_string()]
    );
    mt.set_lower_mode(false);
    let loaded = mt.load_program(&vec!["30 END".to_string(), "40 あ".to_string()]);
    assert_eq!(loaded.bytes, "30 END\r40 あ\r".as_bytes().to_vec());
    assert_eq!(mt.line(40), Some(&"あ".to_string()));
}

#[test]
fn received_lines_end_at_the_line_feed() {
    let mut pending: Vec<u8> = vec![0x4F, 0x6B, 0x0D, 0x0A, 0x41, 0x0A, 0x42];
    assert_eq!(take_received(&mut pending), Some(vec![0x4F, 0x6B, 0x0D, 0x0A]));
    assert_eq!(pending, vec![0x41, 0x0A, 0x42]);
    assert_eq!(take_received(&mut pending), Some(vec![0x41, 0x0A]));
    assert_eq!(pending, vec![0x42]);
    assert_eq!(take_received(&mut pending), None);
    assert_eq!(pending, vec![0x42]);
    let mut empty: Vec<u8> = Vec::new();
    assert_eq!(take_received(&mut empty), None);
    let mut only: Vec<u8> = vec![0x0A];
    assert_eq!(take_received(&mut only), Some(vec![0x0A]));
    assert_eq!(only, Vec::<u8>::new());
}

#[test]
fn mode_changes_switch_the_dump() {
    assert!(dump_mode_after(ModeChange::DumpModeOn));
    assert!(!dump_mode_after(ModeChange::DumpModeOff));
}
