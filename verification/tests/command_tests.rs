use winboat_bridge::command::{
    is_shutdown_command, parse_command, shell_invocation, Shell, COMMAND_BUFFER,
};
use winboat_bridge::text::{
    chars_of, is_whitespace, last_word_bounds, part_ends_with, second_word_bounds, trim,
    trim_bounds,
};

#[test]
fn command_is_trimmed() {
    assert_eq!(parse_command(b"  echo hello \r\n"), "echo hello");
    assert_eq!(parse_command(b"\tdir C:\\Users\n"), "dir C:\\Users");
}

#[test]
fn command_keeps_inner_space() {
    assert_eq!(parse_command(b"echo   a  b"), "echo   a  b");
}

#[test]
fn blank_command_is_empty_text() {
    assert_eq!(parse_command(b"   \n"), "");
    assert_eq!(parse_command(b""), "");
}

#[test]
fn malformed_bytes_become_replacement_characters() {
    assert_eq!(parse_command(b"a\xffb"), "a\u{fffd}b");
    assert_eq!(parse_command(b"\xff"), "\u{fffd}");
}

#[test]
fn unicode_white_space_is_trimmed() {
    // U+00A0 and U+2003 have the White_Space property.
    assert_eq!(parse_command("\u{a0}ls\u{2003}".as_bytes()), "ls");
}

#[test]
fn valid_utf8_is_decoded_as_it_is() {
    assert_eq!(parse_command("echo \u{8d8a}".as_bytes()), "echo \u{8d8a}");
}

#[test]
fn command_is_cut_at_the_buffer() {
    let mut bytes = vec![b'a'; COMMAND_BUFFER];
    bytes.extend_from_slice(b"tail");
    let line = parse_command(&bytes);
    assert_eq!(line.len(), COMMAND_BUFFER);
    assert!(line.bytes().all(|b| b == b'a'));
}

#[test]
fn command_of_buffer_size_is_kept_whole() {
    let bytes = vec![b'x'; COMMAND_BUFFER];
    assert_eq!(parse_command(&bytes).len(), COMMAND_BUFFER);
}

#[test]
fn reserved_words_in_any_case() {
    for word in ["quit", "QUIT", "Quit", "qUiT", "exit", "EXIT", "Exit", "eXIt"] {
        assert!(is_shutdown_command(word), "{}", word);
    }
}

#[test]
fn other_words_are_commands() {
    for word in ["", "q", "quit ", " quit", "quits", "exi", "exit!", "quit\n", "ls", "qu\u{131}t"] {
        assert!(!is_shutdown_command(word), "{:?}", word);
    }
}

#[test]
fn only_letter_case_is_ignored() {
    // '1' is as far below 'Q' as 'Q' is below 'q'; U+0091 is as far above 'q'.
    assert!(!is_shutdown_command("1uit"));
    assert!(!is_shutdown_command("\u{91}uit"));
    assert!(!is_shutdown_command("qu)t"));
    // Letters from beyond ASCII match no ASCII letter, whatever their case.
    assert!(!is_shutdown_command("e\u{d7}it"));
    assert!(!is_shutdown_command("ex\u{130}t"));
}

#[test]
fn reserved_word_is_found_after_trimming() {
    assert!(is_shutdown_command(&parse_command(b"  QUIT\r\n")));
    assert!(is_shutdown_command(&parse_command(b"Exit\n")));
    assert!(!is_shutdown_command(&parse_command(b"exit 1\n")));
}

#[test]
fn trim_takes_both_ends() {
    assert_eq!(trim("  a b  "), "a b");
    assert_eq!(trim("a"), "a");
    assert_eq!(trim(" \t\r\n"), "");
    assert_eq!(trim(""), "");
    assert_eq!(trim("\u{3000}x\u{85}"), "x");
}

#[test]
fn trim_agrees_with_std() {
    for s in ["", " ", "x", " x", "x ", "  x  y  ", "\n\nx\ty\n", "\u{a0}\u{1680}z\u{2028}"] {
        assert_eq!(trim(s), s.trim());
    }
}

#[test]
fn trim_bounds_are_character_positions() {
    let v: Vec<char> = " \u{e9}t\u{e9} ".chars().collect();
    assert_eq!(trim_bounds(&v), (1, 4));
    let blank: Vec<char> = "   ".chars().collect();
    let (lo, hi) = trim_bounds(&blank);
    assert_eq!(lo, hi);
}

#[test]
fn chars_of_lists_characters() {
    assert_eq!(chars_of("a\u{e9}\u{1f600}"), vec!['a', '\u{e9}', '\u{1f600}']);
    assert_eq!(chars_of(""), Vec::<char>::new());
}

#[test]
fn last_word_of_a_line() {
    let v: Vec<char> = "  TCP  0.0.0.0:5330  LISTENING  1234  ".chars().collect();
    let (lo, hi) = last_word_bounds(&v, 0, v.len());
    let word: String = v[lo..hi].iter().collect();
    assert_eq!(word, "1234");
}

#[test]
fn last_word_of_a_blank_line_is_empty() {
    let v: Vec<char> = " \t ".chars().collect();
    let (lo, hi) = last_word_bounds(&v, 0, v.len());
    assert_eq!(lo, hi);
    let (lo, hi) = last_word_bounds(&v, 1, 1);
    assert_eq!((lo, hi), (1, 1));
}

#[test]
fn last_word_stays_inside_its_part() {
    let v: Vec<char> = "ab cd ef".chars().collect();
    assert_eq!(last_word_bounds(&v, 0, 5), (3, 5));
    assert_eq!(last_word_bounds(&v, 4, 8), (6, 8));
    assert_eq!(last_word_bounds(&v, 4, 5), (4, 5));
}

#[test]
fn command_line_is_one_argument_of_the_shell() {
    assert_eq!(shell_invocation(Shell::Posix, "echo 'a b' | wc"), vec!["sh", "-c", "echo 'a b' | wc"]);
    assert_eq!(shell_invocation(Shell::Windows, "dir C:\\Users"), vec!["cmd", "/C", "dir C:\\Users"]);
}

#[test]
fn empty_command_line_is_still_handed_over() {
    assert_eq!(shell_invocation(Shell::Posix, ""), vec!["sh", "-c", ""]);
    assert_eq!(shell_invocation(Shell::Windows, ""), vec!["cmd", "/C", ""]);
}

#[test]
fn white_space_is_what_std_takes_for_it() {
    let mut count = 0;
    for code in 0..=0x10ffffu32 {
        if let Some(c) = char::from_u32(code) {
            assert_eq!(is_whitespace(c), c.is_whitespace(), "U+{:04X}", code);
            if is_whitespace(c) {
                count += 1;
            }
        }
    }
    assert_eq!(count, 25);
}

#[test]
fn white_space_has_sharp_edges() {
    for c in ['\u{9}', '\u{d}', ' ', '\u{85}', '\u{a0}', '\u{1680}', '\u{2000}', '\u{200a}', '\u{2028}', '\u{2029}', '\u{202f}', '\u{205f}', '\u{3000}'] {
        assert!(is_whitespace(c), "{:?}", c);
    }
    for c in ['\u{8}', '\u{e}', '\u{1f}', '!', '\u{84}', '\u{86}', '\u{1fff}', '\u{200b}', '\u{202a}', '\u{2060}', '\u{feff}', 'a'] {
        assert!(!is_whitespace(c), "{:?}", c);
    }
}

#[test]
fn second_word_of_a_line() {
    let v: Vec<char> = "  TCP  0.0.0.0:5330  0.0.0.0:0  LISTENING  1234".chars().collect();
    let (lo, hi) = second_word_bounds(&v, 0, v.len());
    let word: String = v[lo..hi].iter().collect();
    assert_eq!(word, "0.0.0.0:5330");
    let one: Vec<char> = " alone ".chars().collect();
    let (lo, hi) = second_word_bounds(&one, 0, one.len());
    assert_eq!(lo, hi);
    let none: Vec<char> = Vec::new();
    assert_eq!(second_word_bounds(&none, 0, 0), (0, 0));
}

#[test]
fn second_word_stays_inside_its_part() {
    let v: Vec<char> = "ab cd ef gh".chars().collect();
    assert_eq!(second_word_bounds(&v, 0, 11), (3, 5));
    assert_eq!(second_word_bounds(&v, 3, 11), (6, 8));
    assert_eq!(second_word_bounds(&v, 3, 7), (6, 7));
    assert_eq!(second_word_bounds(&v, 3, 5), (5, 5));
}

#[test]
fn part_is_tested_for_its_end() {
    let v: Vec<char> = "0.0.0.0:5330".chars().collect();
    let tail: Vec<char> = ":5330".chars().collect();
    let other: Vec<char> = ":330".chars().collect();
    let long: Vec<char> = "x0.0.0.0:5330".chars().collect();
    assert!(part_ends_with(&v, 0, v.len(), &tail));
    assert!(!part_ends_with(&v, 0, v.len(), &other));
    assert!(!part_ends_with(&v, 0, v.len() - 1, &tail));
    assert!(!part_ends_with(&v, 0, v.len(), &long));
    assert!(part_ends_with(&v, 7, v.len(), &tail));
    assert!(!part_ends_with(&v, 8, v.len(), &tail));
    assert!(part_ends_with(&v, 3, 3, &Vec::new()));
}
