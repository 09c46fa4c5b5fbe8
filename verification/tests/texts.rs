use rls_server::text::{
    characters, is_in_any_case, is_white_space, parse_usize, push_decimal, same_text, split, trimmed,
};

fn decimal(n: usize) -> String {
    let mut out = String::new();
    push_decimal(&mut out, n);
    out
}

fn number(s: &str) -> Option<usize> {
    parse_usize(&characters(s))
}

#[test]
fn numbers_are_written_in_decimal() {
    assert_eq!(decimal(0), "0");
    assert_eq!(decimal(9), "9");
    assert_eq!(decimal(10), "10");
    assert_eq!(decimal(1234567890), "1234567890");
    assert_eq!(decimal(usize::MAX), usize::MAX.to_string());
    let mut out = "id ".to_string();
    push_decimal(&mut out, 42);
    assert_eq!(out, "id 42");
}

#[test]
fn numbers_read_back_from_decimal() {
    for n in [0, 1, 7, 10, 99, 100, 4096, usize::MAX - 1, usize::MAX] {
        assert_eq!(number(&decimal(n)), Some(n));
    }
}

#[test]
fn numbers_are_read_as_the_standard_library_reads_them() {
    let too_large = format!("{}0", usize::MAX);
    for s in [
        "", "+", "-", "0", "+0", "-0", "12", "+12", "-12", "++1", "1+", "007", "1_000", "1 2", " 1", "1 ",
        "a", "1a", "0x10", "\u{661}", "18446744073709551615", "18446744073709551616",
        "00000000000000000000000000000000000005", too_large.as_str(),
    ] {
        assert_eq!(number(s), usize::from_str_radix(s, 10).ok(), "{:?}", s);
    }
}

#[test]
fn white_space_is_that_of_the_standard_library() {
    for code in 0..=0x10ffffu32 {
        if let Some(c) = char::from_u32(code) {
            assert_eq!(is_white_space(c), c.is_whitespace(), "{:?}", c);
        }
    }
}

#[test]
fn trimming_takes_white_space_off_both_ends() {
    for s in ["", " ", "\r\n", "12\r\n", "\t 12 \u{3000}", "1 2", "\u{a0}x\u{2028}", "x"] {
        assert_eq!(trimmed(&characters(s)), characters(s.trim()), "{:?}", s);
    }
}

#[test]
fn splitting_gives_the_pieces_between_spaces() {
    for s in ["", " ", "a", "a b", " a", "a ", "a  b", "a b c", "\u{e9} \u{1f600}"] {
        let pieces: Vec<Vec<char>> = s.split(' ').map(characters).collect();
        assert_eq!(split(&characters(s), ' '), pieces, "{:?}", s);
    }
}

#[test]
fn only_ascii_letters_become_the_letters_of_the_header_name() {
    let name = "content-length:";
    for code in 0..=0x10ffffu32 {
        if let Some(c) = char::from_u32(code) {
            if c.to_lowercase().all(|small| name.contains(small)) {
                assert!(c.is_ascii(), "{:?}", c);
            }
        }
    }
}

#[test]
fn letter_case_is_ignored() {
    for s in ["content-length:", "Content-Length:", "CONTENT-LENGTH:", "cOnTeNt-LeNgTh:"] {
        assert!(is_in_any_case(&characters(s), "content-length:"));
        assert_eq!(s.to_lowercase(), "content-length:");
    }
    for s in ["", "content-length", "content-length::", "content_length:", "\u{212a}ontent-length:"] {
        assert!(!is_in_any_case(&characters(s), "content-length:"));
        assert_ne!(s.to_lowercase(), "content-length:");
    }
}

#[test]
fn texts_are_compared_character_by_character() {
    assert!(same_text("", ""));
    assert!(same_text("\u{e9}xit", "\u{e9}xit"));
    assert!(!same_text("exit", "exis"));
    assert!(!same_text("exit", "exi"));
    assert!(!same_text("exi", "exit"));
}
