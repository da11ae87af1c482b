use hexocat::text::{find_char, is_space_char, trim};

#[test]
fn white_space_is_what_std_calls_white_space() {
    let mut code: u32 = 0;
    while code <= 0x10FFFF {
        if let Some(c) = char::from_u32(code) {
            assert_eq!(is_space_char(c), c.is_whitespace(), "U+{:04X}", code);
        }
        code += 1;
    }
}

#[test]
fn white_space_edges() {
    assert!(is_space_char('\t'));
    assert!(is_space_char('\r'));
    assert!(!is_space_char('\u{8}'));
    assert!(!is_space_char('\u{e}'));
    assert!(is_space_char(' '));
    assert!(is_space_char('\u{85}'));
    assert!(is_space_char('\u{2000}'));
    assert!(is_space_char('\u{200a}'));
    assert!(!is_space_char('\u{200b}'));
    assert!(is_space_char('\u{3000}'));
    assert!(!is_space_char('a'));
}

#[test]
fn trim_agrees_with_std() {
    let samples = [
        "",
        " ",
        "   ",
        "a",
        " a",
        "a ",
        "  a b  ",
        "\t\r\n linux \n",
        "\u{a0}\u{2003}rust lang\u{3000}",
        "\u{e9}t\u{e9} ",
        " \u{1f431} ",
        "x\u{200b} ",
    ];
    for s in samples {
        assert_eq!(trim(s), s.trim(), "{:?}", s);
    }
}

#[test]
fn trim_exact_values() {
    assert_eq!(trim("  linux  "), "linux");
    assert_eq!(trim(" a b "), "a b");
    assert_eq!(trim(" \t "), "");
    assert_eq!(trim(""), "");
    assert_eq!(trim("linux"), "linux");
}

#[test]
fn find_char_gives_the_first_position() {
    assert_eq!(find_char("a:b:c", ':'), Some(1));
    assert_eq!(find_char(":", ':'), Some(0));
    assert_eq!(find_char("abc", ':'), None);
    assert_eq!(find_char("", ':'), None);
    assert_eq!(find_char("\u{e9}\u{1f431}:x", ':'), Some(2));
}
