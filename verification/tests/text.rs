use opt_tweak_pc::text::{eq_ignore_ascii_case, is_white_space_char, trim_ws};

#[test]
fn white_space_matches_char_is_whitespace_everywhere() {
    for code in 0u32..=0x10FFFF {
        if let Some(c) = char::from_u32(code) {
            assert_eq!(is_white_space_char(c), c.is_whitespace(), "code point {:#x}", code);
        }
    }
}

#[test]
fn trim_matches_str_trim() {
    let samples = [
        "",
        " ",
        "abc",
        "  abc  ",
        "\t\r\n x y \r\n",
        "\u{a0}\u{1680}mot\u{202f}\u{205f}",
        "\u{2000}\u{200a}\u{2028}",
        "é à ü",
        " \u{200b} ",
        "x\u{3000}",
        "\u{85}y",
    ];
    for s in samples {
        assert_eq!(trim_ws(s), s.trim(), "sample {:?}", s);
    }
}

#[test]
fn trim_of_blank_text_is_empty() {
    assert_eq!(trim_ws(" \t\r\n\u{3000}"), "");
}

#[test]
fn eq_ignore_ascii_case_matches_std() {
    let pairs = [
        ("True", "true"),
        ("TRUE", "True"),
        ("True", "Truth"),
        ("", ""),
        ("é", "É"),
        ("aé", "Aé"),
        ("a", "ab"),
        ("[", "{"),
        ("@", "`"),
        ("Z", "z"),
    ];
    for (a, b) in pairs {
        assert_eq!(eq_ignore_ascii_case(a, b), a.eq_ignore_ascii_case(b), "{:?} {:?}", a, b);
    }
}
