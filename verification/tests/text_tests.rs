use cuda_doctor::text::{
    chars_of, contains, format_decimal, format_signed, is_space, join, same_text, split_fields,
    split_lines, split_words, starts_with, text_of, trim,
};

fn chars(s: &str) -> Vec<char> {
    s.chars().collect()
}

#[test]
fn trim_agrees_with_std() {
    for sample in ["", " ", "  a b \t\n", "\u{3000}x\u{2003}", "no-space", "\r\n12.2\r\n", "\u{85}a\u{a0}"] {
        assert_eq!(text_of(&trim(&chars_of(sample))), sample.trim());
    }
}

#[test]
fn lines_agree_with_std() {
    for sample in ["", "\n", "a", "a\n", "a\r\n", "a\r", "a\n\nb", "a\r\nb\r", "\r\n\r\n", "x\ny\n"] {
        let ours: Vec<String> = split_lines(&chars(sample)).iter().map(text_of).collect();
        let theirs: Vec<String> = sample.lines().map(|l| l.to_string()).collect();
        assert_eq!(ours, theirs, "sample {:?}", sample);
    }
}

#[test]
fn fields_agree_with_std() {
    for sample in ["", ",", "a,b", "a,,b,", "Version: 2.1.0", "a:b:c"] {
        for sep in [',', ':'] {
            let ours: Vec<String> = split_fields(&chars(sample), sep).iter().map(text_of).collect();
            let theirs: Vec<String> = sample.split(sep).map(|l| l.to_string()).collect();
            assert_eq!(ours, theirs, "sample {:?}", sample);
        }
    }
}

#[test]
fn words_agree_with_std() {
    for sample in ["", "  ", "a", " a  b\tc\n", "#define CUDNN_MAJOR 9", "torch   2.1.0  py311\u{3000}x"] {
        let ours: Vec<String> = split_words(&chars(sample)).iter().map(text_of).collect();
        let theirs: Vec<String> = sample.split_whitespace().map(|l| l.to_string()).collect();
        assert_eq!(ours, theirs, "sample {:?}", sample);
    }
}

#[test]
fn contains_agrees_with_std() {
    for (h, n) in [("", ""), ("abc", ""), ("abc", "bc"), ("abc", "abcd"), ("aab", "ab"), ("WARNING: x", "WARNING"), ("xyz", "a")] {
        assert_eq!(contains(&chars(h), &chars(n)), h.contains(n), "{:?} in {:?}", n, h);
    }
}

#[test]
fn join_puts_separator_between_parts() {
    let parts = vec![chars("a"), chars("b"), chars("c")];
    assert_eq!(text_of(&join(&parts, &chars(", "))), "a, b, c");
    assert_eq!(text_of(&join(&vec![chars("only")], &chars(", "))), "only");
    assert_eq!(text_of(&join(&Vec::new(), &chars(", "))), "");
}

#[test]
fn decimal_numerals_are_written_without_padding() {
    assert_eq!(text_of(&format_decimal(0)), "0");
    assert_eq!(text_of(&format_decimal(7)), "7");
    assert_eq!(text_of(&format_decimal(10)), "10");
    assert_eq!(text_of(&format_decimal(1234567890)), "1234567890");
    assert_eq!(text_of(&format_decimal(u64::MAX)), "18446744073709551615");
    assert_eq!(text_of(&format_signed(0)), "0");
    assert_eq!(text_of(&format_signed(-1)), "-1");
    assert_eq!(text_of(&format_signed(i64::MAX)), "9223372036854775807");
    assert_eq!(text_of(&format_signed(i64::MIN)), "-9223372036854775808");
}

#[test]
fn prefix_and_equality_agree_with_std() {
    for (h, n) in [("", ""), ("abc", ""), ("abc", "ab"), ("abc", "abc"), ("abc", "abcd"), ("abc", "bc")] {
        assert_eq!(starts_with(&chars(h), &chars(n)), h.starts_with(n), "{:?} {:?}", h, n);
        assert_eq!(same_text(h, n), h == n);
    }
}

#[test]
fn whitespace_agrees_with_std_on_every_character() {
    for code in 0..=0x10ffffu32 {
        if let Some(c) = char::from_u32(code) {
            assert_eq!(is_space(c), c.is_whitespace(), "U+{:04X}", code);
        }
    }
}

#[test]
fn characters_round_trip_through_text() {
    for sample in ["", "plain", "°C 🎮 é\u{3000}"] {
        assert_eq!(text_of(&chars_of(sample)), sample);
        assert_eq!(chars_of(sample), chars(sample));
    }
}
