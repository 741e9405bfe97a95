use xtodo::text::{
    decimal_text, is_white_space, join, pad_left, pad_right, release, three_components, trim,
};

#[test]
fn white_space_is_what_std_calls_whitespace() {
    let mut code: u32 = 0;
    while code <= 0x10FFFF {
        if let Some(c) = char::from_u32(code) {
            assert_eq!(is_white_space(c), c.is_whitespace(), "U+{:04X}", code);
        }
        code += 1;
    }
}

#[test]
fn trim_removes_white_space_at_both_ends() {
    assert_eq!(trim("  /home/me/rust \n"), "/home/me/rust");
    assert_eq!(trim("/home/me/rust\n"), "/home/me/rust");
    assert_eq!(trim("\t\r\n a b \u{a0}\u{3000}"), "a b");
}

#[test]
fn trim_keeps_what_has_no_white_space_around_it() {
    assert_eq!(trim("leap"), "leap");
    assert_eq!(trim("two words"), "two words");
}

#[test]
fn trim_of_white_space_is_empty() {
    assert_eq!(trim(""), "");
    assert_eq!(trim(" \n\t "), "");
}

#[test]
fn trim_agrees_with_std() {
    for sample in ["", " ", "a", " a", "a ", " a b ", "\u{2003}x\u{2028}", "é \n", "\u{feff} x"] {
        assert_eq!(trim(sample), sample.trim());
    }
}

#[test]
fn decimal_text_writes_numbers_in_decimal() {
    assert_eq!(decimal_text(0), "0");
    assert_eq!(decimal_text(7), "7");
    assert_eq!(decimal_text(10), "10");
    assert_eq!(decimal_text(109), "109");
    assert_eq!(decimal_text(1234567890), "1234567890");
    assert_eq!(decimal_text(usize::MAX), usize::MAX.to_string());
}

#[test]
fn pad_right_fills_up_to_the_width() {
    assert_eq!(pad_right("leap", 6), "leap  ");
    assert_eq!(pad_right("", 3), "   ");
    assert_eq!(pad_right("1.2.0", 6), "1.2.0 ");
}

#[test]
fn pad_right_keeps_a_text_that_is_wide_enough() {
    assert_eq!(pad_right("1.10.12", 6), "1.10.12");
    assert_eq!(pad_right("abcdef", 6), "abcdef");
    assert_eq!(pad_right("x", 0), "x");
}

#[test]
fn pad_left_fills_up_to_the_width() {
    assert_eq!(pad_left("1", 2), " 1");
    assert_eq!(pad_left("12", 2), "12");
    assert_eq!(pad_left("123", 2), "123");
    assert_eq!(pad_left("", 2), "  ");
}

#[test]
fn padding_counts_characters_as_formatting_does() {
    for sample in ["", "a", "é", "日本語", "two-fer", "a-name-of-more-than-25-characters"] {
        assert_eq!(pad_right(sample, 25), format!("{:25}", sample));
        assert_eq!(pad_right(sample, 6), format!("{:6}", sample));
        assert_eq!(pad_left(sample, 2), format!("{:>2}", sample));
    }
}

#[test]
fn join_puts_the_separator_between_the_parts() {
    let parts = vec!["a".to_string(), "b".to_string(), "c".to_string()];
    assert_eq!(join(&parts, ", "), "a, b, c");
    assert_eq!(join(&parts, ""), "abc");
}

#[test]
fn join_of_one_part_or_none_has_no_separator() {
    assert_eq!(join(&vec!["only".to_string()], "\n"), "only");
    assert_eq!(join(&Vec::new(), "\n"), "");
    assert_eq!(join(&vec![String::new(), String::new()], "-"), "-");
}

#[test]
fn three_components_drops_what_follows_the_third() {
    assert_eq!(three_components("1.2.3.4"), "1.2.3");
    assert_eq!(three_components("0.1.0.10"), "0.1.0");
    assert_eq!(three_components("1.2.3.4.5"), "1.2.3");
    assert_eq!(three_components("1.2.3."), "1.2.3");
}

#[test]
fn three_components_keeps_a_version_of_three_components_or_fewer() {
    assert_eq!(three_components("1.2.3"), "1.2.3");
    assert_eq!(three_components("1.2"), "1.2");
    assert_eq!(three_components("7"), "7");
    assert_eq!(three_components(""), "");
}

#[test]
fn three_components_is_split_take_join() {
    for sample in ["", ".", "..", "...", "....", "a.b.c.d", "1.2.3-beta.1", "1..2..3", ".1.2.3"] {
        let expected = sample.split('.').take(3).collect::<Vec<&str>>().join(".");
        assert_eq!(three_components(sample), expected);
    }
}

#[test]
fn release_drops_a_pre_release_suffix() {
    assert_eq!(release("1.2.3-beta.1"), "1.2.3");
    assert_eq!(release("1.2.3-rc1"), "1.2.3");
    assert_eq!(release("2.0-alpha"), "2.0");
}

#[test]
fn release_drops_a_build_suffix() {
    assert_eq!(release("1.2.3+build.7"), "1.2.3");
    assert_eq!(release("1.2.3-beta+exp.sha.5114f85"), "1.2.3");
    assert_eq!(release("1.2.3+build-7"), "1.2.3");
}

#[test]
fn release_keeps_a_version_without_a_suffix() {
    assert_eq!(release("1.2.3"), "1.2.3");
    assert_eq!(release("1.2.0.4"), "1.2.0.4");
    assert_eq!(release(""), "");
}

#[test]
fn release_of_a_suffix_alone_is_empty() {
    assert_eq!(release("-beta"), "");
    assert_eq!(release("+7"), "");
}
