use krark::ansi::{terminal_str_len, visible_len};
use krark::text::{decimal_text, digit_text, percent_tenths_of, percent_text, push_repeated};

#[test]
fn decimal_numerals() {
    assert_eq!(decimal_text(0), "0");
    assert_eq!(decimal_text(7), "7");
    assert_eq!(decimal_text(10), "10");
    assert_eq!(decimal_text(1234567890), "1234567890");
    assert_eq!(decimal_text(u128::MAX), u128::MAX.to_string());
    assert_eq!(digit_text(0), "0");
    assert_eq!(digit_text(9), "9");
}

#[test]
fn repeated_glyphs() {
    let mut out = String::from(">");
    push_repeated(&mut out, "━", 3);
    push_repeated(&mut out, "ab", 2);
    push_repeated(&mut out, "x", 0);
    assert_eq!(out, ">━━━abab");
}

#[test]
fn percent_exact_values() {
    assert_eq!(percent_text(1, 3), "33.3");
    assert_eq!(percent_text(2, 3), "66.7");
    assert_eq!(percent_text(3, 3), "100.0");
    assert_eq!(percent_text(0, 3), "0.0");
    assert_eq!(percent_text(1, 8), "12.5");
    assert_eq!(percent_text(1, 1000), "0.1");
    assert_eq!(percent_tenths_of(1, 3), 333);
    assert_eq!(percent_tenths_of(2, 3), 667);
    assert_eq!(percent_tenths_of(5, 5), 1000);
}

#[test]
fn percent_of_nothing_is_zero() {
    assert_eq!(percent_tenths_of(0, 0), 0);
    assert_eq!(percent_tenths_of(17, 0), 0);
    assert_eq!(percent_text(0, 0), "0.0");
    assert_eq!(percent_text(usize::MAX, 0), "0.0");
}

#[test]
fn percent_ties_go_to_the_even_tenth() {
    // 1/16 is 6.25%, 3/16 is 18.75%
    assert_eq!(percent_text(1, 16), "6.2");
    assert_eq!(percent_text(3, 16), "18.8");
    assert_eq!(percent_tenths_of(1, 2000), 0);
    assert_eq!(percent_tenths_of(3, 2000), 2);
}

#[test]
fn percent_agrees_with_float_formatting_off_ties() {
    for total in [3usize, 7, 9, 11, 13, 97, 1000] {
        for count in 0..=total {
            let scaled = 2000 * count;
            if scaled % total == 0 && (scaled / total) % 2 == 1 {
                continue;
            }
            let expected = format!("{:.1}", count as f64 / total as f64 * 100.0);
            assert_eq!(percent_text(count, total as u128), expected, "{count}/{total}");
        }
    }
}

#[test]
fn percent_does_not_overflow_on_large_counts() {
    assert_eq!(percent_text(usize::MAX, usize::MAX as u128), "100.0");
    assert_eq!(percent_text(usize::MAX, 3 * (usize::MAX as u128)), "33.3");
}

#[test]
fn width_ignores_colour_escapes() {
    assert_eq!(terminal_str_len(""), 0);
    assert_eq!(terminal_str_len("Passed"), 6);
    assert_eq!(terminal_str_len("\x1b[32mok\x1b[0m"), 2);
    assert_eq!(terminal_str_len("\x1b[31m1 (33.3%)\x1b[0m"), 9);
    assert_eq!(terminal_str_len("\x1b[1;31mbold red\x1b[m"), 8);
    assert_eq!(terminal_str_len("a\x1b[0mb\x1b[32mc"), 3);
}

#[test]
fn width_counts_characters_not_bytes() {
    assert_eq!(terminal_str_len("┃━┃"), 3);
    assert_eq!(terminal_str_len("Æther Vial"), 10);
    assert_eq!(terminal_str_len("\x1b[32mé\x1b[0m"), 1);
}

#[test]
fn width_keeps_what_is_no_colour_escape() {
    // an escape character that starts no colour sequence is counted
    assert_eq!(terminal_str_len("\x1b[32"), 4);
    assert_eq!(terminal_str_len("\x1b[3xm"), 5);
    assert_eq!(terminal_str_len("[32m"), 4);
}

#[test]
fn width_equals_length_of_stripped_text() {
    for (input, stripped) in [
        ("\x1b[32m12 (50.0%)\x1b[0m", "12 (50.0%)"),
        ("plain", "plain"),
        ("\x1b[0m\x1b[0m", ""),
        ("x\x1b[31;1my\x1b[0mz", "xyz"),
    ] {
        assert_eq!(terminal_str_len(input), stripped.chars().count());
        assert_eq!(terminal_str_len(input), terminal_str_len(stripped));
    }
}

#[test]
fn visible_len_takes_the_replaced_text_or_the_input() {
    assert_eq!(visible_len(Some("ab".to_string()), "\x1b[0mab"), 2);
    assert_eq!(visible_len(Some(String::new()), "abc"), 0);
    assert_eq!(visible_len(None, "a┃c"), 3);
}
