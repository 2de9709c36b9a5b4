use rpot::text::{chars_of, gen_codeblock, i32_to_decimal, is_whitespace, remove_backticks, split_words, string_of_chars};
use rpot::wire::{i32_from_le_bytes, push_i32_le};

#[test]
fn decimal_numerals() {
    assert_eq!(i32_to_decimal(0), "0");
    assert_eq!(i32_to_decimal(7), "7");
    assert_eq!(i32_to_decimal(1337), "1337");
    assert_eq!(i32_to_decimal(-1), "-1");
    assert_eq!(i32_to_decimal(i32::MAX), "2147483647");
    assert_eq!(i32_to_decimal(i32::MIN), "-2147483648");
}

#[test]
fn words_split_on_unicode_white_space() {
    let v = chars_of(" a\u{2003}bc\n\nd ");
    let w: Vec<String> = split_words(&v).iter().map(|w| string_of_chars(w)).collect();
    assert_eq!(w, vec!["a", "bc", "d"]);
    assert!(split_words(&chars_of("")).is_empty());
    assert!(is_whitespace('\u{85}'));
    assert!(!is_whitespace('\u{200B}'));
    for c in ['\t', ' ', '\u{a0}', '\u{1680}', '\u{2028}', '\u{3000}', 'x', '_'] {
        assert_eq!(is_whitespace(c), c.is_whitespace());
    }
}

#[test]
fn code_blocks_and_backticks() {
    assert_eq!(gen_codeblock("x"), "```x```");
    assert_eq!(remove_backticks("a`b``c"), "abc");
    assert_eq!(remove_backticks("§`é"), "§é");
}

#[test]
fn little_endian_integers() {
    assert_eq!(i32_from_le_bytes(0x39, 0x05, 0, 0), 1337);
    assert_eq!(i32_from_le_bytes(0xff, 0xff, 0xff, 0xff), -1);
    assert_eq!(i32_from_le_bytes(0, 0, 0, 0x80), i32::MIN);
    for n in [0, 1, -1, 1337, i32::MIN, i32::MAX, -99, 65536] {
        let mut v = vec![9u8];
        push_i32_le(&mut v, n);
        assert_eq!(v[1..].to_vec(), n.to_le_bytes().to_vec());
        assert_eq!(i32_from_le_bytes(v[1], v[2], v[3], v[4]), n);
    }
}
