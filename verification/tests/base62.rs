use service::base62::{read_numeral, write_numeral, ALPHABET};

fn written(n: u128, len: usize) -> String {
    let mut text = String::new();
    write_numeral(&mut text, n, len);
    text
}

#[test]
fn alphabet_is_digits_then_lower_then_upper_case() {
    assert_eq!(
        ALPHABET,
        "0123456789abcdefghijklmnopqrstuvwxyzABCDEFGHIJKLMNOPQRSTUVWXYZ"
    );
    assert_eq!(ALPHABET.len(), 62);
}

#[test]
fn numeral_has_the_width_asked_for() {
    assert_eq!(written(0, 0), "");
    assert_eq!(written(0, 1), "0");
    assert_eq!(written(0, 5), "00000");
    assert_eq!(written(61, 1), "Z");
    assert_eq!(written(62, 2), "10");
    assert_eq!(written(62, 3), "010");
    assert_eq!(written(238327, 3), "ZZZ");
    assert_eq!(written(238328, 4), "1000");
}

#[test]
fn numeral_keeps_the_lowest_digits_of_a_number_too_wide() {
    assert_eq!(written(62, 1), "0");
    assert_eq!(written(62 * 62 * 5 + 62 * 7 + 9, 2), "79");
    assert_eq!(written(u128::MAX, 0), "");
    assert_eq!(written(u128::MAX, 3), "fHC7".get(1..).unwrap());
}

#[test]
fn numeral_is_appended_to_what_the_text_holds() {
    let mut text = "id=".to_string();
    write_numeral(&mut text, 10, 2);
    assert_eq!(text, "id=0a");
    write_numeral(&mut text, 36, 1);
    assert_eq!(text, "id=0aA");
}

#[test]
fn numerals_of_any_width_are_read() {
    assert_eq!(read_numeral(""), Some(0));
    assert_eq!(read_numeral("0"), Some(0));
    assert_eq!(read_numeral("Z"), Some(61));
    assert_eq!(read_numeral("10"), Some(62));
    assert_eq!(read_numeral("1bB"), Some(62 * 62 + 62 * 11 + 37));
    assert_eq!(read_numeral("7N42dgm5tFLK9N8MT7fHC7"), Some(u128::MAX));
    assert_eq!(
        read_numeral("00000000007N42dgm5tFLK9N8MT7fHC7"),
        Some(u128::MAX)
    );
}

#[test]
fn numerals_beyond_128_bits_are_not_read() {
    assert_eq!(read_numeral("7N42dgm5tFLK9N8MT7fHC8"), None);
    assert_eq!(read_numeral("10000000000000000000000"), None);
    assert_eq!(read_numeral("00000000007N42dgm5tFLK9N8MT7fHC8"), None);
}

#[test]
fn texts_with_other_characters_are_not_read() {
    assert_eq!(read_numeral(" "), None);
    assert_eq!(read_numeral("12 "), None);
    assert_eq!(read_numeral("-1"), None);
    assert_eq!(read_numeral("+1"), None);
    assert_eq!(read_numeral("1_000"), None);
    assert_eq!(read_numeral("\u{e9}"), None);
    assert_eq!(read_numeral("1\u{0660}"), None);
}

#[test]
fn reading_a_written_numeral_gives_the_number_back() {
    let mut n: u128 = 1;
    for len in 1..=22usize {
        assert_eq!(read_numeral(&written(n - 1, len)), Some(n - 1));
        assert_eq!(read_numeral(&written(n / 2, len)), Some(n / 2));
        n = n.saturating_mul(62);
    }
}
