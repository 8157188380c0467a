use market_sync::discover::{
    extract_numeric_part, extract_prefix, i32_to_letters, neighborhood, sequential_candidates,
    Random,
};
use market_sync::text::{parse_i32_or_zero, parse_i64_or_zero, u64_to_dec, zero_pad_u64};

#[test]
fn sequential_range_is_padded_and_complete() {
    let candidates = sequential_candidates("C576588020785", 2915863, 2915865, 7);
    assert_eq!(candidates.len(), 3); // b - a + 1
    assert_eq!(candidates[0], "C5765880207852915863");
    assert_eq!(candidates[1], "C5765880207852915864");
    assert_eq!(candidates[2], "C5765880207852915865");
}

#[test]
fn sequential_range_pads_short_suffixes() {
    let candidates = sequential_candidates("P", 8, 11, 4);
    assert_eq!(candidates, vec!["P0008", "P0009", "P0010", "P0011"]);
}

#[test]
fn sequential_range_candidates_are_distinct() {
    let candidates = sequential_candidates("P", 0, 199, 2);
    assert_eq!(candidates.len(), 200);
    for i in 0..candidates.len() {
        for j in (i + 1)..candidates.len() {
            assert_ne!(candidates[i], candidates[j]);
        }
    }
}

#[test]
fn numeric_part_collects_all_digits() {
    assert_eq!(extract_numeric_part("C5765880207856366961"), Some(5765880207856366961));
    assert_eq!(extract_numeric_part("a1b2c3"), Some(123));
    assert_eq!(extract_numeric_part("letters"), None);
    assert_eq!(extract_numeric_part(""), None);
    // more digits than a u64 can hold
    assert_eq!(extract_numeric_part("99999999999999999999999"), None);
}

#[test]
fn prefix_runs_through_the_last_digit() {
    assert_eq!(extract_prefix("C576588abc123xyz"), Some("C576588abc123".to_string()));
    assert_eq!(extract_prefix("C5765880207856366961"), Some("C5765880207856366961".to_string()));
    assert_eq!(extract_prefix("letters"), None);
}

#[test]
fn neighborhood_is_clamped() {
    assert_eq!(neighborhood(5000, 1000), (4000, 6000));
    assert_eq!(neighborhood(5, 1000), (0, 1005));
    assert_eq!(neighborhood(u64::MAX, 2), (u64::MAX - 2, u64::MAX));
}

#[test]
fn random_follows_the_linear_congruential_recurrence() {
    let mut rng = Random::from_seed(1);
    let first = rng.next();
    assert_eq!(first, 1u64.wrapping_mul(1664525).wrapping_add(1013904223));
    let second = rng.next();
    assert_eq!(second, first.wrapping_mul(1664525).wrapping_add(1013904223));
}

#[test]
fn random_spans_stay_in_range() {
    let mut rng = Random::from_seed(42);
    for _ in 0..100 {
        let v = rng.next_in_span(59067092904725, 26102918154555);
        assert!((59067092904725..85170011059280).contains(&v));
    }
}

#[test]
fn letters_spell_bijective_base26() {
    assert_eq!(i32_to_letters(0), "a");
    assert_eq!(i32_to_letters(25), "z");
    assert_eq!(i32_to_letters(26), "aa");
    assert_eq!(i32_to_letters(27), "ab");
    assert_eq!(i32_to_letters(51), "az");
    assert_eq!(i32_to_letters(52), "ba");
}

#[test]
fn decimal_rendering_and_padding() {
    assert_eq!(u64_to_dec(0), "0");
    assert_eq!(u64_to_dec(90210), "90210");
    assert_eq!(zero_pad_u64(42, 7), "0000042");
    assert_eq!(zero_pad_u64(12345678, 7), "12345678");
    assert_eq!(zero_pad_u64(0, 1), "0");
}

#[test]
fn lenient_parsing_falls_back_to_zero() {
    assert_eq!(parse_i64_or_zero("123"), 123);
    assert_eq!(parse_i64_or_zero("-5"), -5);
    assert_eq!(parse_i64_or_zero("+7"), 7);
    assert_eq!(parse_i64_or_zero(""), 0);
    assert_eq!(parse_i64_or_zero("4.5"), 0);
    assert_eq!(parse_i64_or_zero("10000"), 10000);
    assert_eq!(parse_i64_or_zero("9223372036854775807"), i64::MAX);
    assert_eq!(parse_i64_or_zero("9223372036854775808"), 0);
    assert_eq!(parse_i64_or_zero("-9223372036854775808"), i64::MIN);
    assert_eq!(parse_i32_or_zero("13"), 13);
    assert_eq!(parse_i32_or_zero("2147483648"), 0);
    assert_eq!(parse_i32_or_zero("-2147483648"), i32::MIN);
    assert_eq!(parse_i32_or_zero("junk"), 0);
}
