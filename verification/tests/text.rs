use swc_css_codegen::{minify_hex_color, minify_number};

#[test]
fn hex_six_pairs_shorten_to_three() {
    assert_eq!(minify_hex_color("FFAA00"), "fa0");
    assert_eq!(minify_hex_color("ffffff"), "fff");
}

#[test]
fn hex_eight_with_opaque_alpha_shortens_to_three() {
    assert_eq!(minify_hex_color("AABBCCff"), "abc");
}

#[test]
fn hex_eight_with_upper_case_alpha_shortens_to_four() {
    // `FF` is not the lower-case `ff` that the three-digit form checks for.
    assert_eq!(minify_hex_color("AABBCCFF"), "abcf");
}

#[test]
fn hex_eight_pairs_shorten_to_four() {
    assert_eq!(minify_hex_color("11223344"), "1234");
}

#[test]
fn hex_without_pairs_is_only_lowered() {
    assert_eq!(minify_hex_color("AbCdEf"), "abcdef");
    assert_eq!(minify_hex_color("ff00ff80"), "ff00ff80");
    assert_eq!(minify_hex_color("ABC"), "abc");
    assert_eq!(minify_hex_color("ABCD"), "abcd");
    assert_eq!(minify_hex_color(""), "");
}

#[test]
fn hex_pairs_compare_case_sensitively() {
    assert_eq!(minify_hex_color("aAbbcc"), "aabbcc");
}

#[test]
fn hex_non_ascii_is_kept() {
    assert_eq!(minify_hex_color("ÉÉÉ"), "ÉÉÉ");
}

#[test]
fn number_leading_zero_dropped() {
    assert_eq!(minify_number("0.5"), ".5");
    assert_eq!(minify_number("-0.5"), "-.5");
}

#[test]
fn number_small_fraction_to_exponent() {
    assert_eq!(minify_number("0.0001"), "1e-4");
    assert_eq!(minify_number("0.00012"), "12e-5");
    assert_eq!(minify_number("0.000001"), "1e-6");
}

#[test]
fn number_trailing_zeros_to_exponent() {
    assert_eq!(minify_number("1000"), "1e3");
    assert_eq!(minify_number("10000"), "1e4");
    assert_eq!(minify_number("-25000"), "-25e3");
}

#[test]
fn number_left_alone() {
    assert_eq!(minify_number("100"), "100");
    assert_eq!(minify_number("1.5"), "1.5");
    assert_eq!(minify_number("0"), "0");
    assert_eq!(minify_number("-0"), "-0");
    assert_eq!(minify_number("0.001"), ".001");
    assert_eq!(minify_number("-0.0001"), "-.0001");
}

#[test]
fn hex_minified_twice_is_minified_once() {
    for v in ["aabbcc", "aabbccff", "aabbccdd", "abcdef", "abc", "ff00ff80", "ééaabb"] {
        let once = minify_hex_color(v);
        assert_eq!(minify_hex_color(&once), once);
    }
}
