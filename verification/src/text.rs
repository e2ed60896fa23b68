//! The two text shortenings of minified output: hex colors and numbers.

use vstd::prelude::*;
use vstd::utf8::{
    encode_utf8, encode_scalar, is_ascii_chars, is_ascii_chars_encode_utf8, is_scalar, char_is_scalar,
};

verus! {

// ------------------------------------------------------------------ specs

/// ASCII lower case of one character: `A`..`Z` become `a`..`z`.
pub open spec fn ascii_lower(c: char) -> char {
    if 'A' <= c && c <= 'Z' {
        ((c as u32) + 32) as char
    } else {
        c
    }
}

/// ASCII lower case of a text.
pub open spec fn ascii_lower_str(s: Seq<char>) -> Seq<char> {
    s.map_values(|c: char| ascii_lower(c))
}

/// The character of one byte, in lower case.
pub open spec fn lower_byte(b: u8) -> char {
    ascii_lower(b as char)
}

/// The shortest spelling of a hex color (the text after `#`), read byte by
/// byte: `aabbcc` and `aabbccff` become `abc`, `aabbccdd` becomes `abcd`,
/// anything else is only put in lower case.
pub open spec fn minify_hex_color_spec(v: Seq<char>) -> Seq<char> {
    let b = encode_utf8(v);
    let len = b.len();
    let pairs = (len == 6 || len == 8) && b[0] == b[1] && b[2] == b[3] && b[4] == b[5];
    if pairs && (len == 6 || (b[6] == 102u8 && b[7] == 102u8)) {
        seq![lower_byte(b[0]), lower_byte(b[2]), lower_byte(b[4])]
    } else if pairs && len == 8 && b[6] == b[7] {
        seq![lower_byte(b[0]), lower_byte(b[2]), lower_byte(b[4]), lower_byte(b[6])]
    } else {
        ascii_lower_str(v)
    }
}

/// The decimal digit `d` (for `d < 10`).
pub open spec fn digit_char(d: nat) -> char {
    (48 + d) as char
}

/// The decimal spelling of a natural number, as Rust prints integers.
pub open spec fn decimal(n: nat) -> Seq<char>
    decreases n,
{
    if n < 10 {
        seq![digit_char(n)]
    } else {
        decimal(n / 10).push(digit_char(n % 10))
    }
}

/// Drops the zero before the point: `0.5` becomes `.5`, `-0.5` becomes `-.5`.
pub open spec fn strip_leading_zero(s: Seq<char>) -> Seq<char> {
    if s.len() >= 2 && s[0] == '0' && s[1] == '.' {
        s.skip(1)
    } else if s.len() >= 3 && s[0] == '-' && s[1] == '0' && s[2] == '.' {
        seq!['-'] + s.skip(2)
    } else {
        s
    }
}

/// The number of consecutive `0` starting at index `i`.
pub open spec fn zeros_from(s: Seq<char>, i: int) -> nat
    decreases s.len() - i,
{
    if 0 <= i < s.len() && s[i] == '0' {
        1 + zeros_from(s, i + 1)
    } else {
        0
    }
}

/// The number of consecutive `0` that end just before index `j`.
pub open spec fn zeros_before(s: Seq<char>, j: int) -> nat
    decreases j,
{
    if 0 < j <= s.len() && s[j - 1] == '0' {
        1 + zeros_before(s, j - 1)
    } else {
        0
    }
}

pub open spec fn starts_with_point_000(s: Seq<char>) -> bool {
    s.len() >= 4 && s[0] == '.' && s[1] == '0' && s[2] == '0' && s[3] == '0'
}

pub open spec fn ends_with_000(s: Seq<char>) -> bool {
    s.len() >= 3 && s[s.len() - 1] == '0' && s[s.len() - 2] == '0' && s[s.len() - 3] == '0'
}

/// The shortened text of a number: the zero before the point goes; then a
/// text `.000ddd` becomes `ddde-N` (`N` counting the zeros and the UTF-8
/// length of what is left), and a text ending in `000` loses its trailing
/// zeros for `eK` (`K` counting them).
pub open spec fn minify_number_spec(s: Seq<char>) -> Seq<char> {
    let m = strip_leading_zero(s);
    if starts_with_point_000(m) {
        let cnt: nat = 3 + zeros_from(m, 4);
        let rest = m.skip(cnt + 1 as int);
        rest + seq!['e', '-'] + decimal(encode_utf8(rest).len() + cnt)
    } else if ends_with_000(m) {
        let cnt: nat = 3 + zeros_before(m, m.len() - 3);
        m.take(m.len() - cnt as int) + seq!['e'] + decimal(cnt)
    } else {
        m
    }
}

// ------------------------------------------------------------------ laws

/// The color a hex spelling stands for, with every digit written out:
/// `rgb` is `rrggbbff`, `rgba` is `rrggbbaa`, `rrggbb` is `rrggbbff`.
pub open spec fn hex_color_full(s: Seq<char>) -> Seq<char> {
    if s.len() == 3 {
        seq![s[0], s[0], s[1], s[1], s[2], s[2], 'f', 'f']
    } else if s.len() == 4 {
        seq![s[0], s[0], s[1], s[1], s[2], s[2], s[3], s[3]]
    } else if s.len() == 6 {
        s + seq!['f', 'f']
    } else {
        s
    }
}

/// An ASCII character survives the round trip through its byte.
proof fn lemma_ascii_byte_round_trip(c: char)
    requires
        '\0' <= c <= '\u{7f}',
    ensures
        (c as u8) as char == c,
{
}

/// Minifying a hex color keeps the color: written out in full, the
/// minified spelling is the lower-cased input, for every ASCII color of
/// three, four, six or eight digits.
pub proof fn law_minify_hex_color_keeps_color(v: Seq<char>)
    requires
        is_ascii_chars(v),
        v.len() == 3 || v.len() == 4 || v.len() == 6 || v.len() == 8,
    ensures
        hex_color_full(minify_hex_color_spec(v)) == hex_color_full(ascii_lower_str(v)),
{
    is_ascii_chars_encode_utf8(v);
    let b = encode_utf8(v);
    assert forall|i: int| 0 <= i < v.len() implies lower_byte(#[trigger] b[i]) == ascii_lower(v[i]) by {
        lemma_ascii_byte_round_trip(v[i]);
    }
    let l = ascii_lower_str(v);
    if v.len() == 6 || v.len() == 8 {
        assert(lower_byte(b[0]) == l[0] && lower_byte(b[2]) == l[2] && lower_byte(b[4]) == l[4]);
    }
    if v.len() == 8 {
        assert(lower_byte(b[6]) == l[6]);
    }
    assert(hex_color_full(minify_hex_color_spec(v)) =~= hex_color_full(l));
}

/// A minified hex color holds no upper-case ASCII letter.
pub proof fn law_minify_hex_color_is_lower_case(v: Seq<char>)
    ensures
        forall|i: int|
            0 <= i < minify_hex_color_spec(v).len() ==> !('A' <= #[trigger] minify_hex_color_spec(v)[i]
                && minify_hex_color_spec(v)[i] <= 'Z'),
{
}

/// The UTF-8 encoding of one scalar: a single byte below `0x80` for an
/// ASCII scalar; otherwise a leading byte of at least `0xC0` followed by a
/// continuation byte in `0x80..=0xBF`.
proof fn lemma_encode_scalar_bytes(v: u32)
    requires
        is_scalar(v),
    ensures
        v < 0x80 ==> encode_scalar(v) == seq![v as u8],
        v >= 0x80 ==> encode_scalar(v).len() >= 2 && encode_scalar(v)[0] >= 0xC0
            && 0x80 <= encode_scalar(v)[1] <= 0xBF,
{
    if v < 0x80 {
        assert((v & 0x7F) as u8 == v as u8) by (bit_vector)
            requires
                v < 0x80,
        ;
    } else {
        assert((0xC0u8 | ((v >> 6) & 0x1F) as u8) >= 0xC0) by (bit_vector);
        assert((0xE0u8 | ((v >> 12) & 0x0F) as u8) >= 0xC0) by (bit_vector);
        assert((0xF0u8 | ((v >> 18) & 0x7) as u8) >= 0xC0) by (bit_vector);
        assert(0x80 <= (0x80u8 | (v & 0x3F) as u8) <= 0xBF) by (bit_vector);
        assert(0x80 <= (0x80u8 | ((v >> 6) & 0x3F) as u8) <= 0xBF) by (bit_vector);
        assert(0x80 <= (0x80u8 | ((v >> 12) & 0x3F) as u8) <= 0xBF) by (bit_vector);
    }
}

/// Two equal bytes at the start of a UTF-8 text are two ASCII characters;
/// the rest of the bytes encode the rest of the text.
proof fn lemma_encode_pair(v: Seq<char>)
    requires
        encode_utf8(v).len() >= 2,
        encode_utf8(v)[0] == encode_utf8(v)[1],
    ensures
        v.len() >= 2,
        encode_utf8(v)[0] < 0x80,
        encode_utf8(v.skip(2)) == encode_utf8(v).skip(2),
{
    let e = encode_utf8(v);
    assert(v.len() > 0);
    let s0 = v[0] as u32;
    char_is_scalar(v[0]);
    lemma_encode_scalar_bytes(s0);
    let t = v.drop_first();
    assert(e == encode_scalar(s0) + encode_utf8(t));
    assert(s0 < 0x80);
    assert(encode_utf8(t).len() >= 1);
    assert(t.len() > 0);
    let s1 = t[0] as u32;
    char_is_scalar(t[0]);
    lemma_encode_scalar_bytes(s1);
    assert(encode_utf8(t) == encode_scalar(s1) + encode_utf8(t.drop_first()));
    assert(e[1] == encode_utf8(t)[0]);
    assert(s1 < 0x80);
    assert(t.drop_first() =~= v.skip(2));
    assert(encode_utf8(v.skip(2)) =~= e.skip(2));
}

/// A byte below `0x80`, read as a character and put in lower case, is an
/// ASCII character that lower case leaves alone.
proof fn lemma_lower_ascii_byte(b: u8)
    requires
        b < 0x80,
    ensures
        '\0' <= lower_byte(b) <= '\u{7f}',
        ascii_lower(lower_byte(b)) == lower_byte(b),
{
}

/// Minifying a hex color twice gives what minifying it once gives, for a
/// color with no upper-case ASCII letter.
pub proof fn law_minify_hex_color_idempotent(v: Seq<char>)
    requires
        v == ascii_lower_str(v),
    ensures
        minify_hex_color_spec(minify_hex_color_spec(v)) == minify_hex_color_spec(v),
{
    let b = encode_utf8(v);
    let len = b.len();
    let pairs = (len == 6 || len == 8) && b[0] == b[1] && b[2] == b[3] && b[4] == b[5];
    if pairs {
        lemma_encode_pair(v);
        lemma_encode_pair(v.skip(2));
        assert(v.skip(2).skip(2) =~= v.skip(4));
        lemma_encode_pair(v.skip(4));
        assert(b[0] < 0x80 && b[2] < 0x80 && b[4] < 0x80);
        lemma_lower_ascii_byte(b[0]);
        lemma_lower_ascii_byte(b[2]);
        lemma_lower_ascii_byte(b[4]);
        if len == 8 {
            assert(v.skip(4).skip(2) =~= v.skip(6));
            if b[6] == b[7] {
                lemma_encode_pair(v.skip(6));
                lemma_lower_ascii_byte(b[6]);
            }
        }
    }
    let r = minify_hex_color_spec(v);
    if pairs && (len == 6 || (b[6] == 102u8 && b[7] == 102u8)) || pairs && len == 8 && b[6] == b[7] {
        assert(is_ascii_chars(r));
        is_ascii_chars_encode_utf8(r);
        assert(ascii_lower_str(r) =~= r);
    } else {
        assert(r == ascii_lower_str(v));
    }
}

// ------------------------------------------------------- std text calls

/// `char::to_ascii_lowercase`: std documents that `A`..`Z` map to
/// `a`..`z` and every other character is returned unchanged.
#[verifier::external_body]
fn char_to_ascii_lowercase(c: char) -> (r: char)
    ensures
        r == ascii_lower(c),
{
    c.to_ascii_lowercase()
}

/// `str::to_ascii_lowercase`: std documents a copy of the text with each
/// character mapped to its ASCII lower case (non-ASCII unchanged).
#[verifier::external_body]
fn str_to_ascii_lowercase(s: &str) -> (r: String)
    ensures
        r@ == ascii_lower_str(s@),
{
    s.to_ascii_lowercase()
}

/// `String::push`: appends one character.
#[verifier::external_body]
fn string_push(s: &mut String, c: char)
    ensures
        final(s)@ == old(s)@.push(c),
{
    s.push(c)
}

/// `u128::to_string`: std prints an integer in decimal, without sign or
/// leading zeros.
#[verifier::external_body]
fn u128_to_string(n: u128) -> (r: String)
    ensures
        r@ == decimal(n as nat),
{
    n.to_string()
}

// ------------------------------------------------------------- functions

/// The shortest spelling of a hex color; see [`minify_hex_color_spec`].
pub fn minify_hex_color(value: &str) -> (r: String)
    ensures
        r@ == minify_hex_color_spec(value@),
{
    let length = value.len();
    if length == 6 || length == 8 {
        let chars = value.as_bytes();
        if chars[0] == chars[1] && chars[2] == chars[3] && chars[4] == chars[5] {
            if length == 6 || chars[6] == 102u8 && chars[7] == 102u8 {
                let mut minified = String::new();
                string_push(&mut minified, char_to_ascii_lowercase(chars[0] as char));
                string_push(&mut minified, char_to_ascii_lowercase(chars[2] as char));
                string_push(&mut minified, char_to_ascii_lowercase(chars[4] as char));
                assert(minified@ =~= minify_hex_color_spec(value@));
                return minified;
            } else if length == 8 && chars[6] == chars[7] {
                let mut minified = String::new();
                string_push(&mut minified, char_to_ascii_lowercase(chars[0] as char));
                string_push(&mut minified, char_to_ascii_lowercase(chars[2] as char));
                string_push(&mut minified, char_to_ascii_lowercase(chars[4] as char));
                string_push(&mut minified, char_to_ascii_lowercase(chars[6] as char));
                assert(minified@ =~= minify_hex_color_spec(value@));
                return minified;
            }
        }
    }
    str_to_ascii_lowercase(value)
}

/// The shortened text of a number; see [`minify_number_spec`].
pub fn minify_number(text: &str) -> (r: String)
    ensures
        r@ == minify_number_spec(text@),
{
    let n = text.unicode_len();
    let minified: String = if n >= 2 && text.get_char(0) == '0' && text.get_char(1) == '.' {
        text.substring_char(1, n).to_owned()
    } else if n >= 3 && text.get_char(0) == '-' && text.get_char(1) == '0' && text.get_char(2) == '.' {
        let mut m = String::new();
        m.append("-");
        m.append(text.substring_char(2, n));
        proof {
            reveal_strlit("-");
        }
        m
    } else {
        text.to_owned()
    };
    let ghost mv = strip_leading_zero(text@);
    assert(minified@ =~= mv);
    let m = minified.as_str();
    let ml = m.unicode_len();
    if ml >= 4 && m.get_char(0) == '.' && m.get_char(1) == '0' && m.get_char(2) == '0' && m.get_char(3) == '0' {
        let mut cnt: usize = 3;
        while cnt + 1 < ml && m.get_char(cnt + 1) == '0'
            invariant
                3 <= cnt < ml,
                ml == mv.len(),
                m@ == mv,
                3 + zeros_from(mv, 4) == cnt + zeros_from(mv, cnt + 1),
            decreases ml - cnt,
        {
            cnt = cnt + 1;
        }
        assert(zeros_from(mv, cnt + 1) == 0);
        let rest = m.substring_char(cnt + 1, ml);
        assert(rest@ =~= mv.skip(cnt + 1));
        let remain_len = rest.as_bytes().len();
        let mut r = rest.to_owned();
        r.append("e-");
        let exp = u128_to_string(remain_len as u128 + cnt as u128);
        r.append(exp.as_str());
        proof {
            reveal_strlit("e-");
        }
        let ghost spec_cnt: nat = 3 + zeros_from(mv, 4);
        assert(starts_with_point_000(mv));
        assert(spec_cnt == cnt);
        assert(remain_len == encode_utf8(mv.skip(cnt + 1)).len());
        assert(exp@ == decimal(encode_utf8(mv.skip(spec_cnt + 1 as int)).len() + spec_cnt));
        assert("e-"@ =~= seq!['e', '-']);
        assert(r@ =~= mv.skip(cnt + 1) + seq!['e', '-'] + exp@);
        assert(r@ =~= minify_number_spec(text@));
        r
    } else if ml >= 3 && m.get_char(ml - 1) == '0' && m.get_char(ml - 2) == '0' && m.get_char(ml - 3) == '0' {
        let mut cnt: usize = 3;
        while cnt < ml && m.get_char(ml - cnt - 1) == '0'
            invariant
                3 <= cnt <= ml,
                ml == mv.len(),
                m@ == mv,
                3 + zeros_before(mv, ml - 3) == cnt + zeros_before(mv, ml - cnt),
            decreases ml - cnt,
        {
            cnt = cnt + 1;
        }
        assert(zeros_before(mv, ml - cnt) == 0);
        assert(!starts_with_point_000(mv));
        assert(ends_with_000(mv));
        assert(cnt == 3 + zeros_before(mv, mv.len() - 3));
        let mut r = m.substring_char(0, ml - cnt).to_owned();
        r.append("e");
        let exp = u128_to_string(cnt as u128);
        r.append(exp.as_str());
        proof {
            reveal_strlit("e");
        }
        assert(r@ =~= minify_number_spec(text@));
        r
    } else {
        minified
    }
}

} // verus!
