//! The `#rrggbb` notation of an 8-bit sRGB triplet.
//!
//! Each channel is written as exactly two lowercase hexadecimal digits, most
//! significant digit first, after a leading `#`: the notation CSS and most
//! color pickers accept.

use vstd::prelude::*;

verus! {

/// The sixteen hexadecimal digits, in lowercase, indexed by their value.
pub open spec fn hex_digits() -> Seq<char> {
    seq!['0', '1', '2', '3', '4', '5', '6', '7', '8', '9', 'a', 'b', 'c', 'd', 'e', 'f']
}

/// The lowercase hexadecimal digit of the value `n` (`0 <= n < 16`).
pub open spec fn hex_digit(n: int) -> char
    recommends
        0 <= n < 16,
{
    hex_digits()[n]
}

/// The value of a lowercase hexadecimal digit, or -1 for any other character.
pub open spec fn hex_digit_value(c: char) -> int {
    if '0' <= c && c <= '9' {
        c as int - '0' as int
    } else if 'a' <= c && c <= 'f' {
        c as int - 'a' as int + 10
    } else {
        -1
    }
}

/// Whether `c` is one of `0`-`9` or `a`-`f`.
pub open spec fn is_lower_hex_digit(c: char) -> bool {
    ('0' <= c && c <= '9') || ('a' <= c && c <= 'f')
}

/// The two-digit, zero-padded, lowercase hexadecimal notation of a byte.
pub open spec fn byte_hex(v: u8) -> Seq<char> {
    seq![hex_digit(v as int / 16), hex_digit(v as int % 16)]
}

/// The `#rrggbb` notation of the triplet `(r, g, b)`.
pub open spec fn hex_triplet(r: u8, g: u8, b: u8) -> Seq<char> {
    seq!['#'] + byte_hex(r) + byte_hex(g) + byte_hex(b)
}

/// Returns the one-character string holding the hexadecimal digit of `n`.
fn digit_str(n: u8) -> (s: &'static str)
    requires
        n < 16,
    ensures
        s@ == seq![hex_digit(n as int)],
{
    let digits = "0123456789abcdef";
    proof {
        reveal_strlit("0123456789abcdef");
        assert(digits@ == hex_digits());
    }
    let n = n as usize;
    digits.substring_ascii(n, n + 1)
}

/// Appends the two hexadecimal digits of `v` to `text`.
fn push_byte_hex(text: &mut String, v: u8)
    ensures
        final(text)@ == old(text)@ + byte_hex(v),
{
    text.append(digit_str(v / 16));
    text.append(digit_str(v % 16));
}

/// Formats an 8-bit triplet as a `#rrggbb` string: a `#` followed by the two
/// zero-padded, lowercase hexadecimal digits of red, green and blue.
pub fn rgb8_to_hex(rgb: (u8, u8, u8)) -> (text: String)
    ensures
        text@ == hex_triplet(rgb.0, rgb.1, rgb.2),
{
    let mut text = String::from_str("#");
    proof {
        reveal_strlit("#");
    }
    push_byte_hex(&mut text, rgb.0);
    push_byte_hex(&mut text, rgb.1);
    push_byte_hex(&mut text, rgb.2);
    text
}

/// Every value below sixteen has a lowercase digit, which reads back as it.
proof fn lemma_hex_digit(n: int)
    requires
        0 <= n < 16,
    ensures
        is_lower_hex_digit(hex_digit(n)),
        hex_digit_value(hex_digit(n)) == n,
{
    let d = hex_digits();
    assert(d[0] == '0' && d[1] == '1' && d[2] == '2' && d[3] == '3');
    assert(d[4] == '4' && d[5] == '5' && d[6] == '6' && d[7] == '7');
    assert(d[8] == '8' && d[9] == '9' && d[10] == 'a' && d[11] == 'b');
    assert(d[12] == 'c' && d[13] == 'd' && d[14] == 'e' && d[15] == 'f');
}

/// The notation of a byte is two lowercase digits that read back as it.
proof fn lemma_byte_hex(v: u8)
    ensures
        byte_hex(v).len() == 2,
        is_lower_hex_digit(byte_hex(v)[0]),
        is_lower_hex_digit(byte_hex(v)[1]),
        16 * hex_digit_value(byte_hex(v)[0]) + hex_digit_value(byte_hex(v)[1]) == v,
{
    lemma_hex_digit(v as int / 16);
    lemma_hex_digit(v as int % 16);
}

/// The notation of any triplet is seven characters long: a `#` and six
/// lowercase hexadecimal digits, so it never needs padding or case folding.
pub proof fn lemma_hex_triplet_shape(r: u8, g: u8, b: u8)
    ensures
        hex_triplet(r, g, b).len() == 7,
        hex_triplet(r, g, b)[0] == '#',
        forall|i: int| 1 <= i < 7 ==> is_lower_hex_digit(#[trigger] hex_triplet(r, g, b)[i]),
{
    lemma_byte_hex(r);
    lemma_byte_hex(g);
    lemma_byte_hex(b);
    let t = hex_triplet(r, g, b);
    assert(t[1] == byte_hex(r)[0] && t[2] == byte_hex(r)[1]);
    assert(t[3] == byte_hex(g)[0] && t[4] == byte_hex(g)[1]);
    assert(t[5] == byte_hex(b)[0] && t[6] == byte_hex(b)[1]);
}

/// The notation of a triplet reads back as that triplet: each pair of digits
/// after the `#` gives one channel, most significant digit first.
pub proof fn lemma_hex_triplet_reads_back(r: u8, g: u8, b: u8)
    ensures
        ({
            let t = hex_triplet(r, g, b);
            &&& 16 * hex_digit_value(t[1]) + hex_digit_value(t[2]) == r
            &&& 16 * hex_digit_value(t[3]) + hex_digit_value(t[4]) == g
            &&& 16 * hex_digit_value(t[5]) + hex_digit_value(t[6]) == b
        }),
{
    lemma_byte_hex(r);
    lemma_byte_hex(g);
    lemma_byte_hex(b);
    let t = hex_triplet(r, g, b);
    assert(t[1] == byte_hex(r)[0] && t[2] == byte_hex(r)[1]);
    assert(t[3] == byte_hex(g)[0] && t[4] == byte_hex(g)[1]);
    assert(t[5] == byte_hex(b)[0] && t[6] == byte_hex(b)[1]);
}

/// Distinct triplets never share a notation.
pub proof fn lemma_hex_triplet_injective(a: (u8, u8, u8), b: (u8, u8, u8))
    requires
        hex_triplet(a.0, a.1, a.2) == hex_triplet(b.0, b.1, b.2),
    ensures
        a == b,
{
    lemma_hex_triplet_reads_back(a.0, a.1, a.2);
    lemma_hex_triplet_reads_back(b.0, b.1, b.2);
}

} // verus!
