//! Base64: the text that stands for bytes, and the bytes that a text stands
//! for.

use vstd::prelude::*;

verus! {

/// The six bits at place `i` of the bits of the bytes, first bit first, with
/// zeros behind the last.
pub open spec fn sextet(bytes: Seq<u8>, i: int) -> int {
    let at = i * 6 / 8;
    let shift = i * 6 % 8;
    let word = bytes[at] * 256 + (if at + 1 < bytes.len() {
        bytes[at + 1] as int
    } else {
        0
    });
    if shift == 0 {
        word / 1024 % 64
    } else if shift == 2 {
        word / 256 % 64
    } else if shift == 4 {
        word / 64 % 64
    } else {
        word / 16 % 64
    }
}

/// The character of six bits; the last two differ between the alphabets.
pub open spec fn base64_char(value: int, url_safe: bool) -> char {
    if value < 26 {
        ('A' as int + value) as char
    } else if value < 52 {
        ('a' as int + value - 26) as char
    } else if value < 62 {
        ('0' as int + value - 52) as char
    } else if value == 62 {
        if url_safe {
            '-'
        } else {
            '+'
        }
    } else {
        if url_safe {
            '_'
        } else {
            '/'
        }
    }
}

/// How many characters so many bytes take without padding.
pub open spec fn sextets(len: nat) -> nat {
    (len * 8 + 5) / 6
}

/// The text of the bytes in the URL-safe alphabet, without padding.
pub open spec fn url_base64_text(bytes: Seq<u8>) -> Seq<char> {
    Seq::new(sextets(bytes.len()), |i: int| base64_char(sextet(bytes, i), true))
}

/// The text of the bytes in the standard alphabet, padded to a multiple of four.
pub open spec fn standard_base64_text(bytes: Seq<u8>) -> Seq<char> {
    Seq::new(
        ((bytes.len() + 2) / 3 * 4) as nat,
        |i: int|
            if i < sextets(bytes.len()) {
                base64_char(sextet(bytes, i), false)
            } else {
                '='
            },
    )
}

/// The bytes that a text in the standard alphabet stands for, where it is the
/// text of any.
pub open spec fn standard_base64_bytes(text: Seq<char>) -> Option<Seq<u8>> {
    if exists|bytes: Seq<u8>| #[trigger] standard_base64_text(bytes) == text {
        Some(choose|bytes: Seq<u8>| #[trigger] standard_base64_text(bytes) == text)
    } else {
        None
    }
}

proof fn lemma_sextet_range(bytes: Seq<u8>, i: int)
    requires
        0 <= i < sextets(bytes.len()),
    ensures
        0 <= sextet(bytes, i) < 64,
{
}

/// Six bits have a character of their own, which is not the padding.
proof fn lemma_char_apart(a: int, b: int)
    requires
        0 <= a < 64,
        0 <= b < 64,
    ensures
        base64_char(a, false) != '=',
        base64_char(a, false) == base64_char(b, false) ==> a == b,
{
}

/// The byte at a place, from the six bits that hold it.
spec fn byte_of(bytes: Seq<u8>, j: int) -> int {
    let k = j / 3;
    if j % 3 == 0 {
        sextet(bytes, 4 * k) * 4 + sextet(bytes, 4 * k + 1) / 16
    } else if j % 3 == 1 {
        sextet(bytes, 4 * k + 1) % 16 * 16 + sextet(bytes, 4 * k + 2) / 4
    } else {
        sextet(bytes, 4 * k + 2) % 4 * 64 + sextet(bytes, 4 * k + 3)
    }
}

/// Where the six bits of a group of three bytes come from.
proof fn lemma_group(bytes: Seq<u8>, k: int)
    requires
        0 <= k,
    ensures
        sextet(bytes, 4 * k) == bytes[3 * k] / 4,
        sextet(bytes, 4 * k + 1) == bytes[3 * k] % 4 * 16 + (if 3 * k + 1 < bytes.len() {
            bytes[3 * k + 1] / 16
        } else {
            0
        }),
        sextet(bytes, 4 * k + 2) == bytes[3 * k + 1] % 16 * 4 + (if 3 * k + 2 < bytes.len() {
            bytes[3 * k + 2] / 64
        } else {
            0
        }),
        sextet(bytes, 4 * k + 3) == bytes[3 * k + 2] % 64,
{
    assert(4 * k * 6 / 8 == 3 * k && 4 * k * 6 % 8 == 0);
    assert((4 * k + 1) * 6 / 8 == 3 * k && (4 * k + 1) * 6 % 8 == 6);
    assert((4 * k + 2) * 6 / 8 == 3 * k + 1 && (4 * k + 2) * 6 % 8 == 4);
    assert((4 * k + 3) * 6 / 8 == 3 * k + 2 && (4 * k + 3) * 6 % 8 == 2);
    lemma_word(bytes[3 * k], bytes[3 * k + 1]);
    lemma_word(bytes[3 * k], 0);
    lemma_word(bytes[3 * k + 1], bytes[3 * k + 2]);
    lemma_word(bytes[3 * k + 1], 0);
    lemma_word(bytes[3 * k + 2], bytes[3 * k + 3]);
    lemma_word(bytes[3 * k + 2], 0);
}

/// The six bits at each place of two bytes.
proof fn lemma_word(x: u8, y: u8)
    ensures
        (x * 256 + y) / 1024 % 64 == x / 4,
        (x * 256 + y) / 256 % 64 == x % 64,
        (x * 256 + y) / 64 % 64 == x % 16 * 4 + y / 64,
        (x * 256 + y) / 16 % 64 == x % 4 * 16 + y / 16,
{
    let w: int = x * 256 + y;
    lemma_digits(w, 1024, x as int / 4, x as int % 4 * 256 + y);
    lemma_digits(w, 256, x as int, y as int);
    lemma_digits(w, 64, x * 4 + y as int / 64, y as int % 64);
    lemma_digits(x * 4 + y as int / 64, 64, x as int / 16, x as int % 16 * 4 + y as int / 64);
    lemma_digits(w, 16, x * 16 + y as int / 16, y as int % 16);
    lemma_digits(x * 16 + y as int / 16, 64, x as int / 4, x as int % 4 * 16 + y as int / 16);
}

/// A number's quotient and remainder, where it is known as their sum.
proof fn lemma_digits(number: int, base: int, quotient: int, rest: int)
    requires
        base > 0,
        0 <= rest < base,
        number == quotient * base + rest,
    ensures
        number / base == quotient,
        number % base == rest,
{
    vstd::arithmetic::div_mod::lemma_fundamental_div_mod_converse(number, base, quotient, rest);
}

proof fn lemma_byte_of(bytes: Seq<u8>, j: int)
    requires
        0 <= j < bytes.len(),
    ensures
        bytes[j] == byte_of(bytes, j),
{
    let k = j / 3;
    lemma_group(bytes, k);
    assert(j == 3 * k + j % 3);
    if j % 3 == 0 {
        assert(j == 3 * k);
    } else if j % 3 == 1 {
        assert(j == 3 * k + 1);
    } else {
        assert(j == 3 * k + 2);
    }
}

/// Different bytes have different texts.
pub proof fn a_text_stands_for_one_sequence(a: Seq<u8>, b: Seq<u8>)
    requires
        standard_base64_text(a) == standard_base64_text(b),
    ensures
        a == b,
{
    let text = standard_base64_text(a);
    assert(text == standard_base64_text(b));
    assert(text.len() == (a.len() + 2) / 3 * 4);
    assert(text.len() == (b.len() + 2) / 3 * 4);
    if a.len() < b.len() {
        lemma_longer(a, b);
    }
    if b.len() < a.len() {
        lemma_longer(b, a);
    }
    assert forall|i: int| 0 <= i < sextets(a.len()) implies sextet(a, i) == sextet(b, i) by {
        lemma_sextet_range(a, i);
        lemma_sextet_range(b, i);
        lemma_char_apart(sextet(a, i), sextet(b, i));
        assert(text[i] == base64_char(sextet(a, i), false));
        assert(standard_base64_text(b)[i] == base64_char(sextet(b, i), false));
    }
    assert forall|j: int| 0 <= j < a.len() implies a[j] == b[j] by {
        lemma_byte_of(a, j);
        lemma_byte_of(b, j);
    }
    assert(a =~= b);
}

/// A longer sequence has a character where the padding of the other begins.
proof fn lemma_longer(a: Seq<u8>, b: Seq<u8>)
    requires
        a.len() < b.len(),
    ensures
        standard_base64_text(a) != standard_base64_text(b),
{
    let i = sextets(a.len()) as int;
    if standard_base64_text(a) == standard_base64_text(b) {
        assert(standard_base64_text(a).len() == standard_base64_text(b).len());
        assert(i < sextets(b.len()));
        assert(standard_base64_text(a)[i] == '=');
        lemma_sextet_range(b, i);
        lemma_char_apart(sextet(b, i), 0);
        assert(standard_base64_text(b)[i] == base64_char(sextet(b, i), false));
    }
}

/// A text stands for the bytes that it was made of.
pub proof fn what_was_written_is_read(bytes: Seq<u8>)
    ensures
        standard_base64_bytes(standard_base64_text(bytes)) == Some(bytes),
{
    let text = standard_base64_text(bytes);
    let found = choose|found: Seq<u8>| #[trigger] standard_base64_text(found) == text;
    a_text_stands_for_one_sequence(found, bytes);
}

/// Three bytes are written as four times six bits, in their order.
pub proof fn three_bytes_are_four_characters(bytes: Seq<u8>, k: int)
    requires
        0 <= k,
        3 * k + 2 < bytes.len(),
    ensures
        sextet(bytes, 4 * k) * 262_144 + sextet(bytes, 4 * k + 1) * 4_096
            + sextet(bytes, 4 * k + 2) * 64 + sextet(bytes, 4 * k + 3)
            == bytes[3 * k] * 65_536 + bytes[3 * k + 1] * 256 + bytes[3 * k + 2],
{
    lemma_group(bytes, k);
    let a = bytes[3 * k] as int;
    let b = bytes[3 * k + 1] as int;
    let c = bytes[3 * k + 2] as int;
    assert(a == a / 4 * 4 + a % 4);
    assert(b == b / 16 * 16 + b % 16);
    assert(c == c / 64 * 64 + c % 64);
}

} // verus!
