//! Byte-to-text conversions: hex encoding and best-effort UTF-8 decoding.

use vstd::prelude::*;
use vstd::utf8::{decode_utf8, valid_utf8};

verus! {

/// The uppercase hexadecimal digit for a value below sixteen.
pub open spec fn hex_digit(n: int) -> char
    recommends
        0 <= n < 16,
{
    if n == 0 {
        '0'
    } else if n == 1 {
        '1'
    } else if n == 2 {
        '2'
    } else if n == 3 {
        '3'
    } else if n == 4 {
        '4'
    } else if n == 5 {
        '5'
    } else if n == 6 {
        '6'
    } else if n == 7 {
        '7'
    } else if n == 8 {
        '8'
    } else if n == 9 {
        '9'
    } else if n == 10 {
        'A'
    } else if n == 11 {
        'B'
    } else if n == 12 {
        'C'
    } else if n == 13 {
        'D'
    } else if n == 14 {
        'E'
    } else {
        'F'
    }
}

/// A byte as exactly two uppercase hexadecimal digits, zero-padded.
pub open spec fn hex_pair(b: u8) -> Seq<char> {
    seq![hex_digit(b as int / 16), hex_digit(b as int % 16)]
}

/// A byte sequence rendered as hexadecimal: two uppercase digits per byte,
/// concatenated in input order with no separators.
pub open spec fn hex_render(bytes: Seq<u8>) -> Seq<char>
    decreases bytes.len(),
{
    if bytes.len() == 0 {
        Seq::empty()
    } else {
        hex_render(bytes.drop_last()) + hex_pair(bytes.last())
    }
}

/// The rendering of a byte sequence in hexadecimal has two characters per
/// byte.
pub proof fn lemma_hex_render_len(bytes: Seq<u8>)
    ensures
        hex_render(bytes).len() == 2 * bytes.len(),
    decreases bytes.len(),
{
    if bytes.len() > 0 {
        lemma_hex_render_len(bytes.drop_last());
    }
}

/// Relies on String::push: it appends the given character to the end of the
/// string.
#[verifier::external_body]
fn push_char(s: &mut String, c: char)
    ensures
        final(s)@ == old(s)@.push(c),
{
    s.push(c);
}

/// The uppercase hexadecimal digit for a value below sixteen.
fn hex_digit_char(n: u8) -> (c: char)
    requires
        n < 16,
    ensures
        c == hex_digit(n as int),
{
    match n {
        0 => '0',
        1 => '1',
        2 => '2',
        3 => '3',
        4 => '4',
        5 => '5',
        6 => '6',
        7 => '7',
        8 => '8',
        9 => '9',
        10 => 'A',
        11 => 'B',
        12 => 'C',
        13 => 'D',
        14 => 'E',
        _ => 'F',
    }
}

/// Renders a byte sequence as a string of uppercase hexadecimal digits: two
/// zero-padded digits per byte, in input order, with no separators. The
/// empty input gives the empty string.
pub fn make_hex_string(bytes: &[u8]) -> (result: String)
    ensures
        result@ == hex_render(bytes@),
        result@.len() == 2 * bytes@.len(),
{
    let mut out = String::new();
    let mut i: usize = 0;
    while i < bytes.len()
        invariant
            i <= bytes@.len(),
            out@ == hex_render(bytes@.take(i as int)),
        decreases bytes@.len() - i,
    {
        let b: u8 = bytes[i];
        push_char(&mut out, hex_digit_char(b / 16));
        push_char(&mut out, hex_digit_char(b % 16));
        proof {
            let taken = bytes@.take(i + 1);
            assert(taken.drop_last() =~= bytes@.take(i as int));
            assert(taken.last() == bytes@[i as int]);
        }
        i += 1;
    }
    proof {
        assert(bytes@.take(bytes@.len() as int) =~= bytes@);
        lemma_hex_render_len(bytes@);
    }
    out
}

/// The decimal digit character for a value below ten.
pub open spec fn dec_digit(n: int) -> char
    recommends
        0 <= n < 10,
{
    if n == 0 {
        '0'
    } else if n == 1 {
        '1'
    } else if n == 2 {
        '2'
    } else if n == 3 {
        '3'
    } else if n == 4 {
        '4'
    } else if n == 5 {
        '5'
    } else if n == 6 {
        '6'
    } else if n == 7 {
        '7'
    } else if n == 8 {
        '8'
    } else {
        '9'
    }
}

/// A byte value written in decimal, without padding: one digit below ten,
/// two below one hundred, three otherwise.
pub open spec fn dec_render(n: int) -> Seq<char>
    recommends
        0 <= n < 256,
{
    if n < 10 {
        seq![dec_digit(n)]
    } else if n < 100 {
        seq![dec_digit(n / 10), dec_digit(n % 10)]
    } else {
        seq![dec_digit(n / 100), dec_digit((n / 10) % 10), dec_digit(n % 10)]
    }
}

/// The elements of a byte sequence written in decimal and separated by a
/// comma and a space.
pub open spec fn byte_list_render(bytes: Seq<u8>) -> Seq<char>
    decreases bytes.len(),
{
    if bytes.len() == 0 {
        Seq::empty()
    } else if bytes.len() == 1 {
        dec_render(bytes[0] as int)
    } else {
        byte_list_render(bytes.drop_last()) + seq![',', ' '] + dec_render(bytes.last() as int)
    }
}

/// A byte sequence rendered the way a debugger would show it: the decimal
/// byte values, comma-and-space separated, between square brackets.
pub open spec fn debug_render(bytes: Seq<u8>) -> Seq<char> {
    seq!['['] + byte_list_render(bytes) + seq![']']
}

/// The decimal digit character for a value below ten.
fn dec_digit_char(n: u8) -> (c: char)
    requires
        n < 10,
    ensures
        c == dec_digit(n as int),
{
    match n {
        0 => '0',
        1 => '1',
        2 => '2',
        3 => '3',
        4 => '4',
        5 => '5',
        6 => '6',
        7 => '7',
        8 => '8',
        _ => '9',
    }
}

/// Appends the decimal rendering of one byte value.
fn push_decimal(out: &mut String, b: u8)
    ensures
        final(out)@ == old(out)@ + dec_render(b as int),
{
    if b >= 100 {
        push_char(out, dec_digit_char(b / 100));
    }
    if b >= 10 {
        push_char(out, dec_digit_char((b / 10) % 10));
    }
    push_char(out, dec_digit_char(b % 10));
}

/// Renders a byte slice as its bracketed, comma-separated decimal listing.
fn render_bytes(data: &[u8]) -> (result: String)
    ensures
        result@ == debug_render(data@),
{
    let mut out = String::new();
    push_char(&mut out, '[');
    let mut i: usize = 0;
    while i < data.len()
        invariant
            i <= data@.len(),
            out@ == seq!['['] + byte_list_render(data@.take(i as int)),
        decreases data@.len() - i,
    {
        if i > 0 {
            push_char(&mut out, ',');
            push_char(&mut out, ' ');
        }
        push_decimal(&mut out, data[i]);
        proof {
            let taken = data@.take(i + 1);
            assert(taken.drop_last() =~= data@.take(i as int));
            assert(taken.last() == data@[i as int]);
            if i == 0 {
                assert(byte_list_render(taken) == dec_render(data@[0] as int));
            }
        }
        i += 1;
    }
    push_char(&mut out, ']');
    proof {
        assert(data@.take(data@.len() as int) =~= data@);
    }
    out
}

/// Relies on String::from_utf8: it succeeds exactly on valid UTF-8 input
/// and then returns the text that the bytes encode; the outcome depends on
/// the bytes alone.
#[verifier::external_body]
fn utf8_string(data: Vec<u8>) -> (r: Option<String>)
    ensures
        match r {
            Some(s) => valid_utf8(data@) && s@ == decode_utf8(data@),
            None => !valid_utf8(data@),
        },
{
    match String::from_utf8(data) {
        Ok(s) => Some(s),
        Err(_) => None,
    }
}

/// Decodes a byte vector as UTF-8 text, falling back to the bracketed
/// decimal listing of the bytes when they are not valid UTF-8. Never fails:
/// invalid input degrades to the (never empty) fallback rendering.
pub fn to_string(data: &Vec<u8>) -> (result: String)
    ensures
        valid_utf8(data@) ==> result@ == decode_utf8(data@),
        !valid_utf8(data@) ==> result@ == debug_render(data@) && result@.len() > 0,
{
    to_string_s(data.as_slice())
}

/// Decodes a byte slice as UTF-8 text, falling back to the bracketed
/// decimal listing of the bytes when they are not valid UTF-8. Never fails:
/// invalid input degrades to the (never empty) fallback rendering.
pub fn to_string_s(data: &[u8]) -> (result: String)
    ensures
        valid_utf8(data@) ==> result@ == decode_utf8(data@),
        !valid_utf8(data@) ==> result@ == debug_render(data@) && result@.len() > 0,
{
    match utf8_string(vstd::slice::slice_to_vec(data)) {
        Some(s) => s,
        None => render_bytes(data),
    }
}

} // verus!
