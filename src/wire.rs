//! Byte-level encodings shared by the protocols: little-endian 32-bit
//! integers and fixed-width ASCII hexadecimal numbers.

use byteorder::{ByteOrder, LittleEndian};
use vstd::prelude::*;

verus! {

/// The value of four bytes read as a little-endian 32-bit integer.
pub open spec fn le_u32(b: Seq<u8>) -> nat
    recommends
        b.len() >= 4,
{
    b[0] as nat + 256 * (b[1] as nat) + 65536 * (b[2] as nat) + 16777216 * (b[3] as nat)
}

/// The four little-endian bytes of `n`.
pub open spec fn le_bytes(n: u32) -> Seq<u8> {
    seq![
        (n % 256) as u8,
        ((n / 256) % 256) as u8,
        ((n / 65536) % 256) as u8,
        ((n / 16777216) % 256) as u8,
    ]
}

/// Reading back the little-endian bytes of `n` gives `n`.
pub proof fn lemma_le_round_trip(n: u32)
    ensures
        le_bytes(n).len() == 4,
        le_u32(le_bytes(n)) == n as nat,
{
    let b = le_bytes(n);
    assert(b[0] as nat == n as nat % 256);
    assert(b[1] as nat == (n as nat / 256) % 256);
    assert(b[2] as nat == (n as nat / 65536) % 256);
    assert(b[3] as nat == (n as nat / 16777216) % 256);
    assert(n as nat == n as nat % 256 + 256 * ((n as nat / 256) % 256) + 65536 * ((n as nat
        / 65536) % 256) + 16777216 * ((n as nat / 16777216) % 256)) by (nonlinear_arith)
        requires
            n as nat <= 0xffff_ffff,
    ;
}

/// Relies on byteorder's `LittleEndian::read_u32`, which reads the first four
/// bytes of the slice as a little-endian integer and panics on a shorter one.
#[verifier::external_body]
pub(crate) fn read_le_u32(buf: &[u8]) -> (r: u32)
    requires
        buf@.len() >= 4,
    ensures
        r as nat == le_u32(buf@),
{
    LittleEndian::read_u32(buf)
}

/// Relies on byteorder's `LittleEndian::write_u32`, which stores `n` into the
/// first four bytes of the buffer in little-endian order.
#[verifier::external_body]
pub(crate) fn write_le_u32(n: u32) -> (r: [u8; 4])
    ensures
        r@ == le_bytes(n),
{
    let mut buf = [0u8; 4];
    LittleEndian::write_u32(&mut buf, n);
    buf
}

} // verus!

verus! {

/// The value of one ASCII hexadecimal digit, of either case.
pub open spec fn hex_digit_value(c: u8) -> Option<nat> {
    if 48 <= c <= 57 {
        Some((c - 48) as nat)
    } else if 97 <= c <= 102 {
        Some((c - 87) as nat)
    } else if 65 <= c <= 70 {
        Some((c - 55) as nat)
    } else {
        None
    }
}

/// The lowercase ASCII digit for a value below 16.
pub open spec fn hex_digit(d: nat) -> u8 {
    if d < 10 {
        (48 + d) as u8
    } else {
        (87 + d) as u8
    }
}

/// `n` written as four lowercase hexadecimal digits, most significant first.
pub open spec fn hex4(n: nat) -> Seq<u8> {
    seq![
        hex_digit((n / 4096) % 16),
        hex_digit((n / 256) % 16),
        hex_digit((n / 16) % 16),
        hex_digit(n % 16),
    ]
}

/// The number that the first four bytes spell in hexadecimal, if all four
/// are hexadecimal digits.
pub open spec fn parse_hex4(b: Seq<u8>) -> Option<nat>
    recommends
        b.len() >= 4,
{
    match (
        hex_digit_value(b[0]),
        hex_digit_value(b[1]),
        hex_digit_value(b[2]),
        hex_digit_value(b[3]),
    ) {
        (Some(d0), Some(d1), Some(d2), Some(d3)) => Some(4096 * d0 + 256 * d1 + 16 * d2 + d3),
        _ => None,
    }
}

/// Parsing the hexadecimal text of a 16-bit number gives the number back.
pub proof fn lemma_hex4_round_trip(n: nat)
    requires
        n <= 0xffff,
    ensures
        hex4(n).len() == 4,
        parse_hex4(hex4(n)) == Some(n),
{
    let d0 = (n / 4096) % 16;
    let d1 = (n / 256) % 16;
    let d2 = (n / 16) % 16;
    let d3 = n % 16;
    assert(n == 4096 * d0 + 256 * d1 + 16 * d2 + d3) by (nonlinear_arith)
        requires
            n <= 0xffff,
            d0 == (n / 4096) % 16,
            d1 == (n / 256) % 16,
            d2 == (n / 16) % 16,
            d3 == n % 16,
    ;
    let h = hex4(n);
    assert(hex_digit_value(h[0]) == Some(d0));
    assert(hex_digit_value(h[1]) == Some(d1));
    assert(hex_digit_value(h[2]) == Some(d2));
    assert(hex_digit_value(h[3]) == Some(d3));
}

fn hex_value(c: u8) -> (r: Option<u32>)
    ensures
        match hex_digit_value(c) {
            Some(v) => r == Some(v as u32),
            None => r is None,
        },
{
    if 48 <= c && c <= 57 {
        Some((c - 48) as u32)
    } else if 97 <= c && c <= 102 {
        Some((c - 87) as u32)
    } else if 65 <= c && c <= 70 {
        Some((c - 55) as u32)
    } else {
        None
    }
}

/// Reads the first four bytes as a hexadecimal number.
pub fn decode_hex4(b: &[u8]) -> (r: Option<u32>)
    requires
        b@.len() >= 4,
    ensures
        match parse_hex4(b@) {
            Some(v) => r == Some(v as u32),
            None => r is None,
        },
{
    match (hex_value(b[0]), hex_value(b[1]), hex_value(b[2]), hex_value(b[3])) {
        (Some(d0), Some(d1), Some(d2), Some(d3)) => Some(4096 * d0 + 256 * d1 + 16 * d2 + d3),
        _ => None,
    }
}

fn hex_char(d: u32) -> (r: u8)
    requires
        d < 16,
    ensures
        r == hex_digit(d as nat),
{
    if d < 10 {
        (48 + d) as u8
    } else {
        (87 + d) as u8
    }
}

/// Writes `n` as four lowercase hexadecimal digits.
pub fn encode_hex4(n: u32) -> (r: Vec<u8>)
    requires
        n <= 0xffff,
    ensures
        r@ == hex4(n as nat),
{
    let mut r: Vec<u8> = Vec::new();
    r.push(hex_char((n / 4096) % 16));
    r.push(hex_char((n / 256) % 16));
    r.push(hex_char((n / 16) % 16));
    r.push(hex_char(n % 16));
    assert(r@ =~= hex4(n as nat));
    r
}

/// Appends `b` to the end of `out`.
pub fn append_bytes(out: &mut Vec<u8>, b: &[u8])
    requires
        old(out)@.len() + b@.len() <= usize::MAX,
    ensures
        final(out)@ == old(out)@ + b@,
{
    let ghost start = out@;
    let mut i: usize = 0;
    while i < b.len()
        invariant
            i <= b@.len(),
            out@ == start + b@.subrange(0, i as int),
        decreases b@.len() - i,
    {
        out.push(b[i]);
        i = i + 1;
        assert(out@ =~= start + b@.subrange(0, i as int));
    }
    assert(b@.subrange(0, b@.len() as int) =~= b@);
}

} // verus!
