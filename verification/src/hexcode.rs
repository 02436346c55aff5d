//! Hexadecimal encoding and decoding: an exact specification of the byte
//! and digit correspondence, trusted wrappers over the `hex` crate, and the
//! round-trip law the signing protocol depends on.

use vstd::prelude::*;

verus! {

/// The lowercase hex digit for a value below 16.
pub open spec fn nibble_char(v: u8) -> char
    recommends
        v < 16,
{
    if v < 10 {
        (('0' as u32) + v) as char
    } else {
        (('a' as u32) + (v - 10)) as char
    }
}

/// Holds when `c` is a hex digit, in either case.
pub open spec fn is_hex_char(c: char) -> bool {
    (('0' as u32) <= (c as u32) <= ('9' as u32)) || (('a' as u32) <= (c as u32) <= ('f' as u32))
        || (('A' as u32) <= (c as u32) <= ('F' as u32))
}

/// The value of a hex digit, in either case.
pub open spec fn hex_char_val(c: char) -> u8
    recommends
        is_hex_char(c),
{
    if ('0' as u32) <= (c as u32) <= ('9' as u32) {
        ((c as u32) - ('0' as u32)) as u8
    } else if ('a' as u32) <= (c as u32) <= ('f' as u32) {
        ((c as u32) - ('a' as u32) + 10) as u8
    } else if ('A' as u32) <= (c as u32) <= ('F' as u32) {
        ((c as u32) - ('A' as u32) + 10) as u8
    } else {
        0
    }
}

/// The lowercase hex encoding of `b`: two digits per byte, high nibble first.
pub open spec fn hex_of(b: Seq<u8>) -> Seq<char> {
    Seq::new(
        2 * b.len(),
        |i: int|
            if i % 2 == 0 {
                nibble_char(b[i / 2] >> 4)
            } else {
                nibble_char(b[i / 2] & 0xf)
            },
    )
}

/// Holds when `s` decodes as hex: an even number of digits, either case.
pub open spec fn is_hex_seq(s: Seq<char>) -> bool {
    s.len() % 2 == 0 && (forall|i: int| 0 <= i < s.len() ==> is_hex_char(#[trigger] s[i]))
}

/// The bytes a hex digit sequence decodes to.
pub open spec fn hex_decoded(s: Seq<char>) -> Seq<u8>
    recommends
        is_hex_seq(s),
{
    Seq::new(s.len() / 2, |i: int| (hex_char_val(s[2 * i]) * 16 + hex_char_val(s[2 * i + 1])) as u8)
}

/// Relies on `hex::encode`: each byte becomes two lowercase hex digits,
/// high nibble first.
#[verifier::external_body]
pub(crate) fn hex_encode(data: &[u8]) -> (r: String)
    ensures
        r@ == hex_of(data@),
{
    hex::encode(data)
}

/// Relies on `hex::decode`: succeeds exactly on an even number of hex
/// digits (either case), pairing them into bytes. `hex` works on the
/// string's UTF-8 bytes, which agrees with this character-level
/// contract: a string of hex digits is one byte per character, and any
/// other character contributes at least one byte that is not a hex
/// digit, so the call fails on it either way.
#[verifier::external_body]
pub(crate) fn hex_decode(s: &str) -> (r: Option<Vec<u8>>)
    ensures
        r is Some <==> is_hex_seq(s@),
        r matches Some(v) ==> v@ == hex_decoded(s@),
{
    match hex::decode(s) {
        Ok(v) => Some(v),
        Err(_) => None,
    }
}

/// Encoding a byte sequence as hex and decoding it again yields the
/// original bytes, and the encoding is always a decodable digit sequence
/// of twice the length.
pub proof fn lemma_hex_round_trip(b: Seq<u8>)
    ensures
        hex_of(b).len() == 2 * b.len(),
        is_hex_seq(hex_of(b)),
        hex_decoded(hex_of(b)) == b,
{
    assert(forall|x: u8| (x >> 4) < 16 && (x & 0xf) < 16 && (x >> 4) * 16 + (x & 0xf) == x)
        by (bit_vector);
    assert forall|i: int| 0 <= i < hex_of(b).len() implies is_hex_char(#[trigger] hex_of(b)[i]) by {
        let v = if i % 2 == 0 {
            b[i / 2] >> 4
        } else {
            b[i / 2] & 0xf
        };
        assert(v < 16);
        assert(is_hex_char(nibble_char(v)));
    }
    assert forall|i: int| 0 <= i < b.len() implies hex_decoded(hex_of(b))[i] == b[i] by {
        let hi = b[i] >> 4;
        let lo = b[i] & 0xf;
        assert(hex_of(b)[2 * i] == nibble_char(hi));
        assert(hex_of(b)[2 * i + 1] == nibble_char(lo));
        assert(hex_char_val(nibble_char(hi)) == hi);
        assert(hex_char_val(nibble_char(lo)) == lo);
    }
    assert(hex_decoded(hex_of(b)) =~= b);
}

} // verus!
