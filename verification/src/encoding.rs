//! Byte encodings the beacon protocol relies on: the little-endian layout
//! that bincode gives a 64-bit integer, and lowercase hexadecimal text.

use vstd::prelude::*;

verus! {

/// The eight bytes of `v`, least significant first.
pub open spec fn u64_le_bytes(v: u64) -> Seq<u8> {
    seq![
        v as u8,
        (v >> 8u64) as u8,
        (v >> 16u64) as u8,
        (v >> 24u64) as u8,
        (v >> 32u64) as u8,
        (v >> 40u64) as u8,
        (v >> 48u64) as u8,
        (v >> 56u64) as u8,
    ]
}

/// The two's complement bytes of `x`, least significant first.
pub open spec fn i64_le_bytes(x: i64) -> Seq<u8> {
    u64_le_bytes(x as u64)
}

/// Distinct integers have distinct little-endian encodings.
pub proof fn lemma_i64_le_bytes_injective(a: i64, b: i64)
    requires
        i64_le_bytes(a) == i64_le_bytes(b),
    ensures
        a == b,
{
    let ea = i64_le_bytes(a);
    let eb = i64_le_bytes(b);
    assert(ea[0] == eb[0] && ea[1] == eb[1] && ea[2] == eb[2] && ea[3] == eb[3]);
    assert(ea[4] == eb[4] && ea[5] == eb[5] && ea[6] == eb[6] && ea[7] == eb[7]);
    let x = a as u64;
    let y = b as u64;
    assert(x == y) by (bit_vector)
        requires
            x as u8 == y as u8,
            (x >> 8u64) as u8 == (y >> 8u64) as u8,
            (x >> 16u64) as u8 == (y >> 16u64) as u8,
            (x >> 24u64) as u8 == (y >> 24u64) as u8,
            (x >> 32u64) as u8 == (y >> 32u64) as u8,
            (x >> 40u64) as u8 == (y >> 40u64) as u8,
            (x >> 48u64) as u8 == (y >> 48u64) as u8,
            (x >> 56u64) as u8 == (y >> 56u64) as u8,
    ;
    assert(a == b) by (bit_vector)
        requires
            a as u64 == b as u64,
    ;
}

/// The eight bytes are the digits of `x`'s two's complement value in base
/// 256, least significant first.
pub proof fn lemma_i64_le_bytes_value(x: i64)
    ensures
        ({
            let b = i64_le_bytes(x);
            &&& b.len() == 8
            &&& x as u64 == b[0] as u64 | (b[1] as u64) << 8u64 | (b[2] as u64) << 16u64 | (b[3] as u64)
                << 24u64 | (b[4] as u64) << 32u64 | (b[5] as u64) << 40u64 | (b[6] as u64) << 48u64 | (
            b[7] as u64) << 56u64
        }),
{
    let v = x as u64;
    assert(v == (v as u8) as u64 | ((v >> 8u64) as u8 as u64) << 8u64 | ((v >> 16u64) as u8 as u64)
        << 16u64 | ((v >> 24u64) as u8 as u64) << 24u64 | ((v >> 32u64) as u8 as u64) << 32u64 | ((v
        >> 40u64) as u8 as u64) << 40u64 | ((v >> 48u64) as u8 as u64) << 48u64 | ((v >> 56u64) as u8
        as u64) << 56u64) by (bit_vector);
}

#[verifier::external_type_specification]
#[verifier::external_body]
pub struct ExBincodeErrorKind(bincode::ErrorKind);

/// Calls `bincode::serialize` on an `i64`. With bincode's default options
/// (fixed-width integers, little-endian, no size limit) the source writes
/// the integer as its eight little-endian bytes into a fresh `Vec`, which
/// cannot fail; the contract claims exactly that.
#[verifier::external_body]
pub(crate) fn bincode_serialize_i64(value: i64) -> (r: Result<Vec<u8>, Box<bincode::ErrorKind>>)
    ensures
        r is Ok,
        r->Ok_0@ == i64_le_bytes(value),
{
    bincode::serialize(&value)
}

/// The lowercase hexadecimal digit for `n`, which is below 16.
pub open spec fn hex_digit(n: u8) -> char {
    if n < 10 {
        (48 + n) as char
    } else {
        (87 + n) as char
    }
}

/// Each byte as two lowercase hexadecimal digits, high nibble first.
pub open spec fn hex_lower(bytes: Seq<u8>) -> Seq<char>
    decreases bytes.len(),
{
    if bytes.len() == 0 {
        seq![]
    } else {
        seq![hex_digit(bytes[0] / 16), hex_digit(bytes[0] % 16)] + hex_lower(bytes.drop_first())
    }
}

/// Calls `hex::encode`, which maps each byte to two characters of the
/// table "0123456789abcdef" (high nibble, then low nibble); the contract
/// states that mapping.
#[verifier::external_body]
pub(crate) fn hex_encode(bytes: &[u8]) -> (r: String)
    ensures
        r@ == hex_lower(bytes@),
{
    hex::encode(bytes)
}

} // verus!
