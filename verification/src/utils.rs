//! Readers of the hexadecimal fields of the node's JSON objects. Each takes
//! every leading `0x` off and reads the rest.
use vstd::prelude::*;

use crate::text::{
    all_hex, hex_prefix, hex_string_min, is_hex_digit, lemma_hex_string_min, parse_radix16_i64,
    parse_radix16_u64, radix16_i64, radix16_u64, trim_0x, trim_0x_prefix,
};
use crate::types::pair_bytes;

verus! {

/// What `hex::decode` gives for `s`: an even number of hexadecimal digits,
/// read in pairs.
pub open spec fn hex_decode_spec(s: Seq<char>) -> Option<Seq<u8>> {
    if s.len() % 2 == 0 && all_hex(s) {
        Some(pair_bytes(s))
    } else {
        None
    }
}

/// `hex::decode`: even length, digits of either case, two per byte.
#[verifier::external_body]
fn hex_decode(s: &str) -> (r: Option<Vec<u8>>)
    ensures
        match hex_decode_spec(s@) {
            Some(b) => r matches Some(v) && v@ == b,
            None => r is None,
        },
{
    match hex::decode(s) {
        Ok(v) => Some(v),
        Err(_) => None,
    }
}

/// A `u64` written in hexadecimal, with any number of leading `0x`.
pub fn u64_from_hex(value: &str) -> (r: Option<u64>)
    ensures
        r == radix16_u64(trim_0x(value@)),
{
    let trimmed = trim_0x_prefix(value);
    parse_radix16_u64(trimmed.as_str())
}

/// An `i64` written in hexadecimal, with any number of leading `0x`.
pub fn i64_from_hex(value: &str) -> (r: Option<i64>)
    ensures
        r == radix16_i64(trim_0x(value@)),
{
    let trimmed = trim_0x_prefix(value);
    parse_radix16_i64(trimmed.as_str())
}

/// Bytes written in hexadecimal, with any number of leading `0x`.
pub fn bytes_from_hex(value: &str) -> (r: Option<Vec<u8>>)
    ensures
        match hex_decode_spec(trim_0x(value@)) {
            Some(b) => r matches Some(v) && v@ == b,
            None => r is None,
        },
{
    let trimmed = trim_0x_prefix(value);
    hex_decode(trimmed.as_str())
}

/// A quantity that the node writes in the JSON-RPC way, `0x` and the
/// digits of the number without leading zeros, is read back as that number.
pub proof fn law_quantity_read_back(n: u64)
    ensures
        radix16_u64(trim_0x(hex_prefix() + hex_string_min(n as nat))) == Some(n),
{
    let d = hex_string_min(n as nat);
    lemma_hex_string_min(n as nat);
    let s = hex_prefix() + d;
    assert(s.subrange(2, s.len() as int) =~= d);
    assert(trim_0x(s) == trim_0x(d));
    if d.len() >= 2 {
        assert(is_hex_digit(d[1]));
    }
    assert(trim_0x(d) == d);
    assert(is_hex_digit(d[0]));
}

} // verus!
