//! The value types of the chain (addresses, hashes, amounts) and their text.
//!
//! The fixed-size hashes and the 256-bit integer are held as plain bytes and
//! limbs here; their text is written and read by `ethereum_types`.
use std::str::FromStr;
use vstd::prelude::*;

use crate::text::{
    all_hex, dec_string, hex_digit_value, hex_prefix, hex_string_min, hex_value, is_hex_digit,
    lower_hex_bytes, strip_0x, u128_to_decimal,
};

verus! {

/// A 20-byte hash, as `ethereum_types::H160` holds it (big-endian bytes).
#[derive(Clone, Copy, Debug, PartialEq, Eq, Hash)]
pub struct H160(pub [u8; 20]);

/// A 32-byte hash, as `ethereum_types::H256` holds it (big-endian bytes).
#[derive(Clone, Copy, Debug, PartialEq, Eq, Hash)]
pub struct H256(pub [u8; 32]);

/// A 256-bit unsigned integer, as `ethereum_types::U256` holds it: four
/// 64-bit limbs, least significant first.
#[derive(Clone, Copy, Debug, PartialEq, Eq, Hash)]
pub struct U256(pub [u64; 4]);

pub type Amount = U256;
pub type BlockNumber = i64;
pub type ChainId = u64;
pub type ContractAddress = H160;
pub type Nonce = u128;
pub type SignedData = String;
pub type TransactionHash = H256;
pub type WalletAddress = H160;

/// The number a `U256` holds.
pub open spec fn u256_value(x: U256) -> nat {
    x.0@[0] as nat + x.0@[1] as nat * 0x1_0000_0000_0000_0000 + x.0@[2] as nat
        * 0x1_0000_0000_0000_0000_0000_0000_0000_0000 + x.0@[3] as nat
        * 0x1_0000_0000_0000_0000_0000_0000_0000_0000_0000_0000_0000_0000
}

// ---------------------------------------------------------------------------
// What the readers of `ethereum_types` accept
// ---------------------------------------------------------------------------

/// The blanks that the hexadecimal readers of `ethereum_types` skip.
pub open spec fn is_hex_blank(c: char) -> bool {
    c == ' ' || c == '\r' || c == '\n' || c == '\t'
}

pub open spec fn hex_or_blank(t: Seq<char>) -> bool {
    forall|i: int| 0 <= i < t.len() ==> is_hex_digit(#[trigger] t[i]) || is_hex_blank(t[i])
}

/// The hexadecimal digits of `t`, blanks left out.
pub open spec fn hex_digits_of(t: Seq<char>) -> Seq<char> {
    t.filter(|c: char| is_hex_digit(c))
}

/// Bytes from digit pairs, most significant digit first; a last digit
/// without a partner is dropped.
pub open spec fn pair_bytes(digits: Seq<char>) -> Seq<u8>
    decreases digits.len(),
{
    if digits.len() < 2 {
        Seq::empty()
    } else {
        seq![(hex_digit_value(digits[0]) * 16 + hex_digit_value(digits[1])) as u8].add(
            pair_bytes(digits.subrange(2, digits.len() as int)),
        )
    }
}

/// The bytes that the blank-skipping reader of `impl-serde` writes for `t`:
/// when `t` has an odd length its first digit stands alone in the first byte.
pub open spec fn raw_hex_bytes(t: Seq<char>) -> Seq<u8> {
    if t.len() % 2 == 1 {
        pair_bytes(seq!['0'].add(hex_digits_of(t)))
    } else {
        pair_bytes(hex_digits_of(t))
    }
}

/// The number that bytes write, most significant first.
pub open spec fn be_value(b: Seq<u8>) -> nat
    decreases b.len(),
{
    if b.len() == 0 {
        0
    } else {
        be_value(b.drop_last()) * 256 + b.last() as nat
    }
}

/// What `serde` reading of an `n`-byte hash from the JSON string `s` gives
/// (`impl-serde`, exact length): after one `0x`, exactly `2n` characters,
/// each a hexadecimal digit or a blank; the bytes read fill the hash from the
/// front and the rest stays zero.
pub open spec fn hash_from_json(s: Seq<char>, n: nat) -> Option<Seq<u8>> {
    let t = strip_0x(s);
    if t.len() == 2 * n && hex_or_blank(t) {
        let b = raw_hex_bytes(t);
        Some(b.add(Seq::new((n - b.len()) as nat, |i: int| 0u8)))
    } else {
        None
    }
}

/// What `serde` reading of an `n`-byte unsigned integer from the JSON string
/// `s` gives (`impl-serde`, bounded length): after one `0x`, between one and
/// `2n` characters, each a hexadecimal digit or a blank.
pub open spec fn uint_from_json(s: Seq<char>, n: nat) -> Option<nat> {
    let t = strip_0x(s);
    if 0 < t.len() <= 2 * n && hex_or_blank(t) {
        Some(be_value(raw_hex_bytes(t)))
    } else {
        None
    }
}

/// What `FromStr` of an `n`-byte unsigned integer of `uint` gives: after one
/// `0x`, at most `2n` hexadecimal digits (none at all reads as zero).
pub open spec fn uint_from_str(s: Seq<char>, n: nat) -> Option<nat> {
    let t = strip_0x(s);
    if t.len() <= 2 * n && all_hex(t) {
        Some(hex_value(t))
    } else {
        None
    }
}

/// What `FromStr` of an `n`-byte hash of `fixed-hash` gives: after one `0x`,
/// hexadecimal digits and blanks only, with exactly `2n` digits.
pub open spec fn hash_from_str(s: Seq<char>, n: nat) -> Option<Seq<u8>> {
    let t = strip_0x(s);
    if hex_or_blank(t) && hex_digits_of(t).len() == 2 * n {
        Some(pair_bytes(hex_digits_of(t)))
    } else {
        None
    }
}

// ---------------------------------------------------------------------------
// Calls into `ethereum_types`
// ---------------------------------------------------------------------------

/// `format!("{:#x}", ethereum_types::H160)`: fixed-hash writes `0x` and two
/// lower-case digits for every byte.
#[verifier::external_body]
fn h160_lower_hex(h: &H160) -> (s: String)
    ensures
        s@ == hex_prefix() + lower_hex_bytes(h.0@),
{
    format!("{:#x}", ethereum_types::H160(h.0))
}

/// `format!("{:#x}", ethereum_types::H256)`: fixed-hash writes `0x` and two
/// lower-case digits for every byte.
#[verifier::external_body]
fn h256_lower_hex(h: &H256) -> (s: String)
    ensures
        s@ == hex_prefix() + lower_hex_bytes(h.0@),
{
    format!("{:#x}", ethereum_types::H256(h.0))
}

/// `format!("{:#x}", ethereum_types::U256)`: uint writes `0x` and the
/// lower-case digits of the number without leading zeros (`0x0` for zero).
#[verifier::external_body]
fn u256_lower_hex(x: &U256) -> (s: String)
    ensures
        s@ == hex_prefix() + hex_string_min(u256_value(*x)),
{
    format!("{:#x}", ethereum_types::U256(x.0))
}

/// `ethereum_types::U256::to_string`: uint's `Display` writes the decimal
/// digits of the number without leading zeros.
#[verifier::external_body]
fn u256_decimal(x: &U256) -> (s: String)
    ensures
        s@ == dec_string(u256_value(*x)),
{
    ethereum_types::U256(x.0).to_string()
}

/// `serde_json::from_value::<ethereum_types::H160>` on a JSON string: see
/// `hash_from_json`.
#[verifier::external_body]
pub(crate) fn h160_from_json_str(s: &str) -> (r: Option<H160>)
    ensures
        match hash_from_json(s@, 20) {
            Some(b) => r matches Some(h) && h.0@ == b,
            None => r is None,
        },
{
    match serde_json::from_value::<ethereum_types::H160>(serde_json::Value::String(s.to_owned())) {
        Ok(h) => Some(H160(h.0)),
        Err(_) => None,
    }
}

/// `serde_json::from_value::<ethereum_types::H256>` on a JSON string: see
/// `hash_from_json`.
#[verifier::external_body]
pub(crate) fn h256_from_json_str(s: &str) -> (r: Option<H256>)
    ensures
        match hash_from_json(s@, 32) {
            Some(b) => r matches Some(h) && h.0@ == b,
            None => r is None,
        },
{
    match serde_json::from_value::<ethereum_types::H256>(serde_json::Value::String(s.to_owned())) {
        Ok(h) => Some(H256(h.0)),
        Err(_) => None,
    }
}

/// `serde_json::from_value::<ethereum_types::U128>` on a JSON string: see
/// `uint_from_json`.
#[verifier::external_body]
pub(crate) fn u128_from_json_str(s: &str) -> (r: Option<u128>)
    ensures
        match uint_from_json(s@, 16) {
            Some(v) => r == Some(v as u128),
            None => r is None,
        },
{
    match serde_json::from_value::<ethereum_types::U128>(serde_json::Value::String(s.to_owned())) {
        Ok(v) => Some(v.as_u128()),
        Err(_) => None,
    }
}

/// `ethereum_types::U128::from_str`: see `uint_from_str`.
#[verifier::external_body]
pub(crate) fn u128_from_str(s: &str) -> (r: Option<u128>)
    ensures
        match uint_from_str(s@, 16) {
            Some(v) => r == Some(v as u128),
            None => r is None,
        },
{
    match ethereum_types::U128::from_str(s) {
        Ok(v) => Some(v.as_u128()),
        Err(_) => None,
    }
}

/// `ethereum_types::H256::from_str`: see `hash_from_str`.
#[verifier::external_body]
pub(crate) fn h256_from_str(s: &str) -> (r: Option<H256>)
    ensures
        match hash_from_str(s@, 32) {
            Some(b) => r matches Some(h) && h.0@ == b,
            None => r is None,
        },
{
    match ethereum_types::H256::from_str(s) {
        Ok(h) => Some(H256(h.0)),
        Err(_) => None,
    }
}

impl H256 {
    /// Whether two hashes hold the same bytes.
    pub fn same_as(&self, other: &H256) -> (r: bool)
        ensures
            r == (self.0@ == other.0@),
    {
        let mut i: usize = 0;
        while i < 32
            invariant
                i <= 32,
                forall|j: int| 0 <= j < i ==> self.0@[j] == other.0@[j],
            decreases 32 - i,
        {
            if self.0[i] != other.0[i] {
                return false;
            }
            i = i + 1;
        }
        assert(self.0@ =~= other.0@);
        true
    }
}

// ---------------------------------------------------------------------------
// Formats
// ---------------------------------------------------------------------------

/// The `0x`-prefixed lower-case hexadecimal text of a value.
pub trait EthHexFormat {
    fn formatted_hex(&self) -> String;
}

/// The decimal text of a value.
pub trait EthDecFormat {
    fn formatted_dec(&self) -> String;
}

impl EthHexFormat for H160 {
    fn formatted_hex(&self) -> (s: String)
        ensures
            s@ == hex_prefix() + lower_hex_bytes(self.0@),
    {
        h160_lower_hex(self)
    }
}

impl EthHexFormat for H256 {
    fn formatted_hex(&self) -> (s: String)
        ensures
            s@ == hex_prefix() + lower_hex_bytes(self.0@),
    {
        h256_lower_hex(self)
    }
}

impl EthHexFormat for U256 {
    fn formatted_hex(&self) -> (s: String)
        ensures
            s@ == hex_prefix() + hex_string_min(u256_value(*self)),
    {
        u256_lower_hex(self)
    }
}

impl EthDecFormat for u128 {
    fn formatted_dec(&self) -> (s: String)
        ensures
            s@ == dec_string(*self as nat),
    {
        u128_to_decimal(*self)
    }
}

impl EthDecFormat for U256 {
    fn formatted_dec(&self) -> (s: String)
        ensures
            s@ == dec_string(u256_value(*self)),
    {
        u256_decimal(self)
    }
}


/// Text made of hexadecimal digits only keeps all of them.
pub proof fn lemma_hex_digits_of_all_hex(t: Seq<char>)
    requires
        all_hex(t),
    ensures
        hex_digits_of(t) == t,
    decreases t.len(),
{
    reveal(Seq::filter);
    if t.len() > 0 {
        let init = t.drop_last();
        assert forall|i: int| 0 <= i < init.len() implies is_hex_digit(#[trigger] init[i]) by {
            assert(init[i] == t[i]);
        }
        lemma_hex_digits_of_all_hex(init);
        assert(is_hex_digit(t[t.len() - 1]));
        assert(init.push(t.last()) =~= t);
    }
}

/// Byte `i` of the digit pairs is the value of digits `2i` and `2i + 1`.
pub proof fn lemma_pair_bytes_index(d: Seq<char>)
    requires
        d.len() % 2 == 0,
        all_hex(d),
    ensures
        pair_bytes(d).len() == d.len() / 2,
        forall|i: int|
            0 <= i < d.len() / 2 ==> #[trigger] pair_bytes(d)[i] as nat == hex_digit_value(d[2 * i])
                * 16 + hex_digit_value(d[2 * i + 1]),
    decreases d.len(),
{
    if d.len() >= 2 {
        let rest = d.subrange(2, d.len() as int);
        assert forall|i: int| 0 <= i < rest.len() implies is_hex_digit(#[trigger] rest[i]) by {
            assert(rest[i] == d[i + 2]);
        }
        lemma_pair_bytes_index(rest);
        assert(is_hex_digit(d[0]) && is_hex_digit(d[1]));
        assert forall|i: int| 0 <= i < d.len() / 2 implies #[trigger] pair_bytes(d)[i] as nat
            == hex_digit_value(d[2 * i]) * 16 + hex_digit_value(d[2 * i + 1]) by {
            if i > 0 {
                assert(pair_bytes(d)[i] == pair_bytes(rest)[i - 1]);
                assert(rest[2 * (i - 1)] == d[2 * i]);
                assert(rest[2 * (i - 1) + 1] == d[2 * i + 1]);
            }
        }
    }
}

/// A hash written as `0x` and exactly twice as many hexadecimal digits as it
/// has bytes reads as those bytes, first byte first: byte `i` is the value of
/// digits `2i` and `2i + 1`.
pub proof fn lemma_hash_from_json_digits(digits: Seq<char>, n: nat)
    requires
        digits.len() == 2 * n,
        all_hex(digits),
    ensures
        hash_from_json(hex_prefix() + digits, n) matches Some(b) && b.len() == n && forall|i: int|
            0 <= i < n ==> #[trigger] b[i] as nat == hex_digit_value(digits[2 * i]) * 16
                + hex_digit_value(digits[2 * i + 1]),
{
    let s = hex_prefix() + digits;
    assert(strip_0x(s) =~= digits);
    assert(hex_or_blank(digits));
    lemma_hex_digits_of_all_hex(digits);
    lemma_pair_bytes_index(digits);
    let b = raw_hex_bytes(digits);
    assert(b == pair_bytes(digits));
    assert(b.add(Seq::new((n - b.len()) as nat, |i: int| 0u8)) =~= b);
}

} // verus!
