use eth_rpc_client::text::{
    i64_to_decimal, parse_radix16_i64, parse_radix16_u64, strip_0x_prefix, trim_0x_prefix,
    u128_to_decimal,
};
use eth_rpc_client::types::{EthDecFormat, EthHexFormat, H160, H256, U256};
use eth_rpc_client::utils::{bytes_from_hex, i64_from_hex, u64_from_hex};

#[test]
fn radix16_u64_reads_digits_of_both_cases() {
    assert_eq!(parse_radix16_u64("ff"), Some(255));
    assert_eq!(parse_radix16_u64("+1A"), Some(26));
    assert_eq!(parse_radix16_u64("ffffffffffffffff"), Some(u64::MAX));
}

#[test]
fn radix16_u64_refuses_empty_sign_and_overflow() {
    assert_eq!(parse_radix16_u64(""), None);
    assert_eq!(parse_radix16_u64("+"), None);
    assert_eq!(parse_radix16_u64("-1"), None);
    assert_eq!(parse_radix16_u64("1g"), None);
    assert_eq!(parse_radix16_u64("10000000000000000"), None);
    assert_eq!(parse_radix16_u64(" 1"), None);
}

#[test]
fn radix16_i64_reads_the_whole_range() {
    assert_eq!(parse_radix16_i64("-8000000000000000"), Some(i64::MIN));
    assert_eq!(parse_radix16_i64("7fffffffffffffff"), Some(i64::MAX));
    assert_eq!(parse_radix16_i64("-ff"), Some(-255));
    assert_eq!(parse_radix16_i64("+10"), Some(16));
}

#[test]
fn radix16_i64_refuses_out_of_range() {
    assert_eq!(parse_radix16_i64("8000000000000000"), None);
    assert_eq!(parse_radix16_i64("-8000000000000001"), None);
    assert_eq!(parse_radix16_i64("-"), None);
    assert_eq!(parse_radix16_i64(""), None);
    assert_eq!(parse_radix16_i64("--1"), None);
}

#[test]
fn radix16_agrees_with_std() {
    for s in ["0", "00ff", "+7", "-7", "abc", "ABC", "", "+", "-", "x1", "123456789abcdef0"] {
        assert_eq!(parse_radix16_u64(s), u64::from_str_radix(s, 16).ok(), "{s}");
        assert_eq!(parse_radix16_i64(s), i64::from_str_radix(s, 16).ok(), "{s}");
    }
}

#[test]
fn trim_takes_every_leading_prefix() {
    assert_eq!(trim_0x_prefix("0x0x1f"), "1f");
    assert_eq!(trim_0x_prefix("0x"), "");
    assert_eq!(trim_0x_prefix("00x1"), "00x1");
    assert_eq!(trim_0x_prefix("x0"), "x0");
    for s in ["0x0x0xab", "0x", "0", "0x0", "abc0x"] {
        assert_eq!(trim_0x_prefix(s), s.trim_start_matches("0x"));
    }
}

#[test]
fn strip_takes_one_prefix() {
    assert_eq!(strip_0x_prefix("0x0x1"), "0x1");
    assert_eq!(strip_0x_prefix("12"), "12");
}

#[test]
fn decimal_text() {
    assert_eq!(u128_to_decimal(0), "0");
    assert_eq!(u128_to_decimal(u128::MAX), u128::MAX.to_string());
    assert_eq!(i64_to_decimal(i64::MIN), "-9223372036854775808");
    assert_eq!(i64_to_decimal(-1), "-1");
    assert_eq!(i64_to_decimal(42), "42");
}

#[test]
fn hex_fields_take_every_prefix() {
    assert_eq!(u64_from_hex("0x1b4"), Some(436));
    assert_eq!(u64_from_hex("0x0x10"), Some(16));
    assert_eq!(u64_from_hex("0x"), None);
    assert_eq!(i64_from_hex("0x-1"), Some(-1));
    assert_eq!(i64_from_hex("zz"), None);
}

#[test]
fn hex_bytes_fields() {
    assert_eq!(bytes_from_hex("0xdeadBEEF"), Some(vec![0xde, 0xad, 0xbe, 0xef]));
    assert_eq!(bytes_from_hex("0x"), Some(vec![]));
    assert_eq!(bytes_from_hex("0xabc"), None);
    assert_eq!(bytes_from_hex("0xzz"), None);
}

#[test]
fn hash_and_amount_text() {
    let mut a = [0u8; 20];
    a[19] = 0xab;
    a[0] = 0x01;
    assert_eq!(H160(a).formatted_hex(), "0x01000000000000000000000000000000000000ab");
    let h = H256([0xff; 32]);
    assert_eq!(h.formatted_hex(), format!("0x{}", "ff".repeat(32)));
    assert_eq!(U256([0, 0, 0, 0]).formatted_hex(), "0x0");
    assert_eq!(U256([255, 0, 0, 0]).formatted_hex(), "0xff");
    assert_eq!(U256([0, 1, 0, 0]).formatted_hex(), "0x10000000000000000");
    assert_eq!(U256([0, 1, 0, 0]).formatted_dec(), "18446744073709551616");
    assert_eq!(U256([7, 0, 0, 0]).formatted_dec(), "7");
    assert_eq!(12345u128.formatted_dec(), "12345");
}

#[test]
fn hashes_compare_by_bytes() {
    assert!(H256([1; 32]).same_as(&H256([1; 32])));
    let mut b = [1u8; 32];
    b[31] = 2;
    assert!(!H256([1; 32]).same_as(&H256(b)));
}

#[test]
fn quantities_are_read_back() {
    for n in [0u64, 1, 15, 16, 255, 0x1b4, u64::MAX] {
        assert_eq!(u64_from_hex(&format!("{n:#x}")), Some(n));
    }
}
