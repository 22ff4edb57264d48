//! Hexadecimal and decimal text: the digit rules, the `0x` prefixes, and the
//! parsers and printers that the messages of the node use.
use vstd::prelude::*;

verus! {

// ---------------------------------------------------------------------------
// Digits
// ---------------------------------------------------------------------------

/// A hexadecimal digit, in either case.
pub open spec fn is_hex_digit(c: char) -> bool {
    ('0' <= c && c <= '9') || ('a' <= c && c <= 'f') || ('A' <= c && c <= 'F')
}

/// The value of a hexadecimal digit.
pub open spec fn hex_digit_value(c: char) -> nat {
    if '0' <= c && c <= '9' {
        (c as int - '0' as int) as nat
    } else if 'a' <= c && c <= 'f' {
        (c as int - 'a' as int + 10) as nat
    } else {
        (c as int - 'A' as int + 10) as nat
    }
}

/// Every character of `s` is a hexadecimal digit.
pub open spec fn all_hex(s: Seq<char>) -> bool {
    forall|i: int| 0 <= i < s.len() ==> is_hex_digit(#[trigger] s[i])
}

/// The number that the hexadecimal digits `s` write, most significant first.
pub open spec fn hex_value(s: Seq<char>) -> nat
    decreases s.len(),
{
    if s.len() == 0 {
        0
    } else {
        hex_value(s.drop_last()) * 16 + hex_digit_value(s.last())
    }
}

/// The lower-case character of a digit below sixteen.
pub open spec fn nibble_char(d: nat) -> char {
    if d < 10 {
        (d + '0' as nat) as char
    } else {
        (d - 10 + 'a' as nat) as char
    }
}

/// The decimal digits of `n`, with no leading zero.
pub open spec fn dec_string(n: nat) -> Seq<char>
    decreases n,
{
    if n < 10 {
        seq![nibble_char(n)]
    } else {
        dec_string(n / 10).push(nibble_char(n % 10))
    }
}

/// The decimal text of a signed number: a minus sign, then the digits.
pub open spec fn dec_string_signed(n: int) -> Seq<char> {
    if n < 0 {
        seq!['-'].add(dec_string((-n) as nat))
    } else {
        dec_string(n as nat)
    }
}

/// The lower-case hexadecimal digits of `n`, with no leading zero.
pub open spec fn hex_string_min(n: nat) -> Seq<char>
    decreases n,
{
    if n < 16 {
        seq![nibble_char(n)]
    } else {
        hex_string_min(n / 16).push(nibble_char(n % 16))
    }
}

/// Two lower-case hexadecimal digits per byte, most significant first.
pub open spec fn lower_hex_bytes(bytes: Seq<u8>) -> Seq<char>
    decreases bytes.len(),
{
    if bytes.len() == 0 {
        Seq::empty()
    } else {
        seq![nibble_char((bytes[0] / 16) as nat), nibble_char((bytes[0] % 16) as nat)].add(
            lower_hex_bytes(bytes.drop_first()),
        )
    }
}

/// The `0x` prefix.
pub open spec fn hex_prefix() -> Seq<char> {
    seq!['0', 'x']
}

/// `s` with every leading `0x` taken off, as often as one is there.
pub open spec fn trim_0x(s: Seq<char>) -> Seq<char>
    decreases s.len(),
{
    if s.len() >= 2 && s[0] == '0' && s[1] == 'x' {
        trim_0x(s.subrange(2, s.len() as int))
    } else {
        s
    }
}

/// `s` with one leading `0x` taken off, if it has one.
pub open spec fn strip_0x(s: Seq<char>) -> Seq<char> {
    if s.len() >= 2 && s[0] == '0' && s[1] == 'x' {
        s.subrange(2, s.len() as int)
    } else {
        s
    }
}

/// What reading `s` as a base-16 `u64` gives: an optional `+`, then at least
/// one hexadecimal digit, and a value that fits.
pub open spec fn radix16_u64(s: Seq<char>) -> Option<u64> {
    let digits = if s.len() > 0 && s[0] == '+' { s.drop_first() } else { s };
    if digits.len() > 0 && all_hex(digits) && hex_value(digits) <= u64::MAX {
        Some(hex_value(digits) as u64)
    } else {
        None
    }
}

/// What reading `s` as a base-16 `i64` gives: an optional `+` or `-`, then at
/// least one hexadecimal digit, and a value that fits.
pub open spec fn radix16_i64(s: Seq<char>) -> Option<i64> {
    if s.len() > 0 && s[0] == '-' {
        let digits = s.drop_first();
        if digits.len() > 0 && all_hex(digits) && hex_value(digits) <= 0x8000_0000_0000_0000 {
            Some((0 - hex_value(digits)) as i64)
        } else {
            None
        }
    } else {
        let digits = if s.len() > 0 && s[0] == '+' { s.drop_first() } else { s };
        if digits.len() > 0 && all_hex(digits) && hex_value(digits) <= i64::MAX {
            Some(hex_value(digits) as i64)
        } else {
            None
        }
    }
}

// ---------------------------------------------------------------------------
// Lemmas
// ---------------------------------------------------------------------------

pub proof fn lemma_hex_value_step(s: Seq<char>, from: int, i: int)
    requires
        0 <= from <= i < s.len(),
    ensures
        hex_value(s.subrange(from, i + 1)) == hex_value(s.subrange(from, i)) * 16 + hex_digit_value(
            s[i],
        ),
{
    assert(s.subrange(from, i + 1).drop_last() =~= s.subrange(from, i));
}

/// A longer run of digits is worth at least as much as its prefix.
pub proof fn lemma_hex_value_prefix(s: Seq<char>, i: int)
    requires
        0 <= i <= s.len(),
    ensures
        hex_value(s.take(i)) <= hex_value(s),
    decreases s.len(),
{
    if i < s.len() {
        assert(s.drop_last().take(i) =~= s.take(i));
        lemma_hex_value_prefix(s.drop_last(), i);
    } else {
        assert(s.take(i) =~= s);
    }
}

pub proof fn lemma_trim_0x_skip(s: Seq<char>, k: int)
    requires
        0 <= k <= s.len(),
        k % 2 == 0,
        forall|j: int| 0 <= j < k ==> #[trigger] s[j] == (if j % 2 == 0 { '0' } else { 'x' }),
    ensures
        trim_0x(s) == trim_0x(s.subrange(k, s.len() as int)),
    decreases k,
{
    if k == 0 {
        assert(s.subrange(0, s.len() as int) =~= s);
    } else {
        assert(s[0] == '0');
        assert(s[1] == 'x');
        let t = s.subrange(2, s.len() as int);
        assert forall|j: int| 0 <= j < k - 2 implies #[trigger] t[j] == (if j % 2 == 0 {
            '0'
        } else {
            'x'
        }) by {
            assert(t[j] == s[j + 2]);
        }
        lemma_trim_0x_skip(t, k - 2);
        assert(t.subrange(k - 2, t.len() as int) =~= s.subrange(k, s.len() as int));
    }
}

/// The minimal hexadecimal digits of a number read back as that number.
pub proof fn lemma_hex_string_min(n: nat)
    ensures
        hex_string_min(n).len() >= 1,
        all_hex(hex_string_min(n)),
        hex_value(hex_string_min(n)) == n,
    decreases n,
{
    if n < 16 {
        let c = nibble_char(n);
        assert(hex_string_min(n) == seq![c]);
        assert(seq![c].drop_last() =~= Seq::<char>::empty());
        if n < 10 {
            assert(c as int == n + 48);
        } else {
            assert(c as int == n - 10 + 97);
        }
        assert(hex_digit_value(c) == n);
        assert(hex_value(Seq::<char>::empty()) == 0);
        assert(hex_value(seq![c]) == hex_value(seq![c].drop_last()) * 16 + hex_digit_value(c));
    } else {
        lemma_hex_string_min(n / 16);
        let d = hex_string_min(n / 16);
        let c = nibble_char(n % 16);
        assert(hex_string_min(n) == d.push(c));
        assert(d.push(c).drop_last() =~= d);
        if n % 16 < 10 {
            assert(c as int == n % 16 + 48);
        } else {
            assert(c as int == n % 16 - 10 + 97);
        }
        assert(hex_digit_value(c) == n % 16);
        assert(hex_value(d.push(c)) == hex_value(d) * 16 + hex_digit_value(c));
        assert((n / 16) * 16 + n % 16 == n);
        assert forall|i: int| 0 <= i < d.push(c).len() implies is_hex_digit(#[trigger] d.push(c)[i]) by {
            if i < d.len() {
                assert(d.push(c)[i] == d[i]);
            }
        }
    }
}

// ---------------------------------------------------------------------------
// Strings
// ---------------------------------------------------------------------------

/// Appends one character (std's `String::push`).
#[verifier::external_body]
pub(crate) fn push_char(s: &mut String, c: char)
    ensures
        final(s)@ == old(s)@.push(c),
{
    s.push(c);
}

/// The characters of `s` from `from` on.
pub fn suffix_from(s: &str, from: usize) -> (r: String)
    requires
        from <= s@.len(),
    ensures
        r@ == s@.subrange(from as int, s@.len() as int),
{
    let n = s.unicode_len();
    s.substring_char(from, n).to_owned()
}

/// Takes every leading `0x` off, as `str::trim_start_matches("0x")` does.
pub fn trim_0x_prefix(s: &str) -> (r: String)
    ensures
        r@ == trim_0x(s@),
{
    let n = s.unicode_len();
    let mut k: usize = 0;
    while k + 1 < n && s.get_char(k) == '0' && s.get_char(k + 1) == 'x'
        invariant
            n == s@.len(),
            k <= n,
            k % 2 == 0,
            forall|j: int| 0 <= j < k ==> #[trigger] s@[j] == (if j % 2 == 0 { '0' } else { 'x' }),
        decreases n - k,
    {
        k = k + 2;
    }
    proof {
        lemma_trim_0x_skip(s@, k as int);
        let t = s@.subrange(k as int, n as int);
        if t.len() >= 2 {
            assert(t[0] == s@[k as int]);
            assert(t[1] == s@[k + 1]);
        }
    }
    suffix_from(s, k)
}

/// Takes one leading `0x` off, as `str::strip_prefix("0x")` does when it matches.
pub fn strip_0x_prefix(s: &str) -> (r: String)
    ensures
        r@ == strip_0x(s@),
{
    let n = s.unicode_len();
    if n >= 2 && s.get_char(0) == '0' && s.get_char(1) == 'x' {
        suffix_from(s, 2)
    } else {
        suffix_from(s, 0)
    }
}

// ---------------------------------------------------------------------------
// Reading numbers
// ---------------------------------------------------------------------------

pub fn is_hex_digit_exec(c: char) -> (r: bool)
    ensures
        r == is_hex_digit(c),
{
    ('0' <= c && c <= '9') || ('a' <= c && c <= 'f') || ('A' <= c && c <= 'F')
}

pub fn hex_digit_value_exec(c: char) -> (r: u8)
    requires
        is_hex_digit(c),
    ensures
        r as nat == hex_digit_value(c),
        r < 16,
{
    if '0' <= c && c <= '9' {
        ((c as u32) - ('0' as u32)) as u8
    } else if 'a' <= c && c <= 'f' {
        ((c as u32) - ('a' as u32) + 10) as u8
    } else {
        ((c as u32) - ('A' as u32) + 10) as u8
    }
}

/// The value of the hexadecimal digits of `s` from `from` on, when they are all
/// digits and the value fits in a `u64`.
pub fn hex_magnitude(s: &str, from: usize) -> (r: Option<u64>)
    requires
        from <= s@.len(),
    ensures
        ({
            let d = s@.subrange(from as int, s@.len() as int);
            r == (if all_hex(d) && hex_value(d) <= u64::MAX {
                Some(hex_value(d) as u64)
            } else {
                None
            })
        }),
{
    let n = s.unicode_len();
    let ghost d = s@.subrange(from as int, n as int);
    let mut acc: u64 = 0;
    let mut i = from;
    assert(s@.subrange(from as int, from as int) =~= Seq::<char>::empty());
    while i < n
        invariant
            n == s@.len(),
            from <= i <= n,
            d == s@.subrange(from as int, n as int),
            all_hex(s@.subrange(from as int, i as int)),
            acc as nat == hex_value(s@.subrange(from as int, i as int)),
        decreases n - i,
    {
        let c = s.get_char(i);
        if !is_hex_digit_exec(c) {
            assert(d[i - from] == c);
            return None;
        }
        let v = hex_digit_value_exec(c);
        proof {
            lemma_hex_value_step(s@, from as int, i as int);
        }
        if acc > (u64::MAX - (v as u64)) / 16 {
            proof {
                assert(hex_value(s@.subrange(from as int, i + 1)) > u64::MAX);
                assert(d.take(i + 1 - from) =~= s@.subrange(from as int, i + 1));
                lemma_hex_value_prefix(d, i + 1 - from);
            }
            return None;
        }
        acc = acc * 16 + (v as u64);
        i = i + 1;
        proof {
            assert forall|j: int| 0 <= j < s@.subrange(from as int, i as int).len() implies is_hex_digit(
                #[trigger] s@.subrange(from as int, i as int)[j],
            ) by {
                if j < i - 1 - from {
                    assert(s@.subrange(from as int, i as int)[j] == s@.subrange(
                        from as int,
                        i - 1,
                    )[j]);
                }
            }
        }
    }
    Some(acc)
}

/// Reads `s` as a base-16 `u64`, as `u64::from_str_radix(s, 16)` does.
pub fn parse_radix16_u64(s: &str) -> (r: Option<u64>)
    ensures
        r == radix16_u64(s@),
{
    let n = s.unicode_len();
    let from: usize = if n > 0 && s.get_char(0) == '+' { 1 } else { 0 };
    assert(s@.drop_first() =~= s@.subrange(1, n as int));
    assert(s@ =~= s@.subrange(0, n as int));
    if from >= n {
        return None;
    }
    hex_magnitude(s, from)
}

/// Reads `s` as a base-16 `i64`, as `i64::from_str_radix(s, 16)` does.
pub fn parse_radix16_i64(s: &str) -> (r: Option<i64>)
    ensures
        r == radix16_i64(s@),
{
    let n = s.unicode_len();
    assert(s@.drop_first() =~= s@.subrange(1, n as int));
    assert(s@ =~= s@.subrange(0, n as int));
    if n > 0 && s.get_char(0) == '-' {
        if n < 2 {
            return None;
        }
        match hex_magnitude(s, 1) {
            None => None,
            Some(m) => {
                if m > 0x8000_0000_0000_0000u64 {
                    None
                } else if m == 0x8000_0000_0000_0000u64 {
                    Some(i64::MIN)
                } else {
                    Some(0 - (m as i64))
                }
            },
        }
    } else {
        let from: usize = if n > 0 && s.get_char(0) == '+' { 1 } else { 0 };
        if from >= n {
            return None;
        }
        match hex_magnitude(s, from) {
            None => None,
            Some(m) => {
                if m > (i64::MAX as u64) {
                    None
                } else {
                    Some(m as i64)
                }
            },
        }
    }
}

// ---------------------------------------------------------------------------
// Writing numbers
// ---------------------------------------------------------------------------

pub fn nibble_to_char(d: u8) -> (c: char)
    requires
        d < 16,
    ensures
        c == nibble_char(d as nat),
{
    if d < 10 {
        ((d + 48) as char)
    } else {
        ((d - 10 + 97) as char)
    }
}

/// Appends the decimal digits of `n`.
pub fn push_decimal(out: &mut String, n: u128)
    ensures
        final(out)@ == old(out)@ + dec_string(n as nat),
    decreases n,
{
    if n >= 10 {
        push_decimal(out, n / 10);
    }
    let d = (n % 10) as u8;
    push_char(out, nibble_to_char(d));
}

/// The decimal text of an unsigned number.
pub fn u128_to_decimal(n: u128) -> (r: String)
    ensures
        r@ == dec_string(n as nat),
{
    let mut out = String::new();
    push_decimal(&mut out, n);
    assert(out@ =~= dec_string(n as nat));
    out
}

/// The decimal text of a signed number, as `i64`'s `Display` writes it.
pub fn i64_to_decimal(n: i64) -> (r: String)
    ensures
        r@ == dec_string_signed(n as int),
{
    let mut out = String::new();
    if n < 0 {
        push_char(&mut out, '-');
        let m: u128 = (0 - (n as i128)) as u128;
        push_decimal(&mut out, m);
    } else {
        push_decimal(&mut out, n as u128);
    }
    assert(out@ =~= dec_string_signed(n as int));
    out
}

} // verus!
