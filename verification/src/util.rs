//! Byte and hexadecimal helpers used by the parsers.
use vstd::prelude::*;
use vstd::string::*;

use crate::emv::bitflag_values::{decimal_digits, decimal_string, digit_char};
use crate::error::ParseError;

verus! {

/// The number of bytes in a 32-bit integer.
pub const BYTES_PER_32_BITS: usize = 4;

/// The number of digits in the decimal representation of `value`.
pub fn num_dec_digits(value: u32) -> (digits: usize)
    ensures
        digits == decimal_digits(value as nat).len(),
        digits <= 1 + value / 10,
    decreases value,
{
    if value < 10 {
        1
    } else {
        1 + num_dec_digits(value / 10)
    }
}

/// `digits` with zeroes before them to make them `width` characters long.
pub open spec fn zero_padded(digits: Seq<char>, width: nat) -> Seq<char> {
    if digits.len() < width {
        Seq::new((width - digits.len()) as nat, |i: int| '0') + digits
    } else {
        digits
    }
}

/// Writes `value` in decimal with zeroes before it to make it `width`
/// characters long, as `format!("{:0>width$}", value)` does.
pub fn padded_decimal(value: u32, width: usize) -> (text: String)
    ensures
        text@ == zero_padded(decimal_digits(value as nat), width as nat),
{
    let digits = num_dec_digits(value);
    let mut text = String::new();
    let mut count: usize = 0;
    let zeroes: usize = if digits < width {
        width - digits
    } else {
        0
    };
    while count < zeroes
        invariant
            count <= zeroes,
            text@ == Seq::new(count as nat, |i: int| '0'),
        decreases zeroes - count,
    {
        proof {
            reveal_strlit("0");
        }
        text.append("0");
        assert(text@ =~= Seq::new((count + 1) as nat, |i: int| '0'));
        count += 1;
    }
    let written = decimal_string(value as u64);
    text.append(written.as_str());
    assert(text@ =~= zero_padded(decimal_digits(value as nat), width as nat));
    text
}

/// The unsigned big-endian value of a byte sequence.
pub open spec fn be_value(bytes: Seq<u8>) -> nat
    decreases bytes.len(),
{
    if bytes.len() == 0 {
        0
    } else {
        be_value(bytes.drop_last()) * 256 + bytes.last() as nat
    }
}

/// `256` to the power of `n`.
pub open spec fn pow256(n: nat) -> nat
    decreases n,
{
    if n == 0 {
        1
    } else {
        256 * pow256((n - 1) as nat)
    }
}

/// A big-endian value of `n` bytes is below `256^n`.
pub proof fn lemma_be_value_bound(bytes: Seq<u8>)
    ensures
        be_value(bytes) < pow256(bytes.len()),
    decreases bytes.len(),
{
    if bytes.len() > 0 {
        lemma_be_value_bound(bytes.drop_last());
    }
}

/// Reads up to four bytes as a big-endian unsigned integer.
pub fn byte_slice_to_u32(bytes: &[u8]) -> (value: u32)
    requires
        bytes@.len() <= BYTES_PER_32_BITS,
    ensures
        value as nat == be_value(bytes@),
{
    let mut value: u32 = 0;
    let mut i: usize = 0;
    assert(pow256(3) == 16777216) by {
        reveal_with_fuel(pow256, 4);
    }
    while i < bytes.len()
        invariant
            i <= bytes@.len(),
            bytes@.len() <= 4,
            pow256(3) == 16777216,
            value as nat == be_value(bytes@.take(i as int)),
        decreases bytes@.len() - i,
    {
        proof {
            lemma_be_value_bound(bytes@.take(i as int));
            reveal_with_fuel(pow256, 4);
            assert(bytes@.take(i + 1).drop_last() =~= bytes@.take(i as int));
        }
        value = value * 256 + bytes[i] as u32;
        i += 1;
    }
    assert(bytes@.take(bytes@.len() as int) =~= bytes@);
    value
}

/// The value of an ASCII hexadecimal digit, upper or lower case.
pub open spec fn hex_digit_value(c: u8) -> Option<u8> {
    if 0x30 <= c <= 0x39 {
        Some((c - 0x30) as u8)
    } else if 0x41 <= c <= 0x46 {
        Some((c - 0x37) as u8)
    } else if 0x61 <= c <= 0x66 {
        Some((c - 0x57) as u8)
    } else {
        None
    }
}

/// Whether `c` is an ASCII hexadecimal digit.
pub open spec fn is_hex_digit(c: u8) -> bool {
    hex_digit_value(c) is Some
}

/// The byte written by the two hexadecimal digits `hi` and `lo`.
pub open spec fn hex_pair(hi: u8, lo: u8) -> u8 {
    (hex_digit_value(hi).unwrap() * 16 + hex_digit_value(lo).unwrap()) as u8
}

/// Strict hexadecimal decoding: an even number of digits and nothing else.
pub open spec fn decode_hex_strict(s: Seq<u8>) -> Option<Seq<u8>> {
    if s.len() % 2 == 0 && forall|i: int| 0 <= i < s.len() ==> #[trigger] is_hex_digit(s[i]) {
        Some(Seq::new(s.len() / 2, |i: int| hex_pair(s[2 * i], s[2 * i + 1])))
    } else {
        None
    }
}

/// The hexadecimal digits of `s`, in order, with everything else left out.
pub open spec fn hex_digits_of(s: Seq<u8>) -> Seq<u8> {
    s.filter(|c: u8| is_hex_digit(c))
}

/// Lenient hexadecimal decoding: characters that aren't hexadecimal digits are
/// skipped, and an odd number of digits is read as if a leading `0` preceded them.
pub open spec fn decode_hex_lenient(s: Seq<u8>) -> Seq<u8> {
    let digits = hex_digits_of(s);
    let even = if digits.len() % 2 == 1 {
        seq![0x30u8] + digits
    } else {
        digits
    };
    Seq::new(even.len() / 2, |i: int| hex_pair(even[2 * i], even[2 * i + 1]))
}

/// Reads one hexadecimal digit.
pub fn hex_digit(c: u8) -> (value: Option<u8>)
    ensures
        value == hex_digit_value(c),
{
    if 0x30 <= c && c <= 0x39 {
        Some(c - 0x30)
    } else if 0x41 <= c && c <= 0x46 {
        Some(c - 0x37)
    } else if 0x61 <= c && c <= 0x66 {
        Some(c - 0x57)
    } else {
        None
    }
}

/// Strictly decodes the hexadecimal text `s[start..end]`.
pub fn decode_hex_range(s: &[u8], start: usize, end: usize) -> (bytes: Option<Vec<u8>>)
    requires
        start <= end <= s@.len(),
    ensures
        match bytes {
            Some(v) => decode_hex_strict(s@.subrange(start as int, end as int)) == Some(v@),
            None => decode_hex_strict(s@.subrange(start as int, end as int)) is None,
        },
{
    let ghost sub = s@.subrange(start as int, end as int);
    if (end - start) % 2 != 0 {
        return None;
    }
    let mut out: Vec<u8> = Vec::new();
    let mut i: usize = start;
    while i < end
        invariant
            start <= i <= end <= s@.len(),
            sub == s@.subrange(start as int, end as int),
            (end - start) % 2 == 0,
            (i - start) % 2 == 0,
            out@.len() == (i - start) / 2,
            forall|k: int| 0 <= k < i - start ==> #[trigger] is_hex_digit(sub[k]),
            forall|k: int|
                0 <= k < out@.len() ==> out@[k] == #[trigger] hex_pair(sub[2 * k], sub[2 * k + 1]),
        decreases end - i,
    {
        let hi = hex_digit(s[i]);
        let lo = hex_digit(s[i + 1]);
        match (hi, lo) {
            (Some(h), Some(l)) => {
                assert(sub[i - start] == s@[i as int]);
                assert(sub[i - start + 1] == s@[i + 1]);
                out.push(h * 16 + l);
                proof {
                    let k = out@.len() - 1;
                    assert(2 * k == i - start);
                }
                i += 2;
            },
            _ => {
                assert(sub[i - start] == s@[i as int]);
                assert(sub[i - start + 1] == s@[i + 1]);
                assert(!is_hex_digit(sub[i - start]) || !is_hex_digit(sub[i - start + 1]));
                return None;
            },
        }
    }
    assert(out@ =~= Seq::new(sub.len() / 2, |k: int| hex_pair(sub[2 * k], sub[2 * k + 1])));
    Some(out)
}

/// Parses hexadecimal text leniently: characters that aren't hexadecimal
/// digits are skipped, and an odd number of digits is read as if a leading `0`
/// preceded them.
pub fn parse_hex_str(hex_str: &str) -> (bytes: Vec<u8>)
    ensures
        bytes@ == decode_hex_lenient(hex_str.spec_bytes()),
{
    let s = hex_str.as_bytes();
    let mut digits: Vec<u8> = Vec::new();
    let mut i: usize = 0;
    proof {
        reveal_with_fuel(Seq::filter, 1);
        assert(s@.take(0) =~= Seq::<u8>::empty());
    }
    while i < s.len()
        invariant
            i <= s@.len(),
            digits@ == hex_digits_of(s@.take(i as int)),
            forall|k: int| 0 <= k < digits@.len() ==> #[trigger] is_hex_digit(digits@[k]),
        decreases s@.len() - i,
    {
        let ghost t = s@.take(i + 1);
        proof {
            assert(t.drop_last() =~= s@.take(i as int));
            assert(t.last() == s@[i as int]);
            reveal_with_fuel(Seq::filter, 1);
            assert(hex_digits_of(t) == (if is_hex_digit(t.last()) {
                hex_digits_of(t.drop_last()).push(t.last())
            } else {
                hex_digits_of(t.drop_last())
            }));
        }
        if hex_digit(s[i]).is_some() {
            digits.push(s[i]);
        }
        i += 1;
    }
    assert(s@.take(s@.len() as int) =~= s@);
    let mut even: Vec<u8> = Vec::new();
    if digits.len() % 2 == 1 {
        even.push(0x30u8);
    }
    let ghost pad = even@;
    let mut j: usize = 0;
    while j < digits.len()
        invariant
            j <= digits@.len(),
            even@ == pad + digits@.take(j as int),
            pad.len() <= 1,
            pad.len() == 1 ==> pad[0] == 0x30u8,
        decreases digits@.len() - j,
    {
        even.push(digits[j]);
        j += 1;
        assert(even@ =~= pad + digits@.take(j as int));
    }
    assert(digits@.take(digits@.len() as int) =~= digits@);
    let ghost digits_view = hex_digits_of(hex_str.spec_bytes());
    assert(even@ =~= (if digits_view.len() % 2 == 1 { seq![0x30u8] + digits_view } else { digits_view }));
    assert(forall|k: int| 0 <= k < even@.len() ==> #[trigger] is_hex_digit(even@[k])) by {
        assert forall|k: int| 0 <= k < even@.len() implies #[trigger] is_hex_digit(even@[k]) by {
            if pad.len() == 1 && k == 0 {
            } else {
                assert(even@[k] == digits@[k - pad.len()]);
            }
        }
    }
    assert(even@.subrange(0, even@.len() as int) =~= even@);
    match decode_hex_range(even.as_slice(), 0, even.len()) {
        Some(bytes) => bytes,
        None => Vec::new(),
    }
}


/// The value of a hexadecimal digit character, upper or lower case.
pub open spec fn hex_char_value(c: char) -> Option<nat> {
    if '0' <= c && c <= '9' {
        Some((c as nat - '0' as nat) as nat)
    } else if 'a' <= c && c <= 'f' {
        Some((c as nat - 'a' as nat + 10) as nat)
    } else if 'A' <= c && c <= 'F' {
        Some((c as nat - 'A' as nat + 10) as nat)
    } else {
        None
    }
}

/// The value of a digit character in base `radix` (at most `16`).
pub open spec fn radix_char_value(c: char, radix: nat) -> Option<nat> {
    match hex_char_value(c) {
        Some(digit) => if digit < radix {
            Some(digit)
        } else {
            None
        },
        None => None,
    }
}

/// The value of a string of digits in base `radix`, if each character is one.
pub open spec fn radix_chars_value(s: Seq<char>, radix: nat) -> Option<nat>
    decreases s.len(),
{
    if s.len() == 0 {
        Some(0)
    } else {
        match (radix_chars_value(s.drop_last(), radix), radix_char_value(s.last(), radix)) {
            (Some(value), Some(digit)) => Some(value * radix + digit),
            _ => None,
        }
    }
}

/// The number written by `s` in base `radix`: an optional `+` and then at
/// least one digit, as `from_str_radix` reads unsigned numbers.
pub open spec fn spec_number_value(s: Seq<char>, radix: nat) -> Option<nat> {
    let digits = if s.len() >= 2 && s[0] == '+' {
        s.skip(1)
    } else {
        s
    };
    if digits.len() == 0 {
        None
    } else {
        radix_chars_value(digits, radix)
    }
}

/// `s` without any number of leading `0x` prefixes.
pub open spec fn trim_hex_prefix(s: Seq<char>) -> Seq<char>
    decreases s.len(),
{
    if s.len() >= 2 && s[0] == '0' && s[1] == 'x' {
        trim_hex_prefix(s.skip(2))
    } else {
        s
    }
}

/// The number written in hexadecimal by `s`, after any `0x` prefixes.
pub open spec fn spec_hex_str_value(s: Seq<char>) -> Option<nat> {
    spec_number_value(trim_hex_prefix(s), 16)
}

/// A number, if it is no greater than `max`.
pub open spec fn at_most(value: Option<nat>, max: nat) -> Option<nat> {
    match value {
        Some(v) => if v <= max {
            Some(v)
        } else {
            None
        },
        None => None,
    }
}

fn radix_char(c: char, radix: u64) -> (value: Option<u64>)
    requires
        radix <= 16,
    ensures
        match value {
            Some(v) => radix_char_value(c, radix as nat) == Some(v as nat) && v < radix,
            None => radix_char_value(c, radix as nat) is None,
        },
{
    let digit: u64 = if '0' <= c && c <= '9' {
        (c as u32 - '0' as u32) as u64
    } else if 'a' <= c && c <= 'f' {
        (c as u32 - 'a' as u32 + 10) as u64
    } else if 'A' <= c && c <= 'F' {
        (c as u32 - 'A' as u32 + 10) as u64
    } else {
        return None;
    };
    if digit < radix {
        Some(digit)
    } else {
        None
    }
}

/// A string whose first characters are not all digits has no value.
proof fn lemma_radix_chars_value_extends(s: Seq<char>, radix: nat, k: int)
    requires
        0 <= k <= s.len(),
        radix_chars_value(s.take(k), radix) is None,
    ensures
        radix_chars_value(s, radix) is None,
    decreases s.len() - k,
{
    if k < s.len() {
        assert(s.take(k + 1).drop_last() =~= s.take(k));
        lemma_radix_chars_value_extends(s, radix, k + 1);
    } else {
        assert(s.take(k) =~= s);
    }
}

/// More digits never make a value smaller.
proof fn lemma_radix_chars_value_grows(s: Seq<char>, radix: nat, k: int)
    requires
        0 <= k <= s.len(),
        radix >= 1,
        radix_chars_value(s.take(k), radix) is Some,
    ensures
        radix_chars_value(s, radix) matches Some(total) ==> total >= radix_chars_value(s.take(k), radix)->Some_0,
    decreases s.len() - k,
{
    if k < s.len() {
        assert(s.take(k + 1).drop_last() =~= s.take(k));
        if radix_chars_value(s.take(k + 1), radix) is Some {
            let v = radix_chars_value(s.take(k), radix)->Some_0;
            let d = radix_char_value(s[k], radix)->Some_0;
            assert(v * radix + d >= v) by (nonlinear_arith)
                requires
                    radix >= 1,
            ;
            lemma_radix_chars_value_grows(s, radix, k + 1);
        } else {
            lemma_radix_chars_value_extends(s, radix, k + 1);
        }
    } else {
        assert(s.take(k) =~= s);
    }
}

proof fn lemma_trim_hex_prefix_skip(s: Seq<char>, start: int)
    requires
        0 <= start <= s.len(),
        start + 2 <= s.len(),
        s[start] == '0',
        s[start + 1] == 'x',
    ensures
        trim_hex_prefix(s.skip(start)) == trim_hex_prefix(s.skip(start + 2)),
{
    assert(s.skip(start).skip(2) =~= s.skip(start + 2));
}

/// Reads the characters of `text` from `start` on as a number in base `radix`
/// no greater than `max`.
fn number_value(text: &str, start: usize, radix: u64, max: u64) -> (value: Option<u64>)
    requires
        2 <= radix <= 16,
        max >= 15,
        start <= text@.len(),
    ensures
        match value {
            Some(v) => at_most(spec_number_value(text@.skip(start as int), radix as nat), max as nat) == Some(v as nat),
            None => at_most(spec_number_value(text@.skip(start as int), radix as nat), max as nat) is None,
        },
{
    let ghost s = text@;
    let ghost rest = s.skip(start as int);
    let n = text.unicode_len();
    let mut first = start;
    if n - first >= 2 && text.get_char(first) == '+' {
        first = first + 1;
    }
    let ghost digits = s.skip(first as int);
    assert(digits =~= (if rest.len() >= 2 && rest[0] == '+' { rest.skip(1) } else { rest }));
    if first >= n {
        return None;
    }
    assert(spec_number_value(rest, radix as nat) == radix_chars_value(digits, radix as nat));
    let mut value: u64 = 0;
    let mut i: usize = first;
    assert(s.subrange(first as int, first as int) =~= Seq::<char>::empty());
    while i < n
        invariant
            s == text@,
            n == s.len(),
            2 <= radix <= 16,
            max >= 15,
            first <= i <= n,
            rest == s.skip(start as int),
            digits == s.skip(first as int),
            spec_number_value(rest, radix as nat) == radix_chars_value(digits, radix as nat),
            radix_chars_value(s.subrange(first as int, i as int), radix as nat) == Some(value as nat),
            value <= max,
        decreases n - i,
    {
        let ghost prefix = s.subrange(first as int, i + 1);
        assert(prefix.drop_last() =~= s.subrange(first as int, i as int));
        assert(digits.take((i - first + 1) as int) =~= prefix);
        let c = text.get_char(i);
        assert(prefix.last() == c);
        let digit = match radix_char(c, radix) {
            Some(d) => d,
            None => {
                proof {
                    lemma_radix_chars_value_extends(digits, radix as nat, (i - first + 1) as int);
                }
                return None;
            },
        };
        assert(radix_chars_value(prefix, radix as nat) == Some((value * radix + digit) as nat));
        if value > (max - digit) / radix {
            proof {
                lemma_radix_chars_value_grows(digits, radix as nat, (i - first + 1) as int);
                assert(value * radix + digit > max) by (nonlinear_arith)
                    requires
                        value > ((max - digit) as u64) / radix,
                        digit < radix,
                        2 <= radix <= 16,
                        max >= 15,
                ;
            }
            return None;
        }
        assert(value * radix + digit <= max) by (nonlinear_arith)
            requires
                value <= ((max - digit) as u64) / radix,
                digit < radix,
                2 <= radix <= 16,
                max >= 15,
        ;
        value = value * radix + digit;
        i = i + 1;
    }
    assert(s.subrange(first as int, n as int) =~= digits);
    Some(value)
}

/// Reads hexadecimal text as a number no greater than `max`, as
/// `from_str_radix` with radix 16 does after `0x` prefixes are trimmed.
fn hex_str_value(hex_str: &str, max: u64) -> (value: Option<u64>)
    requires
        max >= 15,
    ensures
        match value {
            Some(v) => at_most(spec_hex_str_value(hex_str@), max as nat) == Some(v as nat),
            None => at_most(spec_hex_str_value(hex_str@), max as nat) is None,
        },
{
    let ghost s = hex_str@;
    let n = hex_str.unicode_len();
    let mut start: usize = 0;
    assert(s.skip(0) =~= s);
    loop
        invariant
            s == hex_str@,
            n == s.len(),
            start <= n,
            trim_hex_prefix(s) == trim_hex_prefix(s.skip(start as int)),
        ensures
            trim_hex_prefix(s.skip(start as int)) == s.skip(start as int),
        decreases n - start,
    {
        if n - start < 2 {
            break;
        }
        let c0 = hex_str.get_char(start);
        let c1 = hex_str.get_char(start + 1);
        if c0 != '0' || c1 != 'x' {
            assert(s.skip(start as int)[0] == c0);
            assert(s.skip(start as int)[1] == c1);
            break;
        }
        proof {
            lemma_trim_hex_prefix_skip(s, start as int);
        }
        start = start + 2;
    }
    number_value(hex_str, start, 16, max)
}

/// Reads decimal text as a `u16`, as `str::parse` does: an optional `+` and
/// then at least one digit, with a value that fits.
pub fn parse_str_to_u16(text: &str) -> (result: Result<u16, ParseError>)
    ensures
        match result {
            Ok(value) => at_most(spec_number_value(text@, 10), u16::MAX as nat) == Some(value as nat),
            Err(error) => error == ParseError::InvalidNumber && at_most(spec_number_value(text@, 10), u16::MAX as nat) is None,
        },
{
    assert(text@.skip(0) =~= text@);
    match number_value(text, 0, 10, 0xFFFFu64) {
        Some(value) => Ok(value as u16),
        None => Err(ParseError::InvalidNumber),
    }
}

/// Converts a hex string into a raw integer, of size `u16`. Any number of
/// leading `0x` prefixes is ignored.
pub fn hex_str_to_u16(hex_str: &str) -> (result: Result<u16, ParseError>)
    ensures
        match result {
            Ok(value) => at_most(spec_hex_str_value(hex_str@), u16::MAX as nat) == Some(value as nat),
            Err(error) => error == ParseError::InvalidNumber && at_most(spec_hex_str_value(hex_str@), u16::MAX as nat) is None,
        },
{
    match hex_str_value(hex_str, 0xFFFFu64) {
        Some(value) => Ok(value as u16),
        None => Err(ParseError::InvalidNumber),
    }
}

/// Converts a hex string into a raw integer, of size `u32`. Any number of
/// leading `0x` prefixes is ignored.
pub fn hex_str_to_u32(hex_str: &str) -> (result: Result<u32, ParseError>)
    ensures
        match result {
            Ok(value) => at_most(spec_hex_str_value(hex_str@), u32::MAX as nat) == Some(value as nat),
            Err(error) => error == ParseError::InvalidNumber && at_most(spec_hex_str_value(hex_str@), u32::MAX as nat) is None,
        },
{
    match hex_str_value(hex_str, 0xFFFF_FFFFu64) {
        Some(value) => Ok(value as u32),
        None => Err(ParseError::InvalidNumber),
    }
}

/// Converts a hex string into a raw integer, of size `u64`. Any number of
/// leading `0x` prefixes is ignored.
pub fn hex_str_to_u64(hex_str: &str) -> (result: Result<u64, ParseError>)
    ensures
        match result {
            Ok(value) => at_most(spec_hex_str_value(hex_str@), u64::MAX as nat) == Some(value as nat),
            Err(error) => error == ParseError::InvalidNumber && at_most(spec_hex_str_value(hex_str@), u64::MAX as nat) is None,
        },
{
    match hex_str_value(hex_str, 0xFFFF_FFFF_FFFF_FFFFu64) {
        Some(value) => Ok(value as u64),
        None => Err(ParseError::InvalidNumber),
    }
}


/// A leading `0x` doesn't change the number that hexadecimal text reads as.
pub proof fn lemma_hex_prefix_ignored(s: Seq<char>)
    ensures
        spec_hex_str_value(seq!['0', 'x'] + s) == spec_hex_str_value(s),
{
    assert((seq!['0', 'x'] + s).skip(2) =~= s);
}

proof fn lemma_digit_char_value(d: nat)
    requires
        d < 10,
    ensures
        radix_char_value(digit_char(d), 10) == Some(d),
{
}

/// The decimal digits of a number read back as that number, and have no
/// leading zero.
pub proof fn lemma_decimal_digits_read_back(n: nat)
    ensures
        radix_chars_value(decimal_digits(n), 10) == Some(n),
        decimal_digits(n).len() >= 1,
        n > 0 ==> decimal_digits(n)[0] != '0',
    decreases n,
{
    let digits = decimal_digits(n);
    if n < 10 {
        lemma_digit_char_value(n);
        assert(digits.drop_last() =~= Seq::<char>::empty());
        assert(radix_chars_value(digits.drop_last(), 10) == Some(0nat));
        assert(digits.last() == digit_char(n));
    } else {
        lemma_decimal_digits_read_back(n / 10);
        lemma_digit_char_value(n % 10);
        assert(digits.drop_last() =~= decimal_digits(n / 10));
        assert(digits.last() == digit_char(n % 10));
        assert(digits[0] == decimal_digits(n / 10)[0]);
        assert((n / 10) * 10 + n % 10 == n);
    }
}

/// The hexadecimal digits: `0` to `9`, then `A` to `F` or `a` to `f` for ten to
/// fifteen, as bytes and as characters; nothing else is a digit.
pub proof fn lemma_hex_digit_table(b: u8, c: char)
    ensures
        hex_digit_value(0x30u8) == Some(0u8) && hex_char_value('0') == Some(0nat),
        hex_digit_value(0x31u8) == Some(1u8) && hex_char_value('1') == Some(1nat),
        hex_digit_value(0x32u8) == Some(2u8) && hex_char_value('2') == Some(2nat),
        hex_digit_value(0x33u8) == Some(3u8) && hex_char_value('3') == Some(3nat),
        hex_digit_value(0x34u8) == Some(4u8) && hex_char_value('4') == Some(4nat),
        hex_digit_value(0x35u8) == Some(5u8) && hex_char_value('5') == Some(5nat),
        hex_digit_value(0x36u8) == Some(6u8) && hex_char_value('6') == Some(6nat),
        hex_digit_value(0x37u8) == Some(7u8) && hex_char_value('7') == Some(7nat),
        hex_digit_value(0x38u8) == Some(8u8) && hex_char_value('8') == Some(8nat),
        hex_digit_value(0x39u8) == Some(9u8) && hex_char_value('9') == Some(9nat),
        hex_digit_value(0x41u8) == Some(10u8) && hex_char_value('A') == Some(10nat),
        hex_digit_value(0x61u8) == Some(10u8) && hex_char_value('a') == Some(10nat),
        hex_digit_value(0x42u8) == Some(11u8) && hex_char_value('B') == Some(11nat),
        hex_digit_value(0x62u8) == Some(11u8) && hex_char_value('b') == Some(11nat),
        hex_digit_value(0x43u8) == Some(12u8) && hex_char_value('C') == Some(12nat),
        hex_digit_value(0x63u8) == Some(12u8) && hex_char_value('c') == Some(12nat),
        hex_digit_value(0x44u8) == Some(13u8) && hex_char_value('D') == Some(13nat),
        hex_digit_value(0x64u8) == Some(13u8) && hex_char_value('d') == Some(13nat),
        hex_digit_value(0x45u8) == Some(14u8) && hex_char_value('E') == Some(14nat),
        hex_digit_value(0x65u8) == Some(14u8) && hex_char_value('e') == Some(14nat),
        hex_digit_value(0x46u8) == Some(15u8) && hex_char_value('F') == Some(15nat),
        hex_digit_value(0x66u8) == Some(15u8) && hex_char_value('f') == Some(15nat),
        !(b == 0x30u8 || b == 0x31u8 || b == 0x32u8 || b == 0x33u8 || b == 0x34u8 || b == 0x35u8 || b == 0x36u8 || b == 0x37u8 || b == 0x38u8 || b == 0x39u8 || b == 0x41u8 || b == 0x42u8 || b == 0x43u8 || b == 0x44u8 || b == 0x45u8 || b == 0x46u8 || b == 0x61u8 || b == 0x62u8 || b == 0x63u8 || b == 0x64u8 || b == 0x65u8 || b == 0x66u8) ==> hex_digit_value(b) is None,
        !(c == '0' || c == '1' || c == '2' || c == '3' || c == '4' || c == '5' || c == '6' || c == '7' || c == '8' || c == '9' || c == 'A' || c == 'B' || c == 'C' || c == 'D' || c == 'E' || c == 'F' || c == 'a' || c == 'b' || c == 'c' || c == 'd' || c == 'e' || c == 'f') ==> hex_char_value(c) is None,
{
}

} // verus!
