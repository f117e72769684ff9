//! The interface shared by values stored as bit flags, and the bit-level facts
//! their parsers rest on.
use vstd::prelude::*;
use vstd::std_specs::cmp::PartialEqSpecImpl;
use vstd::string::*;

verus! {

/// The severity of a bit being enabled.
#[derive(Clone, Copy, Debug, PartialEq, Eq, Structural, Hash)]
pub enum Severity {
    Normal,
    Warning,
    Error,
}

/// A byte made of eight bits, the most significant first.
#[verifier::opaque]
pub open spec fn byte_from_bits(b7: bool, b6: bool, b5: bool, b4: bool, b3: bool, b2: bool, b1: bool, b0: bool) -> u8 {
    ((if b7 { 0x80u8 } else { 0u8 }) + (if b6 { 0x40u8 } else { 0u8 }) + (if b5 { 0x20u8 } else { 0u8 }) + (if b4 { 0x10u8 } else { 0u8 })
        + (if b3 { 0x08u8 } else { 0u8 }) + (if b2 { 0x04u8 } else { 0u8 }) + (if b1 { 0x02u8 } else { 0u8 }) + (if b0 { 0x01u8 } else { 0u8 })) as u8
}

proof fn lemma_bits_of_byte_unrevealed(b7: bool, b6: bool, b5: bool, b4: bool, b3: bool, b2: bool, b1: bool, b0: bool)
    by (bit_vector)
    ensures
        ({
            let x = ((if b7 { 0x80u8 } else { 0u8 }) + (if b6 { 0x40u8 } else { 0u8 }) + (if b5 { 0x20u8 } else { 0u8 })
                + (if b4 { 0x10u8 } else { 0u8 }) + (if b3 { 0x08u8 } else { 0u8 }) + (if b2 { 0x04u8 } else { 0u8 })
                + (if b1 { 0x02u8 } else { 0u8 }) + (if b0 { 0x01u8 } else { 0u8 })) as u8;
            &&& (x & 0x80u8 != 0) == b7
            &&& (x & 0x40u8 != 0) == b6
            &&& (x & 0x20u8 != 0) == b5
            &&& (x & 0x10u8 != 0) == b4
            &&& (x & 0x08u8 != 0) == b3
            &&& (x & 0x04u8 != 0) == b2
            &&& (x & 0x02u8 != 0) == b1
            &&& (x & 0x01u8 != 0) == b0
        }),
{
}

/// Each bit of a byte built from bits is the bit it was built from.
pub proof fn lemma_bits_of_byte(b7: bool, b6: bool, b5: bool, b4: bool, b3: bool, b2: bool, b1: bool, b0: bool)
    ensures
        (byte_from_bits(b7, b6, b5, b4, b3, b2, b1, b0) & 0x80u8 != 0) == b7,
        (byte_from_bits(b7, b6, b5, b4, b3, b2, b1, b0) & 0x40u8 != 0) == b6,
        (byte_from_bits(b7, b6, b5, b4, b3, b2, b1, b0) & 0x20u8 != 0) == b5,
        (byte_from_bits(b7, b6, b5, b4, b3, b2, b1, b0) & 0x10u8 != 0) == b4,
        (byte_from_bits(b7, b6, b5, b4, b3, b2, b1, b0) & 0x08u8 != 0) == b3,
        (byte_from_bits(b7, b6, b5, b4, b3, b2, b1, b0) & 0x04u8 != 0) == b2,
        (byte_from_bits(b7, b6, b5, b4, b3, b2, b1, b0) & 0x02u8 != 0) == b1,
        (byte_from_bits(b7, b6, b5, b4, b3, b2, b1, b0) & 0x01u8 != 0) == b0,
{
    reveal(byte_from_bits);
    lemma_bits_of_byte_unrevealed(b7, b6, b5, b4, b3, b2, b1, b0);
}

proof fn lemma_byte_of_bits_unrevealed(b: u8, u7: bool, u6: bool, u5: bool, u4: bool, u3: bool, u2: bool, u1: bool, u0: bool)
    by (bit_vector)
    ensures
        ((if u7 && (b & 0x80u8 != 0) { 0x80u8 } else { 0u8 }) + (if u6 && (b & 0x40u8 != 0) { 0x40u8 } else { 0u8 })
            + (if u5 && (b & 0x20u8 != 0) { 0x20u8 } else { 0u8 }) + (if u4 && (b & 0x10u8 != 0) { 0x10u8 } else { 0u8 })
            + (if u3 && (b & 0x08u8 != 0) { 0x08u8 } else { 0u8 }) + (if u2 && (b & 0x04u8 != 0) { 0x04u8 } else { 0u8 })
            + (if u1 && (b & 0x02u8 != 0) { 0x02u8 } else { 0u8 }) + (if u0 && (b & 0x01u8 != 0) { 0x01u8 } else { 0u8 })) as u8
            == b & (((if u7 { 0x80u8 } else { 0u8 }) + (if u6 { 0x40u8 } else { 0u8 }) + (if u5 { 0x20u8 } else { 0u8 })
            + (if u4 { 0x10u8 } else { 0u8 }) + (if u3 { 0x08u8 } else { 0u8 }) + (if u2 { 0x04u8 } else { 0u8 })
            + (if u1 { 0x02u8 } else { 0u8 }) + (if u0 { 0x01u8 } else { 0u8 })) as u8),
        b & 0xFFu8 == b,
{
}

/// Rebuilding a byte from its bits, keeping only the bits marked as used in
/// `mask`, gives the byte with the unused bits cleared.
pub proof fn lemma_byte_of_bits(b: u8, mask: u8, u7: bool, u6: bool, u5: bool, u4: bool, u3: bool, u2: bool, u1: bool, u0: bool)
    requires
        mask == ((if u7 { 0x80u8 } else { 0u8 }) + (if u6 { 0x40u8 } else { 0u8 }) + (if u5 { 0x20u8 } else { 0u8 })
            + (if u4 { 0x10u8 } else { 0u8 }) + (if u3 { 0x08u8 } else { 0u8 }) + (if u2 { 0x04u8 } else { 0u8 })
            + (if u1 { 0x02u8 } else { 0u8 }) + (if u0 { 0x01u8 } else { 0u8 })) as u8,
    ensures
        byte_from_bits(
            u7 && (b & 0x80u8 != 0),
            u6 && (b & 0x40u8 != 0),
            u5 && (b & 0x20u8 != 0),
            u4 && (b & 0x10u8 != 0),
            u3 && (b & 0x08u8 != 0),
            u2 && (b & 0x04u8 != 0),
            u1 && (b & 0x02u8 != 0),
            u0 && (b & 0x01u8 != 0),
        ) == b & mask,
        b & 0xFFu8 == b,
{
    reveal(byte_from_bits);
    lemma_byte_of_bits_unrevealed(b, u7, u6, u5, u4, u3, u2, u1, u0);
}

/// Builds a byte from eight bits, the most significant first.
pub fn bits_to_byte(b7: bool, b6: bool, b5: bool, b4: bool, b3: bool, b2: bool, b1: bool, b0: bool) -> (byte: u8)
    ensures
        byte == byte_from_bits(b7, b6, b5, b4, b3, b2, b1, b0),
{
    reveal(byte_from_bits);
    (if b7 { 0x80u8 } else { 0u8 }) + (if b6 { 0x40u8 } else { 0u8 }) + (if b5 { 0x20u8 } else { 0u8 }) + (if b4 { 0x10u8 } else { 0u8 })
        + (if b3 { 0x08u8 } else { 0u8 }) + (if b2 { 0x04u8 } else { 0u8 }) + (if b1 { 0x02u8 } else { 0u8 }) + (if b0 { 0x01u8 } else { 0u8 })
}

/// A byte made of a two-bit value in bits 8-7, a two-bit value in bits 6-5
/// and a four-bit value in bits 4-1.
#[verifier::opaque]
pub open spec fn crumbs_byte(hi: u8, mid: u8, low: u8) -> u8 {
    ((hi % 4) * 64 + (mid % 4) * 16 + low % 16) as u8
}

/// A byte made of a high and a low four-bit value.
#[verifier::opaque]
pub open spec fn nibble_byte(hi: u8, low: u8) -> u8 {
    ((hi % 16) * 16 + low % 16) as u8
}

/// The parts of a byte built from two-bit and four-bit values.
proof fn lemma_crumbs_byte_raw(hi: u8, mid: u8, low: u8)
    by (bit_vector)
    ensures
        (((hi % 4) * 64 + (mid % 4) * 16 + low % 16) as u8 & 0xC0u8) >> 6u8 == hi % 4,
        (((hi % 4) * 64 + (mid % 4) * 16 + low % 16) as u8 & 0x30u8) >> 4u8 == mid % 4,
        ((hi % 4) * 64 + (mid % 4) * 16 + low % 16) as u8 & 0x0Fu8 == low % 16,
        ((hi % 4) * 64 + (mid % 4) * 16 + low % 16) as u8 & 0x08u8 == low & 0x08u8,
        ((hi % 4) * 64 + (mid % 4) * 16 + low % 16) as u8 & 0x04u8 == low & 0x04u8,
        ((hi % 4) * 64 + (mid % 4) * 16 + low % 16) as u8 & 0x02u8 == low & 0x02u8,
        ((hi % 4) * 64 + (mid % 4) * 16 + low % 16) as u8 & 0x01u8 == low & 0x01u8,
{
}

/// A byte is rebuilt from its two-bit and four-bit parts.
proof fn lemma_byte_crumbs_raw(b: u8)
    by (bit_vector)
    ensures
        (b & 0xC0u8) >> 6u8 < 4,
        (b & 0x30u8) >> 4u8 < 4,
        b & 0x0Fu8 < 16,
        ((((b & 0xC0u8) >> 6u8) % 4) * 64 + (((b & 0x30u8) >> 4u8) % 4) * 16 + (b & 0x0Fu8) % 16) as u8 == b,
{
}

/// The parts of a byte built from two four-bit values.
proof fn lemma_nibble_byte_raw(hi: u8, low: u8)
    by (bit_vector)
    ensures
        (((hi % 16) * 16 + low % 16) as u8 & 0xF0u8) >> 4u8 == hi % 16,
        ((hi % 16) * 16 + low % 16) as u8 & 0x0Fu8 == low % 16,
        ((hi % 16) * 16 + low % 16) as u8 & 0x08u8 == low & 0x08u8,
        ((hi % 16) * 16 + low % 16) as u8 & 0x04u8 == low & 0x04u8,
        ((hi % 16) * 16 + low % 16) as u8 & 0x02u8 == low & 0x02u8,
        ((hi % 16) * 16 + low % 16) as u8 & 0x01u8 == low & 0x01u8,
{
}

/// A byte is rebuilt from its two four-bit parts.
proof fn lemma_byte_nibbles_raw(b: u8)
    by (bit_vector)
    ensures
        (b & 0xF0u8) >> 4u8 < 16,
        b & 0x0Fu8 < 16,
        ((((b & 0xF0u8) >> 4u8) % 16) * 16 + (b & 0x0Fu8) % 16) as u8 == b,
{
}

/// The parts of a byte built from two-bit and four-bit values.
pub proof fn lemma_crumbs_byte(hi: u8, mid: u8, low: u8)
    ensures
        (crumbs_byte(hi, mid, low) & 0xC0u8) >> 6u8 == hi % 4,
        (crumbs_byte(hi, mid, low) & 0x30u8) >> 4u8 == mid % 4,
        crumbs_byte(hi, mid, low) & 0x0Fu8 == low % 16,
        crumbs_byte(hi, mid, low) & 0x08u8 == low & 0x08u8,
        crumbs_byte(hi, mid, low) & 0x04u8 == low & 0x04u8,
        crumbs_byte(hi, mid, low) & 0x02u8 == low & 0x02u8,
        crumbs_byte(hi, mid, low) & 0x01u8 == low & 0x01u8,
{
    reveal(crumbs_byte);
    lemma_crumbs_byte_raw(hi, mid, low);
}

/// A byte is rebuilt from its two-bit and four-bit parts.
pub proof fn lemma_byte_crumbs(b: u8)
    ensures
        (b & 0xC0u8) >> 6u8 < 4,
        (b & 0x30u8) >> 4u8 < 4,
        b & 0x0Fu8 < 16,
        crumbs_byte((b & 0xC0u8) >> 6u8, (b & 0x30u8) >> 4u8, b & 0x0Fu8) == b,
{
    reveal(crumbs_byte);
    lemma_byte_crumbs_raw(b);
}

/// The parts of a byte built from two four-bit values.
pub proof fn lemma_nibble_byte(hi: u8, low: u8)
    ensures
        (nibble_byte(hi, low) & 0xF0u8) >> 4u8 == hi % 16,
        nibble_byte(hi, low) & 0x0Fu8 == low % 16,
        nibble_byte(hi, low) & 0x08u8 == low & 0x08u8,
        nibble_byte(hi, low) & 0x04u8 == low & 0x04u8,
        nibble_byte(hi, low) & 0x02u8 == low & 0x02u8,
        nibble_byte(hi, low) & 0x01u8 == low & 0x01u8,
{
    reveal(nibble_byte);
    lemma_nibble_byte_raw(hi, low);
}

/// A byte is rebuilt from its two four-bit parts.
pub proof fn lemma_byte_nibbles(b: u8)
    ensures
        (b & 0xF0u8) >> 4u8 < 16,
        b & 0x0Fu8 < 16,
        nibble_byte((b & 0xF0u8) >> 4u8, b & 0x0Fu8) == b,
{
    reveal(nibble_byte);
    lemma_byte_nibbles_raw(b);
}

/// Builds a byte from two-bit and four-bit values; only the low bits of each
/// value are kept.
pub fn crumbs_to_byte(hi: u8, mid: u8, low: u8) -> (byte: u8)
    ensures
        byte == crumbs_byte(hi, mid, low),
{
    reveal(crumbs_byte);
    (hi % 4) * 64 + (mid % 4) * 16 + low % 16
}

/// Builds a byte from two four-bit values; only the low four bits of each
/// value are kept.
pub fn nibbles_to_byte(hi: u8, low: u8) -> (byte: u8)
    ensures
        byte == nibble_byte(hi, low),
{
    reveal(nibble_byte);
    (hi % 16) * 16 + low % 16
}

/// The character of a decimal digit.
pub open spec fn digit_char(d: nat) -> char {
    if d == 0 {
        '0'
    } else if d == 1 {
        '1'
    } else if d == 2 {
        '2'
    } else if d == 3 {
        '3'
    } else if d == 4 {
        '4'
    } else if d == 5 {
        '5'
    } else if d == 6 {
        '6'
    } else if d == 7 {
        '7'
    } else if d == 8 {
        '8'
    } else {
        '9'
    }
}

/// The decimal representation of a number, without leading zeroes.
pub open spec fn decimal_digits(n: nat) -> Seq<char>
    decreases n,
{
    if n < 10 {
        seq![digit_char(n)]
    } else {
        decimal_digits(n / 10) + seq![digit_char(n % 10)]
    }
}

fn digit_str(d: u8) -> (text: &'static str)
    requires
        d < 10,
    ensures
        text@ == seq![digit_char(d as nat)],
{
    proof {
        reveal_strlit("0");
        reveal_strlit("1");
        reveal_strlit("2");
        reveal_strlit("3");
        reveal_strlit("4");
        reveal_strlit("5");
        reveal_strlit("6");
        reveal_strlit("7");
        reveal_strlit("8");
        reveal_strlit("9");
    }
    match d {
        0 => "0",
        1 => "1",
        2 => "2",
        3 => "3",
        4 => "4",
        5 => "5",
        6 => "6",
        7 => "7",
        8 => "8",
        _ => "9",
    }
}

/// Writes a number in decimal, as `format!("{}", n)` does.
pub fn decimal_string(n: u64) -> (text: String)
    ensures
        text@ == decimal_digits(n as nat),
    decreases n,
{
    if n < 10 {
        let mut text = String::new();
        text.append(digit_str(n as u8));
        text
    } else {
        let mut text = decimal_string(n / 10);
        text.append(digit_str((n % 10) as u8));
        text
    }
}

/// A single bit or bit range that's enabled, with its meaning and severity.
/// Two ranges are equal when they cover the same bits with the same severity,
/// whatever their explanations.
#[derive(Clone, Debug, Eq)]
pub struct EnabledBitRange {
    /// The offset of the range's most significant bit, counted from the least
    /// significant bit of the whole value.
    pub offset: u8,
    /// The number of bits in the range.
    pub len: u8,
    pub explanation: String,
    pub severity: Severity,
}

impl PartialEq for EnabledBitRange {
    fn eq(&self, other: &EnabledBitRange) -> (equal: bool) {
        self.offset == other.offset && self.len == other.len && self.severity == other.severity
    }
}

impl PartialEqSpecImpl for EnabledBitRange {
    open spec fn obeys_eq_spec() -> bool {
        true
    }

    open spec fn eq_spec(&self, other: &EnabledBitRange) -> bool {
        self.offset == other.offset && self.len == other.len && self.severity == other.severity
    }
}

/// The model of an [`EnabledBitRange`].
pub struct BitRangeModel {
    pub offset: u8,
    pub len: u8,
    pub explanation: Seq<char>,
    pub severity: Severity,
}

impl View for EnabledBitRange {
    type V = BitRangeModel;

    open spec fn view(&self) -> BitRangeModel {
        BitRangeModel {
            offset: self.offset,
            len: self.len,
            explanation: self.explanation@,
            severity: self.severity,
        }
    }
}

/// The models of a sequence of bit ranges.
pub open spec fn bit_range_models(ranges: Seq<EnabledBitRange>) -> Seq<BitRangeModel> {
    ranges.map_values(|r: EnabledBitRange| r@)
}

/// The models of two sequences of bit ranges, one after the other.
pub proof fn lemma_bit_range_models_concat(a: Seq<EnabledBitRange>, b: Seq<EnabledBitRange>)
    ensures
        bit_range_models(a + b) == bit_range_models(a) + bit_range_models(b),
{
    assert(bit_range_models(a + b) =~= bit_range_models(a) + bit_range_models(b));
}

/// Appends `tail` to `ranges`.
pub fn append_bit_ranges(ranges: Vec<EnabledBitRange>, tail: Vec<EnabledBitRange>) -> (result: Vec<
    EnabledBitRange,
>)
    ensures
        bit_range_models(result@) == bit_range_models(ranges@) + bit_range_models(tail@),
{
    let mut ranges = ranges;
    let mut tail = tail;
    let ghost a = ranges@;
    let ghost b = tail@;
    ranges.append(&mut tail);
    proof {
        lemma_bit_range_models_concat(a, b);
    }
    ranges
}

/// `ranges` with `range` added at the end when `enabled` holds.
#[verifier::opaque]
pub open spec fn push_if(ranges: Seq<BitRangeModel>, enabled: bool, range: BitRangeModel) -> Seq<BitRangeModel> {
    if enabled {
        ranges.push(range)
    } else {
        ranges
    }
}

/// The model of a bit range.
pub open spec fn bit_range(offset: u8, len: u8, explanation: Seq<char>, severity: Severity) -> BitRangeModel {
    BitRangeModel { offset, len, explanation, severity }
}

/// Adds a range with the given explanation when `enabled` holds.
pub fn push_bit_range_if(
    ranges: Vec<EnabledBitRange>,
    enabled: bool,
    offset: u8,
    len: u8,
    explanation: &str,
    severity: Severity,
) -> (result: Vec<EnabledBitRange>)
    ensures
        bit_range_models(result@) == push_if(
            bit_range_models(ranges@),
            enabled,
            bit_range(offset, len, explanation@, severity),
        ),
{
    reveal(push_if);
    let mut ranges = ranges;
    if enabled {
        let ghost before = ranges@;
        let range = EnabledBitRange {
            offset,
            len,
            explanation: <String as StringExecFns>::from_str(explanation),
            severity,
        };
        ranges.push(range);
        assert(bit_range_models(ranges@) =~= bit_range_models(before).push(range@));
    }
    ranges
}

/// Adds a range whose explanation is `prefix` followed by `value`.
pub fn push_bit_range_with_value(
    ranges: &mut Vec<EnabledBitRange>,
    offset: u8,
    len: u8,
    prefix: &str,
    value: &str,
    severity: Severity,
)
    ensures
        bit_range_models(final(ranges)@) == bit_range_models(old(ranges)@).push(
            bit_range(offset, len, prefix@ + value@, severity),
        ),
{
    let mut explanation = <String as StringExecFns>::from_str(prefix);
    explanation.append(value);
    let range = EnabledBitRange { offset, len, explanation, severity };
    ranges.push(range);
    assert(bit_range_models(ranges@) =~= bit_range_models(old(ranges)@).push(range@));
}

/// Whether a range is at least one bit wide and lies within one byte of a
/// value of `num_bits` bits.
pub open spec fn range_fits(range: BitRangeModel, num_bits: int) -> bool {
    &&& 0 < range.len <= range.offset + 1
    &&& range.offset < num_bits
    &&& (range.offset + 1 - range.len) / 8 == range.offset / 8
}

/// Whether `ranges` lie left to right in a value of `num_bits` bits: each one
/// fits, and each one ends to the left of where the next one begins.
pub open spec fn ranges_in_order(ranges: Seq<BitRangeModel>, num_bits: int) -> bool {
    &&& forall|i: int| 0 <= i < ranges.len() ==> range_fits(#[trigger] ranges[i], num_bits)
    &&& forall|i: int, j: int|
        #![trigger ranges[i], ranges[j]]
        0 <= i < j < ranges.len() ==> ranges[j].offset + ranges[i].len <= ranges[i].offset
}

/// Whether every one of `ranges` lies wholly to the left of bit `position`.
pub open spec fn ranges_left_of(ranges: Seq<BitRangeModel>, position: int) -> bool {
    forall|i: int| 0 <= i < ranges.len() ==> (#[trigger] ranges[i]).offset - ranges[i].len >= position
}

/// Whether every one of `ranges` starts at bit `position` or to its right.
pub open spec fn ranges_start_at_most(ranges: Seq<BitRangeModel>, position: int) -> bool {
    forall|i: int| 0 <= i < ranges.len() ==> (#[trigger] ranges[i]).offset <= position
}

pub broadcast proof fn lemma_push_in_order(ranges: Seq<BitRangeModel>, range: BitRangeModel, num_bits: int)
    requires
        ranges_in_order(ranges, num_bits),
        ranges_left_of(ranges, range.offset as int),
        range_fits(range, num_bits),
    ensures
        #[trigger] ranges_in_order(ranges.push(range), num_bits),
{
    let pushed = ranges.push(range);
    assert forall|i: int, j: int| 0 <= i < j < pushed.len() implies pushed[j].offset + pushed[i].len
        <= pushed[i].offset by {
        if j == ranges.len() {
            assert(ranges[i].offset - ranges[i].len >= range.offset);
        } else {
            assert(ranges[j].offset + ranges[i].len <= ranges[i].offset);
        }
    }
    assert forall|i: int| 0 <= i < pushed.len() implies range_fits(#[trigger] pushed[i], num_bits) by {
        if i < ranges.len() {
            assert(range_fits(ranges[i], num_bits));
        }
    }
}

pub broadcast proof fn lemma_push_left_of(ranges: Seq<BitRangeModel>, range: BitRangeModel, position: int)
    requires
        ranges_left_of(ranges, position),
        range.offset - range.len >= position,
    ensures
        #[trigger] ranges_left_of(ranges.push(range), position),
{
    let pushed = ranges.push(range);
    assert forall|i: int| 0 <= i < pushed.len() implies (#[trigger] pushed[i]).offset - pushed[i].len
        >= position by {
        if i < ranges.len() {
            assert(ranges[i].offset - ranges[i].len >= position);
        }
    }
}

pub broadcast proof fn lemma_push_start_at_most(ranges: Seq<BitRangeModel>, range: BitRangeModel, position: int)
    requires
        ranges_start_at_most(ranges, position),
        range.offset <= position,
    ensures
        #[trigger] ranges_start_at_most(ranges.push(range), position),
{
    let pushed = ranges.push(range);
    assert forall|i: int| 0 <= i < pushed.len() implies (#[trigger] pushed[i]).offset <= position by {
        if i < ranges.len() {
            assert(ranges[i].offset <= position);
        }
    }
}

pub broadcast proof fn lemma_push_if_in_order(
    ranges: Seq<BitRangeModel>,
    enabled: bool,
    range: BitRangeModel,
    num_bits: int,
)
    requires
        ranges_in_order(ranges, num_bits),
        ranges_left_of(ranges, range.offset as int),
        range_fits(range, num_bits),
    ensures
        #[trigger] ranges_in_order(push_if(ranges, enabled, range), num_bits),
{
    reveal(push_if);
    if enabled {
        lemma_push_in_order(ranges, range, num_bits);
    }
}

pub broadcast proof fn lemma_push_if_left_of(
    ranges: Seq<BitRangeModel>,
    enabled: bool,
    range: BitRangeModel,
    position: int,
)
    requires
        ranges_left_of(ranges, position),
        range.offset - range.len >= position,
    ensures
        #[trigger] ranges_left_of(push_if(ranges, enabled, range), position),
{
    reveal(push_if);
    if enabled {
        lemma_push_left_of(ranges, range, position);
    }
}

pub broadcast proof fn lemma_push_if_start_at_most(
    ranges: Seq<BitRangeModel>,
    enabled: bool,
    range: BitRangeModel,
    position: int,
)
    requires
        ranges_start_at_most(ranges, position),
        range.offset <= position,
    ensures
        #[trigger] ranges_start_at_most(push_if(ranges, enabled, range), position),
{
    reveal(push_if);
    if enabled {
        lemma_push_start_at_most(ranges, range, position);
    }
}

/// The facts that carry the order of bit ranges through pushes.
pub broadcast group group_bit_range_order {
    lemma_push_in_order,
    lemma_push_left_of,
    lemma_push_start_at_most,
    lemma_push_if_in_order,
    lemma_push_if_left_of,
    lemma_push_if_start_at_most,
}

/// Ranges in order, followed by ranges in order that start to the right of
/// where the first ones end, are in order.
pub proof fn lemma_concat_in_order(
    a: Seq<BitRangeModel>,
    b: Seq<BitRangeModel>,
    num_bits: int,
    position: int,
    low: int,
)
    requires
        ranges_in_order(a, num_bits),
        ranges_in_order(b, num_bits),
        ranges_left_of(a, position),
        ranges_start_at_most(b, position),
        ranges_left_of(b, low),
        low <= position,
    ensures
        ranges_in_order(a + b, num_bits),
        ranges_left_of(a + b, low),
{
    let c = a + b;
    assert forall|i: int, j: int| 0 <= i < j < c.len() implies c[j].offset + c[i].len <= c[i].offset by {
        if j < a.len() {
            assert(a[j].offset + a[i].len <= a[i].offset);
        } else if i < a.len() {
            assert(a[i].offset - a[i].len >= position);
            assert(b[j - a.len()].offset <= position);
        } else {
            assert(b[j - a.len()].offset + b[i - a.len()].len <= b[i - a.len()].offset);
        }
    }
    assert forall|i: int| 0 <= i < c.len() implies range_fits(#[trigger] c[i], num_bits) by {
        if i < a.len() {
            assert(range_fits(a[i], num_bits));
        } else {
            assert(range_fits(b[i - a.len()], num_bits));
        }
    }
    assert forall|i: int| 0 <= i < c.len() implies (#[trigger] c[i]).offset - c[i].len >= low by {
        if i < a.len() {
            assert(a[i].offset - a[i].len >= position);
        } else {
            assert(b[i - a.len()].offset - b[i - a.len()].len >= low);
        }
    }
}

/// The last of `ranges` that starts at bit `offset`, if any: in a display,
/// where no two ranges start at the same bit, what is shown at that bit.
pub open spec fn range_at(ranges: Seq<BitRangeModel>, offset: u8) -> Option<BitRangeModel>
    decreases ranges.len(),
{
    if ranges.len() == 0 {
        None
    } else if ranges.last().offset == offset {
        Some(ranges.last())
    } else {
        range_at(ranges.drop_last(), offset)
    }
}

pub broadcast proof fn lemma_range_at_push(ranges: Seq<BitRangeModel>, range: BitRangeModel, offset: u8)
    ensures
        #[trigger] range_at(ranges.push(range), offset) == if range.offset == offset {
            Some(range)
        } else {
            range_at(ranges, offset)
        },
{
    assert(ranges.push(range).drop_last() =~= ranges);
}

pub broadcast proof fn lemma_range_at_push_if(
    ranges: Seq<BitRangeModel>,
    enabled: bool,
    range: BitRangeModel,
    offset: u8,
)
    ensures
        #[trigger] range_at(push_if(ranges, enabled, range), offset) == if enabled && range.offset == offset {
            Some(range)
        } else {
            range_at(ranges, offset)
        },
{
    reveal(push_if);
    lemma_range_at_push(ranges, range, offset);
}

pub broadcast proof fn lemma_range_at_concat(a: Seq<BitRangeModel>, b: Seq<BitRangeModel>, offset: u8)
    ensures
        #[trigger] range_at(a + b, offset) == match range_at(b, offset) {
            Some(range) => Some(range),
            None => range_at(a, offset),
        },
    decreases b.len(),
{
    if b.len() == 0 {
        assert(a + b =~= a);
    } else {
        assert((a + b).drop_last() =~= a + b.drop_last());
        assert((a + b).last() == b.last());
        lemma_range_at_concat(a, b.drop_last(), offset);
    }
}

pub proof fn lemma_range_at_empty(offset: u8)
    ensures
        range_at(Seq::<BitRangeModel>::empty(), offset) is None,
{
}

/// The facts that find what a display shows at a bit.
pub broadcast group group_range_at {
    lemma_range_at_push,
    lemma_range_at_push_if,
    lemma_range_at_concat,
}

/// A value that is stored in a bitflag-style format according to the EMV Books.
pub trait BitflagValue: Sized {
    /// The number of bytes in the raw value.
    const NUM_BYTES: usize;

    /// The raw bytes that represent the value.
    spec fn spec_binary_representation(&self) -> Seq<u8>;

    /// The bits and bit ranges that are enabled, left to right.
    spec fn spec_bit_display_information(&self) -> Seq<BitRangeModel>;

    /// Gets the representation of the value in raw bytes.
    fn get_binary_representation(&self) -> (bytes: Vec<u8>)
        ensures
            bytes@ == self.spec_binary_representation(),
    ;

    /// Fetches the requisite information for display of this value, in
    /// left-to-right order.
    fn get_bit_display_information(&self) -> (ranges: Vec<EnabledBitRange>)
        ensures
            bit_range_models(ranges@) == self.spec_bit_display_information(),
    ;

    /// The enabled bits and ranges come left to right, each within one byte of
    /// the value.
    proof fn lemma_bit_display_in_order(&self)
        ensures
            ranges_in_order(
                self.spec_bit_display_information(),
                8 * self.spec_binary_representation().len() as int,
            ),
    ;
}

} // verus!
