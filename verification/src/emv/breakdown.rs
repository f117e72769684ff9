//! The text of the breakdown of a value stored as bit flags: its bits, a line
//! of brackets over the multi-bit values, and one line per enabled bit or
//! range, joined to its bits by a vertical line.
use vstd::prelude::*;
use vstd::string::*;

use crate::emv::bitflag_values::{
    bit_range_models, range_fits, ranges_in_order, ranges_start_at_most, BitRangeModel, BitflagValue,
    EnabledBitRange,
};

verus! {

/// The bits of a byte, most significant first.
pub open spec fn byte_bits_text(b: u8) -> Seq<char> {
    Seq::new(8, |i: int| if (b >> ((7 - i) as u8)) & 1u8 == 1u8 { '1' } else { '0' })
}

/// The bits of `bytes`, most significant first, with a space between bytes.
pub open spec fn binary_text(bytes: Seq<u8>) -> Seq<char>
    decreases bytes.len(),
{
    if bytes.len() == 0 {
        seq![]
    } else if bytes.len() == 1 {
        byte_bits_text(bytes[0])
    } else {
        binary_text(bytes.drop_last()) + seq![' '] + byte_bits_text(bytes.last())
    }
}

/// The leading part of the line of a range that starts at bit `low + 1`: for
/// each bit from `high` down to `low + 1`, a vertical line where some range
/// starts, and a space after the last bit of each byte.
pub open spec fn leader_text(high: int, low: int, starts: Set<int>) -> Seq<char>
    decreases high - low,
{
    if high <= low {
        seq![]
    } else {
        seq![if starts.contains(high) { '\u{2502}' } else { ' ' }] + (if high % 8 == 0 {
            seq![' ']
        } else {
            seq![]
        }) + leader_text(high - 1, low, starts)
    }
}

/// The bit offsets where the ranges start.
pub open spec fn range_starts(ranges: Seq<BitRangeModel>) -> Set<int> {
    Set::new(|p: int| exists|i: int| 0 <= i < ranges.len() && ranges[i].offset as int == p)
}

/// The start of the line of range `index`, which its explanation follows: the
/// vertical lines of the ranges to its left and a corner.
pub open spec fn range_arm_text(num_bits: int, ranges: Seq<BitRangeModel>, index: int) -> Seq<char> {
    leader_text(num_bits - 1, ranges[index].offset as int, range_starts(ranges)) + "\u{2514} "@
}

/// The spaces before the mark of a range that starts at `offset`, when the
/// previous mark ended above bit `current`: for each bit from `offset` up to
/// `current`, one space after the last bit of a byte (but the last byte), and
/// one space for every bit but the range's own.
pub open spec fn gap_text(offset: int, current: int, num_bits: int) -> Seq<char>
    decreases current - offset + 1,
{
    if current < offset {
        seq![]
    } else {
        gap_text(offset, current - 1, num_bits) + (if (current + 1) % 8 == 0 && current + 1 < num_bits {
            seq![' ']
        } else {
            seq![]
        }) + (if current != offset {
            seq![' ']
        } else {
            seq![]
        })
    }
}

/// The mark over a range: a bracket as wide as a multi-bit range, or a
/// vertical line.
pub open spec fn mark_text(len: int) -> Seq<char> {
    if len > 1 {
        seq!['\u{251c}'] + Seq::new((len - 2) as nat, |i: int| '\u{2500}') + seq!['\u{2518}']
    } else {
        seq!['\u{2502}']
    }
}

/// The line of marks over the ranges, left to right, the previous mark having
/// ended above bit `current`.
pub open spec fn header_text(ranges: Seq<BitRangeModel>, num_bits: int, current: int) -> Seq<char>
    decreases ranges.len(),
{
    if ranges.len() == 0 {
        seq![]
    } else {
        let range = ranges[0];
        let next = if range.offset > range.len {
            range.offset - range.len
        } else {
            0
        };
        gap_text(range.offset as int, current, num_bits) + mark_text(range.len as int) + header_text(
            ranges.drop_first(),
            num_bits,
            next,
        )
    }
}

/// Whether some range is more than one bit wide.
pub open spec fn has_multi_bit_range(ranges: Seq<BitRangeModel>) -> bool {
    exists|i: int| 0 <= i < ranges.len() && ranges[i].len > 1
}

/// The character that shows bit `position` of `bytes`, counted from the least
/// significant bit of the last byte.
pub open spec fn bit_char(bytes: Seq<u8>, position: int) -> char {
    let byte = bytes[bytes.len() - 1 - position / 8];
    if (byte >> ((position % 8) as u8)) & 1u8 == 1u8 {
        '1'
    } else {
        '0'
    }
}

proof fn lemma_leader_text_len(high: int, low: int, starts: Set<int>)
    requires
        0 <= low <= high,
    ensures
        leader_text(high, low, starts).len() == (high - low) + (high / 8 - low / 8),
    decreases high - low,
{
    if high > low {
        lemma_leader_text_len(high - 1, low, starts);
    }
}

proof fn lemma_binary_text_index(bytes: Seq<u8>, k: int, j: int)
    requires
        0 <= k < bytes.len(),
        0 <= j < 8,
    ensures
        binary_text(bytes).len() == 9 * bytes.len() - 1,
        binary_text(bytes)[9 * k + j] == byte_bits_text(bytes[k])[j],
    decreases bytes.len(),
{
    if bytes.len() > 1 {
        let front = bytes.drop_last();
        if k < bytes.len() - 1 {
            lemma_binary_text_index(front, k, j);
        } else {
            lemma_binary_text_index(front, 0, 0);
        }
    }
}

/// The column of the line of bits of a value of `num_bits` bits in which bit
/// `position` stands, bits being counted from the least significant.
pub open spec fn bit_column(num_bits: int, position: int) -> int {
    (num_bits - 1 - position) + (num_bits - 1 - position) / 8
}

/// The line of bits of a value of whole bytes shows each bit in its column.
pub proof fn lemma_binary_line_columns(bytes: Seq<u8>, position: int)
    requires
        0 <= position < 8 * bytes.len(),
    ensures
        bit_column(8 * bytes.len() as int, position) < binary_text(bytes).len(),
        binary_text(bytes)[bit_column(8 * bytes.len() as int, position)] == bit_char(bytes, position),
{
    let n = bytes.len() as int;
    let k = n - 1 - position / 8;
    let j = 7 - position % 8;
    lemma_binary_text_index(bytes, k, j);
    assert(bit_column(8 * n, position) == 9 * k + j);
}

/// In a value of whole bytes, the line of each range ends in a corner that
/// stands in the column of the range's first bit.
pub proof fn lemma_range_arm_points_at_bit(num_bits: int, ranges: Seq<BitRangeModel>, index: int)
    requires
        num_bits % 8 == 0,
        0 <= index < ranges.len(),
        ranges[index].offset < num_bits,
    ensures
        range_arm_text(num_bits, ranges, index).len() == bit_column(num_bits, ranges[index].offset as int) + 2,
        range_arm_text(num_bits, ranges, index)[bit_column(num_bits, ranges[index].offset as int)]
            == '\u{2514}',
{
    reveal_strlit("\u{2514} ");
    let p = ranges[index].offset as int;
    lemma_leader_text_len(num_bits - 1, p, range_starts(ranges));
    assert((num_bits - 1) / 8 - p / 8 == (num_bits - 1 - p) / 8);
}

/// Where the text of marks that follows the mark ending above bit `current`
/// begins.
pub open spec fn text_start(num_bits: int, current: int) -> int {
    if (current + 1) % 8 == 0 && current + 1 < num_bits {
        bit_column(num_bits, current) - 1
    } else {
        bit_column(num_bits, current)
    }
}

proof fn lemma_gap_text_len(offset: int, current: int, num_bits: int)
    requires
        num_bits % 8 == 0,
        0 <= offset <= current < num_bits,
    ensures
        text_start(num_bits, current) + gap_text(offset, current, num_bits).len() == bit_column(num_bits, offset),
    decreases current - offset,
{
    let b: int = if (current + 1) % 8 == 0 && current + 1 < num_bits {
        1
    } else {
        0
    };
    if current > offset {
        lemma_gap_text_len(offset, current - 1, num_bits);
        assert(gap_text(offset, current, num_bits).len() == gap_text(offset, current - 1, num_bits).len() + b + 1);
        assert(bit_column(num_bits, current - 1) - bit_column(num_bits, current) == 1 + (if current % 8 == 0 {
            1int
        } else {
            0
        })) by {
            let m = num_bits / 8;
            assert(num_bits == 8 * m);
        }
        assert(text_start(num_bits, current - 1) == bit_column(num_bits, current) + 1);
    } else {
        assert(gap_text(offset, current - 1, num_bits).len() == 0);
        assert(gap_text(offset, current, num_bits).len() == b);
    }
}

proof fn lemma_mark_text_len(len: int)
    requires
        len > 0,
    ensures
        mark_text(len).len() == len,
{
}

proof fn lemma_drop_first_in_order(ranges: Seq<BitRangeModel>, num_bits: int)
    requires
        ranges.len() > 0,
        ranges_in_order(ranges, num_bits),
    ensures
        ranges_in_order(ranges.drop_first(), num_bits),
        ranges_start_at_most(ranges.drop_first(), ranges[0].offset - ranges[0].len),
{
    let rest = ranges.drop_first();
    assert forall|i: int| 0 <= i < rest.len() implies range_fits(#[trigger] rest[i], num_bits) by {
        assert(range_fits(ranges[i + 1], num_bits));
    }
    assert forall|i: int, j: int| 0 <= i < j < rest.len() implies rest[j].offset + rest[i].len
        <= rest[i].offset by {
        assert(ranges[j + 1].offset + ranges[i + 1].len <= ranges[i + 1].offset);
    }
    assert forall|i: int| 0 <= i < rest.len() implies (#[trigger] rest[i]).offset <= ranges[0].offset
        - ranges[0].len by {
        assert(ranges[i + 1].offset + ranges[0].len <= ranges[0].offset);
    }
}

proof fn lemma_text_start_after(num_bits: int, range: BitRangeModel)
    requires
        num_bits % 8 == 0,
        range_fits(range, num_bits),
        range.offset >= range.len,
    ensures
        bit_column(num_bits, range.offset as int) + range.len == text_start(num_bits, range.offset - range.len),
{
    let m = num_bits / 8;
    assert(num_bits == 8 * m);
}

proof fn lemma_subrange_after(a: Seq<char>, b: Seq<char>, start: int, len: int)
    requires
        0 <= start,
        start + len <= b.len(),
        0 <= len,
    ensures
        (a + b).subrange(a.len() + start, a.len() + start + len) == b.subrange(start, start + len),
{
    assert((a + b).subrange(a.len() + start, a.len() + start + len) =~= b.subrange(start, start + len));
}

proof fn lemma_header_marks(ranges: Seq<BitRangeModel>, num_bits: int, current: int)
    requires
        num_bits % 8 == 0,
        0 <= current < num_bits,
        ranges_in_order(ranges, num_bits),
        ranges_start_at_most(ranges, current),
    ensures
        forall|i: int|
            #![trigger ranges[i]]
            0 <= i < ranges.len() ==> {
                let start = bit_column(num_bits, ranges[i].offset as int) - text_start(num_bits, current);
                &&& 0 <= start
                &&& start + ranges[i].len <= header_text(ranges, num_bits, current).len()
                &&& header_text(ranges, num_bits, current).subrange(start, start + ranges[i].len)
                    == mark_text(ranges[i].len as int)
            },
    decreases ranges.len(),
{
    if ranges.len() > 0 {
        let range = ranges[0];
        let o = range.offset as int;
        let l = range.len as int;
        let next: int = if range.offset > range.len {
            range.offset - range.len
        } else {
            0
        };
        let rest = ranges.drop_first();
        assert(range_fits(range, num_bits));
        lemma_gap_text_len(o, current, num_bits);
        lemma_mark_text_len(l);
        let head = gap_text(o, current, num_bits) + mark_text(l);
        let tail = header_text(rest, num_bits, next);
        let text = header_text(ranges, num_bits, current);
        assert(text == head + tail);
        lemma_drop_first_in_order(ranges, num_bits);
        lemma_header_marks(rest, num_bits, next);
        assert(text.subrange(head.len() - l, head.len() as int) =~= mark_text(l));
        if rest.len() > 0 {
            assert(rest[0].offset + l <= o);
            lemma_text_start_after(num_bits, range);
        }
        assert forall|i: int| #![trigger ranges[i]] 1 <= i < ranges.len() implies {
            let start = bit_column(num_bits, ranges[i].offset as int) - text_start(num_bits, current);
            &&& 0 <= start
            &&& start + ranges[i].len <= text.len()
            &&& text.subrange(start, start + ranges[i].len) == mark_text(ranges[i].len as int)
        } by {
            let r = rest[i - 1];
            let inner = bit_column(num_bits, r.offset as int) - text_start(num_bits, next);
            lemma_subrange_after(head, tail, inner, r.len as int);
        }
    }
}

/// In a value of whole bytes whose ranges come left to right, the line of
/// marks holds each range's mark in the columns of the range's bits.
pub proof fn lemma_header_marks_over_bits(num_bits: int, ranges: Seq<BitRangeModel>)
    requires
        num_bits > 0,
        num_bits % 8 == 0,
        ranges_in_order(ranges, num_bits),
    ensures
        forall|i: int|
            #![trigger ranges[i]]
            0 <= i < ranges.len() ==> {
                let column = bit_column(num_bits, ranges[i].offset as int);
                &&& column + ranges[i].len <= header_text(ranges, num_bits, num_bits - 1).len()
                &&& header_text(ranges, num_bits, num_bits - 1).subrange(column, column + ranges[i].len)
                    == mark_text(ranges[i].len as int)
            },
{
    assert(ranges_start_at_most(ranges, num_bits - 1)) by {
        assert forall|i: int| 0 <= i < ranges.len() implies (#[trigger] ranges[i]).offset <= num_bits - 1 by {
            assert(range_fits(ranges[i], num_bits));
        }
    }
    lemma_header_marks(ranges, num_bits, num_bits - 1);
    assert(text_start(num_bits, num_bits - 1) == 0);
}

/// In the breakdown of a value stored as bit flags, each enabled bit or range
/// is joined to its bits: the corner of its line stands in the column of its
/// first bit in the line of bits, and its mark covers the columns of its bits.
pub proof fn lemma_breakdown_joins_ranges_to_bits<V: BitflagValue>(value: &V, index: int)
    requires
        0 <= index < value.spec_bit_display_information().len(),
    ensures
        ({
            let bytes = value.spec_binary_representation();
            let num_bits = 8 * bytes.len() as int;
            let ranges = value.spec_bit_display_information();
            let range = ranges[index];
            let column = bit_column(num_bits, range.offset as int);
            let arm = range_arm_text(num_bits, ranges, index);
            let header = header_text(ranges, num_bits, num_bits - 1);
            &&& range.offset < num_bits
            &&& column < binary_text(bytes).len()
            &&& binary_text(bytes)[column] == bit_char(bytes, range.offset as int)
            &&& arm.len() == column + 2
            &&& arm[column] == '\u{2514}'
            &&& column + range.len <= header.len()
            &&& header.subrange(column, column + range.len) == mark_text(range.len as int)
        }),
{
    value.lemma_bit_display_in_order();
    let bytes = value.spec_binary_representation();
    let num_bits = 8 * bytes.len() as int;
    let ranges = value.spec_bit_display_information();
    assert(range_fits(ranges[index], num_bits));
    lemma_binary_line_columns(bytes, ranges[index].offset as int);
    lemma_range_arm_points_at_bit(num_bits, ranges, index);
    lemma_header_marks_over_bits(num_bits, ranges);
}

fn push_text(text: &mut String, piece: &str)
    ensures
        final(text)@ == old(text)@ + piece@,
{
    text.append(piece);
}

/// Writes the bits of `bytes`, most significant first, with a space between
/// bytes.
pub fn binary_line(bytes: &[u8]) -> (text: String)
    ensures
        text@ == binary_text(bytes@),
{
    proof {
        reveal_strlit("0");
        reveal_strlit("1");
        reveal_strlit(" ");
    }
    let mut text = String::new();
    let mut i: usize = 0;
    while i < bytes.len()
        invariant
            i <= bytes@.len(),
            text@ == binary_text(bytes@.take(i as int)),
        decreases bytes@.len() - i,
    {
        let ghost before = text@;
        if i > 0 {
            push_text(&mut text, " ");
        }
        let b = bytes[i];
        let mut k: u8 = 0;
        let ghost start = text@;
        while k < 8
            invariant
                k <= 8,
                text@ == start + byte_bits_text(b).take(k as int),
            decreases 8 - k,
        {
            let ghost prefix = text@;
            let ghost bit = byte_bits_text(b)[k as int];
            proof {
                reveal_strlit("0");
                reveal_strlit("1");
            }
            if (b >> (7 - k)) & 1u8 == 1u8 {
                assert(bit == '1');
                push_text(&mut text, "1");
                assert("1"@ =~= seq!['1']);
            } else {
                assert(bit == '0');
                push_text(&mut text, "0");
                assert("0"@ =~= seq!['0']);
            }
            assert(text@ =~= prefix + seq![bit]);
            assert(byte_bits_text(b).take(k + 1) =~= byte_bits_text(b).take(k as int).push(bit));
            assert(start + byte_bits_text(b).take(k + 1) =~= prefix + seq![bit]);
            k += 1;
        }
        proof {
            assert(byte_bits_text(b).take(8) =~= byte_bits_text(b));
            let t = bytes@.take(i + 1);
            assert(t.drop_last() =~= bytes@.take(i as int));
            assert(t.last() == b);
            if i == 0 {
                assert(start == before);
                assert(before =~= Seq::<char>::empty());
                assert(text@ =~= binary_text(t));
            } else {
                reveal_strlit(" ");
                assert(" "@ =~= seq![' ']);
                assert(start =~= before + seq![' ']);
                assert(binary_text(t) == binary_text(t.drop_last()) + seq![' '] + byte_bits_text(t.last()));
                assert(text@ =~= binary_text(t));
            }
        }
        i += 1;
    }
    assert(bytes@.take(bytes@.len() as int) =~= bytes@);
    text
}

fn starts_at(ranges: &[EnabledBitRange], position: u8) -> (found: bool)
    ensures
        found == range_starts(bit_range_models(ranges@)).contains(position as int),
{
    let ghost models = bit_range_models(ranges@);
    let mut i: usize = 0;
    while i < ranges.len()
        invariant
            i <= ranges@.len(),
            models == bit_range_models(ranges@),
            forall|k: int| 0 <= k < i ==> #[trigger] models[k].offset != position,
        decreases ranges@.len() - i,
    {
        assert(models[i as int] == ranges@[i as int]@);
        if ranges[i].offset == position {
            assert(models[i as int].offset as int == position as int);
            return true;
        }
        i += 1;
    }
    false
}

/// Writes the start of the line of range `index`, which its explanation
/// follows: the vertical lines of the ranges to its left and a corner.
pub fn range_arm(num_bits: u8, ranges: &[EnabledBitRange], index: usize) -> (text: String)
    requires
        index < ranges@.len(),
        ranges@[index as int].offset < num_bits,
    ensures
        text@ == range_arm_text(num_bits as int, bit_range_models(ranges@), index as int),
{
    proof {
        reveal_strlit(" ");
        reveal_strlit("\u{2502}");
        reveal_strlit("\u{2514} ");
    }
    let ghost models = bit_range_models(ranges@);
    let ghost starts = range_starts(models);
    let low = ranges[index].offset;
    assert(models[index as int] == ranges@[index as int]@);
    let mut text = String::new();
    let mut high: u8 = num_bits - 1;
    assert(text@ =~= Seq::<char>::empty());
    while high > low
        invariant
            low < num_bits,
            high < num_bits,
            low <= high,
            models == bit_range_models(ranges@),
            starts == range_starts(models),
            text@ + leader_text(high as int, low as int, starts) == leader_text(num_bits - 1, low as int, starts),
        decreases high - low,
    {
        proof {
            reveal_strlit(" ");
            reveal_strlit("\u{2502}");
        }
        let ghost before = text@;
        let found = starts_at(ranges, high);
        if found {
            push_text(&mut text, "\u{2502}");
            assert("\u{2502}"@ =~= seq!['\u{2502}']);
        } else {
            push_text(&mut text, " ");
            assert(" "@ =~= seq![' ']);
        }
        let ghost middle = text@;
        assert(middle =~= before + seq![if starts.contains(high as int) { '\u{2502}' } else { ' ' }]);
        if high % 8 == 0 {
            push_text(&mut text, " ");
            assert(" "@ =~= seq![' ']);
        }
        proof {
            let cell = seq![if starts.contains(high as int) { '\u{2502}' } else { ' ' }] + (if high % 8 == 0 {
                seq![' ']
            } else {
                seq![]
            });
            assert(text@ =~= before + cell);
            assert(leader_text(high as int, low as int, starts) == cell + leader_text(high - 1, low as int, starts));
            assert(before + (cell + leader_text(high - 1, low as int, starts)) =~= text@ + leader_text(high - 1, low as int, starts));
        }
        high = high - 1;
    }
    assert(leader_text(high as int, low as int, starts) =~= Seq::<char>::empty());
    assert(text@ + Seq::<char>::empty() =~= text@);
    push_text(&mut text, "\u{2514} ");
    text
}

fn push_gap(text: &mut String, offset: u8, current: u8, num_bits: u8)
    ensures
        final(text)@ == old(text)@ + gap_text(offset as int, current as int, num_bits as int),
{
    let ghost start = old(text)@;
    let end: u16 = current as u16 + 1;
    let mut i: u16 = offset as u16;
    if end < i {
        i = end;
    }
    assert(gap_text(offset as int, i - 1, num_bits as int) =~= Seq::<char>::empty());
    while i < end
        invariant
            end == current as u16 + 1,
            i <= end,
            i >= offset || i == end,
            text@ == start + gap_text(offset as int, i - 1, num_bits as int),
        decreases end - i,
    {
        proof {
            reveal_strlit(" ");
        }
        let ghost before = text@;
        if (i + 1) % 8 == 0 && i + 1 < num_bits as u16 {
            push_text(text, " ");
        }
        if i != offset as u16 {
            push_text(text, " ");
        }
        assert(text@ =~= start + gap_text(offset as int, i as int, num_bits as int));
        i += 1;
    }
}

fn push_mark(text: &mut String, len: u8)
    ensures
        final(text)@ == old(text)@ + mark_text(len as int),
{
    proof {
        reveal_strlit("\u{251c}");
        reveal_strlit("\u{2518}");
        reveal_strlit("\u{2502}");
    }
    let ghost start = old(text)@;
    if len > 1 {
        push_text(text, "\u{251c}");
        let mut k: u8 = 0;
        while k < len - 2
            invariant
                len > 1,
                k <= len - 2,
                text@ == start + seq!['\u{251c}'] + Seq::new(k as nat, |i: int| '\u{2500}'),
            decreases len - 2 - k,
        {
            proof {
                reveal_strlit("\u{2500}");
            }
            push_text(text, "\u{2500}");
            assert(Seq::new((k + 1) as nat, |i: int| '\u{2500}') =~= Seq::new(k as nat, |i: int| '\u{2500}').push('\u{2500}'));
            assert(text@ =~= start + seq!['\u{251c}'] + Seq::new((k + 1) as nat, |i: int| '\u{2500}'));
            k += 1;
        }
        push_text(text, "\u{2518}");
        assert(text@ =~= start + mark_text(len as int));
    } else {
        push_text(text, "\u{2502}");
        assert(text@ =~= start + mark_text(len as int));
    }
}

/// Writes the line of marks over the ranges, left to right: a bracket over
/// each multi-bit range and a vertical line over each single bit.
pub fn header_line(num_bits: u8, ranges: &[EnabledBitRange]) -> (text: String)
    requires
        num_bits > 0,
    ensures
        text@ == header_text(bit_range_models(ranges@), num_bits as int, num_bits - 1),
{
    let ghost models = bit_range_models(ranges@);
    let mut text = String::new();
    let mut current: u8 = num_bits - 1;
    let mut i: usize = 0;
    assert(text@ =~= Seq::<char>::empty());
    assert(models.skip(0) =~= models);
    while i < ranges.len()
        invariant
            i <= ranges@.len(),
            models == bit_range_models(ranges@),
            text@ + header_text(models.skip(i as int), num_bits as int, current as int)
                == header_text(models, num_bits as int, num_bits - 1),
        decreases ranges@.len() - i,
    {
        let ghost before = text@;
        let ghost rest = models.skip(i as int);
        let ghost old_current = current;
        let range = &ranges[i];
        assert(rest[0] == range@);
        assert(rest.drop_first() =~= models.skip(i + 1));
        push_gap(&mut text, range.offset, current, num_bits);
        push_mark(&mut text, range.len);
        current = if range.offset > range.len {
            range.offset - range.len
        } else {
            0
        };
        assert(header_text(rest, num_bits as int, old_current as int) == gap_text(range.offset as int, old_current as int, num_bits as int) + mark_text(range.len as int) + header_text(rest.drop_first(), num_bits as int, current as int));
        assert(text@ + header_text(models.skip(i + 1), num_bits as int, current as int) =~= before + header_text(rest, num_bits as int, old_current as int));
        i += 1;
    }
    assert(models.skip(ranges@.len() as int) =~= Seq::<BitRangeModel>::empty());
    assert(text@ + Seq::<char>::empty() =~= text@);
    text
}

/// Whether some range is more than one bit wide, so that the ranges need a
/// line of marks over them.
pub fn needs_header(ranges: &[EnabledBitRange]) -> (needed: bool)
    ensures
        needed == has_multi_bit_range(bit_range_models(ranges@)),
{
    let ghost models = bit_range_models(ranges@);
    let mut i: usize = 0;
    while i < ranges.len()
        invariant
            i <= ranges@.len(),
            models == bit_range_models(ranges@),
            forall|k: int| 0 <= k < i ==> #[trigger] models[k].len <= 1,
        decreases ranges@.len() - i,
    {
        assert(models[i as int] == ranges@[i as int]@);
        if ranges[i].len > 1 {
            return true;
        }
        i += 1;
    }
    false
}

} // verus!
