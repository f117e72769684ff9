//! Ordering processed tags by their identifiers.
use vstd::prelude::*;

use super::process_emv_tag::{ProcessedEmvBlock, ProcessedEmvNode, ProcessedEmvTag};

verus! {

broadcast use vstd::seq_lib::group_to_multiset_ensures;

/// Whether tag identifier `a` comes no later than `b`: byte by byte, and a
/// prefix first.
pub open spec fn tag_le(a: Seq<u8>, b: Seq<u8>) -> bool
    decreases a.len(),
{
    if a.len() == 0 {
        true
    } else if b.len() == 0 {
        false
    } else if a[0] != b[0] {
        a[0] < b[0]
    } else {
        tag_le(a.drop_first(), b.drop_first())
    }
}

/// Any two identifiers are ordered one way or the other.
pub proof fn lemma_tag_le_total(a: Seq<u8>, b: Seq<u8>)
    ensures
        tag_le(a, b) || tag_le(b, a),
    decreases a.len(),
{
    if a.len() > 0 && b.len() > 0 && a[0] == b[0] {
        lemma_tag_le_total(a.drop_first(), b.drop_first());
    }
}

/// Every identifier comes no later than itself.
pub proof fn lemma_tag_le_reflexive(a: Seq<u8>)
    ensures
        tag_le(a, a),
    decreases a.len(),
{
    if a.len() > 0 {
        lemma_tag_le_reflexive(a.drop_first());
    }
}

/// The order is transitive.
pub proof fn lemma_tag_le_transitive(a: Seq<u8>, b: Seq<u8>, c: Seq<u8>)
    requires
        tag_le(a, b),
        tag_le(b, c),
    ensures
        tag_le(a, c),
    decreases a.len(),
{
    if a.len() > 0 && b.len() > 0 && c.len() > 0 && a[0] == b[0] && b[0] == c[0] {
        lemma_tag_le_transitive(a.drop_first(), b.drop_first(), c.drop_first());
    }
}

/// The identifier of the tag of a processed node.
pub open spec fn node_tag(node: ProcessedEmvNode) -> Seq<u8> {
    match node.tag {
        ProcessedEmvTag::Raw { raw_tag } => raw_tag.tag@,
        ProcessedEmvTag::Annotated { raw_tag, .. } => raw_tag.tag@,
        ProcessedEmvTag::Parsed { raw_tag, .. } => raw_tag.tag@,
    }
}

/// Whether nodes are in order of their tag identifiers.
pub open spec fn sorted_by_tag(nodes: Seq<ProcessedEmvNode>) -> bool {
    forall|i: int, j: int| 0 <= i < j < nodes.len() ==> tag_le(node_tag(nodes[i]), node_tag(nodes[j]))
}

/// Whether `sorted` holds the nodes of `original` arranged by `arrangement`,
/// which gives the place in `original` of each node of `sorted`, nodes with
/// the same tag identifier keeping their order.
pub open spec fn stable_arrangement(
    sorted: Seq<ProcessedEmvNode>,
    original: Seq<ProcessedEmvNode>,
    arrangement: Seq<int>,
) -> bool {
    &&& arrangement.len() == sorted.len() == original.len()
    &&& forall|k: int| 0 <= k < sorted.len() ==> 0 <= #[trigger] arrangement[k] < original.len()
    &&& forall|k: int, l: int|
        #![trigger arrangement[k], arrangement[l]]
        0 <= k < l < sorted.len() ==> arrangement[k] != arrangement[l]
    &&& forall|k: int| 0 <= k < sorted.len() ==> #[trigger] sorted[k] == original[arrangement[k]]
    &&& forall|k: int, l: int|
        #![trigger sorted[k], sorted[l]]
        0 <= k < l < sorted.len() && node_tag(sorted[k]) == node_tag(sorted[l]) ==> arrangement[k]
            < arrangement[l]
}

fn node_tag_bytes(node: &ProcessedEmvNode) -> (tag: &[u8])
    ensures
        tag@ == node_tag(*node),
{
    match &node.tag {
        ProcessedEmvTag::Raw { raw_tag } => raw_tag.tag.as_slice(),
        ProcessedEmvTag::Annotated { raw_tag, .. } => raw_tag.tag.as_slice(),
        ProcessedEmvTag::Parsed { raw_tag, .. } => raw_tag.tag.as_slice(),
    }
}

/// Compares two tag identifiers.
pub fn tag_le_exec(a: &[u8], b: &[u8]) -> (le: bool)
    ensures
        le == tag_le(a@, b@),
{
    let mut i: usize = 0;
    assert(a@.skip(0) =~= a@);
    assert(b@.skip(0) =~= b@);
    while i < a.len() && i < b.len() && a[i] == b[i]
        invariant
            i <= a@.len(),
            i <= b@.len(),
            forall|k: int| 0 <= k < i ==> a@[k] == b@[k],
            tag_le(a@, b@) == tag_le(a@.skip(i as int), b@.skip(i as int)),
        decreases a@.len() - i,
    {
        proof {
            assert(a@.skip(i as int).drop_first() =~= a@.skip(i + 1));
            assert(b@.skip(i as int).drop_first() =~= b@.skip(i + 1));
        }
        i += 1;
    }
    if i == a.len() {
        true
    } else if i == b.len() {
        false
    } else {
        a[i] < b[i]
    }
}

/// Puts the nodes of a block in order of their tag identifiers; the nodes
/// themselves are unchanged, and nodes with the same tag identifier keep their
/// order.
pub fn sort_by_tag(block: ProcessedEmvBlock) -> (sorted: ProcessedEmvBlock)
    ensures
        sorted.nodes@.to_multiset() == block.nodes@.to_multiset(),
        sorted_by_tag(sorted.nodes@),
        exists|arrangement: Seq<int>| stable_arrangement(sorted.nodes@, block.nodes@, arrangement),
{
    let ghost original = block.nodes@;
    let mut remaining = block.nodes;
    let mut result: Vec<ProcessedEmvNode> = Vec::new();
    let ghost mut i: int = 0;
    let ghost mut arrangement: Seq<int> = Seq::empty();
    assert(original.take(0) =~= Seq::<ProcessedEmvNode>::empty());
    while remaining.len() > 0
        invariant
            0 <= i <= original.len(),
            remaining@ == original.skip(i),
            result@.to_multiset() == original.take(i).to_multiset(),
            sorted_by_tag(result@),
            stable_arrangement(result@, original.take(i), arrangement),
        decreases remaining@.len(),
    {
        let node = remaining.remove(0);
        assert(node == original[i]);
        let mut p: usize = 0;
        while p < result.len() && tag_le_exec(node_tag_bytes(&result[p]), node_tag_bytes(&node))
            invariant
                p <= result@.len(),
                forall|k: int| 0 <= k < p ==> tag_le(node_tag(result@[k]), node_tag(node)),
            decreases result@.len() - p,
        {
            p += 1;
        }
        let ghost before = result@;
        proof {
            if p < before.len() {
                lemma_tag_le_total(node_tag(before[p as int]), node_tag(node));
            }
            assert forall|a: int, b: int| 0 <= a < b < before.insert(p as int, node).len() implies tag_le(
                node_tag(before.insert(p as int, node)[a]),
                node_tag(before.insert(p as int, node)[b]),
            ) by {
                let s = before.insert(p as int, node);
                if a < p && b == p {
                } else if a < p && b > p {
                    assert(s[b] == before[b - 1]);
                } else if a == p && b > p {
                    assert(s[b] == before[b - 1]);
                    if b - 1 == p {
                        lemma_tag_le_reflexive(node_tag(before[p as int]));
                    }
                    lemma_tag_le_transitive(node_tag(node), node_tag(before[p as int]), node_tag(before[b - 1]));
                } else if a > p {
                    assert(s[a] == before[a - 1]);
                    assert(s[b] == before[b - 1]);
                }
            }
        }
        proof {
            let s = before.insert(p as int, node);
            let next = arrangement.insert(p as int, i);
            assert forall|q: int| p <= q < before.len() implies node_tag(#[trigger] before[q]) != node_tag(node) by {
                if node_tag(before[q]) == node_tag(node) {
                    lemma_tag_le_reflexive(node_tag(node));
                    if q > p {
                        lemma_tag_le_transitive(node_tag(before[p as int]), node_tag(before[q]), node_tag(node));
                    }
                }
            }
            let taken = original.take(i + 1);
            assert forall|k: int| 0 <= k < s.len() implies #[trigger] s[k] == taken[next[k]] by {
                if k < p {
                    assert(before[k] == original.take(i)[arrangement[k]]);
                } else if k > p {
                    assert(before[k - 1] == original.take(i)[arrangement[k - 1]]);
                }
            }
            assert forall|k: int, l: int|
                #![trigger s[k], s[l]]
                0 <= k < l < s.len() && node_tag(s[k]) == node_tag(s[l]) implies next[k] < next[l] by {
                if l < p {
                } else if l == p {
                    assert(0 <= arrangement[k] < i);
                } else if k < p {
                    assert(s[l] == before[l - 1]);
                    assert(s[k] == before[k]);
                } else if k == p {
                    assert(s[l] == before[l - 1]);
                } else {
                    assert(s[l] == before[l - 1]);
                    assert(s[k] == before[k - 1]);
                }
            }
            assert forall|k: int, l: int|
                #![trigger next[k], next[l]]
                0 <= k < l < s.len() implies next[k] != next[l] by {
                if k < p && l > p {
                    assert(arrangement[k] != arrangement[l - 1]);
                } else if k > p {
                    assert(arrangement[k - 1] != arrangement[l - 1]);
                } else if k == p && l > p {
                    assert(0 <= arrangement[l - 1] < i);
                } else if l == p {
                    assert(0 <= arrangement[k] < i);
                }
            }
            assert(stable_arrangement(s, taken, next));
            arrangement = next;
        }
        result.insert(p, node);
        proof {
            assert(original.take(i + 1) =~= original.take(i).push(original[i]));
            i = i + 1;
            assert(remaining@ =~= original.skip(i));
        }
    }
    assert(original.take(i) =~= original);
    ProcessedEmvBlock { nodes: result }
}

} // verus!
