//! How a breadcrumb's retained child nodes follow its items: one segment
//! node per item, one separator node between neighbours, extra nodes parked
//! and the children ordered segment, separator, segment, ...
use vstd::prelude::*;

use crate::ids::StableNodeId;
use crate::types::BreadcrumbEvent;

verus! {

/// Separators between `items` segments.
pub open spec fn wanted_separators(items: nat) -> nat {
    if items > 0 {
        (items - 1) as nat
    } else {
        0
    }
}

pub open spec fn min_nat(a: nat, b: nat) -> nat {
    if a <= b {
        a
    } else {
        b
    }
}

/// Trims the segment and separator nodes to what `items` breadcrumb items
/// need and returns the nodes that no longer have a place: the surplus
/// segments, then the surplus separators.
pub fn trim_breadcrumb_nodes(
    segments: &mut Vec<StableNodeId>,
    separators: &mut Vec<StableNodeId>,
    items: usize,
) -> (removed: Vec<StableNodeId>)
    ensures
        final(segments)@ == old(segments)@.take(min_nat(old(segments)@.len(), items as nat) as int),
        final(separators)@ == old(separators)@.take(
            min_nat(old(separators)@.len(), wanted_separators(items as nat)) as int,
        ),
        removed@ == old(segments)@.skip(min_nat(old(segments)@.len(), items as nat) as int)
            + old(separators)@.skip(
            min_nat(old(separators)@.len(), wanted_separators(items as nat)) as int,
        ),
{
    let wanted = if items > 0 {
        items - 1
    } else {
        0
    };
    let mut removed: Vec<StableNodeId> = Vec::new();
    let ghost old_segments = segments@;
    let ghost old_separators = separators@;
    if segments.len() > items {
        let mut tail = segments.split_off(items);
        removed.append(&mut tail);
    }
    assert(removed@ =~= old_segments.skip(min_nat(old_segments.len(), items as nat) as int));
    if separators.len() > wanted {
        let mut tail = separators.split_off(wanted);
        removed.append(&mut tail);
    }
    assert(segments@ =~= old_segments.take(min_nat(old_segments.len(), items as nat) as int));
    assert(separators@ =~= old_separators.take(
        min_nat(old_separators.len(), wanted_separators(items as nat)) as int,
    ));
    assert(removed@ =~= old_segments.skip(min_nat(old_segments.len(), items as nat) as int)
        + old_separators.skip(min_nat(old_separators.len(), wanted_separators(items as nat)) as int));
    removed
}

/// Children in display order: each segment, followed by the separator of
/// the same index when there is one.
pub open spec fn breadcrumb_order(segments: Seq<StableNodeId>, separators: Seq<StableNodeId>) -> Seq<
    StableNodeId,
>
    decreases segments.len(),
{
    if segments.len() == 0 {
        Seq::empty()
    } else {
        let n = segments.len() - 1;
        let before = breadcrumb_order(segments.drop_last(), separators);
        if n < separators.len() {
            before.push(segments[n]).push(separators[n])
        } else {
            before.push(segments[n])
        }
    }
}

/// The breadcrumb's children in display order.
pub fn breadcrumb_children(segments: &[StableNodeId], separators: &[StableNodeId]) -> (children: Vec<
    StableNodeId,
>)
    ensures
        children@ == breadcrumb_order(segments@, separators@),
{
    let mut children: Vec<StableNodeId> = Vec::new();
    let mut i: usize = 0;
    while i < segments.len()
        invariant
            i <= segments@.len(),
            children@ == breadcrumb_order(segments@.take(i as int), separators@),
        decreases segments.len() - i,
    {
        assert(segments@.take(i + 1).drop_last() =~= segments@.take(i as int));
        assert(segments@.take(i + 1)[i as int] == segments@[i as int]);
        children.push(segments[i]);
        if i < separators.len() {
            children.push(separators[i]);
        }
        i = i + 1;
    }
    assert(segments@.take(segments@.len() as int) =~= segments@);
    children
}

/// With one segment per item and a separator between neighbours, the
/// children alternate: segment `k` sits at position `2k` and separator `k`
/// right after it.
pub proof fn breadcrumb_children_alternate(
    segments: Seq<StableNodeId>,
    separators: Seq<StableNodeId>,
    k: int,
)
    requires
        segments.len() > 0,
        separators.len() == segments.len() - 1,
        0 <= k < segments.len(),
    ensures
        breadcrumb_order(segments, separators).len() == 2 * segments.len() - 1,
        breadcrumb_order(segments, separators)[2 * k] == segments[k],
        k < separators.len() ==> breadcrumb_order(segments, separators)[2 * k + 1] == separators[k],
    decreases segments.len(),
{
    lemma_order_prefix(segments, separators, segments.len() as int);
    assert(segments.take(segments.len() as int) =~= segments);
    lemma_order_index(segments, separators, k);
}

proof fn lemma_order_prefix(segments: Seq<StableNodeId>, separators: Seq<StableNodeId>, n: int)
    requires
        0 <= n <= segments.len(),
        separators.len() + 1 >= segments.len(),
    ensures
        breadcrumb_order(segments.take(n), separators).len() == (if n <= separators.len() {
            2 * n
        } else {
            2 * n - 1
        }),
    decreases n,
{
    if n > 0 {
        assert(segments.take(n).drop_last() =~= segments.take(n - 1));
        lemma_order_prefix(segments, separators, n - 1);
    }
    assert(segments.take(segments.len() as int) =~= segments);
}

proof fn lemma_order_index(segments: Seq<StableNodeId>, separators: Seq<StableNodeId>, k: int)
    requires
        separators.len() + 1 >= segments.len(),
        0 <= k < segments.len(),
    ensures
        breadcrumb_order(segments, separators)[2 * k] == segments[k],
        k < separators.len() ==> breadcrumb_order(segments, separators)[2 * k + 1] == separators[k],
    decreases segments.len(),
{
    let n = segments.len() - 1;
    let before = breadcrumb_order(segments.drop_last(), separators);
    assert(segments.drop_last() =~= segments.take(n));
    lemma_order_prefix(segments, separators, n);
    if k < n {
        lemma_order_index(segments.drop_last(), separators, k);
    }
}

/// Activating a segment reports its index when it is interactive.
pub fn activation_event(interactive: bool, index: usize) -> (event: Option<BreadcrumbEvent>)
    ensures
        event == (if interactive {
            Some(BreadcrumbEvent { index })
        } else {
            None
        }),
{
    if interactive {
        Some(BreadcrumbEvent { index })
    } else {
        None
    }
}

} // verus!
