//! The graph store: `petgraph`'s `StableGraph`, with what this library relies
//! on stated as contracts. The contracts of the functions marked
//! `external_body` are not proved: each is read off `petgraph`'s source, and
//! everything the graph adapter proves rests on them.

use crate::graph::{EdgeHandle, NodeHandle};
use crate::instance::NodeInstance;
use petgraph::stable_graph::{EdgeIndex, NodeIndex, StableGraph};
use vstd::prelude::*;

verus! {

/// `petgraph::stable_graph::StableGraph`, seen only through the two
/// functions `node_slots` and `edge_slots` below.
#[verifier::external_type_specification]
#[verifier::external_body]
#[verifier::reject_recursive_types(N)]
#[verifier::reject_recursive_types(E)]
#[verifier::reject_recursive_types(Ty)]
#[verifier::reject_recursive_types(Ix)]
pub struct ExStableGraph<N, E, Ty, Ix>(StableGraph<N, E, Ty, Ix>);

/// `petgraph::Directed`, the marker of a graph whose edges have a direction.
#[verifier::external_type_specification]
#[verifier::external_body]
pub struct ExDirected(petgraph::Directed);

/// The node slots of a `StableGraph`, by index: `Some` of the node's weight
/// where the index is in use, `None` where a removal left it vacant.
pub uninterp spec fn node_slots(g: StableGraph<NodeInstance, String>) -> Seq<Option<NodeInstance>>;

/// The edge slots of a `StableGraph`, by index: `Some` of the edge's source,
/// target and weight where the index is in use, `None` where it is vacant.
pub uninterp spec fn edge_slots(g: StableGraph<NodeInstance, String>) -> Seq<
    Option<(NodeHandle, NodeHandle, String)>,
>;

/// The indices of the slots in use, ascending.
pub open spec fn occupied<T>(slots: Seq<Option<T>>) -> Seq<int>
    decreases slots.len(),
{
    if slots.len() == 0 {
        Seq::empty()
    } else if slots.last().is_some() {
        occupied(slots.drop_last()).push(slots.len() - 1)
    } else {
        occupied(slots.drop_last())
    }
}

/// No slot is vacant.
pub open spec fn full<T>(slots: Seq<Option<T>>) -> bool {
    forall|i: int| 0 <= i < slots.len() ==> (#[trigger] slots[i]).is_some()
}

/// `StableGraph::new`: a graph with no node and no edge slot.
#[verifier::external_body]
pub(crate) fn graph_new() -> (g: StableGraph<NodeInstance, String>)
    ensures
        node_slots(g) == Seq::<Option<NodeInstance>>::empty(),
        edge_slots(g) == Seq::<Option<(NodeHandle, NodeHandle, String)>>::empty(),
{
    StableGraph::new()
}

/// `StableGraph::node_count`: the number of node slots in use.
#[verifier::external_body]
pub(crate) fn graph_node_count(g: &StableGraph<NodeInstance, String>) -> (n: usize)
    ensures
        n == occupied(node_slots(*g)).len(),
{
    g.node_count()
}

/// `StableGraph::edge_count`: the number of edge slots in use.
#[verifier::external_body]
pub(crate) fn graph_edge_count(g: &StableGraph<NodeInstance, String>) -> (n: usize)
    ensures
        n == occupied(edge_slots(*g)).len(),
{
    g.edge_count()
}

/// `StableGraph::add_node`, for a graph without a vacant node slot and with
/// room for one more: the node takes a new slot after all others, and its
/// index is returned. Edges are untouched.
#[verifier::external_body]
pub(crate) fn graph_add_node(g: &mut StableGraph<NodeInstance, String>, weight: NodeInstance) -> (h:
    NodeHandle)
    requires
        full(node_slots(*old(g))),
        node_slots(*old(g)).len() < u32::MAX,
    ensures
        h.index == node_slots(*old(g)).len(),
        node_slots(*final(g)) == node_slots(*old(g)).push(Some(weight)),
        edge_slots(*final(g)) == edge_slots(*old(g)),
{
    NodeHandle { index: g.add_node(weight).index() as u32 }
}

/// `StableGraph::add_edge`, between two nodes that are in the graph, for a
/// graph without a vacant edge slot and with room for one more: the edge
/// takes a new slot after all others, and its index is returned. Nodes are
/// untouched.
#[verifier::external_body]
pub(crate) fn graph_add_edge(
    g: &mut StableGraph<NodeInstance, String>,
    source: NodeHandle,
    target: NodeHandle,
    weight: String,
) -> (h: EdgeHandle)
    requires
        source.index < node_slots(*old(g)).len(),
        node_slots(*old(g))[source.index as int].is_some(),
        target.index < node_slots(*old(g)).len(),
        node_slots(*old(g))[target.index as int].is_some(),
        full(edge_slots(*old(g))),
        edge_slots(*old(g)).len() < u32::MAX,
    ensures
        h.index == edge_slots(*old(g)).len(),
        edge_slots(*final(g)) == edge_slots(*old(g)).push(Some((source, target, weight))),
        node_slots(*final(g)) == node_slots(*old(g)),
{
    let a = NodeIndex::new(source.index as usize);
    let b = NodeIndex::new(target.index as usize);
    EdgeHandle { index: g.add_edge(a, b, weight).index() as u32 }
}

/// `StableGraph::find_edge` on a directed graph: some edge in use that leads
/// from `source` to `target`, or `None` if there is none.
#[verifier::external_body]
pub(crate) fn graph_find_edge(
    g: &StableGraph<NodeInstance, String>,
    source: NodeHandle,
    target: NodeHandle,
) -> (r: Option<EdgeHandle>)
    ensures
        match r {
            Some(e) => {
                &&& e.index < edge_slots(*g).len()
                &&& edge_slots(*g)[e.index as int].is_some()
                &&& edge_slots(*g)[e.index as int].unwrap().0 == source
                &&& edge_slots(*g)[e.index as int].unwrap().1 == target
            },
            None => forall|i: int|
                0 <= i < edge_slots(*g).len() && (#[trigger] edge_slots(*g)[i]).is_some() ==> !(
                edge_slots(*g)[i].unwrap().0 == source && edge_slots(*g)[i].unwrap().1 == target),
        },
{
    let a = NodeIndex::new(source.index as usize);
    let b = NodeIndex::new(target.index as usize);
    g.find_edge(a, b).map(|e| EdgeHandle { index: e.index() as u32 })
}

/// `StableGraph::node_weight`: the weight in the node slot `h`, or `None`
/// where there is no such slot or it is vacant.
#[verifier::external_body]
pub(crate) fn graph_node_weight(g: &StableGraph<NodeInstance, String>, h: NodeHandle) -> (r: Option<
    &NodeInstance,
>)
    ensures
        match r {
            Some(w) => h.index < node_slots(*g).len() && node_slots(*g)[h.index as int] == Some(*w),
            None => h.index >= node_slots(*g).len() || node_slots(*g)[h.index as int].is_none(),
        },
{
    g.node_weight(NodeIndex::new(h.index as usize))
}

/// `StableGraph::edge_weight`: the weight in the edge slot `h`, or `None`
/// where there is no such slot or it is vacant.
#[verifier::external_body]
pub(crate) fn graph_edge_weight(g: &StableGraph<NodeInstance, String>, h: EdgeHandle) -> (r: Option<
    &String,
>)
    ensures
        match r {
            Some(w) => h.index < edge_slots(*g).len() && edge_slots(*g)[h.index as int].is_some()
                && edge_slots(*g)[h.index as int].unwrap().2 == *w,
            None => h.index >= edge_slots(*g).len() || edge_slots(*g)[h.index as int].is_none(),
        },
{
    g.edge_weight(EdgeIndex::new(h.index as usize))
}

/// `StableGraph::edge_endpoints`: the source and the target in the edge slot
/// `h`, or `None` where there is no such slot or it is vacant.
#[verifier::external_body]
pub(crate) fn graph_edge_endpoints(g: &StableGraph<NodeInstance, String>, h: EdgeHandle) -> (r:
    Option<(NodeHandle, NodeHandle)>)
    ensures
        match r {
            Some(ends) => h.index < edge_slots(*g).len() && edge_slots(*g)[h.index as int].is_some()
                && edge_slots(*g)[h.index as int].unwrap().0 == ends.0 && edge_slots(
                *g,
            )[h.index as int].unwrap().1 == ends.1,
            None => h.index >= edge_slots(*g).len() || edge_slots(*g)[h.index as int].is_none(),
        },
{
    let ends = g.edge_endpoints(EdgeIndex::new(h.index as usize));
    ends.map(|(a, b)| (NodeHandle { index: a.index() as u32 }, NodeHandle { index: b.index() as u32 }))
}

/// `StableGraph::node_indices`, collected: the indices of the node slots in
/// use, ascending.
#[verifier::external_body]
pub(crate) fn graph_node_indices(g: &StableGraph<NodeInstance, String>) -> (r: Vec<NodeHandle>)
    ensures
        r@.len() == occupied(node_slots(*g)).len(),
        forall|k: int| 0 <= k < r@.len() ==> (#[trigger] r@[k]).index == occupied(node_slots(*g))[k],
{
    g.node_indices().map(|i| NodeHandle { index: i.index() as u32 }).collect()
}

/// `StableGraph::edge_indices`, collected: the indices of the edge slots in
/// use, ascending.
#[verifier::external_body]
pub(crate) fn graph_edge_indices(g: &StableGraph<NodeInstance, String>) -> (r: Vec<EdgeHandle>)
    ensures
        r@.len() == occupied(edge_slots(*g)).len(),
        forall|k: int| 0 <= k < r@.len() ==> (#[trigger] r@[k]).index == occupied(edge_slots(*g))[k],
{
    g.edge_indices().map(|i| EdgeHandle { index: i.index() as u32 }).collect()
}

/// Where no slot is vacant, the slots in use are all of them, in order.
pub proof fn lemma_occupied_full<T>(slots: Seq<Option<T>>)
    requires
        full(slots),
    ensures
        occupied(slots).len() == slots.len(),
        forall|i: int| 0 <= i < slots.len() ==> #[trigger] occupied(slots)[i] == i,
    decreases slots.len(),
{
    if slots.len() > 0 {
        lemma_occupied_full(slots.drop_last());
    }
}

} // verus!
