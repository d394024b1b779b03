//! A directed, labeled multigraph over instances, with insertions that
//! deduplicate: nodes by display name, edges by their ordered pair of ends.

use crate::instance::{Edge, NodeInstance};
use crate::store::{
    edge_slots, full, graph_add_edge, graph_add_node, graph_edge_count, graph_edge_endpoints,
    graph_edge_indices, graph_edge_weight, graph_find_edge, graph_new, graph_node_count,
    graph_node_indices, graph_node_weight, lemma_occupied_full, node_slots,
};
use crate::text::same_text;
use petgraph::stable_graph::StableGraph;
use vstd::prelude::*;

verus! {

/// A stable reference to a node of a graph: the position at which the node
/// was inserted.
#[derive(Clone, Copy, Debug, PartialEq, Eq, Hash, Structural)]
pub struct NodeHandle {
    pub index: u32,
}

/// A stable reference to an edge of a graph: the position at which the edge
/// was inserted.
#[derive(Clone, Copy, Debug, PartialEq, Eq, Hash, Structural)]
pub struct EdgeHandle {
    pub index: u32,
}

/// An edge as the graph holds it: its two ends and its label.
pub struct LinkView {
    pub source: NodeHandle,
    pub target: NodeHandle,
    pub label: Seq<char>,
}

/// Does `node` carry the display name `name`?
pub open spec fn named(node: NodeInstance, name: Seq<char>) -> bool {
    node@.name() == Some(name)
}

/// Every node carries a display name.
pub open spec fn all_named(nodes: Seq<NodeInstance>) -> bool {
    forall|i: int| 0 <= i < nodes.len() ==> (#[trigger] nodes[i])@.name().is_some()
}

/// Node `i` carries the display name `name`, and no node before it does.
pub open spec fn first_named_at(nodes: Seq<NodeInstance>, name: Seq<char>, i: int) -> bool {
    &&& 0 <= i < nodes.len()
    &&& named(nodes[i], name)
    &&& forall|j: int| 0 <= j < i ==> !named(#[trigger] nodes[j], name)
}

/// The position of the first node that carries the display name `name`.
pub open spec fn first_named(nodes: Seq<NodeInstance>, name: Seq<char>) -> Option<int> {
    if exists|i: int| first_named_at(nodes, name, i) {
        Some(choose|i: int| first_named_at(nodes, name, i))
    } else {
        None
    }
}

/// Edge `e` leads from `source` to `target`.
pub open spec fn joins(links: Seq<LinkView>, e: int, source: NodeHandle, target: NodeHandle) -> bool {
    &&& 0 <= e < links.len()
    &&& links[e].source == source
    &&& links[e].target == target
}

/// Some edge leads from `source` to `target`, whatever its label.
pub open spec fn connected(links: Seq<LinkView>, source: NodeHandle, target: NodeHandle) -> bool {
    exists|e: int| joins(links, e, source, target)
}

/// What a deduplicating insertion of `node` does to the nodes `before`, and
/// the handle it gives: where a node of that display name is there already,
/// nothing changes and the first such node is returned; otherwise `node` goes
/// last and is returned.
pub open spec fn node_dedup_step(
    before: Seq<NodeInstance>,
    node: NodeInstance,
    after: Seq<NodeInstance>,
    h: NodeHandle,
) -> bool {
    match first_named(before, node@.name().unwrap()) {
        Some(i) => after == before && h.index == i,
        None => after == before.push(node) && h.index == before.len(),
    }
}

/// What a deduplicating insertion of an edge does to the edges `before`, and
/// the handle it gives: where some edge leads from `source` to `target`
/// already, nothing changes, the label asked for is dropped, and such an edge
/// is returned; otherwise the new edge goes last and is returned.
pub open spec fn edge_dedup_step(
    before: Seq<LinkView>,
    source: NodeHandle,
    target: NodeHandle,
    label: Seq<char>,
    after: Seq<LinkView>,
    h: EdgeHandle,
) -> bool {
    if connected(before, source, target) {
        after == before && joins(before, h.index as int, source, target)
    } else {
        after == before.push(LinkView { source, target, label }) && h.index == before.len()
    }
}

/// If node `i` is the first of its name, `first_named` finds it.
pub proof fn lemma_first_named(nodes: Seq<NodeInstance>, name: Seq<char>, i: int)
    requires
        first_named_at(nodes, name, i),
    ensures
        first_named(nodes, name) == Some(i),
{
    let k = choose|k: int| first_named_at(nodes, name, k);
    assert(k == i);
}

/// If some node carries the name, there is a first one, at or before it.
pub proof fn lemma_named_has_first(nodes: Seq<NodeInstance>, name: Seq<char>, k: int)
    requires
        0 <= k < nodes.len(),
        named(nodes[k], name),
    ensures
        first_named(nodes, name).is_some(),
        first_named(nodes, name).unwrap() <= k,
        first_named_at(nodes, name, first_named(nodes, name).unwrap()),
    decreases k,
{
    if exists|j: int| 0 <= j < k && named(#[trigger] nodes[j], name) {
        let j = choose|j: int| 0 <= j < k && named(#[trigger] nodes[j], name);
        lemma_named_has_first(nodes, name, j);
    } else {
        lemma_first_named(nodes, name, k);
    }
}

/// Node deduplication is idempotent by display name. Of two deduplicating
/// insertions of nodes that share a display name, the second changes nothing
/// and returns the handle that the first returned. If no node carried the
/// name before, exactly one carries it afterwards: the first of the two.
pub proof fn law_node_dedup_idempotent(
    before: Seq<NodeInstance>,
    first: NodeInstance,
    between: Seq<NodeInstance>,
    h1: NodeHandle,
    second: NodeInstance,
    after: Seq<NodeInstance>,
    h2: NodeHandle,
)
    requires
        first@.name().is_some(),
        second@.name() == first@.name(),
        node_dedup_step(before, first, between, h1),
        node_dedup_step(between, second, after, h2),
    ensures
        after == between,
        h2 == h1,
        first_named(before, first@.name().unwrap()).is_none() ==> {
            &&& after == before.push(first)
            &&& forall|i: int|
                0 <= i < after.len() ==> (named(#[trigger] after[i], first@.name().unwrap()) <==> i
                    == h1.index)
        },
{
    let name = first@.name().unwrap();
    match first_named(before, name) {
        Some(i) => {},
        None => {
            let n = before.len() as int;
            assert forall|j: int| 0 <= j < n implies !named(#[trigger] between[j], name) by {
                if named(before[j], name) {
                    lemma_named_has_first(before, name, j);
                }
            }
            lemma_first_named(between, name, n);
        },
    }
}

/// Edge deduplication goes by the ordered pair of ends alone. Of two
/// deduplicating insertions between the same two nodes, the second changes
/// nothing, whatever its label. If no edge joined the two before, exactly one
/// joins them afterwards; it carries the label of the first insertion, and
/// both insertions return its handle.
pub proof fn law_edge_dedup_collapses(
    before: Seq<LinkView>,
    source: NodeHandle,
    target: NodeHandle,
    label1: Seq<char>,
    between: Seq<LinkView>,
    h1: EdgeHandle,
    label2: Seq<char>,
    after: Seq<LinkView>,
    h2: EdgeHandle,
)
    requires
        edge_dedup_step(before, source, target, label1, between, h1),
        edge_dedup_step(between, source, target, label2, after, h2),
    ensures
        after == between,
        !connected(before, source, target) ==> {
            &&& after == before.push(LinkView { source, target, label: label1 })
            &&& h2 == h1
            &&& forall|e: int| joins(after, e, source, target) <==> e == h1.index
            &&& after[h1.index as int].label == label1
        },
{
    if !connected(before, source, target) {
        let n = before.len() as int;
        assert(joins(between, n, source, target));
        assert forall|e: int| joins(between, e, source, target) implies e == n by {
            if e < n {
                assert(joins(before, e, source, target));
            }
        }
    }
}

/// The graph. It owns the instances put into it and hands out handles; a
/// handle stays good for as long as the graph lives. Handles count up from
/// zero in order of insertion.
pub struct Graph {
    inner: StableGraph<NodeInstance, String>,
}

impl Graph {
    /// The nodes, in order of insertion; the node of handle `h` is at position
    /// `h.index`.
    pub closed spec fn nodes(&self) -> Seq<NodeInstance> {
        Seq::new(node_slots(self.inner).len(), |i: int| node_slots(self.inner)[i].unwrap())
    }

    /// The edges, in order of insertion; the edge of handle `h` is at position
    /// `h.index`.
    pub closed spec fn links(&self) -> Seq<LinkView> {
        Seq::new(
            edge_slots(self.inner).len(),
            |i: int|
                LinkView {
                    source: edge_slots(self.inner)[i].unwrap().0,
                    target: edge_slots(self.inner)[i].unwrap().1,
                    label: edge_slots(self.inner)[i].unwrap().2@,
                },
        )
    }

    /// The store has no vacant slot, every node is well formed, and every
    /// edge ends in nodes of the graph.
    pub closed spec fn wf(&self) -> bool {
        &&& full(node_slots(self.inner))
        &&& full(edge_slots(self.inner))
        &&& forall|i: int|
            0 <= i < node_slots(self.inner).len() ==> (#[trigger] node_slots(
                self.inner,
            )[i]).unwrap().wf()
        &&& forall|e: int|
            0 <= e < edge_slots(self.inner).len() ==> {
                &&& (#[trigger] edge_slots(self.inner)[e]).unwrap().0.index < node_slots(
                    self.inner,
                ).len()
                &&& edge_slots(self.inner)[e].unwrap().1.index < node_slots(self.inner).len()
            }
    }

    /// In a well-formed graph every node is well formed and every edge ends
    /// in nodes of the graph.
    pub proof fn law_edges_end_in_nodes(&self)
        requires
            self.wf(),
        ensures
            forall|i: int| 0 <= i < self.nodes().len() ==> (#[trigger] self.nodes()[i]).wf(),
            forall|e: int|
                0 <= e < self.links().len() ==> {
                    &&& (#[trigger] self.links()[e]).source.index < self.nodes().len()
                    &&& self.links()[e].target.index < self.nodes().len()
                },
    {
    }

    /// The empty graph.
    pub fn new() -> (g: Self)
        ensures
            g.wf(),
            g.nodes() == Seq::<NodeInstance>::empty(),
            g.links() == Seq::<LinkView>::empty(),
    {
        Graph { inner: graph_new() }
    }

    /// The number of nodes.
    pub fn node_count(&self) -> (n: usize)
        requires
            self.wf(),
        ensures
            n == self.nodes().len(),
    {
        proof {
            lemma_occupied_full(node_slots(self.inner));
        }
        graph_node_count(&self.inner)
    }

    /// The number of edges.
    pub fn edge_count(&self) -> (n: usize)
        requires
            self.wf(),
        ensures
            n == self.links().len(),
    {
        proof {
            lemma_occupied_full(edge_slots(self.inner));
        }
        graph_edge_count(&self.inner)
    }

    /// The handles of all nodes, in order of insertion.
    pub fn node_handles(&self) -> (hs: Vec<NodeHandle>)
        requires
            self.wf(),
        ensures
            hs@.len() == self.nodes().len(),
            forall|i: int| 0 <= i < hs@.len() ==> (#[trigger] hs@[i]).index == i,
    {
        proof {
            lemma_occupied_full(node_slots(self.inner));
        }
        graph_node_indices(&self.inner)
    }

    /// The handles of all edges, in order of insertion.
    pub fn edge_handles(&self) -> (hs: Vec<EdgeHandle>)
        requires
            self.wf(),
        ensures
            hs@.len() == self.links().len(),
            forall|i: int| 0 <= i < hs@.len() ==> (#[trigger] hs@[i]).index == i,
    {
        proof {
            lemma_occupied_full(edge_slots(self.inner));
        }
        graph_edge_indices(&self.inner)
    }

    /// The node behind `h`, if `h` is a handle of this graph.
    pub fn node(&self, h: NodeHandle) -> (r: Option<&NodeInstance>)
        requires
            self.wf(),
        ensures
            match r {
                Some(node) => {
                    &&& h.index < self.nodes().len()
                    &&& *node == self.nodes()[h.index as int]
                    &&& node.wf()
                },
                None => h.index >= self.nodes().len(),
            },
    {
        graph_node_weight(&self.inner, h)
    }

    /// The label of the edge behind `h`, if `h` is a handle of this graph.
    pub fn edge_label(&self, h: EdgeHandle) -> (r: Option<&str>)
        requires
            self.wf(),
        ensures
            match r {
                Some(label) => h.index < self.links().len() && label@ == self.links()[h.index as int].label,
                None => h.index >= self.links().len(),
            },
    {
        match graph_edge_weight(&self.inner, h) {
            Some(w) => Some(w.as_str()),
            None => None,
        }
    }

    /// The source and the target of the edge behind `h`, if `h` is a handle
    /// of this graph.
    pub fn edge_endpoints(&self, h: EdgeHandle) -> (r: Option<(NodeHandle, NodeHandle)>)
        requires
            self.wf(),
        ensures
            match r {
                Some(ends) => {
                    &&& h.index < self.links().len()
                    &&& ends.0 == self.links()[h.index as int].source
                    &&& ends.1 == self.links()[h.index as int].target
                    &&& ends.0.index < self.nodes().len()
                    &&& ends.1.index < self.nodes().len()
                },
                None => h.index >= self.links().len(),
            },
    {
        graph_edge_endpoints(&self.inner, h)
    }

    /// The edge behind `h` in standalone form: the display names of its ends
    /// and its label.
    pub fn relation(&self, h: EdgeHandle) -> (r: Option<Edge>)
        requires
            self.wf(),
            all_named(self.nodes()),
        ensures
            match r {
                Some(edge) => {
                    &&& h.index < self.links().len()
                    &&& Some(edge@.source) == self.nodes()[self.links()[h.index as int].source.index as int]@.name()
                    &&& Some(edge@.target) == self.nodes()[self.links()[h.index as int].target.index as int]@.name()
                    &&& edge@.label == self.links()[h.index as int].label
                },
                None => h.index >= self.links().len(),
            },
    {
        let ends = match self.edge_endpoints(h) {
            Some(ends) => ends,
            None => {
                return None;
            },
        };
        let label = match self.edge_label(h) {
            Some(label) => label,
            None => {
                return None;
            },
        };
        let source = match self.node(ends.0) {
            Some(node) => node,
            None => {
                return None;
            },
        };
        let target = match self.node(ends.1) {
            Some(node) => node,
            None => {
                return None;
            },
        };
        Some(Edge::new(source.name(), target.name(), label))
    }

    /// Adds `node` as a new node, whatever the graph holds already.
    pub fn add_node(&mut self, node: NodeInstance) -> (h: NodeHandle)
        requires
            old(self).wf(),
            node.wf(),
            old(self).nodes().len() < u32::MAX,
        ensures
            final(self).wf(),
            final(self).nodes() == old(self).nodes().push(node),
            final(self).links() == old(self).links(),
            h.index == old(self).nodes().len(),
    {
        graph_add_node(&mut self.inner, node)
    }

    /// Adds an edge labeled `label` from `source` to `target`, whatever
    /// edges the graph holds already. Both ends must be nodes of the graph.
    pub fn add_edge(&mut self, source: NodeHandle, target: NodeHandle, label: &str) -> (h: EdgeHandle)
        requires
            old(self).wf(),
            source.index < old(self).nodes().len(),
            target.index < old(self).nodes().len(),
            old(self).links().len() < u32::MAX,
        ensures
            final(self).wf(),
            final(self).nodes() == old(self).nodes(),
            final(self).links() == old(self).links().push(
                LinkView { source, target, label: label@ },
            ),
            h.index == old(self).links().len(),
    {
        let h = graph_add_edge(&mut self.inner, source, target, label.to_owned());
        proof {
            assert(self.links() =~= old(self).links().push(
                LinkView { source, target, label: label@ },
            ));
        }
        h
    }

    /// The first node, in order of insertion, that carries the display name
    /// `name`.
    pub fn find_node(&self, name: &str) -> (r: Option<NodeHandle>)
        requires
            self.wf(),
            all_named(self.nodes()),
        ensures
            match r {
                Some(h) => first_named(self.nodes(), name@) == Some(h.index as int),
                None => first_named(self.nodes(), name@).is_none(),
            },
    {
        let handles = self.node_handles();
        let n = handles.len();
        let mut i: usize = 0;
        while i < n
            invariant
                i <= n,
                n == handles@.len(),
                n == self.nodes().len(),
                self.wf(),
                all_named(self.nodes()),
                forall|k: int| 0 <= k < n ==> (#[trigger] handles@[k]).index == k,
                forall|j: int| 0 <= j < i ==> !named(#[trigger] self.nodes()[j], name@),
            decreases n - i,
        {
            let h = handles[i];
            match self.node(h) {
                Some(node) => {
                    if same_text(node.name(), name) {
                        proof {
                            lemma_first_named(self.nodes(), name@, i as int);
                        }
                        return Some(h);
                    }
                },
                None => {},
            }
            i += 1;
        }
        None
    }

    /// Adds `node` unless a node of the same display name is there already:
    /// then the graph stays as it is, `node` is dropped, and the handle of
    /// the first node of that name is returned.
    pub fn add_node_dedup(&mut self, node: NodeInstance) -> (h: NodeHandle)
        requires
            old(self).wf(),
            node.wf(),
            node@.name().is_some(),
            all_named(old(self).nodes()),
            first_named(old(self).nodes(), node@.name().unwrap()).is_none() ==> old(self).nodes().len()
                < u32::MAX,
        ensures
            final(self).wf(),
            all_named(final(self).nodes()),
            node_dedup_step(old(self).nodes(), node, final(self).nodes(), h),
            final(self).links() == old(self).links(),
            h.index < final(self).nodes().len(),
    {
        match self.find_node(node.name()) {
            Some(h) => h,
            None => self.add_node(node),
        }
    }

    /// Adds an edge labeled `label` from `source` to `target` unless some
    /// edge leads from `source` to `target` already, whatever its label:
    /// then the graph stays as it is, `label` is dropped, and the handle of
    /// such an edge is returned. Both ends must be nodes of the graph.
    pub fn add_edge_dedup(&mut self, source: NodeHandle, target: NodeHandle, label: &str) -> (h:
        EdgeHandle)
        requires
            old(self).wf(),
            source.index < old(self).nodes().len(),
            target.index < old(self).nodes().len(),
            !connected(old(self).links(), source, target) ==> old(self).links().len() < u32::MAX,
        ensures
            final(self).wf(),
            final(self).nodes() == old(self).nodes(),
            edge_dedup_step(old(self).links(), source, target, label@, final(self).links(), h),
            h.index < final(self).links().len(),
    {
        match graph_find_edge(&self.inner, source, target) {
            Some(h) => {
                proof {
                    assert(joins(self.links(), h.index as int, source, target));
                }
                h
            },
            None => {
                proof {
                    assert forall|e: int| !joins(self.links(), e, source, target) by {}
                }
                self.add_edge(source, target, label)
            },
        }
    }
}

} // verus!
