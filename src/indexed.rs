use vstd::prelude::*;

use crate::document::GraphML;
use crate::model::{Edge, Node};
use crate::stuff::ids_of;
use petgraph::graph::DiGraph;
use petgraph::Graph as IndexedGraph;

verus! {

#[verifier::external_type_specification]
#[verifier::external_body]
#[verifier::reject_recursive_types(N)]
#[verifier::reject_recursive_types(E)]
#[verifier::reject_recursive_types(Ty)]
#[verifier::reject_recursive_types(Ix)]
pub struct ExPetGraph<N, E, Ty, Ix>(IndexedGraph<N, E, Ty, Ix>);

#[verifier::external_type_specification]
#[verifier::external_body]
pub struct ExDirected(petgraph::Directed);

/// The vertex labels of an indexed graph, by vertex index.
pub uninterp spec fn vertex_labels(g: DiGraph<String, String>) -> Seq<Seq<char>>;

/// The edges of an indexed graph, by edge index: source index, target index, label.
pub uninterp spec fn edge_triples(g: DiGraph<String, String>) -> Seq<(int, int, Seq<char>)>;

/// Relies on `petgraph::Graph::new`: a directed graph with no vertex and no edge.
#[verifier::external_body]
fn indexed_new() -> (r: DiGraph<String, String>)
    ensures
        vertex_labels(r) == Seq::<Seq<char>>::empty(),
        edge_triples(r) == Seq::<(int, int, Seq<char>)>::empty(),
{
    DiGraph::new()
}

/// Relies on `petgraph::Graph::add_node`: the vertex is appended and its index
/// is the former vertex count. It panics only at `u32::MAX` vertices.
#[verifier::external_body]
fn indexed_add_node(g: &mut DiGraph<String, String>, label: String) -> (r: usize)
    requires
        vertex_labels(*old(g)).len() < u32::MAX,
    ensures
        r == vertex_labels(*old(g)).len(),
        vertex_labels(*final(g)) == vertex_labels(*old(g)).push(label@),
        edge_triples(*final(g)) == edge_triples(*old(g)),
{
    g.add_node(label).index()
}

/// Relies on `petgraph::Graph::add_edge`: the edge is appended. It panics only
/// on an index that is no vertex, or at `u32::MAX` edges.
#[verifier::external_body]
fn indexed_add_edge(g: &mut DiGraph<String, String>, a: usize, b: usize, label: String)
    requires
        a < vertex_labels(*old(g)).len(),
        b < vertex_labels(*old(g)).len(),
        edge_triples(*old(g)).len() < u32::MAX,
    ensures
        vertex_labels(*final(g)) == vertex_labels(*old(g)),
        edge_triples(*final(g)) == edge_triples(*old(g)).push((a as int, b as int, label@)),
{
    g.add_edge(petgraph::graph::NodeIndex::new(a), petgraph::graph::NodeIndex::new(b), label);
}

/// The indexed edges for a graph's edges: each edge goes from the position of
/// its source among the nodes to the position of its target, labelled by its id.
pub open spec fn indexed_edges<D>(nodes: Seq<Node<D>>, edges: Seq<Edge>) -> Seq<(int, int, Seq<char>)> {
    edges.map_values(
        |e: Edge| (ids_of(nodes).index_of(e.source@), ids_of(nodes).index_of(e.target@), e.id@),
    )
}

impl crate::document::Graph<()> {
    /// Builds the indexed graph: one vertex per node, labelled by the node's
    /// identifier, in document order; one edge per edge, labelled by the edge's
    /// identifier, from its source's vertex to its target's vertex.
    pub fn into_petgraph(self) -> (r: DiGraph<String, String>)
        requires
            self.wf(),
            self.spec_nodes().len() <= u32::MAX,
            self.spec_edges().len() <= u32::MAX,
        ensures
            vertex_labels(r) == ids_of(self.spec_nodes()),
            edge_triples(r) == indexed_edges(self.spec_nodes(), self.spec_edges()),
    {
        let ghost ns = self.spec_nodes();
        let ghost es = self.spec_edges();
        proof {
            self.lemma_wf();
        }
        let nodes = self.nodes();
        let edges = self.edges();
        let node_list = nodes.values();
        let edge_list = edges.values();
        let mut g = indexed_new();
        let mut i: usize = 0;
        while i < node_list.len()
            invariant
                node_list@ == ns,
                ns.len() <= u32::MAX,
                i <= ns.len(),
                vertex_labels(g) == ids_of(ns).take(i as int),
                edge_triples(g) == Seq::<(int, int, Seq<char>)>::empty(),
            decreases ns.len() - i,
        {
            let label = node_list[i].id.clone();
            indexed_add_node(&mut g, label);
            proof {
                assert(ids_of(ns).take(i as int + 1) =~= ids_of(ns).take(i as int).push(
                    ns[i as int].id@,
                ));
            }
            i = i + 1;
        }
        assert(ids_of(ns).take(ns.len() as int) =~= ids_of(ns));
        let mut j: usize = 0;
        while j < edge_list.len()
            invariant
                nodes.wf(),
                nodes@ == ns,
                edge_list@ == es,
                es.len() <= u32::MAX,
                crate::document::endpoints_resolve(ns, es),
                crate::stuff::unique_ids(ns),
                j <= es.len(),
                vertex_labels(g) == ids_of(ns),
                edge_triples(g) == indexed_edges(ns, es).take(j as int),
            decreases es.len() - j,
        {
            let e = &edge_list[j];
            let a = match nodes.index_of(e.source.as_str()) {
                Some(a) => a,
                None => {
                    // cannot happen: consistency guarantees every endpoint resolves
                    proof {
                        assert(ids_of(ns).contains(es[j as int].source@));
                    }
                    0
                },
            };
            let b = match nodes.index_of(e.target.as_str()) {
                Some(b) => b,
                None => {
                    // cannot happen: consistency guarantees every endpoint resolves
                    proof {
                        assert(ids_of(ns).contains(es[j as int].target@));
                    }
                    0
                },
            };
            proof {
                let s = e.source@;
                let t = e.target@;
                assert(ids_of(ns).contains(s));
                assert(ids_of(ns).contains(t));
                assert(ids_of(ns)[a as int] == s);
                assert(ids_of(ns)[b as int] == t);
                assert(ids_of(ns).index_of(s) == a as int);
                assert(ids_of(ns).index_of(t) == b as int);
                assert(indexed_edges(ns, es).take(j as int + 1) =~= indexed_edges(ns, es).take(
                    j as int,
                ).push((a as int, b as int, e.id@)));
            }
            indexed_add_edge(&mut g, a, b, e.id.clone());
            j = j + 1;
        }
        assert(indexed_edges(ns, es).take(es.len() as int) =~= indexed_edges(ns, es));
        g
    }
}

impl GraphML<()> {
    /// Builds the indexed graph of the document's graph.
    pub fn into_petgraph(self) -> (r: DiGraph<String, String>)
        requires
            self.wf(),
            self.spec_graph().spec_nodes().len() <= u32::MAX,
            self.spec_graph().spec_edges().len() <= u32::MAX,
        ensures
            vertex_labels(r) == ids_of(self.spec_graph().spec_nodes()),
            edge_triples(r) == indexed_edges(
                self.spec_graph().spec_nodes(),
                self.spec_graph().spec_edges(),
            ),
    {
        self.into_graph().into_petgraph()
    }
}

} // verus!
