use vstd::prelude::*;

use crate::model::{AsStrId, Edge, Node};
use crate::stuff::{ids_of, repeated_id, unique_ids, StuffList, StuffMap};

verus! {

/// Why a decoded document was refused.
#[derive(Clone, Debug, PartialEq, Eq)]
pub enum ConsistencyError {
    /// Two nodes carry this identifier.
    DuplicateNode(String),
    /// Two edges carry this identifier.
    DuplicateEdge(String),
    /// The edge names as source or target a node that does not exist.
    DanglingEndpoint { edge: String, endpoint: String },
}

/// Every edge's source and target is the identifier of some node.
pub open spec fn endpoints_resolve<D>(nodes: Seq<Node<D>>, edges: Seq<Edge>) -> bool {
    forall|j: int|
        0 <= j < edges.len() ==> {
            &&& ids_of(nodes).contains(#[trigger] edges[j].source@)
            &&& ids_of(nodes).contains(edges[j].target@)
        }
}

/// The lists that make a consistent graph: identifiers unique among nodes and
/// among edges, and every endpoint a node.
pub open spec fn consistent<D>(nodes: Seq<Node<D>>, edges: Seq<Edge>) -> bool {
    &&& unique_ids(nodes)
    &&& unique_ids(edges)
    &&& endpoints_resolve(nodes, edges)
}

/// Whether the edge at some position names `endpoint` as an end that no node has.
pub open spec fn dangling<D>(
    nodes: Seq<Node<D>>,
    edges: Seq<Edge>,
    edge: Seq<char>,
    endpoint: Seq<char>,
) -> bool {
    exists|j: int|
        0 <= j < edges.len() && #[trigger] edges[j].id@ == edge && (edges[j].source@ == endpoint
            || edges[j].target@ == endpoint) && !ids_of(nodes).contains(endpoint)
}

/// A graph: identifier, default edge kind, its nodes and its edges.
pub struct Graph<NodeData> {
    id: String,
    edge_default: String,
    nodes: StuffMap<Node<NodeData>>,
    edges: StuffMap<Edge>,
}

/// A document: one graph.
pub struct GraphML<NodeData> {
    graph: Graph<NodeData>,
}

/// A document whose nodes carry no payload.
pub type GraphMLNoData = GraphML<()>;

/// Nodes keyed by identifier.
pub type NodesMap<NodeData> = StuffMap<Node<NodeData>>;

/// Edges keyed by identifier.
pub type EdgesMap = StuffMap<Edge>;

/// Checks that every edge's endpoints are identifiers of nodes.
fn ensure_consistency<D>(nodes: &StuffMap<Node<D>>, edges: &StuffMap<Edge>) -> (r: Result<
    (),
    ConsistencyError,
>)
    requires
        nodes.wf(),
        edges.wf(),
    ensures
        r is Ok <==> endpoints_resolve(nodes@, edges@),
        r matches Err(e) ==> e matches ConsistencyError::DanglingEndpoint { edge, endpoint }
            && dangling(nodes@, edges@, edge@, endpoint@),
{
    let list = edges.values();
    let mut j: usize = 0;
    while j < list.len()
        invariant
            nodes.wf(),
            list@ == edges@,
            j <= list@.len(),
            forall|k: int|
                0 <= k < j ==> {
                    &&& ids_of(nodes@).contains(#[trigger] list@[k].source@)
                    &&& ids_of(nodes@).contains(list@[k].target@)
                },
        decreases list@.len() - j,
    {
        let e = &list[j];
        match nodes.index_of(e.source.as_str()) {
            Some(i) => {
                assert(ids_of(nodes@)[i as int] == e.source@);
                assert(ids_of(nodes@).contains(list@[j as int].source@));
            },
            None => {
                return Err(
                    ConsistencyError::DanglingEndpoint {
                        edge: e.id.clone(),
                        endpoint: e.source.clone(),
                    },
                );
            },
        }
        match nodes.index_of(e.target.as_str()) {
            Some(i) => {
                assert(ids_of(nodes@)[i as int] == e.target@);
                assert(ids_of(nodes@).contains(list@[j as int].target@));
            },
            None => {
                return Err(
                    ConsistencyError::DanglingEndpoint {
                        edge: e.id.clone(),
                        endpoint: e.target.clone(),
                    },
                );
            },
        }
        assert(forall|k: int|
            0 <= k < j + 1 ==> {
                &&& ids_of(nodes@).contains(#[trigger] list@[k].source@)
                &&& ids_of(nodes@).contains(list@[k].target@)
            });
        j = j + 1;
    }
    Ok(())
}

impl<NodeData> Graph<NodeData> {
    pub closed spec fn spec_id(&self) -> Seq<char> {
        self.id@
    }

    pub closed spec fn spec_edge_default(&self) -> Seq<char> {
        self.edge_default@
    }

    /// The nodes, in document order.
    pub closed spec fn spec_nodes(&self) -> Seq<Node<NodeData>> {
        self.nodes@
    }

    /// The edges, in document order.
    pub closed spec fn spec_edges(&self) -> Seq<Edge> {
        self.edges@
    }

    /// The collections are well formed and the graph is consistent.
    pub closed spec fn wf(&self) -> bool {
        &&& self.nodes.wf()
        &&& self.edges.wf()
        &&& endpoints_resolve(self.nodes@, self.edges@)
    }

    pub proof fn lemma_wf(&self)
        requires
            self.wf(),
        ensures
            consistent(self.spec_nodes(), self.spec_edges()),
    {
        self.nodes.lemma_wf_unique();
        self.edges.lemma_wf_unique();
    }

    /// Builds a graph from decoded parts, refusing a repeated node identifier,
    /// then a repeated edge identifier, then an edge whose end is no node.
    pub fn from_lists(
        id: String,
        edge_default: String,
        nodes: StuffList<Node<NodeData>>,
        edges: StuffList<Edge>,
    ) -> (r: Result<Self, ConsistencyError>)
        ensures
            r is Ok <==> consistent(nodes.0@, edges.0@),
            r matches Ok(g) ==> {
                &&& g.wf()
                &&& g.spec_id() == id@
                &&& g.spec_edge_default() == edge_default@
                &&& g.spec_nodes() == nodes.0@
                &&& g.spec_edges() == edges.0@
            },
            r matches Err(ConsistencyError::DuplicateNode(x)) ==> repeated_id(nodes.0@, x@),
            r matches Err(ConsistencyError::DuplicateEdge(x)) ==> unique_ids(nodes.0@)
                && repeated_id(edges.0@, x@),
            r matches Err(ConsistencyError::DanglingEndpoint { edge, endpoint }) ==> unique_ids(
                nodes.0@,
            ) && unique_ids(edges.0@) && dangling(nodes.0@, edges.0@, edge@, endpoint@),
    {
        let ghost node_list = nodes.0@;
        let ghost edge_list = edges.0@;
        let nodes = match StuffMap::from_unique_list(nodes) {
            Ok(m) => m,
            Err(x) => {
                return Err(ConsistencyError::DuplicateNode(x));
            },
        };
        let edges = match StuffMap::from_unique_list(edges) {
            Ok(m) => m,
            Err(x) => {
                return Err(ConsistencyError::DuplicateEdge(x));
            },
        };
        match ensure_consistency(&nodes, &edges) {
            Ok(()) => Ok(Graph { id, edge_default, nodes, edges }),
            Err(e) => Err(e),
        }
    }

    /// The graph's parts, in document order, for writing it out.
    pub fn into_parts(self) -> (r: (String, String, StuffList<Node<NodeData>>, StuffList<Edge>))
        ensures
            r.0@ == self.spec_id(),
            r.1@ == self.spec_edge_default(),
            r.2.0@ == self.spec_nodes(),
            r.3.0@ == self.spec_edges(),
    {
        let Graph { id, edge_default, nodes, edges } = self;
        (id, edge_default, nodes.into_list(), edges.into_list())
    }

    pub fn id(&self) -> (r: &str)
        ensures
            r@ == self.spec_id(),
    {
        self.id.as_str()
    }

    pub fn edge_default(&self) -> (r: &str)
        ensures
            r@ == self.spec_edge_default(),
    {
        self.edge_default.as_str()
    }

    pub fn nodes(&self) -> (r: &StuffMap<Node<NodeData>>)
        requires
            self.wf(),
        ensures
            r.wf(),
            r@ == self.spec_nodes(),
    {
        &self.nodes
    }

    pub fn edges(&self) -> (r: &StuffMap<Edge>)
        requires
            self.wf(),
        ensures
            r.wf(),
            r@ == self.spec_edges(),
    {
        &self.edges
    }
}

/// The parts of a consistent graph are themselves consistent: building a
/// graph again from what `into_parts` hands out is accepted by `from_lists`.
pub proof fn lemma_parts_round_trip<D>(g: Graph<D>)
    requires
        g.wf(),
    ensures
        consistent(g.spec_nodes(), g.spec_edges()),
{
    g.lemma_wf();
}

impl<NodeData> GraphML<NodeData> {
    pub closed spec fn spec_graph(&self) -> Graph<NodeData> {
        self.graph
    }

    pub open spec fn wf(&self) -> bool {
        self.spec_graph().wf()
    }

    /// Builds a document from decoded parts; see `Graph::from_lists`.
    pub fn from_lists(
        id: String,
        edge_default: String,
        nodes: StuffList<Node<NodeData>>,
        edges: StuffList<Edge>,
    ) -> (r: Result<Self, ConsistencyError>)
        ensures
            r is Ok <==> consistent(nodes.0@, edges.0@),
            r matches Ok(d) ==> {
                &&& d.wf()
                &&& d.spec_graph().spec_id() == id@
                &&& d.spec_graph().spec_edge_default() == edge_default@
                &&& d.spec_graph().spec_nodes() == nodes.0@
                &&& d.spec_graph().spec_edges() == edges.0@
            },
            r matches Err(ConsistencyError::DuplicateNode(x)) ==> repeated_id(nodes.0@, x@),
            r matches Err(ConsistencyError::DuplicateEdge(x)) ==> unique_ids(nodes.0@)
                && repeated_id(edges.0@, x@),
            r matches Err(ConsistencyError::DanglingEndpoint { edge, endpoint }) ==> unique_ids(
                nodes.0@,
            ) && unique_ids(edges.0@) && dangling(nodes.0@, edges.0@, edge@, endpoint@),
    {
        match Graph::from_lists(id, edge_default, nodes, edges) {
            Ok(graph) => Ok(GraphML { graph }),
            Err(e) => Err(e),
        }
    }

    pub fn graph(&self) -> (r: &Graph<NodeData>)
        ensures
            *r == self.spec_graph(),
    {
        &self.graph
    }

    pub fn into_graph(self) -> (r: Graph<NodeData>)
        ensures
            r == self.spec_graph(),
    {
        self.graph
    }
}

} // verus!
