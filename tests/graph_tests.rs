use mini_graphml::{ConsistencyError, Edge, EdgeDirection, Graph, GraphML, Node, StuffList};
use petgraph::graph::{EdgeIndex, NodeIndex};

fn node(id: &str) -> Node<()> {
    Node { id: id.to_string(), data: None }
}

fn edge(id: &str, source: &str, target: &str, direction: EdgeDirection) -> Edge {
    Edge {
        id: id.to_string(),
        source: source.to_string(),
        target: target.to_string(),
        direction,
    }
}

fn scenario() -> Result<GraphML<()>, ConsistencyError> {
    GraphML::from_lists(
        "G".to_string(),
        "undirected".to_string(),
        StuffList(vec![node("n0"), node("n1")]),
        StuffList(vec![edge("e1", "n0", "n1", EdgeDirection::Unspecified)]),
    )
}

#[test]
fn two_nodes_one_edge_scenario() {
    let doc = scenario().ok().expect("consistent document");
    assert_eq!(doc.graph().id(), "G");
    assert_eq!(doc.graph().edge_default(), "undirected");
    let g = doc.into_petgraph();
    assert_eq!(g.node_count(), 2);
    assert_eq!(g.edge_count(), 1);
    assert_eq!(g[NodeIndex::new(0)], "n0");
    assert_eq!(g[NodeIndex::new(1)], "n1");
    assert_eq!(g[EdgeIndex::new(0)], "e1");
    assert_eq!(
        g.edge_endpoints(EdgeIndex::new(0)),
        Some((NodeIndex::new(0), NodeIndex::new(1)))
    );
}

#[test]
fn scenario_parts_keep_ids_and_order() {
    let doc = scenario().ok().expect("consistent document");
    let (id, edge_default, nodes, edges) = doc.into_graph().into_parts();
    assert_eq!(id, "G");
    assert_eq!(edge_default, "undirected");
    let node_ids: Vec<String> = nodes.0.iter().map(|n| n.id.clone()).collect();
    assert_eq!(node_ids, vec!["n0", "n1"]);
    assert_eq!(edges.0.len(), 1);
    assert_eq!(edges.0[0].id, "e1");
    assert!(edges.0[0].direction.is_unspecified());
}

#[test]
fn rebuilding_from_parts_is_accepted_unchanged() {
    let g1 = Graph::from_lists(
        "G".to_string(),
        "directed".to_string(),
        StuffList(vec![node("c"), node("a"), node("b")]),
        StuffList(vec![
            edge("x", "a", "c", EdgeDirection::Directed),
            edge("y", "b", "b", EdgeDirection::Undirected),
        ]),
    )
    .ok()
    .expect("consistent graph");
    let (id, ed, nodes, edges) = g1.into_parts();
    let g2 = Graph::from_lists(id, ed, nodes, edges).ok().expect("accepted again");
    let node_ids: Vec<&str> = g2.nodes().values().iter().map(|n| n.id.as_str()).collect();
    assert_eq!(node_ids, vec!["c", "a", "b"]);
    let edge_ids: Vec<&str> = g2.edges().values().iter().map(|e| e.id.as_str()).collect();
    assert_eq!(edge_ids, vec!["x", "y"]);
    assert_eq!(g2.edges().values()[0].direction, EdgeDirection::Directed);
    assert_eq!(g2.edges().values()[1].direction, EdgeDirection::Undirected);
}

#[test]
fn dangling_target_is_refused() {
    let r = Graph::from_lists(
        "G".to_string(),
        "undirected".to_string(),
        StuffList(vec![node("n0")]),
        StuffList(vec![edge("e1", "n0", "n7", EdgeDirection::Unspecified)]),
    );
    assert_eq!(
        r.err(),
        Some(ConsistencyError::DanglingEndpoint { edge: "e1".to_string(), endpoint: "n7".to_string() })
    );
}

#[test]
fn dangling_source_is_refused() {
    let r = Graph::from_lists(
        "G".to_string(),
        "undirected".to_string(),
        StuffList(vec![node("n0")]),
        StuffList(vec![edge("e1", "zz", "n0", EdgeDirection::Unspecified)]),
    );
    assert_eq!(
        r.err(),
        Some(ConsistencyError::DanglingEndpoint { edge: "e1".to_string(), endpoint: "zz".to_string() })
    );
}

#[test]
fn duplicate_node_is_refused() {
    let r = Graph::from_lists(
        "G".to_string(),
        "undirected".to_string(),
        StuffList(vec![node("n0"), node("n0")]),
        StuffList(vec![]),
    );
    assert_eq!(r.err(), Some(ConsistencyError::DuplicateNode("n0".to_string())));
}

#[test]
fn duplicate_edge_is_refused() {
    let r = Graph::from_lists(
        "G".to_string(),
        "undirected".to_string(),
        StuffList(vec![node("n0"), node("n1")]),
        StuffList(vec![
            edge("e", "n0", "n1", EdgeDirection::Unspecified),
            edge("e", "n1", "n0", EdgeDirection::Unspecified),
        ]),
    );
    assert_eq!(r.err(), Some(ConsistencyError::DuplicateEdge("e".to_string())));
}

#[test]
fn conversion_maps_every_node_and_edge() {
    let g = Graph::from_lists(
        "G".to_string(),
        "directed".to_string(),
        StuffList(vec![node("p"), node("q"), node("r")]),
        StuffList(vec![
            edge("pq", "p", "q", EdgeDirection::Directed),
            edge("rp", "r", "p", EdgeDirection::Directed),
            edge("qq", "q", "q", EdgeDirection::Unspecified),
        ]),
    )
    .ok()
    .expect("consistent graph");
    let pg = g.into_petgraph();
    assert_eq!(pg.node_count(), 3);
    assert_eq!(pg.edge_count(), 3);
    let labels: Vec<&str> = pg.node_indices().map(|i| pg[i].as_str()).collect();
    assert_eq!(labels, vec!["p", "q", "r"]);
    let expect = [("pq", 0, 1), ("rp", 2, 0), ("qq", 1, 1)];
    for (k, (label, a, b)) in expect.iter().enumerate() {
        let e = EdgeIndex::new(k);
        assert_eq!(pg[e], *label);
        assert_eq!(pg.edge_endpoints(e), Some((NodeIndex::new(*a), NodeIndex::new(*b))));
    }
}

#[test]
fn empty_graph_converts_to_empty() {
    let g = Graph::<()>::from_lists("G".to_string(), "directed".to_string(), StuffList(vec![]), StuffList(vec![]))
        .ok()
        .expect("empty graph is consistent");
    let pg = g.into_petgraph();
    assert_eq!(pg.node_count(), 0);
    assert_eq!(pg.edge_count(), 0);
}
