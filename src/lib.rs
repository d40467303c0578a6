pub mod document;
pub mod indexed;
pub mod model;
pub mod stuff;

pub use document::{ConsistencyError, EdgesMap, Graph, GraphML, GraphMLNoData, NodesMap};
pub use model::{AsStrId, AttrType, Edge, EdgeDirection, Key, KeyFor, Node};
pub use stuff::{StuffList, StuffMap};
