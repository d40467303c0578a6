use vstd::prelude::*;

verus! {

/// Direction marker carried by an edge. On the wire it is an optional boolean:
/// absent means `Unspecified`, `true` means `Directed`, `false` means `Undirected`.
#[derive(Clone, Copy, Debug, PartialEq, Eq, Structural)]
pub enum EdgeDirection {
    Directed,
    Undirected,
    Unspecified,
}

/// The optional boolean that stands for a direction.
pub open spec fn direction_of(value: Option<bool>) -> EdgeDirection {
    match value {
        Some(true) => EdgeDirection::Directed,
        Some(false) => EdgeDirection::Undirected,
        None => EdgeDirection::Unspecified,
    }
}

/// The optional boolean written for a direction; `Unspecified` writes nothing.
pub open spec fn wire_of(d: EdgeDirection) -> Option<bool> {
    match d {
        EdgeDirection::Directed => Some(true),
        EdgeDirection::Undirected => Some(false),
        EdgeDirection::Unspecified => None,
    }
}

impl EdgeDirection {
    pub fn is_unspecified(&self) -> (r: bool)
        ensures
            r == (*self is Unspecified),
    {
        matches!(self, EdgeDirection::Unspecified)
    }

    /// The optional boolean written on the wire for this direction.
    pub fn to_wire(&self) -> (r: Option<bool>)
        ensures
            r == wire_of(*self),
    {
        match self {
            EdgeDirection::Directed => Some(true),
            EdgeDirection::Undirected => Some(false),
            EdgeDirection::Unspecified => None,
        }
    }
}

impl From<Option<bool>> for EdgeDirection {
    fn from(value: Option<bool>) -> (r: EdgeDirection)
        ensures
            r == direction_of(value),
    {
        match value {
            Some(true) => EdgeDirection::Directed,
            Some(false) => EdgeDirection::Undirected,
            None => EdgeDirection::Unspecified,
        }
    }
}

impl vstd::std_specs::convert::FromSpecImpl<Option<bool>> for EdgeDirection {
    open spec fn obeys_from_spec() -> bool {
        true
    }

    open spec fn from_spec(value: Option<bool>) -> EdgeDirection {
        direction_of(value)
    }
}

/// Reading back what was written for a direction gives that direction, and
/// writing a decoded marker gives the marker back: no marker appears where
/// none was, and an explicit `true` or `false` is kept.
pub proof fn lemma_direction_round_trip(d: EdgeDirection, value: Option<bool>)
    ensures
        direction_of(wire_of(d)) == d,
        wire_of(direction_of(value)) == value,
        value is None ==> wire_of(direction_of(value)) is None,
{
}

/// The kind of entity an attribute declaration applies to.
#[derive(Clone, Copy, Debug, PartialEq, Eq, Structural)]
pub enum KeyFor {
    Edge,
    Node,
}

/// The value type of a declared attribute.
#[derive(Clone, Copy, Debug, PartialEq, Eq, Structural)]
pub enum AttrType {
    Boolean,
    Int,
    Long,
    Float,
    Double,
    String,
}

/// A declared attribute: identifier, owner kind, name, value type and default.
#[derive(Clone, Debug)]
pub struct Key {
    pub id: String,
    pub for_kind: KeyFor,
    pub name: String,
    pub attr_type: AttrType,
    pub default: Option<String>,
}

/// An entity that is identified by a string.
pub trait AsStrId {
    spec fn spec_id(&self) -> Seq<char>;

    fn id(&self) -> (r: &str)
        ensures
            r@ == self.spec_id(),
    ;
}

/// A node: its identifier and an optional payload.
#[derive(Clone, Debug)]
pub struct Node<NodeData> {
    pub id: String,
    pub data: Option<NodeData>,
}

/// An edge between two nodes, named by their identifiers.
#[derive(Clone, Debug)]
pub struct Edge {
    pub id: String,
    pub source: String,
    pub target: String,
    pub direction: EdgeDirection,
}

impl<NodeData> AsStrId for Node<NodeData> {
    open spec fn spec_id(&self) -> Seq<char> {
        self.id@
    }

    fn id(&self) -> (r: &str) {
        self.id.as_str()
    }
}

impl AsStrId for Edge {
    open spec fn spec_id(&self) -> Seq<char> {
        self.id@
    }

    fn id(&self) -> (r: &str) {
        self.id.as_str()
    }
}

} // verus!
