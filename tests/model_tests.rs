use mini_graphml::{AttrType, EdgeDirection, Key, KeyFor};

#[test]
fn direction_from_wire_value() {
    assert_eq!(EdgeDirection::from(Some(true)), EdgeDirection::Directed);
    assert_eq!(EdgeDirection::from(Some(false)), EdgeDirection::Undirected);
    assert_eq!(EdgeDirection::from(None), EdgeDirection::Unspecified);
}

#[test]
fn direction_unspecified_only_for_unspecified() {
    assert!(EdgeDirection::Unspecified.is_unspecified());
    assert!(!EdgeDirection::Directed.is_unspecified());
    assert!(!EdgeDirection::Undirected.is_unspecified());
}

#[test]
fn direction_wire_round_trip() {
    for value in [None, Some(true), Some(false)] {
        assert_eq!(EdgeDirection::from(value).to_wire(), value);
    }
    for d in [EdgeDirection::Directed, EdgeDirection::Undirected, EdgeDirection::Unspecified] {
        assert_eq!(EdgeDirection::from(d.to_wire()), d);
    }
    assert_eq!(EdgeDirection::Unspecified.to_wire(), None);
}

#[test]
fn key_holds_its_declaration() {
    let k = Key {
        id: "d0".to_string(),
        for_kind: KeyFor::Node,
        name: "color".to_string(),
        attr_type: AttrType::String,
        default: Some("yellow".to_string()),
    };
    assert_eq!(k.for_kind, KeyFor::Node);
    assert_eq!(k.attr_type, AttrType::String);
    assert_eq!(k.default.as_deref(), Some("yellow"));
}
