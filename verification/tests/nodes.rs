use serde_json::Value;
use tapir::http::BadRequest;
use tapir::node::{
    attribute, node_by_path, path, path_to_look_up, realize, root, Attribute, AttributeInfo,
    NodeFacts, NodeId, NodeIdOption, NodeOption, NodeState, NodesIdOption,
};

fn id(index1: usize, stamp: usize) -> NodeId {
    NodeId { index1, stamp }
}

fn attributes() -> Value {
    serde_json::from_str("{\"size\":64,\"kind\":\"file\"}").unwrap()
}

fn facts(name: &str) -> NodeFacts {
    NodeFacts {
        name: name.to_string(),
        path: format!("/root/{name}"),
        attributes: attributes(),
        children: vec![(id(7, 0), "first".to_string()), (id(8, 2), "second".to_string())],
        has_children: true,
    }
}

fn refused(message: &str) -> BadRequest {
    BadRequest { message: message.to_string() }
}

#[test]
fn every_flag_shows_its_field() {
    let all = NodeOption { name: true, path: true, attributes: true, children: true };
    assert_eq!(
        realize(id(3, 1), &all, Some(facts("a.bin"))),
        Ok(NodeState {
            id: id(3, 1),
            name: Some("a.bin".to_string()),
            path: Some("/root/a.bin".to_string()),
            attributes: Some(attributes()),
            children: Some(vec![(id(7, 0), "first".to_string()), (id(8, 2), "second".to_string())]),
            has_children: true,
        })
    );
}

#[test]
fn no_flag_shows_id_and_has_children_only() {
    let none = NodeOption { name: false, path: false, attributes: false, children: false };
    assert_eq!(
        realize(id(3, 1), &none, Some(facts("a.bin"))),
        Ok(NodeState {
            id: id(3, 1),
            name: None,
            path: None,
            attributes: None,
            children: None,
            has_children: true,
        })
    );
}

#[test]
fn each_field_is_there_exactly_when_its_flag_is_set() {
    for bits in 0..16u8 {
        let option = NodeOption {
            name: bits & 1 != 0,
            path: bits & 2 != 0,
            attributes: bits & 4 != 0,
            children: bits & 8 != 0,
        };
        let state = realize(id(1, 0), &option, Some(facts("n"))).unwrap();
        assert_eq!(state.id, id(1, 0));
        assert_eq!(state.name.is_some(), option.name);
        assert_eq!(state.path.is_some(), option.path);
        assert_eq!(state.attributes.is_some(), option.attributes);
        assert_eq!(state.children.is_some(), option.children);
        assert!(state.has_children);
    }
}

#[test]
fn unknown_node_is_refused() {
    let option = NodeOption { name: true, path: true, attributes: true, children: true };
    assert_eq!(realize(id(99, 0), &option, None), Err(refused("Node didn't exist")));
    let request = NodeIdOption { node_id: id(99, 0), option };
    assert_eq!(request.realize(None), Err(refused("Node didn't exist")));
}

#[test]
fn root_shows_name_attributes_and_children() {
    assert_eq!(
        NodeOption::root(),
        NodeOption { name: true, path: false, attributes: true, children: true }
    );
    let state = root(id(0, 0), Some(facts("root"))).unwrap();
    assert_eq!(state.id, id(0, 0));
    assert_eq!(state.name, Some("root".to_string()));
    assert_eq!(state.path, None);
    assert_eq!(state.attributes, Some(attributes()));
    assert_eq!(state.children.map(|children| children.len()), Some(2));
    assert_eq!(root(id(0, 0), None), Err(refused("Node didn't exist")));
}

#[test]
fn root_lists_its_children() {
    let state = root(id(0, 0), Some(facts("root"))).unwrap();
    assert_eq!(state.id, NodeId { index1: 0, stamp: 0 });
    assert!(!state.children.unwrap().is_empty());
    assert!(state.has_children);
}

#[test]
fn root_and_node_show_the_same_name_and_attributes() {
    let from_root = root(id(0, 0), Some(facts("root"))).unwrap();
    for bits in 0..4u8 {
        let option =
            NodeOption { name: true, path: bits & 1 != 0, attributes: true, children: bits & 2 != 0 };
        let request = NodeIdOption { node_id: from_root.id, option };
        let from_node = request.realize(Some(facts("root"))).unwrap();
        assert_eq!(from_node.id, from_root.id);
        assert_eq!(from_node.name, from_root.name);
        assert_eq!(from_node.attributes, from_root.attributes);
    }
}

#[test]
fn node_found_by_a_query_resolves_under_its_id() {
    let found = tapir::search::query(Ok(vec![id(4, 1), id(9, 0)])).unwrap();
    for node_id in found {
        let request = NodeIdOption { node_id, option: NodeOption::root() };
        assert_eq!(request.realize(Some(facts("a.bin"))).unwrap().id, node_id);
    }
}

#[test]
fn request_path_is_looked_up_below_root() {
    assert_eq!(path_to_look_up(Some("a.bin")), Ok("/root/a.bin".to_string()));
    assert_eq!(path_to_look_up(Some("dir/a.bin")), Ok("/root/dir/a.bin".to_string()));
    assert_eq!(path_to_look_up(Some("")), Ok("/root/".to_string()));
    assert_eq!(path_to_look_up(None), Err(refused("Can't convert path to str")));
}

#[test]
fn backslashes_are_read_as_slashes() {
    assert_eq!(path_to_look_up(Some("dir\\sub\\a.bin")), Ok("/root/dir/sub/a.bin".to_string()));
    assert_eq!(path_to_look_up(Some("\\")), Ok("/root//".to_string()));
    assert_eq!(path_to_look_up(Some("C:\\x/y\\z")), Ok("/root/C:/x/y/z".to_string()));
    for (one, other) in [("a\\b", "a/b"), ("\\\\", "//"), ("x/y\\z", "x\\y/z"), ("é\\ü", "é/ü")] {
        assert_eq!(path_to_look_up(Some(one)), path_to_look_up(Some(other)));
    }
}

#[test]
fn node_by_path_shows_the_fields_of_the_root() {
    let state = node_by_path(Some((id(5, 0), Some(facts("a.bin"))))).unwrap();
    assert_eq!(state.id, id(5, 0));
    assert_eq!(state.name, Some("a.bin".to_string()));
    assert_eq!(state.path, None);
    assert!(state.attributes.is_some());
    assert!(state.children.is_some());
}

#[test]
fn path_that_leads_nowhere_is_refused() {
    assert_eq!(node_by_path(None), Err(refused("Node id not found")));
    assert_eq!(node_by_path(Some((id(5, 0), None))), Err(refused("Node didn't exist")));
}

#[test]
fn path_of_a_node() {
    assert_eq!(path(Some("/root/a.bin".to_string())), Ok("/root/a.bin".to_string()));
    assert_eq!(path(None), Err(refused("Can't find node")));
}

#[test]
fn several_nodes_are_realized_in_order() {
    let option = NodeOption { name: true, path: false, attributes: false, children: false };
    let request = NodesIdOption { nodes_id: vec![id(1, 0), id(2, 0), id(3, 5)], option };
    let states =
        request.realize(vec![Some(facts("one")), Some(facts("two")), Some(facts("three"))]).unwrap();
    let shown: Vec<(NodeId, Option<String>)> =
        states.into_iter().map(|state| (state.id, state.name)).collect();
    assert_eq!(
        shown,
        vec![
            (id(1, 0), Some("one".to_string())),
            (id(2, 0), Some("two".to_string())),
            (id(3, 5), Some("three".to_string())),
        ]
    );
}

#[test]
fn no_nodes_give_no_states() {
    let request = NodesIdOption { nodes_id: vec![], option: NodeOption::root() };
    assert_eq!(request.realize(vec![]), Ok(vec![]));
    assert_eq!(request.realize(vec![None]), Ok(vec![]));
}

#[test]
fn one_unknown_node_refuses_all() {
    let request = NodesIdOption { nodes_id: vec![id(1, 0), id(2, 0)], option: NodeOption::root() };
    assert_eq!(request.realize(vec![Some(facts("one")), None]), Err(refused("Node didn't exist")));
    assert_eq!(request.realize(vec![None, Some(facts("two"))]), Err(refused("Node didn't exist")));
    assert_eq!(request.realize(vec![Some(facts("one"))]), Err(refused("Node didn't exist")));
    assert_eq!(request.realize(vec![]), Err(refused("Node didn't exist")));
}

#[test]
fn facts_beyond_the_request_are_not_read() {
    let request = NodesIdOption { nodes_id: vec![id(1, 0)], option: NodeOption::root() };
    let states = request.realize(vec![Some(facts("one")), None, Some(facts("x"))]).unwrap();
    assert_eq!(states.len(), 1);
    assert_eq!(states[0].id, id(1, 0));
}

#[test]
fn attribute_is_added_to_a_node_that_exists() {
    let info = AttributeInfo {
        node_id: id(1, 0),
        name: "seen".to_string(),
        value: 12u64,
        description: Some("times seen".to_string()),
    };
    assert_eq!(
        attribute(info.clone(), true),
        Some(Attribute {
            name: "seen".to_string(),
            value: 12u64,
            description: Some("times seen".to_string()),
        })
    );
    assert_eq!(attribute(info, false), None);
    let bare =
        AttributeInfo { node_id: id(1, 0), name: "a.b".to_string(), value: (), description: None };
    assert_eq!(
        attribute(bare, true),
        Some(Attribute { name: "a.b".to_string(), value: (), description: None })
    );
}
