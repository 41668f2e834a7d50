use nana_ui_runtime::json_value::JsonValue;
use nana_ui_runtime::tree_nodes::{tree_node_from_value, tree_nodes_from_value, TreeItem};

fn text(s: &str) -> JsonValue {
    JsonValue::Text(s.to_string())
}

fn number(s: &str) -> JsonValue {
    JsonValue::Number(s.to_string())
}

fn object(members: Vec<(&str, JsonValue)>) -> JsonValue {
    JsonValue::Object(members.into_iter().map(|(k, v)| (k.to_string(), v)).collect())
}

fn leaf(id: &str, label: &str) -> TreeItem {
    TreeItem::Leaf { id: id.to_string(), label: label.to_string(), selected: false, disabled: false, icon: None }
}

#[test]
fn tree_nodes_read_identity_label_flags_and_children() {
    let value = object(vec![
        ("id", text("src")),
        ("Label", text("Sources")),
        ("expanded", number("1")),
        ("selected", text("FALSE")),
        ("disabled", JsonValue::Array(vec![])),
        ("icon", text("folder")),
        (
            "children",
            JsonValue::Array(vec![
                text("main.rs"),
                JsonValue::Null,
                object(vec![("title", text("lib.rs")), ("selected", number("0.0"))]),
                object(vec![("icon", text("x"))]),
            ]),
        ),
    ]);
    assert_eq!(
        tree_node_from_value(&value),
        Some(TreeItem::Branch {
            id: "src".to_string(),
            label: "Sources".to_string(),
            expanded: true,
            children: vec![leaf("main.rs", "main.rs"), leaf("lib.rs", "lib.rs")],
            selected: false,
            disabled: true,
            icon: Some("folder".to_string()),
        })
    );
}

#[test]
fn tree_nodes_without_children_are_leaves() {
    let value = object(vec![
        ("value", text("a")),
        ("expanded", JsonValue::Bool(true)),
        ("selected", number("-2e3")),
        ("children", JsonValue::Array(vec![JsonValue::Bool(true)])),
    ]);
    assert_eq!(
        tree_node_from_value(&value),
        Some(TreeItem::Leaf { id: "a".to_string(), label: "a".to_string(), selected: true, disabled: false, icon: None })
    );
    assert_eq!(tree_node_from_value(&text("")), None);
    assert_eq!(tree_node_from_value(&object(vec![("icon", text("x"))])), None);
    assert_eq!(tree_node_from_value(&number("3")), None);
}

#[test]
fn tree_node_lists_read_arrays_and_index_keyed_objects() {
    let listed = object(vec![("2", text("c")), ("0", text("a")), ("name", text("skip")), ("1", text("b"))]);
    assert_eq!(
        tree_nodes_from_value(&listed),
        vec![leaf("a", "a"), leaf("b", "b"), leaf("c", "c")]
    );
    assert_eq!(tree_nodes_from_value(&text("a")), Vec::<TreeItem>::new());
    assert_eq!(
        tree_nodes_from_value(&JsonValue::Array(vec![text("x"), text("")])),
        vec![leaf("x", "x")]
    );
}
