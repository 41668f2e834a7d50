use nana_ui_runtime::dock::{
    dock_node_from_value, dock_root, dock_root_from_slots, DockAxis, DockNode, DockRatio,
};
use nana_ui_runtime::ids::StableNodeId;
use nana_ui_runtime::json_value::JsonValue;

fn text(s: &str) -> JsonValue {
    JsonValue::Text(s.to_string())
}

fn object(members: Vec<(&str, JsonValue)>) -> JsonValue {
    JsonValue::Object(members.into_iter().map(|(k, v)| (k.to_string(), v)).collect())
}

fn item(id: &str, content: Option<StableNodeId>) -> DockNode {
    DockNode::Item { id: id.to_string(), content }
}

#[test]
fn dock_slots_are_not_dummy_item() {
    let nav = StableNodeId::new(7).unwrap();
    let files = StableNodeId::new(8).unwrap();
    let slots = [("nav", Some(nav)), ("files", Some(files))];
    let dock = dock_root(None, &slots);
    assert_eq!(dock.flatten(), ["nav", "files"]);
    match dock {
        DockNode::Tabs { active, contents, .. } => {
            assert_eq!(active, "nav");
            assert_eq!(
                contents,
                vec![("nav".to_string(), Some(nav)), ("files".to_string(), Some(files))]
            );
        }
        other => panic!("expected one tab group, got {other:?}"),
    }
}

#[test]
fn dock_without_or_with_one_slot_is_a_single_item() {
    assert_eq!(dock_root_from_slots(&[]), item("dock", None));
    let main = StableNodeId::new(3).unwrap();
    assert_eq!(dock_root_from_slots(&[("main", Some(main))]), item("main", Some(main)));
    assert_eq!(dock_root_from_slots(&[("empty", None)]), item("empty", None));
}

#[test]
fn layout_json_builds_splits_tabs_and_items() {
    let nav = StableNodeId::new(1).unwrap();
    let editor = StableNodeId::new(2).unwrap();
    let slots = [("nav", None), ("nav", Some(nav)), ("editor", Some(editor))];
    let layout = object(vec![
        ("Axis", text(" Column ")),
        ("first", text("nav")),
        ("ratio", JsonValue::Number("0.25".to_string())),
        (
            "second",
            object(vec![
                ("active", text("")),
                ("tabs", JsonValue::Array(vec![text("editor"), object(vec![("KEY", text("log"))]), text("editor")])),
            ]),
        ),
    ]);
    let node = dock_node_from_value(&layout, &slots).unwrap();
    assert_eq!(
        node,
        DockNode::Split {
            axis: DockAxis::Vertical,
            ratio: DockRatio::Number("0.25".to_string()),
            first: Box::new(item("nav", Some(nav))),
            second: Box::new(DockNode::Tabs {
                tabs: vec!["editor".to_string(), "log".to_string()],
                active: "editor".to_string(),
                contents: vec![("editor".to_string(), Some(editor)), ("log".to_string(), None)],
            }),
        }
    );
    assert_eq!(node.flatten(), ["nav", "editor", "log"]);
}

#[test]
fn layout_json_refusals_fall_back_to_slots() {
    let slots = [("a", None), ("b", None)];
    assert_eq!(dock_node_from_value(&text(""), &slots), None);
    assert_eq!(dock_node_from_value(&JsonValue::Null, &slots), None);
    assert_eq!(dock_node_from_value(&object(vec![("first", text("a"))]), &slots), None);
    assert_eq!(dock_node_from_value(&object(vec![("tabs", JsonValue::Array(vec![]))]), &slots), None);
    assert_eq!(dock_node_from_value(&object(vec![("label", text("x"))]), &slots), None);
    assert_eq!(
        dock_node_from_value(&object(vec![("data-dock-id", JsonValue::Number("4".to_string()))]), &slots),
        Some(item("4", None))
    );
    let fallback = dock_root(Some(&JsonValue::Bool(true)), &slots);
    assert_eq!(fallback.flatten(), ["a", "b"]);
}

#[test]
fn layout_arrays_join_into_one_tab_group() {
    let slots: [(&str, Option<StableNodeId>); 0] = [];
    let joined = dock_node_from_value(
        &JsonValue::Array(vec![
            text("x"),
            JsonValue::Null,
            object(vec![("type", text("SPLIT")), ("first", text("y")), ("second", text("z"))]),
        ]),
        &slots,
    )
    .unwrap();
    assert_eq!(
        joined,
        DockNode::Tabs {
            tabs: vec!["x".to_string(), "y".to_string(), "z".to_string()],
            active: "x".to_string(),
            contents: vec![("x".to_string(), None), ("y".to_string(), None), ("z".to_string(), None)],
        }
    );
    assert_eq!(
        dock_node_from_value(&JsonValue::Array(vec![text("solo")]), &slots),
        Some(item("solo", None))
    );
    let indexed = object(vec![
        ("tabs", object(vec![("1", text("second")), ("0", text("first")), ("x", text("no"))])),
    ]);
    assert_eq!(
        dock_node_from_value(&indexed, &slots).unwrap().flatten(),
        ["first", "second"]
    );
}
