use nana_ui_runtime::json_value::JsonValue;
use nana_ui_runtime::palette::{
    command_palette_item_from_value, command_palette_items_from_value, navigate_selection,
    window_start, CommandPaletteItem, PaletteAction, PaletteNavigation,
};

#[test]
fn navigation_moves_within_visible_rows() {
    let mut selected = 0;
    assert_eq!(
        navigate_selection(&mut selected, 3, PaletteNavigation::Next),
        Some(PaletteAction::Navigate(PaletteNavigation::Next))
    );
    assert_eq!(selected, 1);
    navigate_selection(&mut selected, 3, PaletteNavigation::Next);
    navigate_selection(&mut selected, 3, PaletteNavigation::Next);
    assert_eq!(selected, 2);
    navigate_selection(&mut selected, 3, PaletteNavigation::First);
    assert_eq!(selected, 0);
    navigate_selection(&mut selected, 3, PaletteNavigation::Previous);
    assert_eq!(selected, 0);
    navigate_selection(&mut selected, 3, PaletteNavigation::Last);
    assert_eq!(selected, 2);
    assert_eq!(navigate_selection(&mut selected, 0, PaletteNavigation::Next), None);
    assert_eq!(selected, 2);
    assert_eq!(
        navigate_selection(&mut selected, 0, PaletteNavigation::Dismiss),
        Some(PaletteAction::Dismiss)
    );
    assert_eq!(
        navigate_selection(&mut selected, 3, PaletteNavigation::Confirm),
        Some(PaletteAction::Confirm)
    );
    assert_eq!(selected, 2);
    assert_eq!(navigate_selection(&mut selected, 0, PaletteNavigation::Confirm), None);
    assert_eq!(navigate_selection(&mut selected, 2, PaletteNavigation::Confirm), None);
    assert_eq!(selected, 2);
}

#[test]
fn window_keeps_the_highlight_in_view() {
    assert_eq!(window_start(5, 4), 0);
    assert_eq!(window_start(30, 3), 0);
    assert_eq!(window_start(30, 10), 4);
    assert_eq!(window_start(30, 29), 18);
    assert_eq!(window_start(12, 11), 0);
}

fn member(key: &str, value: &str) -> (String, JsonValue) {
    (key.to_string(), JsonValue::Text(value.to_string()))
}

#[test]
fn palette_items_read_actions_labels_and_extras() {
    let full = JsonValue::Object(vec![
        member("Label", "Open file"),
        member("action", "open"),
        member("group", "File"),
        ("keys".to_string(), JsonValue::Number("5".to_string())),
    ]);
    assert_eq!(
        command_palette_item_from_value(&full),
        Some(CommandPaletteItem {
            action: "open".to_string(),
            label: "Open file".to_string(),
            category: Some("File".to_string()),
            shortcut: Some("5".to_string()),
        })
    );
    let label_only = JsonValue::Object(vec![member("title", "Save")]);
    assert_eq!(
        command_palette_item_from_value(&label_only),
        Some(CommandPaletteItem {
            action: "Save".to_string(),
            label: "Save".to_string(),
            category: None,
            shortcut: None,
        })
    );
    assert_eq!(command_palette_item_from_value(&JsonValue::Object(vec![member("category", "x")])), None);
    assert_eq!(command_palette_item_from_value(&JsonValue::Text(String::new())), None);
    let list = JsonValue::Array(vec![
        JsonValue::Text("quit".to_string()),
        JsonValue::Null,
        label_only,
    ]);
    let items = command_palette_items_from_value(&list);
    assert_eq!(items.iter().map(|item| item.action.as_str()).collect::<Vec<_>>(), ["quit", "Save"]);
}
