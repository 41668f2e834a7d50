use nana_ui_runtime::listeners::EventListeners;

#[test]
fn listeners_come_out_in_increasing_order_once_each() {
    let mut listeners = EventListeners::new();
    assert!(listeners.is_empty());
    listeners.set("pointerdown".to_string(), true);
    listeners.set("click".to_string(), true);
    listeners.set("keydown".to_string(), true);
    listeners.set("click".to_string(), true);
    assert_eq!(listeners.iter(), vec!["click", "keydown", "pointerdown"]);
    assert!(listeners.contains("keydown"));
    assert!(!listeners.contains("keyup"));
    listeners.set("keydown".to_string(), false);
    listeners.set("keyup".to_string(), false);
    assert_eq!(listeners.iter(), vec!["click", "pointerdown"]);
    assert!(!listeners.contains("keydown"));
}

#[test]
fn default_and_cloned_listeners_keep_their_names() {
    let empty = EventListeners::default();
    assert!(empty.is_empty());
    assert!(!empty.contains("click"));
    let mut listeners = EventListeners::new();
    listeners.set("wheel".to_string(), true);
    listeners.set("blur".to_string(), true);
    let copy = listeners.clone();
    assert_eq!(copy.iter(), vec!["blur", "wheel"]);
    assert_eq!(copy, listeners);
}
