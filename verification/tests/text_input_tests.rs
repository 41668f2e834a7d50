use nana_ui_runtime::text_input::{offset_is_boundary, TextInputState, TextSelection};

#[test]
fn new_puts_the_caret_at_the_end() {
    let state = TextInputState::new("héllo".to_string());
    assert_eq!(state.selection, TextSelection::caret(6));
}

#[test]
fn replace_selection_inserts_and_moves_the_caret() {
    let mut state = TextInputState::new("hello world".to_string());
    state.selection = TextSelection { anchor: 11, focus: 6 };
    assert!(state.replace_selection("there"));
    assert_eq!(state.value, "hello there");
    assert_eq!(state.selection, TextSelection::caret(11));
}

#[test]
fn replace_selection_refuses_a_selection_inside_a_character() {
    let mut state = TextInputState::new("é".to_string());
    state.selection = TextSelection::caret(1);
    assert!(!state.replace_selection("x"));
    assert_eq!(state.value, "é");
}

#[test]
fn selection_must_sit_on_grapheme_boundaries() {
    let value = "e\u{301}x";
    assert!(!TextSelection::caret(1).is_valid_for(value));
    assert!(TextSelection::caret(3).is_valid_for(value));
    assert!(TextSelection::caret(4).is_valid_for(value));
    assert!(!TextSelection::caret(5).is_valid_for(value));
}

#[test]
fn delete_surrounding_removes_bytes_around_the_selection() {
    let mut state = TextInputState::new("abcdef".to_string());
    state.selection = TextSelection::caret(3);
    assert!(state.delete_surrounding(1, 2));
    assert_eq!(state.value, "abf");
    assert_eq!(state.selection, TextSelection::caret(2));
    assert!(!state.delete_surrounding(5, 0));
    assert!(!state.delete_surrounding(0, 0));
    assert!(!state.delete_surrounding(0, usize::MAX));
    assert_eq!(state.value, "abf");
}

#[test]
fn replace_value_keeps_a_still_valid_selection() {
    let mut state = TextInputState::new("abcdef".to_string());
    state.selection = TextSelection { anchor: 1, focus: 2 };
    state.replace_value("xyz".to_string());
    assert_eq!(state.selection, TextSelection { anchor: 1, focus: 2 });
    state.replace_value("é".to_string());
    assert_eq!(state.selection, TextSelection::caret(2));
}

#[test]
fn synchronize_infers_the_caret_after_the_changed_span() {
    let mut state = TextInputState::new("hello world".to_string());
    state.synchronize_editor_value("hello brave world".to_string());
    assert_eq!(state.value, "hello brave world");
    assert_eq!(state.selection, TextSelection::caret(12));
    state.synchronize_editor_value("hello brave world".to_string());
    assert_eq!(state.selection, TextSelection::caret(12));
    state.synchronize_editor_value("héllo brave world".to_string());
    assert_eq!(state.selection, TextSelection::caret(3));
}

#[test]
fn ordered_puts_the_lower_end_first() {
    assert_eq!(TextSelection { anchor: 5, focus: 2 }.ordered(), 2..5);
    assert_eq!(TextSelection { anchor: 2, focus: 5 }.ordered(), 2..5);
}

#[test]
fn boundaries_are_the_end_and_the_cluster_starts() {
    let starts = [0usize, 1, 5];
    assert!(offset_is_boundary(&starts, 9, 9));
    assert!(offset_is_boundary(&starts, 9, 5));
    assert!(offset_is_boundary(&starts, 9, 0));
    assert!(!offset_is_boundary(&starts, 9, 3));
    assert!(!offset_is_boundary(&[], 0, 1));
}
