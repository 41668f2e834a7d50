use nana_ui_runtime::attributes::{
    attr_u16, flag_attr, highlight_language_from_spec, markdown_source_from_spec, parse_control_position, parse_dock_axis, parse_flag, parse_graph_port_kind,
    parse_graph_port_side, parse_scroll_axes, parse_scrollbar_visibility, parse_sidebar_row_state,
    parse_sidebar_row_tone, parse_split_axis, parse_tristate_attr, parse_validation_intent,
    textarea_placeholder, truthy_attr, validation_intent_from_spec, DockAxis, GraphPortKind,
    GraphPortSide, ScrollAxes, ScrollbarVisibility, SidebarRowState, SidebarRowTone, SplitAxis,
    SwitchControlPosition, ValidationIntent,
};
use nana_ui_runtime::ids::StableNodeId;
use nana_ui_runtime::registry::ComponentTypeId;
use nana_ui_runtime::semantic::SemanticSpec;

#[test]
fn slot_matches_case_insensitive_name() {
    let type_id = ComponentTypeId::new("nana.list-item").unwrap();
    let leading = StableNodeId::new(7).unwrap();
    let slots = [("Leading", leading)];
    let spec = SemanticSpec {
        slots: &slots,
        ..SemanticSpec::from_parts(&type_id)
    };
    assert_eq!(spec.slot("leading"), Some(leading));
    assert_eq!(spec.slot("LEADING"), Some(leading));
    assert_eq!(spec.slot("content"), None);
    assert_eq!(SemanticSpec::from_parts(&type_id).slot("leading"), None);
}

#[test]
fn attr_lookup_ignores_case_and_first_match_wins() {
    let type_id = ComponentTypeId::new("nana.stack").unwrap();
    let attrs = [("Axis", "x"), ("axis", "y"), ("data-tone", "warn")];
    let spec = SemanticSpec {
        attrs: &attrs,
        ..SemanticSpec::from_parts(&type_id)
    };
    assert_eq!(spec.attr("AXIS"), Some("x"));
    assert_eq!(spec.attr("missing"), None);
    assert_eq!(spec.first_attr(&["tone", "data-tone"]), Some("warn"));
    assert_eq!(spec.first_attr(&[]), None);
}

#[test]
fn display_label_falls_back_to_value() {
    let type_id = ComponentTypeId::new("nana.button").unwrap();
    let spec = SemanticSpec {
        value: "Save",
        ..SemanticSpec::from_parts(&type_id)
    };
    assert_eq!(spec.display_label(), "Save");
    let labelled = SemanticSpec {
        label: "Store",
        ..spec
    };
    assert_eq!(labelled.display_label(), "Store");
}

#[test]
fn flags_follow_html_boolean_attributes() {
    assert!(!parse_flag(None));
    assert!(parse_flag(Some("")));
    assert!(parse_flag(Some("  ")));
    assert!(parse_flag(Some("yes")));
    assert!(!parse_flag(Some(" OFF ")));
    assert!(!parse_flag(Some("No")));
    assert!(!parse_flag(Some("0")));
    assert!(truthy_attr("true"));
    assert!(truthy_attr(""));
    assert!(!truthy_attr(" FALSE "));
    assert!(!truthy_attr("0"));
    assert!(truthy_attr("no"));
}

#[test]
fn flag_and_tristate_read_the_first_present_name() {
    let type_id = ComponentTypeId::new("nana.list-item").unwrap();
    let attrs = [("firstInGroup", "false"), ("expanded", "Yes"), ("depth", " 12 ")];
    let spec = SemanticSpec {
        attrs: &attrs,
        ..SemanticSpec::from_parts(&type_id)
    };
    assert!(!flag_attr(&spec, &["first-in-group", "firstInGroup", "first"]));
    assert!(!flag_attr(&spec, &["compact"]));
    assert_eq!(parse_tristate_attr(&spec, &["expanded", "data-expanded"]), Some(true));
    assert_eq!(parse_tristate_attr(&spec, &["window-controls"]), None);
    assert_eq!(attr_u16(&spec, &["depth", "data-depth", "indent"]), Some(12));
    let big = [("depth", "70000")];
    let spec = SemanticSpec {
        attrs: &big,
        ..SemanticSpec::from_parts(&type_id)
    };
    assert_eq!(attr_u16(&spec, &["depth"]), None);
}

#[test]
fn scroll_and_sidebar_keywords() {
    let type_id = ComponentTypeId::new("nana.scroll-view").unwrap();
    let attrs = [("direction", " Row "), ("scrollbar", "OFF"), ("data-state", "ancestor-active")];
    let spec = SemanticSpec {
        attrs: &attrs,
        ..SemanticSpec::from_parts(&type_id)
    };
    assert_eq!(parse_scroll_axes(&spec), ScrollAxes::Horizontal);
    assert_eq!(parse_scrollbar_visibility(&spec), ScrollbarVisibility::Hidden);
    assert_eq!(parse_sidebar_row_state(&spec), SidebarRowState::AncestorActive);
    assert_eq!(parse_sidebar_row_tone(&spec), SidebarRowTone::Default);
    let plain = SemanticSpec::from_parts(&type_id);
    assert_eq!(parse_scroll_axes(&plain), ScrollAxes::Vertical);
    assert_eq!(parse_scrollbar_visibility(&plain), ScrollbarVisibility::AutoHide);
    assert_eq!(parse_sidebar_row_state(&plain), SidebarRowState::Idle);
    let active = SemanticSpec {
        active: true,
        ..plain
    };
    assert_eq!(parse_sidebar_row_state(&active), SidebarRowState::Active);
    let disabled = SemanticSpec {
        disabled: true,
        ..spec
    };
    assert_eq!(parse_sidebar_row_state(&disabled), SidebarRowState::Disabled);
    let tones = [("tone", "Danger")];
    let toned = SemanticSpec {
        attrs: &tones,
        ..plain
    };
    assert_eq!(parse_sidebar_row_tone(&toned), SidebarRowTone::Error);
}

#[test]
fn validation_intent_and_placeholder() {
    let type_id = ComponentTypeId::new("nana.textarea").unwrap();
    let attrs = [("data-intent", "error")];
    let spec = SemanticSpec {
        attrs: &attrs,
        hint: "Describe",
        ..SemanticSpec::from_parts(&type_id)
    };
    assert_eq!(validation_intent_from_spec(&spec), ValidationIntent::Danger);
    assert_eq!(textarea_placeholder(&spec), "Describe");
    let invalid = SemanticSpec {
        invalid: true,
        ..SemanticSpec::from_parts(&type_id)
    };
    assert_eq!(validation_intent_from_spec(&invalid), ValidationIntent::Danger);
    assert_eq!(
        validation_intent_from_spec(&SemanticSpec::from_parts(&type_id)),
        ValidationIntent::Warning
    );
    assert_eq!(parse_validation_intent(Some("Danger")), ValidationIntent::Danger);
    let with_placeholder = SemanticSpec {
        placeholder: "Type here",
        ..spec
    };
    assert_eq!(textarea_placeholder(&with_placeholder), "Type here");
}

#[test]
fn axes_and_ports() {
    assert_eq!(parse_split_axis(Some(" \"Vertical\" ")), SplitAxis::Vertical);
    assert_eq!(parse_split_axis(Some("column")), SplitAxis::Vertical);
    assert_eq!(parse_split_axis(Some("\"\"")), SplitAxis::Horizontal);
    assert_eq!(parse_split_axis(None), SplitAxis::Horizontal);
    assert_eq!(parse_dock_axis(" Y "), DockAxis::Vertical);
    assert_eq!(parse_dock_axis("row"), DockAxis::Horizontal);
    assert_eq!(parse_graph_port_kind("IN"), GraphPortKind::Input);
    assert_eq!(parse_graph_port_kind("inout"), GraphPortKind::Bidirectional);
    assert_eq!(parse_graph_port_kind("anything"), GraphPortKind::Output);
    assert_eq!(parse_graph_port_side("", GraphPortKind::Input), GraphPortSide::Left);
    assert_eq!(parse_graph_port_side("", GraphPortKind::Output), GraphPortSide::Right);
    assert_eq!(parse_graph_port_side(" Top", GraphPortKind::Input), GraphPortSide::Top);
    assert_eq!(parse_control_position(Some("LEFT")), SwitchControlPosition::Start);
    assert_eq!(parse_control_position(None), SwitchControlPosition::End);
}

#[test]
fn markdown_source_reads_source_attr_when_value_is_blank() {
    let type_id = ComponentTypeId::new("nana.native-markdown").unwrap();
    let attrs = [("source", "  # Native  ")];
    let spec = SemanticSpec {
        attrs: &attrs,
        value: "   ",
        ..SemanticSpec::from_parts(&type_id)
    };
    assert_eq!(markdown_source_from_spec(&spec), "# Native");
    let valued = SemanticSpec {
        value: "  body ",
        ..spec
    };
    assert_eq!(markdown_source_from_spec(&valued), "  body ");
    assert_eq!(markdown_source_from_spec(&SemanticSpec::from_parts(&type_id)), "");
}

#[test]
fn highlight_language_is_trimmed_and_never_blank() {
    let type_id = ComponentTypeId::new("nana.code").unwrap();
    let attrs = [("Lang", " rust ")];
    let spec = SemanticSpec {
        attrs: &attrs,
        ..SemanticSpec::from_parts(&type_id)
    };
    assert_eq!(highlight_language_from_spec(&spec), Some("rust"));
    let blank = [("language", "  "), ("syntax", "toml")];
    let spec = SemanticSpec {
        attrs: &blank,
        ..SemanticSpec::from_parts(&type_id)
    };
    assert_eq!(highlight_language_from_spec(&spec), None);
}

#[test]
fn split_pane_attributes_read_axis_and_slots() {
    let type_id = ComponentTypeId::new("nana.split-pane").unwrap();
    let first = StableNodeId::new(4).unwrap();
    let second = StableNodeId::new(5).unwrap();
    let slots = [("first", first), ("second", second)];
    let attrs = [("axis", "vertical"), ("size", "320")];
    let spec = SemanticSpec {
        attrs: &attrs,
        slots: &slots,
        ..SemanticSpec::from_parts(&type_id)
    };
    assert_eq!(spec.slot("first"), Some(first));
    assert_eq!(spec.slot("second"), Some(second));
    assert_eq!(parse_split_axis(spec.attr("axis")), SplitAxis::Vertical);
}
