use nana_ui_runtime::attributes::{region_id_from_token, RegionId};
use nana_ui_runtime::breadcrumb_nodes::{activation_event, breadcrumb_children, trim_breadcrumb_nodes};
use nana_ui_runtime::ids::StableNodeId;
use nana_ui_runtime::types::{BreadcrumbEvent, BreadcrumbItem, BreadcrumbTone};

fn node(value: u64) -> StableNodeId {
    StableNodeId::new(value).unwrap()
}

#[test]
fn shrinking_parks_surplus_segments_then_separators() {
    let mut segments = vec![node(1), node(2), node(3)];
    let mut separators = vec![node(11), node(12)];
    let removed = trim_breadcrumb_nodes(&mut segments, &mut separators, 1);
    assert_eq!(segments, vec![node(1)]);
    assert!(separators.is_empty());
    assert_eq!(removed, vec![node(2), node(3), node(11), node(12)]);

    let mut segments = vec![node(1)];
    let mut separators = vec![];
    let removed = trim_breadcrumb_nodes(&mut segments, &mut separators, 3);
    assert_eq!(segments, vec![node(1)]);
    assert!(removed.is_empty());

    let mut segments = vec![node(1), node(2)];
    let mut separators = vec![node(11)];
    let removed = trim_breadcrumb_nodes(&mut segments, &mut separators, 0);
    assert!(segments.is_empty() && separators.is_empty());
    assert_eq!(removed, vec![node(1), node(2), node(11)]);
}

#[test]
fn children_alternate_segments_and_separators() {
    let children = breadcrumb_children(&[node(1), node(2), node(3)], &[node(11), node(12)]);
    assert_eq!(children, vec![node(1), node(11), node(2), node(12), node(3)]);
    assert_eq!(breadcrumb_children(&[node(1)], &[]), vec![node(1)]);
    assert!(breadcrumb_children(&[], &[node(11)]).is_empty());
}

#[test]
fn only_interactive_segments_activate() {
    assert_eq!(activation_event(true, 2), Some(BreadcrumbEvent { index: 2 }));
    assert_eq!(activation_event(false, 2), None);
}

#[test]
fn breadcrumb_items_build_with_tone_and_interaction() {
    let item = BreadcrumbItem::new("Docs".to_string());
    assert_eq!(item.tone, BreadcrumbTone::Current);
    assert!(!item.interactive);
    let parent = item.tone(BreadcrumbTone::Parent).interactive(true);
    assert_eq!(parent.label, "Docs");
    assert_eq!(parent.tone, BreadcrumbTone::Parent);
    assert!(parent.interactive);
}

#[test]
fn region_tokens_name_builtin_or_custom_regions() {
    assert_eq!(region_id_from_token(" region-sidebar "), Some(RegionId::Resources));
    assert_eq!(region_id_from_token("region-region-main"), Some(RegionId::Primary));
    assert_eq!(region_id_from_token("console"), Some(RegionId::Diagnostics));
    assert_eq!(region_id_from_token("global"), Some(RegionId::GlobalNavigation));
    assert_eq!(
        region_id_from_token("Main"),
        Some(RegionId::Custom("Main".to_string()))
    );
    assert_eq!(region_id_from_token("  "), None);
    assert_eq!(region_id_from_token("region-"), None);
}
