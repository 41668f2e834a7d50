use nana_ui_runtime::descriptors::{builtin_component, builtin_components};
use nana_ui_runtime::error::FrameworkError;
use nana_ui_runtime::registry::{normalize_tag, ComponentRegistry, ComponentTypeId};

fn builtin() -> ComponentRegistry {
    ComponentRegistry::builtin().expect("builtin registry installs")
}

#[test]
fn type_id_rejects_empty() {
    assert_eq!(
        ComponentTypeId::new("  ").unwrap_err(),
        FrameworkError::InvalidComponentType
    );
}

#[test]
fn tags_normalize_nana_prefix() {
    assert_eq!(normalize_tag("nana-button"), "button");
    assert_eq!(normalize_tag("Button"), "button");
}

#[test]
fn declarations_match_installed_component_registry() {
    let registry = builtin();
    for descriptor in builtin_components() {
        for tag in descriptor.tags {
            assert_eq!(
                registry.resolve_tag(tag).map(ComponentTypeId::as_str),
                descriptor.compiled.then_some(descriptor.type_id),
                "{tag}"
            );
        }
    }
}

#[test]
fn icon_and_icon_button_tags_do_not_collide() {
    let registry = builtin();
    assert_eq!(
        registry.resolve_tag("icon").map(ComponentTypeId::as_str),
        Some("nana.icon")
    );
    assert_eq!(
        registry.resolve_tag("nana-icon").map(ComponentTypeId::as_str),
        Some("nana.icon")
    );
    assert_eq!(
        registry.resolve_tag("icon-button").map(ComponentTypeId::as_str),
        Some("nana.icon-button")
    );
    assert!(registry.resolve_tag("svg").is_none());
}

#[test]
fn video_tag_resolves_to_single_video_component() {
    let registry = builtin();
    assert_eq!(
        registry.resolve_tag("video").map(ComponentTypeId::as_str),
        Some("nana.video"),
        "HTML <video> is the same-name Runtime control tag"
    );
    assert_eq!(
        registry.resolve_tag("nana-video").map(ComponentTypeId::as_str),
        Some("nana.video")
    );
}

#[test]
fn stack_tags_resolve_to_stack_and_aliases() {
    let registry = builtin();
    assert_eq!(
        registry.resolve_tag("stack").map(ComponentTypeId::as_str),
        Some("nana.stack")
    );
    assert_eq!(
        registry.resolve_tag("column").map(ComponentTypeId::as_str),
        Some("nana.column")
    );
    assert!(
        registry.resolve_tag("div").is_none(),
        "HTML div stays a layout box; the column alias owns `column`"
    );
    assert_eq!(
        registry.resolve_tag("row").map(ComponentTypeId::as_str),
        Some("nana.row")
    );
    assert_eq!(
        registry.resolve_tag("box").map(ComponentTypeId::as_str),
        Some("nana.box")
    );
}

#[test]
fn type_id_is_trimmed() {
    let id = ComponentTypeId::new("  nana.list-item \t").unwrap();
    assert_eq!(id.as_str(), "nana.list-item");
}

#[test]
fn normalize_tag_trims_and_strips_repeated_prefixes() {
    assert_eq!(normalize_tag("  nana-nana-Dock\n"), "dock");
    assert_eq!(normalize_tag("NANA-x"), "nana-x");
    assert_eq!(normalize_tag("\u{3000}Icon\u{a0}"), "icon");
    assert_eq!(normalize_tag("nana-"), "");
}

#[test]
fn duplicate_tags_and_types_are_refused_without_change() {
    let mut registry = ComponentRegistry::new();
    let card = ComponentTypeId::new("app.card").unwrap();
    registry
        .insert_with_tags(card.clone(), vec!["card".to_string(), "".to_string()])
        .unwrap();
    assert_eq!(
        registry.insert_with_tags(
            ComponentTypeId::new("app.other").unwrap(),
            vec!["other".to_string(), "card".to_string()]
        ),
        Err(FrameworkError::DuplicateComponentTag("card".to_string()))
    );
    assert!(registry.resolve_tag("other").is_none());
    assert_eq!(
        registry.insert_with_tags(card.clone(), vec!["fresh".to_string()]),
        Err(FrameworkError::DuplicateComponentType("app.card".to_string()))
    );
    assert!(registry.resolve_tag("fresh").is_none());
    assert_eq!(
        registry.resolve_normalized("card").map(ComponentTypeId::as_str),
        Some("app.card")
    );
    assert!(registry.contains_type(&card));
}

#[test]
fn builtin_component_finds_declared_tags_and_ids() {
    assert_eq!(
        builtin_component("nana-icon").map(|d| d.type_id),
        Some("nana.icon")
    );
    assert_eq!(builtin_component("i").map(|d| d.type_id), Some("nana.icon"));
    assert_eq!(
        builtin_component("nana.calendar-heatmap").map(|d| d.required_feature),
        Some(Some("calendar"))
    );
    assert!(builtin_component("div").is_none());
}


#[test]
fn extend_merges_disjoint_registries_and_refuses_overlaps() {
    let mut base = ComponentRegistry::new();
    base.insert_with_tags(ComponentTypeId::new("app.card").unwrap(), vec!["card".to_string()])
        .unwrap();
    let mut plugin = ComponentRegistry::new();
    plugin
        .insert_with_tags(ComponentTypeId::new("app.chart").unwrap(), vec!["chart".to_string()])
        .unwrap();
    base.extend(plugin).unwrap();
    assert_eq!(base.resolve_tag("chart").map(ComponentTypeId::as_str), Some("app.chart"));
    assert_eq!(base.resolve_tag("card").map(ComponentTypeId::as_str), Some("app.card"));

    let mut clash = ComponentRegistry::new();
    clash
        .insert_with_tags(ComponentTypeId::new("app.other").unwrap(), vec!["card".to_string()])
        .unwrap();
    assert_eq!(
        base.extend(clash).unwrap_err(),
        FrameworkError::DuplicateComponentTag("card".to_string())
    );
    let mut same_type = ComponentRegistry::new();
    same_type.insert(ComponentTypeId::new("app.card").unwrap()).unwrap();
    assert_eq!(
        base.extend(same_type).unwrap_err(),
        FrameworkError::DuplicateComponentType("app.card".to_string())
    );
    assert_eq!(base.resolve_tag("card").map(ComponentTypeId::as_str), Some("app.card"));
}

#[test]
fn type_id_text_round_trips() {
    let id = ComponentTypeId::new("  app.user-card\n").unwrap();
    assert_eq!(id.as_str(), "app.user-card");
    assert_eq!(id.to_string(), "app.user-card");
    assert_eq!(ComponentTypeId::new(id.as_str()), Ok(id.clone()));
    assert_eq!(id.as_str(), id.as_str().trim());
}
