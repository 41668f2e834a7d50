use std::hash::Hasher;
use nana_ui_runtime::component_animation_kinds;
use nana_ui_runtime::ids::{component_animation_id, AnimationId, StableNodeId};

#[test]
fn component_animation_ids_are_stable_and_split_by_kind() {
    let node_a = StableNodeId::new(7).unwrap();
    let node_b = StableNodeId::new(8).unwrap();
    let skeleton = component_animation_id(component_animation_kinds::SKELETON, node_a);
    assert_eq!(
        skeleton,
        component_animation_id(component_animation_kinds::SKELETON, node_a),
        "re-deriving the same pair must address the same timeline"
    );
    assert_ne!(
        skeleton,
        component_animation_id(component_animation_kinds::SKELETON, node_b)
    );
    let other_kind = component_animation_id(component_animation_kinds::SKELETON + 1, node_a);
    assert_ne!(
        skeleton, other_kind,
        "another component kind on the same node needs its own namespace"
    );
    let skeleton = skeleton.unwrap();
    assert_ne!(
        Some(skeleton),
        AnimationId::new(node_a.get()),
        "hashed IDs must not land in the raw node-ID namespace"
    );
}

#[test]
fn zero_ids_are_rejected() {
    assert!(AnimationId::new(0).is_none());
    assert!(StableNodeId::new(0).is_none());
    assert_eq!(AnimationId::new(42).unwrap().get(), 42);
    assert_eq!(StableNodeId::new(9).unwrap().get(), 9);
}

#[test]
fn animation_ids_compare_as_their_raw_values() {
    let low = AnimationId::new(3).unwrap();
    let high = AnimationId::new(5).unwrap();
    assert!(low < high);
    assert!(high > low);
    assert_eq!(low.cmp(&high), std::cmp::Ordering::Less);
    assert_eq!(low.partial_cmp(&AnimationId::new(3).unwrap()), Some(std::cmp::Ordering::Equal));
    assert_eq!(low, AnimationId::new(3).unwrap());
    let mut ids = vec![high, low, AnimationId::new(4).unwrap()];
    ids.sort();
    assert_eq!(ids.iter().map(|id| id.get()).collect::<Vec<_>>(), vec![3, 4, 5]);
}

#[test]
fn component_animation_id_is_the_hash_of_both_words() {
    let node = StableNodeId::new(7).unwrap();
    let mut hasher = std::collections::hash_map::DefaultHasher::new();
    hasher.write_u64(component_animation_kinds::HOVER);
    hasher.write_u64(7);
    assert_eq!(
        component_animation_id(component_animation_kinds::HOVER, node),
        AnimationId::new(hasher.finish())
    );
}
