//! Component-kind tags for [`crate::ids::component_animation_id`]. Every
//! component family that starts its own timelines reserves one stable
//! non-zero constant here, so hashed IDs stay in per-component namespaces.
use vstd::prelude::*;

verus! {

/// Skeleton pulse timeline.
pub const SKELETON: u64 = 1;

pub const SWITCH: u64 = 2;

pub const HOVER: u64 = 3;

pub const SURFACE: u64 = 4;

/// Spinner rotation timeline.
pub const SPINNER: u64 = 5;

/// Menu / overlay pop transform (paired with [`SURFACE`] opacity).
pub const SURFACE_POP: u64 = 6;

/// Sidebar section height / progress.
pub const SIDEBAR: u64 = 7;

/// Workspace region collapse / expand.
pub const WORKSPACE: u64 = 8;

/// Button / switch / card loading indicator.
pub const LOADING: u64 = 9;

/// List-move compositor transform.
pub const FLIP: u64 = 10;

} // verus!
