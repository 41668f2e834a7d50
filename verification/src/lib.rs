//! Verified core logic of the Nana UI runtime: stable identities, the
//! component tag registry, committed text editing and its line geometry,
//! calendar date arithmetic and heatmap grids, the attribute grammars that
//! builtin components read, and the bookkeeping of breadcrumbs, command
//! palettes and paint recordings.

pub mod ids;
pub mod component_animation_kinds;
pub mod text;
pub mod error;
pub mod registry;
pub mod descriptors;
pub mod text_input;
pub mod number_text;
pub mod calendar_dates;
pub mod calendar_grid;
pub mod color_hex;
pub mod template;
pub mod qr_modules;
pub mod fixtures;
pub mod breadcrumb_nodes;
pub mod palette;
pub mod paint_nesting;
pub mod types;
pub mod listeners;
pub mod attributes;
pub mod semantic;
pub mod json_value;
pub mod dock;
pub mod tree_nodes;
