# nana_ui_runtime

The logic of a retained-mode UI runtime, written in Verus. Verus checks
every function in `src/`; the public ones state what they return or change
in `ensures` clauses, and the few calls into `std` and `unicode-segmentation`
that Verus cannot read sit behind small wrappers whose contracts are trusted.

- `ids`, `registry`, `descriptors`: stable node and animation identities, the
  component tag registry and the builtin component table.
- `text`, `number_text`, `template`: character classes, trimming, case
  folding, decimal formatting and placeholder substitution.
- `text_input`: committed text, selections, edits and explicit line spans.
- `calendar_dates`, `calendar_grid`: proleptic Gregorian day numbers and the
  week-column grid of a calendar heatmap.
- `semantic`, `attributes`, `qr_modules`, `color_hex`: what builtin
  components read from markup attributes.
- `breadcrumb_nodes`, `palette`, `paint_nesting`, `listeners`: bookkeeping of
  breadcrumb children, palette navigation and items, clip/layer nesting and
  event listener sets.
- `json_value`, `dock`, `tree_nodes`: JSON attribute values and what the
  dock layout, the tree view and the command palette read from them.
- `fixtures`: deterministic benchmark inputs.

`app/` holds the floating-point parts (heatmap geometry, level bucketing,
heatmap options and split ratios read from JSON, colour channel conversion)
and turns attribute text into JSON values with serde_json. `tests/` runs the
library on concrete values.
