//! Builtin identity declarations shared by registration and capability queries.
//! These are metadata only; the registry remains the sole resolution table.
use vstd::prelude::*;

use crate::error::FrameworkError;
use crate::registry::{
    ComponentRegistry, ComponentTypeId, first_taken_tag, lemma_with_tags_lookup,
    normalized_nonblank, normalized_tag, normalized_tags, with_tags,
};
use crate::text::{chars_eq, chars_of, trim_seq};

verus! {

/// Metadata of one builtin component: its type identity, the markup tags that
/// name it, and the optional cargo feature it belongs to.
#[derive(Debug, Clone, Copy, PartialEq, Eq)]
pub struct ComponentDescriptor {
    pub type_id: &'static str,
    pub tags: &'static [&'static str],
    pub required_feature: Option<&'static str>,
    pub compiled: bool,
}

/// The declared builtin components, in declaration order.
pub open spec fn descriptor_table() -> Seq<ComponentDescriptor> {
    seq![
        ComponentDescriptor { type_id: "nana.stack", tags: &["stack"], required_feature: None, compiled: true },
        ComponentDescriptor { type_id: "nana.text", tags: &["text"], required_feature: None, compiled: true },
        ComponentDescriptor { type_id: "nana.button", tags: &["button"], required_feature: None, compiled: true },
        ComponentDescriptor { type_id: "nana.icon-button", tags: &["icon-button"], required_feature: None, compiled: true },
        ComponentDescriptor { type_id: "nana.icon", tags: &["icon", "i"], required_feature: None, compiled: true },
        ComponentDescriptor { type_id: "nana.checkbox", tags: &["checkbox"], required_feature: None, compiled: true },
        ComponentDescriptor { type_id: "nana.divider", tags: &["divider"], required_feature: None, compiled: true },
        ComponentDescriptor { type_id: "nana.number-input", tags: &["number-input"], required_feature: None, compiled: true },
        ComponentDescriptor { type_id: "nana.switch", tags: &["switch"], required_feature: None, compiled: true },
        ComponentDescriptor { type_id: "nana.card", tags: &["card"], required_feature: None, compiled: true },
        ComponentDescriptor { type_id: "nana.list-item", tags: &["list-item"], required_feature: None, compiled: true },
        ComponentDescriptor { type_id: "nana.thumbnail", tags: &["thumbnail"], required_feature: None, compiled: true },
        ComponentDescriptor { type_id: "nana.chip", tags: &["chip"], required_feature: None, compiled: true },
        ComponentDescriptor { type_id: "nana.avatar", tags: &["avatar"], required_feature: None, compiled: true },
        ComponentDescriptor { type_id: "nana.text-input", tags: &["text-input"], required_feature: None, compiled: true },
        ComponentDescriptor { type_id: "nana.textarea", tags: &["textarea"], required_feature: None, compiled: true },
        ComponentDescriptor { type_id: "nana.hosted-textarea", tags: &["hosted-textarea"], required_feature: None, compiled: true },
        ComponentDescriptor { type_id: "nana.range-field", tags: &["range-field"], required_feature: None, compiled: true },
        ComponentDescriptor { type_id: "nana.progress", tags: &["progress"], required_feature: None, compiled: true },
        ComponentDescriptor { type_id: "nana.spinner", tags: &["spinner"], required_feature: None, compiled: true },
        ComponentDescriptor { type_id: "nana.status-badge", tags: &["status-badge"], required_feature: None, compiled: true },
        ComponentDescriptor { type_id: "nana.validation-message", tags: &["validation-message"], required_feature: None, compiled: true },
        ComponentDescriptor { type_id: "nana.empty-state", tags: &["empty-state"], required_feature: None, compiled: true },
        ComponentDescriptor { type_id: "nana.labeled-value", tags: &["labeled-value"], required_feature: None, compiled: true },
        ComponentDescriptor { type_id: "nana.dialog", tags: &["dialog"], required_feature: None, compiled: true },
        ComponentDescriptor { type_id: "nana.confirm-dialog", tags: &["confirm-dialog"], required_feature: None, compiled: true },
        ComponentDescriptor { type_id: "nana.select", tags: &["select"], required_feature: None, compiled: true },
        ComponentDescriptor { type_id: "nana.tabs", tags: &["tabs"], required_feature: None, compiled: true },
        ComponentDescriptor { type_id: "nana.segmented", tags: &["segmented"], required_feature: None, compiled: true },
        ComponentDescriptor { type_id: "nana.dropdown", tags: &["dropdown"], required_feature: None, compiled: true },
        ComponentDescriptor { type_id: "nana.search-dropdown", tags: &["search-dropdown"], required_feature: None, compiled: true },
        ComponentDescriptor { type_id: "nana.panel", tags: &["panel"], required_feature: None, compiled: true },
        ComponentDescriptor { type_id: "nana.drawer", tags: &["drawer"], required_feature: None, compiled: true },
        ComponentDescriptor { type_id: "nana.popover", tags: &["popover"], required_feature: None, compiled: true },
        ComponentDescriptor { type_id: "nana.context-menu", tags: &["context-menu"], required_feature: None, compiled: true },
        ComponentDescriptor { type_id: "nana.toast", tags: &["toast"], required_feature: None, compiled: true },
        ComponentDescriptor { type_id: "nana.action-menu", tags: &["action-menu"], required_feature: None, compiled: true },
        ComponentDescriptor { type_id: "nana.action-menu-item", tags: &["action-menu-item"], required_feature: None, compiled: true },
        ComponentDescriptor { type_id: "nana.tooltip", tags: &["tooltip"], required_feature: None, compiled: true },
        ComponentDescriptor { type_id: "nana.xy-pad", tags: &["xy-pad"], required_feature: None, compiled: true },
        ComponentDescriptor { type_id: "nana.qr-code", tags: &["qr-code"], required_feature: None, compiled: true },
        ComponentDescriptor { type_id: "nana.form-field", tags: &["form-field"], required_feature: None, compiled: true },
        ComponentDescriptor { type_id: "nana.color-field", tags: &["color-field"], required_feature: None, compiled: true },
        ComponentDescriptor { type_id: "nana.path-field", tags: &["path-field"], required_feature: None, compiled: true },
        ComponentDescriptor { type_id: "nana.interactive-card", tags: &["interactive-card"], required_feature: None, compiled: true },
        ComponentDescriptor { type_id: "nana.skeleton", tags: &["skeleton"], required_feature: None, compiled: true },
        ComponentDescriptor { type_id: "nana.level-meter", tags: &["level-meter"], required_feature: None, compiled: true },
        ComponentDescriptor { type_id: "nana.command-palette", tags: &["command-palette"], required_feature: None, compiled: true },
        ComponentDescriptor { type_id: "nana.tree-view", tags: &["tree-view"], required_feature: None, compiled: true },
        ComponentDescriptor { type_id: "nana.calendar-heatmap", tags: &["calendar-heatmap"], required_feature: Some("calendar"), compiled: true },
        ComponentDescriptor { type_id: "nana.image-viewer", tags: &["image-viewer"], required_feature: Some("image-viewer"), compiled: true },
        ComponentDescriptor { type_id: "nana.native-markdown", tags: &["native-markdown"], required_feature: Some("rich-text"), compiled: true },
        ComponentDescriptor { type_id: "nana.graph-canvas", tags: &["graph-canvas"], required_feature: Some("graph-canvas"), compiled: true },
        ComponentDescriptor { type_id: "nana.workspace", tags: &["workspace"], required_feature: None, compiled: true },
        ComponentDescriptor { type_id: "nana.dock", tags: &["dock"], required_feature: None, compiled: true },
        ComponentDescriptor { type_id: "nana.split-pane", tags: &["split-pane"], required_feature: None, compiled: true },
        ComponentDescriptor { type_id: "nana.app-shell", tags: &["app-shell"], required_feature: None, compiled: true },
        ComponentDescriptor { type_id: "nana.sidebar-frame", tags: &["sidebar-frame"], required_feature: None, compiled: true },
        ComponentDescriptor { type_id: "nana.sidebar-row", tags: &["sidebar-row"], required_feature: None, compiled: true },
        ComponentDescriptor { type_id: "nana.settings-row", tags: &["settings-row"], required_feature: None, compiled: true },
        ComponentDescriptor { type_id: "nana.settings-card", tags: &["settings-card"], required_feature: None, compiled: true },
        ComponentDescriptor { type_id: "nana.settings-page", tags: &["settings-page"], required_feature: None, compiled: true },
        ComponentDescriptor { type_id: "nana.settings-collapsible-card", tags: &["settings-collapsible-card"], required_feature: None, compiled: true },
        ComponentDescriptor { type_id: "nana.list", tags: &["list"], required_feature: None, compiled: true },
        ComponentDescriptor { type_id: "nana.scroll-view", tags: &["scroll-view"], required_feature: None, compiled: true },
        ComponentDescriptor { type_id: "nana.table", tags: &["table"], required_feature: None, compiled: true },
        ComponentDescriptor { type_id: "nana.table-row", tags: &["tr"], required_feature: None, compiled: true },
        ComponentDescriptor { type_id: "nana.table-cell", tags: &["td"], required_feature: None, compiled: true },
        ComponentDescriptor { type_id: "nana.reorder-list", tags: &["reorder-list"], required_feature: Some("controls"), compiled: true },
        ComponentDescriptor { type_id: "nana.time-series-chart", tags: &["time-series-chart"], required_feature: Some("charts"), compiled: true },
        ComponentDescriptor { type_id: "nana.desktop-shell", tags: &["desktop-shell"], required_feature: None, compiled: true },
        ComponentDescriptor { type_id: "nana.app-title-bar", tags: &["app-title-bar"], required_feature: None, compiled: true },
        ComponentDescriptor { type_id: "nana.pane-chrome", tags: &["pane-chrome"], required_feature: None, compiled: true },
        ComponentDescriptor { type_id: "nana.sidebar-section", tags: &["sidebar-section"], required_feature: None, compiled: true },
        ComponentDescriptor { type_id: "nana.sidebar-footer", tags: &["sidebar-footer"], required_feature: None, compiled: true },
    ]
}

/// Layout aliases and host controls that the builtin installation registers
/// beside the declared components.
pub open spec fn alias_table() -> Seq<ComponentDescriptor> {
    seq![
        ComponentDescriptor { type_id: "nana.column", tags: &["column"], required_feature: None, compiled: true },
        ComponentDescriptor { type_id: "nana.row", tags: &["row"], required_feature: None, compiled: true },
        ComponentDescriptor { type_id: "nana.box", tags: &["box"], required_feature: None, compiled: true },
        ComponentDescriptor { type_id: "nana.video", tags: &["video"], required_feature: None, compiled: true },
    ]
}

/// The declared builtin components, in declaration order.
pub fn builtin_components() -> (v: Vec<ComponentDescriptor>)
    ensures
        v@ == descriptor_table(),
{
    let v = vec![
        ComponentDescriptor { type_id: "nana.stack", tags: &["stack"], required_feature: None, compiled: true },
        ComponentDescriptor { type_id: "nana.text", tags: &["text"], required_feature: None, compiled: true },
        ComponentDescriptor { type_id: "nana.button", tags: &["button"], required_feature: None, compiled: true },
        ComponentDescriptor { type_id: "nana.icon-button", tags: &["icon-button"], required_feature: None, compiled: true },
        ComponentDescriptor { type_id: "nana.icon", tags: &["icon", "i"], required_feature: None, compiled: true },
        ComponentDescriptor { type_id: "nana.checkbox", tags: &["checkbox"], required_feature: None, compiled: true },
        ComponentDescriptor { type_id: "nana.divider", tags: &["divider"], required_feature: None, compiled: true },
        ComponentDescriptor { type_id: "nana.number-input", tags: &["number-input"], required_feature: None, compiled: true },
        ComponentDescriptor { type_id: "nana.switch", tags: &["switch"], required_feature: None, compiled: true },
        ComponentDescriptor { type_id: "nana.card", tags: &["card"], required_feature: None, compiled: true },
        ComponentDescriptor { type_id: "nana.list-item", tags: &["list-item"], required_feature: None, compiled: true },
        ComponentDescriptor { type_id: "nana.thumbnail", tags: &["thumbnail"], required_feature: None, compiled: true },
        ComponentDescriptor { type_id: "nana.chip", tags: &["chip"], required_feature: None, compiled: true },
        ComponentDescriptor { type_id: "nana.avatar", tags: &["avatar"], required_feature: None, compiled: true },
        ComponentDescriptor { type_id: "nana.text-input", tags: &["text-input"], required_feature: None, compiled: true },
        ComponentDescriptor { type_id: "nana.textarea", tags: &["textarea"], required_feature: None, compiled: true },
        ComponentDescriptor { type_id: "nana.hosted-textarea", tags: &["hosted-textarea"], required_feature: None, compiled: true },
        ComponentDescriptor { type_id: "nana.range-field", tags: &["range-field"], required_feature: None, compiled: true },
        ComponentDescriptor { type_id: "nana.progress", tags: &["progress"], required_feature: None, compiled: true },
        ComponentDescriptor { type_id: "nana.spinner", tags: &["spinner"], required_feature: None, compiled: true },
        ComponentDescriptor { type_id: "nana.status-badge", tags: &["status-badge"], required_feature: None, compiled: true },
        ComponentDescriptor { type_id: "nana.validation-message", tags: &["validation-message"], required_feature: None, compiled: true },
        ComponentDescriptor { type_id: "nana.empty-state", tags: &["empty-state"], required_feature: None, compiled: true },
        ComponentDescriptor { type_id: "nana.labeled-value", tags: &["labeled-value"], required_feature: None, compiled: true },
        ComponentDescriptor { type_id: "nana.dialog", tags: &["dialog"], required_feature: None, compiled: true },
        ComponentDescriptor { type_id: "nana.confirm-dialog", tags: &["confirm-dialog"], required_feature: None, compiled: true },
        ComponentDescriptor { type_id: "nana.select", tags: &["select"], required_feature: None, compiled: true },
        ComponentDescriptor { type_id: "nana.tabs", tags: &["tabs"], required_feature: None, compiled: true },
        ComponentDescriptor { type_id: "nana.segmented", tags: &["segmented"], required_feature: None, compiled: true },
        ComponentDescriptor { type_id: "nana.dropdown", tags: &["dropdown"], required_feature: None, compiled: true },
        ComponentDescriptor { type_id: "nana.search-dropdown", tags: &["search-dropdown"], required_feature: None, compiled: true },
        ComponentDescriptor { type_id: "nana.panel", tags: &["panel"], required_feature: None, compiled: true },
        ComponentDescriptor { type_id: "nana.drawer", tags: &["drawer"], required_feature: None, compiled: true },
        ComponentDescriptor { type_id: "nana.popover", tags: &["popover"], required_feature: None, compiled: true },
        ComponentDescriptor { type_id: "nana.context-menu", tags: &["context-menu"], required_feature: None, compiled: true },
        ComponentDescriptor { type_id: "nana.toast", tags: &["toast"], required_feature: None, compiled: true },
        ComponentDescriptor { type_id: "nana.action-menu", tags: &["action-menu"], required_feature: None, compiled: true },
        ComponentDescriptor { type_id: "nana.action-menu-item", tags: &["action-menu-item"], required_feature: None, compiled: true },
        ComponentDescriptor { type_id: "nana.tooltip", tags: &["tooltip"], required_feature: None, compiled: true },
        ComponentDescriptor { type_id: "nana.xy-pad", tags: &["xy-pad"], required_feature: None, compiled: true },
        ComponentDescriptor { type_id: "nana.qr-code", tags: &["qr-code"], required_feature: None, compiled: true },
        ComponentDescriptor { type_id: "nana.form-field", tags: &["form-field"], required_feature: None, compiled: true },
        ComponentDescriptor { type_id: "nana.color-field", tags: &["color-field"], required_feature: None, compiled: true },
        ComponentDescriptor { type_id: "nana.path-field", tags: &["path-field"], required_feature: None, compiled: true },
        ComponentDescriptor { type_id: "nana.interactive-card", tags: &["interactive-card"], required_feature: None, compiled: true },
        ComponentDescriptor { type_id: "nana.skeleton", tags: &["skeleton"], required_feature: None, compiled: true },
        ComponentDescriptor { type_id: "nana.level-meter", tags: &["level-meter"], required_feature: None, compiled: true },
        ComponentDescriptor { type_id: "nana.command-palette", tags: &["command-palette"], required_feature: None, compiled: true },
        ComponentDescriptor { type_id: "nana.tree-view", tags: &["tree-view"], required_feature: None, compiled: true },
        ComponentDescriptor { type_id: "nana.calendar-heatmap", tags: &["calendar-heatmap"], required_feature: Some("calendar"), compiled: true },
        ComponentDescriptor { type_id: "nana.image-viewer", tags: &["image-viewer"], required_feature: Some("image-viewer"), compiled: true },
        ComponentDescriptor { type_id: "nana.native-markdown", tags: &["native-markdown"], required_feature: Some("rich-text"), compiled: true },
        ComponentDescriptor { type_id: "nana.graph-canvas", tags: &["graph-canvas"], required_feature: Some("graph-canvas"), compiled: true },
        ComponentDescriptor { type_id: "nana.workspace", tags: &["workspace"], required_feature: None, compiled: true },
        ComponentDescriptor { type_id: "nana.dock", tags: &["dock"], required_feature: None, compiled: true },
        ComponentDescriptor { type_id: "nana.split-pane", tags: &["split-pane"], required_feature: None, compiled: true },
        ComponentDescriptor { type_id: "nana.app-shell", tags: &["app-shell"], required_feature: None, compiled: true },
        ComponentDescriptor { type_id: "nana.sidebar-frame", tags: &["sidebar-frame"], required_feature: None, compiled: true },
        ComponentDescriptor { type_id: "nana.sidebar-row", tags: &["sidebar-row"], required_feature: None, compiled: true },
        ComponentDescriptor { type_id: "nana.settings-row", tags: &["settings-row"], required_feature: None, compiled: true },
        ComponentDescriptor { type_id: "nana.settings-card", tags: &["settings-card"], required_feature: None, compiled: true },
        ComponentDescriptor { type_id: "nana.settings-page", tags: &["settings-page"], required_feature: None, compiled: true },
        ComponentDescriptor { type_id: "nana.settings-collapsible-card", tags: &["settings-collapsible-card"], required_feature: None, compiled: true },
        ComponentDescriptor { type_id: "nana.list", tags: &["list"], required_feature: None, compiled: true },
        ComponentDescriptor { type_id: "nana.scroll-view", tags: &["scroll-view"], required_feature: None, compiled: true },
        ComponentDescriptor { type_id: "nana.table", tags: &["table"], required_feature: None, compiled: true },
        ComponentDescriptor { type_id: "nana.table-row", tags: &["tr"], required_feature: None, compiled: true },
        ComponentDescriptor { type_id: "nana.table-cell", tags: &["td"], required_feature: None, compiled: true },
        ComponentDescriptor { type_id: "nana.reorder-list", tags: &["reorder-list"], required_feature: Some("controls"), compiled: true },
        ComponentDescriptor { type_id: "nana.time-series-chart", tags: &["time-series-chart"], required_feature: Some("charts"), compiled: true },
        ComponentDescriptor { type_id: "nana.desktop-shell", tags: &["desktop-shell"], required_feature: None, compiled: true },
        ComponentDescriptor { type_id: "nana.app-title-bar", tags: &["app-title-bar"], required_feature: None, compiled: true },
        ComponentDescriptor { type_id: "nana.pane-chrome", tags: &["pane-chrome"], required_feature: None, compiled: true },
        ComponentDescriptor { type_id: "nana.sidebar-section", tags: &["sidebar-section"], required_feature: None, compiled: true },
        ComponentDescriptor { type_id: "nana.sidebar-footer", tags: &["sidebar-footer"], required_feature: None, compiled: true },
    ];
    assert(v@ =~= descriptor_table());
    v
}

/// Layout aliases and host controls registered beside the declarations.
pub fn builtin_aliases() -> (v: Vec<ComponentDescriptor>)
    ensures
        v@ == alias_table(),
{
    let v = vec![
        ComponentDescriptor { type_id: "nana.column", tags: &["column"], required_feature: None, compiled: true },
        ComponentDescriptor { type_id: "nana.row", tags: &["row"], required_feature: None, compiled: true },
        ComponentDescriptor { type_id: "nana.box", tags: &["box"], required_feature: None, compiled: true },
        ComponentDescriptor { type_id: "nana.video", tags: &["video"], required_feature: None, compiled: true },
    ];
    assert(v@ =~= alias_table());
    v
}

/// The tags of a descriptor, as char sequences.
pub open spec fn descriptor_tags(d: ComponentDescriptor) -> Seq<Seq<char>> {
    d.tags@.map_values(|t: &str| t@)
}

/// Whether a descriptor answers to `tag`: its identity verbatim, or one of
/// its declared tags after normalizing `tag`.
pub open spec fn descriptor_matches(d: ComponentDescriptor, tag: Seq<char>) -> bool {
    d.type_id@ == tag || descriptor_tags(d).contains(normalized_tag(tag))
}

/// The first descriptor of `table` that answers to `tag`.
pub open spec fn first_matching(table: Seq<ComponentDescriptor>, tag: Seq<char>) -> Option<
    ComponentDescriptor,
>
    decreases table.len(),
{
    if table.len() == 0 {
        None
    } else if descriptor_matches(table[0], tag) {
        Some(table[0])
    } else {
        first_matching(table.drop_first(), tag)
    }
}

/// A declared-component lookup finds the first descriptor that answers to
/// the tag, and none only when no descriptor does; a descriptor answers to
/// its own identity written verbatim and to each of its tags written in
/// normalized form.
pub proof fn lookup_finds_first_answering(table: Seq<ComponentDescriptor>, tag: Seq<char>)
    ensures
        first_matching(table, tag) matches Some(d) ==> exists|k: int|
            0 <= k < table.len() && #[trigger] table[k] == d && descriptor_matches(d, tag) && forall|
                j: int,
            | 0 <= j < k ==> !descriptor_matches(table[j], tag),
        first_matching(table, tag) is None ==> forall|k: int|
            0 <= k < table.len() ==> !descriptor_matches(#[trigger] table[k], tag),
        forall|k: int| 0 <= k < table.len() ==> descriptor_matches(#[trigger] table[k], table[k].type_id@),
        forall|k: int, t: Seq<char>|
            0 <= k < table.len() && descriptor_tags(table[k]).contains(t) && normalized_tag(t) == t
                ==> #[trigger] descriptor_matches(table[k], t),
    decreases table.len(),
{
    if table.len() > 0 {
        let rest = table.drop_first();
        lookup_finds_first_answering(rest, tag);
        if !descriptor_matches(table[0], tag) {
            match first_matching(rest, tag) {
                Some(d) => {
                    let k = choose|k: int|
                        0 <= k < rest.len() && #[trigger] rest[k] == d && descriptor_matches(d, tag)
                            && forall|j: int| 0 <= j < k ==> !descriptor_matches(rest[j], tag);
                    assert(table[k + 1] == rest[k]);
                    assert forall|j: int| 0 <= j < k + 1 implies !descriptor_matches(table[j], tag) by {
                        if j > 0 {
                            assert(table[j] == rest[j - 1]);
                        }
                    }
                },
                None => {
                    assert forall|k: int| 0 <= k < table.len() implies !descriptor_matches(
                        #[trigger] table[k],
                        tag,
                    ) by {
                        if k > 0 {
                            assert(table[k] == rest[k - 1]);
                        }
                    }
                },
            }
        }
    }
}

fn slice_has(tags: &[&str], wanted: &[char]) -> (r: bool)
    ensures
        r == tags@.map_values(|t: &str| t@).contains(wanted@),
{
    let ghost all = tags@.map_values(|t: &str| t@);
    let mut i: usize = 0;
    while i < tags.len()
        invariant
            i <= tags@.len(),
            all == tags@.map_values(|t: &str| t@),
            forall|j: int| 0 <= j < i ==> all[j] != wanted@,
        decreases tags.len() - i,
    {
        let here = chars_of(tags[i]);
        assert(all[i as int] == here@);
        if chars_eq(here.as_slice(), wanted) {
            assert(all.contains(wanted@));
            return true;
        }
        i = i + 1;
    }
    false
}

/// Looks up a declared tag (or identity) even when its implementation is
/// compiled out.
pub fn builtin_component(tag: &str) -> (r: Option<ComponentDescriptor>)
    ensures
        r == first_matching(descriptor_table(), tag@),
{
    let normalized = crate::registry::normalize_tag(tag);
    let wanted = chars_of(normalized.as_str());
    let raw = chars_of(tag);
    let table = builtin_components();
    let mut i: usize = 0;
    assert(descriptor_table().skip(0) =~= descriptor_table());
    while i < table.len()
        invariant
            i <= table@.len(),
            table@ == descriptor_table(),
            wanted@ == normalized_tag(tag@),
            raw@ == tag@,
            first_matching(descriptor_table(), tag@) == first_matching(
                descriptor_table().skip(i as int),
                tag@,
            ),
        decreases table.len() - i,
    {
        let entry = table[i];
        let id_chars = chars_of(entry.type_id);
        let ghost rest = descriptor_table().skip(i as int);
        assert(rest[0] == entry);
        if chars_eq(id_chars.as_slice(), raw.as_slice()) || slice_has(entry.tags, wanted.as_slice()) {
            return Some(entry);
        }
        assert(rest.drop_first() =~= descriptor_table().skip(i + 1));
        i = i + 1;
    }
    None
}

/// A compiled descriptor has each of its non-blank normalized tags resolving
/// to its trimmed identity in `registry`.
pub open spec fn entry_registered(registry: ComponentRegistry, d: ComponentDescriptor) -> bool {
    d.compiled ==> forall|t: Seq<char>|
        #![trigger registry.tag_target(t)]
        t.len() > 0 && normalized_nonblank(descriptor_tags(d)).contains(t) ==> registry.tag_target(t)
            == Some(trim_seq(d.type_id@))
}

/// Every entry of `table` is registered in `registry`.
pub open spec fn registers_all(registry: ComponentRegistry, table: Seq<ComponentDescriptor>) -> bool {
    forall|k: int| 0 <= k < table.len() ==> entry_registered(registry, #[trigger] table[k])
}

/// A tag of `tags` that does not normalize to blank text keeps its
/// normalized form among the registered names.
proof fn lemma_declared_tag_kept(tags: Seq<Seq<char>>, t: Seq<char>)
    requires
        tags.contains(t),
        normalized_tag(t).len() > 0,
    ensures
        normalized_nonblank(tags).contains(normalized_tag(t)),
    decreases tags.len(),
{
    if tags.last() == t {
        assert(normalized_nonblank(tags).last() == normalized_tag(t));
    } else {
        let k = choose|k: int| 0 <= k < tags.len() && tags[k] == t;
        assert(tags.drop_last()[k] == t);
        lemma_declared_tag_kept(tags.drop_last(), t);
        let rest = normalized_nonblank(tags.drop_last());
        let j = choose|j: int| 0 <= j < rest.len() && rest[j] == normalized_tag(t);
        if normalized_tag(tags.last()).len() > 0 {
            assert(normalized_nonblank(tags)[j] == normalized_tag(t));
        }
    }
}

/// In a registry holding the registrations of `table`, each tag declared by
/// a compiled entry, written as markup writes it, resolves to the entry's
/// identity, unless the tag normalizes to blank text.
pub proof fn declared_tags_resolve(
    registry: ComponentRegistry,
    table: Seq<ComponentDescriptor>,
    k: int,
    t: Seq<char>,
)
    requires
        registers_all(registry, table),
        0 <= k < table.len(),
        table[k].compiled,
        descriptor_tags(table[k]).contains(t),
        normalized_tag(t).len() > 0,
    ensures
        registry.tag_target(normalized_tag(t)) == Some(trim_seq(table[k].type_id@)),
{
    lemma_declared_tag_kept(descriptor_tags(table[k]), t);
    assert(entry_registered(registry, table[k]));
}

/// Registered type identities and tag mappings of a registry.
pub type RegistryState = (Seq<Seq<char>>, Seq<(Seq<char>, Seq<char>)>);

/// The state after registering one descriptor, or `None` when the
/// registration is refused: a compiled descriptor is refused when its
/// trimmed identity is blank, one of its normalized tags is already mapped,
/// or its identity is already registered; one compiled out changes nothing.
pub open spec fn install_entry(state: RegistryState, d: ComponentDescriptor) -> Option<RegistryState> {
    if !d.compiled {
        Some(state)
    } else {
        let id = trim_seq(d.type_id@);
        let names = normalized_nonblank(descriptor_tags(d));
        if id.len() == 0 || first_taken_tag(state.1, names) is Some || state.0.contains(id) {
            None
        } else {
            Some((state.0.push(id), with_tags(state.1, names, id)))
        }
    }
}

/// The state after registering each descriptor of `table` in order, or
/// `None` when one of them is refused.
pub open spec fn install_table(state: RegistryState, table: Seq<ComponentDescriptor>) -> Option<
    RegistryState,
>
    decreases table.len(),
{
    if table.len() == 0 {
        Some(state)
    } else {
        match install_entry(state, table[0]) {
            Some(next) => install_table(next, table.drop_first()),
            None => None,
        }
    }
}

/// The state after registering the declared components and then the aliases.
pub open spec fn install_builtin(state: RegistryState) -> Option<RegistryState> {
    match install_table(state, descriptor_table()) {
        Some(next) => install_table(next, alias_table()),
        None => None,
    }
}

pub open spec fn registry_state(registry: ComponentRegistry) -> RegistryState {
    (registry.type_ids(), registry.tag_entries())
}

/// The builtin component extension: every declared component and alias.
#[derive(Debug, Clone, Copy, PartialEq, Eq)]
pub struct NanaBuiltinComponents;

impl NanaBuiltinComponents {
    /// The extension's name.
    pub fn name(&self) -> (name: &'static str)
        ensures
            name@ == seq!['n', 'a', 'n', 'a', '.', 'b', 'u', 'i', 'l', 't', 'i', 'n'],
    {
        proof {
            reveal_strlit("nana.builtin");
        }
        "nana.builtin"
    }

    /// Registers every declared builtin component and every alias into
    /// `registry`. On success each of their tags resolves to its identity
    /// and every tag that resolved before still resolves the same way.
    pub fn install(&self, registry: &mut ComponentRegistry) -> (r: Result<(), FrameworkError>)
        ensures
            r is Ok <==> install_builtin(registry_state(*old(registry))) is Some,
            r is Ok ==> install_builtin(registry_state(*old(registry))) == Some(
                registry_state(*final(registry)),
            ),
            r is Ok ==> registers_all(*final(registry), descriptor_table()) && registers_all(
                *final(registry),
                alias_table(),
            ),
            r is Ok ==> forall|t: Seq<char>| #[trigger] old(registry).tag_target(t) is Some
                ==> final(registry).tag_target(t) == old(registry).tag_target(t),
    {
        let declared = builtin_components();
        match registry.register_table(&declared) {
            Ok(()) => {},
            Err(e) => {
                return Err(e);
            },
        }
        let ghost first = *registry;
        let aliases = builtin_aliases();
        match registry.register_table(&aliases) {
            Ok(()) => {},
            Err(e) => {
                return Err(e);
            },
        }
        assert forall|k: int| 0 <= k < descriptor_table().len() implies entry_registered(
            *registry,
            #[trigger] descriptor_table()[k],
        ) by {
            let d = descriptor_table()[k];
            assert(entry_registered(first, d));
            if d.compiled {
                assert forall|t: Seq<char>|
                    t.len() > 0 && normalized_nonblank(descriptor_tags(d)).contains(t)
                    implies #[trigger] registry.tag_target(t) == Some(trim_seq(d.type_id@)) by {
                    assert(first.tag_target(t) == Some(trim_seq(d.type_id@)));
                }
            }
        }
        Ok(())
    }
}

impl ComponentRegistry {
    fn register_table(&mut self, table: &Vec<ComponentDescriptor>) -> (r: Result<(), FrameworkError>)
        ensures
            r is Ok <==> install_table(registry_state(*old(self)), table@) is Some,
            r is Ok ==> install_table(registry_state(*old(self)), table@) == Some(
                registry_state(*final(self)),
            ),
            r is Ok ==> registers_all(*final(self), table@),
            r is Ok ==> forall|t: Seq<char>| #[trigger] old(self).tag_target(t) is Some
                ==> final(self).tag_target(t) == old(self).tag_target(t),
    {
        let mut i: usize = 0;
        assert(table@.skip(0) =~= table@);
        while i < table.len()
            invariant
                i <= table@.len(),
                install_table(registry_state(*old(self)), table@) == install_table(
                    registry_state(*self),
                    table@.skip(i as int),
                ),
                registers_all(*self, table@.take(i as int)),
                forall|t: Seq<char>| #[trigger] old(self).tag_target(t) is Some
                    ==> self.tag_target(t) == old(self).tag_target(t),
            decreases table.len() - i,
        {
            let entry = table[i];
            let ghost before = *self;
            let ghost rest = table@.skip(i as int);
            assert(rest[0] == entry);
            assert(rest.drop_first() =~= table@.skip(i + 1));
            if entry.compiled {
                let id = match ComponentTypeId::new(entry.type_id) {
                    Ok(id) => id,
                    Err(e) => {
                        return Err(e);
                    },
                };
                let tags = normalized_tags(entry.tags);
                let ghost names = tags@.map_values(|t: String| t@);
                assert(names == normalized_nonblank(descriptor_tags(entry)));
                match self.insert_with_tags(id, tags) {
                    Ok(()) => {},
                    Err(e) => {
                        return Err(e);
                    },
                }
                assert forall|t: Seq<char>| #[trigger] before.tag_target(t) is Some implies self.tag_target(t)
                    == before.tag_target(t) by {
                    lemma_with_tags_lookup(before.tag_entries(), names, trim_seq(entry.type_id@), t);
                }
                assert forall|t: Seq<char>| t.len() > 0 && names.contains(t) implies self.tag_target(t)
                    == Some(trim_seq(entry.type_id@)) by {
                    lemma_with_tags_lookup(before.tag_entries(), names, trim_seq(entry.type_id@), t);
                    crate::registry::lemma_untaken_tag(before.tag_entries(), names, t);
                }
            }
            assert(install_entry(registry_state(before), entry) == Some(registry_state(*self)));
            assert(registers_all(*self, table@.take(i + 1))) by {
                assert forall|k: int| 0 <= k < i + 1 implies entry_registered(
                    *self,
                    #[trigger] table@.take(i + 1)[k],
                ) by {
                    if k < i {
                        assert(table@.take(i + 1)[k] == table@.take(i as int)[k]);
                        assert(entry_registered(before, table@.take(i as int)[k]));
                        let d = table@.take(i as int)[k];
                        if d.compiled {
                            assert forall|t: Seq<char>|
                                t.len() > 0 && normalized_nonblank(descriptor_tags(d)).contains(t)
                                implies #[trigger] self.tag_target(t) == Some(trim_seq(d.type_id@)) by {
                                assert(before.tag_target(t) == Some(trim_seq(d.type_id@)));
                            }
                        }
                    } else {
                        assert(table@.take(i + 1)[k] == entry);
                    }
                }
            }
            i = i + 1;
        }
        assert(table@.take(table@.len() as int) =~= table@);
        assert(table@.skip(table@.len() as int) =~= Seq::<ComponentDescriptor>::empty());
        Ok(())
    }

    /// The registry that the builtin installation produces: every declared
    /// component and every alias, each reachable through its tags. It is
    /// built exactly when the tables register in order without a conflict.
    pub fn builtin() -> (r: Result<Self, FrameworkError>)
        ensures
            r is Ok <==> install_builtin((Seq::empty(), Seq::empty())) is Some,
            r matches Ok(registry) ==> install_builtin((Seq::empty(), Seq::empty())) == Some(
                registry_state(registry),
            ),
            r matches Ok(registry) ==> registers_all(registry, descriptor_table())
                && registers_all(registry, alias_table()),
    {
        let mut registry = ComponentRegistry::new();
        assert(registry_state(registry) == (Seq::<Seq<char>>::empty(), Seq::<(Seq<char>, Seq<char>)>::empty()));
        match NanaBuiltinComponents.install(&mut registry) {
            Ok(()) => Ok(registry),
            Err(e) => Err(e),
        }
    }
}

} // verus!
