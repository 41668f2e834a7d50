//! The layout tree of a dock: panels, tab groups and two-way splits, read
//! from a JSON layout attribute or, without one, made from the dock's
//! slotted panels.
use vstd::prelude::*;

use crate::ids::StableNodeId;
use crate::json_value::{
    JsonValue, array_items, get_member, json_array, lemma_lookup_in_range, lookup_member,
    member_lookup, member_text, object_get, object_text, strs,
};
use crate::text::{chars_eq, chars_of, lower_chars, lower_seq, string_of, trim_bounds, trim_seq};

verus! {

/// The direction in which a split lays out its two sides.
#[derive(Debug, Clone, Copy, PartialEq, Eq, Structural)]
pub enum DockAxis {
    Horizontal,
    Vertical,
}

/// A split's ratio as the layout wrote it; the host reads it as a number
/// (a missing or unreadable ratio is an even split).
#[derive(Debug, Clone, PartialEq, Eq)]
pub enum DockRatio {
    Unset,
    Number(String),
    Text(String),
    Flag(bool),
}

/// A node of a dock layout.
#[derive(Debug, PartialEq)]
pub enum DockNode {
    /// One panel named `id`, showing `content`.
    Item { id: String, content: Option<StableNodeId> },
    /// A tab group: the tab names in order, the active tab, and the content
    /// of each panel in it.
    Tabs { tabs: Vec<String>, active: String, contents: Vec<(String, Option<StableNodeId>)> },
    /// Two layouts side by side along `axis`.
    Split { axis: DockAxis, ratio: DockRatio, first: Box<DockNode>, second: Box<DockNode> },
}

/// What a dock layout node holds, with text as char sequences.
pub enum DockLayout {
    Item { id: Seq<char>, content: Option<StableNodeId> },
    Tabs {
        tabs: Seq<Seq<char>>,
        active: Seq<char>,
        contents: Seq<(Seq<char>, Option<StableNodeId>)>,
    },
    Split { axis: DockAxis, ratio: (u8, Seq<char>), first: Box<DockLayout>, second: Box<DockLayout> },
}

/// A ratio as a tag and its text: unset 0, number 1, text 2, `true` 3,
/// `false` 4.
pub open spec fn ratio_view(ratio: DockRatio) -> (u8, Seq<char>) {
    match ratio {
        DockRatio::Unset => (0, Seq::empty()),
        DockRatio::Number(t) => (1, t@),
        DockRatio::Text(s) => (2, s@),
        DockRatio::Flag(b) => (if b {
            3
        } else {
            4
        }, Seq::empty()),
    }
}

pub open spec fn names_view(names: Seq<String>) -> Seq<Seq<char>> {
    names.map_values(|t: String| t@)
}

pub open spec fn contents_view(contents: Seq<(String, Option<StableNodeId>)>) -> Seq<
    (Seq<char>, Option<StableNodeId>),
> {
    contents.map_values(|c: (String, Option<StableNodeId>)| (c.0@, c.1))
}

pub open spec fn layout_of(node: DockNode) -> DockLayout
    decreases node,
{
    match node {
        DockNode::Item { id, content } => DockLayout::Item { id: id@, content },
        DockNode::Tabs { tabs, active, contents } => DockLayout::Tabs {
            tabs: names_view(tabs@),
            active: active@,
            contents: contents_view(contents@),
        },
        DockNode::Split { axis, ratio, first, second } => DockLayout::Split {
            axis,
            ratio: ratio_view(ratio),
            first: Box::new(layout_of(*first)),
            second: Box::new(layout_of(*second)),
        },
    }
}

impl View for DockNode {
    type V = DockLayout;

    open spec fn view(&self) -> DockLayout {
        layout_of(*self)
    }
}

/// The panel names of a layout, in order.
pub open spec fn flatten(layout: DockLayout) -> Seq<Seq<char>>
    decreases layout,
{
    match layout {
        DockLayout::Item { id, .. } => seq![id],
        DockLayout::Tabs { tabs, .. } => tabs,
        DockLayout::Split { first, second, .. } => flatten(*first) + flatten(*second),
    }
}

/// The (name, content) pairs of a layout's panels, in order.
pub open spec fn panel_contents(layout: DockLayout) -> Seq<(Seq<char>, Option<StableNodeId>)>
    decreases layout,
{
    match layout {
        DockLayout::Item { id, content } => seq![(id, content)],
        DockLayout::Tabs { contents, .. } => contents,
        DockLayout::Split { first, second, .. } => panel_contents(*first) + panel_contents(*second),
    }
}

pub open spec fn flatten_all(nodes: Seq<DockLayout>) -> Seq<Seq<char>>
    decreases nodes.len(),
{
    if nodes.len() == 0 {
        Seq::empty()
    } else {
        flatten_all(nodes.drop_last()) + flatten(nodes.last())
    }
}

pub open spec fn panel_contents_all(nodes: Seq<DockLayout>) -> Seq<(Seq<char>, Option<StableNodeId>)>
    decreases nodes.len(),
{
    if nodes.len() == 0 {
        Seq::empty()
    } else {
        panel_contents_all(nodes.drop_last()) + panel_contents(nodes.last())
    }
}

/// Layouts listed side by side: none is nothing, one stands alone, more
/// become one tab group of all their panels with the first active.
pub open spec fn join_layouts(nodes: Seq<DockLayout>) -> Option<DockLayout> {
    if nodes.len() == 0 {
        None
    } else if nodes.len() == 1 {
        Some(nodes[0])
    } else {
        let ids = flatten_all(nodes);
        if ids.len() == 0 {
            None
        } else {
            Some(DockLayout::Tabs { tabs: ids, active: ids[0], contents: panel_contents_all(nodes) })
        }
    }
}

/// The content of the first slot named `id` that has content.
pub open spec fn content_for(contents: Seq<(&str, Option<StableNodeId>)>, id: Seq<char>) -> Option<
    StableNodeId,
>
    decreases contents.len(),
{
    if contents.len() == 0 {
        None
    } else if contents[0].0@ == id && contents[0].1 is Some {
        contents[0].1
    } else {
        content_for(contents.drop_first(), id)
    }
}

pub open spec fn kind_keys() -> Seq<&'static str> {
    seq!["type", "kind", "node"]
}

pub open spec fn first_keys() -> Seq<&'static str> {
    seq!["first"]
}

pub open spec fn second_keys() -> Seq<&'static str> {
    seq!["second"]
}

pub open spec fn axis_keys() -> Seq<&'static str> {
    seq!["axis"]
}

pub open spec fn ratio_keys() -> Seq<&'static str> {
    seq!["ratio", "size"]
}

pub open spec fn tabs_keys() -> Seq<&'static str> {
    seq!["tabs"]
}

pub open spec fn tab_id_keys() -> Seq<&'static str> {
    seq!["id", "key", "value"]
}

pub open spec fn active_keys() -> Seq<&'static str> {
    seq!["active", "value"]
}

pub open spec fn item_id_keys() -> Seq<&'static str> {
    seq!["id", "key", "value", "dock-id", "data-dock-id"]
}

/// `vertical`, `column` or `y` (trimmed, any ASCII case) is vertical; any
/// other text is horizontal.
pub open spec fn axis_of(raw: Seq<char>) -> DockAxis {
    let word = lower_seq(trim_seq(raw));
    if word == "vertical"@ || word == "column"@ || word == "y"@ {
        DockAxis::Vertical
    } else {
        DockAxis::Horizontal
    }
}

/// The ratio a split carries: a number's text, a string, or a flag.
pub open spec fn ratio_of(found: Option<JsonValue>) -> (u8, Seq<char>) {
    match found {
        Some(JsonValue::Number(t)) => (1, t@),
        Some(JsonValue::Text(s)) => (2, s@),
        Some(JsonValue::Bool(b)) => (if b {
            3
        } else {
            4
        }, Seq::empty()),
        _ => (0, Seq::empty()),
    }
}

/// The name a tab entry gives: a non-empty string, or the non-empty
/// `id`/`key`/`value` of an object.
pub open spec fn tab_id(tab: JsonValue) -> Option<Seq<char>> {
    match tab {
        JsonValue::Text(s) => if s@.len() > 0 {
            Some(s@)
        } else {
            None
        },
        JsonValue::Object(_) => {
            let id = object_text(tab, strs(tab_id_keys()));
            if id.len() > 0 {
                Some(id)
            } else {
                None
            }
        },
        _ => None,
    }
}

/// The tab names of `tabs`, each once, in order of first appearance.
pub open spec fn tab_ids(tabs: Seq<JsonValue>) -> Seq<Seq<char>>
    decreases tabs.len(),
{
    if tabs.len() == 0 {
        Seq::empty()
    } else {
        let rest = tab_ids(tabs.drop_last());
        match tab_id(tabs.last()) {
            Some(id) => if rest.contains(id) {
                rest
            } else {
                rest.push(id)
            },
            None => rest,
        }
    }
}

pub open spec fn tab_contents(ids: Seq<Seq<char>>, contents: Seq<(&str, Option<StableNodeId>)>) -> Seq<
    (Seq<char>, Option<StableNodeId>),
> {
    ids.map_values(|id: Seq<char>| (id, content_for(contents, id)))
}

/// The layout a JSON value describes, or `None`:
/// - a non-empty string is the panel of that name;
/// - an array joins the layouts of its items (see [`join_layouts`]);
/// - an object is a split when its kind is `split` or it has `first` or
///   `second` (both sides must describe layouts), else a tab group when its
///   kind is `tabs` or it has `tabs` (at least one tab must be named), else
///   the panel named by its `id`, `key`, `value`, `dock-id` or
///   `data-dock-id`.
/// A panel's content is that of the first slot of its name that has one.
pub open spec fn dock_layout_of(value: JsonValue, contents: Seq<(&str, Option<StableNodeId>)>) -> Option<
    DockLayout,
>
    decreases value,
{
    match value {
        JsonValue::Text(s) => if s@.len() > 0 {
            Some(DockLayout::Item { id: s@, content: content_for(contents, s@) })
        } else {
            None
        },
        JsonValue::Array(items) => {
            proof {
                assert(decreases_to!(items => items@));
            }
            join_layouts(layouts_of(items@, contents))
        },
        JsonValue::Object(members) => {
            let kind = lower_seq(object_text(value, strs(kind_keys())));
            if kind == "split"@ || object_get(value, strs(first_keys())) is Some || object_get(
                value,
                strs(second_keys()),
            ) is Some {
                let first = match member_lookup(members@, strs(first_keys())) {
                    Some(i) => if 0 <= i < members@.len() {
                        proof {
                            assert(decreases_to!(members => members@));
                            assert(decreases_to!(members@ => members@[i]));
                        }
                        dock_layout_of(members@[i].1, contents)
                    } else {
                        None
                    },
                    None => None,
                };
                let second = match member_lookup(members@, strs(second_keys())) {
                    Some(i) => if 0 <= i < members@.len() {
                        proof {
                            assert(decreases_to!(members => members@));
                            assert(decreases_to!(members@ => members@[i]));
                        }
                        dock_layout_of(members@[i].1, contents)
                    } else {
                        None
                    },
                    None => None,
                };
                match (first, second) {
                    (Some(a), Some(b)) => Some(
                        DockLayout::Split {
                            axis: axis_of(object_text(value, strs(axis_keys()))),
                            ratio: ratio_of(object_get(value, strs(ratio_keys()))),
                            first: Box::new(a),
                            second: Box::new(b),
                        },
                    ),
                    _ => None,
                }
            } else if kind == "tabs"@ || object_get(value, strs(tabs_keys())) is Some {
                let ids = tab_ids(
                    match object_get(value, strs(tabs_keys())) {
                        Some(t) => json_array(t),
                        None => Seq::empty(),
                    },
                );
                if ids.len() == 0 {
                    None
                } else {
                    let active = object_text(value, strs(active_keys()));
                    Some(
                        DockLayout::Tabs {
                            tabs: ids,
                            active: if active.len() == 0 {
                                ids[0]
                            } else {
                                active
                            },
                            contents: tab_contents(ids, contents),
                        },
                    )
                }
            } else {
                let id = object_text(value, strs(item_id_keys()));
                if id.len() == 0 {
                    None
                } else {
                    Some(DockLayout::Item { id, content: content_for(contents, id) })
                }
            }
        },
        _ => None,
    }
}

/// A split that an object describes lies along the vertical axis exactly
/// when the object's `axis` text,
/// trimmed and ASCII lower-cased, is `vertical`, `column` or `y`; any
/// other text, or none, lays it out horizontally.
pub proof fn split_axis_follows_axis_text(
    value: JsonValue,
    contents: Seq<(&str, Option<StableNodeId>)>,
)
    requires
        value is Object,
        dock_layout_of(value, contents) matches Some(DockLayout::Split { .. }),
    ensures
        ({
            let word = lower_seq(trim_seq(object_text(value, strs(seq!["axis"]))));
            let axis = dock_layout_of(value, contents)->0->Split_axis;
            &&& word == "vertical"@ ==> axis == DockAxis::Vertical
            &&& word == "column"@ ==> axis == DockAxis::Vertical
            &&& word == "y"@ ==> axis == DockAxis::Vertical
            &&& word != "vertical"@ && word != "column"@ && word != "y"@ ==> axis
                == DockAxis::Horizontal
        }),
{
    assert(axis_keys() == seq!["axis"]);
}

/// A panel's content is that of a slot with the panel's name: the first
/// such slot that has content, and none only when no slot of that name has
/// content.
pub proof fn content_comes_from_a_named_slot(
    contents: Seq<(&str, Option<StableNodeId>)>,
    id: Seq<char>,
)
    ensures
        content_for(contents, id) matches Some(node) ==> exists|k: int|
            0 <= k < contents.len() && (#[trigger] contents[k]).0@ == id && contents[k].1 == Some(
                node,
            ) && forall|j: int| 0 <= j < k ==> !(contents[j].0@ == id && contents[j].1 is Some),
        content_for(contents, id) is None ==> forall|k: int|
            0 <= k < contents.len() && (#[trigger] contents[k]).0@ == id ==> contents[k].1 is None,
    decreases contents.len(),
{
    if contents.len() > 0 {
        let rest = contents.drop_first();
        content_comes_from_a_named_slot(rest, id);
        if contents[0].0@ == id && contents[0].1 is Some {
        } else {
            match content_for(rest, id) {
                Some(node) => {
                    let k = choose|k: int|
                        0 <= k < rest.len() && (#[trigger] rest[k]).0@ == id && rest[k].1 == Some(
                            node,
                        ) && forall|j: int| 0 <= j < k ==> !(rest[j].0@ == id && rest[j].1 is Some);
                    assert(contents[k + 1] == rest[k]);
                    assert forall|j: int| 0 <= j < k + 1 implies !(contents[j].0@ == id
                        && contents[j].1 is Some) by {
                        if j > 0 {
                            assert(contents[j] == rest[j - 1]);
                        }
                    }
                },
                None => {
                    assert forall|k: int|
                        0 <= k < contents.len() && (#[trigger] contents[k]).0@ == id implies contents[k].1 is None by {
                        if k > 0 {
                            assert(contents[k] == rest[k - 1]);
                        }
                    }
                },
            }
        }
    }
}

/// The tab names read from tab entries are each listed once, and every
/// entry that names a tab has its name among them.
pub proof fn tab_names_are_listed_once(tabs: Seq<JsonValue>)
    ensures
        tab_ids(tabs).no_duplicates(),
        forall|i: int|
            0 <= i < tabs.len() && (#[trigger] tab_id(tabs[i])) is Some ==> tab_ids(tabs).contains(
                tab_id(tabs[i])->0,
            ),
        forall|n: Seq<char>|
            #[trigger] tab_ids(tabs).contains(n) ==> exists|i: int|
                0 <= i < tabs.len() && tab_id(tabs[i]) == Some(n),
    decreases tabs.len(),
{
    if tabs.len() > 0 {
        let rest = tabs.drop_last();
        tab_names_are_listed_once(rest);
        assert forall|i: int|
            0 <= i < tabs.len() && (#[trigger] tab_id(tabs[i])) is Some implies tab_ids(tabs).contains(
            tab_id(tabs[i])->0,
        ) by {
            if i < tabs.len() - 1 {
                assert(tabs[i] == rest[i]);
                let n = tab_id(rest[i])->0;
                let k = choose|k: int| 0 <= k < tab_ids(rest).len() && tab_ids(rest)[k] == n;
                match tab_id(tabs.last()) {
                    Some(id) => if !tab_ids(rest).contains(id) {
                        assert(tab_ids(tabs)[k] == n);
                    },
                    None => {},
                }
            } else {
                assert(tabs[i] == tabs.last());
                let id = tab_id(tabs.last())->0;
                if !tab_ids(rest).contains(id) {
                    assert(tab_ids(tabs)[tab_ids(rest).len() as int] == id);
                }
            }
        }
        assert forall|n: Seq<char>| #[trigger] tab_ids(tabs).contains(n) implies exists|i: int|
            0 <= i < tabs.len() && tab_id(tabs[i]) == Some(n) by {
            let k = choose|k: int| 0 <= k < tab_ids(tabs).len() && tab_ids(tabs)[k] == n;
            if k < tab_ids(rest).len() {
                assert(tab_ids(rest).contains(n)) by {
                    assert(tab_ids(rest)[k] == n);
                }
                let i = choose|i: int| 0 <= i < rest.len() && tab_id(rest[i]) == Some(n);
                assert(tabs[i] == rest[i]);
            } else {
                assert(tab_id(tabs[tabs.len() - 1]) == Some(n));
            }
        }
    }
}

/// The layouts that the items of an array describe, in order.
pub open spec fn layouts_of(items: Seq<JsonValue>, contents: Seq<(&str, Option<StableNodeId>)>) -> Seq<
    DockLayout,
>
    decreases items,
{
    if items.len() == 0 {
        Seq::empty()
    } else {
        let rest = layouts_of(items.drop_last(), contents);
        match dock_layout_of(items.last(), contents) {
            Some(layout) => rest.push(layout),
            None => rest,
        }
    }
}


/// The panels a dock shows without a layout: one named `dock` with no
/// content when it has no slots, its only slot, or one tab group of all
/// slots in order with the first active.
pub open spec fn slots_layout(contents: Seq<(&str, Option<StableNodeId>)>) -> DockLayout {
    if contents.len() == 0 {
        DockLayout::Item { id: "dock"@, content: None }
    } else if contents.len() == 1 {
        DockLayout::Item { id: contents[0].0@, content: contents[0].1 }
    } else {
        DockLayout::Tabs {
            tabs: contents.map_values(|slot: (&str, Option<StableNodeId>)| slot.0@),
            active: contents[0].0@,
            contents: contents.map_values(|slot: (&str, Option<StableNodeId>)| (slot.0@, slot.1)),
        }
    }
}

/// The root a dock shows: the layout its layout value describes, else the
/// layout made from its slots.
pub open spec fn dock_root_layout(
    layout: Option<JsonValue>,
    contents: Seq<(&str, Option<StableNodeId>)>,
) -> DockLayout {
    match layout {
        Some(value) => match dock_layout_of(value, contents) {
            Some(root) => root,
            None => slots_layout(contents),
        },
        None => slots_layout(contents),
    }
}

pub open spec fn layouts_view(nodes: Seq<DockNode>) -> Seq<DockLayout> {
    nodes.map_values(|n: DockNode| n@)
}

fn key_list(keys: &[&'static str]) -> (r: Vec<&'static str>)
    ensures
        r@ == keys@,
{
    let mut r: Vec<&'static str> = Vec::new();
    let mut i: usize = 0;
    while i < keys.len()
        invariant
            i <= keys@.len(),
            r@ == keys@.take(i as int),
        decreases keys.len() - i,
    {
        r.push(keys[i]);
        assert(r@ =~= keys@.take(i + 1));
        i = i + 1;
    }
    assert(keys@.take(keys@.len() as int) =~= keys@);
    r
}

fn keys_of(which: u8) -> (r: Vec<&'static str>)
    ensures
        which == 0 ==> r@ == kind_keys(),
        which == 1 ==> r@ == first_keys(),
        which == 2 ==> r@ == second_keys(),
        which == 3 ==> r@ == axis_keys(),
        which == 4 ==> r@ == ratio_keys(),
        which == 5 ==> r@ == tabs_keys(),
        which == 6 ==> r@ == tab_id_keys(),
        which == 7 ==> r@ == active_keys(),
        which == 8 ==> r@ == item_id_keys(),
{
    let r = match which {
        0 => vec!["type", "kind", "node"],
        1 => vec!["first"],
        2 => vec!["second"],
        3 => vec!["axis"],
        4 => vec!["ratio", "size"],
        5 => vec!["tabs"],
        6 => vec!["id", "key", "value"],
        7 => vec!["active", "value"],
        _ => vec!["id", "key", "value", "dock-id", "data-dock-id"],
    };
    assert(which == 0 ==> r@ =~= kind_keys());
    assert(which == 1 ==> r@ =~= first_keys());
    assert(which == 2 ==> r@ =~= second_keys());
    assert(which == 3 ==> r@ =~= axis_keys());
    assert(which == 4 ==> r@ =~= ratio_keys());
    assert(which == 5 ==> r@ =~= tabs_keys());
    assert(which == 6 ==> r@ =~= tab_id_keys());
    assert(which == 7 ==> r@ =~= active_keys());
    assert(which == 8 ==> r@ =~= item_id_keys());
    r
}

/// The content of the first slot named `id` that has content.
fn find_content(contents: &[(&str, Option<StableNodeId>)], id: &[char]) -> (r: Option<StableNodeId>)
    ensures
        r == content_for(contents@, id@),
{
    let mut i: usize = 0;
    assert(contents@.skip(0) =~= contents@);
    while i < contents.len()
        invariant
            i <= contents@.len(),
            content_for(contents@, id@) == content_for(contents@.skip(i as int), id@),
        decreases contents.len() - i,
    {
        let ghost rest = contents@.skip(i as int);
        assert(rest[0] == contents@[i as int]);
        assert(rest.drop_first() =~= contents@.skip(i + 1));
        let name = chars_of(contents[i].0);
        if chars_eq(name.as_slice(), id) && contents[i].1.is_some() {
            return contents[i].1;
        }
        i = i + 1;
    }
    None
}

fn chars_of_string(s: &String) -> (r: Vec<char>)
    ensures
        r@ == s@,
{
    chars_of(s.as_str())
}

fn copy_string(s: &String) -> (r: String)
    ensures
        r@ == s@,
{
    let chars = chars_of(s.as_str());
    string_of(chars.as_slice())
}

/// Whether `names` holds `id`.
fn names_contain(names: &Vec<String>, id: &[char]) -> (r: bool)
    ensures
        r == names_view(names@).contains(id@),
{
    let mut i: usize = 0;
    while i < names.len()
        invariant
            i <= names@.len(),
            forall|j: int| 0 <= j < i ==> names@[j]@ != id@,
        decreases names.len() - i,
    {
        let here = chars_of_string(&names[i]);
        if chars_eq(here.as_slice(), id) {
            assert(names_view(names@)[i as int] == id@);
            return true;
        }
        i = i + 1;
    }
    assert(!names_view(names@).contains(id@)) by {
        if names_view(names@).contains(id@) {
            let j = choose|j: int| 0 <= j < names@.len() && names_view(names@)[j] == id@;
            assert(names@[j]@ == id@);
        }
    }
    false
}

fn axis_from(raw: &[char]) -> (axis: DockAxis)
    ensures
        axis == axis_of(raw@),
{
    let (start, end) = trim_bounds(raw);
    let mut trimmed: Vec<char> = Vec::new();
    let mut i = start;
    while i < end
        invariant
            start <= i <= end <= raw@.len(),
            trimmed@ == raw@.subrange(start as int, i as int),
        decreases end - i,
    {
        trimmed.push(raw[i]);
        assert(trimmed@ =~= raw@.subrange(start as int, i + 1));
        i = i + 1;
    }
    let word = lower_chars(trimmed.as_slice());
    let vertical = chars_of("vertical");
    let column = chars_of("column");
    let y = chars_of("y");
    if chars_eq(word.as_slice(), vertical.as_slice()) || chars_eq(word.as_slice(), column.as_slice())
        || chars_eq(word.as_slice(), y.as_slice()) {
        DockAxis::Vertical
    } else {
        DockAxis::Horizontal
    }
}

fn ratio_from(found: Option<&JsonValue>) -> (ratio: DockRatio)
    ensures
        ratio_view(ratio) == ratio_of(
            match found {
                Some(v) => Some(*v),
                None => None,
            },
        ),
{
    match found {
        Some(JsonValue::Number(t)) => DockRatio::Number(copy_string(t)),
        Some(JsonValue::Text(s)) => DockRatio::Text(copy_string(s)),
        Some(JsonValue::Bool(b)) => DockRatio::Flag(*b),
        _ => DockRatio::Unset,
    }
}

fn tab_name(tab: &JsonValue) -> (r: Option<Vec<char>>)
    ensures
        match r {
            Some(v) => tab_id(*tab) == Some(v@),
            None => tab_id(*tab) is None,
        },
{
    match tab {
        JsonValue::Text(s) => {
            let id = chars_of_string(s);
            if id.len() > 0 {
                Some(id)
            } else {
                None
            }
        },
        JsonValue::Object(_) => {
            let keys = keys_of(6);
            let id = member_text(tab, keys.as_slice());
            if id.len() > 0 {
                Some(id)
            } else {
                None
            }
        },
        _ => None,
    }
}

/// The tab names of the array that `tabs` is read as.
fn tab_names(tabs: &JsonValue) -> (names: Vec<String>)
    ensures
        names_view(names@) == tab_ids(json_array(*tabs)),
{
    let items = array_items(tabs);
    let ghost all = json_array(*tabs);
    let mut names: Vec<String> = Vec::new();
    let mut j: usize = 0;
    while j < items.len()
        invariant
            j <= items@.len(),
            items@.len() == all.len(),
            forall|i: int| 0 <= i < items@.len() ==> *items@[i] == all[i],
            names_view(names@) == tab_ids(all.take(j as int)),
        decreases items.len() - j,
    {
        assert(all.take(j + 1).drop_last() =~= all.take(j as int));
        assert(all.take(j + 1).last() == all[j as int]);
        match tab_name(items[j]) {
            Some(id) => {
                if !names_contain(&names, id.as_slice()) {
                    names.push(string_of(id.as_slice()));
                    assert(names_view(names@) =~= tab_ids(all.take(j as int)).push(id@));
                }
            },
            None => {},
        }
        j = j + 1;
    }
    assert(all.take(all.len() as int) =~= all);
    names
}

/// Appends the panel names of `node` to `out`.
fn push_panel_names(node: &DockNode, out: &mut Vec<String>)
    ensures
        names_view(final(out)@) == names_view(old(out)@) + flatten(node@),
    decreases node,
{
    match node {
        DockNode::Item { id, .. } => {
            let ghost before = names_view(out@);
            out.push(copy_string(id));
            assert(names_view(out@) =~= before + flatten(node@));
        },
        DockNode::Tabs { tabs, .. } => {
            let ghost before = names_view(out@);
            let mut i: usize = 0;
            while i < tabs.len()
                invariant
                    i <= tabs@.len(),
                    names_view(out@) == before + names_view(tabs@).take(i as int),
                decreases tabs.len() - i,
            {
                let ghost prev = names_view(out@);
                out.push(copy_string(&tabs[i]));
                assert(names_view(out@) =~= prev.push(tabs@[i as int]@));
                assert(names_view(tabs@).take(i + 1) =~= names_view(tabs@).take(i as int).push(
                    tabs@[i as int]@,
                ));
                assert(names_view(out@) =~= before + names_view(tabs@).take(i + 1));
                i = i + 1;
            }
            assert(names_view(tabs@).take(tabs@.len() as int) =~= names_view(tabs@));
        },
        DockNode::Split { first, second, .. } => {
            let ghost before = names_view(out@);
            push_panel_names(first, out);
            push_panel_names(second, out);
            assert(names_view(out@) =~= before + flatten(node@));
        },
    }
}

/// Appends the (name, content) pairs of `node`'s panels to `out`.
fn push_panel_contents(node: &DockNode, out: &mut Vec<(String, Option<StableNodeId>)>)
    ensures
        contents_view(final(out)@) == contents_view(old(out)@) + panel_contents(node@),
    decreases node,
{
    match node {
        DockNode::Item { id, content } => {
            let ghost before = contents_view(out@);
            out.push((copy_string(id), *content));
            assert(contents_view(out@) =~= before + panel_contents(node@));
        },
        DockNode::Tabs { contents, .. } => {
            let ghost before = contents_view(out@);
            let mut i: usize = 0;
            while i < contents.len()
                invariant
                    i <= contents@.len(),
                    contents_view(out@) == before + contents_view(contents@).take(i as int),
                decreases contents.len() - i,
            {
                let ghost prev = contents_view(out@);
                let ghost here = (contents@[i as int].0@, contents@[i as int].1);
                out.push((copy_string(&contents[i].0), contents[i].1));
                assert(contents_view(out@) =~= prev.push(here));
                assert(contents_view(contents@).take(i + 1) =~= contents_view(contents@).take(
                    i as int,
                ).push(here));
                assert(contents_view(out@) =~= before + contents_view(contents@).take(i + 1));
                i = i + 1;
            }
            assert(contents_view(contents@).take(contents@.len() as int) =~= contents_view(
                contents@,
            ));
        },
        DockNode::Split { first, second, .. } => {
            let ghost before = contents_view(out@);
            push_panel_contents(first, out);
            push_panel_contents(second, out);
            assert(contents_view(out@) =~= before + panel_contents(node@));
        },
    }
}

fn join_nodes(nodes: Vec<DockNode>) -> (r: Option<DockNode>)
    ensures
        match r {
            Some(node) => join_layouts(layouts_view(nodes@)) == Some(node@),
            None => join_layouts(layouts_view(nodes@)) is None,
        },
{
    let ghost views = layouts_view(nodes@);
    if nodes.len() == 0 {
        return None;
    }
    if nodes.len() == 1 {
        let mut nodes = nodes;
        return nodes.pop();
    }
    let mut ids: Vec<String> = Vec::new();
    let mut panels: Vec<(String, Option<StableNodeId>)> = Vec::new();
    let mut i: usize = 0;
    while i < nodes.len()
        invariant
            i <= nodes@.len(),
            views == layouts_view(nodes@),
            names_view(ids@) == flatten_all(views.take(i as int)),
            contents_view(panels@) == panel_contents_all(views.take(i as int)),
        decreases nodes.len() - i,
    {
        assert(views.take(i + 1).drop_last() =~= views.take(i as int));
        assert(views.take(i + 1).last() == nodes@[i as int]@);
        push_panel_names(&nodes[i], &mut ids);
        push_panel_contents(&nodes[i], &mut panels);
        i = i + 1;
    }
    assert(views.take(nodes@.len() as int) =~= views);
    if ids.len() == 0 {
        return None;
    }
    let active = copy_string(&ids[0]);
    Some(DockNode::Tabs { tabs: ids, active, contents: panels })
}

/// The layout that `value` describes, with each panel's content taken from
/// `contents`, or `None` when it describes none (see [`dock_layout_of`]).
pub fn dock_node_from_value(value: &JsonValue, contents: &[(&str, Option<StableNodeId>)]) -> (r: Option<
    DockNode,
>)
    ensures
        match r {
            Some(node) => dock_layout_of(*value, contents@) == Some(node@),
            None => dock_layout_of(*value, contents@) is None,
        },
    decreases value,
{
    match value {
        JsonValue::Text(s) => {
            let id = chars_of_string(s);
            if id.len() == 0 {
                return None;
            }
            let content = find_content(contents, id.as_slice());
            Some(DockNode::Item { id: string_of(id.as_slice()), content })
        },
        JsonValue::Array(items) => {
            let mut nodes: Vec<DockNode> = Vec::new();
            let mut j: usize = 0;
            while j < items.len()
                invariant
                    j <= items@.len(),
                    *value == JsonValue::Array(*items),
                    layouts_view(nodes@) == layouts_of(items@.take(j as int), contents@),
                decreases items.len() - j,
            {
                assert(items@.take(j + 1).drop_last() =~= items@.take(j as int));
                assert(items@.take(j + 1).last() == items@[j as int]);
                proof {
                    assert(decreases_to!(*value => (*value)->Array_0));
                    assert(decreases_to!(items => items@));
                    assert(decreases_to!(items@ => items@[j as int]));
                }
                match dock_node_from_value(&items[j], contents) {
                    Some(node) => {
                        nodes.push(node);
                        assert(layouts_view(nodes@) =~= layouts_of(items@.take(j + 1), contents@));
                    },
                    None => {},
                }
                j = j + 1;
            }
            assert(items@.take(items@.len() as int) =~= items@);
            join_nodes(nodes)
        },
        JsonValue::Object(members) => {
            proof {
                lemma_lookup_in_range(members@, strs(first_keys()));
                lemma_lookup_in_range(members@, strs(second_keys()));
            }
            let kind_keys_v = keys_of(0);
            let kind = lower_chars(member_text(value, kind_keys_v.as_slice()).as_slice());
            let first_keys_v = keys_of(1);
            let second_keys_v = keys_of(2);
            let first_at = lookup_member(members, first_keys_v.as_slice());
            let second_at = lookup_member(members, second_keys_v.as_slice());
            let split_word = chars_of("split");
            if chars_eq(kind.as_slice(), split_word.as_slice()) || first_at.is_some()
                || second_at.is_some() {
                let first = match first_at {
                    Some(i) => {
                        proof {
                            assert(decreases_to!(members => members@));
                            assert(decreases_to!(members@ => members@[i as int]));
                        }
                        dock_node_from_value(&members[i].1, contents)
                    },
                    None => None,
                };
                let second = match second_at {
                    Some(i) => {
                        proof {
                            assert(decreases_to!(members => members@));
                            assert(decreases_to!(members@ => members@[i as int]));
                        }
                        dock_node_from_value(&members[i].1, contents)
                    },
                    None => None,
                };
                return match (first, second) {
                    (Some(a), Some(b)) => {
                        let axis_keys_v = keys_of(3);
                        let axis = axis_from(member_text(value, axis_keys_v.as_slice()).as_slice());
                        let ratio_keys_v = keys_of(4);
                        let ratio = ratio_from(get_member(value, ratio_keys_v.as_slice()));
                        Some(DockNode::Split { axis, ratio, first: Box::new(a), second: Box::new(b) })
                    },
                    _ => None,
                };
            }
            let tabs_keys_v = keys_of(5);
            let tabs_value = get_member(value, tabs_keys_v.as_slice());
            let tabs_word = chars_of("tabs");
            if chars_eq(kind.as_slice(), tabs_word.as_slice()) || tabs_value.is_some() {
                let ids = match tabs_value {
                    Some(t) => tab_names(t),
                    None => Vec::new(),
                };
                if ids.len() == 0 {
                    assert(names_view(ids@).len() == 0);
                    return None;
                }
                let ghost id_views = names_view(ids@);
                let active_keys_v = keys_of(7);
                let active_text = member_text(value, active_keys_v.as_slice());
                let active = if active_text.len() == 0 {
                    copy_string(&ids[0])
                } else {
                    string_of(active_text.as_slice())
                };
                let mut panels: Vec<(String, Option<StableNodeId>)> = Vec::new();
                let mut i: usize = 0;
                while i < ids.len()
                    invariant
                        i <= ids@.len(),
                        id_views == names_view(ids@),
                        contents_view(panels@) == tab_contents(id_views, contents@).take(i as int),
                    decreases ids.len() - i,
                {
                    let name = chars_of_string(&ids[i]);
                    let content = find_content(contents, name.as_slice());
                    let ghost prev = contents_view(panels@);
                    assert(id_views[i as int] == name@);
                    panels.push((string_of(name.as_slice()), content));
                    assert(contents_view(panels@) =~= prev.push((name@, content)));
                    assert(tab_contents(id_views, contents@).take(i + 1) =~= tab_contents(
                        id_views,
                        contents@,
                    ).take(i as int).push((name@, content)));
                    i = i + 1;
                }
                assert(tab_contents(id_views, contents@).take(ids@.len() as int) =~= tab_contents(
                    id_views,
                    contents@,
                ));
                return Some(DockNode::Tabs { tabs: ids, active, contents: panels });
            }
            let item_keys_v = keys_of(8);
            let id = member_text(value, item_keys_v.as_slice());
            if id.len() == 0 {
                return None;
            }
            let content = find_content(contents, id.as_slice());
            Some(DockNode::Item { id: string_of(id.as_slice()), content })
        },
        _ => None,
    }
}

/// The root layout of a dock whose panels are `contents`, made without a
/// layout value (see [`slots_layout`]).
pub fn dock_root_from_slots(contents: &[(&str, Option<StableNodeId>)]) -> (root: DockNode)
    ensures
        root@ == slots_layout(contents@),
{
    if contents.len() == 0 {
        let id = chars_of("dock");
        return DockNode::Item { id: string_of(id.as_slice()), content: None };
    }
    if contents.len() == 1 {
        let id = chars_of(contents[0].0);
        return DockNode::Item { id: string_of(id.as_slice()), content: contents[0].1 };
    }
    let ghost names = contents@.map_values(|slot: (&str, Option<StableNodeId>)| slot.0@);
    let ghost items = contents@.map_values(|slot: (&str, Option<StableNodeId>)| (slot.0@, slot.1));
    let mut tabs: Vec<String> = Vec::new();
    let mut panels: Vec<(String, Option<StableNodeId>)> = Vec::new();
    let mut i: usize = 0;
    while i < contents.len()
        invariant
            i <= contents@.len(),
            names == contents@.map_values(|slot: (&str, Option<StableNodeId>)| slot.0@),
            items == contents@.map_values(|slot: (&str, Option<StableNodeId>)| (slot.0@, slot.1)),
            names_view(tabs@) == names.take(i as int),
            contents_view(panels@) == items.take(i as int),
        decreases contents.len() - i,
    {
        let name = chars_of(contents[i].0);
        let ghost prev_tabs = names_view(tabs@);
        let ghost prev_panels = contents_view(panels@);
        tabs.push(string_of(name.as_slice()));
        panels.push((string_of(name.as_slice()), contents[i].1));
        assert(names_view(tabs@) =~= prev_tabs.push(name@));
        assert(contents_view(panels@) =~= prev_panels.push((name@, contents@[i as int].1)));
        assert(names.take(i + 1) =~= names.take(i as int).push(name@));
        assert(items.take(i + 1) =~= items.take(i as int).push((name@, contents@[i as int].1)));
        i = i + 1;
    }
    assert(names.take(contents@.len() as int) =~= names);
    assert(items.take(contents@.len() as int) =~= items);
    let first = chars_of(contents[0].0);
    DockNode::Tabs { tabs, active: string_of(first.as_slice()), contents: panels }
}

/// The root a dock shows: the layout its layout value describes, else the
/// layout made from its slots.
pub fn dock_root(layout: Option<&JsonValue>, contents: &[(&str, Option<StableNodeId>)]) -> (root: DockNode)
    ensures
        root@ == dock_root_layout(
            match layout {
                Some(v) => Some(*v),
                None => None,
            },
            contents@,
        ),
{
    match layout {
        Some(value) => match dock_node_from_value(value, contents) {
            Some(root) => root,
            None => dock_root_from_slots(contents),
        },
        None => dock_root_from_slots(contents),
    }
}

impl DockNode {
    /// The panel names of the layout, in order.
    pub fn flatten(&self) -> (names: Vec<String>)
        ensures
            names_view(names@) == flatten(self@),
    {
        let mut names: Vec<String> = Vec::new();
        push_panel_names(self, &mut names);
        assert(names_view(names@) =~= flatten(self@));
        names
    }
}

} // verus!
