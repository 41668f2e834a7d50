//! Tree-view nodes read from a JSON attribute: each node's identity, label,
//! flags and children.
use vstd::prelude::*;

use crate::json_value::{
    JsonValue, get_member, index_positions, indexed_positions,
    lemma_lookup_in_range, lookup_member, member_lookup, member_text, object_get, object_text, strs,
};
use crate::text::{chars_eq, chars_eq_ignore_case, chars_of, eq_ignore_case, string_of};

verus! {

/// A node of a tree view. A branch has at least one child; the icon is the
/// icon name as written, which the host looks up.
#[derive(Debug, PartialEq)]
pub enum TreeItem {
    Leaf { id: String, label: String, selected: bool, disabled: bool, icon: Option<String> },
    Branch {
        id: String,
        label: String,
        expanded: bool,
        children: Vec<TreeItem>,
        selected: bool,
        disabled: bool,
        icon: Option<String>,
    },
}

/// What a tree node holds, with text as char sequences.
pub enum TreeShape {
    Leaf { id: Seq<char>, label: Seq<char>, selected: bool, disabled: bool, icon: Option<Seq<char>> },
    Branch {
        id: Seq<char>,
        label: Seq<char>,
        expanded: bool,
        children: Seq<TreeShape>,
        selected: bool,
        disabled: bool,
        icon: Option<Seq<char>>,
    },
}

pub open spec fn icon_view(icon: Option<String>) -> Option<Seq<char>> {
    match icon {
        Some(t) => Some(t@),
        None => None,
    }
}

pub open spec fn shape_of(item: TreeItem) -> TreeShape
    decreases item, 0nat,
{
    match item {
        TreeItem::Leaf { id, label, selected, disabled, icon } => TreeShape::Leaf {
            id: id@,
            label: label@,
            selected,
            disabled,
            icon: icon_view(icon),
        },
        TreeItem::Branch { id, label, expanded, children, selected, disabled, icon } => {
            proof {
                assert(decreases_to!(children => children@));
            }
            TreeShape::Branch {
                id: id@,
                label: label@,
                expanded,
                children: shapes_of(children@),
                selected,
                disabled,
                icon: icon_view(icon),
            }
        },
    }
}

pub open spec fn shapes_of(items: Seq<TreeItem>) -> Seq<TreeShape>
    decreases items, 1nat,
{
    if items.len() == 0 {
        Seq::empty()
    } else {
        shapes_of(items.drop_last()).push(shape_of(items.last()))
    }
}

impl View for TreeItem {
    type V = TreeShape;

    open spec fn view(&self) -> TreeShape {
        shape_of(*self)
    }
}

/// JSON number text with no non-zero digit before its exponent: a zero.
pub open spec fn zero_number_text(t: Seq<char>) -> bool {
    forall|i: int|
        0 <= i < t.len() && (forall|j: int| 0 <= j <= i ==> t[j] != 'e' && t[j] != 'E') ==> !(
        '1' <= #[trigger] t[i] <= '9')
}

/// Whether a value reads as set: `true`, a non-zero number, any string but
/// empty text, `false` (any ASCII case) and `0`, and any array or object.
pub open spec fn json_truthy(value: JsonValue) -> bool {
    match value {
        JsonValue::Bool(b) => b,
        JsonValue::Number(t) => !zero_number_text(t@),
        JsonValue::Text(s) => s@.len() > 0 && !eq_ignore_case(s@, "false"@) && s@ != "0"@,
        JsonValue::Null => false,
        _ => true,
    }
}

/// Whether the member that `names` finds reads as set.
pub open spec fn object_truthy(value: JsonValue, names: Seq<Seq<char>>) -> bool {
    match object_get(value, names) {
        Some(v) => json_truthy(v),
        None => false,
    }
}

pub open spec fn nonempty_text(t: Seq<char>) -> Option<Seq<char>> {
    if t.len() > 0 {
        Some(t)
    } else {
        None
    }
}

/// The tree node a JSON value describes: a non-empty string is a leaf
/// named and labelled by it; an object needs an identity (`value`, `id` or
/// `key`) or a label (`label`, `title` or `text`), each standing in for the
/// other when missing, and reads `expanded`, `selected` and `disabled`
/// flags, an `icon` name and `children`; it is a branch when a child
/// decodes, else a leaf.
pub open spec fn tree_of(value: JsonValue) -> Option<TreeShape>
    decreases value, 0nat,
{
    match value {
        JsonValue::Object(members) => {
            let id = object_text(value, strs(seq!["value", "id", "key"]));
            let label = object_text(value, strs(seq!["label", "title", "text"]));
            if id.len() == 0 && label.len() == 0 {
                None
            } else {
                let children = match member_lookup(members@, strs(seq!["children"])) {
                    Some(i) => if 0 <= i < members@.len() {
                        proof {
                            assert(decreases_to!(members => members@));
                            assert(decreases_to!(members@ => members@[i]));
                        }
                        children_of(members@[i].1)
                    } else {
                        Seq::empty()
                    },
                    None => Seq::empty(),
                };
                let identity = if id.len() == 0 {
                    label
                } else {
                    id
                };
                let caption = if label.len() == 0 {
                    identity
                } else {
                    label
                };
                let selected = object_truthy(value, strs(seq!["selected"]));
                let disabled = object_truthy(value, strs(seq!["disabled"]));
                let icon = nonempty_text(object_text(value, strs(seq!["icon"])));
                if children.len() == 0 {
                    Some(TreeShape::Leaf { id: identity, label: caption, selected, disabled, icon })
                } else {
                    Some(
                        TreeShape::Branch {
                            id: identity,
                            label: caption,
                            expanded: object_truthy(value, strs(seq!["expanded"])),
                            children,
                            selected,
                            disabled,
                            icon,
                        },
                    )
                }
            }
        },
        JsonValue::Text(s) => if s@.len() > 0 {
            Some(TreeShape::Leaf { id: s@, label: s@, selected: false, disabled: false, icon: None })
        } else {
            None
        },
        _ => None,
    }
}

/// Whether a node is selected.
pub open spec fn shape_selected(shape: TreeShape) -> bool {
    match shape {
        TreeShape::Leaf { selected, .. } => selected,
        TreeShape::Branch { selected, .. } => selected,
    }
}

/// Whether a node is disabled.
pub open spec fn shape_disabled(shape: TreeShape) -> bool {
    match shape {
        TreeShape::Leaf { disabled, .. } => disabled,
        TreeShape::Branch { disabled, .. } => disabled,
    }
}

/// An object node's `selected`, `disabled` and (for a branch) `expanded`
/// flags are what a JSON boolean in that member says, and clear when the
/// member is missing; a string node has both flags clear.
pub proof fn boolean_flags_read_as_written(value: JsonValue, b: bool)
    requires
        tree_of(value) is Some,
    ensures
        object_get(value, strs(seq!["selected"])) == Some(JsonValue::Bool(b)) ==> shape_selected(
            tree_of(value)->0,
        ) == b,
        object_get(value, strs(seq!["disabled"])) == Some(JsonValue::Bool(b)) ==> shape_disabled(
            tree_of(value)->0,
        ) == b,
        object_get(value, strs(seq!["selected"])) is None ==> !shape_selected(tree_of(value)->0),
        object_get(value, strs(seq!["disabled"])) is None ==> !shape_disabled(tree_of(value)->0),
        tree_of(value)->0 matches TreeShape::Branch { expanded, .. } ==> (object_get(
            value,
            strs(seq!["expanded"]),
        ) == Some(JsonValue::Bool(b)) ==> expanded == b) && (object_get(
            value,
            strs(seq!["expanded"]),
        ) is None ==> !expanded),
{
}

/// A node's identity and label.
pub open spec fn shape_names(shape: TreeShape) -> (Seq<char>, Seq<char>) {
    match shape {
        TreeShape::Leaf { id, label, .. } => (id, label),
        TreeShape::Branch { id, label, .. } => (id, label),
    }
}

/// An object node is named by its identity text (`value`, `id` or `key`)
/// and labelled by its label text (`label`, `title` or `text`); when one is
/// empty the other stands in for it, and with both empty there is no node.
/// A string node is named and labelled by the string.
pub proof fn tree_nodes_are_named_by_identity_or_label(value: JsonValue)
    ensures
        ({
            let id = object_text(value, strs(seq!["value", "id", "key"]));
            let label = object_text(value, strs(seq!["label", "title", "text"]));
            value is Object ==> {
                &&& (tree_of(value) is None <==> id.len() == 0 && label.len() == 0)
                &&& tree_of(value) matches Some(shape) ==> {
                    &&& shape_names(shape).0 == (if id.len() > 0 {
                        id
                    } else {
                        label
                    })
                    &&& shape_names(shape).1 == (if label.len() > 0 {
                        label
                    } else {
                        id
                    })
                }
            }
        }),
        value matches JsonValue::Text(s) ==> (tree_of(value) is None <==> s@.len() == 0) && (
        tree_of(value) matches Some(shape) ==> shape_names(shape) == (s@, s@)),
{
}

/// The nodes that the items of `children`, read as an array, describe.
pub open spec fn children_of(children: JsonValue) -> Seq<TreeShape>
    decreases children, 1nat,
{
    match children {
        JsonValue::Array(items) => {
            proof {
                assert(decreases_to!(items => items@));
            }
            trees_in(items@)
        },
        JsonValue::Object(members) => {
            proof {
                assert(decreases_to!(members => members@));
            }
            trees_at(members@, indexed_positions(members@))
        },
        _ => Seq::empty(),
    }
}

/// The nodes that `items` describe, in order.
pub open spec fn trees_in(items: Seq<JsonValue>) -> Seq<TreeShape>
    decreases items, 0nat,
{
    if items.len() == 0 {
        Seq::empty()
    } else {
        let rest = trees_in(items.drop_last());
        match tree_of(items.last()) {
            Some(node) => rest.push(node),
            None => rest,
        }
    }
}

/// The nodes that the members at `positions` describe, in order.
pub open spec fn trees_at(members: Seq<(String, JsonValue)>, positions: Seq<int>) -> Seq<TreeShape>
    decreases members, positions.len(),
{
    if positions.len() == 0 {
        Seq::empty()
    } else {
        let rest = trees_at(members, positions.drop_last());
        let p = positions.last();
        if 0 <= p < members.len() {
            match tree_of(members[p].1) {
                Some(node) => rest.push(node),
                None => rest,
            }
        } else {
            rest
        }
    }
}


proof fn lemma_shapes_len(items: Seq<TreeItem>)
    ensures
        shapes_of(items).len() == items.len(),
    decreases items.len(),
{
    if items.len() > 0 {
        lemma_shapes_len(items.drop_last());
    }
}

proof fn lemma_shapes_push(items: Seq<TreeItem>, item: TreeItem)
    ensures
        shapes_of(items.push(item)) == shapes_of(items).push(shape_of(item)),
{
    assert(items.push(item).drop_last() =~= items);
}

fn tree_keys(which: u8) -> (r: Vec<&'static str>)
    ensures
        which == 0 ==> r@ == seq!["value", "id", "key"],
        which == 1 ==> r@ == seq!["label", "title", "text"],
        which == 2 ==> r@ == seq!["children"],
        which == 3 ==> r@ == seq!["selected"],
        which == 4 ==> r@ == seq!["disabled"],
        which == 5 ==> r@ == seq!["icon"],
        which == 6 ==> r@ == seq!["expanded"],
{
    let r = match which {
        0 => vec!["value", "id", "key"],
        1 => vec!["label", "title", "text"],
        2 => vec!["children"],
        3 => vec!["selected"],
        4 => vec!["disabled"],
        5 => vec!["icon"],
        _ => vec!["expanded"],
    };
    assert(which == 0 ==> r@ =~= seq!["value", "id", "key"]);
    assert(which == 1 ==> r@ =~= seq!["label", "title", "text"]);
    assert(which == 2 ==> r@ =~= seq!["children"]);
    assert(which == 3 ==> r@ =~= seq!["selected"]);
    assert(which == 4 ==> r@ =~= seq!["disabled"]);
    assert(which == 5 ==> r@ =~= seq!["icon"]);
    assert(which == 6 ==> r@ =~= seq!["expanded"]);
    r
}

fn zero_number(t: &[char]) -> (r: bool)
    ensures
        r == zero_number_text(t@),
{
    let mut i: usize = 0;
    while i < t.len()
        invariant
            i <= t@.len(),
            forall|k: int| 0 <= k < i ==> t@[k] != 'e' && t@[k] != 'E' && !('1' <= t@[k] <= '9'),
        decreases t.len() - i,
    {
        let c = t[i];
        if c == 'e' || c == 'E' {
            assert forall|k: int|
                0 <= k < t@.len() && (forall|j: int| 0 <= j <= k ==> t@[j] != 'e' && t@[j] != 'E')
                implies !('1' <= #[trigger] t@[k] <= '9') by {
                if k >= i {
                    assert(t@[i as int] == c);
                }
            }
            return true;
        }
        if '1' <= c && c <= '9' {
            assert(!zero_number_text(t@)) by {
                assert(forall|j: int| 0 <= j <= i ==> t@[j] != 'e' && t@[j] != 'E');
                assert(t@[i as int] == c);
            }
            return false;
        }
        i = i + 1;
    }
    true
}

fn truthy(value: &JsonValue) -> (r: bool)
    ensures
        r == json_truthy(*value),
{
    match value {
        JsonValue::Bool(b) => *b,
        JsonValue::Number(t) => {
            let text = chars_of(t.as_str());
            !zero_number(text.as_slice())
        },
        JsonValue::Text(s) => {
            let text = chars_of(s.as_str());
            let word_false = chars_of("false");
            let word_zero = chars_of("0");
            text.len() > 0 && !chars_eq_ignore_case(text.as_slice(), word_false.as_slice())
                && !chars_eq(text.as_slice(), word_zero.as_slice())
        },
        JsonValue::Null => false,
        _ => true,
    }
}

fn member_truthy(value: &JsonValue, names: &[&str]) -> (r: bool)
    ensures
        r == object_truthy(*value, strs(names@)),
{
    match get_member(value, names) {
        Some(v) => truthy(v),
        None => false,
    }
}

/// The tree node `value` describes (see [`tree_of`]).
pub fn tree_node_from_value(value: &JsonValue) -> (r: Option<TreeItem>)
    ensures
        match r {
            Some(node) => tree_of(*value) == Some(node@),
            None => tree_of(*value) is None,
        },
    decreases value, 0nat,
{
    match value {
        JsonValue::Object(members) => {
            let id_keys = tree_keys(0);
            let label_keys = tree_keys(1);
            let id = member_text(value, id_keys.as_slice());
            let label = member_text(value, label_keys.as_slice());
            if id.len() == 0 && label.len() == 0 {
                return None;
            }
            let children_keys = tree_keys(2);
            proof {
                lemma_lookup_in_range(members@, strs(children_keys@));
            }
            let children = match lookup_member(members, children_keys.as_slice()) {
                Some(i) => {
                    proof {
                        assert(decreases_to!(*value => (*value)->Object_0));
                        assert(decreases_to!(members => members@));
                        assert(decreases_to!(members@ => members@[i as int]));
                    }
                    tree_nodes_from_value(&members[i].1)
                },
                None => Vec::new(),
            };
            proof {
                lemma_shapes_len(children@);
            }
            let identity: &Vec<char> = if id.len() == 0 {
                &label
            } else {
                &id
            };
            let caption: &Vec<char> = if label.len() == 0 {
                identity
            } else {
                &label
            };
            let selected_keys = tree_keys(3);
            let disabled_keys = tree_keys(4);
            let icon_keys = tree_keys(5);
            let selected = member_truthy(value, selected_keys.as_slice());
            let disabled = member_truthy(value, disabled_keys.as_slice());
            let icon_text = member_text(value, icon_keys.as_slice());
            let icon = if icon_text.len() > 0 {
                Some(string_of(icon_text.as_slice()))
            } else {
                None
            };
            if children.len() == 0 {
                Some(
                    TreeItem::Leaf {
                        id: string_of(identity.as_slice()),
                        label: string_of(caption.as_slice()),
                        selected,
                        disabled,
                        icon,
                    },
                )
            } else {
                let expanded_keys = tree_keys(6);
                let expanded = member_truthy(value, expanded_keys.as_slice());
                Some(
                    TreeItem::Branch {
                        id: string_of(identity.as_slice()),
                        label: string_of(caption.as_slice()),
                        expanded,
                        children,
                        selected,
                        disabled,
                        icon,
                    },
                )
            }
        },
        JsonValue::Text(s) => {
            let text = chars_of(s.as_str());
            if text.len() == 0 {
                return None;
            }
            Some(
                TreeItem::Leaf {
                    id: string_of(text.as_slice()),
                    label: string_of(text.as_slice()),
                    selected: false,
                    disabled: false,
                    icon: None,
                },
            )
        },
        _ => None,
    }
}

/// The tree nodes that the items of `value`, read as an array, describe
/// (see [`children_of`]).
pub fn tree_nodes_from_value(value: &JsonValue) -> (nodes: Vec<TreeItem>)
    ensures
        shapes_of(nodes@) == children_of(*value),
    decreases value, 1nat,
{
    match value {
        JsonValue::Array(items) => {
            let mut nodes: Vec<TreeItem> = Vec::new();
            let mut j: usize = 0;
            while j < items.len()
                invariant
                    j <= items@.len(),
                    *value == JsonValue::Array(*items),
                    shapes_of(nodes@) == trees_in(items@.take(j as int)),
                decreases items.len() - j,
            {
                assert(items@.take(j + 1).drop_last() =~= items@.take(j as int));
                assert(items@.take(j + 1).last() == items@[j as int]);
                proof {
                    assert(decreases_to!(*value => (*value)->Array_0));
                    assert(decreases_to!(items => items@));
                    assert(decreases_to!(items@ => items@[j as int]));
                }
                match tree_node_from_value(&items[j]) {
                    Some(node) => {
                        proof {
                            lemma_shapes_push(nodes@, node);
                        }
                        nodes.push(node);
                    },
                    None => {},
                }
                j = j + 1;
            }
            assert(items@.take(items@.len() as int) =~= items@);
            nodes
        },
        JsonValue::Object(members) => {
            let positions = index_positions(members);
            let ghost order = indexed_positions(members@);
            let mut nodes: Vec<TreeItem> = Vec::new();
            let mut j: usize = 0;
            while j < positions.len()
                invariant
                    j <= positions@.len(),
                    *value == JsonValue::Object(*members),
                    order == indexed_positions(members@),
                    positions@.len() == order.len(),
                    forall|m: int|
                        0 <= m < positions@.len() ==> (#[trigger] positions@[m]) == order[m]
                            && positions@[m] < members@.len(),
                    shapes_of(nodes@) == trees_at(members@, order.take(j as int)),
                decreases positions.len() - j,
            {
                assert(order.take(j + 1).drop_last() =~= order.take(j as int));
                assert(order.take(j + 1).last() == order[j as int]);
                let p = positions[j];
                proof {
                    assert(decreases_to!(*value => (*value)->Object_0));
                    assert(decreases_to!(members => members@));
                    assert(decreases_to!(members@ => members@[p as int]));
                }
                match tree_node_from_value(&members[p].1) {
                    Some(node) => {
                        proof {
                            lemma_shapes_push(nodes@, node);
                        }
                        nodes.push(node);
                    },
                    None => {},
                }
                j = j + 1;
            }
            assert(order.take(order.len() as int) =~= order);
            nodes
        },
        _ => Vec::new(),
    }
}
} // verus!
