//! Keyboard navigation of a command palette's highlighted row, and the
//! window of rows it shows around that row.
use vstd::prelude::*;

use crate::json_value::{JsonValue, array_items, json_array, member_text, object_text, strs};
use crate::text::{chars_of, string_of};

verus! {

/// Rows a command palette shows at once.
pub const MAX_VISIBLE_ROWS: usize = 12;

/// A navigation key of an action picker.
#[derive(Debug, Clone, Copy, PartialEq, Eq, Structural)]
pub enum PaletteNavigation {
    Dismiss,
    Confirm,
    Previous,
    Next,
    First,
    Last,
}

/// What a navigation key asks of the palette.
#[derive(Debug, Clone, Copy, PartialEq, Eq, Structural)]
pub enum PaletteAction {
    /// Close the palette.
    Dismiss,
    /// Select the highlighted row's action.
    Confirm,
    /// The highlight moved.
    Navigate(PaletteNavigation),
}

/// The highlighted row after a movement key over `visible` rows.
pub open spec fn moved_selection(selected: int, visible: int, navigation: PaletteNavigation) -> int {
    match navigation {
        PaletteNavigation::Previous => if selected > 0 {
            selected - 1
        } else {
            0
        },
        PaletteNavigation::Next => if selected + 1 <= visible - 1 {
            selected + 1
        } else {
            visible - 1
        },
        PaletteNavigation::First => 0,
        PaletteNavigation::Last => visible - 1,
        _ => selected,
    }
}

pub open spec fn is_movement(navigation: PaletteNavigation) -> bool {
    navigation is Previous || navigation is Next || navigation is First || navigation is Last
}

/// Applies a navigation key to the highlighted row of `visible` rows:
/// dismiss is passed on, confirm selects the highlighted row when it is one
/// of the visible rows, movement keys move the highlight when there is a row
/// to move to, and are ignored otherwise.
pub fn navigate_selection(selected: &mut usize, visible: usize, navigation: PaletteNavigation) -> (action:
    Option<PaletteAction>)
    ensures
        navigation is Dismiss ==> action == Some(PaletteAction::Dismiss) && *final(selected) == *old(
            selected,
        ),
        navigation is Confirm ==> *final(selected) == *old(selected) && action == (if *old(selected)
            < visible {
            Some(PaletteAction::Confirm)
        } else {
            None
        }),
        is_movement(navigation) && visible > 0 ==> action == Some(PaletteAction::Navigate(navigation))
            && *final(selected) == moved_selection(*old(selected) as int, visible as int, navigation),
        is_movement(navigation) && visible == 0 ==> action is None && *final(selected) == *old(
            selected,
        ),
        is_movement(navigation) && visible > 0 && *old(selected) < visible ==> *final(selected)
            < visible,
{
    match navigation {
        PaletteNavigation::Dismiss => Some(PaletteAction::Dismiss),
        PaletteNavigation::Confirm => if *selected < visible {
            Some(PaletteAction::Confirm)
        } else {
            None
        },
        _ => {
            if visible == 0 {
                return None;
            }
            match navigation {
                PaletteNavigation::Previous => {
                    *selected = if *selected > 0 {
                        *selected - 1
                    } else {
                        0
                    };
                },
                PaletteNavigation::Next => {
                    let last = visible - 1;
                    *selected = if *selected < last {
                        *selected + 1
                    } else {
                        last
                    };
                },
                PaletteNavigation::First => {
                    *selected = 0;
                },
                _ => {
                    *selected = visible - 1;
                },
            }
            Some(PaletteAction::Navigate(navigation))
        },
    }
}

/// Over `visible > 0` rows with the highlight on one of them, each
/// movement key moves it as a list does: Previous one row up (staying on
/// the first row), Next one row down (staying on the last), First to the
/// first row and Last to the last; the highlight stays on a visible row.
pub proof fn movement_keys_move_by_rows(selected: int, visible: int)
    requires
        0 <= selected < visible,
    ensures
        selected > 0 ==> moved_selection(selected, visible, PaletteNavigation::Previous)
            == selected - 1,
        selected == 0 ==> moved_selection(selected, visible, PaletteNavigation::Previous) == 0,
        selected + 1 < visible ==> moved_selection(selected, visible, PaletteNavigation::Next)
            == selected + 1,
        selected + 1 == visible ==> moved_selection(selected, visible, PaletteNavigation::Next)
            == selected,
        moved_selection(selected, visible, PaletteNavigation::First) == 0,
        moved_selection(selected, visible, PaletteNavigation::Last) == visible - 1,
        forall|n: PaletteNavigation|
            is_movement(n) ==> 0 <= #[trigger] moved_selection(selected, visible, n) < visible,
{
}

/// First row of the window shown over `len` rows: the whole list when it
/// fits, else a window that keeps the highlighted row in view, centred
/// where the list allows.
pub fn window_start(len: usize, selected: usize) -> (start: usize)
    ensures
        start == (if len <= MAX_VISIBLE_ROWS {
            0
        } else {
            let centred = if selected >= MAX_VISIBLE_ROWS / 2 {
                selected - MAX_VISIBLE_ROWS / 2
            } else {
                0
            };
            if centred <= len - MAX_VISIBLE_ROWS {
                centred
            } else {
                len - MAX_VISIBLE_ROWS
            }
        }),
        selected < len ==> start <= selected < start + MAX_VISIBLE_ROWS,
        len > MAX_VISIBLE_ROWS ==> start + MAX_VISIBLE_ROWS <= len,
        len <= MAX_VISIBLE_ROWS ==> start == 0,
        len > MAX_VISIBLE_ROWS && 6 <= selected && selected + 6 <= len ==> start == selected - 6,
        len > MAX_VISIBLE_ROWS && selected < 6 ==> start == 0,
        len > MAX_VISIBLE_ROWS && selected + 6 > len ==> start == len - MAX_VISIBLE_ROWS,
{
    if len <= MAX_VISIBLE_ROWS {
        return 0;
    }
    let centred = if selected >= MAX_VISIBLE_ROWS / 2 {
        selected - MAX_VISIBLE_ROWS / 2
    } else {
        0
    };
    if centred <= len - MAX_VISIBLE_ROWS {
        centred
    } else {
        len - MAX_VISIBLE_ROWS
    }
}


/// One action a command palette offers.
#[derive(Debug, Clone, PartialEq, Eq)]
pub struct CommandPaletteItem {
    /// What selecting the item reports.
    pub action: String,
    pub label: String,
    pub category: Option<String>,
    pub shortcut: Option<String>,
}

pub open spec fn optional_text(s: Option<String>) -> Option<Seq<char>> {
    match s {
        Some(t) => Some(t@),
        None => None,
    }
}

impl View for CommandPaletteItem {
    type V = (Seq<char>, Seq<char>, Option<Seq<char>>, Option<Seq<char>>);

    open spec fn view(&self) -> (Seq<char>, Seq<char>, Option<Seq<char>>, Option<Seq<char>>) {
        (self.action@, self.label@, optional_text(self.category), optional_text(self.shortcut))
    }
}

pub open spec fn nonempty_text(t: Seq<char>) -> Option<Seq<char>> {
    if t.len() > 0 {
        Some(t)
    } else {
        None
    }
}

/// The palette item a JSON value describes: a non-empty string is an item
/// whose action and label are that string; an object needs an action
/// (`value`, `action`, `id` or `key`) or a label (`label`, `title` or
/// `text`), each standing in for the other when missing, and may add a
/// `category`/`group` and a `shortcut`/`keys`.
pub open spec fn palette_item_of(value: JsonValue) -> Option<
    (Seq<char>, Seq<char>, Option<Seq<char>>, Option<Seq<char>>),
> {
    match value {
        JsonValue::Object(_) => {
            let action = object_text(value, strs(seq!["value", "action", "id", "key"]));
            let label = object_text(value, strs(seq!["label", "title", "text"]));
            if action.len() == 0 && label.len() == 0 {
                None
            } else {
                let identity = if action.len() == 0 {
                    label
                } else {
                    action
                };
                let caption = if label.len() == 0 {
                    identity
                } else {
                    label
                };
                Some(
                    (
                        identity,
                        caption,
                        nonempty_text(object_text(value, strs(seq!["category", "group"]))),
                        nonempty_text(object_text(value, strs(seq!["shortcut", "keys"]))),
                    ),
                )
            }
        },
        JsonValue::Text(s) => if s@.len() > 0 {
            Some((s@, s@, None, None))
        } else {
            None
        },
        _ => None,
    }
}

/// An object item's action is its action text (`value`, `action`, `id` or
/// `key`) and its label its label text (`label`, `title` or `text`); when
/// one is empty the other stands in for it, and with both empty there is no
/// item. Category and shortcut are kept only when non-empty.
pub proof fn palette_items_are_named_by_action_or_label(value: JsonValue)
    ensures
        ({
            let action = object_text(value, strs(seq!["value", "action", "id", "key"]));
            let label = object_text(value, strs(seq!["label", "title", "text"]));
            value is Object ==> {
                &&& (palette_item_of(value) is None <==> action.len() == 0 && label.len() == 0)
                &&& palette_item_of(value) matches Some(item) ==> {
                    &&& item.0 == (if action.len() > 0 {
                        action
                    } else {
                        label
                    })
                    &&& item.1 == (if label.len() > 0 {
                        label
                    } else {
                        action
                    })
                    &&& (item.2 matches Some(c) ==> c.len() > 0 && c == object_text(
                        value,
                        strs(seq!["category", "group"]),
                    ))
                    &&& (item.2 is None ==> object_text(value, strs(seq!["category", "group"])).len()
                        == 0)
                    &&& (item.3 matches Some(k) ==> k.len() > 0 && k == object_text(
                        value,
                        strs(seq!["shortcut", "keys"]),
                    ))
                    &&& (item.3 is None ==> object_text(value, strs(seq!["shortcut", "keys"])).len()
                        == 0)
                }
            }
        }),
        value matches JsonValue::Text(s) ==> (palette_item_of(value) is None <==> s@.len() == 0) && (
        palette_item_of(value) matches Some(item) ==> item == (s@, s@, None::<Seq<char>>, None::<
            Seq<char>,
        >)),
{
}

/// The items that the entries of an array describe, in order.
pub open spec fn palette_items_of(entries: Seq<JsonValue>) -> Seq<
    (Seq<char>, Seq<char>, Option<Seq<char>>, Option<Seq<char>>),
>
    decreases entries.len(),
{
    if entries.len() == 0 {
        Seq::empty()
    } else {
        let rest = palette_items_of(entries.drop_last());
        match palette_item_of(entries.last()) {
            Some(item) => rest.push(item),
            None => rest,
        }
    }
}

fn palette_keys(which: u8) -> (r: Vec<&'static str>)
    ensures
        which == 0 ==> r@ == seq!["value", "action", "id", "key"],
        which == 1 ==> r@ == seq!["label", "title", "text"],
        which == 2 ==> r@ == seq!["category", "group"],
        which == 3 ==> r@ == seq!["shortcut", "keys"],
{
    let r = match which {
        0 => vec!["value", "action", "id", "key"],
        1 => vec!["label", "title", "text"],
        2 => vec!["category", "group"],
        _ => vec!["shortcut", "keys"],
    };
    assert(which == 0 ==> r@ =~= seq!["value", "action", "id", "key"]);
    assert(which == 1 ==> r@ =~= seq!["label", "title", "text"]);
    assert(which == 2 ==> r@ =~= seq!["category", "group"]);
    assert(which == 3 ==> r@ =~= seq!["shortcut", "keys"]);
    r
}

fn optional_string(t: Vec<char>) -> (r: Option<String>)
    ensures
        optional_text(r) == nonempty_text(t@),
{
    if t.len() > 0 {
        Some(string_of(t.as_slice()))
    } else {
        None
    }
}

/// The palette item `value` describes (see [`palette_item_of`]).
pub fn command_palette_item_from_value(value: &JsonValue) -> (r: Option<CommandPaletteItem>)
    ensures
        match r {
            Some(item) => palette_item_of(*value) == Some(item@),
            None => palette_item_of(*value) is None,
        },
{
    match value {
        JsonValue::Object(_) => {
            let action_keys = palette_keys(0);
            let label_keys = palette_keys(1);
            let action = member_text(value, action_keys.as_slice());
            let label = member_text(value, label_keys.as_slice());
            if action.len() == 0 && label.len() == 0 {
                return None;
            }
            let identity: &Vec<char> = if action.len() == 0 {
                &label
            } else {
                &action
            };
            let caption: &Vec<char> = if label.len() == 0 {
                identity
            } else {
                &label
            };
            let category_keys = palette_keys(2);
            let shortcut_keys = palette_keys(3);
            let category = optional_string(member_text(value, category_keys.as_slice()));
            let shortcut = optional_string(member_text(value, shortcut_keys.as_slice()));
            Some(
                CommandPaletteItem {
                    action: string_of(identity.as_slice()),
                    label: string_of(caption.as_slice()),
                    category,
                    shortcut,
                },
            )
        },
        JsonValue::Text(s) => {
            let text = chars_of(s.as_str());
            if text.len() == 0 {
                return None;
            }
            Some(
                CommandPaletteItem {
                    action: string_of(text.as_slice()),
                    label: string_of(text.as_slice()),
                    category: None,
                    shortcut: None,
                },
            )
        },
        _ => None,
    }
}

/// The palette items that `value`, read as an array, describes.
pub fn command_palette_items_from_value(value: &JsonValue) -> (items: Vec<CommandPaletteItem>)
    ensures
        items@.map_values(|item: CommandPaletteItem| item@) == palette_items_of(json_array(*value)),
{
    let entries = array_items(value);
    let ghost all = json_array(*value);
    let mut items: Vec<CommandPaletteItem> = Vec::new();
    let mut j: usize = 0;
    while j < entries.len()
        invariant
            j <= entries@.len(),
            entries@.len() == all.len(),
            forall|i: int| 0 <= i < entries@.len() ==> *entries@[i] == all[i],
            items@.map_values(|item: CommandPaletteItem| item@) == palette_items_of(
                all.take(j as int),
            ),
        decreases entries.len() - j,
    {
        assert(all.take(j + 1).drop_last() =~= all.take(j as int));
        assert(all.take(j + 1).last() == all[j as int]);
        let ghost prev = items@.map_values(|item: CommandPaletteItem| item@);
        match command_palette_item_from_value(entries[j]) {
            Some(item) => {
                let ghost view = item@;
                items.push(item);
                assert(items@.map_values(|item: CommandPaletteItem| item@) =~= prev.push(view));
            },
            None => {},
        }
        j = j + 1;
    }
    assert(all.take(all.len() as int) =~= all);
    items
}

} // verus!
