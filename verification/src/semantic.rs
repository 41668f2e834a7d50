//! The semantic description a host hands to a builtin component: text
//! props, state flags, extra attributes and named child slots. Attribute and
//! slot names match without regard to ASCII case; the first match wins.
use vstd::prelude::*;

use crate::attributes::optional_view;
use crate::ids::StableNodeId;
use crate::registry::ComponentTypeId;
use crate::text::{chars_eq_ignore_case, chars_of, eq_ignore_case};
use crate::types::SemanticOption;

verus! {

/// Value of the first attribute whose name equals `name` ignoring ASCII case.
pub open spec fn attr_value(attrs: Seq<(&str, &str)>, name: Seq<char>) -> Option<Seq<char>>
    decreases attrs.len(),
{
    if attrs.len() == 0 {
        None
    } else if eq_ignore_case(attrs[0].0@, name) {
        Some(attrs[0].1@)
    } else {
        attr_value(attrs.drop_first(), name)
    }
}

/// Node of the first slot whose name equals `name` ignoring ASCII case.
pub open spec fn slot_value(slots: Seq<(&str, StableNodeId)>, name: Seq<char>) -> Option<StableNodeId>
    decreases slots.len(),
{
    if slots.len() == 0 {
        None
    } else if eq_ignore_case(slots[0].0@, name) {
        Some(slots[0].1)
    } else {
        slot_value(slots.drop_first(), name)
    }
}

/// An attribute lookup finds the value of the first attribute whose name
/// equals `name` ignoring ASCII case, and finds none only when no
/// attribute has such a name.
pub proof fn attribute_lookup_finds_first_named(attrs: Seq<(&str, &str)>, name: Seq<char>)
    ensures
        attr_value(attrs, name) matches Some(v) ==> exists|k: int|
            0 <= k < attrs.len() && eq_ignore_case((#[trigger] attrs[k]).0@, name) && attrs[k].1@ == v
                && forall|j: int| 0 <= j < k ==> !eq_ignore_case(attrs[j].0@, name),
        attr_value(attrs, name) is None ==> forall|k: int|
            0 <= k < attrs.len() ==> !eq_ignore_case((#[trigger] attrs[k]).0@, name),
    decreases attrs.len(),
{
    if attrs.len() > 0 {
        let rest = attrs.drop_first();
        attribute_lookup_finds_first_named(rest, name);
        if !eq_ignore_case(attrs[0].0@, name) {
            match attr_value(rest, name) {
                Some(v) => {
                    let k = choose|k: int|
                        0 <= k < rest.len() && eq_ignore_case((#[trigger] rest[k]).0@, name)
                            && rest[k].1@ == v && forall|j: int| 0 <= j < k ==> !eq_ignore_case(
                            rest[j].0@,
                            name,
                        );
                    assert(attrs[k + 1] == rest[k]);
                    assert forall|j: int| 0 <= j < k + 1 implies !eq_ignore_case(attrs[j].0@, name) by {
                        if j > 0 {
                            assert(attrs[j] == rest[j - 1]);
                        }
                    }
                },
                None => {
                    assert forall|k: int| 0 <= k < attrs.len() implies !eq_ignore_case(
                        (#[trigger] attrs[k]).0@,
                        name,
                    ) by {
                        if k > 0 {
                            assert(attrs[k] == rest[k - 1]);
                        }
                    }
                },
            }
        }
    }
}

/// The same for named slots: the node of the first slot whose name equals
/// `name` ignoring ASCII case, none only when no slot has such a name.
pub proof fn slot_lookup_finds_first_named(slots: Seq<(&str, StableNodeId)>, name: Seq<char>)
    ensures
        slot_value(slots, name) matches Some(node) ==> exists|k: int|
            0 <= k < slots.len() && eq_ignore_case((#[trigger] slots[k]).0@, name) && slots[k].1 == node
                && forall|j: int| 0 <= j < k ==> !eq_ignore_case(slots[j].0@, name),
        slot_value(slots, name) is None ==> forall|k: int|
            0 <= k < slots.len() ==> !eq_ignore_case((#[trigger] slots[k]).0@, name),
    decreases slots.len(),
{
    if slots.len() > 0 {
        let rest = slots.drop_first();
        slot_lookup_finds_first_named(rest, name);
        if !eq_ignore_case(slots[0].0@, name) {
            match slot_value(rest, name) {
                Some(node) => {
                    let k = choose|k: int|
                        0 <= k < rest.len() && eq_ignore_case((#[trigger] rest[k]).0@, name)
                            && rest[k].1 == node && forall|j: int| 0 <= j < k ==> !eq_ignore_case(
                            rest[j].0@,
                            name,
                        );
                    assert(slots[k + 1] == rest[k]);
                    assert forall|j: int| 0 <= j < k + 1 implies !eq_ignore_case(slots[j].0@, name) by {
                        if j > 0 {
                            assert(slots[j] == rest[j - 1]);
                        }
                    }
                },
                None => {
                    assert forall|k: int| 0 <= k < slots.len() implies !eq_ignore_case(
                        (#[trigger] slots[k]).0@,
                        name,
                    ) by {
                        if k > 0 {
                            assert(slots[k] == rest[k - 1]);
                        }
                    }
                },
            }
        }
    }
}

/// `first` if it is present, else the attribute named `name`.
pub open spec fn or_attr(first: Option<Seq<char>>, attrs: Seq<(&str, &str)>, name: Seq<char>) -> Option<Seq<char>> {
    match first {
        Some(v) => Some(v),
        None => attr_value(attrs, name),
    }
}

/// Value of the attribute under the first of `names` that is present.
pub open spec fn first_attr(attrs: Seq<(&str, &str)>, names: Seq<&str>) -> Option<Seq<char>>
    decreases names.len(),
{
    if names.len() == 0 {
        None
    } else {
        match attr_value(attrs, names[0]@) {
            Some(v) => Some(v),
            None => first_attr(attrs, names.drop_first()),
        }
    }
}

/// Property bag of one component: text props, state flags, options, extra
/// host attributes and named child slots.
#[derive(Debug, Clone, Copy)]
pub struct SemanticSpec<'a> {
    pub type_id: &'a ComponentTypeId,
    pub label: &'a str,
    pub value: &'a str,
    pub hint: &'a str,
    pub placeholder: &'a str,
    pub disabled: bool,
    pub loading: bool,
    pub invalid: bool,
    pub active: bool,
    pub toggled: bool,
    pub read_only: bool,
    pub secure: bool,
    pub options: &'a [SemanticOption<'a>],
    /// Extra host attributes. Plugins read these instead of extending this struct.
    pub attrs: &'a [(&'a str, &'a str)],
    /// Named child slots (`leading`, `body`, `control`, ...).
    pub slots: &'a [(&'a str, StableNodeId)],
}

impl<'a> SemanticSpec<'a> {
    /// A spec of component type `type_id` with empty text, all flags off and
    /// no options, attributes or slots.
    pub fn from_parts(type_id: &'a ComponentTypeId) -> (spec: Self)
        ensures
            spec.type_id == type_id,
            spec.label@.len() == 0,
            spec.value@.len() == 0,
            spec.hint@.len() == 0,
            spec.placeholder@.len() == 0,
            !spec.disabled && !spec.loading && !spec.invalid && !spec.active,
            !spec.toggled && !spec.read_only && !spec.secure,
            spec.options@.len() == 0,
            spec.attrs@.len() == 0,
            spec.slots@.len() == 0,
    {
        proof {
            reveal_strlit("");
        }
        SemanticSpec {
            type_id,
            label: "",
            value: "",
            hint: "",
            placeholder: "",
            disabled: false,
            loading: false,
            invalid: false,
            active: false,
            toggled: false,
            read_only: false,
            secure: false,
            options: &[],
            attrs: &[],
            slots: &[],
        }
    }

    /// Attribute lookup by a name given as chars.
    pub fn attr_chars(&self, name: &[char]) -> (r: Option<&'a str>)
        ensures
            optional_view(r) == attr_value(self.attrs@, name@),
    {
        let attrs = self.attrs;
        let mut i: usize = 0;
        assert(attrs@.skip(0) =~= attrs@);
        while i < attrs.len()
            invariant
                attrs == self.attrs,
                i <= attrs@.len(),
                attr_value(attrs@, name@) == attr_value(attrs@.skip(i as int), name@),
            decreases attrs.len() - i,
        {
            let (key, value) = attrs[i];
            assert(attrs@.skip(i as int).drop_first() =~= attrs@.skip(i + 1));
            assert(attrs@.skip(i as int)[0] == attrs@[i as int]);
            let key_chars = chars_of(key);
            if chars_eq_ignore_case(key_chars.as_slice(), name) {
                assert(attrs@.skip(i as int)[0].0@ == key@);
                return Some(value);
            }
            i = i + 1;
        }
        None
    }

    /// Value of the first attribute named `name`, ignoring ASCII case.
    pub fn attr(&self, name: &str) -> (r: Option<&'a str>)
        ensures
            optional_view(r) == attr_value(self.attrs@, name@),
    {
        let name_chars = chars_of(name);
        self.attr_chars(name_chars.as_slice())
    }

    /// Node of the first slot named `name`, ignoring ASCII case.
    pub fn slot(&self, name: &str) -> (r: Option<StableNodeId>)
        ensures
            r == slot_value(self.slots@, name@),
    {
        let name_chars = chars_of(name);
        let slots = self.slots;
        let mut i: usize = 0;
        assert(slots@.skip(0) =~= slots@);
        while i < slots.len()
            invariant
                slots == self.slots,
                i <= slots@.len(),
                name_chars@ == name@,
                slot_value(slots@, name@) == slot_value(slots@.skip(i as int), name@),
            decreases slots.len() - i,
        {
            let (key, id) = slots[i];
            assert(slots@.skip(i as int).drop_first() =~= slots@.skip(i + 1));
            assert(slots@.skip(i as int)[0] == slots@[i as int]);
            let key_chars = chars_of(key);
            if chars_eq_ignore_case(key_chars.as_slice(), name_chars.as_slice()) {
                assert(slots@.skip(i as int)[0].0@ == key@);
                return Some(id);
            }
            i = i + 1;
        }
        None
    }

    /// The label, or the value when the label is empty.
    pub fn display_label(&self) -> (r: &'a str)
        ensures
            r@ == (if self.label@.len() > 0 { self.label@ } else { self.value@ }),
    {
        if !self.label.is_empty() {
            self.label
        } else {
            self.value
        }
    }

    /// Value of the attribute under the first of `names` that is present.
    pub fn first_attr(&self, names: &[&str]) -> (r: Option<&'a str>)
        ensures
            optional_view(r) == first_attr(self.attrs@, names@),
    {
        let mut i: usize = 0;
        assert(names@.skip(0) =~= names@);
        while i < names.len()
            invariant
                i <= names@.len(),
                first_attr(self.attrs@, names@) == first_attr(self.attrs@, names@.skip(i as int)),
            decreases names.len() - i,
        {
            assert(names@.skip(i as int).drop_first() =~= names@.skip(i + 1));
            assert(names@.skip(i as int)[0] == names@[i as int]);
            let found = self.attr(names[i]);
            if found.is_some() {
                return found;
            }
            i = i + 1;
        }
        None
    }
}

} // verus!
