//! The small attribute grammars that builtin components read from markup:
//! keywords are compared after trimming and ASCII lower-casing.
use vstd::prelude::*;

use crate::number_text::{parse_integer, parsed_integer};
use crate::registry::skip_repeated_prefix;
use crate::semantic::{attr_value, first_attr, or_attr, SemanticSpec};
use crate::text_input::trim_str;
use crate::text::{
    chars_eq, chars_eq_ignore_case, eq_ignore_case, lower_chars, lower_seq, string_of, strip_repeated,
    trim_seq, trimmed_chars,
};

verus! {

#[derive(Debug, Clone, Copy, PartialEq, Eq, Structural)]
pub enum ToastTone {
    Info,
    Success,
    Warning,
    Danger,
}

#[derive(Debug, Clone, Copy, PartialEq, Eq, Structural)]
pub enum StatusTone {
    Neutral,
    Info,
    Success,
    Warning,
    Danger,
}

#[derive(Debug, Clone, Copy, PartialEq, Eq, Structural)]
pub enum CardKind {
    Surface,
    Outlined,
    Raised,
    Flat,
    Selected,
}

#[derive(Debug, Clone, Copy, PartialEq, Eq, Structural)]
pub enum DrawerSide {
    Left,
    Right,
    Bottom,
}

#[derive(Debug, Clone, Copy, PartialEq, Eq, Structural)]
pub enum SwitchControlPosition {
    Start,
    End,
}

#[derive(Debug, Clone, Copy, PartialEq, Eq, Structural)]
pub enum ValidationIntent {
    Warning,
    Danger,
}

#[derive(Debug, Clone, Copy, PartialEq, Eq, Structural)]
pub enum SplitAxis {
    Horizontal,
    Vertical,
}

#[derive(Debug, Clone, Copy, PartialEq, Eq, Structural)]
pub enum DockAxis {
    Horizontal,
    Vertical,
}

#[derive(Debug, Clone, Copy, PartialEq, Eq, Structural)]
pub enum ScrollAxes {
    Vertical,
    Horizontal,
    Both,
}

#[derive(Debug, Clone, Copy, PartialEq, Eq, Structural)]
pub enum ScrollbarVisibility {
    AutoHide,
    Always,
    Hidden,
}

#[derive(Debug, Clone, Copy, PartialEq, Eq, Structural)]
pub enum SidebarRowTone {
    Default,
    Warning,
    Error,
}

#[derive(Debug, Clone, Copy, PartialEq, Eq, Structural)]
pub enum SidebarRowState {
    Idle,
    Active,
    AncestorActive,
    Disabled,
}

#[derive(Debug, Clone, Copy, PartialEq, Eq, Structural)]
pub enum GraphPortKind {
    Input,
    Output,
    Bidirectional,
}

#[derive(Debug, Clone, Copy, PartialEq, Eq, Structural)]
pub enum GraphPortSide {
    Top,
    Right,
    Bottom,
    Left,
}

/// An attribute value as a keyword: trimmed and ASCII lower case.
pub open spec fn keyword_of(raw: Seq<char>) -> Seq<char> {
    lower_seq(trim_seq(raw))
}

/// The keyword of an optional attribute; a missing one reads as empty.
pub open spec fn optional_keyword(raw: Option<Seq<char>>) -> Seq<char> {
    match raw {
        Some(s) => keyword_of(s),
        None => keyword_of(Seq::empty()),
    }
}

pub open spec fn optional_view(raw: Option<&str>) -> Option<Seq<char>> {
    match raw {
        Some(s) => Some(s@),
        None => None,
    }
}

fn keyword(raw: &str) -> (k: Vec<char>)
    ensures
        k@ == keyword_of(raw@),
{
    let trimmed = trimmed_chars(raw);
    lower_chars(trimmed.as_slice())
}

fn optional_keyword_chars(raw: Option<&str>) -> (k: Vec<char>)
    ensures
        k@ == optional_keyword(optional_view(raw)),
{
    match raw {
        Some(s) => keyword(s),
        None => {
            let k: Vec<char> = Vec::new();
            assert(trim_seq(Seq::<char>::empty()) =~= Seq::<char>::empty());
            assert(keyword_of(Seq::<char>::empty()) =~= Seq::<char>::empty());
            k
        }
    }
}

pub open spec fn parse_toast_tone_of(raw: Option<Seq<char>>) -> ToastTone {
    let k = optional_keyword(raw);
    if k == seq!['s', 'u', 'c', 'c', 'e', 's', 's'] {
        ToastTone::Success
    } else if k == seq!['w', 'a', 'r', 'n', 'i', 'n', 'g'] || k == seq!['w', 'a', 'r', 'n'] {
        ToastTone::Warning
    } else if k == seq!['d', 'a', 'n', 'g', 'e', 'r'] || k == seq!['e', 'r', 'r', 'o', 'r'] {
        ToastTone::Danger
    } else {
        ToastTone::Info
    }
}

/// Tone of a toast: `success`, `warning`/`warn`, `danger`/`error`, otherwise info.
pub fn parse_toast_tone(raw: Option<&str>) -> (r: ToastTone)
    ensures
        r == parse_toast_tone_of(optional_view(raw)),
{
    let k = optional_keyword_chars(raw);
    assert(['s', 'u', 'c', 'c', 'e', 's', 's']@ =~= seq!['s', 'u', 'c', 'c', 'e', 's', 's']);
    assert(['w', 'a', 'r', 'n', 'i', 'n', 'g']@ =~= seq!['w', 'a', 'r', 'n', 'i', 'n', 'g']);
    assert(['w', 'a', 'r', 'n']@ =~= seq!['w', 'a', 'r', 'n']);
    assert(['d', 'a', 'n', 'g', 'e', 'r']@ =~= seq!['d', 'a', 'n', 'g', 'e', 'r']);
    assert(['e', 'r', 'r', 'o', 'r']@ =~= seq!['e', 'r', 'r', 'o', 'r']);
    if chars_eq(k.as_slice(), &['s', 'u', 'c', 'c', 'e', 's', 's']) {
        ToastTone::Success
    } else if chars_eq(k.as_slice(), &['w', 'a', 'r', 'n', 'i', 'n', 'g']) || chars_eq(k.as_slice(), &['w', 'a', 'r', 'n']) {
        ToastTone::Warning
    } else if chars_eq(k.as_slice(), &['d', 'a', 'n', 'g', 'e', 'r']) || chars_eq(k.as_slice(), &['e', 'r', 'r', 'o', 'r']) {
        ToastTone::Danger
    } else {
        ToastTone::Info
    }
}

pub open spec fn parse_status_tone_of(raw: Option<Seq<char>>) -> StatusTone {
    let k = optional_keyword(raw);
    if k == seq!['i', 'n', 'f', 'o'] {
        StatusTone::Info
    } else if k == seq!['s', 'u', 'c', 'c', 'e', 's', 's'] {
        StatusTone::Success
    } else if k == seq!['w', 'a', 'r', 'n', 'i', 'n', 'g'] || k == seq!['w', 'a', 'r', 'n'] {
        StatusTone::Warning
    } else if k == seq!['d', 'a', 'n', 'g', 'e', 'r'] || k == seq!['e', 'r', 'r', 'o', 'r'] {
        StatusTone::Danger
    } else {
        StatusTone::Neutral
    }
}

/// Tone of a status badge; anything unknown is neutral.
pub fn parse_status_tone(raw: Option<&str>) -> (r: StatusTone)
    ensures
        r == parse_status_tone_of(optional_view(raw)),
{
    let k = optional_keyword_chars(raw);
    assert(['i', 'n', 'f', 'o']@ =~= seq!['i', 'n', 'f', 'o']);
    assert(['s', 'u', 'c', 'c', 'e', 's', 's']@ =~= seq!['s', 'u', 'c', 'c', 'e', 's', 's']);
    assert(['w', 'a', 'r', 'n', 'i', 'n', 'g']@ =~= seq!['w', 'a', 'r', 'n', 'i', 'n', 'g']);
    assert(['w', 'a', 'r', 'n']@ =~= seq!['w', 'a', 'r', 'n']);
    assert(['d', 'a', 'n', 'g', 'e', 'r']@ =~= seq!['d', 'a', 'n', 'g', 'e', 'r']);
    assert(['e', 'r', 'r', 'o', 'r']@ =~= seq!['e', 'r', 'r', 'o', 'r']);
    if chars_eq(k.as_slice(), &['i', 'n', 'f', 'o']) {
        StatusTone::Info
    } else if chars_eq(k.as_slice(), &['s', 'u', 'c', 'c', 'e', 's', 's']) {
        StatusTone::Success
    } else if chars_eq(k.as_slice(), &['w', 'a', 'r', 'n', 'i', 'n', 'g']) || chars_eq(k.as_slice(), &['w', 'a', 'r', 'n']) {
        StatusTone::Warning
    } else if chars_eq(k.as_slice(), &['d', 'a', 'n', 'g', 'e', 'r']) || chars_eq(k.as_slice(), &['e', 'r', 'r', 'o', 'r']) {
        StatusTone::Danger
    } else {
        StatusTone::Neutral
    }
}

pub open spec fn parse_card_kind_of(raw: Option<Seq<char>>) -> CardKind {
    let k = optional_keyword(raw);
    if k == seq!['o', 'u', 't', 'l', 'i', 'n', 'e', 'd'] || k == seq!['o', 'u', 't', 'l', 'i', 'n', 'e'] {
        CardKind::Outlined
    } else if k == seq!['r', 'a', 'i', 's', 'e', 'd'] || k == seq!['e', 'l', 'e', 'v', 'a', 't', 'e', 'd'] {
        CardKind::Raised
    } else if k == seq!['f', 'l', 'a', 't'] {
        CardKind::Flat
    } else if k == seq!['s', 'e', 'l', 'e', 'c', 't', 'e', 'd'] {
        CardKind::Selected
    } else {
        CardKind::Surface
    }
}

/// Card surface kind; anything unknown is a plain surface.
pub fn parse_card_kind(raw: Option<&str>) -> (r: CardKind)
    ensures
        r == parse_card_kind_of(optional_view(raw)),
{
    let k = optional_keyword_chars(raw);
    assert(['o', 'u', 't', 'l', 'i', 'n', 'e', 'd']@ =~= seq!['o', 'u', 't', 'l', 'i', 'n', 'e', 'd']);
    assert(['o', 'u', 't', 'l', 'i', 'n', 'e']@ =~= seq!['o', 'u', 't', 'l', 'i', 'n', 'e']);
    assert(['r', 'a', 'i', 's', 'e', 'd']@ =~= seq!['r', 'a', 'i', 's', 'e', 'd']);
    assert(['e', 'l', 'e', 'v', 'a', 't', 'e', 'd']@ =~= seq!['e', 'l', 'e', 'v', 'a', 't', 'e', 'd']);
    assert(['f', 'l', 'a', 't']@ =~= seq!['f', 'l', 'a', 't']);
    assert(['s', 'e', 'l', 'e', 'c', 't', 'e', 'd']@ =~= seq!['s', 'e', 'l', 'e', 'c', 't', 'e', 'd']);
    if chars_eq(k.as_slice(), &['o', 'u', 't', 'l', 'i', 'n', 'e', 'd']) || chars_eq(k.as_slice(), &['o', 'u', 't', 'l', 'i', 'n', 'e']) {
        CardKind::Outlined
    } else if chars_eq(k.as_slice(), &['r', 'a', 'i', 's', 'e', 'd']) || chars_eq(k.as_slice(), &['e', 'l', 'e', 'v', 'a', 't', 'e', 'd']) {
        CardKind::Raised
    } else if chars_eq(k.as_slice(), &['f', 'l', 'a', 't']) {
        CardKind::Flat
    } else if chars_eq(k.as_slice(), &['s', 'e', 'l', 'e', 'c', 't', 'e', 'd']) {
        CardKind::Selected
    } else {
        CardKind::Surface
    }
}

pub open spec fn parse_drawer_side_of(raw: Option<Seq<char>>) -> DrawerSide {
    let k = optional_keyword(raw);
    if k == seq!['l', 'e', 'f', 't'] || k == seq!['s', 't', 'a', 'r', 't'] {
        DrawerSide::Left
    } else if k == seq!['b', 'o', 't', 't', 'o', 'm'] {
        DrawerSide::Bottom
    } else {
        DrawerSide::Right
    }
}

/// Edge a drawer slides from; the default is the right edge.
pub fn parse_drawer_side(raw: Option<&str>) -> (r: DrawerSide)
    ensures
        r == parse_drawer_side_of(optional_view(raw)),
{
    let k = optional_keyword_chars(raw);
    assert(['l', 'e', 'f', 't']@ =~= seq!['l', 'e', 'f', 't']);
    assert(['s', 't', 'a', 'r', 't']@ =~= seq!['s', 't', 'a', 'r', 't']);
    assert(['b', 'o', 't', 't', 'o', 'm']@ =~= seq!['b', 'o', 't', 't', 'o', 'm']);
    if chars_eq(k.as_slice(), &['l', 'e', 'f', 't']) || chars_eq(k.as_slice(), &['s', 't', 'a', 'r', 't']) {
        DrawerSide::Left
    } else if chars_eq(k.as_slice(), &['b', 'o', 't', 't', 'o', 'm']) {
        DrawerSide::Bottom
    } else {
        DrawerSide::Right
    }
}

pub open spec fn parse_control_position_of(raw: Option<Seq<char>>) -> SwitchControlPosition {
    let k = optional_keyword(raw);
    if k == seq!['s', 't', 'a', 'r', 't'] || k == seq!['l', 'e', 'f', 't'] {
        SwitchControlPosition::Start
    } else {
        SwitchControlPosition::End
    }
}

/// Side of a switch's control; the default is the end.
pub fn parse_control_position(raw: Option<&str>) -> (r: SwitchControlPosition)
    ensures
        r == parse_control_position_of(optional_view(raw)),
{
    let k = optional_keyword_chars(raw);
    assert(['s', 't', 'a', 'r', 't']@ =~= seq!['s', 't', 'a', 'r', 't']);
    assert(['l', 'e', 'f', 't']@ =~= seq!['l', 'e', 'f', 't']);
    if chars_eq(k.as_slice(), &['s', 't', 'a', 'r', 't']) || chars_eq(k.as_slice(), &['l', 'e', 'f', 't']) {
        SwitchControlPosition::Start
    } else {
        SwitchControlPosition::End
    }
}

pub open spec fn parse_validation_intent_of(raw: Option<Seq<char>>) -> ValidationIntent {
    let k = optional_keyword(raw);
    if k == seq!['d', 'a', 'n', 'g', 'e', 'r'] || k == seq!['e', 'r', 'r', 'o', 'r'] {
        ValidationIntent::Danger
    } else {
        ValidationIntent::Warning
    }
}

/// Intent of a validation message; the default is a warning.
pub fn parse_validation_intent(raw: Option<&str>) -> (r: ValidationIntent)
    ensures
        r == parse_validation_intent_of(optional_view(raw)),
{
    let k = optional_keyword_chars(raw);
    assert(['d', 'a', 'n', 'g', 'e', 'r']@ =~= seq!['d', 'a', 'n', 'g', 'e', 'r']);
    assert(['e', 'r', 'r', 'o', 'r']@ =~= seq!['e', 'r', 'r', 'o', 'r']);
    if chars_eq(k.as_slice(), &['d', 'a', 'n', 'g', 'e', 'r']) || chars_eq(k.as_slice(), &['e', 'r', 'r', 'o', 'r']) {
        ValidationIntent::Danger
    } else {
        ValidationIntent::Warning
    }
}


/// The keyword `false` ignoring ASCII case, or exactly `0`: a false attribute.
pub open spec fn truthy_of(value: Seq<char>) -> bool {
    let t = trim_seq(value);
    !(eq_ignore_case(t, seq!['f', 'a', 'l', 's', 'e']) || t == seq!['0'])
}

/// Whether a present attribute value reads as true: anything but `false`
/// (any ASCII case) or `0`, after trimming.
pub fn truthy_attr(value: &str) -> (r: bool)
    ensures
        r == truthy_of(value@),
{
    let t = trimmed_chars(value);
    assert(['f', 'a', 'l', 's', 'e']@ =~= seq!['f', 'a', 'l', 's', 'e']);
    assert(['0']@ =~= seq!['0']);
    !(chars_eq_ignore_case(t.as_slice(), &['f', 'a', 'l', 's', 'e']) || chars_eq(t.as_slice(), &['0']))
}

pub open spec fn parse_flag_of(raw: Option<Seq<char>>) -> bool {
    match raw {
        None => false,
        Some(v) => {
            let k = keyword_of(v);
            k.len() == 0 || !(k == seq!['f', 'a', 'l', 's', 'e'] || k == seq!['0'] || k == seq![
                'o',
                'f',
                'f',
            ] || k == seq!['n', 'o'])
        },
    }
}

/// HTML-style boolean attribute: absent is false, a bare (empty) attribute
/// is true, and `false`/`0`/`off`/`no` in any ASCII case are false.
pub fn parse_flag(raw: Option<&str>) -> (r: bool)
    ensures
        r == parse_flag_of(optional_view(raw)),
{
    match raw {
        None => false,
        Some(v) => {
            let k = keyword(v);
            assert(['f', 'a', 'l', 's', 'e']@ =~= seq!['f', 'a', 'l', 's', 'e']);
            assert(['0']@ =~= seq!['0']);
            assert(['o', 'f', 'f']@ =~= seq!['o', 'f', 'f']);
            assert(['n', 'o']@ =~= seq!['n', 'o']);
            k.len() == 0 || !(chars_eq(k.as_slice(), &['f', 'a', 'l', 's', 'e']) || chars_eq(
                k.as_slice(),
                &['0'],
            ) || chars_eq(k.as_slice(), &['o', 'f', 'f']) || chars_eq(k.as_slice(), &['n', 'o']))
        },
    }
}

pub open spec fn flag_attr_of(attrs: Seq<(&str, &str)>, names: Seq<&str>) -> bool {
    match first_attr(attrs, names) {
        Some(v) => truthy_of(v),
        None => false,
    }
}

/// Whether the first present attribute among `names` is truthy; false when
/// none is present.
pub fn flag_attr(spec: &SemanticSpec, names: &[&str]) -> (r: bool)
    ensures
        r == flag_attr_of(spec.attrs@, names@),
{
    match spec.first_attr(names) {
        Some(v) => truthy_attr(v),
        None => false,
    }
}

pub open spec fn tristate_of(raw: Option<Seq<char>>) -> Option<bool> {
    match raw {
        None => None,
        Some(v) => {
            let k = keyword_of(v);
            if k == seq!['t', 'r', 'u', 'e'] || k == seq!['1'] || k == seq!['y', 'e', 's'] {
                Some(true)
            } else if k == seq!['f', 'a', 'l', 's', 'e'] || k == seq!['0'] || k == seq!['n', 'o'] {
                Some(false)
            } else {
                None
            }
        },
    }
}

/// The first present attribute among `names` as `true`/`1`/`yes` or
/// `false`/`0`/`no` (any ASCII case); `None` when absent or anything else.
pub fn parse_tristate_attr(spec: &SemanticSpec, names: &[&str]) -> (r: Option<bool>)
    ensures
        r == tristate_of(first_attr(spec.attrs@, names@)),
{
    match spec.first_attr(names) {
        None => None,
        Some(v) => {
            let k = keyword(v);
            assert(['t', 'r', 'u', 'e']@ =~= seq!['t', 'r', 'u', 'e']);
            assert(['1']@ =~= seq!['1']);
            assert(['y', 'e', 's']@ =~= seq!['y', 'e', 's']);
            assert(['f', 'a', 'l', 's', 'e']@ =~= seq!['f', 'a', 'l', 's', 'e']);
            assert(['0']@ =~= seq!['0']);
            assert(['n', 'o']@ =~= seq!['n', 'o']);
            if chars_eq(k.as_slice(), &['t', 'r', 'u', 'e']) || chars_eq(k.as_slice(), &['1'])
                || chars_eq(k.as_slice(), &['y', 'e', 's']) {
                Some(true)
            } else if chars_eq(k.as_slice(), &['f', 'a', 'l', 's', 'e']) || chars_eq(
                k.as_slice(),
                &['0'],
            ) || chars_eq(k.as_slice(), &['n', 'o']) {
                Some(false)
            } else {
                None
            }
        },
    }
}

pub open spec fn attr_u16_of(raw: Option<Seq<char>>) -> Option<int> {
    match raw {
        None => None,
        Some(v) => parsed_integer(trim_seq(v), 0, 65535),
    }
}

/// The first present attribute among `names`, trimmed and parsed as a `u16`.
pub fn attr_u16(spec: &SemanticSpec, names: &[&str]) -> (r: Option<u16>)
    ensures
        r matches Some(n) ==> attr_u16_of(first_attr(spec.attrs@, names@)) == Some(n as int),
        r is None ==> attr_u16_of(first_attr(spec.attrs@, names@)) is None,
{
    match spec.first_attr(names) {
        None => None,
        Some(v) => {
            let t = trimmed_chars(v);
            match parse_integer(t.as_slice(), 0, 65535) {
                Some(n) => Some(n as u16),
                None => None,
            }
        },
    }
}

pub open spec fn scroll_axes_of(attrs: Seq<(&str, &str)>) -> ScrollAxes {
    let raw = or_attr(
        or_attr(attr_value(attrs, seq!['a', 'x', 'e', 's']), attrs, seq!['a', 'x', 'i', 's']),
        attrs,
        seq!['d', 'i', 'r', 'e', 'c', 't', 'i', 'o', 'n'],
    );
    let k = optional_keyword(raw);
    if k == seq!['h', 'o', 'r', 'i', 'z', 'o', 'n', 't', 'a', 'l'] || k == seq!['x'] || k == seq![
        'r',
        'o',
        'w',
    ] {
        ScrollAxes::Horizontal
    } else if k == seq!['b', 'o', 't', 'h'] || k == seq!['x', 'y'] || k == seq!['a', 'l', 'l'] {
        ScrollAxes::Both
    } else {
        ScrollAxes::Vertical
    }
}

/// Scroll axes from `axes`, `axis` or `direction` (first present):
/// horizontal (`horizontal`/`x`/`row`), both (`both`/`xy`/`all`), else vertical.
pub fn parse_scroll_axes(spec: &SemanticSpec) -> (r: ScrollAxes)
    ensures
        r == scroll_axes_of(spec.attrs@),
{
    assert(['a', 'x', 'e', 's']@ =~= seq!['a', 'x', 'e', 's']);
    assert(['a', 'x', 'i', 's']@ =~= seq!['a', 'x', 'i', 's']);
    assert(['d', 'i', 'r', 'e', 'c', 't', 'i', 'o', 'n']@ =~= seq![
        'd',
        'i',
        'r',
        'e',
        'c',
        't',
        'i',
        'o',
        'n',
    ]);
    let raw = match spec.attr_chars(&['a', 'x', 'e', 's']) {
        Some(v) => Some(v),
        None => match spec.attr_chars(&['a', 'x', 'i', 's']) {
            Some(v) => Some(v),
            None => spec.attr_chars(&['d', 'i', 'r', 'e', 'c', 't', 'i', 'o', 'n']),
        },
    };
    let k = optional_keyword_chars(raw);
    assert(['h', 'o', 'r', 'i', 'z', 'o', 'n', 't', 'a', 'l']@ =~= seq![
        'h',
        'o',
        'r',
        'i',
        'z',
        'o',
        'n',
        't',
        'a',
        'l',
    ]);
    assert(['x']@ =~= seq!['x']);
    assert(['r', 'o', 'w']@ =~= seq!['r', 'o', 'w']);
    assert(['b', 'o', 't', 'h']@ =~= seq!['b', 'o', 't', 'h']);
    assert(['x', 'y']@ =~= seq!['x', 'y']);
    assert(['a', 'l', 'l']@ =~= seq!['a', 'l', 'l']);
    if chars_eq(k.as_slice(), &['h', 'o', 'r', 'i', 'z', 'o', 'n', 't', 'a', 'l']) || chars_eq(
        k.as_slice(),
        &['x'],
    ) || chars_eq(k.as_slice(), &['r', 'o', 'w']) {
        ScrollAxes::Horizontal
    } else if chars_eq(k.as_slice(), &['b', 'o', 't', 'h']) || chars_eq(k.as_slice(), &['x', 'y'])
        || chars_eq(k.as_slice(), &['a', 'l', 'l']) {
        ScrollAxes::Both
    } else {
        ScrollAxes::Vertical
    }
}

pub open spec fn scrollbar_visibility_of(attrs: Seq<(&str, &str)>) -> ScrollbarVisibility {
    let raw = or_attr(
        attr_value(attrs, seq!['s', 'c', 'r', 'o', 'l', 'l', 'b', 'a', 'r', 's']),
        attrs,
        seq!['s', 'c', 'r', 'o', 'l', 'l', 'b', 'a', 'r'],
    );
    let k = optional_keyword(raw);
    if k == seq!['a', 'l', 'w', 'a', 'y', 's'] || k == seq!['v', 'i', 's', 'i', 'b', 'l', 'e']
        || k == seq!['p', 'e', 'r', 's', 'i', 's', 't', 'e', 'n', 't'] {
        ScrollbarVisibility::Always
    } else if k == seq!['h', 'i', 'd', 'd', 'e', 'n'] || k == seq!['n', 'o', 'n', 'e'] || k == seq![
        'o',
        'f',
        'f',
    ] {
        ScrollbarVisibility::Hidden
    } else {
        ScrollbarVisibility::AutoHide
    }
}

/// Scrollbar policy from `scrollbars` or `scrollbar`: always
/// (`always`/`visible`/`persistent`), hidden (`hidden`/`none`/`off`), else auto-hide.
pub fn parse_scrollbar_visibility(spec: &SemanticSpec) -> (r: ScrollbarVisibility)
    ensures
        r == scrollbar_visibility_of(spec.attrs@),
{
    assert(['s', 'c', 'r', 'o', 'l', 'l', 'b', 'a', 'r', 's']@ =~= seq![
        's',
        'c',
        'r',
        'o',
        'l',
        'l',
        'b',
        'a',
        'r',
        's',
    ]);
    assert(['s', 'c', 'r', 'o', 'l', 'l', 'b', 'a', 'r']@ =~= seq![
        's',
        'c',
        'r',
        'o',
        'l',
        'l',
        'b',
        'a',
        'r',
    ]);
    let raw = match spec.attr_chars(&['s', 'c', 'r', 'o', 'l', 'l', 'b', 'a', 'r', 's']) {
        Some(v) => Some(v),
        None => spec.attr_chars(&['s', 'c', 'r', 'o', 'l', 'l', 'b', 'a', 'r']),
    };
    let k = optional_keyword_chars(raw);
    assert(['a', 'l', 'w', 'a', 'y', 's']@ =~= seq!['a', 'l', 'w', 'a', 'y', 's']);
    assert(['v', 'i', 's', 'i', 'b', 'l', 'e']@ =~= seq!['v', 'i', 's', 'i', 'b', 'l', 'e']);
    assert(['p', 'e', 'r', 's', 'i', 's', 't', 'e', 'n', 't']@ =~= seq![
        'p',
        'e',
        'r',
        's',
        'i',
        's',
        't',
        'e',
        'n',
        't',
    ]);
    assert(['h', 'i', 'd', 'd', 'e', 'n']@ =~= seq!['h', 'i', 'd', 'd', 'e', 'n']);
    assert(['n', 'o', 'n', 'e']@ =~= seq!['n', 'o', 'n', 'e']);
    assert(['o', 'f', 'f']@ =~= seq!['o', 'f', 'f']);
    if chars_eq(k.as_slice(), &['a', 'l', 'w', 'a', 'y', 's']) || chars_eq(
        k.as_slice(),
        &['v', 'i', 's', 'i', 'b', 'l', 'e'],
    ) || chars_eq(k.as_slice(), &['p', 'e', 'r', 's', 'i', 's', 't', 'e', 'n', 't']) {
        ScrollbarVisibility::Always
    } else if chars_eq(k.as_slice(), &['h', 'i', 'd', 'd', 'e', 'n']) || chars_eq(
        k.as_slice(),
        &['n', 'o', 'n', 'e'],
    ) || chars_eq(k.as_slice(), &['o', 'f', 'f']) {
        ScrollbarVisibility::Hidden
    } else {
        ScrollbarVisibility::AutoHide
    }
}

pub open spec fn sidebar_row_tone_of(attrs: Seq<(&str, &str)>) -> SidebarRowTone {
    let raw = or_attr(
        attr_value(attrs, seq!['t', 'o', 'n', 'e']),
        attrs,
        seq!['d', 'a', 't', 'a', '-', 't', 'o', 'n', 'e'],
    );
    let k = optional_keyword(raw);
    if k == seq!['w', 'a', 'r', 'n', 'i', 'n', 'g'] || k == seq!['w', 'a', 'r', 'n'] {
        SidebarRowTone::Warning
    } else if k == seq!['e', 'r', 'r', 'o', 'r'] || k == seq!['d', 'a', 'n', 'g', 'e', 'r'] {
        SidebarRowTone::Error
    } else {
        SidebarRowTone::Default
    }
}

/// Tone of a sidebar row from `tone` or `data-tone`.
pub fn parse_sidebar_row_tone(spec: &SemanticSpec) -> (r: SidebarRowTone)
    ensures
        r == sidebar_row_tone_of(spec.attrs@),
{
    assert(['t', 'o', 'n', 'e']@ =~= seq!['t', 'o', 'n', 'e']);
    assert(['d', 'a', 't', 'a', '-', 't', 'o', 'n', 'e']@ =~= seq![
        'd',
        'a',
        't',
        'a',
        '-',
        't',
        'o',
        'n',
        'e',
    ]);
    let raw = match spec.attr_chars(&['t', 'o', 'n', 'e']) {
        Some(v) => Some(v),
        None => spec.attr_chars(&['d', 'a', 't', 'a', '-', 't', 'o', 'n', 'e']),
    };
    let k = optional_keyword_chars(raw);
    assert(['w', 'a', 'r', 'n', 'i', 'n', 'g']@ =~= seq!['w', 'a', 'r', 'n', 'i', 'n', 'g']);
    assert(['w', 'a', 'r', 'n']@ =~= seq!['w', 'a', 'r', 'n']);
    assert(['e', 'r', 'r', 'o', 'r']@ =~= seq!['e', 'r', 'r', 'o', 'r']);
    assert(['d', 'a', 'n', 'g', 'e', 'r']@ =~= seq!['d', 'a', 'n', 'g', 'e', 'r']);
    if chars_eq(k.as_slice(), &['w', 'a', 'r', 'n', 'i', 'n', 'g']) || chars_eq(
        k.as_slice(),
        &['w', 'a', 'r', 'n'],
    ) {
        SidebarRowTone::Warning
    } else if chars_eq(k.as_slice(), &['e', 'r', 'r', 'o', 'r']) || chars_eq(
        k.as_slice(),
        &['d', 'a', 'n', 'g', 'e', 'r'],
    ) {
        SidebarRowTone::Error
    } else {
        SidebarRowTone::Default
    }
}

pub open spec fn sidebar_row_state_of(
    attrs: Seq<(&str, &str)>,
    disabled: bool,
    active: bool,
) -> SidebarRowState {
    let raw = or_attr(
        attr_value(attrs, seq!['s', 't', 'a', 't', 'e']),
        attrs,
        seq!['d', 'a', 't', 'a', '-', 's', 't', 'a', 't', 'e'],
    );
    let k = optional_keyword(raw);
    if disabled {
        SidebarRowState::Disabled
    } else if k == seq!['d', 'i', 's', 'a', 'b', 'l', 'e', 'd'] {
        SidebarRowState::Disabled
    } else if k == seq!['a', 'c', 't', 'i', 'v', 'e'] {
        SidebarRowState::Active
    } else if k == seq!['a', 'n', 'c', 'e', 's', 't', 'o', 'r'] || k == seq![
        'a',
        'n',
        'c',
        'e',
        's',
        't',
        'o',
        'r',
        '-',
        'a',
        'c',
        't',
        'i',
        'v',
        'e',
    ] || k == seq!['a', 'n', 'c', 'e', 's', 't', 'o', 'r', 'a', 'c', 't', 'i', 'v', 'e'] {
        SidebarRowState::AncestorActive
    } else if k == seq!['i', 'd', 'l', 'e'] {
        SidebarRowState::Idle
    } else if active {
        SidebarRowState::Active
    } else {
        SidebarRowState::Idle
    }
}

/// State of a sidebar row: disabled wins, then `state`/`data-state`
/// (`disabled`, `active`, `ancestor`/`ancestor-active`/`ancestoractive`,
/// `idle`), then the active flag.
pub fn parse_sidebar_row_state(spec: &SemanticSpec) -> (r: SidebarRowState)
    ensures
        r == sidebar_row_state_of(spec.attrs@, spec.disabled, spec.active),
{
    if spec.disabled {
        return SidebarRowState::Disabled;
    }
    assert(['s', 't', 'a', 't', 'e']@ =~= seq!['s', 't', 'a', 't', 'e']);
    assert(['d', 'a', 't', 'a', '-', 's', 't', 'a', 't', 'e']@ =~= seq![
        'd',
        'a',
        't',
        'a',
        '-',
        's',
        't',
        'a',
        't',
        'e',
    ]);
    let raw = match spec.attr_chars(&['s', 't', 'a', 't', 'e']) {
        Some(v) => Some(v),
        None => spec.attr_chars(&['d', 'a', 't', 'a', '-', 's', 't', 'a', 't', 'e']),
    };
    let k = optional_keyword_chars(raw);
    assert(['d', 'i', 's', 'a', 'b', 'l', 'e', 'd']@ =~= seq!['d', 'i', 's', 'a', 'b', 'l', 'e', 'd']);
    assert(['a', 'c', 't', 'i', 'v', 'e']@ =~= seq!['a', 'c', 't', 'i', 'v', 'e']);
    assert(['a', 'n', 'c', 'e', 's', 't', 'o', 'r']@ =~= seq!['a', 'n', 'c', 'e', 's', 't', 'o', 'r']);
    assert(['a', 'n', 'c', 'e', 's', 't', 'o', 'r', '-', 'a', 'c', 't', 'i', 'v', 'e']@ =~= seq![
        'a',
        'n',
        'c',
        'e',
        's',
        't',
        'o',
        'r',
        '-',
        'a',
        'c',
        't',
        'i',
        'v',
        'e',
    ]);
    assert(['a', 'n', 'c', 'e', 's', 't', 'o', 'r', 'a', 'c', 't', 'i', 'v', 'e']@ =~= seq![
        'a',
        'n',
        'c',
        'e',
        's',
        't',
        'o',
        'r',
        'a',
        'c',
        't',
        'i',
        'v',
        'e',
    ]);
    assert(['i', 'd', 'l', 'e']@ =~= seq!['i', 'd', 'l', 'e']);
    if chars_eq(k.as_slice(), &['d', 'i', 's', 'a', 'b', 'l', 'e', 'd']) {
        SidebarRowState::Disabled
    } else if chars_eq(k.as_slice(), &['a', 'c', 't', 'i', 'v', 'e']) {
        SidebarRowState::Active
    } else if chars_eq(k.as_slice(), &['a', 'n', 'c', 'e', 's', 't', 'o', 'r']) || chars_eq(
        k.as_slice(),
        &['a', 'n', 'c', 'e', 's', 't', 'o', 'r', '-', 'a', 'c', 't', 'i', 'v', 'e'],
    ) || chars_eq(
        k.as_slice(),
        &['a', 'n', 'c', 'e', 's', 't', 'o', 'r', 'a', 'c', 't', 'i', 'v', 'e'],
    ) {
        SidebarRowState::AncestorActive
    } else if chars_eq(k.as_slice(), &['i', 'd', 'l', 'e']) {
        SidebarRowState::Idle
    } else if spec.active {
        SidebarRowState::Active
    } else {
        SidebarRowState::Idle
    }
}

pub open spec fn validation_intent_from_attrs(attrs: Seq<(&str, &str)>, invalid: bool) -> ValidationIntent {
    if invalid {
        ValidationIntent::Danger
    } else {
        parse_validation_intent_of(
            or_attr(
                attr_value(attrs, seq!['i', 'n', 't', 'e', 'n', 't']),
                attrs,
                seq!['d', 'a', 't', 'a', '-', 'i', 'n', 't', 'e', 'n', 't'],
            ),
        )
    }
}

/// Validation intent: danger when the spec is invalid, else from `intent`
/// or `data-intent`.
pub fn validation_intent_from_spec(spec: &SemanticSpec) -> (r: ValidationIntent)
    ensures
        r == validation_intent_from_attrs(spec.attrs@, spec.invalid),
{
    if spec.invalid {
        return ValidationIntent::Danger;
    }
    assert(['i', 'n', 't', 'e', 'n', 't']@ =~= seq!['i', 'n', 't', 'e', 'n', 't']);
    assert(['d', 'a', 't', 'a', '-', 'i', 'n', 't', 'e', 'n', 't']@ =~= seq![
        'd',
        'a',
        't',
        'a',
        '-',
        'i',
        'n',
        't',
        'e',
        'n',
        't',
    ]);
    let raw = match spec.attr_chars(&['i', 'n', 't', 'e', 'n', 't']) {
        Some(v) => Some(v),
        None => spec.attr_chars(&['d', 'a', 't', 'a', '-', 'i', 'n', 't', 'e', 'n', 't']),
    };
    parse_validation_intent(raw)
}

/// Placeholder text of a text area: the placeholder, or the hint when the
/// placeholder is empty.
pub fn textarea_placeholder<'a>(spec: &SemanticSpec<'a>) -> (r: &'a str)
    ensures
        r@ == (if spec.placeholder@.len() == 0 { spec.hint@ } else { spec.placeholder@ }),
{
    if spec.placeholder.is_empty() {
        spec.hint
    } else {
        spec.placeholder
    }
}

/// Number of leading `c`s.
pub open spec fn leading_count(s: Seq<char>, c: char) -> nat
    decreases s.len(),
{
    if s.len() > 0 && s[0] == c {
        1 + leading_count(s.drop_first(), c)
    } else {
        0
    }
}

/// Number of trailing `c`s.
pub open spec fn trailing_count(s: Seq<char>, c: char) -> nat
    decreases s.len(),
{
    if s.len() > 0 && s.last() == c {
        1 + trailing_count(s.drop_last(), c)
    } else {
        0
    }
}

/// `str::trim_matches(c)`: every leading and trailing `c` removed.
pub open spec fn trim_char_seq(s: Seq<char>, c: char) -> Seq<char> {
    let rest = s.skip(leading_count(s, c) as int);
    rest.take(rest.len() - trailing_count(rest, c))
}

proof fn lemma_leading_count(s: Seq<char>, c: char)
    ensures
        leading_count(s, c) <= s.len(),
        forall|i: int| 0 <= i < leading_count(s, c) ==> s[i] == c,
        leading_count(s, c) < s.len() ==> s[leading_count(s, c) as int] != c,
    decreases s.len(),
{
    if s.len() > 0 && s[0] == c {
        lemma_leading_count(s.drop_first(), c);
        assert forall|i: int| 0 <= i < leading_count(s, c) implies s[i] == c by {
            if i > 0 {
                assert(s[i] == s.drop_first()[i - 1]);
            }
        }
    }
}

proof fn lemma_trailing_count(s: Seq<char>, c: char)
    ensures
        trailing_count(s, c) <= s.len(),
        forall|i: int| s.len() - trailing_count(s, c) <= i < s.len() ==> s[i] == c,
        trailing_count(s, c) < s.len() ==> s[s.len() - trailing_count(s, c) - 1] != c,
    decreases s.len(),
{
    if s.len() > 0 && s.last() == c {
        lemma_trailing_count(s.drop_last(), c);
        assert forall|i: int| s.len() - trailing_count(s, c) <= i < s.len() implies s[i] == c by {
            if i < s.len() - 1 {
                assert(s[i] == s.drop_last()[i]);
            }
        }
    }
}

/// Every leading and trailing `c` removed from `chars`.
pub fn trim_char(chars: &[char], c: char) -> (v: Vec<char>)
    ensures
        v@ == trim_char_seq(chars@, c),
{
    let mut start: usize = 0;
    proof {
        lemma_leading_count(chars@, c);
    }
    while start < chars.len() && chars[start] == c
        invariant
            start <= leading_count(chars@, c),
            leading_count(chars@, c) <= chars@.len(),
            forall|i: int| 0 <= i < leading_count(chars@, c) ==> chars@[i] == c,
            leading_count(chars@, c) < chars@.len() ==> chars@[leading_count(chars@, c) as int]
                != c,
        decreases chars.len() - start,
    {
        start = start + 1;
    }
    let ghost rest = chars@.skip(start as int);
    proof {
        lemma_trailing_count(rest, c);
    }
    let mut end: usize = chars.len();
    while end > start && chars[end - 1] == c
        invariant
            start <= end <= chars@.len(),
            rest == chars@.skip(start as int),
            end - start >= rest.len() - trailing_count(rest, c),
            trailing_count(rest, c) <= rest.len(),
            forall|i: int| rest.len() - trailing_count(rest, c) <= i < rest.len() ==> rest[i] == c,
            trailing_count(rest, c) < rest.len() ==> rest[rest.len() - trailing_count(rest, c) - 1]
                != c,
        decreases end,
    {
        assert(rest[end - 1 - start] == chars@[end - 1]);
        end = end - 1;
    }
    assert(end - start == rest.len() - trailing_count(rest, c)) by {
        if end - start > rest.len() - trailing_count(rest, c) {
            assert(rest[end - 1 - start] == chars@[end - 1]);
        }
    }
    let mut v: Vec<char> = Vec::new();
    let mut i = start;
    while i < end
        invariant
            start <= i <= end <= chars@.len(),
            v@ == chars@.subrange(start as int, i as int),
        decreases end - i,
    {
        v.push(chars[i]);
        assert(v@ =~= chars@.subrange(start as int, i + 1));
        i = i + 1;
    }
    assert(v@ =~= trim_char_seq(chars@, c));
    v
}

pub open spec fn split_axis_of(raw: Option<Seq<char>>) -> SplitAxis {
    let v = match raw {
        Some(s) => s,
        None => Seq::empty(),
    };
    let k = lower_seq(trim_char_seq(trim_seq(v), '"'));
    if k == seq!['v', 'e', 'r', 't', 'i', 'c', 'a', 'l'] || k == seq!['c', 'o', 'l', 'u', 'm', 'n']
        || k == seq!['y'] {
        SplitAxis::Vertical
    } else {
        SplitAxis::Horizontal
    }
}

/// Split axis; the value may be quoted. `vertical`/`column`/`y` are
/// vertical, anything else horizontal.
pub fn parse_split_axis(raw: Option<&str>) -> (r: SplitAxis)
    ensures
        r == split_axis_of(optional_view(raw)),
{
    let trimmed: Vec<char> = match raw {
        Some(s) => trimmed_chars(s),
        None => {
            assert(trim_seq(Seq::<char>::empty()) =~= Seq::<char>::empty());
            Vec::new()
        },
    };
    let unquoted = trim_char(trimmed.as_slice(), '"');
    let k = lower_chars(unquoted.as_slice());
    assert(['v', 'e', 'r', 't', 'i', 'c', 'a', 'l']@ =~= seq!['v', 'e', 'r', 't', 'i', 'c', 'a', 'l']);
    assert(['c', 'o', 'l', 'u', 'm', 'n']@ =~= seq!['c', 'o', 'l', 'u', 'm', 'n']);
    assert(['y']@ =~= seq!['y']);
    if chars_eq(k.as_slice(), &['v', 'e', 'r', 't', 'i', 'c', 'a', 'l']) || chars_eq(
        k.as_slice(),
        &['c', 'o', 'l', 'u', 'm', 'n'],
    ) || chars_eq(k.as_slice(), &['y']) {
        SplitAxis::Vertical
    } else {
        SplitAxis::Horizontal
    }
}

pub open spec fn dock_axis_of(raw: Seq<char>) -> DockAxis {
    let k = keyword_of(raw);
    if k == seq!['v', 'e', 'r', 't', 'i', 'c', 'a', 'l'] || k == seq!['c', 'o', 'l', 'u', 'm', 'n']
        || k == seq!['y'] {
        DockAxis::Vertical
    } else {
        DockAxis::Horizontal
    }
}

/// Dock split axis: `vertical`/`column`/`y` are vertical, anything else horizontal.
pub fn parse_dock_axis(raw: &str) -> (r: DockAxis)
    ensures
        r == dock_axis_of(raw@),
{
    let k = keyword(raw);
    assert(['v', 'e', 'r', 't', 'i', 'c', 'a', 'l']@ =~= seq!['v', 'e', 'r', 't', 'i', 'c', 'a', 'l']);
    assert(['c', 'o', 'l', 'u', 'm', 'n']@ =~= seq!['c', 'o', 'l', 'u', 'm', 'n']);
    assert(['y']@ =~= seq!['y']);
    if chars_eq(k.as_slice(), &['v', 'e', 'r', 't', 'i', 'c', 'a', 'l']) || chars_eq(
        k.as_slice(),
        &['c', 'o', 'l', 'u', 'm', 'n'],
    ) || chars_eq(k.as_slice(), &['y']) {
        DockAxis::Vertical
    } else {
        DockAxis::Horizontal
    }
}

pub open spec fn graph_port_kind_of(raw: Seq<char>) -> GraphPortKind {
    let k = keyword_of(raw);
    if k == seq!['i', 'n', 'p', 'u', 't'] || k == seq!['i', 'n'] {
        GraphPortKind::Input
    } else if k == seq!['b', 'i', 'd', 'i', 'r', 'e', 'c', 't', 'i', 'o', 'n', 'a', 'l'] || k
        == seq!['b', 'o', 't', 'h'] || k == seq!['i', 'n', 'o', 'u', 't'] {
        GraphPortKind::Bidirectional
    } else {
        GraphPortKind::Output
    }
}

/// Direction of a graph port: input (`input`/`in`), bidirectional
/// (`bidirectional`/`both`/`inout`), else output.
pub fn parse_graph_port_kind(raw: &str) -> (r: GraphPortKind)
    ensures
        r == graph_port_kind_of(raw@),
{
    let k = keyword(raw);
    assert(['i', 'n', 'p', 'u', 't']@ =~= seq!['i', 'n', 'p', 'u', 't']);
    assert(['i', 'n']@ =~= seq!['i', 'n']);
    assert(['b', 'i', 'd', 'i', 'r', 'e', 'c', 't', 'i', 'o', 'n', 'a', 'l']@ =~= seq![
        'b',
        'i',
        'd',
        'i',
        'r',
        'e',
        'c',
        't',
        'i',
        'o',
        'n',
        'a',
        'l',
    ]);
    assert(['b', 'o', 't', 'h']@ =~= seq!['b', 'o', 't', 'h']);
    assert(['i', 'n', 'o', 'u', 't']@ =~= seq!['i', 'n', 'o', 'u', 't']);
    if chars_eq(k.as_slice(), &['i', 'n', 'p', 'u', 't']) || chars_eq(k.as_slice(), &['i', 'n']) {
        GraphPortKind::Input
    } else if chars_eq(
        k.as_slice(),
        &['b', 'i', 'd', 'i', 'r', 'e', 'c', 't', 'i', 'o', 'n', 'a', 'l'],
    ) || chars_eq(k.as_slice(), &['b', 'o', 't', 'h']) || chars_eq(
        k.as_slice(),
        &['i', 'n', 'o', 'u', 't'],
    ) {
        GraphPortKind::Bidirectional
    } else {
        GraphPortKind::Output
    }
}

pub open spec fn graph_port_side_of(raw: Seq<char>, kind: GraphPortKind) -> GraphPortSide {
    let k = keyword_of(raw);
    if k == seq!['t', 'o', 'p'] {
        GraphPortSide::Top
    } else if k == seq!['r', 'i', 'g', 'h', 't'] {
        GraphPortSide::Right
    } else if k == seq!['b', 'o', 't', 't', 'o', 'm'] {
        GraphPortSide::Bottom
    } else if k == seq!['l', 'e', 'f', 't'] {
        GraphPortSide::Left
    } else if kind == GraphPortKind::Input {
        GraphPortSide::Left
    } else {
        GraphPortSide::Right
    }
}

/// Side of a graph node a port sits on; without a side, inputs sit left and
/// outputs right.
pub fn parse_graph_port_side(raw: &str, kind: GraphPortKind) -> (r: GraphPortSide)
    ensures
        r == graph_port_side_of(raw@, kind),
{
    let k = keyword(raw);
    assert(['t', 'o', 'p']@ =~= seq!['t', 'o', 'p']);
    assert(['r', 'i', 'g', 'h', 't']@ =~= seq!['r', 'i', 'g', 'h', 't']);
    assert(['b', 'o', 't', 't', 'o', 'm']@ =~= seq!['b', 'o', 't', 't', 'o', 'm']);
    assert(['l', 'e', 'f', 't']@ =~= seq!['l', 'e', 'f', 't']);
    if chars_eq(k.as_slice(), &['t', 'o', 'p']) {
        GraphPortSide::Top
    } else if chars_eq(k.as_slice(), &['r', 'i', 'g', 'h', 't']) {
        GraphPortSide::Right
    } else if chars_eq(k.as_slice(), &['b', 'o', 't', 't', 'o', 'm']) {
        GraphPortSide::Bottom
    } else if chars_eq(k.as_slice(), &['l', 'e', 'f', 't']) {
        GraphPortSide::Left
    } else {
        match kind {
            GraphPortKind::Input => GraphPortSide::Left,
            GraphPortKind::Output | GraphPortKind::Bidirectional => GraphPortSide::Right,
        }
    }
}

/// A workspace region a slot is placed in.
#[derive(Debug, Clone, PartialEq, Eq)]
pub enum RegionId {
    GlobalNavigation,
    SectionNavigation,
    Resources,
    PrimaryToolbar,
    Primary,
    Inspector,
    Diagnostics,
    /// An application-defined region.
    Custom(String),
}

/// A region token without surrounding white space or leading `region-` prefixes.
pub open spec fn region_token(token: Seq<char>) -> Seq<char> {
    strip_repeated(trim_seq(token), seq!['r', 'e', 'g', 'i', 'o', 'n', '-'])
}

/// The builtin region a token names, if any (tokens are case-sensitive).
pub open spec fn builtin_region(t: Seq<char>) -> Option<RegionId> {
    if t == seq!['g', 'l', 'o', 'b', 'a', 'l', '-', 'n', 'a', 'v', 'i', 'g', 'a', 't', 'i', 'o', 'n']
        || t == seq!['g', 'l', 'o', 'b', 'a', 'l', 'n', 'a', 'v', 'i', 'g', 'a', 't', 'i', 'o', 'n']
        || t == seq!['g', 'l', 'o', 'b', 'a', 'l'] {
        Some(RegionId::GlobalNavigation)
    } else if t == seq!['s', 'e', 'c', 't', 'i', 'o', 'n', '-', 'n', 'a', 'v', 'i', 'g', 'a', 't', 'i', 'o', 'n']
        || t == seq!['s', 'e', 'c', 't', 'i', 'o', 'n', 'n', 'a', 'v', 'i', 'g', 'a', 't', 'i', 'o', 'n'] {
        Some(RegionId::SectionNavigation)
    } else if t == seq!['r', 'e', 's', 'o', 'u', 'r', 'c', 'e', 's'] || t == seq![
        's',
        'i',
        'd',
        'e',
        'b',
        'a',
        'r',
    ] || t == seq!['f', 'i', 'l', 'e', 's'] {
        Some(RegionId::Resources)
    } else if t == seq!['p', 'r', 'i', 'm', 'a', 'r', 'y', '-', 't', 'o', 'o', 'l', 'b', 'a', 'r']
        || t == seq!['p', 'r', 'i', 'm', 'a', 'r', 'y', 't', 'o', 'o', 'l', 'b', 'a', 'r'] || t
        == seq!['t', 'o', 'o', 'l', 'b', 'a', 'r'] {
        Some(RegionId::PrimaryToolbar)
    } else if t == seq!['p', 'r', 'i', 'm', 'a', 'r', 'y'] || t == seq!['m', 'a', 'i', 'n'] {
        Some(RegionId::Primary)
    } else if t == seq!['i', 'n', 's', 'p', 'e', 'c', 't', 'o', 'r'] {
        Some(RegionId::Inspector)
    } else if t == seq!['d', 'i', 'a', 'g', 'n', 'o', 's', 't', 'i', 'c', 's'] || t == seq![
        'c',
        'o',
        'n',
        's',
        'o',
        'l',
        'e',
    ] {
        Some(RegionId::Diagnostics)
    } else {
        None
    }
}

fn builtin_region_of(t: &[char]) -> (r: Option<RegionId>)
    ensures
        r == builtin_region(t@),
{
    let global_navigation = ['g', 'l', 'o', 'b', 'a', 'l', '-', 'n', 'a', 'v', 'i', 'g', 'a', 't', 'i', 'o', 'n'];
    let globalnavigation = ['g', 'l', 'o', 'b', 'a', 'l', 'n', 'a', 'v', 'i', 'g', 'a', 't', 'i', 'o', 'n'];
    let global = ['g', 'l', 'o', 'b', 'a', 'l'];
    let section_navigation = ['s', 'e', 'c', 't', 'i', 'o', 'n', '-', 'n', 'a', 'v', 'i', 'g', 'a', 't', 'i', 'o', 'n'];
    let sectionnavigation = ['s', 'e', 'c', 't', 'i', 'o', 'n', 'n', 'a', 'v', 'i', 'g', 'a', 't', 'i', 'o', 'n'];
    let resources = ['r', 'e', 's', 'o', 'u', 'r', 'c', 'e', 's'];
    let sidebar = ['s', 'i', 'd', 'e', 'b', 'a', 'r'];
    let files = ['f', 'i', 'l', 'e', 's'];
    let primary_toolbar = ['p', 'r', 'i', 'm', 'a', 'r', 'y', '-', 't', 'o', 'o', 'l', 'b', 'a', 'r'];
    let primarytoolbar = ['p', 'r', 'i', 'm', 'a', 'r', 'y', 't', 'o', 'o', 'l', 'b', 'a', 'r'];
    let toolbar = ['t', 'o', 'o', 'l', 'b', 'a', 'r'];
    let primary = ['p', 'r', 'i', 'm', 'a', 'r', 'y'];
    let main = ['m', 'a', 'i', 'n'];
    let inspector = ['i', 'n', 's', 'p', 'e', 'c', 't', 'o', 'r'];
    let diagnostics = ['d', 'i', 'a', 'g', 'n', 'o', 's', 't', 'i', 'c', 's'];
    let console = ['c', 'o', 'n', 's', 'o', 'l', 'e'];
    assert(global_navigation@ =~= seq!['g', 'l', 'o', 'b', 'a', 'l', '-', 'n', 'a', 'v', 'i', 'g', 'a', 't', 'i', 'o', 'n']);
    assert(globalnavigation@ =~= seq!['g', 'l', 'o', 'b', 'a', 'l', 'n', 'a', 'v', 'i', 'g', 'a', 't', 'i', 'o', 'n']);
    assert(global@ =~= seq!['g', 'l', 'o', 'b', 'a', 'l']);
    assert(section_navigation@ =~= seq!['s', 'e', 'c', 't', 'i', 'o', 'n', '-', 'n', 'a', 'v', 'i', 'g', 'a', 't', 'i', 'o', 'n']);
    assert(sectionnavigation@ =~= seq!['s', 'e', 'c', 't', 'i', 'o', 'n', 'n', 'a', 'v', 'i', 'g', 'a', 't', 'i', 'o', 'n']);
    assert(resources@ =~= seq!['r', 'e', 's', 'o', 'u', 'r', 'c', 'e', 's']);
    assert(sidebar@ =~= seq!['s', 'i', 'd', 'e', 'b', 'a', 'r']);
    assert(files@ =~= seq!['f', 'i', 'l', 'e', 's']);
    assert(primary_toolbar@ =~= seq!['p', 'r', 'i', 'm', 'a', 'r', 'y', '-', 't', 'o', 'o', 'l', 'b', 'a', 'r']);
    assert(primarytoolbar@ =~= seq!['p', 'r', 'i', 'm', 'a', 'r', 'y', 't', 'o', 'o', 'l', 'b', 'a', 'r']);
    assert(toolbar@ =~= seq!['t', 'o', 'o', 'l', 'b', 'a', 'r']);
    assert(primary@ =~= seq!['p', 'r', 'i', 'm', 'a', 'r', 'y']);
    assert(main@ =~= seq!['m', 'a', 'i', 'n']);
    assert(inspector@ =~= seq!['i', 'n', 's', 'p', 'e', 'c', 't', 'o', 'r']);
    assert(diagnostics@ =~= seq!['d', 'i', 'a', 'g', 'n', 'o', 's', 't', 'i', 'c', 's']);
    assert(console@ =~= seq!['c', 'o', 'n', 's', 'o', 'l', 'e']);
    if chars_eq(t, &global_navigation) || chars_eq(t, &globalnavigation) || chars_eq(t, &global) {
        Some(RegionId::GlobalNavigation)
    } else if chars_eq(t, &section_navigation) || chars_eq(t, &sectionnavigation) {
        Some(RegionId::SectionNavigation)
    } else if chars_eq(t, &resources) || chars_eq(t, &sidebar) || chars_eq(t, &files) {
        Some(RegionId::Resources)
    } else if chars_eq(t, &primary_toolbar) || chars_eq(t, &primarytoolbar) || chars_eq(t, &toolbar) {
        Some(RegionId::PrimaryToolbar)
    } else if chars_eq(t, &primary) || chars_eq(t, &main) {
        Some(RegionId::Primary)
    } else if chars_eq(t, &inspector) {
        Some(RegionId::Inspector)
    } else if chars_eq(t, &diagnostics) || chars_eq(t, &console) {
        Some(RegionId::Diagnostics)
    } else {
        None
    }
}

/// The region a slot token names: trimmed, leading `region-` prefixes
/// removed; a builtin name gives its region, any other non-empty token an
/// application region of that name, and an empty token none.
pub fn region_id_from_token(token: &str) -> (r: Option<RegionId>)
    ensures
        ({
            let t = region_token(token@);
            match r {
                None => t.len() == 0,
                Some(RegionId::Custom(name)) => t.len() > 0 && builtin_region(t) is None && name@
                    == t,
                Some(region) => t.len() > 0 && builtin_region(t) == Some(region),
            }
        }),
{
    let trimmed = trimmed_chars(token);
    let prefix = ['r', 'e', 'g', 'i', 'o', 'n', '-'];
    assert(prefix@ =~= seq!['r', 'e', 'g', 'i', 'o', 'n', '-']);
    let start = skip_repeated_prefix(trimmed.as_slice(), &prefix);
    let mut rest: Vec<char> = Vec::new();
    let mut i = start;
    while i < trimmed.len()
        invariant
            start <= i <= trimmed@.len(),
            rest@ == trimmed@.subrange(start as int, i as int),
        decreases trimmed.len() - i,
    {
        rest.push(trimmed[i]);
        assert(rest@ =~= trimmed@.subrange(start as int, i + 1));
        i = i + 1;
    }
    assert(rest@ =~= region_token(token@));
    if rest.len() == 0 {
        return None;
    }
    match builtin_region_of(rest.as_slice()) {
        Some(region) => Some(region),
        None => Some(RegionId::Custom(string_of(rest.as_slice()))),
    }
}

pub open spec fn markdown_source_of(value: Seq<char>, attrs: Seq<(&str, &str)>) -> Seq<char> {
    if trim_seq(value).len() > 0 {
        value
    } else {
        match or_attr(
            or_attr(attr_value(attrs, seq!['s', 'o', 'u', 'r', 'c', 'e']), attrs, seq!['m', 'a', 'r', 'k', 'd', 'o', 'w', 'n']),
            attrs,
            seq!['v', 'a', 'l', 'u', 'e'],
        ) {
            Some(v) => trim_seq(v),
            None => Seq::empty(),
        }
    }
}

/// Markdown text of a spec: its value when that is not blank, else the
/// trimmed `source`, `markdown` or `value` attribute (first present), else
/// nothing.
pub fn markdown_source_from_spec<'a>(spec: &SemanticSpec<'a>) -> (r: &'a str)
    ensures
        r@ == markdown_source_of(spec.value@, spec.attrs@),
{
    if !trim_str(spec.value).is_empty() {
        return spec.value;
    }
    let source = ['s', 'o', 'u', 'r', 'c', 'e'];
    let markdown = ['m', 'a', 'r', 'k', 'd', 'o', 'w', 'n'];
    let value = ['v', 'a', 'l', 'u', 'e'];
    assert(source@ =~= seq!['s', 'o', 'u', 'r', 'c', 'e']);
    assert(markdown@ =~= seq!['m', 'a', 'r', 'k', 'd', 'o', 'w', 'n']);
    assert(value@ =~= seq!['v', 'a', 'l', 'u', 'e']);
    let raw = match spec.attr_chars(&source) {
        Some(v) => Some(v),
        None => match spec.attr_chars(&markdown) {
            Some(v) => Some(v),
            None => spec.attr_chars(&value),
        },
    };
    match raw {
        Some(v) => trim_str(v),
        None => {
            proof {
                reveal_strlit("");
            }
            ""
        },
    }
}

pub open spec fn highlight_language_of(attrs: Seq<(&str, &str)>) -> Option<Seq<char>> {
    match or_attr(
        or_attr(attr_value(attrs, seq!['l', 'a', 'n', 'g', 'u', 'a', 'g', 'e']), attrs, seq!['l', 'a', 'n', 'g']),
        attrs,
        seq!['s', 'y', 'n', 't', 'a', 'x'],
    ) {
        Some(v) => if trim_seq(v).len() > 0 {
            Some(trim_seq(v))
        } else {
            None
        },
        None => None,
    }
}

/// Syntax-highlighting language of a spec: the trimmed `language`, `lang`
/// or `syntax` attribute (first present), unless it is blank.
pub fn highlight_language_from_spec<'a>(spec: &SemanticSpec<'a>) -> (r: Option<&'a str>)
    ensures
        optional_view(r) == highlight_language_of(spec.attrs@),
{
    let language = ['l', 'a', 'n', 'g', 'u', 'a', 'g', 'e'];
    let lang = ['l', 'a', 'n', 'g'];
    let syntax = ['s', 'y', 'n', 't', 'a', 'x'];
    assert(language@ =~= seq!['l', 'a', 'n', 'g', 'u', 'a', 'g', 'e']);
    assert(lang@ =~= seq!['l', 'a', 'n', 'g']);
    assert(syntax@ =~= seq!['s', 'y', 'n', 't', 'a', 'x']);
    let raw = match spec.attr_chars(&language) {
        Some(v) => Some(v),
        None => match spec.attr_chars(&lang) {
            Some(v) => Some(v),
            None => spec.attr_chars(&syntax),
        },
    };
    match raw {
        Some(v) => {
            let t = trim_str(v);
            if t.is_empty() {
                None
            } else {
                Some(t)
            }
        },
        None => None,
    }
}

/// Blank text reads as the empty keyword.
proof fn lemma_empty_keyword()
    ensures
        keyword_of(Seq::<char>::empty()) == Seq::<char>::empty(),
{
    assert(trim_seq(Seq::<char>::empty()) =~= Seq::<char>::empty());
    assert(lower_seq(Seq::<char>::empty()) =~= Seq::<char>::empty());
}

/// A toast's tone keyword, read without case or surrounding spaces: `success`, `warning`/`warn`, `danger`/`error`; any other text, or none, is info.
pub proof fn toast_tone_keywords(raw: Seq<char>)
    ensures
        keyword_of(raw) == seq!['s', 'u', 'c', 'c', 'e', 's', 's'] ==> parse_toast_tone_of(Some(raw)) == ToastTone::Success,
        keyword_of(raw) == seq!['w', 'a', 'r', 'n', 'i', 'n', 'g'] ==> parse_toast_tone_of(Some(raw)) == ToastTone::Warning,
        keyword_of(raw) == seq!['w', 'a', 'r', 'n'] ==> parse_toast_tone_of(Some(raw)) == ToastTone::Warning,
        keyword_of(raw) == seq!['d', 'a', 'n', 'g', 'e', 'r'] ==> parse_toast_tone_of(Some(raw)) == ToastTone::Danger,
        keyword_of(raw) == seq!['e', 'r', 'r', 'o', 'r'] ==> parse_toast_tone_of(Some(raw)) == ToastTone::Danger,
        keyword_of(raw) != seq!['s', 'u', 'c', 'c', 'e', 's', 's'] && keyword_of(raw) != seq!['w', 'a', 'r', 'n', 'i', 'n', 'g'] && keyword_of(raw) != seq!['w', 'a', 'r', 'n'] && keyword_of(raw) != seq!['d', 'a', 'n', 'g', 'e', 'r'] && keyword_of(raw) != seq!['e', 'r', 'r', 'o', 'r'] ==> parse_toast_tone_of(Some(raw)) == ToastTone::Info,
        parse_toast_tone_of(None) == ToastTone::Info,
{
    lemma_empty_keyword();
    assert(seq!['s', 'u', 'c', 'c', 'e', 's', 's'][0] == 's' && seq!['s', 'u', 'c', 'c', 'e', 's', 's'][1] == 'u' && seq!['s', 'u', 'c', 'c', 'e', 's', 's'][2] == 'c' && seq!['s', 'u', 'c', 'c', 'e', 's', 's'][3] == 'c' && seq!['s', 'u', 'c', 'c', 'e', 's', 's'][4] == 'e' && seq!['s', 'u', 'c', 'c', 'e', 's', 's'][5] == 's' && seq!['s', 'u', 'c', 'c', 'e', 's', 's'][6] == 's');
    assert(seq!['w', 'a', 'r', 'n', 'i', 'n', 'g'][0] == 'w' && seq!['w', 'a', 'r', 'n', 'i', 'n', 'g'][1] == 'a' && seq!['w', 'a', 'r', 'n', 'i', 'n', 'g'][2] == 'r' && seq!['w', 'a', 'r', 'n', 'i', 'n', 'g'][3] == 'n' && seq!['w', 'a', 'r', 'n', 'i', 'n', 'g'][4] == 'i' && seq!['w', 'a', 'r', 'n', 'i', 'n', 'g'][5] == 'n' && seq!['w', 'a', 'r', 'n', 'i', 'n', 'g'][6] == 'g');
    assert(seq!['w', 'a', 'r', 'n'][0] == 'w' && seq!['w', 'a', 'r', 'n'][1] == 'a' && seq!['w', 'a', 'r', 'n'][2] == 'r' && seq!['w', 'a', 'r', 'n'][3] == 'n');
    assert(seq!['d', 'a', 'n', 'g', 'e', 'r'][0] == 'd' && seq!['d', 'a', 'n', 'g', 'e', 'r'][1] == 'a' && seq!['d', 'a', 'n', 'g', 'e', 'r'][2] == 'n' && seq!['d', 'a', 'n', 'g', 'e', 'r'][3] == 'g' && seq!['d', 'a', 'n', 'g', 'e', 'r'][4] == 'e' && seq!['d', 'a', 'n', 'g', 'e', 'r'][5] == 'r');
    assert(seq!['e', 'r', 'r', 'o', 'r'][0] == 'e' && seq!['e', 'r', 'r', 'o', 'r'][1] == 'r' && seq!['e', 'r', 'r', 'o', 'r'][2] == 'r' && seq!['e', 'r', 'r', 'o', 'r'][3] == 'o' && seq!['e', 'r', 'r', 'o', 'r'][4] == 'r');
    if keyword_of(raw) == seq!['s', 'u', 'c', 'c', 'e', 's', 's'] {
        assert(keyword_of(raw)[0] == 's' && keyword_of(raw)[1] == 'u' && keyword_of(raw)[2] == 'c' && keyword_of(raw)[3] == 'c' && keyword_of(raw)[4] == 'e' && keyword_of(raw)[5] == 's' && keyword_of(raw)[6] == 's');
        assert(seq!['w', 'a', 'r', 'n', 'i', 'n', 'g'][0] == 'w');
        assert(keyword_of(raw) != seq!['w', 'a', 'r', 'n', 'i', 'n', 'g']);
        assert(seq!['w', 'a', 'r', 'n'].len() == 4);
        assert(keyword_of(raw) != seq!['w', 'a', 'r', 'n']);
        assert(seq!['d', 'a', 'n', 'g', 'e', 'r'].len() == 6);
        assert(keyword_of(raw) != seq!['d', 'a', 'n', 'g', 'e', 'r']);
        assert(seq!['e', 'r', 'r', 'o', 'r'].len() == 5);
        assert(keyword_of(raw) != seq!['e', 'r', 'r', 'o', 'r']);
    }
    if keyword_of(raw) == seq!['w', 'a', 'r', 'n', 'i', 'n', 'g'] {
        assert(keyword_of(raw)[0] == 'w' && keyword_of(raw)[1] == 'a' && keyword_of(raw)[2] == 'r' && keyword_of(raw)[3] == 'n' && keyword_of(raw)[4] == 'i' && keyword_of(raw)[5] == 'n' && keyword_of(raw)[6] == 'g');
        assert(seq!['s', 'u', 'c', 'c', 'e', 's', 's'][0] == 's');
        assert(keyword_of(raw) != seq!['s', 'u', 'c', 'c', 'e', 's', 's']);
        assert(seq!['w', 'a', 'r', 'n'].len() == 4);
        assert(keyword_of(raw) != seq!['w', 'a', 'r', 'n']);
        assert(seq!['d', 'a', 'n', 'g', 'e', 'r'].len() == 6);
        assert(keyword_of(raw) != seq!['d', 'a', 'n', 'g', 'e', 'r']);
        assert(seq!['e', 'r', 'r', 'o', 'r'].len() == 5);
        assert(keyword_of(raw) != seq!['e', 'r', 'r', 'o', 'r']);
    }
    if keyword_of(raw) == seq!['w', 'a', 'r', 'n'] {
        assert(keyword_of(raw)[0] == 'w' && keyword_of(raw)[1] == 'a' && keyword_of(raw)[2] == 'r' && keyword_of(raw)[3] == 'n');
        assert(seq!['s', 'u', 'c', 'c', 'e', 's', 's'].len() == 7);
        assert(keyword_of(raw) != seq!['s', 'u', 'c', 'c', 'e', 's', 's']);
        assert(seq!['w', 'a', 'r', 'n', 'i', 'n', 'g'].len() == 7);
        assert(keyword_of(raw) != seq!['w', 'a', 'r', 'n', 'i', 'n', 'g']);
        assert(seq!['d', 'a', 'n', 'g', 'e', 'r'].len() == 6);
        assert(keyword_of(raw) != seq!['d', 'a', 'n', 'g', 'e', 'r']);
        assert(seq!['e', 'r', 'r', 'o', 'r'].len() == 5);
        assert(keyword_of(raw) != seq!['e', 'r', 'r', 'o', 'r']);
    }
    if keyword_of(raw) == seq!['d', 'a', 'n', 'g', 'e', 'r'] {
        assert(keyword_of(raw)[0] == 'd' && keyword_of(raw)[1] == 'a' && keyword_of(raw)[2] == 'n' && keyword_of(raw)[3] == 'g' && keyword_of(raw)[4] == 'e' && keyword_of(raw)[5] == 'r');
        assert(seq!['s', 'u', 'c', 'c', 'e', 's', 's'].len() == 7);
        assert(keyword_of(raw) != seq!['s', 'u', 'c', 'c', 'e', 's', 's']);
        assert(seq!['w', 'a', 'r', 'n', 'i', 'n', 'g'].len() == 7);
        assert(keyword_of(raw) != seq!['w', 'a', 'r', 'n', 'i', 'n', 'g']);
        assert(seq!['w', 'a', 'r', 'n'].len() == 4);
        assert(keyword_of(raw) != seq!['w', 'a', 'r', 'n']);
        assert(seq!['e', 'r', 'r', 'o', 'r'].len() == 5);
        assert(keyword_of(raw) != seq!['e', 'r', 'r', 'o', 'r']);
    }
    if keyword_of(raw) == seq!['e', 'r', 'r', 'o', 'r'] {
        assert(keyword_of(raw)[0] == 'e' && keyword_of(raw)[1] == 'r' && keyword_of(raw)[2] == 'r' && keyword_of(raw)[3] == 'o' && keyword_of(raw)[4] == 'r');
        assert(seq!['s', 'u', 'c', 'c', 'e', 's', 's'].len() == 7);
        assert(keyword_of(raw) != seq!['s', 'u', 'c', 'c', 'e', 's', 's']);
        assert(seq!['w', 'a', 'r', 'n', 'i', 'n', 'g'].len() == 7);
        assert(keyword_of(raw) != seq!['w', 'a', 'r', 'n', 'i', 'n', 'g']);
        assert(seq!['w', 'a', 'r', 'n'].len() == 4);
        assert(keyword_of(raw) != seq!['w', 'a', 'r', 'n']);
        assert(seq!['d', 'a', 'n', 'g', 'e', 'r'].len() == 6);
        assert(keyword_of(raw) != seq!['d', 'a', 'n', 'g', 'e', 'r']);
    }
}

/// A status badge's tone keyword: `info`, `success`, `warning`/`warn`, `danger`/`error`; any other text, or none, is neutral.
pub proof fn status_tone_keywords(raw: Seq<char>)
    ensures
        keyword_of(raw) == seq!['i', 'n', 'f', 'o'] ==> parse_status_tone_of(Some(raw)) == StatusTone::Info,
        keyword_of(raw) == seq!['s', 'u', 'c', 'c', 'e', 's', 's'] ==> parse_status_tone_of(Some(raw)) == StatusTone::Success,
        keyword_of(raw) == seq!['w', 'a', 'r', 'n', 'i', 'n', 'g'] ==> parse_status_tone_of(Some(raw)) == StatusTone::Warning,
        keyword_of(raw) == seq!['w', 'a', 'r', 'n'] ==> parse_status_tone_of(Some(raw)) == StatusTone::Warning,
        keyword_of(raw) == seq!['d', 'a', 'n', 'g', 'e', 'r'] ==> parse_status_tone_of(Some(raw)) == StatusTone::Danger,
        keyword_of(raw) == seq!['e', 'r', 'r', 'o', 'r'] ==> parse_status_tone_of(Some(raw)) == StatusTone::Danger,
        keyword_of(raw) != seq!['i', 'n', 'f', 'o'] && keyword_of(raw) != seq!['s', 'u', 'c', 'c', 'e', 's', 's'] && keyword_of(raw) != seq!['w', 'a', 'r', 'n', 'i', 'n', 'g'] && keyword_of(raw) != seq!['w', 'a', 'r', 'n'] && keyword_of(raw) != seq!['d', 'a', 'n', 'g', 'e', 'r'] && keyword_of(raw) != seq!['e', 'r', 'r', 'o', 'r'] ==> parse_status_tone_of(Some(raw)) == StatusTone::Neutral,
        parse_status_tone_of(None) == StatusTone::Neutral,
{
    lemma_empty_keyword();
    assert(seq!['i', 'n', 'f', 'o'][0] == 'i' && seq!['i', 'n', 'f', 'o'][1] == 'n' && seq!['i', 'n', 'f', 'o'][2] == 'f' && seq!['i', 'n', 'f', 'o'][3] == 'o');
    assert(seq!['s', 'u', 'c', 'c', 'e', 's', 's'][0] == 's' && seq!['s', 'u', 'c', 'c', 'e', 's', 's'][1] == 'u' && seq!['s', 'u', 'c', 'c', 'e', 's', 's'][2] == 'c' && seq!['s', 'u', 'c', 'c', 'e', 's', 's'][3] == 'c' && seq!['s', 'u', 'c', 'c', 'e', 's', 's'][4] == 'e' && seq!['s', 'u', 'c', 'c', 'e', 's', 's'][5] == 's' && seq!['s', 'u', 'c', 'c', 'e', 's', 's'][6] == 's');
    assert(seq!['w', 'a', 'r', 'n', 'i', 'n', 'g'][0] == 'w' && seq!['w', 'a', 'r', 'n', 'i', 'n', 'g'][1] == 'a' && seq!['w', 'a', 'r', 'n', 'i', 'n', 'g'][2] == 'r' && seq!['w', 'a', 'r', 'n', 'i', 'n', 'g'][3] == 'n' && seq!['w', 'a', 'r', 'n', 'i', 'n', 'g'][4] == 'i' && seq!['w', 'a', 'r', 'n', 'i', 'n', 'g'][5] == 'n' && seq!['w', 'a', 'r', 'n', 'i', 'n', 'g'][6] == 'g');
    assert(seq!['w', 'a', 'r', 'n'][0] == 'w' && seq!['w', 'a', 'r', 'n'][1] == 'a' && seq!['w', 'a', 'r', 'n'][2] == 'r' && seq!['w', 'a', 'r', 'n'][3] == 'n');
    assert(seq!['d', 'a', 'n', 'g', 'e', 'r'][0] == 'd' && seq!['d', 'a', 'n', 'g', 'e', 'r'][1] == 'a' && seq!['d', 'a', 'n', 'g', 'e', 'r'][2] == 'n' && seq!['d', 'a', 'n', 'g', 'e', 'r'][3] == 'g' && seq!['d', 'a', 'n', 'g', 'e', 'r'][4] == 'e' && seq!['d', 'a', 'n', 'g', 'e', 'r'][5] == 'r');
    assert(seq!['e', 'r', 'r', 'o', 'r'][0] == 'e' && seq!['e', 'r', 'r', 'o', 'r'][1] == 'r' && seq!['e', 'r', 'r', 'o', 'r'][2] == 'r' && seq!['e', 'r', 'r', 'o', 'r'][3] == 'o' && seq!['e', 'r', 'r', 'o', 'r'][4] == 'r');
    if keyword_of(raw) == seq!['i', 'n', 'f', 'o'] {
        assert(keyword_of(raw)[0] == 'i' && keyword_of(raw)[1] == 'n' && keyword_of(raw)[2] == 'f' && keyword_of(raw)[3] == 'o');
        assert(seq!['s', 'u', 'c', 'c', 'e', 's', 's'].len() == 7);
        assert(keyword_of(raw) != seq!['s', 'u', 'c', 'c', 'e', 's', 's']);
        assert(seq!['w', 'a', 'r', 'n', 'i', 'n', 'g'].len() == 7);
        assert(keyword_of(raw) != seq!['w', 'a', 'r', 'n', 'i', 'n', 'g']);
        assert(seq!['w', 'a', 'r', 'n'][0] == 'w');
        assert(keyword_of(raw) != seq!['w', 'a', 'r', 'n']);
        assert(seq!['d', 'a', 'n', 'g', 'e', 'r'].len() == 6);
        assert(keyword_of(raw) != seq!['d', 'a', 'n', 'g', 'e', 'r']);
        assert(seq!['e', 'r', 'r', 'o', 'r'].len() == 5);
        assert(keyword_of(raw) != seq!['e', 'r', 'r', 'o', 'r']);
    }
    if keyword_of(raw) == seq!['s', 'u', 'c', 'c', 'e', 's', 's'] {
        assert(keyword_of(raw)[0] == 's' && keyword_of(raw)[1] == 'u' && keyword_of(raw)[2] == 'c' && keyword_of(raw)[3] == 'c' && keyword_of(raw)[4] == 'e' && keyword_of(raw)[5] == 's' && keyword_of(raw)[6] == 's');
        assert(seq!['i', 'n', 'f', 'o'].len() == 4);
        assert(keyword_of(raw) != seq!['i', 'n', 'f', 'o']);
        assert(seq!['w', 'a', 'r', 'n', 'i', 'n', 'g'][0] == 'w');
        assert(keyword_of(raw) != seq!['w', 'a', 'r', 'n', 'i', 'n', 'g']);
        assert(seq!['w', 'a', 'r', 'n'].len() == 4);
        assert(keyword_of(raw) != seq!['w', 'a', 'r', 'n']);
        assert(seq!['d', 'a', 'n', 'g', 'e', 'r'].len() == 6);
        assert(keyword_of(raw) != seq!['d', 'a', 'n', 'g', 'e', 'r']);
        assert(seq!['e', 'r', 'r', 'o', 'r'].len() == 5);
        assert(keyword_of(raw) != seq!['e', 'r', 'r', 'o', 'r']);
    }
    if keyword_of(raw) == seq!['w', 'a', 'r', 'n', 'i', 'n', 'g'] {
        assert(keyword_of(raw)[0] == 'w' && keyword_of(raw)[1] == 'a' && keyword_of(raw)[2] == 'r' && keyword_of(raw)[3] == 'n' && keyword_of(raw)[4] == 'i' && keyword_of(raw)[5] == 'n' && keyword_of(raw)[6] == 'g');
        assert(seq!['i', 'n', 'f', 'o'].len() == 4);
        assert(keyword_of(raw) != seq!['i', 'n', 'f', 'o']);
        assert(seq!['s', 'u', 'c', 'c', 'e', 's', 's'][0] == 's');
        assert(keyword_of(raw) != seq!['s', 'u', 'c', 'c', 'e', 's', 's']);
        assert(seq!['w', 'a', 'r', 'n'].len() == 4);
        assert(keyword_of(raw) != seq!['w', 'a', 'r', 'n']);
        assert(seq!['d', 'a', 'n', 'g', 'e', 'r'].len() == 6);
        assert(keyword_of(raw) != seq!['d', 'a', 'n', 'g', 'e', 'r']);
        assert(seq!['e', 'r', 'r', 'o', 'r'].len() == 5);
        assert(keyword_of(raw) != seq!['e', 'r', 'r', 'o', 'r']);
    }
    if keyword_of(raw) == seq!['w', 'a', 'r', 'n'] {
        assert(keyword_of(raw)[0] == 'w' && keyword_of(raw)[1] == 'a' && keyword_of(raw)[2] == 'r' && keyword_of(raw)[3] == 'n');
        assert(seq!['i', 'n', 'f', 'o'][0] == 'i');
        assert(keyword_of(raw) != seq!['i', 'n', 'f', 'o']);
        assert(seq!['s', 'u', 'c', 'c', 'e', 's', 's'].len() == 7);
        assert(keyword_of(raw) != seq!['s', 'u', 'c', 'c', 'e', 's', 's']);
        assert(seq!['w', 'a', 'r', 'n', 'i', 'n', 'g'].len() == 7);
        assert(keyword_of(raw) != seq!['w', 'a', 'r', 'n', 'i', 'n', 'g']);
        assert(seq!['d', 'a', 'n', 'g', 'e', 'r'].len() == 6);
        assert(keyword_of(raw) != seq!['d', 'a', 'n', 'g', 'e', 'r']);
        assert(seq!['e', 'r', 'r', 'o', 'r'].len() == 5);
        assert(keyword_of(raw) != seq!['e', 'r', 'r', 'o', 'r']);
    }
    if keyword_of(raw) == seq!['d', 'a', 'n', 'g', 'e', 'r'] {
        assert(keyword_of(raw)[0] == 'd' && keyword_of(raw)[1] == 'a' && keyword_of(raw)[2] == 'n' && keyword_of(raw)[3] == 'g' && keyword_of(raw)[4] == 'e' && keyword_of(raw)[5] == 'r');
        assert(seq!['i', 'n', 'f', 'o'].len() == 4);
        assert(keyword_of(raw) != seq!['i', 'n', 'f', 'o']);
        assert(seq!['s', 'u', 'c', 'c', 'e', 's', 's'].len() == 7);
        assert(keyword_of(raw) != seq!['s', 'u', 'c', 'c', 'e', 's', 's']);
        assert(seq!['w', 'a', 'r', 'n', 'i', 'n', 'g'].len() == 7);
        assert(keyword_of(raw) != seq!['w', 'a', 'r', 'n', 'i', 'n', 'g']);
        assert(seq!['w', 'a', 'r', 'n'].len() == 4);
        assert(keyword_of(raw) != seq!['w', 'a', 'r', 'n']);
        assert(seq!['e', 'r', 'r', 'o', 'r'].len() == 5);
        assert(keyword_of(raw) != seq!['e', 'r', 'r', 'o', 'r']);
    }
    if keyword_of(raw) == seq!['e', 'r', 'r', 'o', 'r'] {
        assert(keyword_of(raw)[0] == 'e' && keyword_of(raw)[1] == 'r' && keyword_of(raw)[2] == 'r' && keyword_of(raw)[3] == 'o' && keyword_of(raw)[4] == 'r');
        assert(seq!['i', 'n', 'f', 'o'].len() == 4);
        assert(keyword_of(raw) != seq!['i', 'n', 'f', 'o']);
        assert(seq!['s', 'u', 'c', 'c', 'e', 's', 's'].len() == 7);
        assert(keyword_of(raw) != seq!['s', 'u', 'c', 'c', 'e', 's', 's']);
        assert(seq!['w', 'a', 'r', 'n', 'i', 'n', 'g'].len() == 7);
        assert(keyword_of(raw) != seq!['w', 'a', 'r', 'n', 'i', 'n', 'g']);
        assert(seq!['w', 'a', 'r', 'n'].len() == 4);
        assert(keyword_of(raw) != seq!['w', 'a', 'r', 'n']);
        assert(seq!['d', 'a', 'n', 'g', 'e', 'r'].len() == 6);
        assert(keyword_of(raw) != seq!['d', 'a', 'n', 'g', 'e', 'r']);
    }
}

/// A card's kind keyword: `outlined`/`outline`, `raised`/`elevated`, `flat`, `selected`; anything else is a surface card.
pub proof fn card_kind_keywords(raw: Seq<char>)
    ensures
        keyword_of(raw) == seq!['o', 'u', 't', 'l', 'i', 'n', 'e', 'd'] ==> parse_card_kind_of(Some(raw)) == CardKind::Outlined,
        keyword_of(raw) == seq!['o', 'u', 't', 'l', 'i', 'n', 'e'] ==> parse_card_kind_of(Some(raw)) == CardKind::Outlined,
        keyword_of(raw) == seq!['r', 'a', 'i', 's', 'e', 'd'] ==> parse_card_kind_of(Some(raw)) == CardKind::Raised,
        keyword_of(raw) == seq!['e', 'l', 'e', 'v', 'a', 't', 'e', 'd'] ==> parse_card_kind_of(Some(raw)) == CardKind::Raised,
        keyword_of(raw) == seq!['f', 'l', 'a', 't'] ==> parse_card_kind_of(Some(raw)) == CardKind::Flat,
        keyword_of(raw) == seq!['s', 'e', 'l', 'e', 'c', 't', 'e', 'd'] ==> parse_card_kind_of(Some(raw)) == CardKind::Selected,
        keyword_of(raw) != seq!['o', 'u', 't', 'l', 'i', 'n', 'e', 'd'] && keyword_of(raw) != seq!['o', 'u', 't', 'l', 'i', 'n', 'e'] && keyword_of(raw) != seq!['r', 'a', 'i', 's', 'e', 'd'] && keyword_of(raw) != seq!['e', 'l', 'e', 'v', 'a', 't', 'e', 'd'] && keyword_of(raw) != seq!['f', 'l', 'a', 't'] && keyword_of(raw) != seq!['s', 'e', 'l', 'e', 'c', 't', 'e', 'd'] ==> parse_card_kind_of(Some(raw)) == CardKind::Surface,
        parse_card_kind_of(None) == CardKind::Surface,
{
    lemma_empty_keyword();
    assert(seq!['o', 'u', 't', 'l', 'i', 'n', 'e', 'd'][0] == 'o' && seq!['o', 'u', 't', 'l', 'i', 'n', 'e', 'd'][1] == 'u' && seq!['o', 'u', 't', 'l', 'i', 'n', 'e', 'd'][2] == 't' && seq!['o', 'u', 't', 'l', 'i', 'n', 'e', 'd'][3] == 'l' && seq!['o', 'u', 't', 'l', 'i', 'n', 'e', 'd'][4] == 'i' && seq!['o', 'u', 't', 'l', 'i', 'n', 'e', 'd'][5] == 'n' && seq!['o', 'u', 't', 'l', 'i', 'n', 'e', 'd'][6] == 'e' && seq!['o', 'u', 't', 'l', 'i', 'n', 'e', 'd'][7] == 'd');
    assert(seq!['o', 'u', 't', 'l', 'i', 'n', 'e'][0] == 'o' && seq!['o', 'u', 't', 'l', 'i', 'n', 'e'][1] == 'u' && seq!['o', 'u', 't', 'l', 'i', 'n', 'e'][2] == 't' && seq!['o', 'u', 't', 'l', 'i', 'n', 'e'][3] == 'l' && seq!['o', 'u', 't', 'l', 'i', 'n', 'e'][4] == 'i' && seq!['o', 'u', 't', 'l', 'i', 'n', 'e'][5] == 'n' && seq!['o', 'u', 't', 'l', 'i', 'n', 'e'][6] == 'e');
    assert(seq!['r', 'a', 'i', 's', 'e', 'd'][0] == 'r' && seq!['r', 'a', 'i', 's', 'e', 'd'][1] == 'a' && seq!['r', 'a', 'i', 's', 'e', 'd'][2] == 'i' && seq!['r', 'a', 'i', 's', 'e', 'd'][3] == 's' && seq!['r', 'a', 'i', 's', 'e', 'd'][4] == 'e' && seq!['r', 'a', 'i', 's', 'e', 'd'][5] == 'd');
    assert(seq!['e', 'l', 'e', 'v', 'a', 't', 'e', 'd'][0] == 'e' && seq!['e', 'l', 'e', 'v', 'a', 't', 'e', 'd'][1] == 'l' && seq!['e', 'l', 'e', 'v', 'a', 't', 'e', 'd'][2] == 'e' && seq!['e', 'l', 'e', 'v', 'a', 't', 'e', 'd'][3] == 'v' && seq!['e', 'l', 'e', 'v', 'a', 't', 'e', 'd'][4] == 'a' && seq!['e', 'l', 'e', 'v', 'a', 't', 'e', 'd'][5] == 't' && seq!['e', 'l', 'e', 'v', 'a', 't', 'e', 'd'][6] == 'e' && seq!['e', 'l', 'e', 'v', 'a', 't', 'e', 'd'][7] == 'd');
    assert(seq!['f', 'l', 'a', 't'][0] == 'f' && seq!['f', 'l', 'a', 't'][1] == 'l' && seq!['f', 'l', 'a', 't'][2] == 'a' && seq!['f', 'l', 'a', 't'][3] == 't');
    assert(seq!['s', 'e', 'l', 'e', 'c', 't', 'e', 'd'][0] == 's' && seq!['s', 'e', 'l', 'e', 'c', 't', 'e', 'd'][1] == 'e' && seq!['s', 'e', 'l', 'e', 'c', 't', 'e', 'd'][2] == 'l' && seq!['s', 'e', 'l', 'e', 'c', 't', 'e', 'd'][3] == 'e' && seq!['s', 'e', 'l', 'e', 'c', 't', 'e', 'd'][4] == 'c' && seq!['s', 'e', 'l', 'e', 'c', 't', 'e', 'd'][5] == 't' && seq!['s', 'e', 'l', 'e', 'c', 't', 'e', 'd'][6] == 'e' && seq!['s', 'e', 'l', 'e', 'c', 't', 'e', 'd'][7] == 'd');
    if keyword_of(raw) == seq!['o', 'u', 't', 'l', 'i', 'n', 'e', 'd'] {
        assert(keyword_of(raw)[0] == 'o' && keyword_of(raw)[1] == 'u' && keyword_of(raw)[2] == 't' && keyword_of(raw)[3] == 'l' && keyword_of(raw)[4] == 'i' && keyword_of(raw)[5] == 'n' && keyword_of(raw)[6] == 'e' && keyword_of(raw)[7] == 'd');
        assert(seq!['o', 'u', 't', 'l', 'i', 'n', 'e'].len() == 7);
        assert(keyword_of(raw) != seq!['o', 'u', 't', 'l', 'i', 'n', 'e']);
        assert(seq!['r', 'a', 'i', 's', 'e', 'd'].len() == 6);
        assert(keyword_of(raw) != seq!['r', 'a', 'i', 's', 'e', 'd']);
        assert(seq!['e', 'l', 'e', 'v', 'a', 't', 'e', 'd'][0] == 'e');
        assert(keyword_of(raw) != seq!['e', 'l', 'e', 'v', 'a', 't', 'e', 'd']);
        assert(seq!['f', 'l', 'a', 't'].len() == 4);
        assert(keyword_of(raw) != seq!['f', 'l', 'a', 't']);
        assert(seq!['s', 'e', 'l', 'e', 'c', 't', 'e', 'd'][0] == 's');
        assert(keyword_of(raw) != seq!['s', 'e', 'l', 'e', 'c', 't', 'e', 'd']);
    }
    if keyword_of(raw) == seq!['o', 'u', 't', 'l', 'i', 'n', 'e'] {
        assert(keyword_of(raw)[0] == 'o' && keyword_of(raw)[1] == 'u' && keyword_of(raw)[2] == 't' && keyword_of(raw)[3] == 'l' && keyword_of(raw)[4] == 'i' && keyword_of(raw)[5] == 'n' && keyword_of(raw)[6] == 'e');
        assert(seq!['o', 'u', 't', 'l', 'i', 'n', 'e', 'd'].len() == 8);
        assert(keyword_of(raw) != seq!['o', 'u', 't', 'l', 'i', 'n', 'e', 'd']);
        assert(seq!['r', 'a', 'i', 's', 'e', 'd'].len() == 6);
        assert(keyword_of(raw) != seq!['r', 'a', 'i', 's', 'e', 'd']);
        assert(seq!['e', 'l', 'e', 'v', 'a', 't', 'e', 'd'].len() == 8);
        assert(keyword_of(raw) != seq!['e', 'l', 'e', 'v', 'a', 't', 'e', 'd']);
        assert(seq!['f', 'l', 'a', 't'].len() == 4);
        assert(keyword_of(raw) != seq!['f', 'l', 'a', 't']);
        assert(seq!['s', 'e', 'l', 'e', 'c', 't', 'e', 'd'].len() == 8);
        assert(keyword_of(raw) != seq!['s', 'e', 'l', 'e', 'c', 't', 'e', 'd']);
    }
    if keyword_of(raw) == seq!['r', 'a', 'i', 's', 'e', 'd'] {
        assert(keyword_of(raw)[0] == 'r' && keyword_of(raw)[1] == 'a' && keyword_of(raw)[2] == 'i' && keyword_of(raw)[3] == 's' && keyword_of(raw)[4] == 'e' && keyword_of(raw)[5] == 'd');
        assert(seq!['o', 'u', 't', 'l', 'i', 'n', 'e', 'd'].len() == 8);
        assert(keyword_of(raw) != seq!['o', 'u', 't', 'l', 'i', 'n', 'e', 'd']);
        assert(seq!['o', 'u', 't', 'l', 'i', 'n', 'e'].len() == 7);
        assert(keyword_of(raw) != seq!['o', 'u', 't', 'l', 'i', 'n', 'e']);
        assert(seq!['e', 'l', 'e', 'v', 'a', 't', 'e', 'd'].len() == 8);
        assert(keyword_of(raw) != seq!['e', 'l', 'e', 'v', 'a', 't', 'e', 'd']);
        assert(seq!['f', 'l', 'a', 't'].len() == 4);
        assert(keyword_of(raw) != seq!['f', 'l', 'a', 't']);
        assert(seq!['s', 'e', 'l', 'e', 'c', 't', 'e', 'd'].len() == 8);
        assert(keyword_of(raw) != seq!['s', 'e', 'l', 'e', 'c', 't', 'e', 'd']);
    }
    if keyword_of(raw) == seq!['e', 'l', 'e', 'v', 'a', 't', 'e', 'd'] {
        assert(keyword_of(raw)[0] == 'e' && keyword_of(raw)[1] == 'l' && keyword_of(raw)[2] == 'e' && keyword_of(raw)[3] == 'v' && keyword_of(raw)[4] == 'a' && keyword_of(raw)[5] == 't' && keyword_of(raw)[6] == 'e' && keyword_of(raw)[7] == 'd');
        assert(seq!['o', 'u', 't', 'l', 'i', 'n', 'e', 'd'][0] == 'o');
        assert(keyword_of(raw) != seq!['o', 'u', 't', 'l', 'i', 'n', 'e', 'd']);
        assert(seq!['o', 'u', 't', 'l', 'i', 'n', 'e'].len() == 7);
        assert(keyword_of(raw) != seq!['o', 'u', 't', 'l', 'i', 'n', 'e']);
        assert(seq!['r', 'a', 'i', 's', 'e', 'd'].len() == 6);
        assert(keyword_of(raw) != seq!['r', 'a', 'i', 's', 'e', 'd']);
        assert(seq!['f', 'l', 'a', 't'].len() == 4);
        assert(keyword_of(raw) != seq!['f', 'l', 'a', 't']);
        assert(seq!['s', 'e', 'l', 'e', 'c', 't', 'e', 'd'][0] == 's');
        assert(keyword_of(raw) != seq!['s', 'e', 'l', 'e', 'c', 't', 'e', 'd']);
    }
    if keyword_of(raw) == seq!['f', 'l', 'a', 't'] {
        assert(keyword_of(raw)[0] == 'f' && keyword_of(raw)[1] == 'l' && keyword_of(raw)[2] == 'a' && keyword_of(raw)[3] == 't');
        assert(seq!['o', 'u', 't', 'l', 'i', 'n', 'e', 'd'].len() == 8);
        assert(keyword_of(raw) != seq!['o', 'u', 't', 'l', 'i', 'n', 'e', 'd']);
        assert(seq!['o', 'u', 't', 'l', 'i', 'n', 'e'].len() == 7);
        assert(keyword_of(raw) != seq!['o', 'u', 't', 'l', 'i', 'n', 'e']);
        assert(seq!['r', 'a', 'i', 's', 'e', 'd'].len() == 6);
        assert(keyword_of(raw) != seq!['r', 'a', 'i', 's', 'e', 'd']);
        assert(seq!['e', 'l', 'e', 'v', 'a', 't', 'e', 'd'].len() == 8);
        assert(keyword_of(raw) != seq!['e', 'l', 'e', 'v', 'a', 't', 'e', 'd']);
        assert(seq!['s', 'e', 'l', 'e', 'c', 't', 'e', 'd'].len() == 8);
        assert(keyword_of(raw) != seq!['s', 'e', 'l', 'e', 'c', 't', 'e', 'd']);
    }
    if keyword_of(raw) == seq!['s', 'e', 'l', 'e', 'c', 't', 'e', 'd'] {
        assert(keyword_of(raw)[0] == 's' && keyword_of(raw)[1] == 'e' && keyword_of(raw)[2] == 'l' && keyword_of(raw)[3] == 'e' && keyword_of(raw)[4] == 'c' && keyword_of(raw)[5] == 't' && keyword_of(raw)[6] == 'e' && keyword_of(raw)[7] == 'd');
        assert(seq!['o', 'u', 't', 'l', 'i', 'n', 'e', 'd'][0] == 'o');
        assert(keyword_of(raw) != seq!['o', 'u', 't', 'l', 'i', 'n', 'e', 'd']);
        assert(seq!['o', 'u', 't', 'l', 'i', 'n', 'e'].len() == 7);
        assert(keyword_of(raw) != seq!['o', 'u', 't', 'l', 'i', 'n', 'e']);
        assert(seq!['r', 'a', 'i', 's', 'e', 'd'].len() == 6);
        assert(keyword_of(raw) != seq!['r', 'a', 'i', 's', 'e', 'd']);
        assert(seq!['e', 'l', 'e', 'v', 'a', 't', 'e', 'd'][0] == 'e');
        assert(keyword_of(raw) != seq!['e', 'l', 'e', 'v', 'a', 't', 'e', 'd']);
        assert(seq!['f', 'l', 'a', 't'].len() == 4);
        assert(keyword_of(raw) != seq!['f', 'l', 'a', 't']);
    }
}

/// A drawer's side keyword: `left`/`start`, `bottom`; anything else is the right side.
pub proof fn drawer_side_keywords(raw: Seq<char>)
    ensures
        keyword_of(raw) == seq!['l', 'e', 'f', 't'] ==> parse_drawer_side_of(Some(raw)) == DrawerSide::Left,
        keyword_of(raw) == seq!['s', 't', 'a', 'r', 't'] ==> parse_drawer_side_of(Some(raw)) == DrawerSide::Left,
        keyword_of(raw) == seq!['b', 'o', 't', 't', 'o', 'm'] ==> parse_drawer_side_of(Some(raw)) == DrawerSide::Bottom,
        keyword_of(raw) != seq!['l', 'e', 'f', 't'] && keyword_of(raw) != seq!['s', 't', 'a', 'r', 't'] && keyword_of(raw) != seq!['b', 'o', 't', 't', 'o', 'm'] ==> parse_drawer_side_of(Some(raw)) == DrawerSide::Right,
        parse_drawer_side_of(None) == DrawerSide::Right,
{
    lemma_empty_keyword();
    assert(seq!['l', 'e', 'f', 't'][0] == 'l' && seq!['l', 'e', 'f', 't'][1] == 'e' && seq!['l', 'e', 'f', 't'][2] == 'f' && seq!['l', 'e', 'f', 't'][3] == 't');
    assert(seq!['s', 't', 'a', 'r', 't'][0] == 's' && seq!['s', 't', 'a', 'r', 't'][1] == 't' && seq!['s', 't', 'a', 'r', 't'][2] == 'a' && seq!['s', 't', 'a', 'r', 't'][3] == 'r' && seq!['s', 't', 'a', 'r', 't'][4] == 't');
    assert(seq!['b', 'o', 't', 't', 'o', 'm'][0] == 'b' && seq!['b', 'o', 't', 't', 'o', 'm'][1] == 'o' && seq!['b', 'o', 't', 't', 'o', 'm'][2] == 't' && seq!['b', 'o', 't', 't', 'o', 'm'][3] == 't' && seq!['b', 'o', 't', 't', 'o', 'm'][4] == 'o' && seq!['b', 'o', 't', 't', 'o', 'm'][5] == 'm');
    if keyword_of(raw) == seq!['l', 'e', 'f', 't'] {
        assert(keyword_of(raw)[0] == 'l' && keyword_of(raw)[1] == 'e' && keyword_of(raw)[2] == 'f' && keyword_of(raw)[3] == 't');
        assert(seq!['s', 't', 'a', 'r', 't'].len() == 5);
        assert(keyword_of(raw) != seq!['s', 't', 'a', 'r', 't']);
        assert(seq!['b', 'o', 't', 't', 'o', 'm'].len() == 6);
        assert(keyword_of(raw) != seq!['b', 'o', 't', 't', 'o', 'm']);
    }
    if keyword_of(raw) == seq!['s', 't', 'a', 'r', 't'] {
        assert(keyword_of(raw)[0] == 's' && keyword_of(raw)[1] == 't' && keyword_of(raw)[2] == 'a' && keyword_of(raw)[3] == 'r' && keyword_of(raw)[4] == 't');
        assert(seq!['l', 'e', 'f', 't'].len() == 4);
        assert(keyword_of(raw) != seq!['l', 'e', 'f', 't']);
        assert(seq!['b', 'o', 't', 't', 'o', 'm'].len() == 6);
        assert(keyword_of(raw) != seq!['b', 'o', 't', 't', 'o', 'm']);
    }
    if keyword_of(raw) == seq!['b', 'o', 't', 't', 'o', 'm'] {
        assert(keyword_of(raw)[0] == 'b' && keyword_of(raw)[1] == 'o' && keyword_of(raw)[2] == 't' && keyword_of(raw)[3] == 't' && keyword_of(raw)[4] == 'o' && keyword_of(raw)[5] == 'm');
        assert(seq!['l', 'e', 'f', 't'].len() == 4);
        assert(keyword_of(raw) != seq!['l', 'e', 'f', 't']);
        assert(seq!['s', 't', 'a', 'r', 't'].len() == 5);
        assert(keyword_of(raw) != seq!['s', 't', 'a', 'r', 't']);
    }
}

/// A switch control's position keyword: `start`/`left`; anything else is the end.
pub proof fn control_position_keywords(raw: Seq<char>)
    ensures
        keyword_of(raw) == seq!['s', 't', 'a', 'r', 't'] ==> parse_control_position_of(Some(raw)) == SwitchControlPosition::Start,
        keyword_of(raw) == seq!['l', 'e', 'f', 't'] ==> parse_control_position_of(Some(raw)) == SwitchControlPosition::Start,
        keyword_of(raw) != seq!['s', 't', 'a', 'r', 't'] && keyword_of(raw) != seq!['l', 'e', 'f', 't'] ==> parse_control_position_of(Some(raw)) == SwitchControlPosition::End,
        parse_control_position_of(None) == SwitchControlPosition::End,
{
    lemma_empty_keyword();
    assert(seq!['s', 't', 'a', 'r', 't'][0] == 's' && seq!['s', 't', 'a', 'r', 't'][1] == 't' && seq!['s', 't', 'a', 'r', 't'][2] == 'a' && seq!['s', 't', 'a', 'r', 't'][3] == 'r' && seq!['s', 't', 'a', 'r', 't'][4] == 't');
    assert(seq!['l', 'e', 'f', 't'][0] == 'l' && seq!['l', 'e', 'f', 't'][1] == 'e' && seq!['l', 'e', 'f', 't'][2] == 'f' && seq!['l', 'e', 'f', 't'][3] == 't');
    if keyword_of(raw) == seq!['s', 't', 'a', 'r', 't'] {
        assert(keyword_of(raw)[0] == 's' && keyword_of(raw)[1] == 't' && keyword_of(raw)[2] == 'a' && keyword_of(raw)[3] == 'r' && keyword_of(raw)[4] == 't');
        assert(seq!['l', 'e', 'f', 't'].len() == 4);
        assert(keyword_of(raw) != seq!['l', 'e', 'f', 't']);
    }
    if keyword_of(raw) == seq!['l', 'e', 'f', 't'] {
        assert(keyword_of(raw)[0] == 'l' && keyword_of(raw)[1] == 'e' && keyword_of(raw)[2] == 'f' && keyword_of(raw)[3] == 't');
        assert(seq!['s', 't', 'a', 'r', 't'].len() == 5);
        assert(keyword_of(raw) != seq!['s', 't', 'a', 'r', 't']);
    }
}

/// A validation intent keyword: `danger`/`error`; anything else is a warning.
pub proof fn validation_intent_keywords(raw: Seq<char>)
    ensures
        keyword_of(raw) == seq!['d', 'a', 'n', 'g', 'e', 'r'] ==> parse_validation_intent_of(Some(raw)) == ValidationIntent::Danger,
        keyword_of(raw) == seq!['e', 'r', 'r', 'o', 'r'] ==> parse_validation_intent_of(Some(raw)) == ValidationIntent::Danger,
        keyword_of(raw) != seq!['d', 'a', 'n', 'g', 'e', 'r'] && keyword_of(raw) != seq!['e', 'r', 'r', 'o', 'r'] ==> parse_validation_intent_of(Some(raw)) == ValidationIntent::Warning,
        parse_validation_intent_of(None) == ValidationIntent::Warning,
{
    lemma_empty_keyword();
    assert(seq!['d', 'a', 'n', 'g', 'e', 'r'][0] == 'd' && seq!['d', 'a', 'n', 'g', 'e', 'r'][1] == 'a' && seq!['d', 'a', 'n', 'g', 'e', 'r'][2] == 'n' && seq!['d', 'a', 'n', 'g', 'e', 'r'][3] == 'g' && seq!['d', 'a', 'n', 'g', 'e', 'r'][4] == 'e' && seq!['d', 'a', 'n', 'g', 'e', 'r'][5] == 'r');
    assert(seq!['e', 'r', 'r', 'o', 'r'][0] == 'e' && seq!['e', 'r', 'r', 'o', 'r'][1] == 'r' && seq!['e', 'r', 'r', 'o', 'r'][2] == 'r' && seq!['e', 'r', 'r', 'o', 'r'][3] == 'o' && seq!['e', 'r', 'r', 'o', 'r'][4] == 'r');
    if keyword_of(raw) == seq!['d', 'a', 'n', 'g', 'e', 'r'] {
        assert(keyword_of(raw)[0] == 'd' && keyword_of(raw)[1] == 'a' && keyword_of(raw)[2] == 'n' && keyword_of(raw)[3] == 'g' && keyword_of(raw)[4] == 'e' && keyword_of(raw)[5] == 'r');
        assert(seq!['e', 'r', 'r', 'o', 'r'].len() == 5);
        assert(keyword_of(raw) != seq!['e', 'r', 'r', 'o', 'r']);
    }
    if keyword_of(raw) == seq!['e', 'r', 'r', 'o', 'r'] {
        assert(keyword_of(raw)[0] == 'e' && keyword_of(raw)[1] == 'r' && keyword_of(raw)[2] == 'r' && keyword_of(raw)[3] == 'o' && keyword_of(raw)[4] == 'r');
        assert(seq!['d', 'a', 'n', 'g', 'e', 'r'].len() == 6);
        assert(keyword_of(raw) != seq!['d', 'a', 'n', 'g', 'e', 'r']);
    }
}

/// A three-state attribute: `true`/`1`/`yes` is true, `false`/`0`/`no` is false, anything else or a missing attribute is unset.
pub proof fn tristate_keywords(raw: Seq<char>)
    ensures
        keyword_of(raw) == seq!['t', 'r', 'u', 'e'] ==> tristate_of(Some(raw)) == Some(true),
        keyword_of(raw) == seq!['1'] ==> tristate_of(Some(raw)) == Some(true),
        keyword_of(raw) == seq!['y', 'e', 's'] ==> tristate_of(Some(raw)) == Some(true),
        keyword_of(raw) == seq!['f', 'a', 'l', 's', 'e'] ==> tristate_of(Some(raw)) == Some(false),
        keyword_of(raw) == seq!['0'] ==> tristate_of(Some(raw)) == Some(false),
        keyword_of(raw) == seq!['n', 'o'] ==> tristate_of(Some(raw)) == Some(false),
        keyword_of(raw) != seq!['t', 'r', 'u', 'e'] && keyword_of(raw) != seq!['1'] && keyword_of(raw) != seq!['y', 'e', 's'] && keyword_of(raw) != seq!['f', 'a', 'l', 's', 'e'] && keyword_of(raw) != seq!['0'] && keyword_of(raw) != seq!['n', 'o'] ==> tristate_of(Some(raw)) == None::<bool>,
        tristate_of(None) == None::<bool>,
{
    lemma_empty_keyword();
    assert(seq!['t', 'r', 'u', 'e'][0] == 't' && seq!['t', 'r', 'u', 'e'][1] == 'r' && seq!['t', 'r', 'u', 'e'][2] == 'u' && seq!['t', 'r', 'u', 'e'][3] == 'e');
    assert(seq!['1'][0] == '1');
    assert(seq!['y', 'e', 's'][0] == 'y' && seq!['y', 'e', 's'][1] == 'e' && seq!['y', 'e', 's'][2] == 's');
    assert(seq!['f', 'a', 'l', 's', 'e'][0] == 'f' && seq!['f', 'a', 'l', 's', 'e'][1] == 'a' && seq!['f', 'a', 'l', 's', 'e'][2] == 'l' && seq!['f', 'a', 'l', 's', 'e'][3] == 's' && seq!['f', 'a', 'l', 's', 'e'][4] == 'e');
    assert(seq!['0'][0] == '0');
    assert(seq!['n', 'o'][0] == 'n' && seq!['n', 'o'][1] == 'o');
    if keyword_of(raw) == seq!['t', 'r', 'u', 'e'] {
        assert(keyword_of(raw)[0] == 't' && keyword_of(raw)[1] == 'r' && keyword_of(raw)[2] == 'u' && keyword_of(raw)[3] == 'e');
        assert(seq!['1'].len() == 1);
        assert(keyword_of(raw) != seq!['1']);
        assert(seq!['y', 'e', 's'].len() == 3);
        assert(keyword_of(raw) != seq!['y', 'e', 's']);
        assert(seq!['f', 'a', 'l', 's', 'e'].len() == 5);
        assert(keyword_of(raw) != seq!['f', 'a', 'l', 's', 'e']);
        assert(seq!['0'].len() == 1);
        assert(keyword_of(raw) != seq!['0']);
        assert(seq!['n', 'o'].len() == 2);
        assert(keyword_of(raw) != seq!['n', 'o']);
    }
    if keyword_of(raw) == seq!['1'] {
        assert(keyword_of(raw)[0] == '1');
        assert(seq!['t', 'r', 'u', 'e'].len() == 4);
        assert(keyword_of(raw) != seq!['t', 'r', 'u', 'e']);
        assert(seq!['y', 'e', 's'].len() == 3);
        assert(keyword_of(raw) != seq!['y', 'e', 's']);
        assert(seq!['f', 'a', 'l', 's', 'e'].len() == 5);
        assert(keyword_of(raw) != seq!['f', 'a', 'l', 's', 'e']);
        assert(seq!['0'][0] == '0');
        assert(keyword_of(raw) != seq!['0']);
        assert(seq!['n', 'o'].len() == 2);
        assert(keyword_of(raw) != seq!['n', 'o']);
    }
    if keyword_of(raw) == seq!['y', 'e', 's'] {
        assert(keyword_of(raw)[0] == 'y' && keyword_of(raw)[1] == 'e' && keyword_of(raw)[2] == 's');
        assert(seq!['t', 'r', 'u', 'e'].len() == 4);
        assert(keyword_of(raw) != seq!['t', 'r', 'u', 'e']);
        assert(seq!['1'].len() == 1);
        assert(keyword_of(raw) != seq!['1']);
        assert(seq!['f', 'a', 'l', 's', 'e'].len() == 5);
        assert(keyword_of(raw) != seq!['f', 'a', 'l', 's', 'e']);
        assert(seq!['0'].len() == 1);
        assert(keyword_of(raw) != seq!['0']);
        assert(seq!['n', 'o'].len() == 2);
        assert(keyword_of(raw) != seq!['n', 'o']);
    }
    if keyword_of(raw) == seq!['f', 'a', 'l', 's', 'e'] {
        assert(keyword_of(raw)[0] == 'f' && keyword_of(raw)[1] == 'a' && keyword_of(raw)[2] == 'l' && keyword_of(raw)[3] == 's' && keyword_of(raw)[4] == 'e');
        assert(seq!['t', 'r', 'u', 'e'].len() == 4);
        assert(keyword_of(raw) != seq!['t', 'r', 'u', 'e']);
        assert(seq!['1'].len() == 1);
        assert(keyword_of(raw) != seq!['1']);
        assert(seq!['y', 'e', 's'].len() == 3);
        assert(keyword_of(raw) != seq!['y', 'e', 's']);
        assert(seq!['0'].len() == 1);
        assert(keyword_of(raw) != seq!['0']);
        assert(seq!['n', 'o'].len() == 2);
        assert(keyword_of(raw) != seq!['n', 'o']);
    }
    if keyword_of(raw) == seq!['0'] {
        assert(keyword_of(raw)[0] == '0');
        assert(seq!['t', 'r', 'u', 'e'].len() == 4);
        assert(keyword_of(raw) != seq!['t', 'r', 'u', 'e']);
        assert(seq!['1'][0] == '1');
        assert(keyword_of(raw) != seq!['1']);
        assert(seq!['y', 'e', 's'].len() == 3);
        assert(keyword_of(raw) != seq!['y', 'e', 's']);
        assert(seq!['f', 'a', 'l', 's', 'e'].len() == 5);
        assert(keyword_of(raw) != seq!['f', 'a', 'l', 's', 'e']);
        assert(seq!['n', 'o'].len() == 2);
        assert(keyword_of(raw) != seq!['n', 'o']);
    }
    if keyword_of(raw) == seq!['n', 'o'] {
        assert(keyword_of(raw)[0] == 'n' && keyword_of(raw)[1] == 'o');
        assert(seq!['t', 'r', 'u', 'e'].len() == 4);
        assert(keyword_of(raw) != seq!['t', 'r', 'u', 'e']);
        assert(seq!['1'].len() == 1);
        assert(keyword_of(raw) != seq!['1']);
        assert(seq!['y', 'e', 's'].len() == 3);
        assert(keyword_of(raw) != seq!['y', 'e', 's']);
        assert(seq!['f', 'a', 'l', 's', 'e'].len() == 5);
        assert(keyword_of(raw) != seq!['f', 'a', 'l', 's', 'e']);
        assert(seq!['0'].len() == 1);
        assert(keyword_of(raw) != seq!['0']);
    }
}

/// A boolean attribute: missing is false, present and blank is true, `false`/`0`/`off`/`no` are false and any other text is true.
pub proof fn flag_keywords(raw: Seq<char>)
    ensures
        keyword_of(raw) == Seq::<char>::empty() ==> parse_flag_of(Some(raw)) == true,
        keyword_of(raw) == seq!['f', 'a', 'l', 's', 'e'] ==> parse_flag_of(Some(raw)) == false,
        keyword_of(raw) == seq!['0'] ==> parse_flag_of(Some(raw)) == false,
        keyword_of(raw) == seq!['o', 'f', 'f'] ==> parse_flag_of(Some(raw)) == false,
        keyword_of(raw) == seq!['n', 'o'] ==> parse_flag_of(Some(raw)) == false,
        keyword_of(raw) != Seq::<char>::empty() && keyword_of(raw) != seq!['f', 'a', 'l', 's', 'e'] && keyword_of(raw) != seq!['0'] && keyword_of(raw) != seq!['o', 'f', 'f'] && keyword_of(raw) != seq!['n', 'o'] ==> parse_flag_of(Some(raw)) == true,
        !parse_flag_of(None),
{
    lemma_empty_keyword();
    assert(seq!['f', 'a', 'l', 's', 'e'][0] == 'f' && seq!['f', 'a', 'l', 's', 'e'][1] == 'a' && seq!['f', 'a', 'l', 's', 'e'][2] == 'l' && seq!['f', 'a', 'l', 's', 'e'][3] == 's' && seq!['f', 'a', 'l', 's', 'e'][4] == 'e');
    assert(seq!['0'][0] == '0');
    assert(seq!['o', 'f', 'f'][0] == 'o' && seq!['o', 'f', 'f'][1] == 'f' && seq!['o', 'f', 'f'][2] == 'f');
    assert(seq!['n', 'o'][0] == 'n' && seq!['n', 'o'][1] == 'o');
    if keyword_of(raw) == seq!['f', 'a', 'l', 's', 'e'] {
        assert(keyword_of(raw)[0] == 'f' && keyword_of(raw)[1] == 'a' && keyword_of(raw)[2] == 'l' && keyword_of(raw)[3] == 's' && keyword_of(raw)[4] == 'e');
        assert(seq!['0'].len() == 1);
        assert(keyword_of(raw) != seq!['0']);
        assert(seq!['o', 'f', 'f'].len() == 3);
        assert(keyword_of(raw) != seq!['o', 'f', 'f']);
        assert(seq!['n', 'o'].len() == 2);
        assert(keyword_of(raw) != seq!['n', 'o']);
    }
    if keyword_of(raw) == seq!['0'] {
        assert(keyword_of(raw)[0] == '0');
        assert(seq!['f', 'a', 'l', 's', 'e'].len() == 5);
        assert(keyword_of(raw) != seq!['f', 'a', 'l', 's', 'e']);
        assert(seq!['o', 'f', 'f'].len() == 3);
        assert(keyword_of(raw) != seq!['o', 'f', 'f']);
        assert(seq!['n', 'o'].len() == 2);
        assert(keyword_of(raw) != seq!['n', 'o']);
    }
    if keyword_of(raw) == seq!['o', 'f', 'f'] {
        assert(keyword_of(raw)[0] == 'o' && keyword_of(raw)[1] == 'f' && keyword_of(raw)[2] == 'f');
        assert(seq!['f', 'a', 'l', 's', 'e'].len() == 5);
        assert(keyword_of(raw) != seq!['f', 'a', 'l', 's', 'e']);
        assert(seq!['0'].len() == 1);
        assert(keyword_of(raw) != seq!['0']);
        assert(seq!['n', 'o'].len() == 2);
        assert(keyword_of(raw) != seq!['n', 'o']);
    }
    if keyword_of(raw) == seq!['n', 'o'] {
        assert(keyword_of(raw)[0] == 'n' && keyword_of(raw)[1] == 'o');
        assert(seq!['f', 'a', 'l', 's', 'e'].len() == 5);
        assert(keyword_of(raw) != seq!['f', 'a', 'l', 's', 'e']);
        assert(seq!['0'].len() == 1);
        assert(keyword_of(raw) != seq!['0']);
        assert(seq!['o', 'f', 'f'].len() == 3);
        assert(keyword_of(raw) != seq!['o', 'f', 'f']);
    }
}

/// A dock axis keyword: `vertical`/`column`/`y` is vertical, anything else horizontal.
pub proof fn dock_axis_keywords(raw: Seq<char>)
    ensures
        keyword_of(raw) == seq!['v', 'e', 'r', 't', 'i', 'c', 'a', 'l'] ==> dock_axis_of(raw) == DockAxis::Vertical,
        keyword_of(raw) == seq!['c', 'o', 'l', 'u', 'm', 'n'] ==> dock_axis_of(raw) == DockAxis::Vertical,
        keyword_of(raw) == seq!['y'] ==> dock_axis_of(raw) == DockAxis::Vertical,
        keyword_of(raw) != seq!['v', 'e', 'r', 't', 'i', 'c', 'a', 'l'] && keyword_of(raw) != seq!['c', 'o', 'l', 'u', 'm', 'n'] && keyword_of(raw) != seq!['y'] ==> dock_axis_of(raw) == DockAxis::Horizontal,
{
    assert(seq!['v', 'e', 'r', 't', 'i', 'c', 'a', 'l'][0] == 'v' && seq!['v', 'e', 'r', 't', 'i', 'c', 'a', 'l'][1] == 'e' && seq!['v', 'e', 'r', 't', 'i', 'c', 'a', 'l'][2] == 'r' && seq!['v', 'e', 'r', 't', 'i', 'c', 'a', 'l'][3] == 't' && seq!['v', 'e', 'r', 't', 'i', 'c', 'a', 'l'][4] == 'i' && seq!['v', 'e', 'r', 't', 'i', 'c', 'a', 'l'][5] == 'c' && seq!['v', 'e', 'r', 't', 'i', 'c', 'a', 'l'][6] == 'a' && seq!['v', 'e', 'r', 't', 'i', 'c', 'a', 'l'][7] == 'l');
    assert(seq!['c', 'o', 'l', 'u', 'm', 'n'][0] == 'c' && seq!['c', 'o', 'l', 'u', 'm', 'n'][1] == 'o' && seq!['c', 'o', 'l', 'u', 'm', 'n'][2] == 'l' && seq!['c', 'o', 'l', 'u', 'm', 'n'][3] == 'u' && seq!['c', 'o', 'l', 'u', 'm', 'n'][4] == 'm' && seq!['c', 'o', 'l', 'u', 'm', 'n'][5] == 'n');
    assert(seq!['y'][0] == 'y');
    if keyword_of(raw) == seq!['v', 'e', 'r', 't', 'i', 'c', 'a', 'l'] {
        assert(keyword_of(raw)[0] == 'v' && keyword_of(raw)[1] == 'e' && keyword_of(raw)[2] == 'r' && keyword_of(raw)[3] == 't' && keyword_of(raw)[4] == 'i' && keyword_of(raw)[5] == 'c' && keyword_of(raw)[6] == 'a' && keyword_of(raw)[7] == 'l');
        assert(seq!['c', 'o', 'l', 'u', 'm', 'n'].len() == 6);
        assert(keyword_of(raw) != seq!['c', 'o', 'l', 'u', 'm', 'n']);
        assert(seq!['y'].len() == 1);
        assert(keyword_of(raw) != seq!['y']);
    }
    if keyword_of(raw) == seq!['c', 'o', 'l', 'u', 'm', 'n'] {
        assert(keyword_of(raw)[0] == 'c' && keyword_of(raw)[1] == 'o' && keyword_of(raw)[2] == 'l' && keyword_of(raw)[3] == 'u' && keyword_of(raw)[4] == 'm' && keyword_of(raw)[5] == 'n');
        assert(seq!['v', 'e', 'r', 't', 'i', 'c', 'a', 'l'].len() == 8);
        assert(keyword_of(raw) != seq!['v', 'e', 'r', 't', 'i', 'c', 'a', 'l']);
        assert(seq!['y'].len() == 1);
        assert(keyword_of(raw) != seq!['y']);
    }
    if keyword_of(raw) == seq!['y'] {
        assert(keyword_of(raw)[0] == 'y');
        assert(seq!['v', 'e', 'r', 't', 'i', 'c', 'a', 'l'].len() == 8);
        assert(keyword_of(raw) != seq!['v', 'e', 'r', 't', 'i', 'c', 'a', 'l']);
        assert(seq!['c', 'o', 'l', 'u', 'm', 'n'].len() == 6);
        assert(keyword_of(raw) != seq!['c', 'o', 'l', 'u', 'm', 'n']);
    }
}

/// A graph port's direction keyword: `input`/`in`, `bidirectional`/`both`/`inout`; anything else is an output.
pub proof fn graph_port_kind_keywords(raw: Seq<char>)
    ensures
        keyword_of(raw) == seq!['i', 'n', 'p', 'u', 't'] ==> graph_port_kind_of(raw) == GraphPortKind::Input,
        keyword_of(raw) == seq!['i', 'n'] ==> graph_port_kind_of(raw) == GraphPortKind::Input,
        keyword_of(raw) == seq!['b', 'i', 'd', 'i', 'r', 'e', 'c', 't', 'i', 'o', 'n', 'a', 'l'] ==> graph_port_kind_of(raw) == GraphPortKind::Bidirectional,
        keyword_of(raw) == seq!['b', 'o', 't', 'h'] ==> graph_port_kind_of(raw) == GraphPortKind::Bidirectional,
        keyword_of(raw) == seq!['i', 'n', 'o', 'u', 't'] ==> graph_port_kind_of(raw) == GraphPortKind::Bidirectional,
        keyword_of(raw) != seq!['i', 'n', 'p', 'u', 't'] && keyword_of(raw) != seq!['i', 'n'] && keyword_of(raw) != seq!['b', 'i', 'd', 'i', 'r', 'e', 'c', 't', 'i', 'o', 'n', 'a', 'l'] && keyword_of(raw) != seq!['b', 'o', 't', 'h'] && keyword_of(raw) != seq!['i', 'n', 'o', 'u', 't'] ==> graph_port_kind_of(raw) == GraphPortKind::Output,
{
    assert(seq!['i', 'n', 'p', 'u', 't'][0] == 'i' && seq!['i', 'n', 'p', 'u', 't'][1] == 'n' && seq!['i', 'n', 'p', 'u', 't'][2] == 'p' && seq!['i', 'n', 'p', 'u', 't'][3] == 'u' && seq!['i', 'n', 'p', 'u', 't'][4] == 't');
    assert(seq!['i', 'n'][0] == 'i' && seq!['i', 'n'][1] == 'n');
    assert(seq!['b', 'i', 'd', 'i', 'r', 'e', 'c', 't', 'i', 'o', 'n', 'a', 'l'][0] == 'b' && seq!['b', 'i', 'd', 'i', 'r', 'e', 'c', 't', 'i', 'o', 'n', 'a', 'l'][1] == 'i' && seq!['b', 'i', 'd', 'i', 'r', 'e', 'c', 't', 'i', 'o', 'n', 'a', 'l'][2] == 'd' && seq!['b', 'i', 'd', 'i', 'r', 'e', 'c', 't', 'i', 'o', 'n', 'a', 'l'][3] == 'i' && seq!['b', 'i', 'd', 'i', 'r', 'e', 'c', 't', 'i', 'o', 'n', 'a', 'l'][4] == 'r' && seq!['b', 'i', 'd', 'i', 'r', 'e', 'c', 't', 'i', 'o', 'n', 'a', 'l'][5] == 'e' && seq!['b', 'i', 'd', 'i', 'r', 'e', 'c', 't', 'i', 'o', 'n', 'a', 'l'][6] == 'c' && seq!['b', 'i', 'd', 'i', 'r', 'e', 'c', 't', 'i', 'o', 'n', 'a', 'l'][7] == 't' && seq!['b', 'i', 'd', 'i', 'r', 'e', 'c', 't', 'i', 'o', 'n', 'a', 'l'][8] == 'i' && seq!['b', 'i', 'd', 'i', 'r', 'e', 'c', 't', 'i', 'o', 'n', 'a', 'l'][9] == 'o' && seq!['b', 'i', 'd', 'i', 'r', 'e', 'c', 't', 'i', 'o', 'n', 'a', 'l'][10] == 'n' && seq!['b', 'i', 'd', 'i', 'r', 'e', 'c', 't', 'i', 'o', 'n', 'a', 'l'][11] == 'a' && seq!['b', 'i', 'd', 'i', 'r', 'e', 'c', 't', 'i', 'o', 'n', 'a', 'l'][12] == 'l');
    assert(seq!['b', 'o', 't', 'h'][0] == 'b' && seq!['b', 'o', 't', 'h'][1] == 'o' && seq!['b', 'o', 't', 'h'][2] == 't' && seq!['b', 'o', 't', 'h'][3] == 'h');
    assert(seq!['i', 'n', 'o', 'u', 't'][0] == 'i' && seq!['i', 'n', 'o', 'u', 't'][1] == 'n' && seq!['i', 'n', 'o', 'u', 't'][2] == 'o' && seq!['i', 'n', 'o', 'u', 't'][3] == 'u' && seq!['i', 'n', 'o', 'u', 't'][4] == 't');
    if keyword_of(raw) == seq!['i', 'n', 'p', 'u', 't'] {
        assert(keyword_of(raw)[0] == 'i' && keyword_of(raw)[1] == 'n' && keyword_of(raw)[2] == 'p' && keyword_of(raw)[3] == 'u' && keyword_of(raw)[4] == 't');
        assert(seq!['i', 'n'].len() == 2);
        assert(keyword_of(raw) != seq!['i', 'n']);
        assert(seq!['b', 'i', 'd', 'i', 'r', 'e', 'c', 't', 'i', 'o', 'n', 'a', 'l'].len() == 13);
        assert(keyword_of(raw) != seq!['b', 'i', 'd', 'i', 'r', 'e', 'c', 't', 'i', 'o', 'n', 'a', 'l']);
        assert(seq!['b', 'o', 't', 'h'].len() == 4);
        assert(keyword_of(raw) != seq!['b', 'o', 't', 'h']);
        assert(seq!['i', 'n', 'o', 'u', 't'][2] == 'o');
        assert(keyword_of(raw) != seq!['i', 'n', 'o', 'u', 't']);
    }
    if keyword_of(raw) == seq!['i', 'n'] {
        assert(keyword_of(raw)[0] == 'i' && keyword_of(raw)[1] == 'n');
        assert(seq!['i', 'n', 'p', 'u', 't'].len() == 5);
        assert(keyword_of(raw) != seq!['i', 'n', 'p', 'u', 't']);
        assert(seq!['b', 'i', 'd', 'i', 'r', 'e', 'c', 't', 'i', 'o', 'n', 'a', 'l'].len() == 13);
        assert(keyword_of(raw) != seq!['b', 'i', 'd', 'i', 'r', 'e', 'c', 't', 'i', 'o', 'n', 'a', 'l']);
        assert(seq!['b', 'o', 't', 'h'].len() == 4);
        assert(keyword_of(raw) != seq!['b', 'o', 't', 'h']);
        assert(seq!['i', 'n', 'o', 'u', 't'].len() == 5);
        assert(keyword_of(raw) != seq!['i', 'n', 'o', 'u', 't']);
    }
    if keyword_of(raw) == seq!['b', 'i', 'd', 'i', 'r', 'e', 'c', 't', 'i', 'o', 'n', 'a', 'l'] {
        assert(keyword_of(raw)[0] == 'b' && keyword_of(raw)[1] == 'i' && keyword_of(raw)[2] == 'd' && keyword_of(raw)[3] == 'i' && keyword_of(raw)[4] == 'r' && keyword_of(raw)[5] == 'e' && keyword_of(raw)[6] == 'c' && keyword_of(raw)[7] == 't' && keyword_of(raw)[8] == 'i' && keyword_of(raw)[9] == 'o' && keyword_of(raw)[10] == 'n' && keyword_of(raw)[11] == 'a' && keyword_of(raw)[12] == 'l');
        assert(seq!['i', 'n', 'p', 'u', 't'].len() == 5);
        assert(keyword_of(raw) != seq!['i', 'n', 'p', 'u', 't']);
        assert(seq!['i', 'n'].len() == 2);
        assert(keyword_of(raw) != seq!['i', 'n']);
        assert(seq!['b', 'o', 't', 'h'].len() == 4);
        assert(keyword_of(raw) != seq!['b', 'o', 't', 'h']);
        assert(seq!['i', 'n', 'o', 'u', 't'].len() == 5);
        assert(keyword_of(raw) != seq!['i', 'n', 'o', 'u', 't']);
    }
    if keyword_of(raw) == seq!['b', 'o', 't', 'h'] {
        assert(keyword_of(raw)[0] == 'b' && keyword_of(raw)[1] == 'o' && keyword_of(raw)[2] == 't' && keyword_of(raw)[3] == 'h');
        assert(seq!['i', 'n', 'p', 'u', 't'].len() == 5);
        assert(keyword_of(raw) != seq!['i', 'n', 'p', 'u', 't']);
        assert(seq!['i', 'n'].len() == 2);
        assert(keyword_of(raw) != seq!['i', 'n']);
        assert(seq!['b', 'i', 'd', 'i', 'r', 'e', 'c', 't', 'i', 'o', 'n', 'a', 'l'].len() == 13);
        assert(keyword_of(raw) != seq!['b', 'i', 'd', 'i', 'r', 'e', 'c', 't', 'i', 'o', 'n', 'a', 'l']);
        assert(seq!['i', 'n', 'o', 'u', 't'].len() == 5);
        assert(keyword_of(raw) != seq!['i', 'n', 'o', 'u', 't']);
    }
    if keyword_of(raw) == seq!['i', 'n', 'o', 'u', 't'] {
        assert(keyword_of(raw)[0] == 'i' && keyword_of(raw)[1] == 'n' && keyword_of(raw)[2] == 'o' && keyword_of(raw)[3] == 'u' && keyword_of(raw)[4] == 't');
        assert(seq!['i', 'n', 'p', 'u', 't'][2] == 'p');
        assert(keyword_of(raw) != seq!['i', 'n', 'p', 'u', 't']);
        assert(seq!['i', 'n'].len() == 2);
        assert(keyword_of(raw) != seq!['i', 'n']);
        assert(seq!['b', 'i', 'd', 'i', 'r', 'e', 'c', 't', 'i', 'o', 'n', 'a', 'l'].len() == 13);
        assert(keyword_of(raw) != seq!['b', 'i', 'd', 'i', 'r', 'e', 'c', 't', 'i', 'o', 'n', 'a', 'l']);
        assert(seq!['b', 'o', 't', 'h'].len() == 4);
        assert(keyword_of(raw) != seq!['b', 'o', 't', 'h']);
    }
}

/// A graph port's side keyword: `top`, `right`, `bottom`, `left`; without one an input sits left and any other port right.
pub proof fn graph_port_side_keywords(raw: Seq<char>, kind: GraphPortKind)
    ensures
        keyword_of(raw) == seq!['t', 'o', 'p'] ==> graph_port_side_of(raw, kind) == GraphPortSide::Top,
        keyword_of(raw) == seq!['r', 'i', 'g', 'h', 't'] ==> graph_port_side_of(raw, kind) == GraphPortSide::Right,
        keyword_of(raw) == seq!['b', 'o', 't', 't', 'o', 'm'] ==> graph_port_side_of(raw, kind) == GraphPortSide::Bottom,
        keyword_of(raw) == seq!['l', 'e', 'f', 't'] ==> graph_port_side_of(raw, kind) == GraphPortSide::Left,
        keyword_of(raw) != seq!['t', 'o', 'p'] && keyword_of(raw) != seq!['r', 'i', 'g', 'h', 't'] && keyword_of(raw) != seq!['b', 'o', 't', 't', 'o', 'm'] && keyword_of(raw) != seq!['l', 'e', 'f', 't'] ==> graph_port_side_of(raw, kind) == (if kind == GraphPortKind::Input { GraphPortSide::Left } else { GraphPortSide::Right }),
{
    assert(seq!['t', 'o', 'p'][0] == 't' && seq!['t', 'o', 'p'][1] == 'o' && seq!['t', 'o', 'p'][2] == 'p');
    assert(seq!['r', 'i', 'g', 'h', 't'][0] == 'r' && seq!['r', 'i', 'g', 'h', 't'][1] == 'i' && seq!['r', 'i', 'g', 'h', 't'][2] == 'g' && seq!['r', 'i', 'g', 'h', 't'][3] == 'h' && seq!['r', 'i', 'g', 'h', 't'][4] == 't');
    assert(seq!['b', 'o', 't', 't', 'o', 'm'][0] == 'b' && seq!['b', 'o', 't', 't', 'o', 'm'][1] == 'o' && seq!['b', 'o', 't', 't', 'o', 'm'][2] == 't' && seq!['b', 'o', 't', 't', 'o', 'm'][3] == 't' && seq!['b', 'o', 't', 't', 'o', 'm'][4] == 'o' && seq!['b', 'o', 't', 't', 'o', 'm'][5] == 'm');
    assert(seq!['l', 'e', 'f', 't'][0] == 'l' && seq!['l', 'e', 'f', 't'][1] == 'e' && seq!['l', 'e', 'f', 't'][2] == 'f' && seq!['l', 'e', 'f', 't'][3] == 't');
    if keyword_of(raw) == seq!['t', 'o', 'p'] {
        assert(keyword_of(raw)[0] == 't' && keyword_of(raw)[1] == 'o' && keyword_of(raw)[2] == 'p');
        assert(seq!['r', 'i', 'g', 'h', 't'].len() == 5);
        assert(keyword_of(raw) != seq!['r', 'i', 'g', 'h', 't']);
        assert(seq!['b', 'o', 't', 't', 'o', 'm'].len() == 6);
        assert(keyword_of(raw) != seq!['b', 'o', 't', 't', 'o', 'm']);
        assert(seq!['l', 'e', 'f', 't'].len() == 4);
        assert(keyword_of(raw) != seq!['l', 'e', 'f', 't']);
    }
    if keyword_of(raw) == seq!['r', 'i', 'g', 'h', 't'] {
        assert(keyword_of(raw)[0] == 'r' && keyword_of(raw)[1] == 'i' && keyword_of(raw)[2] == 'g' && keyword_of(raw)[3] == 'h' && keyword_of(raw)[4] == 't');
        assert(seq!['t', 'o', 'p'].len() == 3);
        assert(keyword_of(raw) != seq!['t', 'o', 'p']);
        assert(seq!['b', 'o', 't', 't', 'o', 'm'].len() == 6);
        assert(keyword_of(raw) != seq!['b', 'o', 't', 't', 'o', 'm']);
        assert(seq!['l', 'e', 'f', 't'].len() == 4);
        assert(keyword_of(raw) != seq!['l', 'e', 'f', 't']);
    }
    if keyword_of(raw) == seq!['b', 'o', 't', 't', 'o', 'm'] {
        assert(keyword_of(raw)[0] == 'b' && keyword_of(raw)[1] == 'o' && keyword_of(raw)[2] == 't' && keyword_of(raw)[3] == 't' && keyword_of(raw)[4] == 'o' && keyword_of(raw)[5] == 'm');
        assert(seq!['t', 'o', 'p'].len() == 3);
        assert(keyword_of(raw) != seq!['t', 'o', 'p']);
        assert(seq!['r', 'i', 'g', 'h', 't'].len() == 5);
        assert(keyword_of(raw) != seq!['r', 'i', 'g', 'h', 't']);
        assert(seq!['l', 'e', 'f', 't'].len() == 4);
        assert(keyword_of(raw) != seq!['l', 'e', 'f', 't']);
    }
    if keyword_of(raw) == seq!['l', 'e', 'f', 't'] {
        assert(keyword_of(raw)[0] == 'l' && keyword_of(raw)[1] == 'e' && keyword_of(raw)[2] == 'f' && keyword_of(raw)[3] == 't');
        assert(seq!['t', 'o', 'p'].len() == 3);
        assert(keyword_of(raw) != seq!['t', 'o', 'p']);
        assert(seq!['r', 'i', 'g', 'h', 't'].len() == 5);
        assert(keyword_of(raw) != seq!['r', 'i', 'g', 'h', 't']);
        assert(seq!['b', 'o', 't', 't', 'o', 'm'].len() == 6);
        assert(keyword_of(raw) != seq!['b', 'o', 't', 't', 'o', 'm']);
    }
}

/// A split pane's axis keyword, also when quoted: `vertical`/`column`/`y` is vertical, anything else horizontal.
pub proof fn split_axis_keywords(raw: Seq<char>)
    ensures
        lower_seq(trim_char_seq(trim_seq(raw), '"')) == seq!['v', 'e', 'r', 't', 'i', 'c', 'a', 'l'] ==> split_axis_of(Some(raw)) == SplitAxis::Vertical,
        lower_seq(trim_char_seq(trim_seq(raw), '"')) == seq!['c', 'o', 'l', 'u', 'm', 'n'] ==> split_axis_of(Some(raw)) == SplitAxis::Vertical,
        lower_seq(trim_char_seq(trim_seq(raw), '"')) == seq!['y'] ==> split_axis_of(Some(raw)) == SplitAxis::Vertical,
        lower_seq(trim_char_seq(trim_seq(raw), '"')) != seq!['v', 'e', 'r', 't', 'i', 'c', 'a', 'l'] && lower_seq(trim_char_seq(trim_seq(raw), '"')) != seq!['c', 'o', 'l', 'u', 'm', 'n'] && lower_seq(trim_char_seq(trim_seq(raw), '"')) != seq!['y'] ==> split_axis_of(Some(raw)) == SplitAxis::Horizontal,
{
    assert(seq!['v', 'e', 'r', 't', 'i', 'c', 'a', 'l'][0] == 'v' && seq!['v', 'e', 'r', 't', 'i', 'c', 'a', 'l'][1] == 'e' && seq!['v', 'e', 'r', 't', 'i', 'c', 'a', 'l'][2] == 'r' && seq!['v', 'e', 'r', 't', 'i', 'c', 'a', 'l'][3] == 't' && seq!['v', 'e', 'r', 't', 'i', 'c', 'a', 'l'][4] == 'i' && seq!['v', 'e', 'r', 't', 'i', 'c', 'a', 'l'][5] == 'c' && seq!['v', 'e', 'r', 't', 'i', 'c', 'a', 'l'][6] == 'a' && seq!['v', 'e', 'r', 't', 'i', 'c', 'a', 'l'][7] == 'l');
    assert(seq!['c', 'o', 'l', 'u', 'm', 'n'][0] == 'c' && seq!['c', 'o', 'l', 'u', 'm', 'n'][1] == 'o' && seq!['c', 'o', 'l', 'u', 'm', 'n'][2] == 'l' && seq!['c', 'o', 'l', 'u', 'm', 'n'][3] == 'u' && seq!['c', 'o', 'l', 'u', 'm', 'n'][4] == 'm' && seq!['c', 'o', 'l', 'u', 'm', 'n'][5] == 'n');
    assert(seq!['y'][0] == 'y');
    if lower_seq(trim_char_seq(trim_seq(raw), '"')) == seq!['v', 'e', 'r', 't', 'i', 'c', 'a', 'l'] {
        assert(lower_seq(trim_char_seq(trim_seq(raw), '"'))[0] == 'v' && lower_seq(trim_char_seq(trim_seq(raw), '"'))[1] == 'e' && lower_seq(trim_char_seq(trim_seq(raw), '"'))[2] == 'r' && lower_seq(trim_char_seq(trim_seq(raw), '"'))[3] == 't' && lower_seq(trim_char_seq(trim_seq(raw), '"'))[4] == 'i' && lower_seq(trim_char_seq(trim_seq(raw), '"'))[5] == 'c' && lower_seq(trim_char_seq(trim_seq(raw), '"'))[6] == 'a' && lower_seq(trim_char_seq(trim_seq(raw), '"'))[7] == 'l');
        assert(seq!['c', 'o', 'l', 'u', 'm', 'n'].len() == 6);
        assert(lower_seq(trim_char_seq(trim_seq(raw), '"')) != seq!['c', 'o', 'l', 'u', 'm', 'n']);
        assert(seq!['y'].len() == 1);
        assert(lower_seq(trim_char_seq(trim_seq(raw), '"')) != seq!['y']);
    }
    if lower_seq(trim_char_seq(trim_seq(raw), '"')) == seq!['c', 'o', 'l', 'u', 'm', 'n'] {
        assert(lower_seq(trim_char_seq(trim_seq(raw), '"'))[0] == 'c' && lower_seq(trim_char_seq(trim_seq(raw), '"'))[1] == 'o' && lower_seq(trim_char_seq(trim_seq(raw), '"'))[2] == 'l' && lower_seq(trim_char_seq(trim_seq(raw), '"'))[3] == 'u' && lower_seq(trim_char_seq(trim_seq(raw), '"'))[4] == 'm' && lower_seq(trim_char_seq(trim_seq(raw), '"'))[5] == 'n');
        assert(seq!['v', 'e', 'r', 't', 'i', 'c', 'a', 'l'].len() == 8);
        assert(lower_seq(trim_char_seq(trim_seq(raw), '"')) != seq!['v', 'e', 'r', 't', 'i', 'c', 'a', 'l']);
        assert(seq!['y'].len() == 1);
        assert(lower_seq(trim_char_seq(trim_seq(raw), '"')) != seq!['y']);
    }
    if lower_seq(trim_char_seq(trim_seq(raw), '"')) == seq!['y'] {
        assert(lower_seq(trim_char_seq(trim_seq(raw), '"'))[0] == 'y');
        assert(seq!['v', 'e', 'r', 't', 'i', 'c', 'a', 'l'].len() == 8);
        assert(lower_seq(trim_char_seq(trim_seq(raw), '"')) != seq!['v', 'e', 'r', 't', 'i', 'c', 'a', 'l']);
        assert(seq!['c', 'o', 'l', 'u', 'm', 'n'].len() == 6);
        assert(lower_seq(trim_char_seq(trim_seq(raw), '"')) != seq!['c', 'o', 'l', 'u', 'm', 'n']);
    }
}

/// The builtin region tokens (case-sensitive) and the regions they name; any other token names no builtin region.
pub proof fn builtin_region_tokens(raw: Seq<char>)
    ensures
        raw == seq!['g', 'l', 'o', 'b', 'a', 'l', '-', 'n', 'a', 'v', 'i', 'g', 'a', 't', 'i', 'o', 'n'] ==> builtin_region(raw) == Some(RegionId::GlobalNavigation),
        raw == seq!['g', 'l', 'o', 'b', 'a', 'l', 'n', 'a', 'v', 'i', 'g', 'a', 't', 'i', 'o', 'n'] ==> builtin_region(raw) == Some(RegionId::GlobalNavigation),
        raw == seq!['g', 'l', 'o', 'b', 'a', 'l'] ==> builtin_region(raw) == Some(RegionId::GlobalNavigation),
        raw == seq!['s', 'e', 'c', 't', 'i', 'o', 'n', '-', 'n', 'a', 'v', 'i', 'g', 'a', 't', 'i', 'o', 'n'] ==> builtin_region(raw) == Some(RegionId::SectionNavigation),
        raw == seq!['s', 'e', 'c', 't', 'i', 'o', 'n', 'n', 'a', 'v', 'i', 'g', 'a', 't', 'i', 'o', 'n'] ==> builtin_region(raw) == Some(RegionId::SectionNavigation),
        raw == seq!['r', 'e', 's', 'o', 'u', 'r', 'c', 'e', 's'] ==> builtin_region(raw) == Some(RegionId::Resources),
        raw == seq!['s', 'i', 'd', 'e', 'b', 'a', 'r'] ==> builtin_region(raw) == Some(RegionId::Resources),
        raw == seq!['f', 'i', 'l', 'e', 's'] ==> builtin_region(raw) == Some(RegionId::Resources),
        raw == seq!['p', 'r', 'i', 'm', 'a', 'r', 'y', '-', 't', 'o', 'o', 'l', 'b', 'a', 'r'] ==> builtin_region(raw) == Some(RegionId::PrimaryToolbar),
        raw == seq!['p', 'r', 'i', 'm', 'a', 'r', 'y', 't', 'o', 'o', 'l', 'b', 'a', 'r'] ==> builtin_region(raw) == Some(RegionId::PrimaryToolbar),
        raw == seq!['t', 'o', 'o', 'l', 'b', 'a', 'r'] ==> builtin_region(raw) == Some(RegionId::PrimaryToolbar),
        raw == seq!['p', 'r', 'i', 'm', 'a', 'r', 'y'] ==> builtin_region(raw) == Some(RegionId::Primary),
        raw == seq!['m', 'a', 'i', 'n'] ==> builtin_region(raw) == Some(RegionId::Primary),
        raw == seq!['i', 'n', 's', 'p', 'e', 'c', 't', 'o', 'r'] ==> builtin_region(raw) == Some(RegionId::Inspector),
        raw == seq!['d', 'i', 'a', 'g', 'n', 'o', 's', 't', 'i', 'c', 's'] ==> builtin_region(raw) == Some(RegionId::Diagnostics),
        raw == seq!['c', 'o', 'n', 's', 'o', 'l', 'e'] ==> builtin_region(raw) == Some(RegionId::Diagnostics),
        raw != seq!['g', 'l', 'o', 'b', 'a', 'l', '-', 'n', 'a', 'v', 'i', 'g', 'a', 't', 'i', 'o', 'n'] && raw != seq!['g', 'l', 'o', 'b', 'a', 'l', 'n', 'a', 'v', 'i', 'g', 'a', 't', 'i', 'o', 'n'] && raw != seq!['g', 'l', 'o', 'b', 'a', 'l'] && raw != seq!['s', 'e', 'c', 't', 'i', 'o', 'n', '-', 'n', 'a', 'v', 'i', 'g', 'a', 't', 'i', 'o', 'n'] && raw != seq!['s', 'e', 'c', 't', 'i', 'o', 'n', 'n', 'a', 'v', 'i', 'g', 'a', 't', 'i', 'o', 'n'] && raw != seq!['r', 'e', 's', 'o', 'u', 'r', 'c', 'e', 's'] && raw != seq!['s', 'i', 'd', 'e', 'b', 'a', 'r'] && raw != seq!['f', 'i', 'l', 'e', 's'] && raw != seq!['p', 'r', 'i', 'm', 'a', 'r', 'y', '-', 't', 'o', 'o', 'l', 'b', 'a', 'r'] && raw != seq!['p', 'r', 'i', 'm', 'a', 'r', 'y', 't', 'o', 'o', 'l', 'b', 'a', 'r'] && raw != seq!['t', 'o', 'o', 'l', 'b', 'a', 'r'] && raw != seq!['p', 'r', 'i', 'm', 'a', 'r', 'y'] && raw != seq!['m', 'a', 'i', 'n'] && raw != seq!['i', 'n', 's', 'p', 'e', 'c', 't', 'o', 'r'] && raw != seq!['d', 'i', 'a', 'g', 'n', 'o', 's', 't', 'i', 'c', 's'] && raw != seq!['c', 'o', 'n', 's', 'o', 'l', 'e'] ==> builtin_region(raw) == None::<RegionId>,
{
    assert(seq!['g', 'l', 'o', 'b', 'a', 'l', '-', 'n', 'a', 'v', 'i', 'g', 'a', 't', 'i', 'o', 'n'][0] == 'g' && seq!['g', 'l', 'o', 'b', 'a', 'l', '-', 'n', 'a', 'v', 'i', 'g', 'a', 't', 'i', 'o', 'n'][1] == 'l' && seq!['g', 'l', 'o', 'b', 'a', 'l', '-', 'n', 'a', 'v', 'i', 'g', 'a', 't', 'i', 'o', 'n'][2] == 'o' && seq!['g', 'l', 'o', 'b', 'a', 'l', '-', 'n', 'a', 'v', 'i', 'g', 'a', 't', 'i', 'o', 'n'][3] == 'b' && seq!['g', 'l', 'o', 'b', 'a', 'l', '-', 'n', 'a', 'v', 'i', 'g', 'a', 't', 'i', 'o', 'n'][4] == 'a' && seq!['g', 'l', 'o', 'b', 'a', 'l', '-', 'n', 'a', 'v', 'i', 'g', 'a', 't', 'i', 'o', 'n'][5] == 'l' && seq!['g', 'l', 'o', 'b', 'a', 'l', '-', 'n', 'a', 'v', 'i', 'g', 'a', 't', 'i', 'o', 'n'][6] == '-' && seq!['g', 'l', 'o', 'b', 'a', 'l', '-', 'n', 'a', 'v', 'i', 'g', 'a', 't', 'i', 'o', 'n'][7] == 'n' && seq!['g', 'l', 'o', 'b', 'a', 'l', '-', 'n', 'a', 'v', 'i', 'g', 'a', 't', 'i', 'o', 'n'][8] == 'a' && seq!['g', 'l', 'o', 'b', 'a', 'l', '-', 'n', 'a', 'v', 'i', 'g', 'a', 't', 'i', 'o', 'n'][9] == 'v' && seq!['g', 'l', 'o', 'b', 'a', 'l', '-', 'n', 'a', 'v', 'i', 'g', 'a', 't', 'i', 'o', 'n'][10] == 'i' && seq!['g', 'l', 'o', 'b', 'a', 'l', '-', 'n', 'a', 'v', 'i', 'g', 'a', 't', 'i', 'o', 'n'][11] == 'g' && seq!['g', 'l', 'o', 'b', 'a', 'l', '-', 'n', 'a', 'v', 'i', 'g', 'a', 't', 'i', 'o', 'n'][12] == 'a' && seq!['g', 'l', 'o', 'b', 'a', 'l', '-', 'n', 'a', 'v', 'i', 'g', 'a', 't', 'i', 'o', 'n'][13] == 't' && seq!['g', 'l', 'o', 'b', 'a', 'l', '-', 'n', 'a', 'v', 'i', 'g', 'a', 't', 'i', 'o', 'n'][14] == 'i' && seq!['g', 'l', 'o', 'b', 'a', 'l', '-', 'n', 'a', 'v', 'i', 'g', 'a', 't', 'i', 'o', 'n'][15] == 'o' && seq!['g', 'l', 'o', 'b', 'a', 'l', '-', 'n', 'a', 'v', 'i', 'g', 'a', 't', 'i', 'o', 'n'][16] == 'n');
    assert(seq!['g', 'l', 'o', 'b', 'a', 'l', 'n', 'a', 'v', 'i', 'g', 'a', 't', 'i', 'o', 'n'][0] == 'g' && seq!['g', 'l', 'o', 'b', 'a', 'l', 'n', 'a', 'v', 'i', 'g', 'a', 't', 'i', 'o', 'n'][1] == 'l' && seq!['g', 'l', 'o', 'b', 'a', 'l', 'n', 'a', 'v', 'i', 'g', 'a', 't', 'i', 'o', 'n'][2] == 'o' && seq!['g', 'l', 'o', 'b', 'a', 'l', 'n', 'a', 'v', 'i', 'g', 'a', 't', 'i', 'o', 'n'][3] == 'b' && seq!['g', 'l', 'o', 'b', 'a', 'l', 'n', 'a', 'v', 'i', 'g', 'a', 't', 'i', 'o', 'n'][4] == 'a' && seq!['g', 'l', 'o', 'b', 'a', 'l', 'n', 'a', 'v', 'i', 'g', 'a', 't', 'i', 'o', 'n'][5] == 'l' && seq!['g', 'l', 'o', 'b', 'a', 'l', 'n', 'a', 'v', 'i', 'g', 'a', 't', 'i', 'o', 'n'][6] == 'n' && seq!['g', 'l', 'o', 'b', 'a', 'l', 'n', 'a', 'v', 'i', 'g', 'a', 't', 'i', 'o', 'n'][7] == 'a' && seq!['g', 'l', 'o', 'b', 'a', 'l', 'n', 'a', 'v', 'i', 'g', 'a', 't', 'i', 'o', 'n'][8] == 'v' && seq!['g', 'l', 'o', 'b', 'a', 'l', 'n', 'a', 'v', 'i', 'g', 'a', 't', 'i', 'o', 'n'][9] == 'i' && seq!['g', 'l', 'o', 'b', 'a', 'l', 'n', 'a', 'v', 'i', 'g', 'a', 't', 'i', 'o', 'n'][10] == 'g' && seq!['g', 'l', 'o', 'b', 'a', 'l', 'n', 'a', 'v', 'i', 'g', 'a', 't', 'i', 'o', 'n'][11] == 'a' && seq!['g', 'l', 'o', 'b', 'a', 'l', 'n', 'a', 'v', 'i', 'g', 'a', 't', 'i', 'o', 'n'][12] == 't' && seq!['g', 'l', 'o', 'b', 'a', 'l', 'n', 'a', 'v', 'i', 'g', 'a', 't', 'i', 'o', 'n'][13] == 'i' && seq!['g', 'l', 'o', 'b', 'a', 'l', 'n', 'a', 'v', 'i', 'g', 'a', 't', 'i', 'o', 'n'][14] == 'o' && seq!['g', 'l', 'o', 'b', 'a', 'l', 'n', 'a', 'v', 'i', 'g', 'a', 't', 'i', 'o', 'n'][15] == 'n');
    assert(seq!['g', 'l', 'o', 'b', 'a', 'l'][0] == 'g' && seq!['g', 'l', 'o', 'b', 'a', 'l'][1] == 'l' && seq!['g', 'l', 'o', 'b', 'a', 'l'][2] == 'o' && seq!['g', 'l', 'o', 'b', 'a', 'l'][3] == 'b' && seq!['g', 'l', 'o', 'b', 'a', 'l'][4] == 'a' && seq!['g', 'l', 'o', 'b', 'a', 'l'][5] == 'l');
    assert(seq!['s', 'e', 'c', 't', 'i', 'o', 'n', '-', 'n', 'a', 'v', 'i', 'g', 'a', 't', 'i', 'o', 'n'][0] == 's' && seq!['s', 'e', 'c', 't', 'i', 'o', 'n', '-', 'n', 'a', 'v', 'i', 'g', 'a', 't', 'i', 'o', 'n'][1] == 'e' && seq!['s', 'e', 'c', 't', 'i', 'o', 'n', '-', 'n', 'a', 'v', 'i', 'g', 'a', 't', 'i', 'o', 'n'][2] == 'c' && seq!['s', 'e', 'c', 't', 'i', 'o', 'n', '-', 'n', 'a', 'v', 'i', 'g', 'a', 't', 'i', 'o', 'n'][3] == 't' && seq!['s', 'e', 'c', 't', 'i', 'o', 'n', '-', 'n', 'a', 'v', 'i', 'g', 'a', 't', 'i', 'o', 'n'][4] == 'i' && seq!['s', 'e', 'c', 't', 'i', 'o', 'n', '-', 'n', 'a', 'v', 'i', 'g', 'a', 't', 'i', 'o', 'n'][5] == 'o' && seq!['s', 'e', 'c', 't', 'i', 'o', 'n', '-', 'n', 'a', 'v', 'i', 'g', 'a', 't', 'i', 'o', 'n'][6] == 'n' && seq!['s', 'e', 'c', 't', 'i', 'o', 'n', '-', 'n', 'a', 'v', 'i', 'g', 'a', 't', 'i', 'o', 'n'][7] == '-' && seq!['s', 'e', 'c', 't', 'i', 'o', 'n', '-', 'n', 'a', 'v', 'i', 'g', 'a', 't', 'i', 'o', 'n'][8] == 'n' && seq!['s', 'e', 'c', 't', 'i', 'o', 'n', '-', 'n', 'a', 'v', 'i', 'g', 'a', 't', 'i', 'o', 'n'][9] == 'a' && seq!['s', 'e', 'c', 't', 'i', 'o', 'n', '-', 'n', 'a', 'v', 'i', 'g', 'a', 't', 'i', 'o', 'n'][10] == 'v' && seq!['s', 'e', 'c', 't', 'i', 'o', 'n', '-', 'n', 'a', 'v', 'i', 'g', 'a', 't', 'i', 'o', 'n'][11] == 'i' && seq!['s', 'e', 'c', 't', 'i', 'o', 'n', '-', 'n', 'a', 'v', 'i', 'g', 'a', 't', 'i', 'o', 'n'][12] == 'g' && seq!['s', 'e', 'c', 't', 'i', 'o', 'n', '-', 'n', 'a', 'v', 'i', 'g', 'a', 't', 'i', 'o', 'n'][13] == 'a' && seq!['s', 'e', 'c', 't', 'i', 'o', 'n', '-', 'n', 'a', 'v', 'i', 'g', 'a', 't', 'i', 'o', 'n'][14] == 't' && seq!['s', 'e', 'c', 't', 'i', 'o', 'n', '-', 'n', 'a', 'v', 'i', 'g', 'a', 't', 'i', 'o', 'n'][15] == 'i' && seq!['s', 'e', 'c', 't', 'i', 'o', 'n', '-', 'n', 'a', 'v', 'i', 'g', 'a', 't', 'i', 'o', 'n'][16] == 'o' && seq!['s', 'e', 'c', 't', 'i', 'o', 'n', '-', 'n', 'a', 'v', 'i', 'g', 'a', 't', 'i', 'o', 'n'][17] == 'n');
    assert(seq!['s', 'e', 'c', 't', 'i', 'o', 'n', 'n', 'a', 'v', 'i', 'g', 'a', 't', 'i', 'o', 'n'][0] == 's' && seq!['s', 'e', 'c', 't', 'i', 'o', 'n', 'n', 'a', 'v', 'i', 'g', 'a', 't', 'i', 'o', 'n'][1] == 'e' && seq!['s', 'e', 'c', 't', 'i', 'o', 'n', 'n', 'a', 'v', 'i', 'g', 'a', 't', 'i', 'o', 'n'][2] == 'c' && seq!['s', 'e', 'c', 't', 'i', 'o', 'n', 'n', 'a', 'v', 'i', 'g', 'a', 't', 'i', 'o', 'n'][3] == 't' && seq!['s', 'e', 'c', 't', 'i', 'o', 'n', 'n', 'a', 'v', 'i', 'g', 'a', 't', 'i', 'o', 'n'][4] == 'i' && seq!['s', 'e', 'c', 't', 'i', 'o', 'n', 'n', 'a', 'v', 'i', 'g', 'a', 't', 'i', 'o', 'n'][5] == 'o' && seq!['s', 'e', 'c', 't', 'i', 'o', 'n', 'n', 'a', 'v', 'i', 'g', 'a', 't', 'i', 'o', 'n'][6] == 'n' && seq!['s', 'e', 'c', 't', 'i', 'o', 'n', 'n', 'a', 'v', 'i', 'g', 'a', 't', 'i', 'o', 'n'][7] == 'n' && seq!['s', 'e', 'c', 't', 'i', 'o', 'n', 'n', 'a', 'v', 'i', 'g', 'a', 't', 'i', 'o', 'n'][8] == 'a' && seq!['s', 'e', 'c', 't', 'i', 'o', 'n', 'n', 'a', 'v', 'i', 'g', 'a', 't', 'i', 'o', 'n'][9] == 'v' && seq!['s', 'e', 'c', 't', 'i', 'o', 'n', 'n', 'a', 'v', 'i', 'g', 'a', 't', 'i', 'o', 'n'][10] == 'i' && seq!['s', 'e', 'c', 't', 'i', 'o', 'n', 'n', 'a', 'v', 'i', 'g', 'a', 't', 'i', 'o', 'n'][11] == 'g' && seq!['s', 'e', 'c', 't', 'i', 'o', 'n', 'n', 'a', 'v', 'i', 'g', 'a', 't', 'i', 'o', 'n'][12] == 'a' && seq!['s', 'e', 'c', 't', 'i', 'o', 'n', 'n', 'a', 'v', 'i', 'g', 'a', 't', 'i', 'o', 'n'][13] == 't' && seq!['s', 'e', 'c', 't', 'i', 'o', 'n', 'n', 'a', 'v', 'i', 'g', 'a', 't', 'i', 'o', 'n'][14] == 'i' && seq!['s', 'e', 'c', 't', 'i', 'o', 'n', 'n', 'a', 'v', 'i', 'g', 'a', 't', 'i', 'o', 'n'][15] == 'o' && seq!['s', 'e', 'c', 't', 'i', 'o', 'n', 'n', 'a', 'v', 'i', 'g', 'a', 't', 'i', 'o', 'n'][16] == 'n');
    assert(seq!['r', 'e', 's', 'o', 'u', 'r', 'c', 'e', 's'][0] == 'r' && seq!['r', 'e', 's', 'o', 'u', 'r', 'c', 'e', 's'][1] == 'e' && seq!['r', 'e', 's', 'o', 'u', 'r', 'c', 'e', 's'][2] == 's' && seq!['r', 'e', 's', 'o', 'u', 'r', 'c', 'e', 's'][3] == 'o' && seq!['r', 'e', 's', 'o', 'u', 'r', 'c', 'e', 's'][4] == 'u' && seq!['r', 'e', 's', 'o', 'u', 'r', 'c', 'e', 's'][5] == 'r' && seq!['r', 'e', 's', 'o', 'u', 'r', 'c', 'e', 's'][6] == 'c' && seq!['r', 'e', 's', 'o', 'u', 'r', 'c', 'e', 's'][7] == 'e' && seq!['r', 'e', 's', 'o', 'u', 'r', 'c', 'e', 's'][8] == 's');
    assert(seq!['s', 'i', 'd', 'e', 'b', 'a', 'r'][0] == 's' && seq!['s', 'i', 'd', 'e', 'b', 'a', 'r'][1] == 'i' && seq!['s', 'i', 'd', 'e', 'b', 'a', 'r'][2] == 'd' && seq!['s', 'i', 'd', 'e', 'b', 'a', 'r'][3] == 'e' && seq!['s', 'i', 'd', 'e', 'b', 'a', 'r'][4] == 'b' && seq!['s', 'i', 'd', 'e', 'b', 'a', 'r'][5] == 'a' && seq!['s', 'i', 'd', 'e', 'b', 'a', 'r'][6] == 'r');
    assert(seq!['f', 'i', 'l', 'e', 's'][0] == 'f' && seq!['f', 'i', 'l', 'e', 's'][1] == 'i' && seq!['f', 'i', 'l', 'e', 's'][2] == 'l' && seq!['f', 'i', 'l', 'e', 's'][3] == 'e' && seq!['f', 'i', 'l', 'e', 's'][4] == 's');
    assert(seq!['p', 'r', 'i', 'm', 'a', 'r', 'y', '-', 't', 'o', 'o', 'l', 'b', 'a', 'r'][0] == 'p' && seq!['p', 'r', 'i', 'm', 'a', 'r', 'y', '-', 't', 'o', 'o', 'l', 'b', 'a', 'r'][1] == 'r' && seq!['p', 'r', 'i', 'm', 'a', 'r', 'y', '-', 't', 'o', 'o', 'l', 'b', 'a', 'r'][2] == 'i' && seq!['p', 'r', 'i', 'm', 'a', 'r', 'y', '-', 't', 'o', 'o', 'l', 'b', 'a', 'r'][3] == 'm' && seq!['p', 'r', 'i', 'm', 'a', 'r', 'y', '-', 't', 'o', 'o', 'l', 'b', 'a', 'r'][4] == 'a' && seq!['p', 'r', 'i', 'm', 'a', 'r', 'y', '-', 't', 'o', 'o', 'l', 'b', 'a', 'r'][5] == 'r' && seq!['p', 'r', 'i', 'm', 'a', 'r', 'y', '-', 't', 'o', 'o', 'l', 'b', 'a', 'r'][6] == 'y' && seq!['p', 'r', 'i', 'm', 'a', 'r', 'y', '-', 't', 'o', 'o', 'l', 'b', 'a', 'r'][7] == '-' && seq!['p', 'r', 'i', 'm', 'a', 'r', 'y', '-', 't', 'o', 'o', 'l', 'b', 'a', 'r'][8] == 't' && seq!['p', 'r', 'i', 'm', 'a', 'r', 'y', '-', 't', 'o', 'o', 'l', 'b', 'a', 'r'][9] == 'o' && seq!['p', 'r', 'i', 'm', 'a', 'r', 'y', '-', 't', 'o', 'o', 'l', 'b', 'a', 'r'][10] == 'o' && seq!['p', 'r', 'i', 'm', 'a', 'r', 'y', '-', 't', 'o', 'o', 'l', 'b', 'a', 'r'][11] == 'l' && seq!['p', 'r', 'i', 'm', 'a', 'r', 'y', '-', 't', 'o', 'o', 'l', 'b', 'a', 'r'][12] == 'b' && seq!['p', 'r', 'i', 'm', 'a', 'r', 'y', '-', 't', 'o', 'o', 'l', 'b', 'a', 'r'][13] == 'a' && seq!['p', 'r', 'i', 'm', 'a', 'r', 'y', '-', 't', 'o', 'o', 'l', 'b', 'a', 'r'][14] == 'r');
    assert(seq!['p', 'r', 'i', 'm', 'a', 'r', 'y', 't', 'o', 'o', 'l', 'b', 'a', 'r'][0] == 'p' && seq!['p', 'r', 'i', 'm', 'a', 'r', 'y', 't', 'o', 'o', 'l', 'b', 'a', 'r'][1] == 'r' && seq!['p', 'r', 'i', 'm', 'a', 'r', 'y', 't', 'o', 'o', 'l', 'b', 'a', 'r'][2] == 'i' && seq!['p', 'r', 'i', 'm', 'a', 'r', 'y', 't', 'o', 'o', 'l', 'b', 'a', 'r'][3] == 'm' && seq!['p', 'r', 'i', 'm', 'a', 'r', 'y', 't', 'o', 'o', 'l', 'b', 'a', 'r'][4] == 'a' && seq!['p', 'r', 'i', 'm', 'a', 'r', 'y', 't', 'o', 'o', 'l', 'b', 'a', 'r'][5] == 'r' && seq!['p', 'r', 'i', 'm', 'a', 'r', 'y', 't', 'o', 'o', 'l', 'b', 'a', 'r'][6] == 'y' && seq!['p', 'r', 'i', 'm', 'a', 'r', 'y', 't', 'o', 'o', 'l', 'b', 'a', 'r'][7] == 't' && seq!['p', 'r', 'i', 'm', 'a', 'r', 'y', 't', 'o', 'o', 'l', 'b', 'a', 'r'][8] == 'o' && seq!['p', 'r', 'i', 'm', 'a', 'r', 'y', 't', 'o', 'o', 'l', 'b', 'a', 'r'][9] == 'o' && seq!['p', 'r', 'i', 'm', 'a', 'r', 'y', 't', 'o', 'o', 'l', 'b', 'a', 'r'][10] == 'l' && seq!['p', 'r', 'i', 'm', 'a', 'r', 'y', 't', 'o', 'o', 'l', 'b', 'a', 'r'][11] == 'b' && seq!['p', 'r', 'i', 'm', 'a', 'r', 'y', 't', 'o', 'o', 'l', 'b', 'a', 'r'][12] == 'a' && seq!['p', 'r', 'i', 'm', 'a', 'r', 'y', 't', 'o', 'o', 'l', 'b', 'a', 'r'][13] == 'r');
    assert(seq!['t', 'o', 'o', 'l', 'b', 'a', 'r'][0] == 't' && seq!['t', 'o', 'o', 'l', 'b', 'a', 'r'][1] == 'o' && seq!['t', 'o', 'o', 'l', 'b', 'a', 'r'][2] == 'o' && seq!['t', 'o', 'o', 'l', 'b', 'a', 'r'][3] == 'l' && seq!['t', 'o', 'o', 'l', 'b', 'a', 'r'][4] == 'b' && seq!['t', 'o', 'o', 'l', 'b', 'a', 'r'][5] == 'a' && seq!['t', 'o', 'o', 'l', 'b', 'a', 'r'][6] == 'r');
    assert(seq!['p', 'r', 'i', 'm', 'a', 'r', 'y'][0] == 'p' && seq!['p', 'r', 'i', 'm', 'a', 'r', 'y'][1] == 'r' && seq!['p', 'r', 'i', 'm', 'a', 'r', 'y'][2] == 'i' && seq!['p', 'r', 'i', 'm', 'a', 'r', 'y'][3] == 'm' && seq!['p', 'r', 'i', 'm', 'a', 'r', 'y'][4] == 'a' && seq!['p', 'r', 'i', 'm', 'a', 'r', 'y'][5] == 'r' && seq!['p', 'r', 'i', 'm', 'a', 'r', 'y'][6] == 'y');
    assert(seq!['m', 'a', 'i', 'n'][0] == 'm' && seq!['m', 'a', 'i', 'n'][1] == 'a' && seq!['m', 'a', 'i', 'n'][2] == 'i' && seq!['m', 'a', 'i', 'n'][3] == 'n');
    assert(seq!['i', 'n', 's', 'p', 'e', 'c', 't', 'o', 'r'][0] == 'i' && seq!['i', 'n', 's', 'p', 'e', 'c', 't', 'o', 'r'][1] == 'n' && seq!['i', 'n', 's', 'p', 'e', 'c', 't', 'o', 'r'][2] == 's' && seq!['i', 'n', 's', 'p', 'e', 'c', 't', 'o', 'r'][3] == 'p' && seq!['i', 'n', 's', 'p', 'e', 'c', 't', 'o', 'r'][4] == 'e' && seq!['i', 'n', 's', 'p', 'e', 'c', 't', 'o', 'r'][5] == 'c' && seq!['i', 'n', 's', 'p', 'e', 'c', 't', 'o', 'r'][6] == 't' && seq!['i', 'n', 's', 'p', 'e', 'c', 't', 'o', 'r'][7] == 'o' && seq!['i', 'n', 's', 'p', 'e', 'c', 't', 'o', 'r'][8] == 'r');
    assert(seq!['d', 'i', 'a', 'g', 'n', 'o', 's', 't', 'i', 'c', 's'][0] == 'd' && seq!['d', 'i', 'a', 'g', 'n', 'o', 's', 't', 'i', 'c', 's'][1] == 'i' && seq!['d', 'i', 'a', 'g', 'n', 'o', 's', 't', 'i', 'c', 's'][2] == 'a' && seq!['d', 'i', 'a', 'g', 'n', 'o', 's', 't', 'i', 'c', 's'][3] == 'g' && seq!['d', 'i', 'a', 'g', 'n', 'o', 's', 't', 'i', 'c', 's'][4] == 'n' && seq!['d', 'i', 'a', 'g', 'n', 'o', 's', 't', 'i', 'c', 's'][5] == 'o' && seq!['d', 'i', 'a', 'g', 'n', 'o', 's', 't', 'i', 'c', 's'][6] == 's' && seq!['d', 'i', 'a', 'g', 'n', 'o', 's', 't', 'i', 'c', 's'][7] == 't' && seq!['d', 'i', 'a', 'g', 'n', 'o', 's', 't', 'i', 'c', 's'][8] == 'i' && seq!['d', 'i', 'a', 'g', 'n', 'o', 's', 't', 'i', 'c', 's'][9] == 'c' && seq!['d', 'i', 'a', 'g', 'n', 'o', 's', 't', 'i', 'c', 's'][10] == 's');
    assert(seq!['c', 'o', 'n', 's', 'o', 'l', 'e'][0] == 'c' && seq!['c', 'o', 'n', 's', 'o', 'l', 'e'][1] == 'o' && seq!['c', 'o', 'n', 's', 'o', 'l', 'e'][2] == 'n' && seq!['c', 'o', 'n', 's', 'o', 'l', 'e'][3] == 's' && seq!['c', 'o', 'n', 's', 'o', 'l', 'e'][4] == 'o' && seq!['c', 'o', 'n', 's', 'o', 'l', 'e'][5] == 'l' && seq!['c', 'o', 'n', 's', 'o', 'l', 'e'][6] == 'e');
    if raw == seq!['g', 'l', 'o', 'b', 'a', 'l', '-', 'n', 'a', 'v', 'i', 'g', 'a', 't', 'i', 'o', 'n'] {
        assert(raw[0] == 'g' && raw[1] == 'l' && raw[2] == 'o' && raw[3] == 'b' && raw[4] == 'a' && raw[5] == 'l' && raw[6] == '-' && raw[7] == 'n' && raw[8] == 'a' && raw[9] == 'v' && raw[10] == 'i' && raw[11] == 'g' && raw[12] == 'a' && raw[13] == 't' && raw[14] == 'i' && raw[15] == 'o' && raw[16] == 'n');
        assert(seq!['g', 'l', 'o', 'b', 'a', 'l', 'n', 'a', 'v', 'i', 'g', 'a', 't', 'i', 'o', 'n'].len() == 16);
        assert(raw != seq!['g', 'l', 'o', 'b', 'a', 'l', 'n', 'a', 'v', 'i', 'g', 'a', 't', 'i', 'o', 'n']);
        assert(seq!['g', 'l', 'o', 'b', 'a', 'l'].len() == 6);
        assert(raw != seq!['g', 'l', 'o', 'b', 'a', 'l']);
        assert(seq!['s', 'e', 'c', 't', 'i', 'o', 'n', '-', 'n', 'a', 'v', 'i', 'g', 'a', 't', 'i', 'o', 'n'].len() == 18);
        assert(raw != seq!['s', 'e', 'c', 't', 'i', 'o', 'n', '-', 'n', 'a', 'v', 'i', 'g', 'a', 't', 'i', 'o', 'n']);
        assert(seq!['s', 'e', 'c', 't', 'i', 'o', 'n', 'n', 'a', 'v', 'i', 'g', 'a', 't', 'i', 'o', 'n'][0] == 's');
        assert(raw != seq!['s', 'e', 'c', 't', 'i', 'o', 'n', 'n', 'a', 'v', 'i', 'g', 'a', 't', 'i', 'o', 'n']);
        assert(seq!['r', 'e', 's', 'o', 'u', 'r', 'c', 'e', 's'].len() == 9);
        assert(raw != seq!['r', 'e', 's', 'o', 'u', 'r', 'c', 'e', 's']);
        assert(seq!['s', 'i', 'd', 'e', 'b', 'a', 'r'].len() == 7);
        assert(raw != seq!['s', 'i', 'd', 'e', 'b', 'a', 'r']);
        assert(seq!['f', 'i', 'l', 'e', 's'].len() == 5);
        assert(raw != seq!['f', 'i', 'l', 'e', 's']);
        assert(seq!['p', 'r', 'i', 'm', 'a', 'r', 'y', '-', 't', 'o', 'o', 'l', 'b', 'a', 'r'].len() == 15);
        assert(raw != seq!['p', 'r', 'i', 'm', 'a', 'r', 'y', '-', 't', 'o', 'o', 'l', 'b', 'a', 'r']);
        assert(seq!['p', 'r', 'i', 'm', 'a', 'r', 'y', 't', 'o', 'o', 'l', 'b', 'a', 'r'].len() == 14);
        assert(raw != seq!['p', 'r', 'i', 'm', 'a', 'r', 'y', 't', 'o', 'o', 'l', 'b', 'a', 'r']);
        assert(seq!['t', 'o', 'o', 'l', 'b', 'a', 'r'].len() == 7);
        assert(raw != seq!['t', 'o', 'o', 'l', 'b', 'a', 'r']);
        assert(seq!['p', 'r', 'i', 'm', 'a', 'r', 'y'].len() == 7);
        assert(raw != seq!['p', 'r', 'i', 'm', 'a', 'r', 'y']);
        assert(seq!['m', 'a', 'i', 'n'].len() == 4);
        assert(raw != seq!['m', 'a', 'i', 'n']);
        assert(seq!['i', 'n', 's', 'p', 'e', 'c', 't', 'o', 'r'].len() == 9);
        assert(raw != seq!['i', 'n', 's', 'p', 'e', 'c', 't', 'o', 'r']);
        assert(seq!['d', 'i', 'a', 'g', 'n', 'o', 's', 't', 'i', 'c', 's'].len() == 11);
        assert(raw != seq!['d', 'i', 'a', 'g', 'n', 'o', 's', 't', 'i', 'c', 's']);
        assert(seq!['c', 'o', 'n', 's', 'o', 'l', 'e'].len() == 7);
        assert(raw != seq!['c', 'o', 'n', 's', 'o', 'l', 'e']);
    }
    if raw == seq!['g', 'l', 'o', 'b', 'a', 'l', 'n', 'a', 'v', 'i', 'g', 'a', 't', 'i', 'o', 'n'] {
        assert(raw[0] == 'g' && raw[1] == 'l' && raw[2] == 'o' && raw[3] == 'b' && raw[4] == 'a' && raw[5] == 'l' && raw[6] == 'n' && raw[7] == 'a' && raw[8] == 'v' && raw[9] == 'i' && raw[10] == 'g' && raw[11] == 'a' && raw[12] == 't' && raw[13] == 'i' && raw[14] == 'o' && raw[15] == 'n');
        assert(seq!['g', 'l', 'o', 'b', 'a', 'l', '-', 'n', 'a', 'v', 'i', 'g', 'a', 't', 'i', 'o', 'n'].len() == 17);
        assert(raw != seq!['g', 'l', 'o', 'b', 'a', 'l', '-', 'n', 'a', 'v', 'i', 'g', 'a', 't', 'i', 'o', 'n']);
        assert(seq!['g', 'l', 'o', 'b', 'a', 'l'].len() == 6);
        assert(raw != seq!['g', 'l', 'o', 'b', 'a', 'l']);
        assert(seq!['s', 'e', 'c', 't', 'i', 'o', 'n', '-', 'n', 'a', 'v', 'i', 'g', 'a', 't', 'i', 'o', 'n'].len() == 18);
        assert(raw != seq!['s', 'e', 'c', 't', 'i', 'o', 'n', '-', 'n', 'a', 'v', 'i', 'g', 'a', 't', 'i', 'o', 'n']);
        assert(seq!['s', 'e', 'c', 't', 'i', 'o', 'n', 'n', 'a', 'v', 'i', 'g', 'a', 't', 'i', 'o', 'n'].len() == 17);
        assert(raw != seq!['s', 'e', 'c', 't', 'i', 'o', 'n', 'n', 'a', 'v', 'i', 'g', 'a', 't', 'i', 'o', 'n']);
        assert(seq!['r', 'e', 's', 'o', 'u', 'r', 'c', 'e', 's'].len() == 9);
        assert(raw != seq!['r', 'e', 's', 'o', 'u', 'r', 'c', 'e', 's']);
        assert(seq!['s', 'i', 'd', 'e', 'b', 'a', 'r'].len() == 7);
        assert(raw != seq!['s', 'i', 'd', 'e', 'b', 'a', 'r']);
        assert(seq!['f', 'i', 'l', 'e', 's'].len() == 5);
        assert(raw != seq!['f', 'i', 'l', 'e', 's']);
        assert(seq!['p', 'r', 'i', 'm', 'a', 'r', 'y', '-', 't', 'o', 'o', 'l', 'b', 'a', 'r'].len() == 15);
        assert(raw != seq!['p', 'r', 'i', 'm', 'a', 'r', 'y', '-', 't', 'o', 'o', 'l', 'b', 'a', 'r']);
        assert(seq!['p', 'r', 'i', 'm', 'a', 'r', 'y', 't', 'o', 'o', 'l', 'b', 'a', 'r'].len() == 14);
        assert(raw != seq!['p', 'r', 'i', 'm', 'a', 'r', 'y', 't', 'o', 'o', 'l', 'b', 'a', 'r']);
        assert(seq!['t', 'o', 'o', 'l', 'b', 'a', 'r'].len() == 7);
        assert(raw != seq!['t', 'o', 'o', 'l', 'b', 'a', 'r']);
        assert(seq!['p', 'r', 'i', 'm', 'a', 'r', 'y'].len() == 7);
        assert(raw != seq!['p', 'r', 'i', 'm', 'a', 'r', 'y']);
        assert(seq!['m', 'a', 'i', 'n'].len() == 4);
        assert(raw != seq!['m', 'a', 'i', 'n']);
        assert(seq!['i', 'n', 's', 'p', 'e', 'c', 't', 'o', 'r'].len() == 9);
        assert(raw != seq!['i', 'n', 's', 'p', 'e', 'c', 't', 'o', 'r']);
        assert(seq!['d', 'i', 'a', 'g', 'n', 'o', 's', 't', 'i', 'c', 's'].len() == 11);
        assert(raw != seq!['d', 'i', 'a', 'g', 'n', 'o', 's', 't', 'i', 'c', 's']);
        assert(seq!['c', 'o', 'n', 's', 'o', 'l', 'e'].len() == 7);
        assert(raw != seq!['c', 'o', 'n', 's', 'o', 'l', 'e']);
    }
    if raw == seq!['g', 'l', 'o', 'b', 'a', 'l'] {
        assert(raw[0] == 'g' && raw[1] == 'l' && raw[2] == 'o' && raw[3] == 'b' && raw[4] == 'a' && raw[5] == 'l');
        assert(seq!['g', 'l', 'o', 'b', 'a', 'l', '-', 'n', 'a', 'v', 'i', 'g', 'a', 't', 'i', 'o', 'n'].len() == 17);
        assert(raw != seq!['g', 'l', 'o', 'b', 'a', 'l', '-', 'n', 'a', 'v', 'i', 'g', 'a', 't', 'i', 'o', 'n']);
        assert(seq!['g', 'l', 'o', 'b', 'a', 'l', 'n', 'a', 'v', 'i', 'g', 'a', 't', 'i', 'o', 'n'].len() == 16);
        assert(raw != seq!['g', 'l', 'o', 'b', 'a', 'l', 'n', 'a', 'v', 'i', 'g', 'a', 't', 'i', 'o', 'n']);
        assert(seq!['s', 'e', 'c', 't', 'i', 'o', 'n', '-', 'n', 'a', 'v', 'i', 'g', 'a', 't', 'i', 'o', 'n'].len() == 18);
        assert(raw != seq!['s', 'e', 'c', 't', 'i', 'o', 'n', '-', 'n', 'a', 'v', 'i', 'g', 'a', 't', 'i', 'o', 'n']);
        assert(seq!['s', 'e', 'c', 't', 'i', 'o', 'n', 'n', 'a', 'v', 'i', 'g', 'a', 't', 'i', 'o', 'n'].len() == 17);
        assert(raw != seq!['s', 'e', 'c', 't', 'i', 'o', 'n', 'n', 'a', 'v', 'i', 'g', 'a', 't', 'i', 'o', 'n']);
        assert(seq!['r', 'e', 's', 'o', 'u', 'r', 'c', 'e', 's'].len() == 9);
        assert(raw != seq!['r', 'e', 's', 'o', 'u', 'r', 'c', 'e', 's']);
        assert(seq!['s', 'i', 'd', 'e', 'b', 'a', 'r'].len() == 7);
        assert(raw != seq!['s', 'i', 'd', 'e', 'b', 'a', 'r']);
        assert(seq!['f', 'i', 'l', 'e', 's'].len() == 5);
        assert(raw != seq!['f', 'i', 'l', 'e', 's']);
        assert(seq!['p', 'r', 'i', 'm', 'a', 'r', 'y', '-', 't', 'o', 'o', 'l', 'b', 'a', 'r'].len() == 15);
        assert(raw != seq!['p', 'r', 'i', 'm', 'a', 'r', 'y', '-', 't', 'o', 'o', 'l', 'b', 'a', 'r']);
        assert(seq!['p', 'r', 'i', 'm', 'a', 'r', 'y', 't', 'o', 'o', 'l', 'b', 'a', 'r'].len() == 14);
        assert(raw != seq!['p', 'r', 'i', 'm', 'a', 'r', 'y', 't', 'o', 'o', 'l', 'b', 'a', 'r']);
        assert(seq!['t', 'o', 'o', 'l', 'b', 'a', 'r'].len() == 7);
        assert(raw != seq!['t', 'o', 'o', 'l', 'b', 'a', 'r']);
        assert(seq!['p', 'r', 'i', 'm', 'a', 'r', 'y'].len() == 7);
        assert(raw != seq!['p', 'r', 'i', 'm', 'a', 'r', 'y']);
        assert(seq!['m', 'a', 'i', 'n'].len() == 4);
        assert(raw != seq!['m', 'a', 'i', 'n']);
        assert(seq!['i', 'n', 's', 'p', 'e', 'c', 't', 'o', 'r'].len() == 9);
        assert(raw != seq!['i', 'n', 's', 'p', 'e', 'c', 't', 'o', 'r']);
        assert(seq!['d', 'i', 'a', 'g', 'n', 'o', 's', 't', 'i', 'c', 's'].len() == 11);
        assert(raw != seq!['d', 'i', 'a', 'g', 'n', 'o', 's', 't', 'i', 'c', 's']);
        assert(seq!['c', 'o', 'n', 's', 'o', 'l', 'e'].len() == 7);
        assert(raw != seq!['c', 'o', 'n', 's', 'o', 'l', 'e']);
    }
    if raw == seq!['s', 'e', 'c', 't', 'i', 'o', 'n', '-', 'n', 'a', 'v', 'i', 'g', 'a', 't', 'i', 'o', 'n'] {
        assert(raw[0] == 's' && raw[1] == 'e' && raw[2] == 'c' && raw[3] == 't' && raw[4] == 'i' && raw[5] == 'o' && raw[6] == 'n' && raw[7] == '-' && raw[8] == 'n' && raw[9] == 'a' && raw[10] == 'v' && raw[11] == 'i' && raw[12] == 'g' && raw[13] == 'a' && raw[14] == 't' && raw[15] == 'i' && raw[16] == 'o' && raw[17] == 'n');
        assert(seq!['g', 'l', 'o', 'b', 'a', 'l', '-', 'n', 'a', 'v', 'i', 'g', 'a', 't', 'i', 'o', 'n'].len() == 17);
        assert(raw != seq!['g', 'l', 'o', 'b', 'a', 'l', '-', 'n', 'a', 'v', 'i', 'g', 'a', 't', 'i', 'o', 'n']);
        assert(seq!['g', 'l', 'o', 'b', 'a', 'l', 'n', 'a', 'v', 'i', 'g', 'a', 't', 'i', 'o', 'n'].len() == 16);
        assert(raw != seq!['g', 'l', 'o', 'b', 'a', 'l', 'n', 'a', 'v', 'i', 'g', 'a', 't', 'i', 'o', 'n']);
        assert(seq!['g', 'l', 'o', 'b', 'a', 'l'].len() == 6);
        assert(raw != seq!['g', 'l', 'o', 'b', 'a', 'l']);
        assert(seq!['s', 'e', 'c', 't', 'i', 'o', 'n', 'n', 'a', 'v', 'i', 'g', 'a', 't', 'i', 'o', 'n'].len() == 17);
        assert(raw != seq!['s', 'e', 'c', 't', 'i', 'o', 'n', 'n', 'a', 'v', 'i', 'g', 'a', 't', 'i', 'o', 'n']);
        assert(seq!['r', 'e', 's', 'o', 'u', 'r', 'c', 'e', 's'].len() == 9);
        assert(raw != seq!['r', 'e', 's', 'o', 'u', 'r', 'c', 'e', 's']);
        assert(seq!['s', 'i', 'd', 'e', 'b', 'a', 'r'].len() == 7);
        assert(raw != seq!['s', 'i', 'd', 'e', 'b', 'a', 'r']);
        assert(seq!['f', 'i', 'l', 'e', 's'].len() == 5);
        assert(raw != seq!['f', 'i', 'l', 'e', 's']);
        assert(seq!['p', 'r', 'i', 'm', 'a', 'r', 'y', '-', 't', 'o', 'o', 'l', 'b', 'a', 'r'].len() == 15);
        assert(raw != seq!['p', 'r', 'i', 'm', 'a', 'r', 'y', '-', 't', 'o', 'o', 'l', 'b', 'a', 'r']);
        assert(seq!['p', 'r', 'i', 'm', 'a', 'r', 'y', 't', 'o', 'o', 'l', 'b', 'a', 'r'].len() == 14);
        assert(raw != seq!['p', 'r', 'i', 'm', 'a', 'r', 'y', 't', 'o', 'o', 'l', 'b', 'a', 'r']);
        assert(seq!['t', 'o', 'o', 'l', 'b', 'a', 'r'].len() == 7);
        assert(raw != seq!['t', 'o', 'o', 'l', 'b', 'a', 'r']);
        assert(seq!['p', 'r', 'i', 'm', 'a', 'r', 'y'].len() == 7);
        assert(raw != seq!['p', 'r', 'i', 'm', 'a', 'r', 'y']);
        assert(seq!['m', 'a', 'i', 'n'].len() == 4);
        assert(raw != seq!['m', 'a', 'i', 'n']);
        assert(seq!['i', 'n', 's', 'p', 'e', 'c', 't', 'o', 'r'].len() == 9);
        assert(raw != seq!['i', 'n', 's', 'p', 'e', 'c', 't', 'o', 'r']);
        assert(seq!['d', 'i', 'a', 'g', 'n', 'o', 's', 't', 'i', 'c', 's'].len() == 11);
        assert(raw != seq!['d', 'i', 'a', 'g', 'n', 'o', 's', 't', 'i', 'c', 's']);
        assert(seq!['c', 'o', 'n', 's', 'o', 'l', 'e'].len() == 7);
        assert(raw != seq!['c', 'o', 'n', 's', 'o', 'l', 'e']);
    }
    if raw == seq!['s', 'e', 'c', 't', 'i', 'o', 'n', 'n', 'a', 'v', 'i', 'g', 'a', 't', 'i', 'o', 'n'] {
        assert(raw[0] == 's' && raw[1] == 'e' && raw[2] == 'c' && raw[3] == 't' && raw[4] == 'i' && raw[5] == 'o' && raw[6] == 'n' && raw[7] == 'n' && raw[8] == 'a' && raw[9] == 'v' && raw[10] == 'i' && raw[11] == 'g' && raw[12] == 'a' && raw[13] == 't' && raw[14] == 'i' && raw[15] == 'o' && raw[16] == 'n');
        assert(seq!['g', 'l', 'o', 'b', 'a', 'l', '-', 'n', 'a', 'v', 'i', 'g', 'a', 't', 'i', 'o', 'n'][0] == 'g');
        assert(raw != seq!['g', 'l', 'o', 'b', 'a', 'l', '-', 'n', 'a', 'v', 'i', 'g', 'a', 't', 'i', 'o', 'n']);
        assert(seq!['g', 'l', 'o', 'b', 'a', 'l', 'n', 'a', 'v', 'i', 'g', 'a', 't', 'i', 'o', 'n'].len() == 16);
        assert(raw != seq!['g', 'l', 'o', 'b', 'a', 'l', 'n', 'a', 'v', 'i', 'g', 'a', 't', 'i', 'o', 'n']);
        assert(seq!['g', 'l', 'o', 'b', 'a', 'l'].len() == 6);
        assert(raw != seq!['g', 'l', 'o', 'b', 'a', 'l']);
        assert(seq!['s', 'e', 'c', 't', 'i', 'o', 'n', '-', 'n', 'a', 'v', 'i', 'g', 'a', 't', 'i', 'o', 'n'].len() == 18);
        assert(raw != seq!['s', 'e', 'c', 't', 'i', 'o', 'n', '-', 'n', 'a', 'v', 'i', 'g', 'a', 't', 'i', 'o', 'n']);
        assert(seq!['r', 'e', 's', 'o', 'u', 'r', 'c', 'e', 's'].len() == 9);
        assert(raw != seq!['r', 'e', 's', 'o', 'u', 'r', 'c', 'e', 's']);
        assert(seq!['s', 'i', 'd', 'e', 'b', 'a', 'r'].len() == 7);
        assert(raw != seq!['s', 'i', 'd', 'e', 'b', 'a', 'r']);
        assert(seq!['f', 'i', 'l', 'e', 's'].len() == 5);
        assert(raw != seq!['f', 'i', 'l', 'e', 's']);
        assert(seq!['p', 'r', 'i', 'm', 'a', 'r', 'y', '-', 't', 'o', 'o', 'l', 'b', 'a', 'r'].len() == 15);
        assert(raw != seq!['p', 'r', 'i', 'm', 'a', 'r', 'y', '-', 't', 'o', 'o', 'l', 'b', 'a', 'r']);
        assert(seq!['p', 'r', 'i', 'm', 'a', 'r', 'y', 't', 'o', 'o', 'l', 'b', 'a', 'r'].len() == 14);
        assert(raw != seq!['p', 'r', 'i', 'm', 'a', 'r', 'y', 't', 'o', 'o', 'l', 'b', 'a', 'r']);
        assert(seq!['t', 'o', 'o', 'l', 'b', 'a', 'r'].len() == 7);
        assert(raw != seq!['t', 'o', 'o', 'l', 'b', 'a', 'r']);
        assert(seq!['p', 'r', 'i', 'm', 'a', 'r', 'y'].len() == 7);
        assert(raw != seq!['p', 'r', 'i', 'm', 'a', 'r', 'y']);
        assert(seq!['m', 'a', 'i', 'n'].len() == 4);
        assert(raw != seq!['m', 'a', 'i', 'n']);
        assert(seq!['i', 'n', 's', 'p', 'e', 'c', 't', 'o', 'r'].len() == 9);
        assert(raw != seq!['i', 'n', 's', 'p', 'e', 'c', 't', 'o', 'r']);
        assert(seq!['d', 'i', 'a', 'g', 'n', 'o', 's', 't', 'i', 'c', 's'].len() == 11);
        assert(raw != seq!['d', 'i', 'a', 'g', 'n', 'o', 's', 't', 'i', 'c', 's']);
        assert(seq!['c', 'o', 'n', 's', 'o', 'l', 'e'].len() == 7);
        assert(raw != seq!['c', 'o', 'n', 's', 'o', 'l', 'e']);
    }
    if raw == seq!['r', 'e', 's', 'o', 'u', 'r', 'c', 'e', 's'] {
        assert(raw[0] == 'r' && raw[1] == 'e' && raw[2] == 's' && raw[3] == 'o' && raw[4] == 'u' && raw[5] == 'r' && raw[6] == 'c' && raw[7] == 'e' && raw[8] == 's');
        assert(seq!['g', 'l', 'o', 'b', 'a', 'l', '-', 'n', 'a', 'v', 'i', 'g', 'a', 't', 'i', 'o', 'n'].len() == 17);
        assert(raw != seq!['g', 'l', 'o', 'b', 'a', 'l', '-', 'n', 'a', 'v', 'i', 'g', 'a', 't', 'i', 'o', 'n']);
        assert(seq!['g', 'l', 'o', 'b', 'a', 'l', 'n', 'a', 'v', 'i', 'g', 'a', 't', 'i', 'o', 'n'].len() == 16);
        assert(raw != seq!['g', 'l', 'o', 'b', 'a', 'l', 'n', 'a', 'v', 'i', 'g', 'a', 't', 'i', 'o', 'n']);
        assert(seq!['g', 'l', 'o', 'b', 'a', 'l'].len() == 6);
        assert(raw != seq!['g', 'l', 'o', 'b', 'a', 'l']);
        assert(seq!['s', 'e', 'c', 't', 'i', 'o', 'n', '-', 'n', 'a', 'v', 'i', 'g', 'a', 't', 'i', 'o', 'n'].len() == 18);
        assert(raw != seq!['s', 'e', 'c', 't', 'i', 'o', 'n', '-', 'n', 'a', 'v', 'i', 'g', 'a', 't', 'i', 'o', 'n']);
        assert(seq!['s', 'e', 'c', 't', 'i', 'o', 'n', 'n', 'a', 'v', 'i', 'g', 'a', 't', 'i', 'o', 'n'].len() == 17);
        assert(raw != seq!['s', 'e', 'c', 't', 'i', 'o', 'n', 'n', 'a', 'v', 'i', 'g', 'a', 't', 'i', 'o', 'n']);
        assert(seq!['s', 'i', 'd', 'e', 'b', 'a', 'r'].len() == 7);
        assert(raw != seq!['s', 'i', 'd', 'e', 'b', 'a', 'r']);
        assert(seq!['f', 'i', 'l', 'e', 's'].len() == 5);
        assert(raw != seq!['f', 'i', 'l', 'e', 's']);
        assert(seq!['p', 'r', 'i', 'm', 'a', 'r', 'y', '-', 't', 'o', 'o', 'l', 'b', 'a', 'r'].len() == 15);
        assert(raw != seq!['p', 'r', 'i', 'm', 'a', 'r', 'y', '-', 't', 'o', 'o', 'l', 'b', 'a', 'r']);
        assert(seq!['p', 'r', 'i', 'm', 'a', 'r', 'y', 't', 'o', 'o', 'l', 'b', 'a', 'r'].len() == 14);
        assert(raw != seq!['p', 'r', 'i', 'm', 'a', 'r', 'y', 't', 'o', 'o', 'l', 'b', 'a', 'r']);
        assert(seq!['t', 'o', 'o', 'l', 'b', 'a', 'r'].len() == 7);
        assert(raw != seq!['t', 'o', 'o', 'l', 'b', 'a', 'r']);
        assert(seq!['p', 'r', 'i', 'm', 'a', 'r', 'y'].len() == 7);
        assert(raw != seq!['p', 'r', 'i', 'm', 'a', 'r', 'y']);
        assert(seq!['m', 'a', 'i', 'n'].len() == 4);
        assert(raw != seq!['m', 'a', 'i', 'n']);
        assert(seq!['i', 'n', 's', 'p', 'e', 'c', 't', 'o', 'r'][0] == 'i');
        assert(raw != seq!['i', 'n', 's', 'p', 'e', 'c', 't', 'o', 'r']);
        assert(seq!['d', 'i', 'a', 'g', 'n', 'o', 's', 't', 'i', 'c', 's'].len() == 11);
        assert(raw != seq!['d', 'i', 'a', 'g', 'n', 'o', 's', 't', 'i', 'c', 's']);
        assert(seq!['c', 'o', 'n', 's', 'o', 'l', 'e'].len() == 7);
        assert(raw != seq!['c', 'o', 'n', 's', 'o', 'l', 'e']);
    }
    if raw == seq!['s', 'i', 'd', 'e', 'b', 'a', 'r'] {
        assert(raw[0] == 's' && raw[1] == 'i' && raw[2] == 'd' && raw[3] == 'e' && raw[4] == 'b' && raw[5] == 'a' && raw[6] == 'r');
        assert(seq!['g', 'l', 'o', 'b', 'a', 'l', '-', 'n', 'a', 'v', 'i', 'g', 'a', 't', 'i', 'o', 'n'].len() == 17);
        assert(raw != seq!['g', 'l', 'o', 'b', 'a', 'l', '-', 'n', 'a', 'v', 'i', 'g', 'a', 't', 'i', 'o', 'n']);
        assert(seq!['g', 'l', 'o', 'b', 'a', 'l', 'n', 'a', 'v', 'i', 'g', 'a', 't', 'i', 'o', 'n'].len() == 16);
        assert(raw != seq!['g', 'l', 'o', 'b', 'a', 'l', 'n', 'a', 'v', 'i', 'g', 'a', 't', 'i', 'o', 'n']);
        assert(seq!['g', 'l', 'o', 'b', 'a', 'l'].len() == 6);
        assert(raw != seq!['g', 'l', 'o', 'b', 'a', 'l']);
        assert(seq!['s', 'e', 'c', 't', 'i', 'o', 'n', '-', 'n', 'a', 'v', 'i', 'g', 'a', 't', 'i', 'o', 'n'].len() == 18);
        assert(raw != seq!['s', 'e', 'c', 't', 'i', 'o', 'n', '-', 'n', 'a', 'v', 'i', 'g', 'a', 't', 'i', 'o', 'n']);
        assert(seq!['s', 'e', 'c', 't', 'i', 'o', 'n', 'n', 'a', 'v', 'i', 'g', 'a', 't', 'i', 'o', 'n'].len() == 17);
        assert(raw != seq!['s', 'e', 'c', 't', 'i', 'o', 'n', 'n', 'a', 'v', 'i', 'g', 'a', 't', 'i', 'o', 'n']);
        assert(seq!['r', 'e', 's', 'o', 'u', 'r', 'c', 'e', 's'].len() == 9);
        assert(raw != seq!['r', 'e', 's', 'o', 'u', 'r', 'c', 'e', 's']);
        assert(seq!['f', 'i', 'l', 'e', 's'].len() == 5);
        assert(raw != seq!['f', 'i', 'l', 'e', 's']);
        assert(seq!['p', 'r', 'i', 'm', 'a', 'r', 'y', '-', 't', 'o', 'o', 'l', 'b', 'a', 'r'].len() == 15);
        assert(raw != seq!['p', 'r', 'i', 'm', 'a', 'r', 'y', '-', 't', 'o', 'o', 'l', 'b', 'a', 'r']);
        assert(seq!['p', 'r', 'i', 'm', 'a', 'r', 'y', 't', 'o', 'o', 'l', 'b', 'a', 'r'].len() == 14);
        assert(raw != seq!['p', 'r', 'i', 'm', 'a', 'r', 'y', 't', 'o', 'o', 'l', 'b', 'a', 'r']);
        assert(seq!['t', 'o', 'o', 'l', 'b', 'a', 'r'][0] == 't');
        assert(raw != seq!['t', 'o', 'o', 'l', 'b', 'a', 'r']);
        assert(seq!['p', 'r', 'i', 'm', 'a', 'r', 'y'][0] == 'p');
        assert(raw != seq!['p', 'r', 'i', 'm', 'a', 'r', 'y']);
        assert(seq!['m', 'a', 'i', 'n'].len() == 4);
        assert(raw != seq!['m', 'a', 'i', 'n']);
        assert(seq!['i', 'n', 's', 'p', 'e', 'c', 't', 'o', 'r'].len() == 9);
        assert(raw != seq!['i', 'n', 's', 'p', 'e', 'c', 't', 'o', 'r']);
        assert(seq!['d', 'i', 'a', 'g', 'n', 'o', 's', 't', 'i', 'c', 's'].len() == 11);
        assert(raw != seq!['d', 'i', 'a', 'g', 'n', 'o', 's', 't', 'i', 'c', 's']);
        assert(seq!['c', 'o', 'n', 's', 'o', 'l', 'e'][0] == 'c');
        assert(raw != seq!['c', 'o', 'n', 's', 'o', 'l', 'e']);
    }
    if raw == seq!['f', 'i', 'l', 'e', 's'] {
        assert(raw[0] == 'f' && raw[1] == 'i' && raw[2] == 'l' && raw[3] == 'e' && raw[4] == 's');
        assert(seq!['g', 'l', 'o', 'b', 'a', 'l', '-', 'n', 'a', 'v', 'i', 'g', 'a', 't', 'i', 'o', 'n'].len() == 17);
        assert(raw != seq!['g', 'l', 'o', 'b', 'a', 'l', '-', 'n', 'a', 'v', 'i', 'g', 'a', 't', 'i', 'o', 'n']);
        assert(seq!['g', 'l', 'o', 'b', 'a', 'l', 'n', 'a', 'v', 'i', 'g', 'a', 't', 'i', 'o', 'n'].len() == 16);
        assert(raw != seq!['g', 'l', 'o', 'b', 'a', 'l', 'n', 'a', 'v', 'i', 'g', 'a', 't', 'i', 'o', 'n']);
        assert(seq!['g', 'l', 'o', 'b', 'a', 'l'].len() == 6);
        assert(raw != seq!['g', 'l', 'o', 'b', 'a', 'l']);
        assert(seq!['s', 'e', 'c', 't', 'i', 'o', 'n', '-', 'n', 'a', 'v', 'i', 'g', 'a', 't', 'i', 'o', 'n'].len() == 18);
        assert(raw != seq!['s', 'e', 'c', 't', 'i', 'o', 'n', '-', 'n', 'a', 'v', 'i', 'g', 'a', 't', 'i', 'o', 'n']);
        assert(seq!['s', 'e', 'c', 't', 'i', 'o', 'n', 'n', 'a', 'v', 'i', 'g', 'a', 't', 'i', 'o', 'n'].len() == 17);
        assert(raw != seq!['s', 'e', 'c', 't', 'i', 'o', 'n', 'n', 'a', 'v', 'i', 'g', 'a', 't', 'i', 'o', 'n']);
        assert(seq!['r', 'e', 's', 'o', 'u', 'r', 'c', 'e', 's'].len() == 9);
        assert(raw != seq!['r', 'e', 's', 'o', 'u', 'r', 'c', 'e', 's']);
        assert(seq!['s', 'i', 'd', 'e', 'b', 'a', 'r'].len() == 7);
        assert(raw != seq!['s', 'i', 'd', 'e', 'b', 'a', 'r']);
        assert(seq!['p', 'r', 'i', 'm', 'a', 'r', 'y', '-', 't', 'o', 'o', 'l', 'b', 'a', 'r'].len() == 15);
        assert(raw != seq!['p', 'r', 'i', 'm', 'a', 'r', 'y', '-', 't', 'o', 'o', 'l', 'b', 'a', 'r']);
        assert(seq!['p', 'r', 'i', 'm', 'a', 'r', 'y', 't', 'o', 'o', 'l', 'b', 'a', 'r'].len() == 14);
        assert(raw != seq!['p', 'r', 'i', 'm', 'a', 'r', 'y', 't', 'o', 'o', 'l', 'b', 'a', 'r']);
        assert(seq!['t', 'o', 'o', 'l', 'b', 'a', 'r'].len() == 7);
        assert(raw != seq!['t', 'o', 'o', 'l', 'b', 'a', 'r']);
        assert(seq!['p', 'r', 'i', 'm', 'a', 'r', 'y'].len() == 7);
        assert(raw != seq!['p', 'r', 'i', 'm', 'a', 'r', 'y']);
        assert(seq!['m', 'a', 'i', 'n'].len() == 4);
        assert(raw != seq!['m', 'a', 'i', 'n']);
        assert(seq!['i', 'n', 's', 'p', 'e', 'c', 't', 'o', 'r'].len() == 9);
        assert(raw != seq!['i', 'n', 's', 'p', 'e', 'c', 't', 'o', 'r']);
        assert(seq!['d', 'i', 'a', 'g', 'n', 'o', 's', 't', 'i', 'c', 's'].len() == 11);
        assert(raw != seq!['d', 'i', 'a', 'g', 'n', 'o', 's', 't', 'i', 'c', 's']);
        assert(seq!['c', 'o', 'n', 's', 'o', 'l', 'e'].len() == 7);
        assert(raw != seq!['c', 'o', 'n', 's', 'o', 'l', 'e']);
    }
    if raw == seq!['p', 'r', 'i', 'm', 'a', 'r', 'y', '-', 't', 'o', 'o', 'l', 'b', 'a', 'r'] {
        assert(raw[0] == 'p' && raw[1] == 'r' && raw[2] == 'i' && raw[3] == 'm' && raw[4] == 'a' && raw[5] == 'r' && raw[6] == 'y' && raw[7] == '-' && raw[8] == 't' && raw[9] == 'o' && raw[10] == 'o' && raw[11] == 'l' && raw[12] == 'b' && raw[13] == 'a' && raw[14] == 'r');
        assert(seq!['g', 'l', 'o', 'b', 'a', 'l', '-', 'n', 'a', 'v', 'i', 'g', 'a', 't', 'i', 'o', 'n'].len() == 17);
        assert(raw != seq!['g', 'l', 'o', 'b', 'a', 'l', '-', 'n', 'a', 'v', 'i', 'g', 'a', 't', 'i', 'o', 'n']);
        assert(seq!['g', 'l', 'o', 'b', 'a', 'l', 'n', 'a', 'v', 'i', 'g', 'a', 't', 'i', 'o', 'n'].len() == 16);
        assert(raw != seq!['g', 'l', 'o', 'b', 'a', 'l', 'n', 'a', 'v', 'i', 'g', 'a', 't', 'i', 'o', 'n']);
        assert(seq!['g', 'l', 'o', 'b', 'a', 'l'].len() == 6);
        assert(raw != seq!['g', 'l', 'o', 'b', 'a', 'l']);
        assert(seq!['s', 'e', 'c', 't', 'i', 'o', 'n', '-', 'n', 'a', 'v', 'i', 'g', 'a', 't', 'i', 'o', 'n'].len() == 18);
        assert(raw != seq!['s', 'e', 'c', 't', 'i', 'o', 'n', '-', 'n', 'a', 'v', 'i', 'g', 'a', 't', 'i', 'o', 'n']);
        assert(seq!['s', 'e', 'c', 't', 'i', 'o', 'n', 'n', 'a', 'v', 'i', 'g', 'a', 't', 'i', 'o', 'n'].len() == 17);
        assert(raw != seq!['s', 'e', 'c', 't', 'i', 'o', 'n', 'n', 'a', 'v', 'i', 'g', 'a', 't', 'i', 'o', 'n']);
        assert(seq!['r', 'e', 's', 'o', 'u', 'r', 'c', 'e', 's'].len() == 9);
        assert(raw != seq!['r', 'e', 's', 'o', 'u', 'r', 'c', 'e', 's']);
        assert(seq!['s', 'i', 'd', 'e', 'b', 'a', 'r'].len() == 7);
        assert(raw != seq!['s', 'i', 'd', 'e', 'b', 'a', 'r']);
        assert(seq!['f', 'i', 'l', 'e', 's'].len() == 5);
        assert(raw != seq!['f', 'i', 'l', 'e', 's']);
        assert(seq!['p', 'r', 'i', 'm', 'a', 'r', 'y', 't', 'o', 'o', 'l', 'b', 'a', 'r'].len() == 14);
        assert(raw != seq!['p', 'r', 'i', 'm', 'a', 'r', 'y', 't', 'o', 'o', 'l', 'b', 'a', 'r']);
        assert(seq!['t', 'o', 'o', 'l', 'b', 'a', 'r'].len() == 7);
        assert(raw != seq!['t', 'o', 'o', 'l', 'b', 'a', 'r']);
        assert(seq!['p', 'r', 'i', 'm', 'a', 'r', 'y'].len() == 7);
        assert(raw != seq!['p', 'r', 'i', 'm', 'a', 'r', 'y']);
        assert(seq!['m', 'a', 'i', 'n'].len() == 4);
        assert(raw != seq!['m', 'a', 'i', 'n']);
        assert(seq!['i', 'n', 's', 'p', 'e', 'c', 't', 'o', 'r'].len() == 9);
        assert(raw != seq!['i', 'n', 's', 'p', 'e', 'c', 't', 'o', 'r']);
        assert(seq!['d', 'i', 'a', 'g', 'n', 'o', 's', 't', 'i', 'c', 's'].len() == 11);
        assert(raw != seq!['d', 'i', 'a', 'g', 'n', 'o', 's', 't', 'i', 'c', 's']);
        assert(seq!['c', 'o', 'n', 's', 'o', 'l', 'e'].len() == 7);
        assert(raw != seq!['c', 'o', 'n', 's', 'o', 'l', 'e']);
    }
    if raw == seq!['p', 'r', 'i', 'm', 'a', 'r', 'y', 't', 'o', 'o', 'l', 'b', 'a', 'r'] {
        assert(raw[0] == 'p' && raw[1] == 'r' && raw[2] == 'i' && raw[3] == 'm' && raw[4] == 'a' && raw[5] == 'r' && raw[6] == 'y' && raw[7] == 't' && raw[8] == 'o' && raw[9] == 'o' && raw[10] == 'l' && raw[11] == 'b' && raw[12] == 'a' && raw[13] == 'r');
        assert(seq!['g', 'l', 'o', 'b', 'a', 'l', '-', 'n', 'a', 'v', 'i', 'g', 'a', 't', 'i', 'o', 'n'].len() == 17);
        assert(raw != seq!['g', 'l', 'o', 'b', 'a', 'l', '-', 'n', 'a', 'v', 'i', 'g', 'a', 't', 'i', 'o', 'n']);
        assert(seq!['g', 'l', 'o', 'b', 'a', 'l', 'n', 'a', 'v', 'i', 'g', 'a', 't', 'i', 'o', 'n'].len() == 16);
        assert(raw != seq!['g', 'l', 'o', 'b', 'a', 'l', 'n', 'a', 'v', 'i', 'g', 'a', 't', 'i', 'o', 'n']);
        assert(seq!['g', 'l', 'o', 'b', 'a', 'l'].len() == 6);
        assert(raw != seq!['g', 'l', 'o', 'b', 'a', 'l']);
        assert(seq!['s', 'e', 'c', 't', 'i', 'o', 'n', '-', 'n', 'a', 'v', 'i', 'g', 'a', 't', 'i', 'o', 'n'].len() == 18);
        assert(raw != seq!['s', 'e', 'c', 't', 'i', 'o', 'n', '-', 'n', 'a', 'v', 'i', 'g', 'a', 't', 'i', 'o', 'n']);
        assert(seq!['s', 'e', 'c', 't', 'i', 'o', 'n', 'n', 'a', 'v', 'i', 'g', 'a', 't', 'i', 'o', 'n'].len() == 17);
        assert(raw != seq!['s', 'e', 'c', 't', 'i', 'o', 'n', 'n', 'a', 'v', 'i', 'g', 'a', 't', 'i', 'o', 'n']);
        assert(seq!['r', 'e', 's', 'o', 'u', 'r', 'c', 'e', 's'].len() == 9);
        assert(raw != seq!['r', 'e', 's', 'o', 'u', 'r', 'c', 'e', 's']);
        assert(seq!['s', 'i', 'd', 'e', 'b', 'a', 'r'].len() == 7);
        assert(raw != seq!['s', 'i', 'd', 'e', 'b', 'a', 'r']);
        assert(seq!['f', 'i', 'l', 'e', 's'].len() == 5);
        assert(raw != seq!['f', 'i', 'l', 'e', 's']);
        assert(seq!['p', 'r', 'i', 'm', 'a', 'r', 'y', '-', 't', 'o', 'o', 'l', 'b', 'a', 'r'].len() == 15);
        assert(raw != seq!['p', 'r', 'i', 'm', 'a', 'r', 'y', '-', 't', 'o', 'o', 'l', 'b', 'a', 'r']);
        assert(seq!['t', 'o', 'o', 'l', 'b', 'a', 'r'].len() == 7);
        assert(raw != seq!['t', 'o', 'o', 'l', 'b', 'a', 'r']);
        assert(seq!['p', 'r', 'i', 'm', 'a', 'r', 'y'].len() == 7);
        assert(raw != seq!['p', 'r', 'i', 'm', 'a', 'r', 'y']);
        assert(seq!['m', 'a', 'i', 'n'].len() == 4);
        assert(raw != seq!['m', 'a', 'i', 'n']);
        assert(seq!['i', 'n', 's', 'p', 'e', 'c', 't', 'o', 'r'].len() == 9);
        assert(raw != seq!['i', 'n', 's', 'p', 'e', 'c', 't', 'o', 'r']);
        assert(seq!['d', 'i', 'a', 'g', 'n', 'o', 's', 't', 'i', 'c', 's'].len() == 11);
        assert(raw != seq!['d', 'i', 'a', 'g', 'n', 'o', 's', 't', 'i', 'c', 's']);
        assert(seq!['c', 'o', 'n', 's', 'o', 'l', 'e'].len() == 7);
        assert(raw != seq!['c', 'o', 'n', 's', 'o', 'l', 'e']);
    }
    if raw == seq!['t', 'o', 'o', 'l', 'b', 'a', 'r'] {
        assert(raw[0] == 't' && raw[1] == 'o' && raw[2] == 'o' && raw[3] == 'l' && raw[4] == 'b' && raw[5] == 'a' && raw[6] == 'r');
        assert(seq!['g', 'l', 'o', 'b', 'a', 'l', '-', 'n', 'a', 'v', 'i', 'g', 'a', 't', 'i', 'o', 'n'].len() == 17);
        assert(raw != seq!['g', 'l', 'o', 'b', 'a', 'l', '-', 'n', 'a', 'v', 'i', 'g', 'a', 't', 'i', 'o', 'n']);
        assert(seq!['g', 'l', 'o', 'b', 'a', 'l', 'n', 'a', 'v', 'i', 'g', 'a', 't', 'i', 'o', 'n'].len() == 16);
        assert(raw != seq!['g', 'l', 'o', 'b', 'a', 'l', 'n', 'a', 'v', 'i', 'g', 'a', 't', 'i', 'o', 'n']);
        assert(seq!['g', 'l', 'o', 'b', 'a', 'l'].len() == 6);
        assert(raw != seq!['g', 'l', 'o', 'b', 'a', 'l']);
        assert(seq!['s', 'e', 'c', 't', 'i', 'o', 'n', '-', 'n', 'a', 'v', 'i', 'g', 'a', 't', 'i', 'o', 'n'].len() == 18);
        assert(raw != seq!['s', 'e', 'c', 't', 'i', 'o', 'n', '-', 'n', 'a', 'v', 'i', 'g', 'a', 't', 'i', 'o', 'n']);
        assert(seq!['s', 'e', 'c', 't', 'i', 'o', 'n', 'n', 'a', 'v', 'i', 'g', 'a', 't', 'i', 'o', 'n'].len() == 17);
        assert(raw != seq!['s', 'e', 'c', 't', 'i', 'o', 'n', 'n', 'a', 'v', 'i', 'g', 'a', 't', 'i', 'o', 'n']);
        assert(seq!['r', 'e', 's', 'o', 'u', 'r', 'c', 'e', 's'].len() == 9);
        assert(raw != seq!['r', 'e', 's', 'o', 'u', 'r', 'c', 'e', 's']);
        assert(seq!['s', 'i', 'd', 'e', 'b', 'a', 'r'][0] == 's');
        assert(raw != seq!['s', 'i', 'd', 'e', 'b', 'a', 'r']);
        assert(seq!['f', 'i', 'l', 'e', 's'].len() == 5);
        assert(raw != seq!['f', 'i', 'l', 'e', 's']);
        assert(seq!['p', 'r', 'i', 'm', 'a', 'r', 'y', '-', 't', 'o', 'o', 'l', 'b', 'a', 'r'].len() == 15);
        assert(raw != seq!['p', 'r', 'i', 'm', 'a', 'r', 'y', '-', 't', 'o', 'o', 'l', 'b', 'a', 'r']);
        assert(seq!['p', 'r', 'i', 'm', 'a', 'r', 'y', 't', 'o', 'o', 'l', 'b', 'a', 'r'].len() == 14);
        assert(raw != seq!['p', 'r', 'i', 'm', 'a', 'r', 'y', 't', 'o', 'o', 'l', 'b', 'a', 'r']);
        assert(seq!['p', 'r', 'i', 'm', 'a', 'r', 'y'][0] == 'p');
        assert(raw != seq!['p', 'r', 'i', 'm', 'a', 'r', 'y']);
        assert(seq!['m', 'a', 'i', 'n'].len() == 4);
        assert(raw != seq!['m', 'a', 'i', 'n']);
        assert(seq!['i', 'n', 's', 'p', 'e', 'c', 't', 'o', 'r'].len() == 9);
        assert(raw != seq!['i', 'n', 's', 'p', 'e', 'c', 't', 'o', 'r']);
        assert(seq!['d', 'i', 'a', 'g', 'n', 'o', 's', 't', 'i', 'c', 's'].len() == 11);
        assert(raw != seq!['d', 'i', 'a', 'g', 'n', 'o', 's', 't', 'i', 'c', 's']);
        assert(seq!['c', 'o', 'n', 's', 'o', 'l', 'e'][0] == 'c');
        assert(raw != seq!['c', 'o', 'n', 's', 'o', 'l', 'e']);
    }
    if raw == seq!['p', 'r', 'i', 'm', 'a', 'r', 'y'] {
        assert(raw[0] == 'p' && raw[1] == 'r' && raw[2] == 'i' && raw[3] == 'm' && raw[4] == 'a' && raw[5] == 'r' && raw[6] == 'y');
        assert(seq!['g', 'l', 'o', 'b', 'a', 'l', '-', 'n', 'a', 'v', 'i', 'g', 'a', 't', 'i', 'o', 'n'].len() == 17);
        assert(raw != seq!['g', 'l', 'o', 'b', 'a', 'l', '-', 'n', 'a', 'v', 'i', 'g', 'a', 't', 'i', 'o', 'n']);
        assert(seq!['g', 'l', 'o', 'b', 'a', 'l', 'n', 'a', 'v', 'i', 'g', 'a', 't', 'i', 'o', 'n'].len() == 16);
        assert(raw != seq!['g', 'l', 'o', 'b', 'a', 'l', 'n', 'a', 'v', 'i', 'g', 'a', 't', 'i', 'o', 'n']);
        assert(seq!['g', 'l', 'o', 'b', 'a', 'l'].len() == 6);
        assert(raw != seq!['g', 'l', 'o', 'b', 'a', 'l']);
        assert(seq!['s', 'e', 'c', 't', 'i', 'o', 'n', '-', 'n', 'a', 'v', 'i', 'g', 'a', 't', 'i', 'o', 'n'].len() == 18);
        assert(raw != seq!['s', 'e', 'c', 't', 'i', 'o', 'n', '-', 'n', 'a', 'v', 'i', 'g', 'a', 't', 'i', 'o', 'n']);
        assert(seq!['s', 'e', 'c', 't', 'i', 'o', 'n', 'n', 'a', 'v', 'i', 'g', 'a', 't', 'i', 'o', 'n'].len() == 17);
        assert(raw != seq!['s', 'e', 'c', 't', 'i', 'o', 'n', 'n', 'a', 'v', 'i', 'g', 'a', 't', 'i', 'o', 'n']);
        assert(seq!['r', 'e', 's', 'o', 'u', 'r', 'c', 'e', 's'].len() == 9);
        assert(raw != seq!['r', 'e', 's', 'o', 'u', 'r', 'c', 'e', 's']);
        assert(seq!['s', 'i', 'd', 'e', 'b', 'a', 'r'][0] == 's');
        assert(raw != seq!['s', 'i', 'd', 'e', 'b', 'a', 'r']);
        assert(seq!['f', 'i', 'l', 'e', 's'].len() == 5);
        assert(raw != seq!['f', 'i', 'l', 'e', 's']);
        assert(seq!['p', 'r', 'i', 'm', 'a', 'r', 'y', '-', 't', 'o', 'o', 'l', 'b', 'a', 'r'].len() == 15);
        assert(raw != seq!['p', 'r', 'i', 'm', 'a', 'r', 'y', '-', 't', 'o', 'o', 'l', 'b', 'a', 'r']);
        assert(seq!['p', 'r', 'i', 'm', 'a', 'r', 'y', 't', 'o', 'o', 'l', 'b', 'a', 'r'].len() == 14);
        assert(raw != seq!['p', 'r', 'i', 'm', 'a', 'r', 'y', 't', 'o', 'o', 'l', 'b', 'a', 'r']);
        assert(seq!['t', 'o', 'o', 'l', 'b', 'a', 'r'][0] == 't');
        assert(raw != seq!['t', 'o', 'o', 'l', 'b', 'a', 'r']);
        assert(seq!['m', 'a', 'i', 'n'].len() == 4);
        assert(raw != seq!['m', 'a', 'i', 'n']);
        assert(seq!['i', 'n', 's', 'p', 'e', 'c', 't', 'o', 'r'].len() == 9);
        assert(raw != seq!['i', 'n', 's', 'p', 'e', 'c', 't', 'o', 'r']);
        assert(seq!['d', 'i', 'a', 'g', 'n', 'o', 's', 't', 'i', 'c', 's'].len() == 11);
        assert(raw != seq!['d', 'i', 'a', 'g', 'n', 'o', 's', 't', 'i', 'c', 's']);
        assert(seq!['c', 'o', 'n', 's', 'o', 'l', 'e'][0] == 'c');
        assert(raw != seq!['c', 'o', 'n', 's', 'o', 'l', 'e']);
    }
    if raw == seq!['m', 'a', 'i', 'n'] {
        assert(raw[0] == 'm' && raw[1] == 'a' && raw[2] == 'i' && raw[3] == 'n');
        assert(seq!['g', 'l', 'o', 'b', 'a', 'l', '-', 'n', 'a', 'v', 'i', 'g', 'a', 't', 'i', 'o', 'n'].len() == 17);
        assert(raw != seq!['g', 'l', 'o', 'b', 'a', 'l', '-', 'n', 'a', 'v', 'i', 'g', 'a', 't', 'i', 'o', 'n']);
        assert(seq!['g', 'l', 'o', 'b', 'a', 'l', 'n', 'a', 'v', 'i', 'g', 'a', 't', 'i', 'o', 'n'].len() == 16);
        assert(raw != seq!['g', 'l', 'o', 'b', 'a', 'l', 'n', 'a', 'v', 'i', 'g', 'a', 't', 'i', 'o', 'n']);
        assert(seq!['g', 'l', 'o', 'b', 'a', 'l'].len() == 6);
        assert(raw != seq!['g', 'l', 'o', 'b', 'a', 'l']);
        assert(seq!['s', 'e', 'c', 't', 'i', 'o', 'n', '-', 'n', 'a', 'v', 'i', 'g', 'a', 't', 'i', 'o', 'n'].len() == 18);
        assert(raw != seq!['s', 'e', 'c', 't', 'i', 'o', 'n', '-', 'n', 'a', 'v', 'i', 'g', 'a', 't', 'i', 'o', 'n']);
        assert(seq!['s', 'e', 'c', 't', 'i', 'o', 'n', 'n', 'a', 'v', 'i', 'g', 'a', 't', 'i', 'o', 'n'].len() == 17);
        assert(raw != seq!['s', 'e', 'c', 't', 'i', 'o', 'n', 'n', 'a', 'v', 'i', 'g', 'a', 't', 'i', 'o', 'n']);
        assert(seq!['r', 'e', 's', 'o', 'u', 'r', 'c', 'e', 's'].len() == 9);
        assert(raw != seq!['r', 'e', 's', 'o', 'u', 'r', 'c', 'e', 's']);
        assert(seq!['s', 'i', 'd', 'e', 'b', 'a', 'r'].len() == 7);
        assert(raw != seq!['s', 'i', 'd', 'e', 'b', 'a', 'r']);
        assert(seq!['f', 'i', 'l', 'e', 's'].len() == 5);
        assert(raw != seq!['f', 'i', 'l', 'e', 's']);
        assert(seq!['p', 'r', 'i', 'm', 'a', 'r', 'y', '-', 't', 'o', 'o', 'l', 'b', 'a', 'r'].len() == 15);
        assert(raw != seq!['p', 'r', 'i', 'm', 'a', 'r', 'y', '-', 't', 'o', 'o', 'l', 'b', 'a', 'r']);
        assert(seq!['p', 'r', 'i', 'm', 'a', 'r', 'y', 't', 'o', 'o', 'l', 'b', 'a', 'r'].len() == 14);
        assert(raw != seq!['p', 'r', 'i', 'm', 'a', 'r', 'y', 't', 'o', 'o', 'l', 'b', 'a', 'r']);
        assert(seq!['t', 'o', 'o', 'l', 'b', 'a', 'r'].len() == 7);
        assert(raw != seq!['t', 'o', 'o', 'l', 'b', 'a', 'r']);
        assert(seq!['p', 'r', 'i', 'm', 'a', 'r', 'y'].len() == 7);
        assert(raw != seq!['p', 'r', 'i', 'm', 'a', 'r', 'y']);
        assert(seq!['i', 'n', 's', 'p', 'e', 'c', 't', 'o', 'r'].len() == 9);
        assert(raw != seq!['i', 'n', 's', 'p', 'e', 'c', 't', 'o', 'r']);
        assert(seq!['d', 'i', 'a', 'g', 'n', 'o', 's', 't', 'i', 'c', 's'].len() == 11);
        assert(raw != seq!['d', 'i', 'a', 'g', 'n', 'o', 's', 't', 'i', 'c', 's']);
        assert(seq!['c', 'o', 'n', 's', 'o', 'l', 'e'].len() == 7);
        assert(raw != seq!['c', 'o', 'n', 's', 'o', 'l', 'e']);
    }
    if raw == seq!['i', 'n', 's', 'p', 'e', 'c', 't', 'o', 'r'] {
        assert(raw[0] == 'i' && raw[1] == 'n' && raw[2] == 's' && raw[3] == 'p' && raw[4] == 'e' && raw[5] == 'c' && raw[6] == 't' && raw[7] == 'o' && raw[8] == 'r');
        assert(seq!['g', 'l', 'o', 'b', 'a', 'l', '-', 'n', 'a', 'v', 'i', 'g', 'a', 't', 'i', 'o', 'n'].len() == 17);
        assert(raw != seq!['g', 'l', 'o', 'b', 'a', 'l', '-', 'n', 'a', 'v', 'i', 'g', 'a', 't', 'i', 'o', 'n']);
        assert(seq!['g', 'l', 'o', 'b', 'a', 'l', 'n', 'a', 'v', 'i', 'g', 'a', 't', 'i', 'o', 'n'].len() == 16);
        assert(raw != seq!['g', 'l', 'o', 'b', 'a', 'l', 'n', 'a', 'v', 'i', 'g', 'a', 't', 'i', 'o', 'n']);
        assert(seq!['g', 'l', 'o', 'b', 'a', 'l'].len() == 6);
        assert(raw != seq!['g', 'l', 'o', 'b', 'a', 'l']);
        assert(seq!['s', 'e', 'c', 't', 'i', 'o', 'n', '-', 'n', 'a', 'v', 'i', 'g', 'a', 't', 'i', 'o', 'n'].len() == 18);
        assert(raw != seq!['s', 'e', 'c', 't', 'i', 'o', 'n', '-', 'n', 'a', 'v', 'i', 'g', 'a', 't', 'i', 'o', 'n']);
        assert(seq!['s', 'e', 'c', 't', 'i', 'o', 'n', 'n', 'a', 'v', 'i', 'g', 'a', 't', 'i', 'o', 'n'].len() == 17);
        assert(raw != seq!['s', 'e', 'c', 't', 'i', 'o', 'n', 'n', 'a', 'v', 'i', 'g', 'a', 't', 'i', 'o', 'n']);
        assert(seq!['r', 'e', 's', 'o', 'u', 'r', 'c', 'e', 's'][0] == 'r');
        assert(raw != seq!['r', 'e', 's', 'o', 'u', 'r', 'c', 'e', 's']);
        assert(seq!['s', 'i', 'd', 'e', 'b', 'a', 'r'].len() == 7);
        assert(raw != seq!['s', 'i', 'd', 'e', 'b', 'a', 'r']);
        assert(seq!['f', 'i', 'l', 'e', 's'].len() == 5);
        assert(raw != seq!['f', 'i', 'l', 'e', 's']);
        assert(seq!['p', 'r', 'i', 'm', 'a', 'r', 'y', '-', 't', 'o', 'o', 'l', 'b', 'a', 'r'].len() == 15);
        assert(raw != seq!['p', 'r', 'i', 'm', 'a', 'r', 'y', '-', 't', 'o', 'o', 'l', 'b', 'a', 'r']);
        assert(seq!['p', 'r', 'i', 'm', 'a', 'r', 'y', 't', 'o', 'o', 'l', 'b', 'a', 'r'].len() == 14);
        assert(raw != seq!['p', 'r', 'i', 'm', 'a', 'r', 'y', 't', 'o', 'o', 'l', 'b', 'a', 'r']);
        assert(seq!['t', 'o', 'o', 'l', 'b', 'a', 'r'].len() == 7);
        assert(raw != seq!['t', 'o', 'o', 'l', 'b', 'a', 'r']);
        assert(seq!['p', 'r', 'i', 'm', 'a', 'r', 'y'].len() == 7);
        assert(raw != seq!['p', 'r', 'i', 'm', 'a', 'r', 'y']);
        assert(seq!['m', 'a', 'i', 'n'].len() == 4);
        assert(raw != seq!['m', 'a', 'i', 'n']);
        assert(seq!['d', 'i', 'a', 'g', 'n', 'o', 's', 't', 'i', 'c', 's'].len() == 11);
        assert(raw != seq!['d', 'i', 'a', 'g', 'n', 'o', 's', 't', 'i', 'c', 's']);
        assert(seq!['c', 'o', 'n', 's', 'o', 'l', 'e'].len() == 7);
        assert(raw != seq!['c', 'o', 'n', 's', 'o', 'l', 'e']);
    }
    if raw == seq!['d', 'i', 'a', 'g', 'n', 'o', 's', 't', 'i', 'c', 's'] {
        assert(raw[0] == 'd' && raw[1] == 'i' && raw[2] == 'a' && raw[3] == 'g' && raw[4] == 'n' && raw[5] == 'o' && raw[6] == 's' && raw[7] == 't' && raw[8] == 'i' && raw[9] == 'c' && raw[10] == 's');
        assert(seq!['g', 'l', 'o', 'b', 'a', 'l', '-', 'n', 'a', 'v', 'i', 'g', 'a', 't', 'i', 'o', 'n'].len() == 17);
        assert(raw != seq!['g', 'l', 'o', 'b', 'a', 'l', '-', 'n', 'a', 'v', 'i', 'g', 'a', 't', 'i', 'o', 'n']);
        assert(seq!['g', 'l', 'o', 'b', 'a', 'l', 'n', 'a', 'v', 'i', 'g', 'a', 't', 'i', 'o', 'n'].len() == 16);
        assert(raw != seq!['g', 'l', 'o', 'b', 'a', 'l', 'n', 'a', 'v', 'i', 'g', 'a', 't', 'i', 'o', 'n']);
        assert(seq!['g', 'l', 'o', 'b', 'a', 'l'].len() == 6);
        assert(raw != seq!['g', 'l', 'o', 'b', 'a', 'l']);
        assert(seq!['s', 'e', 'c', 't', 'i', 'o', 'n', '-', 'n', 'a', 'v', 'i', 'g', 'a', 't', 'i', 'o', 'n'].len() == 18);
        assert(raw != seq!['s', 'e', 'c', 't', 'i', 'o', 'n', '-', 'n', 'a', 'v', 'i', 'g', 'a', 't', 'i', 'o', 'n']);
        assert(seq!['s', 'e', 'c', 't', 'i', 'o', 'n', 'n', 'a', 'v', 'i', 'g', 'a', 't', 'i', 'o', 'n'].len() == 17);
        assert(raw != seq!['s', 'e', 'c', 't', 'i', 'o', 'n', 'n', 'a', 'v', 'i', 'g', 'a', 't', 'i', 'o', 'n']);
        assert(seq!['r', 'e', 's', 'o', 'u', 'r', 'c', 'e', 's'].len() == 9);
        assert(raw != seq!['r', 'e', 's', 'o', 'u', 'r', 'c', 'e', 's']);
        assert(seq!['s', 'i', 'd', 'e', 'b', 'a', 'r'].len() == 7);
        assert(raw != seq!['s', 'i', 'd', 'e', 'b', 'a', 'r']);
        assert(seq!['f', 'i', 'l', 'e', 's'].len() == 5);
        assert(raw != seq!['f', 'i', 'l', 'e', 's']);
        assert(seq!['p', 'r', 'i', 'm', 'a', 'r', 'y', '-', 't', 'o', 'o', 'l', 'b', 'a', 'r'].len() == 15);
        assert(raw != seq!['p', 'r', 'i', 'm', 'a', 'r', 'y', '-', 't', 'o', 'o', 'l', 'b', 'a', 'r']);
        assert(seq!['p', 'r', 'i', 'm', 'a', 'r', 'y', 't', 'o', 'o', 'l', 'b', 'a', 'r'].len() == 14);
        assert(raw != seq!['p', 'r', 'i', 'm', 'a', 'r', 'y', 't', 'o', 'o', 'l', 'b', 'a', 'r']);
        assert(seq!['t', 'o', 'o', 'l', 'b', 'a', 'r'].len() == 7);
        assert(raw != seq!['t', 'o', 'o', 'l', 'b', 'a', 'r']);
        assert(seq!['p', 'r', 'i', 'm', 'a', 'r', 'y'].len() == 7);
        assert(raw != seq!['p', 'r', 'i', 'm', 'a', 'r', 'y']);
        assert(seq!['m', 'a', 'i', 'n'].len() == 4);
        assert(raw != seq!['m', 'a', 'i', 'n']);
        assert(seq!['i', 'n', 's', 'p', 'e', 'c', 't', 'o', 'r'].len() == 9);
        assert(raw != seq!['i', 'n', 's', 'p', 'e', 'c', 't', 'o', 'r']);
        assert(seq!['c', 'o', 'n', 's', 'o', 'l', 'e'].len() == 7);
        assert(raw != seq!['c', 'o', 'n', 's', 'o', 'l', 'e']);
    }
    if raw == seq!['c', 'o', 'n', 's', 'o', 'l', 'e'] {
        assert(raw[0] == 'c' && raw[1] == 'o' && raw[2] == 'n' && raw[3] == 's' && raw[4] == 'o' && raw[5] == 'l' && raw[6] == 'e');
        assert(seq!['g', 'l', 'o', 'b', 'a', 'l', '-', 'n', 'a', 'v', 'i', 'g', 'a', 't', 'i', 'o', 'n'].len() == 17);
        assert(raw != seq!['g', 'l', 'o', 'b', 'a', 'l', '-', 'n', 'a', 'v', 'i', 'g', 'a', 't', 'i', 'o', 'n']);
        assert(seq!['g', 'l', 'o', 'b', 'a', 'l', 'n', 'a', 'v', 'i', 'g', 'a', 't', 'i', 'o', 'n'].len() == 16);
        assert(raw != seq!['g', 'l', 'o', 'b', 'a', 'l', 'n', 'a', 'v', 'i', 'g', 'a', 't', 'i', 'o', 'n']);
        assert(seq!['g', 'l', 'o', 'b', 'a', 'l'].len() == 6);
        assert(raw != seq!['g', 'l', 'o', 'b', 'a', 'l']);
        assert(seq!['s', 'e', 'c', 't', 'i', 'o', 'n', '-', 'n', 'a', 'v', 'i', 'g', 'a', 't', 'i', 'o', 'n'].len() == 18);
        assert(raw != seq!['s', 'e', 'c', 't', 'i', 'o', 'n', '-', 'n', 'a', 'v', 'i', 'g', 'a', 't', 'i', 'o', 'n']);
        assert(seq!['s', 'e', 'c', 't', 'i', 'o', 'n', 'n', 'a', 'v', 'i', 'g', 'a', 't', 'i', 'o', 'n'].len() == 17);
        assert(raw != seq!['s', 'e', 'c', 't', 'i', 'o', 'n', 'n', 'a', 'v', 'i', 'g', 'a', 't', 'i', 'o', 'n']);
        assert(seq!['r', 'e', 's', 'o', 'u', 'r', 'c', 'e', 's'].len() == 9);
        assert(raw != seq!['r', 'e', 's', 'o', 'u', 'r', 'c', 'e', 's']);
        assert(seq!['s', 'i', 'd', 'e', 'b', 'a', 'r'][0] == 's');
        assert(raw != seq!['s', 'i', 'd', 'e', 'b', 'a', 'r']);
        assert(seq!['f', 'i', 'l', 'e', 's'].len() == 5);
        assert(raw != seq!['f', 'i', 'l', 'e', 's']);
        assert(seq!['p', 'r', 'i', 'm', 'a', 'r', 'y', '-', 't', 'o', 'o', 'l', 'b', 'a', 'r'].len() == 15);
        assert(raw != seq!['p', 'r', 'i', 'm', 'a', 'r', 'y', '-', 't', 'o', 'o', 'l', 'b', 'a', 'r']);
        assert(seq!['p', 'r', 'i', 'm', 'a', 'r', 'y', 't', 'o', 'o', 'l', 'b', 'a', 'r'].len() == 14);
        assert(raw != seq!['p', 'r', 'i', 'm', 'a', 'r', 'y', 't', 'o', 'o', 'l', 'b', 'a', 'r']);
        assert(seq!['t', 'o', 'o', 'l', 'b', 'a', 'r'][0] == 't');
        assert(raw != seq!['t', 'o', 'o', 'l', 'b', 'a', 'r']);
        assert(seq!['p', 'r', 'i', 'm', 'a', 'r', 'y'][0] == 'p');
        assert(raw != seq!['p', 'r', 'i', 'm', 'a', 'r', 'y']);
        assert(seq!['m', 'a', 'i', 'n'].len() == 4);
        assert(raw != seq!['m', 'a', 'i', 'n']);
        assert(seq!['i', 'n', 's', 'p', 'e', 'c', 't', 'o', 'r'].len() == 9);
        assert(raw != seq!['i', 'n', 's', 'p', 'e', 'c', 't', 'o', 'r']);
        assert(seq!['d', 'i', 'a', 'g', 'n', 'o', 's', 't', 'i', 'c', 's'].len() == 11);
        assert(raw != seq!['d', 'i', 'a', 'g', 'n', 'o', 's', 't', 'i', 'c', 's']);
    }
}


} // verus!
