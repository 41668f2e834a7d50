//! A JSON value as a host attribute carries it, and the lookups that the
//! builtin decoders make in it: members found by name (exact first, then
//! ignoring ASCII case), text read from scalars, and arrays written either
//! as arrays or as objects keyed by index.
use vstd::prelude::*;

use crate::number_text::{parse_usize, parsed_integer};
use crate::text::{chars_eq, chars_eq_ignore_case, chars_of, eq_ignore_case};

verus! {

/// A parsed JSON value. A number keeps its JSON text; an object keeps its
/// members in the order the parsed object lists them.
#[derive(Debug, PartialEq)]
pub enum JsonValue {
    Null,
    Bool(bool),
    Number(String),
    Text(String),
    Array(Vec<JsonValue>),
    Object(Vec<(String, JsonValue)>),
}

/// The views of a list of names.
pub open spec fn strs(names: Seq<&str>) -> Seq<Seq<char>> {
    names.map_values(|n: &str| n@)
}

/// Position of the first member named exactly `name`.
pub open spec fn member_exact(members: Seq<(String, JsonValue)>, name: Seq<char>) -> Option<int>
    decreases members.len(),
{
    if members.len() == 0 {
        None
    } else if members[0].0@ == name {
        Some(0)
    } else {
        match member_exact(members.drop_first(), name) {
            Some(i) => Some(i + 1),
            None => None,
        }
    }
}

/// Position of the first member whose name equals `name` ignoring ASCII case.
pub open spec fn member_folded(members: Seq<(String, JsonValue)>, name: Seq<char>) -> Option<int>
    decreases members.len(),
{
    if members.len() == 0 {
        None
    } else if eq_ignore_case(members[0].0@, name) {
        Some(0)
    } else {
        match member_folded(members.drop_first(), name) {
            Some(i) => Some(i + 1),
            None => None,
        }
    }
}

/// The first of `names` that some member has exactly, as a member position.
pub open spec fn first_exact(members: Seq<(String, JsonValue)>, names: Seq<Seq<char>>) -> Option<int>
    decreases names.len(),
{
    if names.len() == 0 {
        None
    } else {
        match member_exact(members, names[0]) {
            Some(i) => Some(i),
            None => first_exact(members, names.drop_first()),
        }
    }
}

/// The first of `names` that some member has ignoring ASCII case.
pub open spec fn first_folded(members: Seq<(String, JsonValue)>, names: Seq<Seq<char>>) -> Option<
    int,
>
    decreases names.len(),
{
    if names.len() == 0 {
        None
    } else {
        match member_folded(members, names[0]) {
            Some(i) => Some(i),
            None => first_folded(members, names.drop_first()),
        }
    }
}

/// The member that a lookup of `names` finds: any exact name first, in the
/// order of `names`, then any name ignoring ASCII case.
pub open spec fn member_lookup(members: Seq<(String, JsonValue)>, names: Seq<Seq<char>>) -> Option<
    int,
> {
    match first_exact(members, names) {
        Some(i) => Some(i),
        None => first_folded(members, names),
    }
}

/// The value of the member of object `value` that `names` finds.
pub open spec fn object_get(value: JsonValue, names: Seq<Seq<char>>) -> Option<JsonValue> {
    match value {
        JsonValue::Object(members) => match member_lookup(members@, names) {
            Some(i) => Some(members@[i].1),
            None => None,
        },
        _ => None,
    }
}

/// The text of a scalar: a string as written, a number's JSON text,
/// `true` or `false`; other values have none.
pub open spec fn json_text(value: JsonValue) -> Seq<char> {
    match value {
        JsonValue::Text(s) => s@,
        JsonValue::Number(t) => t@,
        JsonValue::Bool(b) => if b {
            "true"@
        } else {
            "false"@
        },
        _ => Seq::empty(),
    }
}

/// The text of the member that `names` finds, or empty text.
pub open spec fn object_text(value: JsonValue, names: Seq<Seq<char>>) -> Seq<char> {
    match object_get(value, names) {
        Some(v) => json_text(v),
        None => Seq::empty(),
    }
}

/// A member name read as an array index (`usize` syntax).
pub open spec fn index_of_name(name: Seq<char>) -> Option<int> {
    parsed_integer(name, 0, usize::MAX as int)
}

/// `s` with `(k, p)` inserted after the entries, counted from the end,
/// whose index is at most `k`: the step of a stable sort by index.
pub open spec fn insert_by_index(s: Seq<(int, int)>, k: int, p: int) -> Seq<(int, int)>
    decreases s.len(),
{
    if s.len() == 0 {
        seq![(k, p)]
    } else if s.last().0 <= k {
        s.push((k, p))
    } else {
        insert_by_index(s.drop_last(), k, p).push(s.last())
    }
}

/// The (index, position) of each member whose name is an index, stably
/// sorted by index.
pub open spec fn indexed_members(members: Seq<(String, JsonValue)>) -> Seq<(int, int)>
    decreases members.len(),
{
    if members.len() == 0 {
        Seq::empty()
    } else {
        let rest = indexed_members(members.drop_last());
        match index_of_name(members.last().0@) {
            Some(k) => insert_by_index(rest, k, members.len() - 1),
            None => rest,
        }
    }
}

/// The positions of the index-named members, in index order.
pub open spec fn indexed_positions(members: Seq<(String, JsonValue)>) -> Seq<int> {
    indexed_members(members).map_values(|e: (int, int)| e.1)
}

/// The items of a value read as an array: an array's items, an object's
/// index-named members in index order, else nothing.
pub open spec fn json_array(value: JsonValue) -> Seq<JsonValue> {
    match value {
        JsonValue::Array(items) => items@,
        JsonValue::Object(members) => indexed_positions(members@).map_values(
            |p: int| members@[p].1,
        ),
        _ => Seq::empty(),
    }
}

fn find_exact(members: &Vec<(String, JsonValue)>, name: &str) -> (r: Option<usize>)
    ensures
        index_view(r) == member_exact(members@, name@),
        r matches Some(i) ==> i < members@.len(),
{
    let wanted = chars_of(name);
    let mut i: usize = 0;
    assert(members@.skip(0) =~= members@);
    while i < members.len()
        invariant
            i <= members@.len(),
            wanted@ == name@,
            member_exact(members@, name@) == shifted(member_exact(members@.skip(i as int), name@), i as int),
        decreases members.len() - i,
    {
        assert(members@.skip(i as int)[0] == members@[i as int]);
        assert(members@.skip(i as int).drop_first() =~= members@.skip(i + 1));
        let here = chars_of(members[i].0.as_str());
        if chars_eq(here.as_slice(), wanted.as_slice()) {
            return Some(i);
        }
        i = i + 1;
    }
    assert(members@.skip(i as int).len() == 0);
    None
}

fn find_folded(members: &Vec<(String, JsonValue)>, name: &str) -> (r: Option<usize>)
    ensures
        index_view(r) == member_folded(members@, name@),
        r matches Some(i) ==> i < members@.len(),
{
    let wanted = chars_of(name);
    let mut i: usize = 0;
    assert(members@.skip(0) =~= members@);
    while i < members.len()
        invariant
            i <= members@.len(),
            wanted@ == name@,
            member_folded(members@, name@) == shifted(member_folded(members@.skip(i as int), name@), i as int),
        decreases members.len() - i,
    {
        assert(members@.skip(i as int)[0] == members@[i as int]);
        assert(members@.skip(i as int).drop_first() =~= members@.skip(i + 1));
        let here = chars_of(members[i].0.as_str());
        if chars_eq_ignore_case(here.as_slice(), wanted.as_slice()) {
            return Some(i);
        }
        i = i + 1;
    }
    assert(members@.skip(i as int).len() == 0);
    None
}

pub open spec fn index_view(i: Option<usize>) -> Option<int> {
    match i {
        Some(j) => Some(j as int),
        None => None,
    }
}

/// A position found in a suffix, moved to the whole sequence.
pub open spec fn shifted(i: Option<int>, by: int) -> Option<int> {
    match i {
        Some(j) => Some(j + by),
        None => None,
    }
}

proof fn lemma_member_exact_range(members: Seq<(String, JsonValue)>, name: Seq<char>)
    ensures
        member_exact(members, name) matches Some(i) ==> 0 <= i < members.len(),
    decreases members.len(),
{
    if members.len() > 0 {
        lemma_member_exact_range(members.drop_first(), name);
    }
}

proof fn lemma_member_folded_range(members: Seq<(String, JsonValue)>, name: Seq<char>)
    ensures
        member_folded(members, name) matches Some(i) ==> 0 <= i < members.len(),
    decreases members.len(),
{
    if members.len() > 0 {
        lemma_member_folded_range(members.drop_first(), name);
    }
}

proof fn lemma_first_range(members: Seq<(String, JsonValue)>, names: Seq<Seq<char>>)
    ensures
        first_exact(members, names) matches Some(i) ==> 0 <= i < members.len(),
        first_folded(members, names) matches Some(i) ==> 0 <= i < members.len(),
    decreases names.len(),
{
    if names.len() > 0 {
        lemma_member_exact_range(members, names[0]);
        lemma_member_folded_range(members, names[0]);
        lemma_first_range(members, names.drop_first());
    }
}

/// A found member lies within the object.
pub proof fn lemma_lookup_in_range(members: Seq<(String, JsonValue)>, names: Seq<Seq<char>>)
    ensures
        member_lookup(members, names) matches Some(i) ==> 0 <= i < members.len(),
{
    lemma_first_range(members, names);
}

proof fn lemma_member_exact_spec(members: Seq<(String, JsonValue)>, name: Seq<char>)
    ensures
        member_exact(members, name) matches Some(i) ==> 0 <= i < members.len() && members[i].0@
            == name && forall|j: int| 0 <= j < i ==> members[j].0@ != name,
        member_exact(members, name) is None ==> forall|j: int|
            0 <= j < members.len() ==> (#[trigger] members[j]).0@ != name,
    decreases members.len(),
{
    if members.len() > 0 {
        let rest = members.drop_first();
        lemma_member_exact_spec(rest, name);
        assert forall|j: int| 0 < j < members.len() implies members[j] == rest[j - 1] by {}
    }
}

proof fn lemma_member_folded_spec(members: Seq<(String, JsonValue)>, name: Seq<char>)
    ensures
        member_folded(members, name) matches Some(i) ==> 0 <= i < members.len() && eq_ignore_case(
            members[i].0@,
            name,
        ) && forall|j: int| 0 <= j < i ==> !eq_ignore_case(members[j].0@, name),
        member_folded(members, name) is None ==> forall|j: int|
            0 <= j < members.len() ==> !eq_ignore_case((#[trigger] members[j]).0@, name),
    decreases members.len(),
{
    if members.len() > 0 {
        let rest = members.drop_first();
        lemma_member_folded_spec(rest, name);
        assert forall|j: int| 0 < j < members.len() implies members[j] == rest[j - 1] by {}
    }
}

proof fn lemma_first_exact_spec(members: Seq<(String, JsonValue)>, names: Seq<Seq<char>>)
    ensures
        first_exact(members, names) matches Some(i) ==> 0 <= i < members.len() && exists|n: Seq<char>|
            names.contains(n) && members[i].0@ == n,
        first_exact(members, names) is None ==> forall|j: int, n: Seq<char>|
            #![trigger members[j], names.contains(n)]
            0 <= j < members.len() && names.contains(n) ==> members[j].0@ != n,
    decreases names.len(),
{
    if names.len() > 0 {
        lemma_member_exact_spec(members, names[0]);
        lemma_first_exact_spec(members, names.drop_first());
        if member_exact(members, names[0]) is None {
            match first_exact(members, names.drop_first()) {
                Some(i) => {
                    let n = choose|n: Seq<char>| names.drop_first().contains(n) && members[i].0@ == n;
                    let k = choose|k: int| 0 <= k < names.drop_first().len() && names.drop_first()[k] == n;
                    assert(names[k + 1] == n);
                    assert(names.contains(n));
                },
                None => {
                    assert forall|j: int, n: Seq<char>|
            #![trigger members[j], names.contains(n)]
                        0 <= j < members.len() && names.contains(n) implies members[j].0@ != n by {
                        let k = choose|k: int| 0 <= k < names.len() && names[k] == n;
                        if k > 0 {
                            assert(names.drop_first()[k - 1] == n);
                            assert(names.drop_first().contains(n));
                        } else {
                            assert(members[j] == members[j]);
                        }
                    }
                },
            }
        } else {
            assert(names[0] == names[0]);
            assert(names.contains(names[0]));
        }
    }
}

proof fn lemma_first_folded_spec(members: Seq<(String, JsonValue)>, names: Seq<Seq<char>>)
    ensures
        first_folded(members, names) matches Some(i) ==> 0 <= i < members.len() && exists|n: Seq<char>|
            names.contains(n) && eq_ignore_case(members[i].0@, n),
        first_folded(members, names) is None ==> forall|j: int, n: Seq<char>|
            #![trigger members[j], names.contains(n)]
            0 <= j < members.len() && names.contains(n) ==> !eq_ignore_case(
                members[j].0@,
                n,
            ),
    decreases names.len(),
{
    if names.len() > 0 {
        lemma_member_folded_spec(members, names[0]);
        lemma_first_folded_spec(members, names.drop_first());
        if member_folded(members, names[0]) is None {
            match first_folded(members, names.drop_first()) {
                Some(i) => {
                    let n = choose|n: Seq<char>|
                        names.drop_first().contains(n) && eq_ignore_case(members[i].0@, n);
                    let k = choose|k: int| 0 <= k < names.drop_first().len() && names.drop_first()[k] == n;
                    assert(names[k + 1] == n);
                    assert(names.contains(n));
                },
                None => {
                    assert forall|j: int, n: Seq<char>|
            #![trigger members[j], names.contains(n)]
                        0 <= j < members.len() && names.contains(n) implies !eq_ignore_case(
                        members[j].0@,
                        n,
                    ) by {
                        let k = choose|k: int| 0 <= k < names.len() && names[k] == n;
                        if k > 0 {
                            assert(names.drop_first()[k - 1] == n);
                            assert(names.drop_first().contains(n));
                        } else {
                            assert(members[j] == members[j]);
                        }
                    }
                },
            }
        } else {
            assert(names.contains(names[0]));
        }
    }
}

/// A lookup by `names` finds a member whose name is one of `names`,
/// preferring one named exactly (the first such name in `names` order, its
/// first member) over one named only up to ASCII case, and it finds none
/// only when no member's name is one of `names` even up to case.
pub proof fn lookup_finds_a_named_member(members: Seq<(String, JsonValue)>, names: Seq<Seq<char>>)
    ensures
        member_lookup(members, names) matches Some(i) ==> 0 <= i < members.len() && exists|
            n: Seq<char>,
        | names.contains(n) && eq_ignore_case(members[i].0@, n),
        (exists|j: int, n: Seq<char>|
            #![trigger members[j], names.contains(n)]
            0 <= j < members.len() && names.contains(n) && members[j].0@ == n) ==> (
        member_lookup(members, names) matches Some(i) && exists|n: Seq<char>|
            names.contains(n) && members[i].0@ == n),
        member_lookup(members, names) is None ==> forall|j: int, n: Seq<char>|
            #![trigger members[j], names.contains(n)]
            0 <= j < members.len() && names.contains(n) ==> !eq_ignore_case(
                members[j].0@,
                n,
            ),
        names.len() > 0 && member_exact(members, names[0]) is Some ==> member_lookup(members, names)
            == member_exact(members, names[0]),
{
    lemma_first_exact_spec(members, names);
    lemma_first_folded_spec(members, names);
    match first_exact(members, names) {
        Some(i) => {
            let n = choose|n: Seq<char>| names.contains(n) && members[i].0@ == n;
            assert(eq_ignore_case(members[i].0@, n));
        },
        None => {},
    }
}

/// The position of the member of `members` that `names` finds.
pub fn lookup_member(members: &Vec<(String, JsonValue)>, names: &[&str]) -> (r: Option<usize>)
    ensures
        index_view(r) == member_lookup(members@, strs(names@)),
        r matches Some(i) ==> i < members@.len(),
{
    proof {
        lemma_lookup_in_range(members@, strs(names@));
    }
    let mut k: usize = 0;
    assert(strs(names@).skip(0) =~= strs(names@));
    while k < names.len()
        invariant
            k <= names@.len(),
            first_exact(members@, strs(names@)) == first_exact(members@, strs(names@).skip(k as int)),
        decreases names.len() - k,
    {
        let ghost rest = strs(names@).skip(k as int);
        assert(rest[0] == names@[k as int]@);
        assert(rest.drop_first() =~= strs(names@).skip(k + 1));
        match find_exact(members, names[k]) {
            Some(i) => {
                return Some(i);
            },
            None => {},
        }
        k = k + 1;
    }
    let mut k: usize = 0;
    while k < names.len()
        invariant
            k <= names@.len(),
            first_exact(members@, strs(names@)) is None,
            first_folded(members@, strs(names@)) == first_folded(members@, strs(names@).skip(k as int)),
        decreases names.len() - k,
    {
        let ghost rest = strs(names@).skip(k as int);
        assert(rest[0] == names@[k as int]@);
        assert(rest.drop_first() =~= strs(names@).skip(k + 1));
        match find_folded(members, names[k]) {
            Some(i) => {
                return Some(i);
            },
            None => {},
        }
        k = k + 1;
    }
    None
}

/// The value of the member of `value` that `names` finds.
pub fn get_member<'a>(value: &'a JsonValue, names: &[&str]) -> (r: Option<&'a JsonValue>)
    ensures
        r matches Some(v) ==> object_get(*value, strs(names@)) == Some(*v),
        r is None ==> object_get(*value, strs(names@)) is None,
{
    match value {
        JsonValue::Object(members) => match lookup_member(members, names) {
            Some(i) => Some(&members[i].1),
            None => None,
        },
        _ => None,
    }
}

/// The text of a scalar value.
pub fn text_of(value: &JsonValue) -> (r: Vec<char>)
    ensures
        r@ == json_text(*value),
{
    match value {
        JsonValue::Text(s) => chars_of(s.as_str()),
        JsonValue::Number(t) => chars_of(t.as_str()),
        JsonValue::Bool(b) => if *b {
            chars_of("true")
        } else {
            chars_of("false")
        },
        _ => Vec::new(),
    }
}

/// The text of the member of `value` that `names` finds, or empty text.
pub fn member_text(value: &JsonValue, names: &[&str]) -> (r: Vec<char>)
    ensures
        r@ == object_text(*value, strs(names@)),
{
    match get_member(value, names) {
        Some(v) => text_of(v),
        None => Vec::new(),
    }
}

proof fn lemma_insert_at(s: Seq<(int, int)>, k: int, v: int, p: int)
    requires
        0 <= p <= s.len(),
        forall|j: int| p <= j < s.len() ==> s[j].0 > k,
        p > 0 ==> s[p - 1].0 <= k,
    ensures
        insert_by_index(s, k, v) == s.take(p).push((k, v)) + s.skip(p),
    decreases s.len(),
{
    if s.len() == 0 {
        assert(s.take(p).push((k, v)) + s.skip(p) =~= seq![(k, v)]);
    } else if p == s.len() {
        assert(s.take(p) =~= s);
        assert(s.take(p).push((k, v)) + s.skip(p) =~= s.push((k, v)));
    } else {
        lemma_insert_at(s.drop_last(), k, v, p);
        assert(s.drop_last().take(p) =~= s.take(p));
        assert(s.take(p).push((k, v)) + s.skip(p) =~= (s.drop_last().take(p).push((k, v))
            + s.drop_last().skip(p)).push(s.last()));
    }
}

/// The positions of the index-named members of `members`, in index order.
pub fn index_positions(members: &Vec<(String, JsonValue)>) -> (positions: Vec<usize>)
    ensures
        positions@.len() == indexed_positions(members@).len(),
        forall|m: int|
            0 <= m < positions@.len() ==> (#[trigger] positions@[m]) == indexed_positions(
                members@,
            )[m] && positions@[m] < members@.len(),
{
    let mut sorted: Vec<(usize, usize)> = Vec::new();
    let mut i: usize = 0;
    while i < members.len()
        invariant
            i <= members@.len(),
            sorted@.len() == indexed_members(members@.take(i as int)).len(),
            forall|j: int|
                0 <= j < sorted@.len() ==> (#[trigger] sorted@[j]).0 == indexed_members(
                    members@.take(i as int),
                )[j].0 && sorted@[j].1 == indexed_members(members@.take(i as int))[j].1
                    && sorted@[j].1 < i,
        decreases members.len() - i,
    {
        let ghost before = indexed_members(members@.take(i as int));
        assert(members@.take(i + 1).drop_last() =~= members@.take(i as int));
        assert(members@.take(i + 1).last() == members@[i as int]);
        let name = chars_of(members[i].0.as_str());
        match parse_usize(name.as_slice()) {
            Some(k) => {
                let mut p: usize = sorted.len();
                while p > 0 && sorted[p - 1].0 > k
                    invariant
                        p <= sorted@.len(),
                        sorted@.len() == before.len(),
                        forall|j: int|
                            0 <= j < sorted@.len() ==> (#[trigger] sorted@[j]).0 == before[j].0
                                && sorted@[j].1 == before[j].1,
                        forall|j: int| p <= j < before.len() ==> before[j].0 > k,
                    decreases p,
                {
                    p = p - 1;
                }
                proof {
                    if p > 0 {
                        assert(sorted@[p - 1].0 == before[p - 1].0);
                    }
                    lemma_insert_at(before, k as int, i as int, p as int);
                }
                let ghost old_sorted = sorted@;
                sorted.insert(p, (k, i));
                let ghost after = before.take(p as int).push((k as int, i as int)) + before.skip(
                    p as int,
                );
                assert forall|j: int| 0 <= j < sorted@.len() implies (#[trigger] sorted@[j]).0
                    == after[j].0 && sorted@[j].1 == after[j].1 && sorted@[j].1 < i + 1 by {
                    if j < p {
                        assert(sorted@[j] == old_sorted[j]);
                    } else if j > p {
                        assert(sorted@[j] == old_sorted[j - 1]);
                    }
                }
            },
            None => {},
        }
        i = i + 1;
    }
    assert(members@.take(members@.len() as int) =~= members@);
    let mut positions: Vec<usize> = Vec::new();
    let mut j: usize = 0;
    while j < sorted.len()
        invariant
            j <= sorted@.len(),
            sorted@.len() == indexed_members(members@).len(),
            forall|m: int|
                0 <= m < sorted@.len() ==> (#[trigger] sorted@[m]).1 == indexed_members(
                    members@,
                )[m].1 && sorted@[m].1 < members@.len(),
            positions@.len() == j,
            forall|m: int|
                0 <= m < j ==> positions@[m] == indexed_members(members@)[m].1 && positions@[m]
                    < members@.len(),
        decreases sorted.len() - j,
    {
        positions.push(sorted[j].1);
        j = j + 1;
    }
    positions
}

/// The items of `value` read as an array.
pub fn array_items(value: &JsonValue) -> (r: Vec<&JsonValue>)
    ensures
        r@.len() == json_array(*value).len(),
        forall|i: int| 0 <= i < r@.len() ==> *r@[i] == json_array(*value)[i],
{
    match value {
        JsonValue::Array(items) => {
            let mut r: Vec<&JsonValue> = Vec::new();
            let mut i: usize = 0;
            while i < items.len()
                invariant
                    i <= items@.len(),
                    r@.len() == i,
                    forall|j: int| 0 <= j < i ==> *r@[j] == items@[j],
                decreases items.len() - i,
            {
                r.push(&items[i]);
                i = i + 1;
            }
            r
        },
        JsonValue::Object(members) => {
            let positions = index_positions(members);
            let ghost order = indexed_positions(members@);
            let mut r: Vec<&JsonValue> = Vec::new();
            let mut j: usize = 0;
            while j < positions.len()
                invariant
                    j <= positions@.len(),
                    positions@.len() == order.len(),
                    forall|m: int|
                        0 <= m < positions@.len() ==> (#[trigger] positions@[m]) == order[m]
                            && positions@[m] < members@.len(),
                    r@.len() == j,
                    forall|m: int| 0 <= m < j ==> *r@[m] == members@[order[m]].1,
                decreases positions.len() - j,
            {
                r.push(&members[positions[j]].1);
                j = j + 1;
            }
            r
        },
        _ => Vec::new(),
    }
}

} // verus!
