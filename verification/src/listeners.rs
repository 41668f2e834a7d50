//! The set of DOM/Vue event names a node subscribes to, kept in the sorted
//! order of string comparison.
use vstd::prelude::*;

use crate::text::chars_of;

verus! {

/// Lexicographic order of char sequences by code point, as `str` compares.
pub open spec fn chars_less(a: Seq<char>, b: Seq<char>) -> bool
    decreases a.len(),
{
    if a.len() == 0 {
        b.len() > 0
    } else if b.len() == 0 {
        false
    } else if (a[0] as u32) < (b[0] as u32) {
        true
    } else if (a[0] as u32) > (b[0] as u32) {
        false
    } else {
        chars_less(a.drop_first(), b.drop_first())
    }
}

pub proof fn lemma_chars_less_irreflexive(a: Seq<char>)
    ensures
        !chars_less(a, a),
    decreases a.len(),
{
    if a.len() > 0 {
        lemma_chars_less_irreflexive(a.drop_first());
    }
}

pub proof fn lemma_chars_less_total(a: Seq<char>, b: Seq<char>)
    ensures
        a == b || chars_less(a, b) || chars_less(b, a),
        !(chars_less(a, b) && chars_less(b, a)),
    decreases a.len(),
{
    if a.len() > 0 && b.len() > 0 {
        lemma_chars_less_total(a.drop_first(), b.drop_first());
        if a[0] == b[0] && a.drop_first() == b.drop_first() {
            assert(a =~= seq![a[0]] + a.drop_first());
            assert(b =~= seq![b[0]] + b.drop_first());
        }
        vstd::utf8::char_u32_cast(a[0], a[0] as u32);
        vstd::utf8::char_u32_cast(b[0], b[0] as u32);
    } else if a.len() == 0 && b.len() == 0 {
        assert(a =~= b);
    }
}

pub proof fn lemma_chars_less_transitive(a: Seq<char>, b: Seq<char>, c: Seq<char>)
    requires
        chars_less(a, b),
        chars_less(b, c),
    ensures
        chars_less(a, c),
    decreases a.len(),
{
    if a.len() > 0 && b.len() > 0 && c.len() > 0 {
        if a[0] as u32 == b[0] as u32 && b[0] as u32 == c[0] as u32 {
            lemma_chars_less_transitive(a.drop_first(), b.drop_first(), c.drop_first());
        }
    }
}

/// Strictly increasing: sorted and free of repeats.
pub open spec fn strictly_sorted(s: Seq<Seq<char>>) -> bool {
    forall|i: int, j: int| 0 <= i < j < s.len() ==> chars_less(#[trigger] s[i], #[trigger] s[j])
}

fn less_than(a: &[char], b: &[char]) -> (r: bool)
    ensures
        r == chars_less(a@, b@),
{
    let mut i: usize = 0;
    assert(a@.skip(0) =~= a@);
    assert(b@.skip(0) =~= b@);
    while i < a.len() && i < b.len()
        invariant
            i <= a@.len(),
            i <= b@.len(),
            chars_less(a@, b@) == chars_less(a@.skip(i as int), b@.skip(i as int)),
        decreases a.len() - i,
    {
        let x = a[i] as u32;
        let y = b[i] as u32;
        assert(a@.skip(i as int)[0] == a@[i as int]);
        assert(b@.skip(i as int)[0] == b@[i as int]);
        if x < y {
            return true;
        }
        if x > y {
            return false;
        }
        assert(a@.skip(i as int).drop_first() =~= a@.skip(i + 1));
        assert(b@.skip(i as int).drop_first() =~= b@.skip(i + 1));
        i = i + 1;
    }
    i == a.len() && i < b.len()
}

/// The names that a list of event strings holds, in its order.
pub open spec fn names_of(events: Seq<String>) -> Seq<Seq<char>> {
    events.map_values(|e: String| e@)
}

/// Subscribed event names. Capture and bubble paths stay on the route.
#[derive(Debug, PartialEq, Eq)]
pub struct EventListeners {
    events: Vec<String>,
}

impl Clone for EventListeners {
    fn clone(&self) -> (copy: Self)
        ensures
            copy.names() == self.names(),
    {
        proof {
            use_type_invariant(self);
        }
        let events = self.events.clone();
        assert(names_of(events@) =~= self.names()) by {
            assert forall|i: int| 0 <= i < events@.len() implies events@[i]@ == self.events@[i]@ by {
                assert(events@[i] == self.events@[i]);
            }
        }
        EventListeners { events }
    }
}

impl Default for EventListeners {
    fn default() -> (listeners: Self)
        ensures
            listeners.names() == Seq::<Seq<char>>::empty(),
    {
        EventListeners::new()
    }
}

impl EventListeners {
    /// The subscribed names, in increasing order.
    pub closed spec fn names(&self) -> Seq<Seq<char>> {
        names_of(self.events@)
    }

    /// The names are kept strictly increasing.
    #[verifier::type_invariant]
    closed spec fn wf(&self) -> bool {
        strictly_sorted(self.names())
    }

    pub open spec fn has(&self, event: Seq<char>) -> bool {
        self.names().contains(event)
    }

    pub fn new() -> (listeners: Self)
        ensures
            listeners.names() == Seq::<Seq<char>>::empty(),
    {
        let listeners = EventListeners { events: Vec::new() };
        assert(listeners.names() =~= Seq::<Seq<char>>::empty());
        listeners
    }

    /// The first position whose name is not below `event`.
    fn lower_bound(&self, event: &[char]) -> (p: usize)
        ensures
            p <= self.names().len(),
            forall|i: int| 0 <= i < p ==> chars_less(#[trigger] self.names()[i], event@),
            p < self.names().len() ==> !chars_less(self.names()[p as int], event@),
    {
        let mut p: usize = 0;
        while p < self.events.len()
            invariant
                p <= self.names().len(),
                self.names().len() == self.events@.len(),
                forall|i: int| 0 <= i < p ==> chars_less(#[trigger] self.names()[i], event@),
            decreases self.events.len() - p,
        {
            let here = chars_of(self.events[p].as_str());
            assert(here@ == self.names()[p as int]);
            if !less_than(here.as_slice(), event) {
                return p;
            }
            p = p + 1;
        }
        p
    }

    proof fn lemma_position(&self, p: int, event: Seq<char>)
        requires
            strictly_sorted(self.names()),
            0 <= p <= self.names().len(),
            forall|i: int| 0 <= i < p ==> chars_less(#[trigger] self.names()[i], event),
            p < self.names().len() ==> !chars_less(self.names()[p], event),
        ensures
            self.has(event) <==> (p < self.names().len() && self.names()[p] == event),
            p < self.names().len() && self.names()[p] != event ==> forall|j: int|
                p <= j < self.names().len() ==> chars_less(event, #[trigger] self.names()[j]),
    {
        let names = self.names();
        if self.has(event) {
            let k = choose|k: int| 0 <= k < names.len() && names[k] == event;
            if k < p {
                lemma_chars_less_irreflexive(event);
            }
            if k > p {
                assert(chars_less(names[p], names[k]));
                lemma_chars_less_total(names[p], event);
            }
        }
        if p < names.len() && names[p] != event {
            lemma_chars_less_total(names[p], event);
            assert forall|j: int| p <= j < names.len() implies chars_less(event, #[trigger] names[j]) by {
                if j > p {
                    assert(chars_less(names[p], names[j]));
                    lemma_chars_less_transitive(event, names[p], names[j]);
                }
            }
        }
    }

    /// Whether `event` is subscribed.
    pub fn contains(&self, event: &str) -> (r: bool)
        ensures
            r == self.has(event@),
    {
        proof {
            use_type_invariant(self);
        }
        let wanted = chars_of(event);
        let p = self.lower_bound(wanted.as_slice());
        proof {
            self.lemma_position(p as int, event@);
        }
        if p < self.events.len() {
            let here = chars_of(self.events[p].as_str());
            assert(here@ == self.names()[p as int]);
            crate::text::chars_eq(here.as_slice(), wanted.as_slice())
        } else {
            false
        }
    }

    /// The subscribed names in strictly increasing order, each once.
    pub fn iter(&self) -> (names: Vec<String>)
        ensures
            names_of(names@) == self.names(),
            strictly_sorted(names_of(names@)),
    {
        proof {
            use_type_invariant(self);
        }
        let names = self.events.clone();
        assert(names_of(names@) =~= self.names()) by {
            assert forall|i: int| 0 <= i < names@.len() implies names@[i]@ == self.events@[i]@ by {
                assert(names@[i] == self.events@[i]);
            }
        }
        names
    }

    pub fn is_empty(&self) -> (r: bool)
        ensures
            r == (self.names().len() == 0),
    {
        self.events.len() == 0
    }

    /// Subscribes (`enabled`) or unsubscribes `event`; other names are kept
    /// and the order stays increasing.
    pub fn set(&mut self, event: String, enabled: bool)
        ensures
            final(self).has(event@) == enabled,
            forall|other: Seq<char>| other != event@ ==> (#[trigger] final(self).has(other) == old(
                self,
            ).has(other)),
    {
        proof {
            use_type_invariant(&*self);
        }
        let wanted = chars_of(event.as_str());
        let p = self.lower_bound(wanted.as_slice());
        proof {
            self.lemma_position(p as int, event@);
        }
        let present = if p < self.events.len() {
            let here = chars_of(self.events[p].as_str());
            assert(here@ == self.names()[p as int]);
            crate::text::chars_eq(here.as_slice(), wanted.as_slice())
        } else {
            false
        };
        let ghost before = self.names();
        if enabled && !present {
            let mut events: Vec<String> = Vec::new();
            std::mem::swap(&mut events, &mut self.events);
            assert(names_of(events@) == before);
            let ghost key = event@;
            events.insert(p, event);
            let ghost after = names_of(events@);
            assert(after =~= before.insert(p as int, key));
            assert(strictly_sorted(after)) by {
                assert forall|i: int, j: int| 0 <= i < j < after.len() implies chars_less(
                    #[trigger] after[i],
                    #[trigger] after[j],
                ) by {
                    if j < p {
                        assert(chars_less(before[i], before[j]));
                    } else if j == p {
                        assert(chars_less(before[i], key));
                    } else if i < p {
                        assert(chars_less(before[i], before[j - 1]));
                    } else if i == p {
                        assert(chars_less(key, before[j - 1]));
                    } else {
                        assert(chars_less(before[i - 1], before[j - 1]));
                    }
                }
            }
            self.events = events;
            assert(self.names() == after);
            assert forall|other: Seq<char>| other != key implies #[trigger] self.has(other) == before.contains(other) by {
                if self.has(other) {
                    let k = choose|k: int| 0 <= k < after.len() && after[k] == other;
                    if k < p {
                        assert(before[k] == other);
                    } else if k > p {
                        assert(before[k - 1] == other);
                    }
                }
                if before.contains(other) {
                    let k = choose|k: int| 0 <= k < before.len() && before[k] == other;
                    if k < p {
                        assert(after[k] == other);
                    } else {
                        assert(after[k + 1] == other);
                    }
                }
            }
            assert(self.has(key)) by {
                assert(after[p as int] == key);
            }
        } else if !enabled && present {
            let mut events: Vec<String> = Vec::new();
            std::mem::swap(&mut events, &mut self.events);
            assert(names_of(events@) == before);
            events.remove(p);
            let ghost after = names_of(events@);
            assert(after =~= before.remove(p as int));
            assert(strictly_sorted(after)) by {
                assert forall|i: int, j: int| 0 <= i < j < after.len() implies chars_less(
                    #[trigger] after[i],
                    #[trigger] after[j],
                ) by {
                    if j < p {
                        assert(chars_less(before[i], before[j]));
                    } else if i < p {
                        assert(chars_less(before[i], before[j + 1]));
                    } else {
                        assert(chars_less(before[i + 1], before[j + 1]));
                    }
                }
            }
            self.events = events;
            assert(self.names() == after);
            assert forall|other: Seq<char>| other != event@ implies #[trigger] self.has(other) == before.contains(other) by {
                if self.has(other) {
                    let k = choose|k: int| 0 <= k < after.len() && after[k] == other;
                    if k < p {
                        assert(before[k] == other);
                    } else {
                        assert(before[k + 1] == other);
                    }
                }
                if before.contains(other) {
                    let k = choose|k: int| 0 <= k < before.len() && before[k] == other;
                    if k < p {
                        assert(after[k] == other);
                    } else if k > p {
                        assert(after[k - 1] == other);
                    }
                }
            }
            assert(!self.has(event@)) by {
                if self.has(event@) {
                    let k = choose|k: int| 0 <= k < after.len() && after[k] == event@;
                    if k < p {
                        assert(before[k] == event@);
                        assert(chars_less(before[k], before[p as int]));
                        lemma_chars_less_irreflexive(event@);
                    } else {
                        assert(before[k + 1] == event@);
                        assert(chars_less(before[p as int], before[k + 1]));
                        lemma_chars_less_irreflexive(event@);
                    }
                }
            }
        }
    }
}

} // verus!
