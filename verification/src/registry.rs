//! Component identities and the tag table that resolves markup tags to them.
use vstd::prelude::*;

use crate::error::FrameworkError;
use crate::text::{
    chars_of, lower_chars, lower_seq, string_of, strip_repeated, trim_seq, trimmed_chars,
};

verus! {

/// The prefix that markup may put before a builtin tag (`nana-button`).
pub open spec fn nana_prefix() -> Seq<char> {
    seq!['n', 'a', 'n', 'a', '-']
}

/// `normalize_tag`: trimmed, every leading `nana-` removed, ASCII lower case.
pub open spec fn normalized_tag(tag: Seq<char>) -> Seq<char> {
    lower_seq(strip_repeated(trim_seq(tag), nana_prefix()))
}

/// A normalized tag holds no upper-case ASCII letter, and a tag written
/// behind a `nana-` prefix reads as the same tag as without it.
pub proof fn tag_normalization(tag: Seq<char>)
    ensures
        forall|i: int|
            0 <= i < normalized_tag(tag).len() ==> !('A' <= #[trigger] normalized_tag(tag)[i] <= 'Z'),
        trim_seq(tag) == tag ==> normalized_tag(nana_prefix() + tag) == normalized_tag(tag),
{
    let stripped = strip_repeated(trim_seq(tag), nana_prefix());
    assert forall|i: int| 0 <= i < normalized_tag(tag).len() implies !('A' <= #[trigger] normalized_tag(
        tag,
    )[i] <= 'Z') by {
        let c = stripped[i];
        assert(normalized_tag(tag)[i] == crate::text::ascii_lower(c));
        crate::text::ascii_case_folding(Seq::<char>::empty(), Seq::<char>::empty(), c);
    }
    if trim_seq(tag) == tag {
        let full = nana_prefix() + tag;
        crate::text::trim_cuts_only_end_white_space(tag);
        assert(full[0] == 'n');
        if tag.len() > 0 {
            assert(full.last() == tag.last());
            assert(!crate::text::is_white_space(tag.last()));
        } else {
            assert(full.last() == '-');
        }
        crate::text::lemma_trim_of_unpadded(full);
        assert(full.take(5) =~= nana_prefix());
        assert(full.skip(5) =~= tag);
    }
}

/// Stable component identity (`nana.button`, `app.bilibili-user-card`).
#[derive(Debug, PartialEq, Eq, Hash)]
pub struct ComponentTypeId {
    id: String,
}

impl View for ComponentTypeId {
    type V = Seq<char>;

    closed spec fn view(&self) -> Seq<char> {
        self.id@
    }
}

impl Clone for ComponentTypeId {
    fn clone(&self) -> (r: Self)
        ensures
            r@ == self@,
    {
        proof {
            use_type_invariant(self);
        }
        ComponentTypeId { id: self.id.clone() }
    }
}

impl ComponentTypeId {
    /// An identity is never blank and is already trimmed.
    #[verifier::type_invariant]
    closed spec fn canonical(self) -> bool {
        self.id@.len() > 0 && trim_seq(self.id@) == self.id@
    }

    /// The trimmed identity; blank input is rejected.
    pub fn new(id: &str) -> (r: Result<Self, FrameworkError>)
        ensures
            r is Ok <==> trim_seq(id@).len() > 0,
            r matches Ok(type_id) ==> type_id@ == trim_seq(id@),
            r matches Err(e) ==> e == FrameworkError::InvalidComponentType,
    {
        let trimmed = trimmed_chars(id);
        if trimmed.len() == 0 {
            return Err(FrameworkError::InvalidComponentType);
        }
        proof {
            crate::text::lemma_trim_idempotent(id@);
        }
        Ok(ComponentTypeId { id: string_of(trimmed.as_slice()) })
    }

    /// The identity's text: never blank, and already trimmed, so that
    /// [`ComponentTypeId::new`] on it gives back an equal identity.
    pub fn as_str(&self) -> (s: &str)
        ensures
            s@ == self@,
            s@.len() > 0,
            trim_seq(s@) == s@,
    {
        proof {
            use_type_invariant(self);
        }
        self.id.as_str()
    }

    /// The identity's text as an owned string.
    pub fn to_string(&self) -> (s: String)
        ensures
            s@ == self@,
    {
        self.id.clone()
    }
}

/// Removes every leading copy of `prefix` (non-empty) from `chars[start..]`
/// and returns where the rest begins.
pub(crate) fn skip_repeated_prefix(chars: &[char], prefix: &[char]) -> (start: usize)
    requires
        prefix@.len() > 0,
    ensures
        start <= chars@.len(),
        chars@.skip(start as int) == strip_repeated(chars@, prefix@),
{
    let mut start: usize = 0;
    assert(chars@.skip(0) =~= chars@);
    loop
        invariant
            start <= chars@.len(),
            prefix@.len() > 0,
            strip_repeated(chars@.skip(start as int), prefix@) == strip_repeated(chars@, prefix@),
        decreases chars@.len() - start,
    {
        let ghost rest = chars@.skip(start as int);
        if chars.len() - start < prefix.len() {
            return start;
        }
        let mut i: usize = 0;
        let mut matches = true;
        while i < prefix.len()
            invariant
                start + prefix.len() <= chars.len(),
                rest == chars@.skip(start as int),
                i <= prefix@.len(),
                matches == (forall|j: int| 0 <= j < i ==> chars@[start + j] == prefix@[j]),
            decreases prefix.len() - i,
        {
            if chars[start + i] != prefix[i] {
                matches = false;
            }
            i = i + 1;
        }
        if !matches {
            assert(rest.take(prefix@.len() as int) != prefix@) by {
                let j = choose|j: int| 0 <= j < prefix@.len() && chars@[start + j] != prefix@[j];
                assert(rest.take(prefix@.len() as int)[j] == chars@[start + j]);
            }
            return start;
        }
        assert(rest.take(prefix@.len() as int) =~= prefix@);
        assert(rest.skip(prefix@.len() as int) =~= chars@.skip(start + prefix@.len()));
        start = start + prefix.len();
    }
}

/// Canonical spelling of a markup tag: trimmed, without `nana-` prefixes,
/// ASCII lower case.
pub fn normalize_tag(tag: &str) -> (r: String)
    ensures
        r@ == normalized_tag(tag@),
{
    let trimmed = trimmed_chars(tag);
    let prefix: [char; 5] = ['n', 'a', 'n', 'a', '-'];
    assert(prefix@ =~= nana_prefix());
    let start = skip_repeated_prefix(trimmed.as_slice(), prefix.as_slice());
    let mut rest: Vec<char> = Vec::new();
    let mut i = start;
    while i < trimmed.len()
        invariant
            start <= i <= trimmed@.len(),
            rest@ == trimmed@.subrange(start as int, i as int),
        decreases trimmed.len() - i,
    {
        rest.push(trimmed[i]);
        assert(rest@ =~= trimmed@.subrange(start as int, i + 1));
        i = i + 1;
    }
    assert(rest@ =~= trimmed@.skip(start as int));
    let lowered = lower_chars(rest.as_slice());
    string_of(lowered.as_slice())
}

/// The tags of one registration, normalized, with blank results dropped.
pub open spec fn normalized_nonblank(tags: Seq<Seq<char>>) -> Seq<Seq<char>>
    decreases tags.len(),
{
    if tags.len() == 0 {
        Seq::empty()
    } else {
        let rest = normalized_nonblank(tags.drop_last());
        let tag = normalized_tag(tags.last());
        if tag.len() == 0 {
            rest
        } else {
            rest.push(tag)
        }
    }
}

pub fn normalized_tags(tags: &[&str]) -> (r: Vec<String>)
    ensures
        r@.map_values(|t: String| t@) == normalized_nonblank(tags@.map_values(|t: &str| t@)),
{
    let mut r: Vec<String> = Vec::new();
    let mut i: usize = 0;
    while i < tags.len()
        invariant
            i <= tags@.len(),
            r@.map_values(|t: String| t@) == normalized_nonblank(
                tags@.take(i as int).map_values(|t: &str| t@),
            ),
        decreases tags.len() - i,
    {
        let tag = normalize_tag(tags[i]);
        let ghost before = r@;
        assert(tags@.take(i + 1).map_values(|t: &str| t@).drop_last() =~= tags@.take(
            i as int,
        ).map_values(|t: &str| t@));
        if !tag.as_str().is_empty() {
            r.push(tag);
            assert(r@.map_values(|t: String| t@) =~= before.map_values(|t: String| t@).push(
                tag@,
            ));
        }
        i = i + 1;
    }
    assert(tags@.take(tags@.len() as int) =~= tags@);
    r
}

} // verus!

verus! {

/// First entry of `entries` whose tag is `tag`, as its type identity.
pub open spec fn lookup_tag(entries: Seq<(Seq<char>, Seq<char>)>, tag: Seq<char>) -> Option<
    Seq<char>,
>
    decreases entries.len(),
{
    if entries.len() == 0 {
        None
    } else if entries[0].0 == tag {
        Some(entries[0].1)
    } else {
        lookup_tag(entries.drop_first(), tag)
    }
}

/// First non-blank tag of `tags` that `entries` already maps.
pub open spec fn first_taken_tag(entries: Seq<(Seq<char>, Seq<char>)>, tags: Seq<Seq<char>>) -> Option<
    Seq<char>,
>
    decreases tags.len(),
{
    if tags.len() == 0 {
        None
    } else if tags[0].len() > 0 && lookup_tag(entries, tags[0]) is Some {
        Some(tags[0])
    } else {
        first_taken_tag(entries, tags.drop_first())
    }
}

pub proof fn lemma_untaken_tag(
    entries: Seq<(Seq<char>, Seq<char>)>,
    tags: Seq<Seq<char>>,
    tag: Seq<char>,
)
    requires
        first_taken_tag(entries, tags) is None,
        tags.contains(tag),
        tag.len() > 0,
    ensures
        lookup_tag(entries, tag) is None,
    decreases tags.len(),
{
    let i = choose|i: int| 0 <= i < tags.len() && tags[i] == tag;
    if i > 0 {
        assert(tags.drop_first()[i - 1] == tag);
        lemma_untaken_tag(entries, tags.drop_first(), tag);
    }
}

/// `entries` after mapping each non-blank tag of `tags` to `id`, in order; a
/// tag already present keeps its entry.
pub open spec fn with_tags(
    entries: Seq<(Seq<char>, Seq<char>)>,
    tags: Seq<Seq<char>>,
    id: Seq<char>,
) -> Seq<(Seq<char>, Seq<char>)>
    decreases tags.len(),
{
    if tags.len() == 0 {
        entries
    } else {
        let before = with_tags(entries, tags.drop_last(), id);
        let tag = tags.last();
        if tag.len() == 0 || lookup_tag(before, tag) is Some {
            before
        } else {
            before.push((tag, id))
        }
    }
}

pub proof fn lemma_lookup_push(
    entries: Seq<(Seq<char>, Seq<char>)>,
    entry: (Seq<char>, Seq<char>),
    tag: Seq<char>,
)
    ensures
        lookup_tag(entries.push(entry), tag) == (if lookup_tag(entries, tag) is Some {
            lookup_tag(entries, tag)
        } else if entry.0 == tag {
            Some(entry.1)
        } else {
            None
        }),
    decreases entries.len(),
{
    if entries.len() > 0 {
        assert(entries.push(entry)[0] == entries[0]);
        assert(entries.push(entry).drop_first() =~= entries.drop_first().push(entry));
        lemma_lookup_push(entries.drop_first(), entry, tag);
    } else {
        assert(entries.push(entry)[0] == entry);
        assert(entries.push(entry).drop_first() =~= entries);
    }
}

/// What `with_tags` maps each tag to.
pub proof fn lemma_with_tags_lookup(
    entries: Seq<(Seq<char>, Seq<char>)>,
    tags: Seq<Seq<char>>,
    id: Seq<char>,
    tag: Seq<char>,
)
    ensures
        lookup_tag(with_tags(entries, tags, id), tag) == (if lookup_tag(entries, tag) is Some {
            lookup_tag(entries, tag)
        } else if tag.len() > 0 && tags.contains(tag) {
            Some(id)
        } else {
            None
        }),
    decreases tags.len(),
{
    if tags.len() > 0 {
        let before = with_tags(entries, tags.drop_last(), id);
        lemma_with_tags_lookup(entries, tags.drop_last(), id, tag);
        let last = tags.last();
        if !(last.len() == 0 || lookup_tag(before, last) is Some) {
            lemma_lookup_push(before, (last, id), tag);
        }
        assert(tags.contains(tag) <==> (tags.drop_last().contains(tag) || last == tag)) by {
            if tags.contains(tag) {
                let i = choose|i: int| 0 <= i < tags.len() && tags[i] == tag;
                if i < tags.len() - 1 {
                    assert(tags.drop_last()[i] == tag);
                }
            }
            if tags.drop_last().contains(tag) {
                let i = choose|i: int| 0 <= i < tags.len() - 1 && tags.drop_last()[i] == tag;
                assert(tags[i] == tag);
            }
        }
    }
}

/// Registering a type together with tags that none of the registry's
/// existing tags conflict with makes every non-blank one of them resolve to
/// that type, and leaves every other tag resolving as before.
pub proof fn registered_tags_resolve_to_type(
    before: ComponentRegistry,
    after: ComponentRegistry,
    id: Seq<char>,
    tags: Seq<Seq<char>>,
    tag: Seq<char>,
)
    requires
        first_taken_tag(before.tag_entries(), tags) is None,
        after.tag_entries() == with_tags(before.tag_entries(), tags, id),
    ensures
        tag.len() > 0 && tags.contains(tag) ==> after.tag_target(tag) == Some(id),
        !(tag.len() > 0 && tags.contains(tag)) ==> after.tag_target(tag) == before.tag_target(tag),
{
    lemma_with_tags_lookup(before.tag_entries(), tags, id, tag);
    if tag.len() > 0 && tags.contains(tag) {
        lemma_untaken_tag(before.tag_entries(), tags, tag);
    }
}

/// A registry projection of one node, ready to commit.
#[derive(Debug, Clone)]
pub struct PreparedSemanticBinding {
    pub id: crate::ids::StableNodeId,
    pub type_id: ComponentTypeId,
    pub kind: crate::types::ComponentBindKind,
}

impl PreparedSemanticBinding {
    pub fn kind(&self) -> (kind: crate::types::ComponentBindKind)
        ensures
            kind == self.kind,
    {
        self.kind
    }
}

/// One tag mapping of a registry.
#[derive(Debug, Clone)]
struct TagEntry {
    tag: String,
    type_id: ComponentTypeId,
}

/// The table of registered component types and of the markup tags that
/// resolve to them.
#[derive(Debug, Clone, Default)]
pub struct ComponentRegistry {
    ids: Vec<ComponentTypeId>,
    tags: Vec<TagEntry>,
}

impl ComponentRegistry {
    /// Registered type identities, in registration order.
    pub closed spec fn type_ids(&self) -> Seq<Seq<char>> {
        self.ids@.map_values(|t: ComponentTypeId| t@)
    }

    /// Tag mappings, in registration order.
    pub closed spec fn tag_entries(&self) -> Seq<(Seq<char>, Seq<char>)> {
        self.tags@.map_values(|e: TagEntry| (e.tag@, e.type_id@))
    }

    /// What a normalized tag resolves to.
    pub open spec fn tag_target(&self, tag: Seq<char>) -> Option<Seq<char>> {
        lookup_tag(self.tag_entries(), tag)
    }

    pub open spec fn has_type(&self, id: Seq<char>) -> bool {
        self.type_ids().contains(id)
    }

    pub fn new() -> (r: Self)
        ensures
            r.type_ids() == Seq::<Seq<char>>::empty(),
            r.tag_entries() == Seq::<(Seq<char>, Seq<char>)>::empty(),
    {
        let r = ComponentRegistry { ids: Vec::new(), tags: Vec::new() };
        assert(r.type_ids() =~= Seq::<Seq<char>>::empty());
        assert(r.tag_entries() =~= Seq::<(Seq<char>, Seq<char>)>::empty());
        r
    }

    fn find_tag(&self, normalized: &[char]) -> (r: Option<usize>)
        ensures
            match r {
                Some(i) => i < self.tags@.len() && self.tag_target(normalized@) == Some(
                    self.tags@[i as int].type_id@,
                ),
                None => self.tag_target(normalized@) is None,
            },
    {
        let mut i: usize = 0;
        assert(self.tag_entries().skip(0) =~= self.tag_entries());
        while i < self.tags.len()
            invariant
                i <= self.tags@.len(),
                lookup_tag(self.tag_entries(), normalized@) == lookup_tag(
                    self.tag_entries().skip(i as int),
                    normalized@,
                ),
            decreases self.tags.len() - i,
        {
            let entry_chars = chars_of(self.tags[i].tag.as_str());
            let ghost rest = self.tag_entries().skip(i as int);
            assert(rest[0] == (self.tags@[i as int].tag@, self.tags@[i as int].type_id@));
            if crate::text::chars_eq(entry_chars.as_slice(), normalized) {
                return Some(i);
            }
            assert(rest.drop_first() =~= self.tag_entries().skip(i + 1));
            i = i + 1;
        }
        None
    }

    /// Resolves an already-normalized tag (see [`normalize_tag`]).
    pub fn resolve_normalized(&self, normalized_tag: &str) -> (r: Option<&ComponentTypeId>)
        ensures
            match r {
                Some(t) => self.tag_target(normalized_tag@) == Some(t@),
                None => self.tag_target(normalized_tag@) is None,
            },
    {
        let chars = chars_of(normalized_tag);
        match self.find_tag(chars.as_slice()) {
            Some(i) => Some(&self.tags[i].type_id),
            None => None,
        }
    }

    /// Resolves a markup tag after normalizing it.
    pub fn resolve_tag(&self, tag: &str) -> (r: Option<&ComponentTypeId>)
        ensures
            match r {
                Some(t) => self.tag_target(normalized_tag(tag@)) == Some(t@),
                None => self.tag_target(normalized_tag(tag@)) is None,
            },
    {
        let normalized = normalize_tag(tag);
        self.resolve_normalized(normalized.as_str())
    }

    /// Whether a type identity is registered.
    pub fn contains_type(&self, id: &ComponentTypeId) -> (r: bool)
        ensures
            r == self.has_type(id@),
    {
        let wanted = chars_of(id.as_str());
        let mut i: usize = 0;
        while i < self.ids.len()
            invariant
                i <= self.ids@.len(),
                wanted@ == id@,
                forall|j: int| 0 <= j < i ==> self.type_ids()[j] != id@,
            decreases self.ids.len() - i,
        {
            let here = chars_of(self.ids[i].as_str());
            assert(here@ == self.ids@[i as int]@);
            assert(self.type_ids()[i as int] == self.ids@[i as int]@);
            if crate::text::chars_eq(here.as_slice(), wanted.as_slice()) {
                assert(self.type_ids().contains(id@));
                return true;
            }
            i = i + 1;
        }
        false
    }

    /// Registers a type identity; a second registration of the same identity
    /// is refused and leaves the registry unchanged.
    pub fn insert(&mut self, id: ComponentTypeId) -> (r: Result<(), FrameworkError>)
        ensures
            r is Ok <==> !old(self).has_type(id@),
            r matches Err(e) ==> (e matches FrameworkError::DuplicateComponentType(name) && name@
                == id@),
            r is Ok ==> final(self).type_ids() == old(self).type_ids().push(id@),
            r is Err ==> final(self).type_ids() == old(self).type_ids(),
            final(self).tag_entries() == old(self).tag_entries(),
    {
        if self.contains_type(&id) {
            return Err(FrameworkError::DuplicateComponentType(string_of(chars_of(id.as_str()).as_slice())));
        }
        let ghost before = self.ids@;
        self.ids.push(id);
        assert(self.type_ids() =~= before.map_values(|t: ComponentTypeId| t@).push(id@));
        Ok(())
    }

    fn first_taken(&self, tags: &Vec<String>) -> (r: Option<usize>)
        ensures
            match r {
                Some(i) => i < tags@.len() && first_taken_tag(
                    self.tag_entries(),
                    tags@.map_values(|t: String| t@),
                ) == Some(tags@[i as int]@),
                None => first_taken_tag(self.tag_entries(), tags@.map_values(|t: String| t@))
                    is None,
            },
    {
        let ghost all = tags@.map_values(|t: String| t@);
        let mut i: usize = 0;
        assert(all.skip(0) =~= all);
        while i < tags.len()
            invariant
                i <= tags@.len(),
                all == tags@.map_values(|t: String| t@),
                first_taken_tag(self.tag_entries(), all) == first_taken_tag(
                    self.tag_entries(),
                    all.skip(i as int),
                ),
            decreases tags.len() - i,
        {
            let ghost rest = all.skip(i as int);
            assert(rest[0] == tags@[i as int]@);
            let chars = chars_of(tags[i].as_str());
            if chars.len() > 0 && self.find_tag(chars.as_slice()).is_some() {
                return Some(i);
            }
            assert(rest.drop_first() =~= all.skip(i + 1));
            i = i + 1;
        }
        None
    }

    /// Registers a type identity together with its markup tags. Blank tags
    /// are skipped; a tag that is already taken, or an identity that is
    /// already registered, is refused and leaves the registry unchanged.
    pub fn insert_with_tags(&mut self, id: ComponentTypeId, tags: Vec<String>) -> (r: Result<
        (),
        FrameworkError,
    >)
        ensures
            ({
                let names = tags@.map_values(|t: String| t@);
                let taken = first_taken_tag(old(self).tag_entries(), names);
                &&& r is Ok <==> (taken is None && !old(self).has_type(id@))
                &&& taken matches Some(tag) ==> (r matches Err(e) && e
                    matches FrameworkError::DuplicateComponentTag(name) && name@ == tag)
                &&& (taken is None && old(self).has_type(id@)) ==> (r matches Err(e) && e
                    matches FrameworkError::DuplicateComponentType(name) && name@ == id@)
                &&& r is Ok ==> final(self).type_ids() == old(self).type_ids().push(id@)
                &&& r is Ok ==> final(self).tag_entries() == with_tags(
                    old(self).tag_entries(),
                    names,
                    id@,
                )
                &&& r is Err ==> final(self).type_ids() == old(self).type_ids()
                &&& r is Err ==> final(self).tag_entries() == old(self).tag_entries()
            }),
    {
        let ghost names = tags@.map_values(|t: String| t@);
        if let Some(i) = self.first_taken(&tags) {
            return Err(FrameworkError::DuplicateComponentTag(string_of(chars_of(tags[i].as_str()).as_slice())));
        }
        let id_copy = id.clone();
        let inserted = self.insert(id);
        if inserted.is_err() {
            return inserted;
        }
        let ghost start = self.tag_entries();
        let mut i: usize = 0;
        while i < tags.len()
            invariant
                i <= tags@.len(),
                names == tags@.map_values(|t: String| t@),
                id_copy@ == id@,
                self.tag_entries() == with_tags(start, names.take(i as int), id@),
                self.type_ids() == old(self).type_ids().push(id@),
            decreases tags.len() - i,
        {
            assert(names.take(i + 1).drop_last() =~= names.take(i as int));
            assert(names.take(i + 1).last() == tags@[i as int]@);
            let chars = chars_of(tags[i].as_str());
            if chars.len() > 0 && self.find_tag(chars.as_slice()).is_none() {
                let ghost before = self.tags@;
                self.tags.push(TagEntry { tag: tags[i].clone(), type_id: id_copy.clone() });
                assert(self.tag_entries() =~= before.map_values(
                    |e: TagEntry| (e.tag@, e.type_id@),
                ).push((tags@[i as int]@, id@)));
            }
            i = i + 1;
        }
        assert(names.take(tags@.len() as int) =~= names);
        Ok(())
    }

    /// Whether some tag of `other` is already mapped here.
    pub open spec fn tags_overlap(&self, other: &ComponentRegistry) -> bool {
        exists|i: int|
            0 <= i < other.tag_entries().len() && #[trigger] self.tag_target(other.tag_entries()[i].0)
                is Some
    }

    /// Whether some type of `other` is already registered here.
    pub open spec fn types_overlap(&self, other: &ComponentRegistry) -> bool {
        exists|i: int| 0 <= i < other.type_ids().len() && #[trigger] self.has_type(other.type_ids()[i])
    }

    /// Merges another registry into this one. Refused, leaving this registry
    /// unchanged, when a tag of `other` is already mapped here (reported
    /// first) or a type of `other` is already registered here.
    pub fn extend(&mut self, other: ComponentRegistry) -> (r: Result<(), FrameworkError>)
        ensures
            r is Ok <==> !old(self).tags_overlap(&other) && !old(self).types_overlap(&other),
            old(self).tags_overlap(&other) ==> (r matches Err(e) && e
                matches FrameworkError::DuplicateComponentTag(tag) && old(self).tag_target(tag@)
                is Some && exists|i: int|
                0 <= i < other.tag_entries().len() && other.tag_entries()[i].0 == tag@),
            !old(self).tags_overlap(&other) && old(self).types_overlap(&other) ==> (r matches Err(e)
                && e matches FrameworkError::DuplicateComponentType(id) && old(self).has_type(id@)
                && other.type_ids().contains(id@)),
            r is Ok ==> final(self).type_ids() == old(self).type_ids() + other.type_ids(),
            r is Ok ==> final(self).tag_entries() == old(self).tag_entries() + other.tag_entries(),
            r is Err ==> *final(self) == *old(self),
    {
        let mut i: usize = 0;
        while i < other.tags.len()
            invariant
                i <= other.tags@.len(),
                forall|j: int| 0 <= j < i ==> #[trigger] self.tag_target(other.tag_entries()[j].0) is None,
            decreases other.tags.len() - i,
        {
            let tag = chars_of(other.tags[i].tag.as_str());
            assert(other.tag_entries()[i as int].0 == tag@);
            if self.find_tag(tag.as_slice()).is_some() {
                return Err(FrameworkError::DuplicateComponentTag(other.tags[i].tag.clone()));
            }
            i = i + 1;
        }
        let mut k: usize = 0;
        while k < other.ids.len()
            invariant
                k <= other.ids@.len(),
                forall|j: int| 0 <= j < k ==> !#[trigger] self.has_type(other.type_ids()[j]),
                forall|j: int|
                    0 <= j < other.tags@.len() ==> #[trigger] self.tag_target(
                        other.tag_entries()[j].0,
                    ) is None,
            decreases other.ids.len() - k,
        {
            assert(other.type_ids()[k as int] == other.ids@[k as int]@);
            if self.contains_type(&other.ids[k]) {
                proof {
                    assert(other.type_ids().contains(other.ids@[k as int]@));
                }
                return Err(FrameworkError::DuplicateComponentType(
                    string_of(chars_of(other.ids[k].as_str()).as_slice()),
                ));
            }
            k = k + 1;
        }
        let ghost before_ids = self.type_ids();
        let ghost before_tags = self.tag_entries();
        let ComponentRegistry { ids: mut other_ids, tags: mut other_tags } = other;
        let ghost added_ids = other_ids@.map_values(|t: ComponentTypeId| t@);
        let ghost added_tags = other_tags@.map_values(|e: TagEntry| (e.tag@, e.type_id@));
        self.ids.append(&mut other_ids);
        self.tags.append(&mut other_tags);
        assert(self.type_ids() =~= before_ids + added_ids);
        assert(self.tag_entries() =~= before_tags + added_tags);
        Ok(())
    }
}

} // verus!
