use core::cmp::Ordering;
use std::hash::DefaultHasher;
use std::hash::Hasher;
use vstd::prelude::*;

use vstd::bytes::spec_u64_to_le_bytes;
use vstd::endian::{endianness, Endian};
use vstd::std_specs::cmp::PartialOrdSpec;
use vstd::std_specs::hash::DefaultHasherAdditionalSpecFns;

verus! {

/// Stable, non-zero identity of one retained UI node.
#[derive(Debug, Clone, Copy, PartialEq, Eq, Hash, Structural)]
pub struct StableNodeId {
    value: u64,
}

impl View for StableNodeId {
    type V = u64;

    closed spec fn view(&self) -> u64 {
        self.value
    }
}

impl StableNodeId {
    #[verifier::type_invariant]
    closed spec fn nonzero(self) -> bool {
        self.value != 0
    }

    /// `None` for zero, which names no node.
    pub fn new(value: u64) -> (id: Option<Self>)
        ensures
            id is Some <==> value != 0,
            id matches Some(node) ==> node@ == value,
    {
        if value == 0 {
            None
        } else {
            Some(StableNodeId { value })
        }
    }

    pub fn get(self) -> (value: u64)
        ensures
            value == self@,
            value != 0,
    {
        proof {
            use_type_invariant(&self);
        }
        self.value
    }
}

/// Stable identity for one logical animation. Starting the same ID again
/// replaces its active timeline. IDs compare as their raw values.
#[derive(Debug, Clone, Copy, PartialEq, Eq, Ord, Hash, Structural)]
pub struct AnimationId {
    value: u64,
}

/// How two raw values compare.
pub open spec fn raw_order(a: u64, b: u64) -> Option<Ordering> {
    if a < b {
        Some(Ordering::Less)
    } else if a == b {
        Some(Ordering::Equal)
    } else {
        Some(Ordering::Greater)
    }
}

impl PartialOrd for AnimationId {
    fn partial_cmp(&self, other: &Self) -> (r: Option<Ordering>) {
        if self.value < other.value {
            Some(Ordering::Less)
        } else if self.value == other.value {
            Some(Ordering::Equal)
        } else {
            Some(Ordering::Greater)
        }
    }
}

impl vstd::std_specs::cmp::PartialOrdSpecImpl for AnimationId {
    open spec fn obeys_partial_cmp_spec() -> bool {
        true
    }

    open spec fn partial_cmp_spec(&self, other: &Self) -> Option<Ordering> {
        raw_order(self@, other@)
    }
}

impl View for AnimationId {
    type V = u64;

    closed spec fn view(&self) -> u64 {
        self.value
    }
}

impl AnimationId {
    #[verifier::type_invariant]
    closed spec fn nonzero(self) -> bool {
        self.value != 0
    }

    /// `None` for zero: zero never names a timeline.
    pub fn new(value: u64) -> (id: Option<Self>)
        ensures
            id is Some <==> value != 0,
            id matches Some(animation) ==> animation@ == value,
    {
        if value == 0 {
            None
        } else {
            Some(AnimationId { value })
        }
    }

    pub fn get(self) -> (value: u64)
        ensures
            value == self@,
            value != 0,
    {
        proof {
            use_type_invariant(&self);
        }
        self.value
    }
}

/// Two animation IDs are the same ID exactly when their raw values are
/// equal, and they are ordered as their raw values are.
pub proof fn animation_id_compares_as_raw(a: AnimationId, b: AnimationId)
    ensures
        a == b <==> a@ == b@,
        AnimationId::obeys_partial_cmp_spec(),
        a.partial_cmp_spec(&b) == raw_order(a@, b@),
{
}

/// The bytes of `x` in the byte order of the machine that runs the code:
/// least significant first on a little-endian machine, most significant
/// first on a big-endian one.
pub open spec fn native_u64_bytes(x: u64) -> Seq<u8> {
    match endianness() {
        Endian::Little => spec_u64_to_le_bytes(x),
        Endian::Big => spec_u64_to_le_bytes(x).reverse(),
    }
}

/// `u64::to_ne_bytes`: the memory representation of `x` in native byte
/// order, which is its little-endian bytes on a little-endian machine and
/// its big-endian bytes (the same bytes reversed) on a big-endian one.
#[verifier::external_body]
fn native_bytes(x: u64) -> (bytes: Vec<u8>)
    ensures
        bytes@ == native_u64_bytes(x),
{
    x.to_ne_bytes().to_vec()
}

/// The digest that names the timeline of component kind `kind_tag` on node
/// `node`: the default hasher fed the two words in native byte order, as
/// its `write_u64` feeds them.
pub open spec fn component_animation_digest(kind_tag: u64, node: u64) -> u64 {
    DefaultHasher::spec_finish(seq![native_u64_bytes(kind_tag), native_u64_bytes(node)])
}

/// `id` is what [`component_animation_id`] gives for kind `kind_tag` on node
/// `node`: the digest when it is non-zero, else nothing.
pub open spec fn is_component_animation_id(kind_tag: u64, node: u64, id: Option<AnimationId>) -> bool {
    &&& id is Some <==> component_animation_digest(kind_tag, node) != 0
    &&& id matches Some(animation) ==> animation@ == component_animation_digest(kind_tag, node)
}

/// Derives the animation ID for one component-owned timeline from the
/// component's kind tag and its node: the default hasher's digest of the two
/// words, or `None` when that digest is zero.
pub fn component_animation_id(kind_tag: u64, target: StableNodeId) -> (id: Option<AnimationId>)
    ensures
        is_component_animation_id(kind_tag, target@, id),
{
    let mut hasher = DefaultHasher::new();
    let kind_bytes = native_bytes(kind_tag);
    hasher.write(kind_bytes.as_slice());
    let node_bytes = native_bytes(target.get());
    hasher.write(node_bytes.as_slice());
    assert(hasher@ =~= seq![native_u64_bytes(kind_tag), native_u64_bytes(target@)]);
    let digest = hasher.finish();
    AnimationId::new(digest)
}

/// Re-deriving the ID of the same kind on the same node always addresses
/// the same timeline: any two results for one kind/node pair are equal.
pub proof fn component_animation_id_is_stable(
    kind_tag: u64,
    node: u64,
    first: Option<AnimationId>,
    second: Option<AnimationId>,
)
    requires
        is_component_animation_id(kind_tag, node, first),
        is_component_animation_id(kind_tag, node, second),
    ensures
        first == second,
{
    match (first, second) {
        (Some(a), Some(b)) => {
            assert(a.value == b.value);
        },
        _ => {},
    }
}

} // verus!
