//! The tags by which lint rules are classified, and sets of them.

use vstd::prelude::*;

verus! {

/// What a lint rule is about.
#[derive(Clone, Copy, Debug, PartialEq, Eq, Structural)]
pub enum Tag {
    /// Rules about what must be present.
    Completeness,
    /// Rules about names.
    Naming,
    /// Rules about whitespace.
    Spacing,
    /// Rules about style.
    Style,
    /// Rules about clarity.
    Clarity,
    /// Rules about portability.
    Portability,
    /// Rules about correctness.
    Correctness,
    /// Rules about the order of things.
    Sorting,
    /// Rules about forms that the language has left behind.
    Deprecated,
    /// Rules about documentation.
    Documentation,
}

impl Tag {
    /// The place of the tag in a set: its position in the enumeration.
    pub open spec fn index(self) -> nat {
        match self {
            Tag::Completeness => 0,
            Tag::Naming => 1,
            Tag::Spacing => 2,
            Tag::Style => 3,
            Tag::Clarity => 4,
            Tag::Portability => 5,
            Tag::Correctness => 6,
            Tag::Sorting => 7,
            Tag::Deprecated => 8,
            Tag::Documentation => 9,
        }
    }

    /// The bit that stands for the tag in a set.
    fn bit(self) -> (bit: u32)
        ensures
            bit == 1u32 << (self.index() as u32),
            self.index() < 32,
    {
        let place: u32 = match self {
            Tag::Completeness => 0,
            Tag::Naming => 1,
            Tag::Spacing => 2,
            Tag::Style => 3,
            Tag::Clarity => 4,
            Tag::Portability => 5,
            Tag::Correctness => 6,
            Tag::Sorting => 7,
            Tag::Deprecated => 8,
            Tag::Documentation => 9,
        };
        1u32 << place
    }
}

/// Whether the bit at `place` is set in `bits`.
spec fn bit_is_set(bits: u32, place: nat) -> bool {
    bits & (1u32 << (place as u32)) != 0
}

/// A set of tags.
#[derive(Clone, Copy, Debug, PartialEq, Eq, Structural)]
pub struct TagSet {
    /// One bit for each tag that the set holds.
    bits: u32,
}

impl View for TagSet {
    type V = Set<Tag>;

    /// The tags that the set holds.
    closed spec fn view(&self) -> Set<Tag> {
        Set::new(|tag: Tag| bit_is_set(self.bits, tag.index()))
    }
}

impl TagSet {
    /// Makes the set of the tags listed. A tag listed twice is held once.
    pub fn new(tags: &[Tag]) -> (set: TagSet)
        ensures
            forall|tag: Tag| set@.contains(tag) <==> tags@.contains(tag),
    {
        let mut bits: u32 = 0;
        let mut next: usize = 0;
        proof {
            assert(forall|place: u32| place < 32 ==> 0u32 & (1u32 << place) == 0) by (bit_vector);
        }
        while next < tags.len()
            invariant
                next <= tags.len(),
                forall|tag: Tag|
                    bit_is_set(bits, tag.index()) <==> exists|at: int|
                        0 <= at < next && tags@[at] == tag,
            decreases tags.len() - next,
        {
            let bit: u32 = tags[next].bit();
            let ghost before: u32 = bits;
            bits = bits | bit;
            proof {
                let added = tags@[next as int];
                assert(forall|word: u32, own: u32, place: u32|
                    own < 32 && place < 32 ==> (((word | (1u32 << own)) & (1u32 << place) != 0)
                        <==> (word & (1u32 << place) != 0 || own == place))) by (bit_vector);
                assert forall|tag: Tag|
                    bit_is_set(bits, tag.index()) <==> exists|at: int|
                        0 <= at < next + 1 && tags@[at] == tag by {
                    assert(bit_is_set(bits, tag.index()) <==> (bit_is_set(before, tag.index())
                        || added.index() == tag.index()));
                    assert(added.index() == tag.index() <==> added == tag);
                    if added == tag {
                        assert(tags@[next as int] == tag);
                    }
                }
            }
            next += 1;
        }
        let set = TagSet { bits };
        proof {
            assert forall|tag: Tag| set@.contains(tag) <==> tags@.contains(tag) by {
                assert(set@.contains(tag) <==> bit_is_set(bits, tag.index()));
                if tags@.contains(tag) {
                    let at: int = choose|at: int| 0 <= at < tags@.len() && tags@[at] == tag;
                    assert(0 <= at < next && tags@[at] == tag);
                }
            }
        }
        set
    }

    /// Tells whether the set holds the tag.
    pub fn contains(&self, tag: Tag) -> (held: bool)
        ensures
            held == self@.contains(tag),
    {
        self.bits & tag.bit() != 0
    }
}

} // verus!
