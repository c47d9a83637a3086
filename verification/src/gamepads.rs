//! The set of gamepads that are plugged in at the streaming host.

use vstd::prelude::*;

verus! {

/// How many gamepads the streaming host can see.
pub const MAX_GAMEPADS: u8 = 16;

/// The mask with only the bit of gamepad `id` set.
pub open spec fn gamepad_bit(id: u8) -> u16
    recommends
        id < MAX_GAMEPADS,
{
    1u16 << (id as u16)
}

/// A set of gamepads as a mask: bit `i` is set while gamepad `i` is in it.
#[derive(Clone, Copy, Debug, PartialEq, Eq, Structural)]
pub struct ActiveGamepads {
    pub bits: u16,
}

impl View for ActiveGamepads {
    type V = Set<u8>;

    /// The numbers of the gamepads in the set.
    open spec fn view(&self) -> Set<u8> {
        Set::new(|id: u8| id < MAX_GAMEPADS && self.bits & gamepad_bit(id) != 0)
    }
}

impl ActiveGamepads {
    /// The set without any gamepad.
    pub open spec fn spec_empty() -> ActiveGamepads {
        ActiveGamepads { bits: 0 }
    }

    /// The set that holds gamepad `id` alone; there are gamepads 0 to 15.
    pub open spec fn spec_from_id(id: u8) -> Option<ActiveGamepads> {
        if id < MAX_GAMEPADS {
            Some(ActiveGamepads { bits: gamepad_bit(id) })
        } else {
            None
        }
    }

    /// The gamepads of both sets.
    pub open spec fn union(self, other: ActiveGamepads) -> ActiveGamepads {
        ActiveGamepads { bits: self.bits | other.bits }
    }

    /// The gamepads of this set that are not in `other`.
    pub open spec fn difference(self, other: ActiveGamepads) -> ActiveGamepads {
        ActiveGamepads { bits: self.bits & !other.bits }
    }

    /// Whether every gamepad of `other` is in this set.
    pub open spec fn spec_contains(&self, other: ActiveGamepads) -> bool {
        self.bits & other.bits == other.bits
    }

    #[verifier::when_used_as_spec(spec_empty)]
    pub fn empty() -> (r: Self)
        ensures
            r == Self::spec_empty(),
    {
        ActiveGamepads { bits: 0 }
    }

    #[verifier::when_used_as_spec(spec_from_id)]
    pub fn from_id(id: u8) -> (r: Option<Self>)
        ensures
            r == Self::spec_from_id(id),
    {
        if id < MAX_GAMEPADS {
            Some(ActiveGamepads { bits: 1u16 << (id as u16) })
        } else {
            None
        }
    }

    #[verifier::when_used_as_spec(spec_contains)]
    pub fn contains(&self, other: Self) -> (r: bool)
        ensures
            r == self.spec_contains(other),
    {
        self.bits & other.bits == other.bits
    }

    /// Puts the gamepads of `other` into the set.
    pub fn insert(&mut self, other: Self)
        ensures
            *final(self) == old(self).union(other),
    {
        self.bits = self.bits | other.bits;
    }

    /// Takes the gamepads of `other` out of the set.
    pub fn remove(&mut self, other: Self)
        ensures
            *final(self) == old(self).difference(other),
    {
        self.bits = self.bits & !other.bits;
    }
}

/// The empty mask holds no gamepad.
pub proof fn lemma_empty_view()
    ensures
        ActiveGamepads::spec_empty()@ == Set::<u8>::empty(),
{
    assert forall|id: u8| !ActiveGamepads::spec_empty()@.contains(id) by {
        let j = id as u16;
        assert(0u16 & (1u16 << j) == 0) by (bit_vector);
    }
    assert(ActiveGamepads::spec_empty()@ =~= Set::<u8>::empty());
}

/// The mask of one gamepad holds that gamepad and no other.
pub proof fn lemma_from_id_view(id: u8)
    requires
        id < MAX_GAMEPADS,
    ensures
        ActiveGamepads::spec_from_id(id)->0@ == set![id],
{
    let one = ActiveGamepads::spec_from_id(id)->0;
    assert forall|other: u8| one@.contains(other) == (other == id) by {
        if other < MAX_GAMEPADS {
            let i = id as u16;
            let j = other as u16;
            assert(((1u16 << i) & (1u16 << j) != 0) == (i == j)) by (bit_vector)
                requires
                    i < 16,
                    j < 16,
            ;
        }
    }
    assert(one@ =~= set![id]);
}

/// The union of two masks holds the gamepads of both.
pub proof fn lemma_union_view(a: ActiveGamepads, b: ActiveGamepads)
    ensures
        a.union(b)@ == a@.union(b@),
{
    assert forall|id: u8| a.union(b)@.contains(id) == a@.union(b@).contains(id) by {
        let x = a.bits;
        let y = b.bits;
        let j = id as u16;
        assert(((x | y) & (1u16 << j) != 0) == (x & (1u16 << j) != 0 || y & (1u16 << j) != 0))
            by (bit_vector);
    }
    assert(a.union(b)@ =~= a@.union(b@));
}

/// The difference of two masks holds the gamepads of the first that the
/// second lacks.
pub proof fn lemma_difference_view(a: ActiveGamepads, b: ActiveGamepads)
    ensures
        a.difference(b)@ == a@.difference(b@),
{
    assert forall|id: u8| a.difference(b)@.contains(id) == a@.difference(b@).contains(id) by {
        let x = a.bits;
        let y = b.bits;
        let j = id as u16;
        assert(((x & !y) & (1u16 << j) != 0) == (x & (1u16 << j) != 0 && !(y & (1u16 << j) != 0)))
            by (bit_vector);
    }
    assert(a.difference(b)@ =~= a@.difference(b@));
}

/// A mask contains the mask of one gamepad exactly if it holds that gamepad.
pub proof fn lemma_contains_id(a: ActiveGamepads, id: u8)
    requires
        id < MAX_GAMEPADS,
    ensures
        a.spec_contains(ActiveGamepads::spec_from_id(id)->0) == a@.contains(id),
{
    let x = a.bits;
    let j = id as u16;
    assert((x & (1u16 << j) == (1u16 << j)) == (x & (1u16 << j) != 0)) by (bit_vector)
        requires
            j < 16,
    ;
}

} // verus!
