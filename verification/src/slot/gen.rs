//! Generations encode the life-cycle state of a slot in one integer.
//!
//! There are definitely better ways of encoding the poison value.
//! However, encoding `u32::MAX - 1..=u32::MAX` as the poison range is the
//! easiest encoding to reason about. The intuition is this:
//!
//! 1. Vacant generations are always even.
//!
//! 2. Occupied generations are always odd.
//!
//! 3. Poisoning should only ever occur if the previous generation was
//!    occupied.
//!
//! 4. `u32::MAX` is odd, and would therefore encode occupancy.
//!
//! 5. Since poisoning should only ever occur after occupancy, and the value
//!    we want to treat as the poison value encodes occupancy, the generation
//!    before it, `u32::MAX - 1`, is marked as encoding poisoning as well.
//!
//! This has the disadvantage of using two values that encode the same
//! semantics. Considering how rare poisoning should realistically be, this
//! should be a non-issue.

use vstd::prelude::*;

verus! {

/// An enum that indicates the current status of a slot.
#[derive(Debug, Clone, Copy, PartialEq, Eq, Structural, PartialOrd, Ord, Hash)]
pub enum Status {
    Vacant,
    Occupied,
    Poisoned,
}

/// The status that the raw generation `raw` encodes.
pub open spec fn status_of(raw: u32) -> Status {
    if raw >= Gen::POISON_MIN {
        Status::Poisoned
    } else if raw % 2 == 0 {
        Status::Vacant
    } else {
        Status::Occupied
    }
}

/// The raw generation that follows `raw`: one more, saturating at the top.
pub open spec fn next_of(raw: u32) -> u32 {
    if raw == u32::MAX {
        raw
    } else {
        (raw + 1) as u32
    }
}

/// The life cycle that generations encode: a step leads from vacancy to
/// occupancy, and from occupancy to vacancy or, from the last occupied
/// generation alone, to poisoning, where every further step stays. A step
/// never goes down, and goes up until the top is reached.
pub proof fn lemma_life_cycle(raw: u32)
    ensures
        status_of(raw) == Status::Vacant ==> status_of(next_of(raw)) == Status::Occupied,
        status_of(raw) == Status::Occupied ==> status_of(next_of(raw)) == (if raw == u32::MAX - 2 {
            Status::Poisoned
        } else {
            Status::Vacant
        }),
        status_of(raw) == Status::Poisoned ==> status_of(next_of(raw)) == Status::Poisoned,
        raw < u32::MAX ==> next_of(raw) == raw + 1,
        raw == u32::MAX ==> next_of(raw) == raw,
        status_of(Gen::VACANT) == Status::Vacant,
{
}

/// The generation of a slot. Its view is the integer that it stands for.
#[derive(Debug, Clone, Copy, PartialEq, Eq, Structural, PartialOrd, Ord, Hash)]
pub struct Gen(pub(crate) u32);

impl View for Gen {
    type V = u32;

    closed spec fn view(&self) -> u32 {
        self.0
    }
}

impl Gen {
    /// The raw value of the generation that every slot starts with.
    pub const VACANT: u32 = 0;

    /// The lowest raw value that encodes poisoning.
    pub const POISON_MIN: u32 = u32::MAX - 1;

    /// The highest raw value that encodes poisoning.
    pub const POISON_MAX: u32 = u32::MAX;

    /// The generation that every slot starts with.
    #[inline]
    #[must_use]
    pub fn vacant() -> (gen: Gen)
        ensures
            gen@ == Gen::VACANT,
    {
        Gen(Gen::VACANT)
    }

    /// The lowest generation that encodes poisoning.
    #[inline]
    #[must_use]
    pub fn poison_min() -> (gen: Gen)
        ensures
            gen@ == Gen::POISON_MIN,
    {
        Gen(Gen::POISON_MIN)
    }

    /// The highest generation that encodes poisoning.
    #[inline]
    #[must_use]
    pub fn poison_max() -> (gen: Gen)
        ensures
            gen@ == Gen::POISON_MAX,
    {
        Gen(Gen::POISON_MAX)
    }

    /// The generation that stands for `raw`.
    #[inline]
    #[must_use]
    pub(crate) fn from_raw(raw: u32) -> (gen: Gen)
        ensures
            gen@ == raw,
    {
        Gen(raw)
    }

    /// Get the integer representation of this generation.
    #[inline]
    #[must_use]
    pub fn get(self) -> (raw: u32)
        ensures
            raw == self@,
    {
        self.0
    }

    /// Does this generation encode poisoning?
    #[inline]
    #[must_use]
    pub fn is_poisoned(self) -> (poisoned: bool)
        ensures
            poisoned <==> status_of(self@) == Status::Poisoned,
    {
        self.status().is_poisoned()
    }

    /// Does this generation encode vacancy?
    #[inline]
    #[must_use]
    pub fn is_vacant(self) -> (vacant: bool)
        ensures
            vacant <==> status_of(self@) == Status::Vacant,
    {
        self.status().is_vacant()
    }

    /// Does this generation encode occupancy?
    #[inline]
    #[must_use]
    pub fn is_occupied(self) -> (occupied: bool)
        ensures
            occupied <==> status_of(self@) == Status::Occupied,
    {
        self.status().is_occupied()
    }

    /// Get the status of this generation.
    #[inline]
    #[must_use]
    pub fn status(self) -> (status: Status)
        ensures
            status == status_of(self@),
    {
        if self.0 >= Gen::POISON_MIN {
            Status::Poisoned
        } else if self.0 % 2 == 0 {
            Status::Vacant
        } else {
            Status::Occupied
        }
    }

    /// Get the generation that follows this one.
    #[inline]
    #[must_use]
    pub fn next(self) -> (next: Gen)
        ensures
            next@ == next_of(self@),
    {
        Gen(self.0.saturating_add(1))
    }
}

impl Status {
    /// The name of the status, as spelled in the enum.
    #[inline]
    #[must_use]
    pub fn name(self) -> (name: &'static str)
        ensures
            name@ == (match self {
                Status::Vacant => "Vacant"@,
                Status::Occupied => "Occupied"@,
                Status::Poisoned => "Poisoned"@,
            }),
    {
        match self {
            Status::Vacant => "Vacant",
            Status::Occupied => "Occupied",
            Status::Poisoned => "Poisoned",
        }
    }

    /// Does this status indicate an alive slot?
    #[inline]
    #[must_use]
    pub fn is_living(self) -> (living: bool)
        ensures
            living <==> self != Status::Poisoned,
    {
        matches!(self, Status::Vacant | Status::Occupied)
    }

    /// Returns whether this is [`Status::Vacant`].
    #[inline]
    #[must_use]
    pub fn is_vacant(self) -> (vacant: bool)
        ensures
            vacant <==> self == Status::Vacant,
    {
        matches!(self, Status::Vacant)
    }

    /// Returns whether this is [`Status::Occupied`].
    #[inline]
    #[must_use]
    pub fn is_occupied(self) -> (occupied: bool)
        ensures
            occupied <==> self == Status::Occupied,
    {
        matches!(self, Status::Occupied)
    }

    /// Returns whether this is [`Status::Poisoned`].
    #[inline]
    #[must_use]
    pub fn is_poisoned(self) -> (poisoned: bool)
        ensures
            poisoned <==> self == Status::Poisoned,
    {
        matches!(self, Status::Poisoned)
    }
}

impl Default for Status {
    /// A slot starts out vacant.
    fn default() -> (status: Status)
        ensures
            status == Status::Vacant,
    {
        Status::Vacant
    }
}

} // verus!
