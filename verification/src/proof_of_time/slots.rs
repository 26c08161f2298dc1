//! Slots, and the number of iterations that each takes.
use vstd::prelude::*;

verus! {

/// The number of a slot.
pub type SlotNumber = u64;

/// A slot.
#[derive(Debug, Clone, Copy, PartialEq, Eq, Structural)]
pub struct Slot {
    /// The slot's number.
    pub number: SlotNumber,
}

impl From<SlotNumber> for Slot {
    fn from(number: SlotNumber) -> (slot: Self) {
        Slot { number }
    }
}

impl vstd::std_specs::convert::FromSpecImpl<SlotNumber> for Slot {
    open spec fn obeys_from_spec() -> bool {
        true
    }

    open spec fn from_spec(number: SlotNumber) -> Self {
        Slot { number }
    }
}

/// How many iterations a slot takes: at least one.
#[derive(Debug, Clone, Copy)]
pub struct SlotIterations {
    iterations: u32,
}

impl View for SlotIterations {
    type V = u32;

    closed spec fn view(&self) -> u32 {
        self.iterations
    }
}

impl SlotIterations {
    #[verifier::type_invariant]
    spec fn not_zero(self) -> bool {
        self.iterations != 0
    }

    /// So many iterations, if they are not zero.
    pub fn new(iterations: u32) -> (slot_iterations: Option<Self>)
        ensures
            slot_iterations is Some == (iterations != 0),
            slot_iterations matches Some(s) ==> s@ == iterations,
    {
        if iterations != 0 {
            Some(SlotIterations { iterations })
        } else {
            None
        }
    }

    /// The number of iterations.
    pub fn get(self) -> (iterations: u32)
        ensures
            iterations == self@,
            iterations != 0,
    {
        proof {
            use_type_invariant(&self);
        }
        self.iterations
    }

    /// The number of iterations that is used unless the chain sets one.
    pub fn standard() -> (slot_iterations: Self)
        ensures
            slot_iterations@ == STANDARD_SLOT_ITERATIONS,
    {
        SlotIterations { iterations: STANDARD_SLOT_ITERATIONS }
    }
}

/// The iterations of a slot unless the chain sets them.
pub const STANDARD_SLOT_ITERATIONS: u32 = 100_000_000;

} // verus!
