//! Interrupt priority grouping, held in the system control block.

use vstd::prelude::*;
use crate::hw::{Op, Register};

verus! {

/// Fields of the application interrupt and reset control register: the key
/// that unlocks a write, and the priority grouping.
pub const SCB_AIRCR_VECTKEY: u32 = 0x05fa_0000;
pub const SCB_AIRCR_VECTKEY_MASK: u32 = 0xffff_0000;
pub const SCB_AIRCR_PRIGROUP_OFFSET: u32 = 8;
pub const SCB_AIRCR_PRIGROUP_MASK: u32 = 0x0000_0700;

/// How the four priority bits of an interrupt are split into group
/// priorities and subpriorities: the first count is that of the group
/// priorities, the second that of the subpriorities.
#[derive(Clone, Copy, PartialEq, Eq, Debug, Structural)]
pub enum ItPriorityGrouping {
    SixteenNone,
    EightTwo,
    FourFour,
    TwoFour,
    NoneSixteen,
}

impl ItPriorityGrouping {
    pub open spec fn spec_bits(self) -> u32 {
        match self {
            ItPriorityGrouping::SixteenNone => 0b000,
            ItPriorityGrouping::EightTwo => 0b100,
            ItPriorityGrouping::FourFour => 0b101,
            ItPriorityGrouping::TwoFour => 0b110,
            ItPriorityGrouping::NoneSixteen => 0b111,
        }
    }

    /// Value of the priority grouping field for this grouping.
    #[verifier::when_used_as_spec(spec_bits)]
    pub fn bits(self) -> (b: u32)
        ensures
            b == self.spec_bits(),
    {
        match self {
            ItPriorityGrouping::SixteenNone => 0b000,
            ItPriorityGrouping::EightTwo => 0b100,
            ItPriorityGrouping::FourFour => 0b101,
            ItPriorityGrouping::TwoFour => 0b110,
            ItPriorityGrouping::NoneSixteen => 0b111,
        }
    }
}

/// Value of the priority grouping field in a value of the control register.
pub open spec fn prigroup_field(aircr: u32) -> u32 {
    (aircr & SCB_AIRCR_PRIGROUP_MASK) >> SCB_AIRCR_PRIGROUP_OFFSET
}

/// The grouping that a value of the control register selects. Every field
/// value with its top bit clear means sixteen group priorities.
pub open spec fn spec_get_priority_grouping(aircr: u32) -> ItPriorityGrouping {
    let val = prigroup_field(aircr);
    if val & 0b100 == 0 {
        ItPriorityGrouping::SixteenNone
    } else if val == 0b100 {
        ItPriorityGrouping::EightTwo
    } else if val == 0b101 {
        ItPriorityGrouping::FourFour
    } else if val == 0b110 {
        ItPriorityGrouping::TwoFour
    } else {
        ItPriorityGrouping::NoneSixteen
    }
}

pub open spec fn spec_set_priority_grouping(grouping: ItPriorityGrouping) -> Op {
    Op::Modify {
        reg: Register::ScbAircr,
        clear: SCB_AIRCR_VECTKEY_MASK,
        set: SCB_AIRCR_VECTKEY | (grouping.spec_bits() << SCB_AIRCR_PRIGROUP_OFFSET),
    }
}

/// Writes the grouping into the control register, with the key that unlocks
/// the write.
#[verifier::when_used_as_spec(spec_set_priority_grouping)]
pub fn set_priority_grouping(grouping: ItPriorityGrouping) -> (op: Op)
    ensures
        op == spec_set_priority_grouping(grouping),
{
    Op::Modify {
        reg: Register::ScbAircr,
        clear: SCB_AIRCR_VECTKEY_MASK,
        set: SCB_AIRCR_VECTKEY | (grouping.bits() << SCB_AIRCR_PRIGROUP_OFFSET),
    }
}

/// Decodes the grouping from a value read from the control register.
#[verifier::when_used_as_spec(spec_get_priority_grouping)]
pub fn get_priority_grouping(aircr: u32) -> (grouping: ItPriorityGrouping)
    ensures
        grouping == spec_get_priority_grouping(aircr),
{
    let val: u32 = (aircr & SCB_AIRCR_PRIGROUP_MASK) >> SCB_AIRCR_PRIGROUP_OFFSET;
    if val & 0b100 == 0 {
        ItPriorityGrouping::SixteenNone
    } else if val == 0b100 {
        ItPriorityGrouping::EightTwo
    } else if val == 0b101 {
        ItPriorityGrouping::FourFour
    } else if val == 0b110 {
        ItPriorityGrouping::TwoFour
    } else {
        ItPriorityGrouping::NoneSixteen
    }
}

/// A grouping written to a control register whose grouping field was zero
/// is the grouping read back from it.
pub proof fn lemma_priority_grouping_round_trip(aircr: u32, grouping: ItPriorityGrouping)
    requires
        prigroup_field(aircr) == 0,
    ensures
        spec_get_priority_grouping(
            crate::hw::spec_modified(
                aircr,
                SCB_AIRCR_VECTKEY_MASK,
                SCB_AIRCR_VECTKEY | (grouping.spec_bits() << SCB_AIRCR_PRIGROUP_OFFSET),
            ),
        ) == grouping,
{
    let bits = grouping.spec_bits();
    assert(bits == 0 || bits == 4 || bits == 5 || bits == 6 || bits == 7);
    assert(({
        let written = (aircr & !0xffff_0000u32) | (0x05fa_0000u32 | (bits << 8u32));
        let val = (written & 0x0000_0700u32) >> 8u32;
        &&& val == bits
        &&& (bits == 0 ==> val & 0b100 == 0)
        &&& (bits != 0 ==> val & 0b100 != 0)
    })) by (bit_vector)
        requires
            (aircr & 0x0000_0700u32) >> 8u32 == 0,
            bits == 0 || bits == 4 || bits == 5 || bits == 6 || bits == 7,
    ;
}

} // verus!
