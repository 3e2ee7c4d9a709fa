//! What is particular to the board.

use vstd::prelude::*;
use crate::hw::Op;
use crate::scb::{set_priority_grouping, spec_set_priority_grouping, ItPriorityGrouping};

verus! {

/// The priority grouping that the board runs with: eight group priorities
/// of two subpriorities each.
pub open spec fn board_priority_grouping() -> ItPriorityGrouping {
    ItPriorityGrouping::EightTwo
}

/// The program that sets the board up: the priority grouping is selected.
/// It is to be run at boot, before any peripheral is initialised.
pub fn board_specific_init() -> (ops: Vec<Op>)
    ensures
        ops@ == seq![spec_set_priority_grouping(board_priority_grouping())],
{
    let mut ops: Vec<Op> = Vec::new();
    ops.push(set_priority_grouping(ItPriorityGrouping::EightTwo));
    ops
}

} // verus!
