//! Interrupt enabling and priorities, as accesses to the NVIC.

use vstd::prelude::*;
use crate::hw::{Op, Register};
use crate::scb::ItPriorityGrouping;

verus! {

/// Position of the four implemented priority bits in a priority byte.
pub const NVIC_IPR_PRIO_OFFSET: u8 = 4;

/// The interrupt lines of the microcontroller.
#[allow(non_camel_case_types)]
#[derive(Clone, Copy, PartialEq, Eq, Debug, Structural)]
pub enum Interrupt {
    Wwdg,
    Exti16Pvd,
    Exti21TampStamp,
    Exti22RtcWkup,
    Flash,
    Rcc,
    Exti0,
    Exti1,
    Exti2,
    Exti3,
    Exti4,
    Dma1Stream0,
    Dma1Stream1,
    Dma1Stream2,
    Dma1Stream3,
    Dma1Stream4,
    Dma1Stream5,
    Dma1Stream6,
    Adc,
    Exti9_5,
    Tim1BrkTim9,
    Tim1UpTim10,
    Tim1TrgComTim11,
    Tim1Cc,
    Tim2,
    Tim3,
    Tim4,
    I2C1Ev,
    I2C1Er,
    I2C2Ev,
    I2C2Er,
    Spi1,
    Spi2,
    Usart1,
    Usart2,
    Exti15_10,
    Exti17RtcAlarm,
    Exti18OtgFsWkup,
    Dma1Stream7,
    Sdio,
    Tim5,
    Spi3,
    Dma2Stream0,
    Dma2Stream1,
    Dma2Stream2,
    Dma2Stream3,
    Dma2Stream4,
    OtgFs,
    Dma2Stream5,
    Dma2Stream6,
    Dma2Stream7,
    Usart6,
    I2C3Ev,
    I2C3Er,
    Fpu,
    Spi4,
    Spi5,
}

impl Interrupt {
    pub open spec fn spec_number(self) -> u8 {
        match self {
            Interrupt::Wwdg => 0,
            Interrupt::Exti16Pvd => 1,
            Interrupt::Exti21TampStamp => 2,
            Interrupt::Exti22RtcWkup => 3,
            Interrupt::Flash => 4,
            Interrupt::Rcc => 5,
            Interrupt::Exti0 => 6,
            Interrupt::Exti1 => 7,
            Interrupt::Exti2 => 8,
            Interrupt::Exti3 => 9,
            Interrupt::Exti4 => 10,
            Interrupt::Dma1Stream0 => 11,
            Interrupt::Dma1Stream1 => 12,
            Interrupt::Dma1Stream2 => 13,
            Interrupt::Dma1Stream3 => 14,
            Interrupt::Dma1Stream4 => 15,
            Interrupt::Dma1Stream5 => 16,
            Interrupt::Dma1Stream6 => 17,
            Interrupt::Adc => 18,
            Interrupt::Exti9_5 => 23,
            Interrupt::Tim1BrkTim9 => 24,
            Interrupt::Tim1UpTim10 => 25,
            Interrupt::Tim1TrgComTim11 => 26,
            Interrupt::Tim1Cc => 27,
            Interrupt::Tim2 => 28,
            Interrupt::Tim3 => 29,
            Interrupt::Tim4 => 30,
            Interrupt::I2C1Ev => 31,
            Interrupt::I2C1Er => 32,
            Interrupt::I2C2Ev => 33,
            Interrupt::I2C2Er => 34,
            Interrupt::Spi1 => 35,
            Interrupt::Spi2 => 36,
            Interrupt::Usart1 => 37,
            Interrupt::Usart2 => 38,
            Interrupt::Exti15_10 => 40,
            Interrupt::Exti17RtcAlarm => 41,
            Interrupt::Exti18OtgFsWkup => 42,
            Interrupt::Dma1Stream7 => 47,
            Interrupt::Sdio => 49,
            Interrupt::Tim5 => 50,
            Interrupt::Spi3 => 51,
            Interrupt::Dma2Stream0 => 56,
            Interrupt::Dma2Stream1 => 57,
            Interrupt::Dma2Stream2 => 58,
            Interrupt::Dma2Stream3 => 59,
            Interrupt::Dma2Stream4 => 60,
            Interrupt::OtgFs => 67,
            Interrupt::Dma2Stream5 => 68,
            Interrupt::Dma2Stream6 => 69,
            Interrupt::Dma2Stream7 => 70,
            Interrupt::Usart6 => 71,
            Interrupt::I2C3Ev => 72,
            Interrupt::I2C3Er => 73,
            Interrupt::Fpu => 81,
            Interrupt::Spi4 => 84,
            Interrupt::Spi5 => 85,
        }
    }

    /// The interrupt's position in the vector table.
    #[verifier::when_used_as_spec(spec_number)]
    pub fn number(self) -> (n: u8)
        ensures
            n == self.spec_number(),
            n <= 85,
    {
        match self {
            Interrupt::Wwdg => 0,
            Interrupt::Exti16Pvd => 1,
            Interrupt::Exti21TampStamp => 2,
            Interrupt::Exti22RtcWkup => 3,
            Interrupt::Flash => 4,
            Interrupt::Rcc => 5,
            Interrupt::Exti0 => 6,
            Interrupt::Exti1 => 7,
            Interrupt::Exti2 => 8,
            Interrupt::Exti3 => 9,
            Interrupt::Exti4 => 10,
            Interrupt::Dma1Stream0 => 11,
            Interrupt::Dma1Stream1 => 12,
            Interrupt::Dma1Stream2 => 13,
            Interrupt::Dma1Stream3 => 14,
            Interrupt::Dma1Stream4 => 15,
            Interrupt::Dma1Stream5 => 16,
            Interrupt::Dma1Stream6 => 17,
            Interrupt::Adc => 18,
            Interrupt::Exti9_5 => 23,
            Interrupt::Tim1BrkTim9 => 24,
            Interrupt::Tim1UpTim10 => 25,
            Interrupt::Tim1TrgComTim11 => 26,
            Interrupt::Tim1Cc => 27,
            Interrupt::Tim2 => 28,
            Interrupt::Tim3 => 29,
            Interrupt::Tim4 => 30,
            Interrupt::I2C1Ev => 31,
            Interrupt::I2C1Er => 32,
            Interrupt::I2C2Ev => 33,
            Interrupt::I2C2Er => 34,
            Interrupt::Spi1 => 35,
            Interrupt::Spi2 => 36,
            Interrupt::Usart1 => 37,
            Interrupt::Usart2 => 38,
            Interrupt::Exti15_10 => 40,
            Interrupt::Exti17RtcAlarm => 41,
            Interrupt::Exti18OtgFsWkup => 42,
            Interrupt::Dma1Stream7 => 47,
            Interrupt::Sdio => 49,
            Interrupt::Tim5 => 50,
            Interrupt::Spi3 => 51,
            Interrupt::Dma2Stream0 => 56,
            Interrupt::Dma2Stream1 => 57,
            Interrupt::Dma2Stream2 => 58,
            Interrupt::Dma2Stream3 => 59,
            Interrupt::Dma2Stream4 => 60,
            Interrupt::OtgFs => 67,
            Interrupt::Dma2Stream5 => 68,
            Interrupt::Dma2Stream6 => 69,
            Interrupt::Dma2Stream7 => 70,
            Interrupt::Usart6 => 71,
            Interrupt::I2C3Ev => 72,
            Interrupt::I2C3Er => 73,
            Interrupt::Fpu => 81,
            Interrupt::Spi4 => 84,
            Interrupt::Spi5 => 85,
        }
    }
}

pub open spec fn spec_get_prio_grouping_binpoint_offset(grouping: ItPriorityGrouping) -> u8 {
    match grouping {
        ItPriorityGrouping::SixteenNone => 0,
        ItPriorityGrouping::EightTwo => 1,
        ItPriorityGrouping::FourFour => 2,
        ItPriorityGrouping::TwoFour => 3,
        ItPriorityGrouping::NoneSixteen => 4,
    }
}

/// Number of low bits of the priority field that hold the subpriority.
#[verifier::when_used_as_spec(spec_get_prio_grouping_binpoint_offset)]
pub fn get_prio_grouping_binpoint_offset(grouping: ItPriorityGrouping) -> (offset: u8)
    ensures
        offset == spec_get_prio_grouping_binpoint_offset(grouping),
        offset <= 4,
{
    match grouping {
        ItPriorityGrouping::SixteenNone => 0,
        ItPriorityGrouping::EightTwo => 1,
        ItPriorityGrouping::FourFour => 2,
        ItPriorityGrouping::TwoFour => 3,
        ItPriorityGrouping::NoneSixteen => 4,
    }
}

/// Bits of a priority byte that hold the group priority under a grouping.
pub open spec fn prio_mask(grouping: ItPriorityGrouping) -> u8 {
    (0xffu8 << spec_get_prio_grouping_binpoint_offset(grouping)) << NVIC_IPR_PRIO_OFFSET
}

pub open spec fn spec_enable_interrupt(line: Interrupt) -> Op {
    Op::Write {
        reg: Register::NvicIser(line.spec_number() / 32),
        value: 1u32 << ((line.spec_number() % 32) as u32),
    }
}

pub open spec fn spec_disable_interrupt(line: Interrupt) -> Op {
    Op::Write {
        reg: Register::NvicIcer(line.spec_number() / 32),
        value: 1u32 << ((line.spec_number() % 32) as u32),
    }
}

pub open spec fn spec_set_priority(line: Interrupt, prio: u8, grouping: ItPriorityGrouping) -> Op {
    Op::Modify {
        reg: Register::NvicIpr(line.spec_number()),
        clear: prio_mask(grouping) as u32,
        set: ((prio << spec_get_prio_grouping_binpoint_offset(grouping))
            << NVIC_IPR_PRIO_OFFSET) as u32,
    }
}

pub open spec fn spec_set_subpriority(
    line: Interrupt,
    subprio: u8,
    grouping: ItPriorityGrouping,
) -> Op {
    Op::Modify {
        reg: Register::NvicIpr(line.spec_number()),
        clear: (!prio_mask(grouping)) as u32,
        set: ((subprio << NVIC_IPR_PRIO_OFFSET) & !prio_mask(grouping)) as u32,
    }
}

/// Enables the interrupt line: sets its bit in its set-enable word.
#[verifier::when_used_as_spec(spec_enable_interrupt)]
pub fn enable_interrupt(line: Interrupt) -> (op: Op)
    ensures
        op == spec_enable_interrupt(line),
{
    let n: u8 = line.number();
    let offset: u32 = (n % 32) as u32;
    Op::Write { reg: Register::NvicIser(n / 32), value: 1u32 << offset }
}

/// Disables the interrupt line: sets its bit in its clear-enable word.
#[verifier::when_used_as_spec(spec_disable_interrupt)]
pub fn disable_interrupt(line: Interrupt) -> (op: Op)
    ensures
        op == spec_disable_interrupt(line),
{
    let n: u8 = line.number();
    let offset: u32 = (n % 32) as u32;
    Op::Write { reg: Register::NvicIcer(n / 32), value: 1u32 << offset }
}

/// Sets the group priority of the interrupt, under the priority grouping
/// that the system control block holds.
#[verifier::when_used_as_spec(spec_set_priority)]
pub fn set_priority(line: Interrupt, prio: u8, grouping: ItPriorityGrouping) -> (op: Op)
    ensures
        op == spec_set_priority(line, prio, grouping),
{
    let bp_offset: u8 = get_prio_grouping_binpoint_offset(grouping);
    let mask: u8 = (0xffu8 << bp_offset) << NVIC_IPR_PRIO_OFFSET;
    let value: u8 = (prio << bp_offset) << NVIC_IPR_PRIO_OFFSET;
    Op::Modify { reg: Register::NvicIpr(line.number()), clear: mask as u32, set: value as u32 }
}

/// Sets the subpriority of the interrupt, under the priority grouping that
/// the system control block holds.
#[verifier::when_used_as_spec(spec_set_subpriority)]
pub fn set_subpriority(line: Interrupt, subprio: u8, grouping: ItPriorityGrouping) -> (op: Op)
    ensures
        op == spec_set_subpriority(line, subprio, grouping),
{
    let bp_offset: u8 = get_prio_grouping_binpoint_offset(grouping);
    let mask: u8 = (0xffu8 << bp_offset) << NVIC_IPR_PRIO_OFFSET;
    let value: u8 = (subprio << NVIC_IPR_PRIO_OFFSET) & !mask;
    Op::Modify { reg: Register::NvicIpr(line.number()), clear: (!mask) as u32, set: value as u32 }
}

} // verus!
