//! Registers and register programs.
//!
//! A register program is a `Vec<Op>`: the accesses to make, in order. The
//! firmware's interpreter maps each [`Register`] to its address and performs
//! the access with volatile reads and writes.

use vstd::prelude::*;
use crate::gpio::Gpio;
use crate::i2c::Peripheral;

verus! {

/// Base addresses of the register blocks.
pub const I2C1_BASE: u32 = 0x4000_5400;
pub const I2C2_BASE: u32 = 0x4000_5800;
pub const I2C3_BASE: u32 = 0x4000_5C00;
pub const GPIOA_BASE: u32 = 0x4002_0000;
pub const GPIOB_BASE: u32 = 0x4002_0400;
pub const GPIOC_BASE: u32 = 0x4002_0800;
pub const RCC_BASE: u32 = 0x4002_3800;
pub const NVIC_BASE: u32 = 0xE000_E100;
pub const SCB_BASE: u32 = 0xE000_E008;

/// The registers of one I2C peripheral, in the order of their addresses.
#[derive(Clone, Copy, PartialEq, Eq, Debug, Structural)]
pub enum I2cReg {
    Cr1,
    Cr2,
    Oar1,
    Oar2,
    Dr,
    Sr1,
    Sr2,
    Ccr,
    Trise,
    Fltr,
}

/// The registers of one GPIO port, in the order of their addresses.
#[derive(Clone, Copy, PartialEq, Eq, Debug, Structural)]
pub enum GpioReg {
    Moder,
    Otyper,
    Ospeedr,
    Pupdr,
    Idr,
    Odr,
    Bsrr,
    Lckr,
    Afrl,
    Afrh,
}

/// The reset and clock-enable registers of the RCC block.
#[derive(Clone, Copy, PartialEq, Eq, Debug, Structural)]
pub enum RccReg {
    Ahb1Rstr,
    Ahb2Rstr,
    Apb1Rstr,
    Apb2Rstr,
    Ahb1Enr,
    Ahb2Enr,
    Apb1Enr,
    Apb2Enr,
}

/// A memory-mapped register.
#[derive(Clone, Copy, PartialEq, Eq, Debug, Structural)]
pub enum Register {
    /// A register of an I2C peripheral.
    I2c(Peripheral, I2cReg),
    /// A register of a GPIO port.
    Gpio(Gpio, GpioReg),
    /// A register of the reset and clock control block.
    Rcc(RccReg),
    /// Interrupt set-enable word of the NVIC, by its index.
    NvicIser(u8),
    /// Interrupt clear-enable word of the NVIC, by its index.
    NvicIcer(u8),
    /// Interrupt priority byte of the NVIC, by the interrupt's number.
    NvicIpr(u8),
    /// Application interrupt and reset control register of the SCB.
    ScbAircr,
}

impl I2cReg {
    pub open spec fn spec_offset(self) -> u32 {
        match self {
            I2cReg::Cr1 => 0x00,
            I2cReg::Cr2 => 0x04,
            I2cReg::Oar1 => 0x08,
            I2cReg::Oar2 => 0x0c,
            I2cReg::Dr => 0x10,
            I2cReg::Sr1 => 0x14,
            I2cReg::Sr2 => 0x18,
            I2cReg::Ccr => 0x1c,
            I2cReg::Trise => 0x20,
            I2cReg::Fltr => 0x24,
        }
    }

    /// Byte offset of the register in its block.
    #[verifier::when_used_as_spec(spec_offset)]
    pub fn offset(self) -> (o: u32)
        ensures
            o == self.spec_offset(),
    {
        match self {
            I2cReg::Cr1 => 0x00,
            I2cReg::Cr2 => 0x04,
            I2cReg::Oar1 => 0x08,
            I2cReg::Oar2 => 0x0c,
            I2cReg::Dr => 0x10,
            I2cReg::Sr1 => 0x14,
            I2cReg::Sr2 => 0x18,
            I2cReg::Ccr => 0x1c,
            I2cReg::Trise => 0x20,
            I2cReg::Fltr => 0x24,
        }
    }
}

impl GpioReg {
    pub open spec fn spec_offset(self) -> u32 {
        match self {
            GpioReg::Moder => 0x00,
            GpioReg::Otyper => 0x04,
            GpioReg::Ospeedr => 0x08,
            GpioReg::Pupdr => 0x0c,
            GpioReg::Idr => 0x10,
            GpioReg::Odr => 0x14,
            GpioReg::Bsrr => 0x18,
            GpioReg::Lckr => 0x1c,
            GpioReg::Afrl => 0x20,
            GpioReg::Afrh => 0x24,
        }
    }

    /// Byte offset of the register in its block.
    #[verifier::when_used_as_spec(spec_offset)]
    pub fn offset(self) -> (o: u32)
        ensures
            o == self.spec_offset(),
    {
        match self {
            GpioReg::Moder => 0x00,
            GpioReg::Otyper => 0x04,
            GpioReg::Ospeedr => 0x08,
            GpioReg::Pupdr => 0x0c,
            GpioReg::Idr => 0x10,
            GpioReg::Odr => 0x14,
            GpioReg::Bsrr => 0x18,
            GpioReg::Lckr => 0x1c,
            GpioReg::Afrl => 0x20,
            GpioReg::Afrh => 0x24,
        }
    }
}

impl RccReg {
    pub open spec fn spec_offset(self) -> u32 {
        match self {
            RccReg::Ahb1Rstr => 0x10,
            RccReg::Ahb2Rstr => 0x14,
            RccReg::Apb1Rstr => 0x20,
            RccReg::Apb2Rstr => 0x24,
            RccReg::Ahb1Enr => 0x30,
            RccReg::Ahb2Enr => 0x34,
            RccReg::Apb1Enr => 0x40,
            RccReg::Apb2Enr => 0x44,
        }
    }

    /// Byte offset of the register in its block.
    #[verifier::when_used_as_spec(spec_offset)]
    pub fn offset(self) -> (o: u32)
        ensures
            o == self.spec_offset(),
    {
        match self {
            RccReg::Ahb1Rstr => 0x10,
            RccReg::Ahb2Rstr => 0x14,
            RccReg::Apb1Rstr => 0x20,
            RccReg::Apb2Rstr => 0x24,
            RccReg::Ahb1Enr => 0x30,
            RccReg::Ahb2Enr => 0x34,
            RccReg::Apb1Enr => 0x40,
            RccReg::Apb2Enr => 0x44,
        }
    }
}

/// Offset of the interrupt clear-enable words in the NVIC block.
pub const NVIC_ICER_OFFSET: u32 = 0x080;
/// Offset of the interrupt priority bytes in the NVIC block.
pub const NVIC_IPR_OFFSET: u32 = 0x300;
/// Offset of the application interrupt and reset control register in the SCB block.
pub const SCB_AIRCR_OFFSET: u32 = 0xd04;

impl Register {
    pub open spec fn spec_address(self) -> u32 {
        match self {
            Register::I2c(p, r) => (p.spec_base_addr() + r.spec_offset()) as u32,
            Register::Gpio(g, r) => (g.spec_base_addr() + r.spec_offset()) as u32,
            Register::Rcc(r) => (RCC_BASE + r.spec_offset()) as u32,
            Register::NvicIser(i) => (NVIC_BASE + 4 * i) as u32,
            Register::NvicIcer(i) => (NVIC_BASE + NVIC_ICER_OFFSET + 4 * i) as u32,
            Register::NvicIpr(n) => (NVIC_BASE + NVIC_IPR_OFFSET + n) as u32,
            Register::ScbAircr => (SCB_BASE + SCB_AIRCR_OFFSET) as u32,
        }
    }

    /// Address of the register: the base of its block plus its offset.
    #[verifier::when_used_as_spec(spec_address)]
    pub fn address(self) -> (a: u32)
        ensures
            a == self.spec_address(),
    {
        match self {
            Register::I2c(p, r) => p.base_addr() + r.offset(),
            Register::Gpio(g, r) => g.base_addr() + r.offset(),
            Register::Rcc(r) => RCC_BASE + r.offset(),
            Register::NvicIser(i) => {
                let word: u32 = i as u32;
                NVIC_BASE + 4 * word
            },
            Register::NvicIcer(i) => {
                let word: u32 = i as u32;
                NVIC_BASE + NVIC_ICER_OFFSET + 4 * word
            },
            Register::NvicIpr(n) => {
                let byte: u32 = n as u32;
                NVIC_BASE + NVIC_IPR_OFFSET + byte
            },
            Register::ScbAircr => SCB_BASE + SCB_AIRCR_OFFSET,
        }
    }

    pub open spec fn spec_is_byte_wide(self) -> bool {
        self is NvicIpr
    }

    /// Whether the register is one byte wide; all others are 32 bits wide.
    #[verifier::when_used_as_spec(spec_is_byte_wide)]
    pub fn is_byte_wide(self) -> (b: bool)
        ensures
            b == self.spec_is_byte_wide(),
    {
        match self {
            Register::NvicIpr(_) => true,
            _ => false,
        }
    }
}

/// One access to the hardware.
#[derive(Clone, Copy, PartialEq, Eq, Debug, Structural)]
pub enum Op {
    /// Read the register and discard the value; some status flags are
    /// cleared by being read.
    Read(Register),
    /// Read the data register of the I2C peripheral. The byte read is handed
    /// back to the engine.
    ReadData(Peripheral),
    /// Write the value to the register.
    Write { reg: Register, value: u32 },
    /// Read the register, clear the bits of `clear`, set the bits of `set`,
    /// and write the result back.
    Modify { reg: Register, clear: u32, set: u32 },
    /// Keep the register's current value aside.
    Save(Register),
    /// Write back the value that the last `Save` of this register kept.
    Restore(Register),
    /// Busy-wait for the given number of microseconds.
    WaitUs(u32),
}

/// The value that `Op::Modify` writes back when it has read `current`.
pub open spec fn spec_modified(current: u32, clear: u32, set: u32) -> u32 {
    (current & !clear) | set
}

/// The value that `Op::Modify` writes back when it has read `current`.
#[verifier::when_used_as_spec(spec_modified)]
pub fn modified(current: u32, clear: u32, set: u32) -> (v: u32)
    ensures
        v == spec_modified(current, clear, set),
{
    (current & !clear) | set
}

/// The access that sets the bits of `bits` in the register.
pub open spec fn set_bits(reg: Register, bits: u32) -> Op {
    Op::Modify { reg, clear: 0, set: bits }
}

/// The access that clears the bits of `bits` in the register.
pub open spec fn clear_bits(reg: Register, bits: u32) -> Op {
    Op::Modify { reg, clear: bits, set: 0 }
}

/// Number of `Op::ReadData` accesses in a program.
pub open spec fn data_reads(ops: Seq<Op>) -> nat
    decreases ops.len(),
{
    if ops.len() == 0 {
        0
    } else {
        data_reads(ops.drop_last()) + if ops.last() is ReadData {
            1nat
        } else {
            0nat
        }
    }
}

/// Number of bytes that performing the program hands back.
pub fn count_data_reads(ops: &Vec<Op>) -> (n: usize)
    ensures
        n == data_reads(ops@),
{
    let mut n: usize = 0;
    let mut i: usize = 0;
    while i < ops.len()
        invariant
            i <= ops.len(),
            n <= i,
            n == data_reads(ops@.take(i as int)),
        decreases ops.len() - i,
    {
        proof {
            assert(ops@.take(i + 1).drop_last() =~= ops@.take(i as int));
        }
        match ops[i] {
            Op::ReadData(_) => {
                n = n + 1;
            },
            _ => {},
        }
        i = i + 1;
    }
    proof {
        assert(ops@.take(i as int) =~= ops@);
    }
    n
}

/// The data reads of a program followed by another are those of both.
pub proof fn lemma_data_reads_concat(a: Seq<Op>, b: Seq<Op>)
    ensures
        data_reads(a + b) == data_reads(a) + data_reads(b),
    decreases b.len(),
{
    if b.len() == 0 {
        assert(a + b =~= a);
    } else {
        assert((a + b).drop_last() =~= a + b.drop_last());
        assert((a + b).last() == b.last());
        lemma_data_reads_concat(a, b.drop_last());
    }
}

/// Appends one access to `ops`.
pub fn push_op(ops: &mut Vec<Op>, op: Op)
    ensures
        final(ops)@ == old(ops)@.push(op),
        data_reads(final(ops)@) == data_reads(old(ops)@) + if op is ReadData {
            1nat
        } else {
            0nat
        },
{
    ops.push(op);
    proof {
        assert(ops@.drop_last() =~= old(ops)@);
    }
}

/// Appends the accesses of `more` to `ops`.
pub fn extend(ops: &mut Vec<Op>, more: Vec<Op>)
    ensures
        final(ops)@ == old(ops)@ + more@,
        data_reads(final(ops)@) == data_reads(old(ops)@) + data_reads(more@),
{
    let mut more = more;
    proof {
        lemma_data_reads_concat(ops@, more@);
    }
    ops.append(&mut more);
}

} // verus!
