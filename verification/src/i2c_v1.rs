//! The register interface of the I2C peripheral and its interrupt handlers.

use vstd::prelude::*;
use crate::gpio::{AltFuncNum, Gpio, Mode, OutputSpeed, OutputType, Pin, PinNum, PullUpDown};
use crate::hw::{clear_bits, data_reads, extend, push_op, set_bits, I2cReg, Op, Register};
use crate::i2c::{ContextView, InterruptContext, Peripheral, PeripheralState};
use crate::nvic::{
    enable_interrupt, set_priority, set_subpriority, spec_enable_interrupt, spec_set_priority,
    spec_set_subpriority, Interrupt,
};
use crate::rcc::{enable_periph, spec_enable_periph};
use crate::scb::ItPriorityGrouping;

verus! {

/// Bits of the first control register.
pub const I2C_CR1_SWRST: u32 = 1 << 15;
pub const I2C_CR1_POS: u32 = 1 << 11;
pub const I2C_CR1_ACK: u32 = 1 << 10;
pub const I2C_CR1_STOP: u32 = 1 << 9;
pub const I2C_CR1_START: u32 = 1 << 8;
pub const I2C_CR1_PE: u32 = 1;

/// Bits of the second control register.
pub const I2C_CR2_ITBUFEN: u32 = 1 << 10;
pub const I2C_CR2_ITEVTEN: u32 = 1 << 9;
pub const I2C_CR2_ITERREN: u32 = 1 << 8;
pub const I2C_CR2_FREQ_MASK: u32 = 0x3f;

/// Flags of the first status register.
pub const I2C_SR1_OVR: u32 = 1 << 11;
pub const I2C_SR1_AF: u32 = 1 << 10;
pub const I2C_SR1_ARLO: u32 = 1 << 9;
pub const I2C_SR1_BERR: u32 = 1 << 8;
pub const I2C_SR1_TXE: u32 = 1 << 7;
pub const I2C_SR1_RXNE: u32 = 1 << 6;
pub const I2C_SR1_BTF: u32 = 1 << 2;
pub const I2C_SR1_ADDR: u32 = 1 << 1;
pub const I2C_SR1_SB: u32 = 1;

/// Fields of the clock control, rise time and filter registers.
pub const I2C_CCR_CCR_MASK: u32 = 0x0fff;
pub const I2C_TRISE_TRISE_MASK: u32 = 0x3f;
pub const I2C_FLTR_ANOFF: u32 = 1 << 4;
pub const I2C_FLTR_DNF_MASK: u32 = 0x0f;

/// The bits of the first control register that steer a transaction.
pub const I2C_CR1_TRANSACTION_BITS: u32 = I2C_CR1_POS | I2C_CR1_ACK | I2C_CR1_STOP
    | I2C_CR1_START;

/// The error flags of the first status register.
pub const I2C_SR1_ERROR_FLAGS: u32 = I2C_SR1_BERR | I2C_SR1_ARLO | I2C_SR1_AF | I2C_SR1_OVR;

/// The result with which a transaction ends when the bus reports an error.
pub const TRANSACTION_ERROR: i32 = -1;

/// Direction of a transfer, as the address byte announces it.
#[derive(Clone, Copy, PartialEq, Eq, Debug, Structural)]
pub enum CommDir {
    Read,
    Write,
}

/// The register interface of one I2C peripheral.
#[derive(Clone, Copy, PartialEq, Eq, Debug, Structural)]
pub struct I2C {
    pub periph: Peripheral,
}

/// The register `reg` of the peripheral.
pub open spec fn i2c_reg(periph: Peripheral, reg: I2cReg) -> Register {
    Register::I2c(periph, reg)
}

/// The byte that addresses a device: its address in the upper seven bits,
/// and the lowest bit set for a read.
pub open spec fn address_byte(addr: u8, read: bool) -> u8 {
    (addr << 1u8) | if read {
        1u8
    } else {
        0u8
    }
}

/// The write of a byte to the data register.
pub open spec fn spec_send_data(periph: Peripheral, byte: u8) -> Op {
    Op::Write { reg: i2c_reg(periph, I2cReg::Dr), value: byte as u32 }
}

/// The two reads that clear the flag of an acknowledged address.
pub open spec fn spec_clear_addr_flag(periph: Peripheral) -> Seq<Op> {
    seq![Op::Read(i2c_reg(periph, I2cReg::Sr1)), Op::Read(i2c_reg(periph, I2cReg::Sr2))]
}

/// Resetting the peripheral: the transaction bits are cleared, the
/// configuration is kept aside, the reset bit is raised and lowered, and the
/// configuration is written back.
pub open spec fn spec_reset(periph: Peripheral) -> Seq<Op> {
    seq![
        clear_bits(i2c_reg(periph, I2cReg::Cr1), I2C_CR1_TRANSACTION_BITS),
        Op::Save(i2c_reg(periph, I2cReg::Cr1)),
        Op::Save(i2c_reg(periph, I2cReg::Cr2)),
        Op::Save(i2c_reg(periph, I2cReg::Oar1)),
        Op::Save(i2c_reg(periph, I2cReg::Oar2)),
        Op::Save(i2c_reg(periph, I2cReg::Ccr)),
        Op::Save(i2c_reg(periph, I2cReg::Trise)),
        Op::Save(i2c_reg(periph, I2cReg::Fltr)),
        set_bits(i2c_reg(periph, I2cReg::Cr1), I2C_CR1_SWRST),
        clear_bits(i2c_reg(periph, I2cReg::Cr1), I2C_CR1_SWRST),
        Op::Restore(i2c_reg(periph, I2cReg::Cr2)),
        Op::Restore(i2c_reg(periph, I2cReg::Oar1)),
        Op::Restore(i2c_reg(periph, I2cReg::Oar2)),
        Op::Restore(i2c_reg(periph, I2cReg::Ccr)),
        Op::Restore(i2c_reg(periph, I2cReg::Trise)),
        Op::Restore(i2c_reg(periph, I2cReg::Fltr)),
        Op::Restore(i2c_reg(periph, I2cReg::Cr1)),
    ]
}

/// Setting the timing for standard mode (100 kHz) from the frequency of the
/// peripheral's clock.
pub open spec fn spec_set_100mhz_standard_mode(periph: Peripheral, periph_freq_hz: u32) -> Seq<
    Op,
> {
    seq![
        set_bits(
            i2c_reg(periph, I2cReg::Cr2),
            ((periph_freq_hz / 1_000_000) as u32) & I2C_CR2_FREQ_MASK,
        ),
        Op::Write {
            reg: i2c_reg(periph, I2cReg::Ccr),
            value: ((periph_freq_hz / 200_000) as u32) & I2C_CCR_CCR_MASK,
        },
        Op::Write {
            reg: i2c_reg(periph, I2cReg::Trise),
            value: ((periph_freq_hz / 1_000_000 + 1) as u32) & I2C_TRISE_TRISE_MASK,
        },
    ]
}

impl I2C {
    /// The register interface of a peripheral.
    pub fn get_periph(periph: Peripheral) -> (i2c: I2C)
        ensures
            i2c.periph == periph,
    {
        I2C { periph }
    }

    /// Resets the peripheral and keeps its configuration.
    pub fn reset(&self) -> (ops: Vec<Op>)
        ensures
            ops@ == spec_reset(self.periph),
            data_reads(ops@) == 0,
    {
        let p = self.periph;
        let mut ops: Vec<Op> = Vec::new();
        push_op(&mut ops, self.clear_transaction_ctrl_bits());
        push_op(&mut ops, Op::Save(Register::I2c(p, I2cReg::Cr1)));
        push_op(&mut ops, Op::Save(Register::I2c(p, I2cReg::Cr2)));
        push_op(&mut ops, Op::Save(Register::I2c(p, I2cReg::Oar1)));
        push_op(&mut ops, Op::Save(Register::I2c(p, I2cReg::Oar2)));
        push_op(&mut ops, Op::Save(Register::I2c(p, I2cReg::Ccr)));
        push_op(&mut ops, Op::Save(Register::I2c(p, I2cReg::Trise)));
        push_op(&mut ops, Op::Save(Register::I2c(p, I2cReg::Fltr)));
        push_op(
            &mut ops,
            Op::Modify {
                reg: Register::I2c(p, I2cReg::Cr1),
                clear: 0,
                set: I2C_CR1_SWRST,
            },
        );
        push_op(
            &mut ops,
            Op::Modify {
                reg: Register::I2c(p, I2cReg::Cr1),
                clear: I2C_CR1_SWRST,
                set: 0,
            },
        );
        push_op(&mut ops, Op::Restore(Register::I2c(p, I2cReg::Cr2)));
        push_op(&mut ops, Op::Restore(Register::I2c(p, I2cReg::Oar1)));
        push_op(&mut ops, Op::Restore(Register::I2c(p, I2cReg::Oar2)));
        push_op(&mut ops, Op::Restore(Register::I2c(p, I2cReg::Ccr)));
        push_op(&mut ops, Op::Restore(Register::I2c(p, I2cReg::Trise)));
        push_op(&mut ops, Op::Restore(Register::I2c(p, I2cReg::Fltr)));
        push_op(&mut ops, Op::Restore(Register::I2c(p, I2cReg::Cr1)));
        proof {
            assert(ops@ =~= spec_reset(p));
        }
        ops
    }

    /// Clears the flags of a bus error, a lost arbitration, a missing
    /// acknowledge and an overrun.
    pub fn clear_error_flags(&self) -> (op: Op)
        ensures
            op == clear_bits(i2c_reg(self.periph, I2cReg::Sr1), I2C_SR1_ERROR_FLAGS),
    {
        Op::Modify {
            reg: Register::I2c(self.periph, I2cReg::Sr1),
            clear: I2C_SR1_ERROR_FLAGS,
            set: 0,
        }
    }

    /// Clears the bits that steer a transaction: acknowledge, acknowledge
    /// position, stop and start.
    pub fn clear_transaction_ctrl_bits(&self) -> (op: Op)
        ensures
            op == clear_bits(i2c_reg(self.periph, I2cReg::Cr1), I2C_CR1_TRANSACTION_BITS),
    {
        Op::Modify {
            reg: Register::I2c(self.periph, I2cReg::Cr1),
            clear: I2C_CR1_TRANSACTION_BITS,
            set: 0,
        }
    }

    /// Switches the peripheral on.
    pub fn enable_periph(&self) -> (op: Op)
        ensures
            op == set_bits(i2c_reg(self.periph, I2cReg::Cr1), I2C_CR1_PE),
    {
        Op::Modify { reg: Register::I2c(self.periph, I2cReg::Cr1), clear: 0, set: I2C_CR1_PE }
    }

    /// Switches the peripheral off.
    pub fn disable_periph(&self) -> (op: Op)
        ensures
            op == clear_bits(i2c_reg(self.periph, I2cReg::Cr1), I2C_CR1_PE),
    {
        Op::Modify { reg: Register::I2c(self.periph, I2cReg::Cr1), clear: I2C_CR1_PE, set: 0 }
    }

    /// Sets the timing for standard mode (100 kHz): the clock frequency in
    /// MHz, the clock divider for half a period of 5 us, and the maximum
    /// rise time of 1 us in clock cycles plus one.
    pub fn set_100mhz_standard_mode(&self, periph_freq_hz: u32) -> (ops: Vec<Op>)
        ensures
            ops@ == spec_set_100mhz_standard_mode(self.periph, periph_freq_hz),
            data_reads(ops@) == 0,
    {
        let ccr: u32 = periph_freq_hz / 200_000;
        let trise: u32 = periph_freq_hz / 1_000_000 + 1;
        let periph_freq_mhz: u32 = periph_freq_hz / 1_000_000;
        let mut ops: Vec<Op> = Vec::new();
        push_op(
            &mut ops,
            Op::Modify {
                reg: Register::I2c(self.periph, I2cReg::Cr2),
                clear: 0,
                set: periph_freq_mhz & I2C_CR2_FREQ_MASK,
            },
        );
        push_op(
            &mut ops,
            Op::Write {
                reg: Register::I2c(self.periph, I2cReg::Ccr),
                value: ccr & I2C_CCR_CCR_MASK,
            },
        );
        push_op(
            &mut ops,
            Op::Write {
                reg: Register::I2c(self.periph, I2cReg::Trise),
                value: trise & I2C_TRISE_TRISE_MASK,
            },
        );
        proof {
            assert(ops@ =~= spec_set_100mhz_standard_mode(self.periph, periph_freq_hz));
        }
        ops
    }

    /// Switches the analog noise filter on or off; the register holds the
    /// bit that switches it off.
    pub fn set_analog_filter_state(&self, new_state: bool) -> (op: Op)
        ensures
            op == if new_state {
                clear_bits(i2c_reg(self.periph, I2cReg::Fltr), I2C_FLTR_ANOFF)
            } else {
                set_bits(i2c_reg(self.periph, I2cReg::Fltr), I2C_FLTR_ANOFF)
            },
    {
        if new_state {
            Op::Modify {
                reg: Register::I2c(self.periph, I2cReg::Fltr),
                clear: I2C_FLTR_ANOFF,
                set: 0,
            }
        } else {
            Op::Modify {
                reg: Register::I2c(self.periph, I2cReg::Fltr),
                clear: 0,
                set: I2C_FLTR_ANOFF,
            }
        }
    }

    /// Sets the bits of the digital noise filter's length; the length is
    /// taken modulo 16.
    pub fn set_digital_filter_len(&self, new_len: u32) -> (op: Op)
        ensures
            op == set_bits(i2c_reg(self.periph, I2cReg::Fltr), new_len & I2C_FLTR_DNF_MASK),
    {
        Op::Modify {
            reg: Register::I2c(self.periph, I2cReg::Fltr),
            clear: 0,
            set: new_len & I2C_FLTR_DNF_MASK,
        }
    }

    /// Has the peripheral acknowledge the bytes it receives.
    pub fn enable_ack(&self) -> (op: Op)
        ensures
            op == set_bits(i2c_reg(self.periph, I2cReg::Cr1), I2C_CR1_ACK),
    {
        Op::Modify { reg: Register::I2c(self.periph, I2cReg::Cr1), clear: 0, set: I2C_CR1_ACK }
    }

    /// Has the peripheral not acknowledge the bytes it receives.
    pub fn disable_ack(&self) -> (op: Op)
        ensures
            op == clear_bits(i2c_reg(self.periph, I2cReg::Cr1), I2C_CR1_ACK),
    {
        Op::Modify { reg: Register::I2c(self.periph, I2cReg::Cr1), clear: I2C_CR1_ACK, set: 0 }
    }

    /// Has the peripheral acknowledge the byte that is being received and
    /// not the one after it.
    pub fn disable_ack_after_next_byte(&self) -> (op: Op)
        ensures
            op == (Op::Modify {
                reg: i2c_reg(self.periph, I2cReg::Cr1),
                clear: I2C_CR1_ACK,
                set: I2C_CR1_POS,
            }),
    {
        Op::Modify {
            reg: Register::I2c(self.periph, I2cReg::Cr1),
            clear: I2C_CR1_ACK,
            set: I2C_CR1_POS,
        }
    }

    /// Requests a start condition.
    pub fn send_start(&self) -> (op: Op)
        ensures
            op == set_bits(i2c_reg(self.periph, I2cReg::Cr1), I2C_CR1_START),
    {
        Op::Modify { reg: Register::I2c(self.periph, I2cReg::Cr1), clear: 0, set: I2C_CR1_START }
    }

    /// Requests a stop condition.
    pub fn send_stop(&self) -> (op: Op)
        ensures
            op == set_bits(i2c_reg(self.periph, I2cReg::Cr1), I2C_CR1_STOP),
    {
        Op::Modify { reg: Register::I2c(self.periph, I2cReg::Cr1), clear: 0, set: I2C_CR1_STOP }
    }

    /// Clears the flag of an acknowledged address: reads the first status
    /// register, then the second.
    pub fn clear_addr_flag(&self) -> (ops: Vec<Op>)
        ensures
            ops@ == spec_clear_addr_flag(self.periph),
            data_reads(ops@) == 0,
    {
        let mut ops: Vec<Op> = Vec::new();
        push_op(&mut ops, Op::Read(Register::I2c(self.periph, I2cReg::Sr1)));
        push_op(&mut ops, Op::Read(Register::I2c(self.periph, I2cReg::Sr2)));
        proof {
            assert(ops@ =~= spec_clear_addr_flag(self.periph));
        }
        ops
    }

    /// Has the peripheral raise an interrupt on the events of a transfer.
    pub fn enable_event_interrupts(&self) -> (op: Op)
        ensures
            op == set_bits(i2c_reg(self.periph, I2cReg::Cr2), I2C_CR2_ITEVTEN),
    {
        Op::Modify { reg: Register::I2c(self.periph, I2cReg::Cr2), clear: 0, set: I2C_CR2_ITEVTEN }
    }

    /// Has the peripheral raise an interrupt on an error.
    pub fn enable_error_interrupts(&self) -> (op: Op)
        ensures
            op == set_bits(i2c_reg(self.periph, I2cReg::Cr2), I2C_CR2_ITERREN),
    {
        Op::Modify { reg: Register::I2c(self.periph, I2cReg::Cr2), clear: 0, set: I2C_CR2_ITERREN }
    }

    /// Has the peripheral raise an interrupt when its data register can be
    /// written or read.
    pub fn enable_buffer_interrupts(&self) -> (op: Op)
        ensures
            op == set_bits(i2c_reg(self.periph, I2cReg::Cr2), I2C_CR2_ITBUFEN),
    {
        Op::Modify { reg: Register::I2c(self.periph, I2cReg::Cr2), clear: 0, set: I2C_CR2_ITBUFEN }
    }

    /// Stops the interrupts on the data register.
    pub fn disable_buffer_interrupts(&self) -> (op: Op)
        ensures
            op == clear_bits(i2c_reg(self.periph, I2cReg::Cr2), I2C_CR2_ITBUFEN),
    {
        Op::Modify { reg: Register::I2c(self.periph, I2cReg::Cr2), clear: I2C_CR2_ITBUFEN, set: 0 }
    }

    /// Whether the status word says that the address was acknowledged.
    pub fn is_addr_set(&self, sr1: u32) -> (set: bool)
        ensures
            set == (sr1 & I2C_SR1_ADDR != 0),
    {
        sr1 & I2C_SR1_ADDR != 0
    }

    /// Whether the status word says that the data register can be written.
    pub fn is_txe_set(&self, sr1: u32) -> (set: bool)
        ensures
            set == (sr1 & I2C_SR1_TXE != 0),
    {
        sr1 & I2C_SR1_TXE != 0
    }

    /// Whether the status word says that the data register holds a byte.
    pub fn is_rxne_set(&self, sr1: u32) -> (set: bool)
        ensures
            set == (sr1 & I2C_SR1_RXNE != 0),
    {
        sr1 & I2C_SR1_RXNE != 0
    }

    /// Whether the status word says that the transfer of a byte finished.
    pub fn is_btf_set(&self, sr1: u32) -> (set: bool)
        ensures
            set == (sr1 & I2C_SR1_BTF != 0),
    {
        sr1 & I2C_SR1_BTF != 0
    }

    /// Whether the status word says that the start condition was sent.
    pub fn is_sb_set(&self, sr1: u32) -> (set: bool)
        ensures
            set == (sr1 & I2C_SR1_SB != 0),
    {
        sr1 & I2C_SR1_SB != 0
    }

    /// Whether the status word holds an error flag.
    pub fn is_error_set(&self, sr1: u32) -> (set: bool)
        ensures
            set == (sr1 & I2C_SR1_ERROR_FLAGS != 0),
    {
        sr1 & I2C_SR1_ERROR_FLAGS != 0
    }

    /// Addresses a device for a transfer in the given direction.
    pub fn send_addr(&self, addr: u8, dir: CommDir) -> (op: Op)
        ensures
            op == spec_send_data(self.periph, address_byte(addr, dir == CommDir::Read)),
    {
        let dir_bit: u8 = match dir {
            CommDir::Read => 1,
            CommDir::Write => 0,
        };
        self.send_data((addr << 1u8) | dir_bit)
    }

    /// Reads the byte that was received.
    pub fn read_data(&self) -> (op: Op)
        ensures
            op == Op::ReadData(self.periph),
    {
        Op::ReadData(self.periph)
    }

    /// Writes a byte to send.
    pub fn send_data(&self, data_byte: u8) -> (op: Op)
        ensures
            op == spec_send_data(self.periph, data_byte),
    {
        Op::Write { reg: Register::I2c(self.periph, I2cReg::Dr), value: data_byte as u32 }
    }
}

/// Whether a status word says that the start condition was sent.
pub open spec fn sb(sr1: u32) -> bool {
    sr1 & I2C_SR1_SB != 0
}

/// Whether a status word says that the address was acknowledged.
pub open spec fn addr(sr1: u32) -> bool {
    sr1 & I2C_SR1_ADDR != 0
}

/// Whether a status word says that the data register can be written.
pub open spec fn txe(sr1: u32) -> bool {
    sr1 & I2C_SR1_TXE != 0
}

/// Whether a status word says that the data register holds a byte.
pub open spec fn rxne(sr1: u32) -> bool {
    sr1 & I2C_SR1_RXNE != 0
}

/// Whether a status word says that the transfer of a byte finished.
pub open spec fn btf(sr1: u32) -> bool {
    sr1 & I2C_SR1_BTF != 0
}

/// How the acknowledge is set up when a read step of `len` bytes was
/// addressed. The peripheral decides on the acknowledge of a byte while the
/// byte before it is still unread, so a single byte is refused from the
/// start, and of two bytes the second is refused from the start.
pub open spec fn spec_program_ack(periph: Peripheral, len: nat) -> Seq<Op> {
    if len == 1 {
        seq![
            clear_bits(i2c_reg(periph, I2cReg::Cr1), I2C_CR1_ACK),
            set_bits(i2c_reg(periph, I2cReg::Cr2), I2C_CR2_ITBUFEN),
        ]
    } else if len == 2 {
        seq![
            Op::Modify {
                reg: i2c_reg(periph, I2cReg::Cr1),
                clear: I2C_CR1_ACK,
                set: I2C_CR1_POS,
            },
        ]
    } else {
        seq![
            set_bits(i2c_reg(periph, I2cReg::Cr1), I2C_CR1_ACK),
            set_bits(i2c_reg(periph, I2cReg::Cr2), I2C_CR2_ITBUFEN),
        ]
    }
}

/// The request that ends a step: a stop condition after the last step, a
/// repeated start condition after any other.
pub open spec fn spec_end_step(periph: Peripheral, last: bool) -> Op {
    set_bits(
        i2c_reg(periph, I2cReg::Cr1),
        if last {
            I2C_CR1_STOP
        } else {
            I2C_CR1_START
        },
    )
}

/// The accesses of the event handler while the byte at `pos` of a read step
/// of `len` bytes is awaited.
pub open spec fn spec_receive_accesses(
    periph: Peripheral,
    pos: int,
    len: int,
    last: bool,
    sr1: u32,
) -> Seq<Op> {
    if pos + 1 == len {
        if rxne(sr1) {
            seq![Op::ReadData(periph)] + if last {
                seq![
                    spec_end_step(periph, true),
                    clear_bits(i2c_reg(periph, I2cReg::Cr2), I2C_CR2_ITBUFEN),
                ]
            } else {
                seq![spec_end_step(periph, false)]
            }
        } else {
            Seq::empty()
        }
    } else if pos + 2 == len {
        (if rxne(sr1) {
            seq![clear_bits(i2c_reg(periph, I2cReg::Cr1), I2C_CR1_ACK)]
        } else {
            Seq::empty()
        }) + if btf(sr1) {
            if last {
                seq![spec_end_step(periph, true), Op::ReadData(periph), Op::ReadData(periph)]
            } else {
                seq![Op::ReadData(periph), Op::ReadData(periph), spec_end_step(periph, false)]
            }
        } else {
            Seq::empty()
        }
    } else {
        if rxne(sr1) {
            (if pos + 3 == len {
                seq![clear_bits(i2c_reg(periph, I2cReg::Cr1), I2C_CR1_ACK)]
            } else {
                Seq::empty()
            }) + seq![Op::ReadData(periph)]
        } else {
            Seq::empty()
        }
    }
}

/// The register accesses of the event handler, for a context and the status
/// word that was read when the interrupt was taken.
pub open spec fn event_accesses(cv: ContextView, sr1: u32) -> Seq<Op> {
    match cv.transaction {
        None => spec_reset(cv.periph),
        Some(t) => {
            let step = t.current();
            let len = step.data.len();
            match cv.state {
                PeripheralState::StartBitSet => if sb(sr1) {
                    seq![spec_send_data(cv.periph, address_byte(t.device_addr, step.read))]
                } else {
                    Seq::empty()
                },
                PeripheralState::AddressSent => if !addr(sr1) {
                    Seq::empty()
                } else if step.read {
                    spec_program_ack(cv.periph, len) + spec_clear_addr_flag(cv.periph)
                } else {
                    spec_clear_addr_flag(cv.periph) + seq![spec_send_data(cv.periph, step.data[0])]
                        + if len >= 2 {
                        seq![set_bits(i2c_reg(cv.periph, I2cReg::Cr2), I2C_CR2_ITBUFEN)]
                    } else {
                        Seq::empty()
                    }
                },
                PeripheralState::Transmitting(pos) => if pos < len {
                    if txe(sr1) {
                        seq![spec_send_data(cv.periph, step.data[pos as int])]
                    } else {
                        Seq::empty()
                    }
                } else if btf(sr1) {
                    seq![
                        spec_end_step(cv.periph, t.on_last_step()),
                        clear_bits(i2c_reg(cv.periph, I2cReg::Cr2), I2C_CR2_ITBUFEN),
                    ]
                } else {
                    Seq::empty()
                },
                PeripheralState::Receiving(pos) => spec_receive_accesses(
                    cv.periph,
                    pos as int,
                    len as int,
                    t.on_last_step(),
                    sr1,
                ),
                PeripheralState::Done(_) => Seq::empty(),
            }
        },
    }
}

/// Number of bytes that the accesses of the event handler read from the
/// data register.
pub open spec fn event_reads(cv: ContextView, sr1: u32) -> nat {
    match (cv.transaction, cv.state) {
        (Some(t), PeripheralState::Receiving(pos)) => {
            let len = t.current().data.len();
            if pos + 2 == len {
                if btf(sr1) {
                    2
                } else {
                    0
                }
            } else if rxne(sr1) {
                1
            } else {
                0
            }
        },
        _ => 0,
    }
}

/// The context after a step of the transaction ended: in its final state
/// after the last step, else waiting for the start condition of the next.
pub open spec fn step_ended(cv: ContextView) -> ContextView {
    let t = cv.transaction->0;
    if t.on_last_step() {
        ContextView { state: PeripheralState::Done(0), ..cv }
    } else {
        ContextView {
            transaction: Some(t.advance()),
            state: PeripheralState::StartBitSet,
            ..cv
        }
    }
}

/// The context with `byte` stored at `pos` of the current step.
pub open spec fn byte_stored(cv: ContextView, pos: int, byte: u8) -> ContextView {
    ContextView { transaction: Some(cv.transaction->0.store(pos, byte)), ..cv }
}

/// The context after the event handler ran, for the status word that was
/// read when the interrupt was taken and the bytes that the handler's
/// accesses read from the data register.
pub open spec fn event_transition(cv: ContextView, sr1: u32, data: Seq<u8>) -> ContextView {
    match cv.transaction {
        None => cv,
        Some(t) => {
            let step = t.current();
            let len = step.data.len();
            match cv.state {
                PeripheralState::StartBitSet => if sb(sr1) {
                    ContextView { state: PeripheralState::AddressSent, ..cv }
                } else {
                    cv
                },
                PeripheralState::AddressSent => if !addr(sr1) {
                    cv
                } else if step.read {
                    ContextView { state: PeripheralState::Receiving(0), ..cv }
                } else {
                    ContextView { state: PeripheralState::Transmitting(1), ..cv }
                },
                PeripheralState::Transmitting(pos) => if pos < len {
                    if txe(sr1) {
                        ContextView {
                            state: PeripheralState::Transmitting((pos + 1) as usize),
                            ..cv
                        }
                    } else {
                        cv
                    }
                } else if btf(sr1) {
                    step_ended(cv)
                } else {
                    cv
                },
                PeripheralState::Receiving(pos) => if pos + 1 == len {
                    if rxne(sr1) {
                        step_ended(byte_stored(cv, pos as int, data[0]))
                    } else {
                        cv
                    }
                } else if pos + 2 == len {
                    if btf(sr1) {
                        step_ended(
                            byte_stored(byte_stored(cv, pos as int, data[0]), pos + 1, data[1]),
                        )
                    } else {
                        cv
                    }
                } else {
                    if rxne(sr1) {
                        ContextView {
                            state: PeripheralState::Receiving((pos + 1) as usize),
                            ..byte_stored(cv, pos as int, data[0])
                        }
                    } else {
                        cv
                    }
                },
                PeripheralState::Done(_) => cv,
            }
        },
    }
}

/// The accesses of the error handler: the error flags and the bits that
/// steer a transaction are cleared.
pub open spec fn error_accesses(periph: Peripheral) -> Seq<Op> {
    seq![
        clear_bits(i2c_reg(periph, I2cReg::Sr1), I2C_SR1_ERROR_FLAGS),
        clear_bits(i2c_reg(periph, I2cReg::Cr1), I2C_CR1_TRANSACTION_BITS),
    ]
}

/// The register accesses that the event interrupt calls for.
///
/// `sr1` is the first status register as read when the interrupt was taken.
/// The accesses are to be made in order; the bytes that the reads of the
/// data register return are then handed to `rust_i2c_interrupt_handler`
/// together with the same status word.
///
/// Without a transaction an event interrupt is unexpected, and the
/// peripheral is reset.
pub fn rust_i2c_interrupt_accesses(ctx: &InterruptContext, sr1: u32) -> (ops: Vec<Op>)
    requires
        ctx@.wf(),
    ensures
        ops@ == event_accesses(ctx@, sr1),
        data_reads(ops@) == event_reads(ctx@, sr1),
{
    let periph = I2C::get_periph(ctx.periph_id);
    let mut ops: Vec<Op> = Vec::new();
    match &ctx.current_transaction {
        None => {
            return periph.reset();
        },
        Some(trans) => {
            let step = trans.current();
            let len: usize = step.len();
            let last = trans.on_last_step();
            match ctx.state {
                PeripheralState::StartBitSet => {
                    if periph.is_sb_set(sr1) {
                        let dir = if step.is_read() {
                            CommDir::Read
                        } else {
                            CommDir::Write
                        };
                        push_op(&mut ops, periph.send_addr(trans.device_addr, dir));
                    }
                },
                PeripheralState::AddressSent => {
                    if periph.is_addr_set(sr1) {
                        if step.is_read() {
                            if len == 1 {
                                push_op(&mut ops, periph.disable_ack());
                                push_op(&mut ops, periph.enable_buffer_interrupts());
                            } else if len == 2 {
                                push_op(&mut ops, periph.disable_ack_after_next_byte());
                            } else {
                                push_op(&mut ops, periph.enable_ack());
                                push_op(&mut ops, periph.enable_buffer_interrupts());
                            }
                            extend(&mut ops, periph.clear_addr_flag());
                        } else {
                            extend(&mut ops, periph.clear_addr_flag());
                            push_op(&mut ops, periph.send_data(step.as_ref()[0]));
                            if len >= 2 {
                                push_op(&mut ops, periph.enable_buffer_interrupts());
                            }
                        }
                    }
                },
                PeripheralState::Transmitting(next_byte_pos) => {
                    if next_byte_pos < len {
                        if periph.is_txe_set(sr1) {
                            push_op(&mut ops, periph.send_data(step.as_ref()[next_byte_pos]));
                        }
                    } else if periph.is_btf_set(sr1) {
                        if last {
                            push_op(&mut ops, periph.send_stop());
                        } else {
                            push_op(&mut ops, periph.send_start());
                        }
                        push_op(&mut ops, periph.disable_buffer_interrupts());
                    }
                },
                PeripheralState::Receiving(next_byte_pos) => {
                    if next_byte_pos + 1 == len {
                        if periph.is_rxne_set(sr1) {
                            push_op(&mut ops, periph.read_data());
                            if last {
                                push_op(&mut ops, periph.send_stop());
                                push_op(&mut ops, periph.disable_buffer_interrupts());
                            } else {
                                push_op(&mut ops, periph.send_start());
                            }
                        }
                    } else if next_byte_pos + 2 == len {
                        if periph.is_rxne_set(sr1) {
                            push_op(&mut ops, periph.disable_ack());
                        }
                        if periph.is_btf_set(sr1) {
                            if last {
                                push_op(&mut ops, periph.send_stop());
                            }
                            push_op(&mut ops, periph.read_data());
                            push_op(&mut ops, periph.read_data());
                            if !last {
                                push_op(&mut ops, periph.send_start());
                            }
                        }
                    } else {
                        if periph.is_rxne_set(sr1) {
                            if next_byte_pos + 3 == len {
                                push_op(&mut ops, periph.disable_ack());
                            }
                            push_op(&mut ops, periph.read_data());
                        }
                    }
                },
                PeripheralState::Done(_) => {},
            }
        },
    }
    proof {
        assert(ops@ =~= event_accesses(ctx@, sr1));
    }
    ops
}

/// The state transition of the event interrupt.
///
/// `sr1` is the status word that was handed to
/// `rust_i2c_interrupt_accesses`, and `data` holds the bytes that the
/// accesses read from the data register, in order. At most one transition is
/// made; while the flag that the state waits for is not set, nothing
/// changes.
pub fn rust_i2c_interrupt_handler(ctx: &mut InterruptContext, sr1: u32, data: &Vec<u8>)
    requires
        old(ctx)@.wf(),
        data@.len() == event_reads(old(ctx)@, sr1),
    ensures
        final(ctx)@ == event_transition(old(ctx)@, sr1, data@),
        final(ctx)@.wf(),
{
    let periph = I2C::get_periph(ctx.periph_id);
    let state = ctx.state;
    let mut next = state;
    match &mut ctx.current_transaction {
        None => {},
        Some(trans) => {
            let len: usize = trans.current().len();
            let last = trans.on_last_step();
            match state {
                PeripheralState::StartBitSet => {
                    if periph.is_sb_set(sr1) {
                        next = PeripheralState::AddressSent;
                    }
                },
                PeripheralState::AddressSent => {
                    if periph.is_addr_set(sr1) {
                        if trans.current().is_read() {
                            next = PeripheralState::Receiving(0);
                        } else {
                            next = PeripheralState::Transmitting(1);
                        }
                    }
                },
                PeripheralState::Transmitting(next_byte_pos) => {
                    if next_byte_pos < len {
                        if periph.is_txe_set(sr1) {
                            next = PeripheralState::Transmitting(next_byte_pos + 1);
                        }
                    } else if periph.is_btf_set(sr1) {
                        if last {
                            next = PeripheralState::Done(0);
                        } else {
                            trans.advance();
                            next = PeripheralState::StartBitSet;
                        }
                    }
                },
                PeripheralState::Receiving(next_byte_pos) => {
                    if next_byte_pos + 1 == len {
                        if periph.is_rxne_set(sr1) {
                            trans.store(next_byte_pos, data[0]);
                            if last {
                                next = PeripheralState::Done(0);
                            } else {
                                trans.advance();
                                next = PeripheralState::StartBitSet;
                            }
                        }
                    } else if next_byte_pos + 2 == len {
                        if periph.is_btf_set(sr1) {
                            trans.store(next_byte_pos, data[0]);
                            trans.store(next_byte_pos + 1, data[1]);
                            if last {
                                next = PeripheralState::Done(0);
                            } else {
                                trans.advance();
                                next = PeripheralState::StartBitSet;
                            }
                        }
                    } else {
                        if periph.is_rxne_set(sr1) {
                            trans.store(next_byte_pos, data[0]);
                            next = PeripheralState::Receiving(next_byte_pos + 1);
                        }
                    }
                },
                PeripheralState::Done(_) => {},
            }
        },
    }
    ctx.state = next;
}

/// The error interrupt: ends the transaction with an error and returns the
/// accesses that clear the error flags and the bits that steer a
/// transaction. No other register is touched.
pub fn rust_i2c_interrupt_error_handler(ctx: &mut InterruptContext) -> (ops: Vec<Op>)
    ensures
        final(ctx)@ == (ContextView {
            state: PeripheralState::Done(TRANSACTION_ERROR),
            ..old(ctx)@
        }),
        old(ctx)@.wf() ==> final(ctx)@.wf(),
        ops@ == error_accesses(old(ctx)@.periph),
        data_reads(ops@) == 0,
{
    let periph = I2C::get_periph(ctx.periph_id);
    let mut ops: Vec<Op> = Vec::new();
    push_op(&mut ops, periph.clear_error_flags());
    push_op(&mut ops, periph.clear_transaction_ctrl_bits());
    ctx.state = PeripheralState::Done(TRANSACTION_ERROR);
    proof {
        assert(ops@ =~= error_accesses(periph.periph));
    }
    ops
}

/// Frequency of the clock that drives the I2C peripherals.
pub const I2C_PERIPH_FREQ_HZ: u32 = 48_000_000;

/// Length of the digital noise filter, in clock cycles.
pub const I2C_DIGITAL_FILTER_LEN: u32 = 0x0f;

/// Number of clock pulses that free a bus which a device holds.
pub const DEBLOCK_PULSES: usize = 9;

/// Time for which the clock line is held at each level of a pulse, in
/// microseconds. With the overhead of the wait this gives pulses of about
/// 100 kHz.
pub const DEBLOCK_HALF_PERIOD_US: u32 = 2;

pub open spec fn spec_sda_pin(periph: Peripheral) -> Pin {
    match periph {
        Peripheral::I2C1 => Pin { port: Gpio::GpioB, pin_num: PinNum::Pin9 },
        Peripheral::I2C2 => Pin { port: Gpio::GpioB, pin_num: PinNum::Pin3 },
        Peripheral::I2C3 => Pin { port: Gpio::GpioC, pin_num: PinNum::Pin9 },
    }
}

pub open spec fn spec_scl_pin(periph: Peripheral) -> Pin {
    match periph {
        Peripheral::I2C1 => Pin { port: Gpio::GpioB, pin_num: PinNum::Pin6 },
        Peripheral::I2C2 => Pin { port: Gpio::GpioB, pin_num: PinNum::Pin10 },
        Peripheral::I2C3 => Pin { port: Gpio::GpioA, pin_num: PinNum::Pin8 },
    }
}

/// The pin of the peripheral's data line.
#[verifier::when_used_as_spec(spec_sda_pin)]
pub fn sda_pin(periph: Peripheral) -> (pin: Pin)
    ensures
        pin == spec_sda_pin(periph),
{
    match periph {
        Peripheral::I2C1 => Pin::new(Gpio::GpioB, PinNum::Pin9),
        Peripheral::I2C2 => Pin::new(Gpio::GpioB, PinNum::Pin3),
        Peripheral::I2C3 => Pin::new(Gpio::GpioC, PinNum::Pin9),
    }
}

/// The pin of the peripheral's clock line.
#[verifier::when_used_as_spec(spec_scl_pin)]
pub fn scl_pin(periph: Peripheral) -> (pin: Pin)
    ensures
        pin == spec_scl_pin(periph),
{
    match periph {
        Peripheral::I2C1 => Pin::new(Gpio::GpioB, PinNum::Pin6),
        Peripheral::I2C2 => Pin::new(Gpio::GpioB, PinNum::Pin10),
        Peripheral::I2C3 => Pin::new(Gpio::GpioA, PinNum::Pin8),
    }
}

/// The mode of a bus line that the peripheral drives.
pub open spec fn bus_line_mode() -> Mode {
    Mode::AlternateFunction(AltFuncNum::Af4, OutputType::OpenDrain, OutputSpeed::High)
}

/// The mode of a bus line that is driven by hand.
pub open spec fn manual_line_mode() -> Mode {
    Mode::Output(OutputType::OpenDrain, OutputSpeed::High)
}

/// Setting up a bus line: its pull-up, then its mode.
pub open spec fn line_setup(pin: Pin, mode: Mode) -> Seq<Op> {
    seq![pin.spec_set_pullup_pulldown_mode(PullUpDown::PullUp)] + pin.spec_set_mode(mode)
}

/// Switching on the clocks of the ports that hold the peripheral's lines.
pub open spec fn port_clocks(periph: Peripheral) -> Seq<Op> {
    match periph {
        Peripheral::I2C1 => seq![spec_enable_periph(crate::rcc::Peripheral::GpioB)],
        Peripheral::I2C2 => seq![spec_enable_periph(crate::rcc::Peripheral::GpioB)],
        Peripheral::I2C3 => seq![
            spec_enable_periph(crate::rcc::Peripheral::GpioA),
            spec_enable_periph(crate::rcc::Peripheral::GpioC),
        ],
    }
}

/// The peripheral's own clock.
pub open spec fn peripheral_clock(periph: Peripheral) -> crate::rcc::Peripheral {
    match periph {
        Peripheral::I2C1 => crate::rcc::Peripheral::I2C1,
        Peripheral::I2C2 => crate::rcc::Peripheral::I2C2,
        Peripheral::I2C3 => crate::rcc::Peripheral::I2C3,
    }
}

/// The peripheral's event interrupt.
pub open spec fn event_interrupt(periph: Peripheral) -> Interrupt {
    match periph {
        Peripheral::I2C1 => Interrupt::I2C1Ev,
        Peripheral::I2C2 => Interrupt::I2C2Ev,
        Peripheral::I2C3 => Interrupt::I2C3Ev,
    }
}

/// The peripheral's error interrupt.
pub open spec fn error_interrupt(periph: Peripheral) -> Interrupt {
    match periph {
        Peripheral::I2C1 => Interrupt::I2C1Er,
        Peripheral::I2C2 => Interrupt::I2C2Er,
        Peripheral::I2C3 => Interrupt::I2C3Er,
    }
}

/// Enabling an interrupt line with a group priority and a subpriority.
pub open spec fn interrupt_setup(
    line: Interrupt,
    prio: u8,
    subprio: u8,
    grouping: ItPriorityGrouping,
) -> Seq<Op> {
    seq![
        spec_enable_interrupt(line),
        spec_set_priority(line, prio, grouping),
        spec_set_subpriority(line, subprio, grouping),
    ]
}

/// Setting up the peripheral's registers: a reset, the timing for standard
/// mode, the event and error interrupts, both noise filters, and the
/// peripheral switched on.
pub open spec fn register_setup(periph: Peripheral) -> Seq<Op> {
    spec_reset(periph) + spec_set_100mhz_standard_mode(periph, I2C_PERIPH_FREQ_HZ) + seq![
        set_bits(i2c_reg(periph, I2cReg::Cr2), I2C_CR2_ITEVTEN),
        set_bits(i2c_reg(periph, I2cReg::Cr2), I2C_CR2_ITERREN),
        clear_bits(i2c_reg(periph, I2cReg::Fltr), I2C_FLTR_ANOFF),
        set_bits(i2c_reg(periph, I2cReg::Fltr), I2C_DIGITAL_FILTER_LEN & I2C_FLTR_DNF_MASK),
        set_bits(i2c_reg(periph, I2cReg::Cr1), I2C_CR1_PE),
    ]
}

/// Initialising a peripheral: the clocks of its ports, both bus lines handed
/// to the peripheral, its own clock, its two interrupts with the event
/// interrupt below the error interrupt, and its registers.
pub open spec fn spec_peripheral_init(periph: Peripheral, grouping: ItPriorityGrouping) -> Seq<
    Op,
> {
    port_clocks(periph) + line_setup(spec_sda_pin(periph), bus_line_mode()) + line_setup(
        spec_scl_pin(periph),
        bus_line_mode(),
    ) + seq![spec_enable_periph(peripheral_clock(periph))] + interrupt_setup(
        event_interrupt(periph),
        1,
        1,
        grouping,
    ) + interrupt_setup(error_interrupt(periph), 1, 0, grouping) + register_setup(periph)
}

/// `count` clock pulses on a line that is driven by hand: high, wait, low,
/// wait.
pub open spec fn clock_pulses(scl: Pin, count: nat) -> Seq<Op>
    decreases count,
{
    if count == 0 {
        Seq::empty()
    } else {
        clock_pulses(scl, (count - 1) as nat) + seq![
            scl.spec_set(),
            Op::WaitUs(DEBLOCK_HALF_PERIOD_US),
            scl.spec_reset(),
            Op::WaitUs(DEBLOCK_HALF_PERIOD_US),
        ]
    }
}

/// Freeing the bus: the peripheral is reset, both lines are driven by hand
/// as open-drain outputs with pull-ups, the data line is released high, the
/// clock line is pulsed nine times and left high, and the peripheral is
/// initialised again.
pub open spec fn spec_deblock_bus(periph: Peripheral, grouping: ItPriorityGrouping) -> Seq<Op> {
    spec_reset(periph) + line_setup(spec_sda_pin(periph), manual_line_mode()) + line_setup(
        spec_scl_pin(periph),
        manual_line_mode(),
    ) + seq![spec_sda_pin(periph).spec_set()] + clock_pulses(
        spec_scl_pin(periph),
        DEBLOCK_PULSES as nat,
    ) + seq![spec_scl_pin(periph).spec_set()] + spec_peripheral_init(periph, grouping)
}

fn push_line_setup(ops: &mut Vec<Op>, pin: Pin, mode: Mode)
    ensures
        final(ops)@ == old(ops)@ + line_setup(pin, mode),
{
    ops.push(pin.set_pullup_pulldown_mode(PullUpDown::PullUp));
    extend(ops, pin.set_mode(mode));
    proof {
        assert(ops@ =~= old(ops)@ + line_setup(pin, mode));
    }
}

fn push_interrupt_setup(
    ops: &mut Vec<Op>,
    line: Interrupt,
    prio: u8,
    subprio: u8,
    grouping: ItPriorityGrouping,
)
    ensures
        final(ops)@ == old(ops)@ + interrupt_setup(line, prio, subprio, grouping),
{
    ops.push(enable_interrupt(line));
    ops.push(set_priority(line, prio, grouping));
    ops.push(set_subpriority(line, subprio, grouping));
    proof {
        assert(ops@ =~= old(ops)@ + interrupt_setup(line, prio, subprio, grouping));
    }
}

fn push_register_setup(ops: &mut Vec<Op>, i2c: I2C)
    ensures
        final(ops)@ == old(ops)@ + register_setup(i2c.periph),
{
    extend(ops, i2c.reset());
    extend(ops, i2c.set_100mhz_standard_mode(I2C_PERIPH_FREQ_HZ));
    ops.push(i2c.enable_event_interrupts());
    ops.push(i2c.enable_error_interrupts());
    ops.push(i2c.set_analog_filter_state(true));
    ops.push(i2c.set_digital_filter_len(I2C_DIGITAL_FILTER_LEN));
    ops.push(i2c.enable_periph());
    proof {
        assert(ops@ =~= old(ops)@ + register_setup(i2c.periph));
    }
}

/// The program that initialises a peripheral. It is to be run once at boot,
/// before any transaction is submitted, and again at the end of every bus
/// recovery. `grouping` is the priority grouping that the system control
/// block holds.
pub fn peripheral_init(periph: Peripheral, grouping: ItPriorityGrouping) -> (ops: Vec<Op>)
    ensures
        ops@ == spec_peripheral_init(periph, grouping),
{
    let i2c = I2C::get_periph(periph);
    let mut ops: Vec<Op> = Vec::new();
    match periph {
        Peripheral::I2C1 => {
            ops.push(enable_periph(crate::rcc::Peripheral::GpioB));
        },
        Peripheral::I2C2 => {
            ops.push(enable_periph(crate::rcc::Peripheral::GpioB));
        },
        Peripheral::I2C3 => {
            ops.push(enable_periph(crate::rcc::Peripheral::GpioA));
            ops.push(enable_periph(crate::rcc::Peripheral::GpioC));
        },
    }
    assert(ops@ =~= port_clocks(periph));
    let mode = Mode::AlternateFunction(AltFuncNum::Af4, OutputType::OpenDrain, OutputSpeed::High);
    push_line_setup(&mut ops, sda_pin(periph), mode);
    push_line_setup(&mut ops, scl_pin(periph), mode);
    match periph {
        Peripheral::I2C1 => {
            ops.push(enable_periph(crate::rcc::Peripheral::I2C1));
            push_interrupt_setup(&mut ops, Interrupt::I2C1Ev, 1, 1, grouping);
            push_interrupt_setup(&mut ops, Interrupt::I2C1Er, 1, 0, grouping);
        },
        Peripheral::I2C2 => {
            ops.push(enable_periph(crate::rcc::Peripheral::I2C2));
            push_interrupt_setup(&mut ops, Interrupt::I2C2Ev, 1, 1, grouping);
            push_interrupt_setup(&mut ops, Interrupt::I2C2Er, 1, 0, grouping);
        },
        Peripheral::I2C3 => {
            ops.push(enable_periph(crate::rcc::Peripheral::I2C3));
            push_interrupt_setup(&mut ops, Interrupt::I2C3Ev, 1, 1, grouping);
            push_interrupt_setup(&mut ops, Interrupt::I2C3Er, 1, 0, grouping);
        },
    }
    push_register_setup(&mut ops, i2c);
    proof {
        assert(ops@ =~= spec_peripheral_init(periph, grouping));
    }
    ops
}

/// The program that frees a bus on which a device holds a line low. It is
/// run when a transaction has failed, whatever the cause, and does not run
/// the transaction again.
pub fn deblock_bus(periph: Peripheral, grouping: ItPriorityGrouping) -> (ops: Vec<Op>)
    ensures
        ops@ == spec_deblock_bus(periph, grouping),
{
    let i2c = I2C::get_periph(periph);
    let sda = sda_pin(periph);
    let scl = scl_pin(periph);
    let mode = Mode::Output(OutputType::OpenDrain, OutputSpeed::High);
    let mut ops: Vec<Op> = i2c.reset();
    push_line_setup(&mut ops, sda, mode);
    push_line_setup(&mut ops, scl, mode);
    ops.push(sda.set());
    let ghost before = ops@;
    let mut i: usize = 0;
    while i < DEBLOCK_PULSES
        invariant
            i <= DEBLOCK_PULSES,
            ops@ == before + clock_pulses(scl, i as nat),
        decreases DEBLOCK_PULSES - i,
    {
        ops.push(scl.set());
        ops.push(Op::WaitUs(DEBLOCK_HALF_PERIOD_US));
        ops.push(scl.reset());
        ops.push(Op::WaitUs(DEBLOCK_HALF_PERIOD_US));
        i = i + 1;
        proof {
            assert(ops@ =~= before + clock_pulses(scl, i as nat));
        }
    }
    ops.push(scl.set());
    extend(&mut ops, peripheral_init(periph, grouping));
    proof {
        assert(ops@ =~= spec_deblock_bus(periph, grouping));
    }
    ops
}

} // verus!
