//! A simulated bus: a model of one I2C peripheral and of a device on its
//! bus.
//!
//! The model performs register programs as the hardware would. Every
//! condition that the engine waits for has occurred by the time the status
//! is read: the start condition is sent as soon as it is requested, the
//! addressed device acknowledges at once, and data moves as fast as the
//! engine asks for it. The model records what it was asked to do, so that a
//! test can inspect it. Unless it is told otherwise the bus has no fault;
//! it can be told to raise a bus error after a number of interrupts.

use vstd::prelude::*;
use crate::hw::{spec_modified, modified, I2cReg, Op, Register};
use crate::i2c::Peripheral;
use crate::i2c_v1::{
    I2C_CR1_ACK, I2C_CR1_START, I2C_CR1_STOP, I2C_CR1_SWRST, I2C_SR1_ADDR, I2C_SR1_BERR,
    I2C_SR1_BTF, I2C_SR1_RXNE, I2C_SR1_SB, I2C_SR1_TXE,
};

verus! {

/// The byte that is read from a bus on which no device drives the data line.
pub const IDLE_BYTE: u8 = 0xff;

/// The registers of a peripheral that hold its configuration.
#[derive(Clone, Copy, PartialEq, Eq, Debug, Structural)]
pub struct Config {
    pub cr1: u32,
    pub cr2: u32,
    pub oar1: u32,
    pub oar2: u32,
    pub ccr: u32,
    pub trise: u32,
    pub fltr: u32,
}

/// Where the simulated bus stands in a transfer.
#[derive(Clone, Copy, PartialEq, Eq, Debug, Structural)]
pub enum BusPhase {
    /// No transfer is running.
    Idle,
    /// A start condition was sent.
    Started,
    /// The device acknowledged its address; the value says whether it was
    /// addressed for a read.
    Addressed(bool),
    /// Data moves; the value says whether the device sends it.
    Streaming(bool),
}

/// The simulated bus.
#[derive(Debug)]
pub struct SimulatedBus {
    /// The peripheral that the bus models.
    pub periph: Peripheral,
    /// The configuration registers.
    pub regs: Config,
    /// The values that were kept aside.
    pub saved: Config,
    /// Where the bus stands in a transfer.
    pub phase: BusPhase,
    /// Whether the first status register was read since the address was
    /// acknowledged.
    pub sr1_read: bool,
    /// The bytes that the device sends, in order.
    pub incoming: Vec<u8>,
    /// Number of bytes that the device has sent.
    pub consumed: usize,
    /// Every byte that a read of the data register returned.
    pub received: Vec<u8>,
    /// Every byte that was written to the data register while it could go
    /// out: address bytes and data.
    pub sent: Vec<u8>,
    /// For every byte that the device sent, whether the acknowledge bit was
    /// set when the byte was read.
    pub acks: Vec<bool>,
    /// Every access that was performed.
    pub log: Vec<Op>,
    /// Number of event interrupts that the bus still serves before it
    /// raises a bus error; at zero the error flag is set. Without a value
    /// the bus has no fault.
    pub fault_in: Option<usize>,
}

/// What the simulated bus is: its fields, with sequences for vectors.
pub struct BusView {
    pub periph: Peripheral,
    pub regs: Config,
    pub saved: Config,
    pub phase: BusPhase,
    pub sr1_read: bool,
    pub incoming: Seq<u8>,
    pub consumed: nat,
    pub received: Seq<u8>,
    pub sent: Seq<u8>,
    pub acks: Seq<bool>,
    pub log: Seq<Op>,
    pub fault_in: Option<nat>,
}

/// Whether a register holds configuration.
pub open spec fn spec_is_config(reg: I2cReg) -> bool {
    !(reg is Dr || reg is Sr1 || reg is Sr2)
}

/// Whether a register holds configuration.
#[verifier::when_used_as_spec(spec_is_config)]
pub fn is_config(reg: I2cReg) -> (b: bool)
    ensures
        b == spec_is_config(reg),
{
    match reg {
        I2cReg::Dr => false,
        I2cReg::Sr1 => false,
        I2cReg::Sr2 => false,
        _ => true,
    }
}

impl Config {
    /// The configuration after a reset: every register is zero.
    pub open spec fn spec_zero() -> Config {
        Config { cr1: 0, cr2: 0, oar1: 0, oar2: 0, ccr: 0, trise: 0, fltr: 0 }
    }

    /// The configuration after a reset: every register is zero.
    #[verifier::when_used_as_spec(spec_zero)]
    pub fn zero() -> (c: Config)
        ensures
            c == Config::spec_zero(),
    {
        Config { cr1: 0, cr2: 0, oar1: 0, oar2: 0, ccr: 0, trise: 0, fltr: 0 }
    }

    pub open spec fn spec_get(self, reg: I2cReg) -> u32 {
        match reg {
            I2cReg::Cr1 => self.cr1,
            I2cReg::Cr2 => self.cr2,
            I2cReg::Oar1 => self.oar1,
            I2cReg::Oar2 => self.oar2,
            I2cReg::Ccr => self.ccr,
            I2cReg::Trise => self.trise,
            I2cReg::Fltr => self.fltr,
            _ => 0,
        }
    }

    /// The value of a configuration register; zero for any other register.
    #[verifier::when_used_as_spec(spec_get)]
    pub fn get(self, reg: I2cReg) -> (v: u32)
        ensures
            v == self.spec_get(reg),
    {
        match reg {
            I2cReg::Cr1 => self.cr1,
            I2cReg::Cr2 => self.cr2,
            I2cReg::Oar1 => self.oar1,
            I2cReg::Oar2 => self.oar2,
            I2cReg::Ccr => self.ccr,
            I2cReg::Trise => self.trise,
            I2cReg::Fltr => self.fltr,
            _ => 0,
        }
    }

    pub open spec fn spec_with(self, reg: I2cReg, value: u32) -> Config {
        match reg {
            I2cReg::Cr1 => Config { cr1: value, ..self },
            I2cReg::Cr2 => Config { cr2: value, ..self },
            I2cReg::Oar1 => Config { oar1: value, ..self },
            I2cReg::Oar2 => Config { oar2: value, ..self },
            I2cReg::Ccr => Config { ccr: value, ..self },
            I2cReg::Trise => Config { trise: value, ..self },
            I2cReg::Fltr => Config { fltr: value, ..self },
            _ => self,
        }
    }

    /// The configuration with a value in a configuration register; the same
    /// configuration for any other register.
    #[verifier::when_used_as_spec(spec_with)]
    pub fn with(self, reg: I2cReg, value: u32) -> (c: Config)
        ensures
            c == self.spec_with(reg, value),
    {
        match reg {
            I2cReg::Cr1 => Config { cr1: value, ..self },
            I2cReg::Cr2 => Config { cr2: value, ..self },
            I2cReg::Oar1 => Config { oar1: value, ..self },
            I2cReg::Oar2 => Config { oar2: value, ..self },
            I2cReg::Ccr => Config { ccr: value, ..self },
            I2cReg::Trise => Config { trise: value, ..self },
            I2cReg::Fltr => Config { fltr: value, ..self },
            _ => self,
        }
    }
}

/// The value that a configuration register holds after `value` was written
/// to it. The peripheral clears the requests for a start and a stop
/// condition itself once it has taken them.
pub open spec fn spec_held(reg: I2cReg, value: u32) -> u32 {
    if reg is Cr1 {
        value & !(I2C_CR1_START | I2C_CR1_STOP)
    } else {
        value
    }
}

/// The value that a configuration register holds after `value` was written
/// to it.
#[verifier::when_used_as_spec(spec_held)]
pub fn held(reg: I2cReg, value: u32) -> (v: u32)
    ensures
        v == spec_held(reg, value),
{
    match reg {
        I2cReg::Cr1 => value & !(I2C_CR1_START | I2C_CR1_STOP),
        _ => value,
    }
}

impl BusView {
    /// The device has not sent more bytes than it has.
    pub open spec fn wf(self) -> bool {
        self.consumed <= self.incoming.len()
    }

    /// Whether the flag of a bus error is set.
    pub open spec fn faulted(self) -> bool {
        self.fault_in == Some(0nat)
    }

    /// The first status register: the flag of a bus error if one was
    /// raised, else the flag of the condition that the phase has reached.
    pub open spec fn status(self) -> u32 {
        if self.faulted() {
            I2C_SR1_BERR
        } else {
            match self.phase {
                BusPhase::Idle => 0,
                BusPhase::Started => I2C_SR1_SB,
                BusPhase::Addressed(_) => I2C_SR1_ADDR,
                BusPhase::Streaming(true) => I2C_SR1_RXNE | I2C_SR1_BTF,
                BusPhase::Streaming(false) => I2C_SR1_TXE | I2C_SR1_BTF,
            }
        }
    }

    /// The bus after it has served an event interrupt: one interrupt less
    /// is left before the bus error.
    pub open spec fn counted(self) -> BusView {
        match self.fault_in {
            Some(left) => if left > 0 {
                BusView { fault_in: Some((left - 1) as nat), ..self }
            } else {
                self
            },
            None => self,
        }
    }

    /// The byte that the next read of the data register returns: the next
    /// byte of the device, or the idle byte when the device has no more.
    pub open spec fn next_byte(self) -> u8 {
        if self.consumed < self.incoming.len() {
            self.incoming[self.consumed as int]
        } else {
            IDLE_BYTE
        }
    }

    /// The byte that the read after `ahead` further reads of the data
    /// register returns.
    pub open spec fn byte_ahead(self, ahead: int) -> u8 {
        if self.consumed + ahead < self.incoming.len() {
            self.incoming[self.consumed + ahead]
        } else {
            IDLE_BYTE
        }
    }

    /// Number of bytes that the device has sent after `count` further reads
    /// of the data register.
    pub open spec fn consumed_ahead(self, count: nat) -> nat {
        if self.consumed + count < self.incoming.len() {
            self.consumed + count
        } else {
            self.incoming.len()
        }
    }

    /// A read of a status register. The flag of an acknowledged address is
    /// cleared by a read of the first status register followed by a read of
    /// the second; data moves from then on.
    pub open spec fn status_read(self, reg: I2cReg) -> BusView {
        match self.phase {
            BusPhase::Addressed(read) => if reg is Sr1 {
                BusView { sr1_read: true, ..self }
            } else if reg is Sr2 && self.sr1_read {
                BusView { phase: BusPhase::Streaming(read), sr1_read: false, ..self }
            } else {
                self
            },
            _ => self,
        }
    }

    /// A read of the data register.
    pub open spec fn data_read(self) -> BusView {
        BusView {
            received: self.received.push(self.next_byte()),
            acks: self.acks.push(self.regs.cr1 & I2C_CR1_ACK != 0),
            consumed: if self.consumed < self.incoming.len() {
                self.consumed + 1
            } else {
                self.consumed
            },
            ..self
        }
    }

    /// A write to the data register. After a start condition the byte is the
    /// address byte, whose lowest bit says whether the device is to send;
    /// while data moves the byte is data. At any other time the byte does
    /// not go out.
    pub open spec fn data_written(self, value: u32) -> BusView {
        match self.phase {
            BusPhase::Started => BusView {
                phase: BusPhase::Addressed(value & 1 != 0),
                sr1_read: false,
                sent: self.sent.push((value & 0xff) as u8),
                ..self
            },
            BusPhase::Streaming(_) => BusView {
                sent: self.sent.push((value & 0xff) as u8),
                ..self
            },
            _ => self,
        }
    }

    /// A value stored in a register by a plain write.
    pub open spec fn written(self, reg: I2cReg, value: u32) -> BusView {
        if reg is Dr {
            self.data_written(value)
        } else {
            BusView { regs: self.regs.spec_with(reg, spec_held(reg, value)), ..self }
        }
    }

    /// A read-modify-write of a register. The bits that are set in the first
    /// control register are requests: the reset bit puts the peripheral and
    /// all its registers into their reset state, a start request sends a
    /// start condition, and a stop request ends the transfer. The flag of a
    /// bus error is cleared by clearing its bit in the first status
    /// register.
    pub open spec fn modified(self, reg: I2cReg, clear: u32, set: u32) -> BusView {
        if !spec_is_config(reg) {
            if reg is Sr1 && clear & I2C_SR1_BERR != 0 && self.faulted() {
                BusView { fault_in: None, ..self }
            } else {
                self
            }
        } else if reg is Cr1 && set & I2C_CR1_SWRST != 0 {
            BusView {
                regs: Config { cr1: I2C_CR1_SWRST, ..Config::spec_zero() },
                phase: BusPhase::Idle,
                sr1_read: false,
                ..self
            }
        } else {
            let stored = BusView {
                regs: self.regs.spec_with(
                    reg,
                    spec_held(reg, spec_modified(self.regs.spec_get(reg), clear, set)),
                ),
                ..self
            };
            if reg is Cr1 && set & I2C_CR1_START != 0 {
                BusView { phase: BusPhase::Started, sr1_read: false, ..stored }
            } else if reg is Cr1 && set & I2C_CR1_STOP != 0 {
                BusView { phase: BusPhase::Idle, sr1_read: false, ..stored }
            } else {
                stored
            }
        }
    }

    /// The bus after one access. Every access is logged. An access to
    /// anything but the registers of the modelled peripheral has no other
    /// effect; a read of the data register of another peripheral returns the
    /// idle byte.
    pub open spec fn step(self, op: Op) -> BusView {
        let logged = BusView { log: self.log.push(op), ..self };
        match op {
            Op::Read(Register::I2c(p, reg)) => if p == self.periph {
                logged.status_read(reg)
            } else {
                logged
            },
            Op::ReadData(p) => if p == self.periph {
                logged.data_read()
            } else {
                BusView { received: self.received.push(IDLE_BYTE), ..logged }
            },
            Op::Write { reg: Register::I2c(p, reg), value } => if p == self.periph {
                logged.written(reg, value)
            } else {
                logged
            },
            Op::Modify { reg: Register::I2c(p, reg), clear, set } => if p == self.periph {
                logged.modified(reg, clear, set)
            } else {
                logged
            },
            Op::Save(Register::I2c(p, reg)) => if p == self.periph {
                BusView {
                    saved: self.saved.spec_with(reg, self.regs.spec_get(reg)),
                    ..logged
                }
            } else {
                logged
            },
            Op::Restore(Register::I2c(p, reg)) => if p == self.periph {
                BusView {
                    regs: self.regs.spec_with(reg, spec_held(reg, self.saved.spec_get(reg))),
                    ..logged
                }
            } else {
                logged
            },
            _ => logged,
        }
    }

    /// The bus after a program.
    pub open spec fn run(self, ops: Seq<Op>) -> BusView
        decreases ops.len(),
    {
        if ops.len() == 0 {
            self
        } else {
            self.run(ops.drop_last()).step(ops.last())
        }
    }

    /// The bytes that the reads of the data register returned since the bus
    /// was in the state `before`.
    pub open spec fn received_since(self, before: BusView) -> Seq<u8> {
        self.received.subrange(before.received.len() as int, self.received.len() as int)
    }
}

/// Running one more access after a program.
pub proof fn lemma_run_push(bus: BusView, ops: Seq<Op>, op: Op)
    ensures
        bus.run(ops.push(op)) == bus.run(ops).step(op),
{
    assert(ops.push(op).drop_last() =~= ops);
}

/// Running a program after another.
pub proof fn lemma_run_concat(bus: BusView, a: Seq<Op>, b: Seq<Op>)
    ensures
        bus.run(a + b) == bus.run(a).run(b),
    decreases b.len(),
{
    if b.len() == 0 {
        assert(a + b =~= a);
    } else {
        assert((a + b).drop_last() =~= a + b.drop_last());
        lemma_run_concat(bus, a, b.drop_last());
    }
}

impl View for SimulatedBus {
    type V = BusView;

    open spec fn view(&self) -> BusView {
        BusView {
            periph: self.periph,
            regs: self.regs,
            saved: self.saved,
            phase: self.phase,
            sr1_read: self.sr1_read,
            incoming: self.incoming@,
            consumed: self.consumed as nat,
            received: self.received@,
            sent: self.sent@,
            acks: self.acks@,
            log: self.log@,
            fault_in: match self.fault_in {
                Some(left) => Some(left as nat),
                None => None,
            },
        }
    }
}

impl BusView {
    /// A bus at rest: the registers are zero, and nothing has happened.
    pub open spec fn fresh(periph: Peripheral, incoming: Seq<u8>) -> BusView {
        BusView {
            periph,
            regs: Config::spec_zero(),
            saved: Config::spec_zero(),
            phase: BusPhase::Idle,
            sr1_read: false,
            incoming,
            consumed: 0,
            received: Seq::empty(),
            sent: Seq::empty(),
            acks: Seq::empty(),
            log: Seq::empty(),
            fault_in: None,
        }
    }
}

impl SimulatedBus {
    /// A bus at rest, with a device that will send the bytes of `incoming`.
    pub fn new(periph: Peripheral, incoming: Vec<u8>) -> (bus: SimulatedBus)
        ensures
            bus@ == BusView::fresh(periph, incoming@),
            bus@.wf(),
    {
        SimulatedBus {
            periph,
            regs: Config::zero(),
            saved: Config::zero(),
            phase: BusPhase::Idle,
            sr1_read: false,
            incoming,
            consumed: 0,
            received: Vec::new(),
            sent: Vec::new(),
            acks: Vec::new(),
            log: Vec::new(),
            fault_in: None,
        }
    }

    /// Has the bus raise a bus error once it has served `served` more event
    /// interrupts.
    pub fn fail_after(&mut self, served: usize)
        ensures
            final(self)@ == (BusView { fault_in: Some(served as nat), ..old(self)@ }),
    {
        self.fault_in = Some(served);
    }

    /// Counts an event interrupt that the bus has served.
    pub fn count_interrupt(&mut self)
        ensures
            final(self)@ == old(self)@.counted(),
    {
        match self.fault_in {
            Some(left) => {
                if left > 0 {
                    self.fault_in = Some(left - 1);
                }
            },
            None => {},
        }
    }

    /// The first status register.
    pub fn status(&self) -> (sr1: u32)
        ensures
            sr1 == self@.status(),
    {
        let faulted = match self.fault_in {
            Some(left) => left == 0,
            None => false,
        };
        if faulted {
            I2C_SR1_BERR
        } else {
            match self.phase {
                BusPhase::Idle => 0,
                BusPhase::Started => I2C_SR1_SB,
                BusPhase::Addressed(_) => I2C_SR1_ADDR,
                BusPhase::Streaming(true) => I2C_SR1_RXNE | I2C_SR1_BTF,
                BusPhase::Streaming(false) => I2C_SR1_TXE | I2C_SR1_BTF,
            }
        }
    }

    fn status_read(&mut self, reg: I2cReg)
        ensures
            final(self)@ == old(self)@.status_read(reg),
    {
        match self.phase {
            BusPhase::Addressed(read) => {
                match reg {
                    I2cReg::Sr1 => {
                        self.sr1_read = true;
                    },
                    I2cReg::Sr2 => {
                        if self.sr1_read {
                            self.phase = BusPhase::Streaming(read);
                            self.sr1_read = false;
                        }
                    },
                    _ => {},
                }
            },
            _ => {},
        }
    }

    fn data_read(&mut self) -> (byte: u8)
        requires
            old(self)@.wf(),
        ensures
            final(self)@ == old(self)@.data_read(),
            byte == old(self)@.next_byte(),
    {
        let byte: u8 = if self.consumed < self.incoming.len() {
            let b: u8 = self.incoming[self.consumed];
            self.consumed = self.consumed + 1;
            b
        } else {
            IDLE_BYTE
        };
        self.received.push(byte);
        self.acks.push(self.regs.cr1 & I2C_CR1_ACK != 0);
        byte
    }

    fn written(&mut self, reg: I2cReg, value: u32)
        ensures
            final(self)@ == old(self)@.written(reg, value),
    {
        match reg {
            I2cReg::Dr => {
                match self.phase {
                    BusPhase::Started => {
                        self.phase = BusPhase::Addressed(value & 1 != 0);
                        self.sr1_read = false;
                        self.sent.push((value & 0xff) as u8);
                    },
                    BusPhase::Streaming(_) => {
                        self.sent.push((value & 0xff) as u8);
                    },
                    _ => {},
                }
            },
            _ => {
                self.regs = self.regs.with(reg, held(reg, value));
            },
        }
    }

    fn modified(&mut self, reg: I2cReg, clear: u32, set: u32)
        ensures
            final(self)@ == old(self)@.modified(reg, clear, set),
    {
        if !is_config(reg) {
            let status = match reg {
                I2cReg::Sr1 => true,
                _ => false,
            };
            let faulted = match self.fault_in {
                Some(left) => left == 0,
                None => false,
            };
            if status && clear & I2C_SR1_BERR != 0 && faulted {
                self.fault_in = None;
            }
            return ;
        }
        let control = match reg {
            I2cReg::Cr1 => true,
            _ => false,
        };
        if control && set & I2C_CR1_SWRST != 0 {
            self.regs = Config::zero().with(I2cReg::Cr1, I2C_CR1_SWRST);
            self.phase = BusPhase::Idle;
            self.sr1_read = false;
        } else {
            self.regs = self.regs.with(reg, held(reg, modified(self.regs.get(reg), clear, set)));
            if control && set & I2C_CR1_START != 0 {
                self.phase = BusPhase::Started;
                self.sr1_read = false;
            } else if control && set & I2C_CR1_STOP != 0 {
                self.phase = BusPhase::Idle;
                self.sr1_read = false;
            }
        }
    }

    /// Performs one access. For a read of the data register the byte that
    /// was read is returned.
    pub fn apply(&mut self, op: Op) -> (byte: Option<u8>)
        requires
            old(self)@.wf(),
        ensures
            final(self)@ == old(self)@.step(op),
            final(self)@.wf(),
            final(self)@.received.len() == old(self)@.received.len() + if op is ReadData {
                1int
            } else {
                0int
            },
            byte == if op is ReadData {
                Some(final(self)@.received.last())
            } else {
                None
            },
    {
        self.log.push(op);
        match op {
            Op::Read(Register::I2c(p, reg)) => {
                if p == self.periph {
                    self.status_read(reg);
                }
                None
            },
            Op::ReadData(p) => {
                if p == self.periph {
                    Some(self.data_read())
                } else {
                    self.received.push(IDLE_BYTE);
                    Some(IDLE_BYTE)
                }
            },
            Op::Write { reg: Register::I2c(p, reg), value } => {
                if p == self.periph {
                    self.written(reg, value);
                }
                None
            },
            Op::Modify { reg: Register::I2c(p, reg), clear, set } => {
                if p == self.periph {
                    self.modified(reg, clear, set);
                }
                None
            },
            Op::Save(Register::I2c(p, reg)) => {
                if p == self.periph {
                    self.saved = self.saved.with(reg, self.regs.get(reg));
                }
                None
            },
            Op::Restore(Register::I2c(p, reg)) => {
                if p == self.periph {
                    self.regs = self.regs.with(reg, held(reg, self.saved.get(reg)));
                }
                None
            },
            _ => None,
        }
    }

    /// Performs a program and returns the bytes that its reads of the data
    /// register returned, in order.
    pub fn perform(&mut self, ops: &Vec<Op>) -> (data: Vec<u8>)
        requires
            old(self)@.wf(),
        ensures
            final(self)@ == old(self)@.run(ops@),
            final(self)@.wf(),
            data@ == final(self)@.received_since(old(self)@),
            data@.len() == crate::hw::data_reads(ops@),
    {
        let mut data: Vec<u8> = Vec::new();
        let mut i: usize = 0;
        while i < ops.len()
            invariant
                i <= ops.len(),
                self@.wf(),
                self@ == old(self)@.run(ops@.take(i as int)),
                old(self)@.received.len() <= self@.received.len(),
                data@ == self@.received_since(old(self)@),
                data@.len() == crate::hw::data_reads(ops@.take(i as int)),
            decreases ops.len() - i,
        {
            let ghost before = self@;
            proof {
                assert(ops@.take(i + 1).drop_last() =~= ops@.take(i as int));
            }
            match self.apply(ops[i]) {
                Some(byte) => {
                    data.push(byte);
                },
                None => {},
            }
            proof {
                assert(data@ =~= self@.received_since(old(self)@));
            }
            i = i + 1;
        }
        proof {
            assert(ops@.take(i as int) =~= ops@);
        }
        data
    }
}

} // verus!
