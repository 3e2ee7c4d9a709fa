//! GPIO pin configuration, as register programs on a port's register block.

use vstd::prelude::*;
use crate::hw::{GpioReg, Op, Register, GPIOA_BASE, GPIOB_BASE, GPIOC_BASE};

verus! {

/// A GPIO port.
#[derive(Clone, Copy, PartialEq, Eq, Debug, Structural)]
pub enum Gpio {
    GpioA,
    GpioB,
    GpioC,
}

/// How a pin is used.
#[derive(Clone, Copy, PartialEq, Eq, Debug, Structural)]
pub enum Mode {
    Input,
    Output(OutputType, OutputSpeed),
    AlternateFunction(AltFuncNum, OutputType, OutputSpeed),
    Analog,
}

/// How an output pin drives its line.
#[derive(Clone, Copy, PartialEq, Eq, Debug, Structural)]
pub enum OutputType {
    PushPull,
    OpenDrain,
}

/// Slew rate of an output pin.
#[derive(Clone, Copy, PartialEq, Eq, Debug, Structural)]
pub enum OutputSpeed {
    Low,
    Medium,
    Fast,
    High,
}

/// Internal pull resistor of a pin.
#[derive(Clone, Copy, PartialEq, Eq, Debug, Structural)]
pub enum PullUpDown {
    Floating,
    PullUp,
    PullDown,
}

/// Number of an alternate function.
#[derive(Clone, Copy, PartialEq, Eq, Debug, Structural)]
pub enum AltFuncNum {
    Af0,
    Af1,
    Af2,
    Af3,
    Af4,
    Af5,
    Af6,
    Af7,
    Af8,
    Af9,
    Af10,
    Af11,
    Af12,
    Af13,
    Af14,
    Af15,
}

/// Number of a pin in its port.
#[derive(Clone, Copy, PartialEq, Eq, Debug, Structural)]
pub enum PinNum {
    Pin0,
    Pin1,
    Pin2,
    Pin3,
    Pin4,
    Pin5,
    Pin6,
    Pin7,
    Pin8,
    Pin9,
    Pin10,
    Pin11,
    Pin12,
    Pin13,
    Pin14,
    Pin15,
}

impl Gpio {
    pub open spec fn spec_base_addr(self) -> u32 {
        match self {
            Gpio::GpioA => GPIOA_BASE,
            Gpio::GpioB => GPIOB_BASE,
            Gpio::GpioC => GPIOC_BASE,
        }
    }

    /// Base address of the port's register block.
    #[verifier::when_used_as_spec(spec_base_addr)]
    pub fn base_addr(self) -> (a: u32)
        ensures
            a == self.spec_base_addr(),
    {
        match self {
            Gpio::GpioA => GPIOA_BASE,
            Gpio::GpioB => GPIOB_BASE,
            Gpio::GpioC => GPIOC_BASE,
        }
    }
}

impl Mode {
    pub open spec fn spec_bits(self) -> u32 {
        match self {
            Mode::Input => 0,
            Mode::Output(_, _) => 1,
            Mode::AlternateFunction(_, _, _) => 2,
            Mode::Analog => 3,
        }
    }

    /// Value of the pin's two-bit field in the mode register.
    #[verifier::when_used_as_spec(spec_bits)]
    pub fn bits(self) -> (b: u32)
        ensures
            b == self.spec_bits(),
    {
        match self {
            Mode::Input => 0,
            Mode::Output(_, _) => 1,
            Mode::AlternateFunction(_, _, _) => 2,
            Mode::Analog => 3,
        }
    }
}

impl OutputType {
    pub open spec fn spec_bits(self) -> u32 {
        match self {
            OutputType::PushPull => 0,
            OutputType::OpenDrain => 1,
        }
    }

    /// Value of the pin's bit in the output type register.
    #[verifier::when_used_as_spec(spec_bits)]
    pub fn bits(self) -> (b: u32)
        ensures
            b == self.spec_bits(),
    {
        match self {
            OutputType::PushPull => 0,
            OutputType::OpenDrain => 1,
        }
    }
}

impl OutputSpeed {
    pub open spec fn spec_bits(self) -> u32 {
        match self {
            OutputSpeed::Low => 0,
            OutputSpeed::Medium => 1,
            OutputSpeed::Fast => 2,
            OutputSpeed::High => 3,
        }
    }

    /// Value of the pin's two-bit field in the output speed register.
    #[verifier::when_used_as_spec(spec_bits)]
    pub fn bits(self) -> (b: u32)
        ensures
            b == self.spec_bits(),
    {
        match self {
            OutputSpeed::Low => 0,
            OutputSpeed::Medium => 1,
            OutputSpeed::Fast => 2,
            OutputSpeed::High => 3,
        }
    }
}

impl PullUpDown {
    pub open spec fn spec_bits(self) -> u32 {
        match self {
            PullUpDown::Floating => 0,
            PullUpDown::PullUp => 1,
            PullUpDown::PullDown => 2,
        }
    }

    /// Value of the pin's two-bit field in the pull-up/pull-down register.
    #[verifier::when_used_as_spec(spec_bits)]
    pub fn bits(self) -> (b: u32)
        ensures
            b == self.spec_bits(),
    {
        match self {
            PullUpDown::Floating => 0,
            PullUpDown::PullUp => 1,
            PullUpDown::PullDown => 2,
        }
    }
}

impl AltFuncNum {
    pub open spec fn spec_bits(self) -> u32 {
        match self {
            AltFuncNum::Af0 => 0,
            AltFuncNum::Af1 => 1,
            AltFuncNum::Af2 => 2,
            AltFuncNum::Af3 => 3,
            AltFuncNum::Af4 => 4,
            AltFuncNum::Af5 => 5,
            AltFuncNum::Af6 => 6,
            AltFuncNum::Af7 => 7,
            AltFuncNum::Af8 => 8,
            AltFuncNum::Af9 => 9,
            AltFuncNum::Af10 => 10,
            AltFuncNum::Af11 => 11,
            AltFuncNum::Af12 => 12,
            AltFuncNum::Af13 => 13,
            AltFuncNum::Af14 => 14,
            AltFuncNum::Af15 => 15,
        }
    }

    /// Value of the pin's four-bit field in its alternate function register.
    #[verifier::when_used_as_spec(spec_bits)]
    pub fn bits(self) -> (b: u32)
        ensures
            b == self.spec_bits(),
    {
        match self {
            AltFuncNum::Af0 => 0,
            AltFuncNum::Af1 => 1,
            AltFuncNum::Af2 => 2,
            AltFuncNum::Af3 => 3,
            AltFuncNum::Af4 => 4,
            AltFuncNum::Af5 => 5,
            AltFuncNum::Af6 => 6,
            AltFuncNum::Af7 => 7,
            AltFuncNum::Af8 => 8,
            AltFuncNum::Af9 => 9,
            AltFuncNum::Af10 => 10,
            AltFuncNum::Af11 => 11,
            AltFuncNum::Af12 => 12,
            AltFuncNum::Af13 => 13,
            AltFuncNum::Af14 => 14,
            AltFuncNum::Af15 => 15,
        }
    }
}

impl PinNum {
    pub open spec fn spec_index(self) -> u32 {
        match self {
            PinNum::Pin0 => 0,
            PinNum::Pin1 => 1,
            PinNum::Pin2 => 2,
            PinNum::Pin3 => 3,
            PinNum::Pin4 => 4,
            PinNum::Pin5 => 5,
            PinNum::Pin6 => 6,
            PinNum::Pin7 => 7,
            PinNum::Pin8 => 8,
            PinNum::Pin9 => 9,
            PinNum::Pin10 => 10,
            PinNum::Pin11 => 11,
            PinNum::Pin12 => 12,
            PinNum::Pin13 => 13,
            PinNum::Pin14 => 14,
            PinNum::Pin15 => 15,
        }
    }

    /// The pin's number, from 0 to 15.
    #[verifier::when_used_as_spec(spec_index)]
    pub fn index(self) -> (n: u32)
        ensures
            n == self.spec_index(),
            n < 16,
    {
        match self {
            PinNum::Pin0 => 0,
            PinNum::Pin1 => 1,
            PinNum::Pin2 => 2,
            PinNum::Pin3 => 3,
            PinNum::Pin4 => 4,
            PinNum::Pin5 => 5,
            PinNum::Pin6 => 6,
            PinNum::Pin7 => 7,
            PinNum::Pin8 => 8,
            PinNum::Pin9 => 9,
            PinNum::Pin10 => 10,
            PinNum::Pin11 => 11,
            PinNum::Pin12 => 12,
            PinNum::Pin13 => 13,
            PinNum::Pin14 => 14,
            PinNum::Pin15 => 15,
        }
    }
}

/// One pin of one port.
#[derive(Clone, Copy, PartialEq, Eq, Debug, Structural)]
pub struct Pin {
    pub port: Gpio,
    pub pin_num: PinNum,
}

impl Pin {
    /// The pin of a port.
    pub fn new(port: Gpio, pin_num: PinNum) -> (pin: Pin)
        ensures
            pin == (Pin { port, pin_num }),
    {
        Pin { port, pin_num }
    }

    /// The register `reg` of the pin's port.
    pub open spec fn reg(self, reg: GpioReg) -> Register {
        Register::Gpio(self.port, reg)
    }

    /// The access that sets the pin's two-bit field of `reg` to `bits`.
    pub open spec fn two_bit_field(self, reg: GpioReg, bits: u32) -> Op {
        Op::Modify {
            reg: self.reg(reg),
            clear: 0x3u32 << (2 * self.pin_num.spec_index()),
            set: bits << (2 * self.pin_num.spec_index()),
        }
    }

    pub open spec fn spec_set_output_type(self, otype: OutputType) -> Op {
        Op::Modify {
            reg: self.reg(GpioReg::Otyper),
            clear: 1u32 << self.pin_num.spec_index(),
            set: otype.spec_bits() << self.pin_num.spec_index(),
        }
    }

    pub open spec fn spec_set_output_speed(self, ospeed: OutputSpeed) -> Op {
        self.two_bit_field(GpioReg::Ospeedr, ospeed.spec_bits())
    }

    pub open spec fn spec_set_alternate_function(self, af: AltFuncNum) -> Op {
        let offset: u32 = ((self.pin_num.spec_index() % 8) * 4) as u32;
        Op::Modify {
            reg: self.reg(
                if self.pin_num.spec_index() < 8 {
                    GpioReg::Afrl
                } else {
                    GpioReg::Afrh
                },
            ),
            clear: 0xfu32 << offset,
            set: af.spec_bits() << offset,
        }
    }

    pub open spec fn spec_set_pullup_pulldown_mode(self, mode: PullUpDown) -> Op {
        self.two_bit_field(GpioReg::Pupdr, mode.spec_bits())
    }

    pub open spec fn spec_set_mode(self, mode: Mode) -> Seq<Op> {
        let select = seq![self.two_bit_field(GpioReg::Moder, mode.spec_bits())];
        match mode {
            Mode::Output(otype, ospeed) => select + seq![
                self.spec_set_output_type(otype),
                self.spec_set_output_speed(ospeed),
            ],
            Mode::AlternateFunction(af, otype, ospeed) => select + seq![
                self.spec_set_alternate_function(af),
                self.spec_set_output_type(otype),
                self.spec_set_output_speed(ospeed),
            ],
            _ => select,
        }
    }

    pub open spec fn spec_set(self) -> Op {
        Op::Write { reg: self.reg(GpioReg::Bsrr), value: 1u32 << self.pin_num.spec_index() }
    }

    pub open spec fn spec_reset(self) -> Op {
        Op::Write {
            reg: self.reg(GpioReg::Bsrr),
            value: 0x0001_0000u32 << self.pin_num.spec_index(),
        }
    }

    /// Selects the pin's mode; for an output or an alternate function, then
    /// its function number, output type and speed.
    pub fn set_mode(self, mode: Mode) -> (ops: Vec<Op>)
        ensures
            ops@ == self.spec_set_mode(mode),
    {
        let shift: u32 = 2 * self.pin_num.index();
        let mut ops: Vec<Op> = Vec::new();
        ops.push(
            Op::Modify {
                reg: Register::Gpio(self.port, GpioReg::Moder),
                clear: 0x3u32 << shift,
                set: mode.bits() << shift,
            },
        );
        match mode {
            Mode::Output(otype, ospeed) => {
                ops.push(self.set_output_type(otype));
                ops.push(self.set_output_speed(ospeed));
            },
            Mode::AlternateFunction(af, otype, ospeed) => {
                ops.push(self.set_alternate_function(af));
                ops.push(self.set_output_type(otype));
                ops.push(self.set_output_speed(ospeed));
            },
            _ => {},
        }
        proof {
            assert(ops@ =~= self.spec_set_mode(mode));
        }
        ops
    }

    /// Selects the pin's pull resistor.
    #[verifier::when_used_as_spec(spec_set_pullup_pulldown_mode)]
    pub fn set_pullup_pulldown_mode(self, mode: PullUpDown) -> (op: Op)
        ensures
            op == self.spec_set_pullup_pulldown_mode(mode),
    {
        let shift: u32 = 2 * self.pin_num.index();
        Op::Modify {
            reg: Register::Gpio(self.port, GpioReg::Pupdr),
            clear: 0x3u32 << shift,
            set: mode.bits() << shift,
        }
    }

    /// Whether the pin's line is high, given the value read from the port's
    /// input data register.
    pub fn read(self, idr: u32) -> (high: bool)
        ensures
            high == (idr & (1u32 << self.pin_num.spec_index()) != 0),
    {
        (idr & (1u32 << self.pin_num.index())) != 0
    }

    /// Drives the pin high.
    #[verifier::when_used_as_spec(spec_set)]
    pub fn set(self) -> (op: Op)
        ensures
            op == self.spec_set(),
    {
        Op::Write {
            reg: Register::Gpio(self.port, GpioReg::Bsrr),
            value: 1u32 << self.pin_num.index(),
        }
    }

    /// Drives the pin low.
    #[verifier::when_used_as_spec(spec_reset)]
    pub fn reset(self) -> (op: Op)
        ensures
            op == self.spec_reset(),
    {
        Op::Write {
            reg: Register::Gpio(self.port, GpioReg::Bsrr),
            value: 0x0001_0000u32 << self.pin_num.index(),
        }
    }

    /// Inverts the pin's output, given the value read from the port's output
    /// data register: drives it low if it is high, high if it is low.
    pub fn toggle(self, odr: u32) -> (op: Op)
        ensures
            op == if odr & (1u32 << self.pin_num.spec_index()) != 0 {
                self.spec_reset()
            } else {
                self.spec_set()
            },
    {
        if (odr & (1u32 << self.pin_num.index())) != 0 {
            self.reset()
        } else {
            self.set()
        }
    }

    /// Selects push-pull or open-drain output.
    #[verifier::when_used_as_spec(spec_set_output_type)]
    pub fn set_output_type(self, otype: OutputType) -> (op: Op)
        ensures
            op == self.spec_set_output_type(otype),
    {
        let shift: u32 = self.pin_num.index();
        Op::Modify {
            reg: Register::Gpio(self.port, GpioReg::Otyper),
            clear: 1u32 << shift,
            set: otype.bits() << shift,
        }
    }

    /// Selects the output's slew rate.
    #[verifier::when_used_as_spec(spec_set_output_speed)]
    pub fn set_output_speed(self, ospeed: OutputSpeed) -> (op: Op)
        ensures
            op == self.spec_set_output_speed(ospeed),
    {
        let shift: u32 = 2 * self.pin_num.index();
        Op::Modify {
            reg: Register::Gpio(self.port, GpioReg::Ospeedr),
            clear: 0x3u32 << shift,
            set: ospeed.bits() << shift,
        }
    }

    /// Selects the alternate function that drives the pin: in the low
    /// register for pins 0 to 7, in the high register for pins 8 to 15.
    #[verifier::when_used_as_spec(spec_set_alternate_function)]
    pub fn set_alternate_function(self, af: AltFuncNum) -> (op: Op)
        ensures
            op == self.spec_set_alternate_function(af),
    {
        let n: u32 = self.pin_num.index();
        let offset: u32 = (n % 8) * 4;
        let reg = if n < 8 {
            GpioReg::Afrl
        } else {
            GpioReg::Afrh
        };
        Op::Modify {
            reg: Register::Gpio(self.port, reg),
            clear: 0xfu32 << offset,
            set: af.bits() << offset,
        }
    }
}

} // verus!
