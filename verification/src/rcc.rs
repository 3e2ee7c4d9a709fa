//! Peripheral clocks and resets, as accesses to the RCC block.

use vstd::prelude::*;
use crate::hw::{Op, RccReg, Register};

verus! {

/// The bus that clocks a peripheral.
#[derive(Clone, Copy, PartialEq, Eq, Debug, Structural)]
pub enum Bus {
    Ahb1,
    Ahb2,
    Apb1,
    Apb2,
}

/// A peripheral whose clock and reset the RCC block controls.
#[derive(Clone, Copy, PartialEq, Eq, Debug, Structural)]
pub enum Peripheral {
    GpioA,
    GpioB,
    GpioC,
    GpioD,
    GpioE,
    GpioH,
    Crc,
    Dma1,
    Dma2,
    OtgFs,
    Tim2,
    Tim3,
    Tim4,
    Tim5,
    Wwdg,
    Spi2,
    Spi3,
    Usart2,
    I2C1,
    I2C2,
    I2C3,
    Pwr,
    Tim1,
    Usart1,
    Usart6,
    Adc1,
    Sdio,
    Spi1,
    Spi4,
    SysCfg,
    Tim9,
    Tim10,
    Tim11,
    Spi5,
}

impl Bus {
    pub open spec fn spec_enable_reg(self) -> RccReg {
        match self {
            Bus::Ahb1 => RccReg::Ahb1Enr,
            Bus::Ahb2 => RccReg::Ahb2Enr,
            Bus::Apb1 => RccReg::Apb1Enr,
            Bus::Apb2 => RccReg::Apb2Enr,
        }
    }

    /// The clock-enable register of the bus.
    #[verifier::when_used_as_spec(spec_enable_reg)]
    pub fn enable_reg(self) -> (reg: RccReg)
        ensures
            reg == self.spec_enable_reg(),
    {
        match self {
            Bus::Ahb1 => RccReg::Ahb1Enr,
            Bus::Ahb2 => RccReg::Ahb2Enr,
            Bus::Apb1 => RccReg::Apb1Enr,
            Bus::Apb2 => RccReg::Apb2Enr,
        }
    }

    pub open spec fn spec_reset_reg(self) -> RccReg {
        match self {
            Bus::Ahb1 => RccReg::Ahb1Rstr,
            Bus::Ahb2 => RccReg::Ahb2Rstr,
            Bus::Apb1 => RccReg::Apb1Rstr,
            Bus::Apb2 => RccReg::Apb2Rstr,
        }
    }

    /// The reset register of the bus.
    #[verifier::when_used_as_spec(spec_reset_reg)]
    pub fn reset_reg(self) -> (reg: RccReg)
        ensures
            reg == self.spec_reset_reg(),
    {
        match self {
            Bus::Ahb1 => RccReg::Ahb1Rstr,
            Bus::Ahb2 => RccReg::Ahb2Rstr,
            Bus::Apb1 => RccReg::Apb1Rstr,
            Bus::Apb2 => RccReg::Apb2Rstr,
        }
    }
}

impl Peripheral {
    pub open spec fn spec_get_bus(&self) -> Bus {
        match *self {
            Peripheral::GpioA => Bus::Ahb1,
            Peripheral::GpioB => Bus::Ahb1,
            Peripheral::GpioC => Bus::Ahb1,
            Peripheral::GpioD => Bus::Ahb1,
            Peripheral::GpioE => Bus::Ahb1,
            Peripheral::GpioH => Bus::Ahb1,
            Peripheral::Crc => Bus::Ahb1,
            Peripheral::Dma1 => Bus::Ahb1,
            Peripheral::Dma2 => Bus::Ahb1,
            Peripheral::OtgFs => Bus::Ahb2,
            Peripheral::Tim2 => Bus::Apb1,
            Peripheral::Tim3 => Bus::Apb1,
            Peripheral::Tim4 => Bus::Apb1,
            Peripheral::Tim5 => Bus::Apb1,
            Peripheral::Wwdg => Bus::Apb1,
            Peripheral::Spi2 => Bus::Apb1,
            Peripheral::Spi3 => Bus::Apb1,
            Peripheral::Usart2 => Bus::Apb1,
            Peripheral::I2C1 => Bus::Apb1,
            Peripheral::I2C2 => Bus::Apb1,
            Peripheral::I2C3 => Bus::Apb1,
            Peripheral::Pwr => Bus::Apb1,
            Peripheral::Tim1 => Bus::Apb2,
            Peripheral::Usart1 => Bus::Apb2,
            Peripheral::Usart6 => Bus::Apb2,
            Peripheral::Adc1 => Bus::Apb2,
            Peripheral::Sdio => Bus::Apb2,
            Peripheral::Spi1 => Bus::Apb2,
            Peripheral::Spi4 => Bus::Apb2,
            Peripheral::SysCfg => Bus::Apb2,
            Peripheral::Tim9 => Bus::Apb2,
            Peripheral::Tim10 => Bus::Apb2,
            Peripheral::Tim11 => Bus::Apb2,
            Peripheral::Spi5 => Bus::Apb2,
        }
    }

    /// The bus that clocks the peripheral.
    #[verifier::when_used_as_spec(spec_get_bus)]
    pub fn get_bus(&self) -> (bus: Bus)
        ensures
            bus == self.spec_get_bus(),
    {
        match *self {
            Peripheral::GpioA => Bus::Ahb1,
            Peripheral::GpioB => Bus::Ahb1,
            Peripheral::GpioC => Bus::Ahb1,
            Peripheral::GpioD => Bus::Ahb1,
            Peripheral::GpioE => Bus::Ahb1,
            Peripheral::GpioH => Bus::Ahb1,
            Peripheral::Crc => Bus::Ahb1,
            Peripheral::Dma1 => Bus::Ahb1,
            Peripheral::Dma2 => Bus::Ahb1,
            Peripheral::OtgFs => Bus::Ahb2,
            Peripheral::Tim2 => Bus::Apb1,
            Peripheral::Tim3 => Bus::Apb1,
            Peripheral::Tim4 => Bus::Apb1,
            Peripheral::Tim5 => Bus::Apb1,
            Peripheral::Wwdg => Bus::Apb1,
            Peripheral::Spi2 => Bus::Apb1,
            Peripheral::Spi3 => Bus::Apb1,
            Peripheral::Usart2 => Bus::Apb1,
            Peripheral::I2C1 => Bus::Apb1,
            Peripheral::I2C2 => Bus::Apb1,
            Peripheral::I2C3 => Bus::Apb1,
            Peripheral::Pwr => Bus::Apb1,
            Peripheral::Tim1 => Bus::Apb2,
            Peripheral::Usart1 => Bus::Apb2,
            Peripheral::Usart6 => Bus::Apb2,
            Peripheral::Adc1 => Bus::Apb2,
            Peripheral::Sdio => Bus::Apb2,
            Peripheral::Spi1 => Bus::Apb2,
            Peripheral::Spi4 => Bus::Apb2,
            Peripheral::SysCfg => Bus::Apb2,
            Peripheral::Tim9 => Bus::Apb2,
            Peripheral::Tim10 => Bus::Apb2,
            Peripheral::Tim11 => Bus::Apb2,
            Peripheral::Spi5 => Bus::Apb2,
        }
    }

    pub open spec fn spec_get_mask(&self) -> u32 {
        match *self {
            Peripheral::GpioA => 0x00000001,
            Peripheral::GpioB => 0x00000002,
            Peripheral::GpioC => 0x00000004,
            Peripheral::GpioD => 0x00000008,
            Peripheral::GpioE => 0x00000010,
            Peripheral::GpioH => 0x00000080,
            Peripheral::Crc => 0x00001000,
            Peripheral::Dma1 => 0x00200000,
            Peripheral::Dma2 => 0x00400000,
            Peripheral::OtgFs => 0x00000080,
            Peripheral::Tim2 => 0x00000001,
            Peripheral::Tim3 => 0x00000002,
            Peripheral::Tim4 => 0x00000004,
            Peripheral::Tim5 => 0x00000008,
            Peripheral::Wwdg => 0x00000800,
            Peripheral::Spi2 => 0x00004000,
            Peripheral::Spi3 => 0x00008000,
            Peripheral::Usart2 => 0x00020000,
            Peripheral::I2C1 => 0x00200000,
            Peripheral::I2C2 => 0x00400000,
            Peripheral::I2C3 => 0x00800000,
            Peripheral::Pwr => 0x10000000,
            Peripheral::Tim1 => 0x00000001,
            Peripheral::Usart1 => 0x00000010,
            Peripheral::Usart6 => 0x00000020,
            Peripheral::Adc1 => 0x00000100,
            Peripheral::Sdio => 0x00000800,
            Peripheral::Spi1 => 0x00001000,
            Peripheral::Spi4 => 0x00002000,
            Peripheral::SysCfg => 0x00004000,
            Peripheral::Tim9 => 0x00010000,
            Peripheral::Tim10 => 0x00020000,
            Peripheral::Tim11 => 0x00040000,
            Peripheral::Spi5 => 0x00100000,
        }
    }

    /// The peripheral's bit in the enable and reset registers of its bus.
    #[verifier::when_used_as_spec(spec_get_mask)]
    pub fn get_mask(&self) -> (mask: u32)
        ensures
            mask == self.spec_get_mask(),
    {
        match *self {
            Peripheral::GpioA => 0x00000001,
            Peripheral::GpioB => 0x00000002,
            Peripheral::GpioC => 0x00000004,
            Peripheral::GpioD => 0x00000008,
            Peripheral::GpioE => 0x00000010,
            Peripheral::GpioH => 0x00000080,
            Peripheral::Crc => 0x00001000,
            Peripheral::Dma1 => 0x00200000,
            Peripheral::Dma2 => 0x00400000,
            Peripheral::OtgFs => 0x00000080,
            Peripheral::Tim2 => 0x00000001,
            Peripheral::Tim3 => 0x00000002,
            Peripheral::Tim4 => 0x00000004,
            Peripheral::Tim5 => 0x00000008,
            Peripheral::Wwdg => 0x00000800,
            Peripheral::Spi2 => 0x00004000,
            Peripheral::Spi3 => 0x00008000,
            Peripheral::Usart2 => 0x00020000,
            Peripheral::I2C1 => 0x00200000,
            Peripheral::I2C2 => 0x00400000,
            Peripheral::I2C3 => 0x00800000,
            Peripheral::Pwr => 0x10000000,
            Peripheral::Tim1 => 0x00000001,
            Peripheral::Usart1 => 0x00000010,
            Peripheral::Usart6 => 0x00000020,
            Peripheral::Adc1 => 0x00000100,
            Peripheral::Sdio => 0x00000800,
            Peripheral::Spi1 => 0x00001000,
            Peripheral::Spi4 => 0x00002000,
            Peripheral::SysCfg => 0x00004000,
            Peripheral::Tim9 => 0x00010000,
            Peripheral::Tim10 => 0x00020000,
            Peripheral::Tim11 => 0x00040000,
            Peripheral::Spi5 => 0x00100000,
        }
    }
}

pub open spec fn spec_enable_periph(periph: Peripheral) -> Op {
    Op::Modify {
        reg: Register::Rcc(periph.spec_get_bus().spec_enable_reg()),
        clear: 0,
        set: periph.spec_get_mask(),
    }
}

pub open spec fn spec_disable_periph(periph: Peripheral) -> Op {
    Op::Modify {
        reg: Register::Rcc(periph.spec_get_bus().spec_enable_reg()),
        clear: periph.spec_get_mask(),
        set: 0,
    }
}

pub open spec fn spec_reset_periph(periph: Peripheral) -> Seq<Op> {
    let reg = Register::Rcc(periph.spec_get_bus().spec_reset_reg());
    seq![
        Op::Modify { reg, clear: 0, set: periph.spec_get_mask() },
        Op::Modify { reg, clear: periph.spec_get_mask(), set: 0 },
    ]
}

/// Switches the peripheral's clock on.
#[verifier::when_used_as_spec(spec_enable_periph)]
pub fn enable_periph(periph: Peripheral) -> (op: Op)
    ensures
        op == spec_enable_periph(periph),
{
    Op::Modify {
        reg: Register::Rcc(periph.get_bus().enable_reg()),
        clear: 0,
        set: periph.get_mask(),
    }
}

/// Switches the peripheral's clock off.
#[verifier::when_used_as_spec(spec_disable_periph)]
pub fn disable_periph(periph: Peripheral) -> (op: Op)
    ensures
        op == spec_disable_periph(periph),
{
    Op::Modify {
        reg: Register::Rcc(periph.get_bus().enable_reg()),
        clear: periph.get_mask(),
        set: 0,
    }
}

/// Resets the peripheral: raises its reset bit, then lowers it.
pub fn reset_periph(periph: Peripheral) -> (ops: Vec<Op>)
    ensures
        ops@ == spec_reset_periph(periph),
{
    let reg = Register::Rcc(periph.get_bus().reset_reg());
    let mut ops: Vec<Op> = Vec::new();
    ops.push(Op::Modify { reg, clear: 0, set: periph.get_mask() });
    ops.push(Op::Modify { reg, clear: periph.get_mask(), set: 0 });
    ops
}

} // verus!
