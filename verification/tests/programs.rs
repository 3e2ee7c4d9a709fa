use i2c_engine::board::board_specific_init;
use i2c_engine::gpio::{
    AltFuncNum, Gpio, Mode, OutputSpeed, OutputType, Pin, PinNum, PullUpDown,
};
use i2c_engine::hw::{count_data_reads, modified, GpioReg, I2cReg, Op, RccReg, Register};
use i2c_engine::i2c::Peripheral;
use i2c_engine::i2c_v1::{deblock_bus, peripheral_init, scl_pin, sda_pin, CommDir, I2C};
use i2c_engine::nvic::{
    disable_interrupt, enable_interrupt, get_prio_grouping_binpoint_offset, set_priority,
    set_subpriority, Interrupt,
};
use i2c_engine::rcc;
use i2c_engine::scb::{get_priority_grouping, set_priority_grouping, ItPriorityGrouping};
use i2c_engine::sim::SimulatedBus;

fn i2c_reg(periph: Peripheral, r: I2cReg) -> Register {
    Register::I2c(periph, r)
}

fn set(reg: Register, bits: u32) -> Op {
    Op::Modify { reg, clear: 0, set: bits }
}

fn clear(reg: Register, bits: u32) -> Op {
    Op::Modify { reg, clear: bits, set: 0 }
}

fn count(ops: &[Op], op: Op) -> usize {
    ops.iter().filter(|o| **o == op).count()
}

#[test]
fn register_addresses() {
    assert_eq!(i2c_reg(Peripheral::I2C1, I2cReg::Cr1).address(), 0x4000_5400);
    assert_eq!(i2c_reg(Peripheral::I2C2, I2cReg::Dr).address(), 0x4000_5810);
    assert_eq!(i2c_reg(Peripheral::I2C3, I2cReg::Sr1).address(), 0x4000_5c14);
    assert_eq!(i2c_reg(Peripheral::I2C3, I2cReg::Fltr).address(), 0x4000_5c24);
    assert_eq!(Register::Gpio(Gpio::GpioA, GpioReg::Moder).address(), 0x4002_0000);
    assert_eq!(Register::Gpio(Gpio::GpioB, GpioReg::Bsrr).address(), 0x4002_0418);
    assert_eq!(Register::Gpio(Gpio::GpioC, GpioReg::Afrh).address(), 0x4002_0824);
    assert_eq!(Register::Rcc(RccReg::Ahb1Enr).address(), 0x4002_3830);
    assert_eq!(Register::Rcc(RccReg::Apb1Enr).address(), 0x4002_3840);
    assert_eq!(Register::Rcc(RccReg::Apb2Rstr).address(), 0x4002_3824);
    assert_eq!(Register::NvicIser(2).address(), 0xe000_e108);
    assert_eq!(Register::NvicIcer(1).address(), 0xe000_e184);
    assert_eq!(Register::NvicIpr(72).address(), 0xe000_e448);
    assert_eq!(Register::ScbAircr.address(), 0xe000_ed0c);
    assert!(Register::NvicIpr(3).is_byte_wide());
    assert!(!Register::NvicIser(0).is_byte_wide());
    assert!(!Register::ScbAircr.is_byte_wide());
}

#[test]
fn peripheral_identities() {
    assert_eq!(Peripheral::I2C1.index(), 0);
    assert_eq!(Peripheral::I2C2.index(), 1);
    assert_eq!(Peripheral::I2C3.index(), 2);
    assert_eq!(Peripheral::I2C1.base_addr(), 1073763328);
    assert_eq!(Peripheral::I2C2.base_addr(), 1073764352);
    assert_eq!(Peripheral::I2C3.base_addr(), 1073765376);
    assert_eq!(sda_pin(Peripheral::I2C1), Pin::new(Gpio::GpioB, PinNum::Pin9));
    assert_eq!(scl_pin(Peripheral::I2C1), Pin::new(Gpio::GpioB, PinNum::Pin6));
    assert_eq!(sda_pin(Peripheral::I2C2), Pin::new(Gpio::GpioB, PinNum::Pin3));
    assert_eq!(scl_pin(Peripheral::I2C2), Pin::new(Gpio::GpioB, PinNum::Pin10));
    assert_eq!(sda_pin(Peripheral::I2C3), Pin::new(Gpio::GpioC, PinNum::Pin9));
    assert_eq!(scl_pin(Peripheral::I2C3), Pin::new(Gpio::GpioA, PinNum::Pin8));
}

#[test]
fn read_modify_write() {
    assert_eq!(modified(0b1010, 0b0010, 0b0100), 0b1100);
    assert_eq!(modified(0xffff_ffff, 0x0f00, 0), 0xffff_f0ff);
    assert_eq!(modified(0, 0, 0x400), 0x400);
    // A bit that is cleared and set ends up set.
    assert_eq!(modified(0, 1, 1), 1);
}

#[test]
fn counting_data_reads() {
    let p = Peripheral::I2C1;
    assert_eq!(count_data_reads(&vec![]), 0);
    assert_eq!(
        count_data_reads(&vec![
            Op::ReadData(p),
            Op::Read(i2c_reg(p, I2cReg::Dr)),
            Op::ReadData(p),
            Op::WaitUs(1)
        ]),
        2
    );
}

#[test]
fn pin_as_alternate_function() {
    let pin = Pin::new(Gpio::GpioB, PinNum::Pin9);
    let mode = Mode::AlternateFunction(AltFuncNum::Af4, OutputType::OpenDrain, OutputSpeed::High);
    assert_eq!(
        pin.set_mode(mode),
        vec![
            Op::Modify {
                reg: Register::Gpio(Gpio::GpioB, GpioReg::Moder),
                clear: 0x3 << 18,
                set: 0x2 << 18
            },
            Op::Modify {
                reg: Register::Gpio(Gpio::GpioB, GpioReg::Afrh),
                clear: 0xf << 4,
                set: 0x4 << 4
            },
            Op::Modify {
                reg: Register::Gpio(Gpio::GpioB, GpioReg::Otyper),
                clear: 1 << 9,
                set: 1 << 9
            },
            Op::Modify {
                reg: Register::Gpio(Gpio::GpioB, GpioReg::Ospeedr),
                clear: 0x3 << 18,
                set: 0x3 << 18
            },
        ]
    );
}

#[test]
fn pin_as_output_input_and_analog() {
    let pin = Pin::new(Gpio::GpioA, PinNum::Pin3);
    assert_eq!(
        pin.set_mode(Mode::Output(OutputType::PushPull, OutputSpeed::Medium)),
        vec![
            Op::Modify {
                reg: Register::Gpio(Gpio::GpioA, GpioReg::Moder),
                clear: 0xc0,
                set: 0x40
            },
            Op::Modify { reg: Register::Gpio(Gpio::GpioA, GpioReg::Otyper), clear: 8, set: 0 },
            Op::Modify {
                reg: Register::Gpio(Gpio::GpioA, GpioReg::Ospeedr),
                clear: 0xc0,
                set: 0x40
            },
        ]
    );
    assert_eq!(
        pin.set_mode(Mode::Input),
        vec![Op::Modify { reg: Register::Gpio(Gpio::GpioA, GpioReg::Moder), clear: 0xc0, set: 0 }]
    );
    assert_eq!(
        pin.set_mode(Mode::Analog),
        vec![Op::Modify {
            reg: Register::Gpio(Gpio::GpioA, GpioReg::Moder),
            clear: 0xc0,
            set: 0xc0
        }]
    );
}

#[test]
fn pin_alternate_function_registers() {
    let low = Pin::new(Gpio::GpioC, PinNum::Pin7);
    assert_eq!(
        low.set_alternate_function(AltFuncNum::Af15),
        Op::Modify {
            reg: Register::Gpio(Gpio::GpioC, GpioReg::Afrl),
            clear: 0xf000_0000,
            set: 0xf000_0000
        }
    );
    let high = Pin::new(Gpio::GpioC, PinNum::Pin8);
    assert_eq!(
        high.set_alternate_function(AltFuncNum::Af1),
        Op::Modify { reg: Register::Gpio(Gpio::GpioC, GpioReg::Afrh), clear: 0xf, set: 0x1 }
    );
}

#[test]
fn pin_pull_and_levels() {
    let pin = Pin::new(Gpio::GpioB, PinNum::Pin6);
    let bsrr = Register::Gpio(Gpio::GpioB, GpioReg::Bsrr);
    assert_eq!(
        pin.set_pullup_pulldown_mode(PullUpDown::PullUp),
        Op::Modify {
            reg: Register::Gpio(Gpio::GpioB, GpioReg::Pupdr),
            clear: 0x3000,
            set: 0x1000
        }
    );
    assert_eq!(
        pin.set_pullup_pulldown_mode(PullUpDown::PullDown),
        Op::Modify {
            reg: Register::Gpio(Gpio::GpioB, GpioReg::Pupdr),
            clear: 0x3000,
            set: 0x2000
        }
    );
    assert_eq!(
        pin.set_pullup_pulldown_mode(PullUpDown::Floating),
        Op::Modify { reg: Register::Gpio(Gpio::GpioB, GpioReg::Pupdr), clear: 0x3000, set: 0 }
    );
    assert_eq!(pin.set(), Op::Write { reg: bsrr, value: 0x40 });
    assert_eq!(pin.reset(), Op::Write { reg: bsrr, value: 0x0040_0000 });
    assert!(pin.read(0x40));
    assert!(!pin.read(!0x40));
    assert_eq!(pin.toggle(0x40), pin.reset());
    assert_eq!(pin.toggle(0), pin.set());
    let top = Pin::new(Gpio::GpioB, PinNum::Pin15);
    assert_eq!(top.set(), Op::Write { reg: bsrr, value: 0x8000 });
    assert_eq!(top.reset(), Op::Write { reg: bsrr, value: 0x8000_0000 });
}

#[test]
fn peripheral_clocks() {
    assert_eq!(rcc::Peripheral::GpioB.get_bus(), rcc::Bus::Ahb1);
    assert_eq!(rcc::Peripheral::OtgFs.get_bus(), rcc::Bus::Ahb2);
    assert_eq!(rcc::Peripheral::I2C3.get_bus(), rcc::Bus::Apb1);
    assert_eq!(rcc::Peripheral::Spi5.get_bus(), rcc::Bus::Apb2);
    assert_eq!(rcc::Peripheral::GpioA.get_mask(), 1);
    assert_eq!(rcc::Peripheral::GpioH.get_mask(), 1 << 7);
    assert_eq!(rcc::Peripheral::Dma2.get_mask(), 1 << 22);
    assert_eq!(rcc::Peripheral::I2C1.get_mask(), 1 << 21);
    assert_eq!(rcc::Peripheral::I2C2.get_mask(), 1 << 22);
    assert_eq!(rcc::Peripheral::I2C3.get_mask(), 1 << 23);
    assert_eq!(rcc::Peripheral::Pwr.get_mask(), 1 << 28);
    assert_eq!(rcc::Peripheral::Tim1.get_mask(), 1);
    assert_eq!(rcc::Peripheral::Spi5.get_mask(), 1 << 20);
    assert_eq!(
        rcc::enable_periph(rcc::Peripheral::I2C3),
        set(Register::Rcc(RccReg::Apb1Enr), 1 << 23)
    );
    assert_eq!(
        rcc::disable_periph(rcc::Peripheral::GpioC),
        clear(Register::Rcc(RccReg::Ahb1Enr), 1 << 2)
    );
    assert_eq!(
        rcc::reset_periph(rcc::Peripheral::Usart6),
        vec![
            set(Register::Rcc(RccReg::Apb2Rstr), 1 << 5),
            clear(Register::Rcc(RccReg::Apb2Rstr), 1 << 5)
        ]
    );
    assert_eq!(
        rcc::enable_periph(rcc::Peripheral::OtgFs),
        set(Register::Rcc(RccReg::Ahb2Enr), 1 << 7)
    );
}

#[test]
fn interrupt_lines() {
    assert_eq!(Interrupt::Wwdg.number(), 0);
    assert_eq!(Interrupt::I2C1Ev.number(), 31);
    assert_eq!(Interrupt::I2C1Er.number(), 32);
    assert_eq!(Interrupt::I2C3Ev.number(), 72);
    assert_eq!(Interrupt::I2C3Er.number(), 73);
    assert_eq!(Interrupt::Spi5.number(), 85);
    assert_eq!(
        enable_interrupt(Interrupt::I2C1Ev),
        Op::Write { reg: Register::NvicIser(0), value: 1 << 31 }
    );
    assert_eq!(
        enable_interrupt(Interrupt::I2C1Er),
        Op::Write { reg: Register::NvicIser(1), value: 1 }
    );
    assert_eq!(
        enable_interrupt(Interrupt::I2C3Ev),
        Op::Write { reg: Register::NvicIser(2), value: 1 << 8 }
    );
    assert_eq!(
        disable_interrupt(Interrupt::I2C3Er),
        Op::Write { reg: Register::NvicIcer(2), value: 1 << 9 }
    );
}

#[test]
fn interrupt_priorities() {
    assert_eq!(get_prio_grouping_binpoint_offset(ItPriorityGrouping::SixteenNone), 0);
    assert_eq!(get_prio_grouping_binpoint_offset(ItPriorityGrouping::EightTwo), 1);
    assert_eq!(get_prio_grouping_binpoint_offset(ItPriorityGrouping::FourFour), 2);
    assert_eq!(get_prio_grouping_binpoint_offset(ItPriorityGrouping::TwoFour), 3);
    assert_eq!(get_prio_grouping_binpoint_offset(ItPriorityGrouping::NoneSixteen), 4);
    let ipr = Register::NvicIpr(72);
    assert_eq!(
        set_priority(Interrupt::I2C3Ev, 1, ItPriorityGrouping::EightTwo),
        Op::Modify { reg: ipr, clear: 0xe0, set: 0x20 }
    );
    assert_eq!(
        set_subpriority(Interrupt::I2C3Ev, 1, ItPriorityGrouping::EightTwo),
        Op::Modify { reg: ipr, clear: 0x1f, set: 0x10 }
    );
    assert_eq!(
        set_priority(Interrupt::I2C3Ev, 3, ItPriorityGrouping::SixteenNone),
        Op::Modify { reg: ipr, clear: 0xf0, set: 0x30 }
    );
    assert_eq!(
        set_subpriority(Interrupt::I2C3Ev, 3, ItPriorityGrouping::SixteenNone),
        Op::Modify { reg: ipr, clear: 0x0f, set: 0 }
    );
    assert_eq!(
        set_priority(Interrupt::I2C3Ev, 1, ItPriorityGrouping::NoneSixteen),
        Op::Modify { reg: ipr, clear: 0, set: 0 }
    );
    assert_eq!(
        set_subpriority(Interrupt::I2C3Ev, 5, ItPriorityGrouping::NoneSixteen),
        Op::Modify { reg: ipr, clear: 0xff, set: 0x50 }
    );
}

#[test]
fn priority_grouping() {
    assert_eq!(
        set_priority_grouping(ItPriorityGrouping::EightTwo),
        Op::Modify { reg: Register::ScbAircr, clear: 0xffff_0000, set: 0x05fa_0400 }
    );
    assert_eq!(
        set_priority_grouping(ItPriorityGrouping::NoneSixteen),
        Op::Modify { reg: Register::ScbAircr, clear: 0xffff_0000, set: 0x05fa_0700 }
    );
    assert_eq!(get_priority_grouping(0), ItPriorityGrouping::SixteenNone);
    assert_eq!(get_priority_grouping(0x0300), ItPriorityGrouping::SixteenNone);
    assert_eq!(get_priority_grouping(0xfa05_0400), ItPriorityGrouping::EightTwo);
    assert_eq!(get_priority_grouping(0x0500), ItPriorityGrouping::FourFour);
    assert_eq!(get_priority_grouping(0x0600), ItPriorityGrouping::TwoFour);
    assert_eq!(get_priority_grouping(0xffff_ffff), ItPriorityGrouping::NoneSixteen);
    let groupings = [
        ItPriorityGrouping::SixteenNone,
        ItPriorityGrouping::EightTwo,
        ItPriorityGrouping::FourFour,
        ItPriorityGrouping::TwoFour,
        ItPriorityGrouping::NoneSixteen,
    ];
    for grouping in groupings {
        if let Op::Modify { clear, set, .. } = set_priority_grouping(grouping) {
            assert_eq!(get_priority_grouping(modified(0xfa05_0000, clear, set)), grouping);
        } else {
            panic!("not a read-modify-write");
        }
    }
}

#[test]
fn board_setup() {
    assert_eq!(
        board_specific_init(),
        vec![Op::Modify { reg: Register::ScbAircr, clear: 0xffff_0000, set: 0x05fa_0400 }]
    );
}

#[test]
fn register_interface() {
    let p = Peripheral::I2C3;
    let i2c = I2C::get_periph(p);
    let cr1 = i2c_reg(p, I2cReg::Cr1);
    let cr2 = i2c_reg(p, I2cReg::Cr2);
    let fltr = i2c_reg(p, I2cReg::Fltr);
    assert_eq!(i2c.enable_ack(), set(cr1, 0x0400));
    assert_eq!(i2c.disable_ack(), clear(cr1, 0x0400));
    assert_eq!(
        i2c.disable_ack_after_next_byte(),
        Op::Modify { reg: cr1, clear: 0x0400, set: 0x0800 }
    );
    assert_eq!(i2c.send_start(), set(cr1, 0x0100));
    assert_eq!(i2c.send_stop(), set(cr1, 0x0200));
    assert_eq!(i2c.enable_periph(), set(cr1, 1));
    assert_eq!(i2c.disable_periph(), clear(cr1, 1));
    assert_eq!(i2c.clear_transaction_ctrl_bits(), clear(cr1, 0x0f00));
    assert_eq!(i2c.clear_error_flags(), clear(i2c_reg(p, I2cReg::Sr1), 0x0f00));
    assert_eq!(i2c.enable_event_interrupts(), set(cr2, 0x0200));
    assert_eq!(i2c.enable_error_interrupts(), set(cr2, 0x0100));
    assert_eq!(i2c.enable_buffer_interrupts(), set(cr2, 0x0400));
    assert_eq!(i2c.disable_buffer_interrupts(), clear(cr2, 0x0400));
    assert_eq!(i2c.set_analog_filter_state(true), clear(fltr, 0x10));
    assert_eq!(i2c.set_analog_filter_state(false), set(fltr, 0x10));
    assert_eq!(i2c.set_digital_filter_len(0x0f), set(fltr, 0x0f));
    assert_eq!(i2c.set_digital_filter_len(0x13), set(fltr, 0x03));
    assert_eq!(
        i2c.clear_addr_flag(),
        vec![Op::Read(i2c_reg(p, I2cReg::Sr1)), Op::Read(i2c_reg(p, I2cReg::Sr2))]
    );
    assert_eq!(i2c.read_data(), Op::ReadData(p));
    assert_eq!(i2c.send_data(0xa5), Op::Write { reg: i2c_reg(p, I2cReg::Dr), value: 0xa5 });
    assert_eq!(
        i2c.send_addr(0x77, CommDir::Write),
        Op::Write { reg: i2c_reg(p, I2cReg::Dr), value: 0xee }
    );
    assert_eq!(
        i2c.send_addr(0x77, CommDir::Read),
        Op::Write { reg: i2c_reg(p, I2cReg::Dr), value: 0xef }
    );
    // Only seven bits of an address go out.
    assert_eq!(
        i2c.send_addr(0xa9, CommDir::Read),
        Op::Write { reg: i2c_reg(p, I2cReg::Dr), value: 0x53 }
    );
}

#[test]
fn status_flags() {
    let i2c = I2C::get_periph(Peripheral::I2C1);
    assert!(i2c.is_sb_set(0x0001) && !i2c.is_sb_set(0xfffe));
    assert!(i2c.is_addr_set(0x0002) && !i2c.is_addr_set(0xfffd));
    assert!(i2c.is_btf_set(0x0004) && !i2c.is_btf_set(0xfffb));
    assert!(i2c.is_rxne_set(0x0040) && !i2c.is_rxne_set(0xffbf));
    assert!(i2c.is_txe_set(0x0080) && !i2c.is_txe_set(0xff7f));
    assert!(i2c.is_error_set(0x0100));
    assert!(i2c.is_error_set(0x0200));
    assert!(i2c.is_error_set(0x0400));
    assert!(i2c.is_error_set(0x0800));
    assert!(!i2c.is_error_set(0xf0ff));
}

#[test]
fn standard_mode_timing() {
    let p = Peripheral::I2C1;
    let i2c = I2C::get_periph(p);
    assert_eq!(
        i2c.set_100mhz_standard_mode(48_000_000),
        vec![
            set(i2c_reg(p, I2cReg::Cr2), 48),
            Op::Write { reg: i2c_reg(p, I2cReg::Ccr), value: 240 },
            Op::Write { reg: i2c_reg(p, I2cReg::Trise), value: 49 },
        ]
    );
    assert_eq!(
        i2c.set_100mhz_standard_mode(u32::MAX),
        vec![
            set(i2c_reg(p, I2cReg::Cr2), 4294 & 0x3f),
            Op::Write { reg: i2c_reg(p, I2cReg::Ccr), value: 21474 & 0x0fff },
            Op::Write { reg: i2c_reg(p, I2cReg::Trise), value: 4295 & 0x3f },
        ]
    );
}

#[test]
fn reset_keeps_the_configuration() {
    let p = Peripheral::I2C2;
    let mut bus = SimulatedBus::new(p, vec![]);
    bus.regs.cr1 = 0x0f01;
    bus.regs.cr2 = 0x0330;
    bus.regs.oar1 = 0x4000;
    bus.regs.oar2 = 0x0002;
    bus.regs.ccr = 240;
    bus.regs.trise = 49;
    bus.regs.fltr = 0x0f;
    let before = bus.regs;
    let ops = I2C::get_periph(p).reset();
    assert_eq!(ops.len(), 17);
    assert_eq!(ops[0], clear(i2c_reg(p, I2cReg::Cr1), 0x0f00));
    assert_eq!(ops[8], set(i2c_reg(p, I2cReg::Cr1), 0x8000));
    assert_eq!(ops[9], clear(i2c_reg(p, I2cReg::Cr1), 0x8000));
    assert_eq!(ops[16], Op::Restore(i2c_reg(p, I2cReg::Cr1)));
    // The reset bit wipes the registers.
    bus.perform(&ops[..9].to_vec());
    assert_eq!(bus.regs.cr1, 0x8000);
    assert_eq!(bus.regs.cr2, 0);
    assert_eq!(bus.regs.ccr, 0);
    bus.perform(&ops[9..].to_vec());
    assert_eq!(bus.regs.cr1, 0x0001);
    assert_eq!(bus.regs.cr2, before.cr2);
    assert_eq!(bus.regs.oar1, before.oar1);
    assert_eq!(bus.regs.oar2, before.oar2);
    assert_eq!(bus.regs.ccr, before.ccr);
    assert_eq!(bus.regs.trise, before.trise);
    assert_eq!(bus.regs.fltr, before.fltr);
}

#[test]
fn initialisation_program() {
    let p = Peripheral::I2C3;
    let g = ItPriorityGrouping::EightTwo;
    let ops = peripheral_init(p, g);
    let sda = sda_pin(p);
    let scl = scl_pin(p);
    let af = Mode::AlternateFunction(AltFuncNum::Af4, OutputType::OpenDrain, OutputSpeed::High);
    let mut expected = vec![
        rcc::enable_periph(rcc::Peripheral::GpioA),
        rcc::enable_periph(rcc::Peripheral::GpioC),
        sda.set_pullup_pulldown_mode(PullUpDown::PullUp),
    ];
    expected.extend(sda.set_mode(af));
    expected.push(scl.set_pullup_pulldown_mode(PullUpDown::PullUp));
    expected.extend(scl.set_mode(af));
    expected.push(rcc::enable_periph(rcc::Peripheral::I2C3));
    expected.push(enable_interrupt(Interrupt::I2C3Ev));
    expected.push(set_priority(Interrupt::I2C3Ev, 1, g));
    expected.push(set_subpriority(Interrupt::I2C3Ev, 1, g));
    expected.push(enable_interrupt(Interrupt::I2C3Er));
    expected.push(set_priority(Interrupt::I2C3Er, 1, g));
    expected.push(set_subpriority(Interrupt::I2C3Er, 0, g));
    let i2c = I2C::get_periph(p);
    expected.extend(i2c.reset());
    expected.extend(i2c.set_100mhz_standard_mode(48_000_000));
    expected.push(i2c.enable_event_interrupts());
    expected.push(i2c.enable_error_interrupts());
    expected.push(i2c.set_analog_filter_state(true));
    expected.push(i2c.set_digital_filter_len(0x0f));
    expected.push(i2c.enable_periph());
    assert_eq!(ops, expected);
    assert_eq!(ops.len(), 2 + 5 + 5 + 1 + 6 + 17 + 3 + 5);

    let first = peripheral_init(Peripheral::I2C1, g);
    assert_eq!(first[0], rcc::enable_periph(rcc::Peripheral::GpioB));
    assert_eq!(first.len(), ops.len() - 1);
    assert_eq!(first[11], rcc::enable_periph(rcc::Peripheral::I2C1));
    assert_eq!(first[12], enable_interrupt(Interrupt::I2C1Ev));
    let second = peripheral_init(Peripheral::I2C2, g);
    assert_eq!(second[0], rcc::enable_periph(rcc::Peripheral::GpioB));
    assert_eq!(second[11], rcc::enable_periph(rcc::Peripheral::I2C2));
    assert_eq!(second[15], enable_interrupt(Interrupt::I2C2Er));

    // On the simulated bus the program leaves the peripheral configured
    // and switched on.
    let mut bus = SimulatedBus::new(p, vec![]);
    assert!(bus.perform(&ops).is_empty());
    assert_eq!(bus.regs.cr1, 1);
    assert_eq!(bus.regs.cr2, 0x0200 | 0x0100 | 48);
    assert_eq!(bus.regs.ccr, 240);
    assert_eq!(bus.regs.trise, 49);
    assert_eq!(bus.regs.fltr, 0x0f);
}

#[test]
fn bus_recovery_pulses_the_clock_nine_times() {
    for p in [Peripheral::I2C1, Peripheral::I2C2, Peripheral::I2C3] {
        let g = ItPriorityGrouping::EightTwo;
        let ops = deblock_bus(p, g);
        let sda = sda_pin(p);
        let scl = scl_pin(p);
        let manual = Mode::Output(OutputType::OpenDrain, OutputSpeed::High);

        let mut expected = I2C::get_periph(p).reset();
        expected.push(sda.set_pullup_pulldown_mode(PullUpDown::PullUp));
        expected.extend(sda.set_mode(manual));
        expected.push(scl.set_pullup_pulldown_mode(PullUpDown::PullUp));
        expected.extend(scl.set_mode(manual));
        expected.push(sda.set());
        for _ in 0..9 {
            expected.push(scl.set());
            expected.push(Op::WaitUs(2));
            expected.push(scl.reset());
            expected.push(Op::WaitUs(2));
        }
        expected.push(scl.set());
        let init = peripheral_init(p, g);
        expected.extend(init.clone());
        assert_eq!(ops, expected);

        // Nine falling edges of the clock, each after a rising edge, and
        // the data line is never pulled low.
        assert_eq!(count(&ops, scl.reset()), 9);
        assert_eq!(count(&ops, scl.set()), 10);
        assert_eq!(count(&ops, sda.set()), 1);
        assert_eq!(count(&ops, sda.reset()), 0);
        assert_eq!(count(&ops, Op::WaitUs(2)), 18);
        let released = ops.iter().position(|o| *o == sda.set()).unwrap();
        let first_pulse = ops.iter().position(|o| *o == scl.set()).unwrap();
        assert_eq!(first_pulse, released + 1);

        // The program ends with the initialisation, which hands the lines
        // back to the peripheral.
        assert_eq!(&ops[ops.len() - init.len()..], &init[..]);
        let af =
            Mode::AlternateFunction(AltFuncNum::Af4, OutputType::OpenDrain, OutputSpeed::High);
        let last_pulse = ops.iter().rposition(|o| *o == scl.set()).unwrap();
        let tail = &ops[last_pulse..];
        assert_eq!(count(tail, sda.set_mode(af)[0]), 1);
        assert_eq!(count(tail, scl.set_mode(af)[0]), 1);
        assert_eq!(count(tail, sda.set_mode(manual)[0]), 0);
        assert_eq!(count(tail, scl.set_mode(manual)[0]), 0);
    }
}
