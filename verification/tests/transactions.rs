use i2c_engine::hw::{I2cReg, Op, Register};
use i2c_engine::i2c::{Error, InterruptContext, Peripheral, PeripheralState, Poll, Step};
use i2c_engine::i2c_v1::{
    deblock_bus, rust_i2c_interrupt_accesses, rust_i2c_interrupt_error_handler,
    rust_i2c_interrupt_handler, I2C_CR1_ACK, I2C_CR1_POS, I2C_CR1_START, I2C_CR1_STOP,
    I2C_CR2_ITBUFEN, I2C_SR1_ADDR, I2C_SR1_BTF, I2C_SR1_RXNE, I2C_SR1_SB, I2C_SR1_TXE,
};
use i2c_engine::scb::ItPriorityGrouping;
use i2c_engine::sim::{BusPhase, SimulatedBus};

const GROUPING: ItPriorityGrouping = ItPriorityGrouping::EightTwo;

fn reg(periph: Peripheral, r: I2cReg) -> Register {
    Register::I2c(periph, r)
}

fn start(periph: Peripheral) -> Op {
    Op::Modify { reg: reg(periph, I2cReg::Cr1), clear: 0, set: I2C_CR1_START }
}

fn stop(periph: Peripheral) -> Op {
    Op::Modify { reg: reg(periph, I2cReg::Cr1), clear: 0, set: I2C_CR1_STOP }
}

fn ack_off(periph: Peripheral) -> Op {
    Op::Modify { reg: reg(periph, I2cReg::Cr1), clear: I2C_CR1_ACK, set: 0 }
}

fn ack_on(periph: Peripheral) -> Op {
    Op::Modify { reg: reg(periph, I2cReg::Cr1), clear: 0, set: I2C_CR1_ACK }
}

fn buffer_interrupts_on(periph: Peripheral) -> Op {
    Op::Modify { reg: reg(periph, I2cReg::Cr2), clear: 0, set: I2C_CR2_ITBUFEN }
}

fn buffer_interrupts_off(periph: Peripheral) -> Op {
    Op::Modify { reg: reg(periph, I2cReg::Cr2), clear: I2C_CR2_ITBUFEN, set: 0 }
}

fn send(periph: Peripheral, byte: u8) -> Op {
    Op::Write { reg: reg(periph, I2cReg::Dr), value: byte as u32 }
}

fn count(log: &[Op], op: Op) -> usize {
    log.iter().filter(|o| **o == op).count()
}

fn positions(log: &[Op], op: Op) -> Vec<usize> {
    let mut found = Vec::new();
    for (i, o) in log.iter().enumerate() {
        if *o == op {
            found.push(i);
        }
    }
    found
}

/// Submits the steps and performs the program that arms the bus.
fn submit(
    ctx: &mut InterruptContext,
    bus: &mut SimulatedBus,
    device_addr: u8,
    steps: &mut Vec<Step>,
) {
    let ops = ctx.begin_transaction(device_addr, steps).unwrap();
    assert!(bus.perform(&ops).is_empty());
}

/// Delivers one event interrupt and returns the accesses that it made.
fn interrupt(ctx: &mut InterruptContext, bus: &mut SimulatedBus) -> Vec<Op> {
    let sr1 = bus.status();
    let ops = rust_i2c_interrupt_accesses(ctx, sr1);
    let data = bus.perform(&ops);
    rust_i2c_interrupt_handler(ctx, sr1, &data);
    ops
}

#[test]
fn calibration_block_read() {
    let periph = Peripheral::I2C3;
    let incoming: Vec<u8> = (101..=122).collect();
    let mut bus = SimulatedBus::new(periph, incoming.clone());
    let mut ctx = InterruptContext::new(periph);
    let mut steps = vec![Step::Write(vec![0xaa]), Step::Read(vec![0; 22])];
    let trace = periph.trace_transaction(&mut ctx, &mut bus, 0x77, &mut steps, GROUPING).unwrap();

    assert_eq!(steps, vec![Step::Write(vec![0xaa]), Step::Read(incoming.clone())]);
    assert_eq!(ctx.state(), PeripheralState::Done(0));
    assert!(!ctx.is_busy());
    assert!(ctx.current_transaction.is_none());

    let mut expected = vec![
        PeripheralState::StartBitSet,
        PeripheralState::AddressSent,
        PeripheralState::Transmitting(1),
        PeripheralState::StartBitSet,
        PeripheralState::AddressSent,
    ];
    for pos in 0..=20 {
        expected.push(PeripheralState::Receiving(pos));
    }
    expected.push(PeripheralState::Done(0));
    assert_eq!(trace, expected);

    assert_eq!(count(&bus.log, start(periph)), 2);
    assert_eq!(count(&bus.log, stop(periph)), 1);
    assert_eq!(bus.sent, vec![0xee, 0xaa, 0xef]);
    assert_eq!(count(&bus.log, send(periph, 0xaa)), 1);
    assert_eq!(count(&bus.log, Op::ReadData(periph)), 22);
    assert_eq!(bus.received, incoming);
    assert_eq!(bus.consumed, 22);
    assert_eq!(bus.phase, BusPhase::Idle);

    // The acknowledge is switched off once, just before the third byte
    // from the end is read, so that the last byte goes unacknowledged.
    assert_eq!(count(&bus.log, ack_on(periph)), 1);
    let reads = positions(&bus.log, Op::ReadData(periph));
    let nacks = positions(&bus.log, ack_off(periph));
    assert_eq!(nacks.len(), 2);
    assert_eq!(nacks[0] + 1, reads[19]);
    assert!(nacks[1] > reads[19] && nacks[1] < reads[20]);
    let mut acks = vec![true; 19];
    acks.extend(vec![false; 3]);
    assert_eq!(bus.acks, acks);

    // The stop condition is requested before the last two bytes are read.
    let stops = positions(&bus.log, stop(periph));
    assert_eq!(stops[0] + 1, reads[20]);
    assert_eq!(reads[20] + 1, reads[21]);
    assert_eq!(bus.log.len(), reads[21] + 1);
}

#[test]
fn single_status_byte_read() {
    let periph = Peripheral::I2C3;
    let mut bus = SimulatedBus::new(periph, vec![0x5a]);
    let mut ctx = InterruptContext::new(periph);
    let mut steps = vec![Step::Write(vec![0x80 | 0x10]), Step::Read(vec![0; 1])];
    let trace = periph.trace_transaction(&mut ctx, &mut bus, 0x29, &mut steps, GROUPING).unwrap();

    assert_eq!(steps, vec![Step::Write(vec![0x90]), Step::Read(vec![0x5a])]);
    assert_eq!(
        trace,
        vec![
            PeripheralState::StartBitSet,
            PeripheralState::AddressSent,
            PeripheralState::Transmitting(1),
            PeripheralState::StartBitSet,
            PeripheralState::AddressSent,
            PeripheralState::Receiving(0),
            PeripheralState::Done(0),
        ]
    );
    assert_eq!(bus.sent, vec![0x52, 0x90, 0x53]);
    assert_eq!(bus.acks, vec![false]);

    // After the address byte of the read went out, the acknowledge is
    // switched off before the flag of the address is cleared.
    let address = positions(&bus.log, send(periph, 0x53));
    assert_eq!(address.len(), 1);
    let at = address[0];
    assert_eq!(
        &bus.log[at + 1..at + 5],
        &[
            ack_off(periph),
            buffer_interrupts_on(periph),
            Op::Read(reg(periph, I2cReg::Sr1)),
            Op::Read(reg(periph, I2cReg::Sr2)),
        ]
    );
    // The stop condition is requested right after the byte was read.
    assert_eq!(
        &bus.log[at + 5..],
        &[Op::ReadData(periph), stop(periph), buffer_interrupts_off(periph)]
    );
}

#[test]
fn read_of_two_bytes_refuses_the_second_from_the_start() {
    let periph = Peripheral::I2C1;
    let mut bus = SimulatedBus::new(periph, vec![7, 8]);
    let mut ctx = InterruptContext::new(periph);
    let mut steps = vec![Step::Read(vec![0; 2])];
    submit(&mut ctx, &mut bus, 0x10, &mut steps);
    assert_eq!(interrupt(&mut ctx, &mut bus), vec![send(periph, 0x21)]);
    assert_eq!(
        interrupt(&mut ctx, &mut bus),
        vec![
            Op::Modify { reg: reg(periph, I2cReg::Cr1), clear: I2C_CR1_ACK, set: I2C_CR1_POS },
            Op::Read(reg(periph, I2cReg::Sr1)),
            Op::Read(reg(periph, I2cReg::Sr2)),
        ]
    );
    assert_eq!(ctx.state(), PeripheralState::Receiving(0));
    assert_eq!(
        interrupt(&mut ctx, &mut bus),
        vec![ack_off(periph), stop(periph), Op::ReadData(periph), Op::ReadData(periph)]
    );
    assert_eq!(ctx.state(), PeripheralState::Done(0));
    assert_eq!(bus.acks, vec![false, false]);
    assert_eq!(ctx.poll_transaction(&mut steps, GROUPING), Poll::Complete);
    assert_eq!(steps, vec![Step::Read(vec![7, 8])]);
}

#[test]
fn read_of_three_bytes_switches_the_acknowledge_off_before_the_first() {
    let periph = Peripheral::I2C2;
    let mut bus = SimulatedBus::new(periph, vec![1, 2, 3]);
    let mut ctx = InterruptContext::new(periph);
    let mut steps = vec![Step::Read(vec![0; 3])];
    submit(&mut ctx, &mut bus, 0x10, &mut steps);
    interrupt(&mut ctx, &mut bus);
    assert_eq!(
        interrupt(&mut ctx, &mut bus),
        vec![
            ack_on(periph),
            buffer_interrupts_on(periph),
            Op::Read(reg(periph, I2cReg::Sr1)),
            Op::Read(reg(periph, I2cReg::Sr2)),
        ]
    );
    assert_eq!(interrupt(&mut ctx, &mut bus), vec![ack_off(periph), Op::ReadData(periph)]);
    assert_eq!(ctx.state(), PeripheralState::Receiving(1));
    assert_eq!(
        interrupt(&mut ctx, &mut bus),
        vec![ack_off(periph), stop(periph), Op::ReadData(periph), Op::ReadData(periph)]
    );
    assert_eq!(ctx.state(), PeripheralState::Done(0));
    assert_eq!(bus.acks, vec![false, false, false]);
}

#[test]
fn read_of_four_bytes_acknowledges_only_the_first_read() {
    let periph = Peripheral::I2C2;
    let mut bus = SimulatedBus::new(periph, vec![1, 2, 3, 4]);
    let mut ctx = InterruptContext::new(periph);
    let mut steps = vec![Step::Read(vec![0; 4])];
    assert_eq!(periph.run_transaction(&mut ctx, &mut bus, 0x10, &mut steps, GROUPING), Ok(()));
    assert_eq!(steps, vec![Step::Read(vec![1, 2, 3, 4])]);
    assert_eq!(bus.acks, vec![true, false, false, false]);
}

#[test]
fn write_of_several_bytes() {
    let periph = Peripheral::I2C1;
    let mut bus = SimulatedBus::new(periph, vec![]);
    let mut ctx = InterruptContext::new(periph);
    let mut steps = vec![Step::Write(vec![0xf4, 0x2e, 0x01])];
    submit(&mut ctx, &mut bus, 0x77, &mut steps);
    assert!(steps.is_empty());
    assert_eq!(ctx.state(), PeripheralState::StartBitSet);
    assert_eq!(interrupt(&mut ctx, &mut bus), vec![send(periph, 0xee)]);
    assert_eq!(ctx.state(), PeripheralState::AddressSent);
    assert_eq!(
        interrupt(&mut ctx, &mut bus),
        vec![
            Op::Read(reg(periph, I2cReg::Sr1)),
            Op::Read(reg(periph, I2cReg::Sr2)),
            send(periph, 0xf4),
            buffer_interrupts_on(periph),
        ]
    );
    assert_eq!(ctx.state(), PeripheralState::Transmitting(1));
    assert_eq!(interrupt(&mut ctx, &mut bus), vec![send(periph, 0x2e)]);
    assert_eq!(ctx.state(), PeripheralState::Transmitting(2));
    assert_eq!(interrupt(&mut ctx, &mut bus), vec![send(periph, 0x01)]);
    assert_eq!(ctx.state(), PeripheralState::Transmitting(3));
    assert_eq!(interrupt(&mut ctx, &mut bus), vec![stop(periph), buffer_interrupts_off(periph)]);
    assert_eq!(ctx.state(), PeripheralState::Done(0));
    assert_eq!(bus.sent, vec![0xee, 0xf4, 0x2e, 0x01]);
    assert_eq!(ctx.poll_transaction(&mut steps, GROUPING), Poll::Complete);
    assert_eq!(steps, vec![Step::Write(vec![0xf4, 0x2e, 0x01])]);
    assert!(!ctx.is_busy());
}

#[test]
fn write_of_one_byte_leaves_the_buffer_interrupts_alone() {
    let periph = Peripheral::I2C1;
    let mut bus = SimulatedBus::new(periph, vec![]);
    let mut ctx = InterruptContext::new(periph);
    let mut steps = vec![Step::Write(vec![0x42])];
    submit(&mut ctx, &mut bus, 0x01, &mut steps);
    interrupt(&mut ctx, &mut bus);
    assert_eq!(
        interrupt(&mut ctx, &mut bus),
        vec![
            Op::Read(reg(periph, I2cReg::Sr1)),
            Op::Read(reg(periph, I2cReg::Sr2)),
            send(periph, 0x42),
        ]
    );
}

#[test]
fn steps_are_joined_by_repeated_start_conditions() {
    let periph = Peripheral::I2C3;
    let mut bus = SimulatedBus::new(periph, vec![9, 8, 7, 6, 5, 4]);
    let mut ctx = InterruptContext::new(periph);
    let mut steps = vec![
        Step::Read(vec![0; 1]),
        Step::Write(vec![1, 2]),
        Step::Read(vec![0; 3]),
        Step::Read(vec![0; 2]),
    ];
    let trace = periph.trace_transaction(&mut ctx, &mut bus, 0x33, &mut steps, GROUPING).unwrap();
    assert_eq!(
        steps,
        vec![
            Step::Read(vec![9]),
            Step::Write(vec![1, 2]),
            Step::Read(vec![8, 7, 6]),
            Step::Read(vec![5, 4]),
        ]
    );
    assert_eq!(trace.iter().filter(|s| **s == PeripheralState::StartBitSet).count(), 4);
    assert_eq!(trace.iter().filter(|s| **s == PeripheralState::AddressSent).count(), 4);
    assert_eq!(trace.iter().filter(|s| **s == PeripheralState::Done(0)).count(), 1);
    assert_eq!(trace.last(), Some(&PeripheralState::Done(0)));
    assert_eq!(count(&bus.log, start(periph)), 4);
    assert_eq!(count(&bus.log, stop(periph)), 1);
    assert_eq!(bus.sent, vec![0x67, 0x66, 1, 2, 0x67, 0x67]);
    assert_eq!(bus.acks, vec![false, false, false, false, false, false]);
    assert_eq!(bus.consumed, 6);
}

#[test]
fn a_device_that_runs_out_of_bytes_reads_as_an_idle_bus() {
    let periph = Peripheral::I2C1;
    let mut bus = SimulatedBus::new(periph, vec![0x11]);
    let mut ctx = InterruptContext::new(periph);
    let mut steps = vec![Step::Read(vec![0; 3])];
    assert_eq!(periph.run_transaction(&mut ctx, &mut bus, 0x10, &mut steps, GROUPING), Ok(()));
    assert_eq!(steps, vec![Step::Read(vec![0x11, 0xff, 0xff])]);
    assert_eq!(bus.consumed, 1);
}

#[test]
fn a_second_transaction_reads_on_from_the_device() {
    let periph = Peripheral::I2C1;
    let mut bus = SimulatedBus::new(periph, vec![1, 2, 3]);
    let mut ctx = InterruptContext::new(periph);
    let mut first = vec![Step::Read(vec![0; 2])];
    assert_eq!(periph.run_transaction(&mut ctx, &mut bus, 0x10, &mut first, GROUPING), Ok(()));
    let mut second = vec![Step::Read(vec![0; 1])];
    assert_eq!(periph.run_transaction(&mut ctx, &mut bus, 0x10, &mut second, GROUPING), Ok(()));
    assert_eq!(first, vec![Step::Read(vec![1, 2])]);
    assert_eq!(second, vec![Step::Read(vec![3])]);
}

#[test]
fn second_submission_is_busy_and_changes_nothing() {
    let periph = Peripheral::I2C1;
    let mut bus = SimulatedBus::new(periph, vec![]);
    let mut ctx = InterruptContext::new(periph);
    let mut first = vec![Step::Write(vec![1, 2])];
    submit(&mut ctx, &mut bus, 0x29, &mut first);
    interrupt(&mut ctx, &mut bus);
    interrupt(&mut ctx, &mut bus);
    assert_eq!(ctx.state(), PeripheralState::Transmitting(1));
    let log = bus.log.clone();

    let mut second = vec![Step::Read(vec![0; 2])];
    assert_eq!(ctx.begin_transaction(0x30, &mut second), Err(Error::Busy));
    assert_eq!(second, vec![Step::Read(vec![0; 2])]);
    assert_eq!(ctx.state(), PeripheralState::Transmitting(1));
    let trans = ctx.current_transaction.as_ref().unwrap();
    assert_eq!(trans.steps, vec![Step::Write(vec![1, 2])]);
    assert_eq!(trans.curr_step, 0);
    assert_eq!(trans.device_addr, 0x29);

    assert_eq!(
        periph.run_transaction(&mut ctx, &mut bus, 0x30, &mut second, GROUPING),
        Err(Error::Busy)
    );
    assert_eq!(second, vec![Step::Read(vec![0; 2])]);
    assert_eq!(ctx.state(), PeripheralState::Transmitting(1));
    assert_eq!(bus.log, log);
}

#[test]
fn a_finished_transaction_keeps_the_peripheral_busy_until_it_is_polled() {
    let periph = Peripheral::I2C1;
    let mut bus = SimulatedBus::new(periph, vec![]);
    let mut ctx = InterruptContext::new(periph);
    let mut first = vec![Step::Write(vec![1])];
    submit(&mut ctx, &mut bus, 0x29, &mut first);
    interrupt(&mut ctx, &mut bus);
    interrupt(&mut ctx, &mut bus);
    interrupt(&mut ctx, &mut bus);
    assert_eq!(ctx.state(), PeripheralState::Done(0));
    let mut second = vec![Step::Write(vec![2])];
    assert_eq!(ctx.begin_transaction(0x29, &mut second), Err(Error::Busy));
    assert_eq!(ctx.poll_transaction(&mut first, GROUPING), Poll::Complete);
    assert!(ctx.begin_transaction(0x29, &mut second).is_ok());
}

#[test]
fn polling_a_running_transaction_changes_nothing() {
    let periph = Peripheral::I2C2;
    let mut bus = SimulatedBus::new(periph, vec![]);
    let mut ctx = InterruptContext::new(periph);
    let mut steps = vec![Step::Write(vec![1])];
    submit(&mut ctx, &mut bus, 0x29, &mut steps);
    assert_eq!(ctx.poll_transaction(&mut steps, GROUPING), Poll::Pending);
    assert!(steps.is_empty());
    assert_eq!(ctx.state(), PeripheralState::StartBitSet);
    assert!(ctx.is_busy());
}

#[test]
fn the_handler_waits_for_its_flag() {
    let periph = Peripheral::I2C1;
    let mut ctx = InterruptContext::new(periph);
    let mut steps = vec![Step::Write(vec![1, 2]), Step::Read(vec![0; 3])];
    ctx.begin_transaction(0x29, &mut steps).unwrap();
    let none: Vec<u8> = Vec::new();

    // No start condition yet.
    assert!(rust_i2c_interrupt_accesses(&ctx, I2C_SR1_ADDR | I2C_SR1_TXE).is_empty());
    rust_i2c_interrupt_handler(&mut ctx, I2C_SR1_ADDR | I2C_SR1_TXE, &none);
    assert_eq!(ctx.state(), PeripheralState::StartBitSet);
    rust_i2c_interrupt_handler(&mut ctx, I2C_SR1_SB, &none);
    assert_eq!(ctx.state(), PeripheralState::AddressSent);

    // No acknowledge of the address yet.
    assert!(rust_i2c_interrupt_accesses(&ctx, I2C_SR1_SB | I2C_SR1_TXE).is_empty());
    rust_i2c_interrupt_handler(&mut ctx, I2C_SR1_SB | I2C_SR1_TXE, &none);
    assert_eq!(ctx.state(), PeripheralState::AddressSent);
    rust_i2c_interrupt_handler(&mut ctx, I2C_SR1_ADDR, &none);
    assert_eq!(ctx.state(), PeripheralState::Transmitting(1));

    // A byte is left: the data register must be empty.
    assert!(rust_i2c_interrupt_accesses(&ctx, I2C_SR1_BTF).is_empty());
    rust_i2c_interrupt_handler(&mut ctx, I2C_SR1_BTF, &none);
    assert_eq!(ctx.state(), PeripheralState::Transmitting(1));
    assert_eq!(rust_i2c_interrupt_accesses(&ctx, I2C_SR1_TXE), vec![send(periph, 2)]);
    rust_i2c_interrupt_handler(&mut ctx, I2C_SR1_TXE, &none);
    assert_eq!(ctx.state(), PeripheralState::Transmitting(2));

    // All bytes are written: the last must have gone out.
    assert!(rust_i2c_interrupt_accesses(&ctx, I2C_SR1_TXE).is_empty());
    rust_i2c_interrupt_handler(&mut ctx, I2C_SR1_TXE, &none);
    assert_eq!(ctx.state(), PeripheralState::Transmitting(2));
    assert_eq!(
        rust_i2c_interrupt_accesses(&ctx, I2C_SR1_BTF),
        vec![start(periph), buffer_interrupts_off(periph)]
    );
    rust_i2c_interrupt_handler(&mut ctx, I2C_SR1_BTF, &none);
    assert_eq!(ctx.state(), PeripheralState::StartBitSet);
    assert_eq!(ctx.current_transaction.as_ref().unwrap().curr_step, 1);

    rust_i2c_interrupt_handler(&mut ctx, I2C_SR1_SB, &none);
    rust_i2c_interrupt_handler(&mut ctx, I2C_SR1_ADDR, &none);
    assert_eq!(ctx.state(), PeripheralState::Receiving(0));

    // Third byte from the end: a byte must have arrived.
    assert!(rust_i2c_interrupt_accesses(&ctx, I2C_SR1_BTF).is_empty());
    rust_i2c_interrupt_handler(&mut ctx, I2C_SR1_BTF, &none);
    assert_eq!(ctx.state(), PeripheralState::Receiving(0));
    rust_i2c_interrupt_handler(&mut ctx, I2C_SR1_RXNE, &vec![0x0a]);
    assert_eq!(ctx.state(), PeripheralState::Receiving(1));

    // Last two bytes: both must have arrived; a first one only has the
    // acknowledge switched off.
    assert_eq!(rust_i2c_interrupt_accesses(&ctx, I2C_SR1_RXNE), vec![ack_off(periph)]);
    rust_i2c_interrupt_handler(&mut ctx, I2C_SR1_RXNE, &none);
    assert_eq!(ctx.state(), PeripheralState::Receiving(1));
    assert_eq!(
        rust_i2c_interrupt_accesses(&ctx, I2C_SR1_BTF),
        vec![stop(periph), Op::ReadData(periph), Op::ReadData(periph)]
    );
    rust_i2c_interrupt_handler(&mut ctx, I2C_SR1_BTF, &vec![0x0b, 0x0c]);
    assert_eq!(ctx.state(), PeripheralState::Done(0));

    // A final state ignores events.
    assert!(rust_i2c_interrupt_accesses(&ctx, 0xffff_ffff).is_empty());
    rust_i2c_interrupt_handler(&mut ctx, 0xffff_ffff, &none);
    assert_eq!(ctx.state(), PeripheralState::Done(0));

    assert_eq!(ctx.poll_transaction(&mut steps, GROUPING), Poll::Complete);
    assert_eq!(steps, vec![Step::Write(vec![1, 2]), Step::Read(vec![0x0a, 0x0b, 0x0c])]);
}

#[test]
fn a_read_step_that_is_not_the_last_ends_with_a_start_condition() {
    let periph = Peripheral::I2C1;
    let mut ctx = InterruptContext::new(periph);
    let mut steps = vec![Step::Read(vec![0; 1]), Step::Read(vec![0; 2]), Step::Write(vec![1])];
    ctx.begin_transaction(0x29, &mut steps).unwrap();
    let none: Vec<u8> = Vec::new();
    rust_i2c_interrupt_handler(&mut ctx, I2C_SR1_SB, &none);
    rust_i2c_interrupt_handler(&mut ctx, I2C_SR1_ADDR, &none);
    assert_eq!(
        rust_i2c_interrupt_accesses(&ctx, I2C_SR1_RXNE),
        vec![Op::ReadData(periph), start(periph)]
    );
    rust_i2c_interrupt_handler(&mut ctx, I2C_SR1_RXNE, &vec![1]);
    assert_eq!(ctx.state(), PeripheralState::StartBitSet);
    rust_i2c_interrupt_handler(&mut ctx, I2C_SR1_SB, &none);
    rust_i2c_interrupt_handler(&mut ctx, I2C_SR1_ADDR, &none);
    assert_eq!(
        rust_i2c_interrupt_accesses(&ctx, I2C_SR1_RXNE | I2C_SR1_BTF),
        vec![ack_off(periph), Op::ReadData(periph), Op::ReadData(periph), start(periph)]
    );
    rust_i2c_interrupt_handler(&mut ctx, I2C_SR1_RXNE | I2C_SR1_BTF, &vec![2, 3]);
    assert_eq!(ctx.state(), PeripheralState::StartBitSet);
    assert_eq!(ctx.current_transaction.as_ref().unwrap().curr_step, 2);
}

#[test]
fn an_event_without_a_transaction_resets_the_peripheral() {
    let periph = Peripheral::I2C2;
    let ctx = InterruptContext::new(periph);
    let ops = rust_i2c_interrupt_accesses(&ctx, I2C_SR1_SB);
    assert_eq!(ops, i2c_engine::i2c_v1::I2C::get_periph(periph).reset());
    let mut ctx = ctx;
    rust_i2c_interrupt_handler(&mut ctx, I2C_SR1_SB, &Vec::new());
    assert_eq!(ctx.state(), PeripheralState::Done(0));
    assert!(!ctx.is_busy());
}

#[test]
fn an_error_interrupt_fails_the_transaction() {
    let periph = Peripheral::I2C3;
    let mut bus = SimulatedBus::new(periph, vec![1, 2, 3, 4]);
    bus.regs.cr2 = 0x0330;
    bus.regs.ccr = 240;
    bus.regs.trise = 49;
    bus.regs.fltr = 0x0f;
    bus.regs.cr1 = 1;
    let mut ctx = InterruptContext::new(periph);
    let mut steps = vec![Step::Read(vec![0; 4])];
    submit(&mut ctx, &mut bus, 0x29, &mut steps);
    interrupt(&mut ctx, &mut bus);
    interrupt(&mut ctx, &mut bus);
    interrupt(&mut ctx, &mut bus);
    assert_eq!(ctx.state(), PeripheralState::Receiving(1));
    let before = bus.regs;
    assert_ne!(before.cr1 & I2C_CR1_ACK, 0);

    let ops = rust_i2c_interrupt_error_handler(&mut ctx);
    assert_eq!(
        ops,
        vec![
            Op::Modify { reg: reg(periph, I2cReg::Sr1), clear: 0x0f00, set: 0 },
            Op::Modify { reg: reg(periph, I2cReg::Cr1), clear: 0x0f00, set: 0 },
        ]
    );
    assert!(bus.perform(&ops).is_empty());
    assert_eq!(ctx.state(), PeripheralState::Done(-1));
    assert!(ctx.is_busy());
    assert_eq!(bus.regs.cr1 & 0x0f00, 0);
    assert_eq!(bus.regs.cr1, before.cr1 & !0x0f00);
    assert_eq!(bus.regs.cr2, before.cr2);
    assert_eq!(bus.regs.ccr, 240);
    assert_eq!(bus.regs.trise, 49);
    assert_eq!(bus.regs.fltr, 0x0f);

    // Events after the error are ignored.
    assert!(interrupt(&mut ctx, &mut bus).is_empty());
    assert_eq!(ctx.state(), PeripheralState::Done(-1));

    let polled = ctx.poll_transaction(&mut steps, GROUPING);
    assert_eq!(polled, Poll::Failed(deblock_bus(periph, GROUPING)));
    assert_eq!(steps, vec![Step::Read(vec![1, 0, 0, 0])]);
    assert_eq!(ctx.state(), PeripheralState::Done(0));
    assert!(ctx.current_transaction.is_none());
    assert!(!ctx.is_busy());

    // After the recovery the peripheral takes the next transaction.
    if let Poll::Failed(recovery) = polled {
        bus.perform(&recovery);
    }
    let mut again = vec![Step::Read(vec![0; 2])];
    assert_eq!(periph.run_transaction(&mut ctx, &mut bus, 0x29, &mut again, GROUPING), Ok(()));
    assert_eq!(again, vec![Step::Read(vec![2, 3])]);
}

#[test]
fn an_error_interrupt_on_an_idle_peripheral_is_reported_by_the_next_poll() {
    let periph = Peripheral::I2C1;
    let mut ctx = InterruptContext::new(periph);
    rust_i2c_interrupt_error_handler(&mut ctx);
    assert_eq!(ctx.state(), PeripheralState::Done(-1));
    assert!(!ctx.is_busy());
    let mut steps = vec![Step::Write(vec![1])];
    assert!(matches!(ctx.poll_transaction(&mut steps, GROUPING), Poll::Failed(_)));
    assert_eq!(steps, vec![Step::Write(vec![1])]);
    assert_eq!(ctx.state(), PeripheralState::Done(0));
}

#[test]
fn a_bus_of_another_peripheral_ignores_the_accesses() {
    let mut bus = SimulatedBus::new(Peripheral::I2C1, vec![5]);
    let ops = vec![start(Peripheral::I2C2), Op::ReadData(Peripheral::I2C2), Op::WaitUs(3)];
    assert_eq!(bus.perform(&ops), vec![0xff]);
    assert_eq!(bus.phase, BusPhase::Idle);
    assert_eq!(bus.consumed, 0);
    assert_eq!(bus.log, ops);
    assert_eq!(bus.status(), 0);
}

#[test]
fn the_simulated_bus_raises_the_flag_of_its_phase() {
    let periph = Peripheral::I2C1;
    let mut bus = SimulatedBus::new(periph, vec![]);
    assert_eq!(bus.status(), 0);
    bus.apply(start(periph));
    assert_eq!(bus.status(), I2C_SR1_SB);
    bus.apply(send(periph, 0xa0));
    assert_eq!(bus.phase, BusPhase::Addressed(false));
    assert_eq!(bus.status(), I2C_SR1_ADDR);
    // The second status register alone does not clear the flag.
    bus.apply(Op::Read(reg(periph, I2cReg::Sr2)));
    assert_eq!(bus.status(), I2C_SR1_ADDR);
    bus.apply(Op::Read(reg(periph, I2cReg::Sr1)));
    bus.apply(Op::Read(reg(periph, I2cReg::Sr2)));
    assert_eq!(bus.status(), I2C_SR1_TXE | I2C_SR1_BTF);
    bus.apply(start(periph));
    bus.apply(send(periph, 0xa1));
    assert_eq!(bus.phase, BusPhase::Addressed(true));
    bus.apply(Op::Read(reg(periph, I2cReg::Sr1)));
    bus.apply(Op::Read(reg(periph, I2cReg::Sr2)));
    assert_eq!(bus.status(), I2C_SR1_RXNE | I2C_SR1_BTF);
    bus.apply(stop(periph));
    assert_eq!(bus.status(), 0);
    // The requests are cleared once they are taken.
    assert_eq!(bus.regs.cr1 & (I2C_CR1_START | I2C_CR1_STOP), 0);
    // A byte that is written while the bus is idle does not go out.
    bus.apply(send(periph, 0x55));
    assert_eq!(bus.sent, vec![0xa0, 0xa1]);
}

#[test]
fn a_bus_error_fails_the_transaction_and_frees_the_bus() {
    let periph = Peripheral::I2C3;
    let mut bus = SimulatedBus::new(periph, vec![1, 2, 3, 4]);
    let mut ctx = InterruptContext::new(periph);
    // A read of four bytes takes five interrupts; the third is an error.
    bus.fail_after(2);
    let mut steps = vec![Step::Read(vec![0; 4])];
    assert_eq!(
        periph.run_transaction(&mut ctx, &mut bus, 0x29, &mut steps, GROUPING),
        Err(Error::TransactionFailed)
    );
    assert_eq!(steps, vec![Step::Read(vec![0; 4])]);
    assert_eq!(ctx.state(), PeripheralState::Done(0));
    assert!(ctx.current_transaction.is_none());
    assert!(!ctx.is_busy());
    assert_eq!(bus.fault_in, None);
    assert_eq!(bus.status(), 0);
    assert_eq!(bus.regs.cr1 & 0x0f00, 0);

    // The log ends with the accesses of the error handler and the program
    // that frees the bus.
    let mut tail = vec![
        Op::Modify { reg: reg(periph, I2cReg::Sr1), clear: 0x0f00, set: 0 },
        Op::Modify { reg: reg(periph, I2cReg::Cr1), clear: 0x0f00, set: 0 },
    ];
    tail.extend(deblock_bus(periph, GROUPING));
    assert_eq!(&bus.log[bus.log.len() - tail.len()..], &tail[..]);
    assert_eq!(count(&bus.log, Op::ReadData(periph)), 0);

    // The next transaction runs to its end.
    assert_eq!(periph.run_transaction(&mut ctx, &mut bus, 0x29, &mut steps, GROUPING), Ok(()));
    assert_eq!(steps, vec![Step::Read(vec![1, 2, 3, 4])]);
}

#[test]
fn a_bus_error_in_the_middle_leaves_the_bytes_that_were_read() {
    let periph = Peripheral::I2C1;
    let mut bus = SimulatedBus::new(periph, vec![1, 2, 3, 4, 5]);
    let mut ctx = InterruptContext::new(periph);
    bus.fail_after(4);
    let mut steps = vec![Step::Read(vec![0; 5]), Step::Write(vec![9])];
    let result = periph.trace_transaction(&mut ctx, &mut bus, 0x29, &mut steps, GROUPING);
    assert_eq!(result, Err(Error::TransactionFailed));
    assert_eq!(steps, vec![Step::Read(vec![1, 2, 0, 0, 0]), Step::Write(vec![9])]);
    assert!(!ctx.is_busy());
}

#[test]
fn a_bus_error_at_once_fails_the_transaction_before_anything_goes_out() {
    let periph = Peripheral::I2C1;
    let mut bus = SimulatedBus::new(periph, vec![]);
    let mut ctx = InterruptContext::new(periph);
    bus.fail_after(0);
    assert_eq!(bus.status(), 0x0100);
    let mut steps = vec![Step::Write(vec![9])];
    assert_eq!(
        periph.run_transaction(&mut ctx, &mut bus, 0x29, &mut steps, GROUPING),
        Err(Error::TransactionFailed)
    );
    assert!(bus.sent.is_empty());
    assert_eq!(steps, vec![Step::Write(vec![9])]);
}

#[test]
fn a_bus_error_after_the_end_does_not_fail_the_transaction() {
    let periph = Peripheral::I2C1;
    let mut bus = SimulatedBus::new(periph, vec![]);
    let mut ctx = InterruptContext::new(periph);
    // A write of one byte takes three interrupts.
    bus.fail_after(3);
    let mut steps = vec![Step::Write(vec![9])];
    assert_eq!(periph.run_transaction(&mut ctx, &mut bus, 0x29, &mut steps, GROUPING), Ok(()));
    assert_eq!(bus.fault_in, Some(0));
    assert_eq!(
        periph.run_transaction(&mut ctx, &mut bus, 0x29, &mut steps, GROUPING),
        Err(Error::TransactionFailed)
    );
    bus.fail_after(2);
    assert_eq!(
        periph.run_transaction(&mut ctx, &mut bus, 0x29, &mut steps, GROUPING),
        Err(Error::TransactionFailed)
    );
    assert_eq!(bus.sent, vec![0x52, 9, 0x52, 9]);
}

#[test]
fn steps_and_transactions() {
    let mut read = Step::Read(vec![0; 3]);
    let write = Step::Write(vec![1, 2]);
    assert!(read.is_read());
    assert!(!write.is_read());
    assert_eq!(read.len(), 3);
    assert_eq!(write.len(), 2);
    assert_eq!(write.as_ref(), &vec![1, 2]);
    read.set(1, 9);
    assert_eq!(read, Step::Read(vec![0, 9, 0]));

    let mut ctx = InterruptContext::new(Peripheral::I2C2);
    assert_eq!(ctx.periph_id, Peripheral::I2C2);
    assert_eq!(ctx.state(), PeripheralState::Done(0));
    let mut steps = vec![write, read];
    ctx.begin_transaction(0x10, &mut steps).unwrap();
    let trans = ctx.current_transaction.as_mut().unwrap();
    assert_eq!(trans.device_addr, 0x10);
    assert_eq!(trans.curr_step, 0);
    assert!(!trans.on_last_step());
    assert_eq!(trans.current(), &Step::Write(vec![1, 2]));
    trans.store(0, 7);
    assert_eq!(trans.current(), &Step::Write(vec![7, 2]));
    trans.advance();
    assert_eq!(trans.curr_step, 1);
    assert!(trans.on_last_step());
    trans.store(2, 5);
    assert_eq!(trans.current(), &Step::Read(vec![0, 9, 5]));
}

#[test]
fn arming_resets_the_peripheral_and_requests_a_start_condition() {
    let periph = Peripheral::I2C2;
    let mut ctx = InterruptContext::new(periph);
    let mut steps = vec![Step::Write(vec![1])];
    let ops = ctx.begin_transaction(0x10, &mut steps).unwrap();
    let mut expected = i2c_engine::i2c_v1::I2C::get_periph(periph).reset();
    expected.push(start(periph));
    assert_eq!(ops, expected);
    assert_eq!(i2c_engine::hw::count_data_reads(&ops), 0);
}
