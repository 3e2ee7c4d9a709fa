//! Laws of the engine.

use vstd::prelude::*;
use crate::gpio::Pin;
use crate::hw::{clear_bits, I2cReg, Op};
use crate::i2c::{arm_accesses, steps_fit, valid_steps, ContextView, PeripheralState, StepView};
use crate::i2c_v1::{
    addr, clock_pulses, error_accesses, event_accesses, i2c_reg, line_setup, manual_line_mode,
    rxne, spec_deblock_bus, spec_peripheral_init, spec_reset, spec_scl_pin, spec_sda_pin,
    DEBLOCK_HALF_PERIOD_US, DEBLOCK_PULSES, I2C_CR1_ACK, I2C_CR1_POS, I2C_CR1_TRANSACTION_BITS,
    TRANSACTION_ERROR,
};
use crate::lockstep::{interrupts, interrupts_from, lemma_requests, lemma_run_2, round};
use crate::outcome::{
    completes, expected_trace, in_flight, lemma_in_flight_armed, lemma_in_flight_done,
    lemma_in_flight_round, lemma_in_flight_wf, step_trace, trace_so_far, trace_total,
    transaction_outcome,
};
use crate::scb::ItPriorityGrouping;
use crate::sim::{BusView, Config};

verus! {

/// Number of times that a state occurs among the states that the engine
/// passed through.
pub open spec fn occurrences(trace: Seq<PeripheralState>, state: PeripheralState) -> nat
    decreases trace.len(),
{
    if trace.len() == 0 {
        0
    } else {
        occurrences(trace.drop_last(), state) + if trace.last() == state {
            1nat
        } else {
            0nat
        }
    }
}

proof fn lemma_occurrences_concat(
    a: Seq<PeripheralState>,
    b: Seq<PeripheralState>,
    state: PeripheralState,
)
    ensures
        occurrences(a + b, state) == occurrences(a, state) + occurrences(b, state),
    decreases b.len(),
{
    if b.len() == 0 {
        assert(a + b =~= a);
    } else {
        assert((a + b).drop_last() =~= a + b.drop_last());
        lemma_occurrences_concat(a, b.drop_last(), state);
    }
}

proof fn lemma_occurrences_none(trace: Seq<PeripheralState>, state: PeripheralState)
    requires
        forall|i: int| 0 <= i < trace.len() ==> trace[i] != state,
    ensures
        occurrences(trace, state) == 0,
    decreases trace.len(),
{
    if trace.len() > 0 {
        lemma_occurrences_none(trace.drop_last(), state);
    }
}

proof fn lemma_step_occurrences(step: StepView)
    ensures
        occurrences(step_trace(step), PeripheralState::StartBitSet) == 1,
        occurrences(step_trace(step), PeripheralState::AddressSent) == 1,
        occurrences(step_trace(step), PeripheralState::Done(0)) == 0,
{
    let begun = seq![PeripheralState::StartBitSet, PeripheralState::AddressSent];
    let data = step_trace(step).subrange(2, step_trace(step).len() as int);
    assert(step_trace(step) =~= begun + data);
    let first = seq![PeripheralState::StartBitSet];
    assert(begun.drop_last() =~= first);
    assert(first.drop_last() =~= Seq::<PeripheralState>::empty());
    assert(occurrences(Seq::<PeripheralState>::empty(), PeripheralState::StartBitSet) == 0);
    assert(occurrences(Seq::<PeripheralState>::empty(), PeripheralState::AddressSent) == 0);
    assert(occurrences(Seq::<PeripheralState>::empty(), PeripheralState::Done(0)) == 0);
    assert(occurrences(first, PeripheralState::StartBitSet) == 1);
    assert(occurrences(first, PeripheralState::AddressSent) == 0);
    assert(occurrences(first, PeripheralState::Done(0)) == 0);
    assert(occurrences(begun, PeripheralState::StartBitSet) == 1);
    assert(occurrences(begun, PeripheralState::AddressSent) == 1);
    assert(occurrences(begun, PeripheralState::Done(0)) == 0);
    lemma_occurrences_none(data, PeripheralState::StartBitSet);
    lemma_occurrences_none(data, PeripheralState::AddressSent);
    lemma_occurrences_none(data, PeripheralState::Done(0));
    lemma_occurrences_concat(begun, data, PeripheralState::StartBitSet);
    lemma_occurrences_concat(begun, data, PeripheralState::AddressSent);
    lemma_occurrences_concat(begun, data, PeripheralState::Done(0));
}

proof fn lemma_total_occurrences(steps: Seq<StepView>, upto: int)
    requires
        0 <= upto <= steps.len(),
    ensures
        occurrences(trace_total(steps, upto), PeripheralState::StartBitSet) == upto,
        occurrences(trace_total(steps, upto), PeripheralState::AddressSent) == upto,
        occurrences(trace_total(steps, upto), PeripheralState::Done(0)) == 0,
        upto > 0 ==> trace_total(steps, upto).len() > 0 && trace_total(steps, upto)[0]
            == PeripheralState::StartBitSet,
    decreases upto,
{
    if upto > 0 {
        lemma_total_occurrences(steps, upto - 1);
        lemma_step_occurrences(steps[upto - 1]);
        let before = trace_total(steps, upto - 1);
        let last = step_trace(steps[upto - 1]);
        lemma_occurrences_concat(before, last, PeripheralState::StartBitSet);
        lemma_occurrences_concat(before, last, PeripheralState::AddressSent);
        lemma_occurrences_concat(before, last, PeripheralState::Done(0));
    }
}

/// On a bus without faults the engine starts every step once and addresses
/// the device once for it: among the states that it passes through, from
/// the wait for the first start condition to the final state of a success,
/// the wait for a start condition and the wait for the acknowledge of the
/// address occur once for each step, and the final state occurs once, at
/// the end.
pub proof fn lemma_one_start_per_step(steps: Seq<StepView>)
    requires
        valid_steps(steps),
    ensures
        occurrences(expected_trace(steps), PeripheralState::StartBitSet) == steps.len(),
        occurrences(expected_trace(steps), PeripheralState::AddressSent) == steps.len(),
        occurrences(expected_trace(steps), PeripheralState::Done(0)) == 1,
        expected_trace(steps)[0] == PeripheralState::StartBitSet,
        expected_trace(steps).last() == PeripheralState::Done(0),
{
    let n = steps.len() as int;
    lemma_total_occurrences(steps, n);
    assert(expected_trace(steps).drop_last() =~= trace_total(steps, n));
}

/// The transaction after `count` interrupts on a bus that serves it to its
/// end: it is in flight, and the states that the engine has passed through
/// are the states after each of the interrupts so far.
proof fn lemma_in_flight_after(
    steps: Seq<StepView>,
    device_addr: u8,
    idle: ContextView,
    start: BusView,
    count: nat,
)
    requires
        valid_steps(steps),
        steps_fit(steps),
        idle.wf(),
        !idle.busy(),
        start.wf(),
        start.periph == idle.periph,
        completes(steps, start),
        count <= interrupts_from(steps, 0),
    ensures
        ({
            let armed = idle.armed(device_addr, steps);
            let armed_bus = start.run(arm_accesses(idle.periph));
            let reached = interrupts(armed, armed_bus, count);
            let trace = trace_so_far(steps, reached.0);
            &&& in_flight(steps, device_addr, idle, start, count, trace, reached.0, reached.1)
            &&& trace.len() == count + 1
            &&& forall|j: int|
                0 <= j <= count ==> trace[j] == (#[trigger] interrupts(
                    armed,
                    armed_bus,
                    j as nat,
                )).0.state
        }),
    decreases count,
{
    let armed = idle.armed(device_addr, steps);
    let armed_bus = start.run(arm_accesses(idle.periph));
    if count == 0 {
        lemma_in_flight_armed(steps, device_addr, idle, start);
        assert(trace_so_far(steps, armed) =~= seq![PeripheralState::StartBitSet]);
    } else {
        let before = interrupts(armed, armed_bus, (count - 1) as nat);
        let trace = trace_so_far(steps, before.0);
        lemma_in_flight_after(steps, device_addr, idle, start, (count - 1) as nat);
        assert(!(before.0.state is Done) && !before.1.faulted()) by {
            reveal(in_flight);
        }
        lemma_in_flight_round(
            steps,
            device_addr,
            idle,
            start,
            (count - 1) as nat,
            trace,
            before.0,
            before.1,
        );
        let reached = interrupts(armed, armed_bus, count);
        assert(reached == round(before.0, before.1));
        assert(trace_so_far(steps, reached.0) == trace.push(reached.0.state)) by {
            reveal(in_flight);
        }
    }
}

/// On a bus that serves the transaction to its end, a transaction that is
/// submitted to an idle peripheral runs through the states that its steps
/// call for, one state for each interrupt, and ends in the final state of a
/// success: after `j` interrupts the engine is in the state at `j` of the
/// expected states, for every `j` up to the number of interrupts that the
/// steps take. What it leaves behind is the outcome of the transaction.
pub proof fn lemma_transaction_runs_to_completion(
    steps: Seq<StepView>,
    device_addr: u8,
    idle: ContextView,
    start: BusView,
)
    requires
        valid_steps(steps),
        steps_fit(steps),
        idle.wf(),
        !idle.busy(),
        start.wf(),
        start.periph == idle.periph,
        completes(steps, start),
    ensures
        ({
            let armed = idle.armed(device_addr, steps);
            let armed_bus = start.run(arm_accesses(idle.periph));
            let n = interrupts_from(steps, 0);
            let end = interrupts(armed, armed_bus, n);
            &&& expected_trace(steps).len() == n + 1
            &&& forall|j: int|
                0 <= j <= n ==> (#[trigger] interrupts(armed, armed_bus, j as nat)).0.state
                    == expected_trace(steps)[j]
            &&& end.0.state == PeripheralState::Done(0)
            &&& transaction_outcome(
                steps,
                device_addr,
                idle,
                start,
                end.0.transaction->0.steps,
                ContextView::idle(idle.periph),
                end.1,
            )
        }),
{
    let armed = idle.armed(device_addr, steps);
    let armed_bus = start.run(arm_accesses(idle.periph));
    let n = interrupts_from(steps, 0);
    let end = interrupts(armed, armed_bus, n);
    lemma_in_flight_after(steps, device_addr, idle, start, n);
    assert(end.0.state is Done) by {
        reveal(in_flight);
    }
    lemma_in_flight_done(
        steps,
        device_addr,
        idle,
        start,
        n,
        trace_so_far(steps, end.0),
        end.0,
        end.1,
    );
    lemma_in_flight_wf(
        steps,
        device_addr,
        idle,
        start,
        n,
        trace_so_far(steps, end.0),
        end.0,
        end.1,
    );
}

/// The acknowledge is set up one byte ahead. When a read step of one byte
/// was addressed, the first access of the handler switches the acknowledge
/// off, before the flag of the address is cleared and before any byte is
/// read. For a step of two bytes the first access switches the acknowledge
/// off for the byte after the next. In a longer step the handler switches
/// the acknowledge off just before it reads the third byte from the end.
pub proof fn lemma_ack_programmed_ahead(cv: ContextView, sr1: u32)
    requires
        cv.wf(),
        cv.transaction is Some,
        cv.transaction->0.current().read,
    ensures
        ({
            let len = cv.transaction->0.current().data.len();
            let nack = clear_bits(i2c_reg(cv.periph, I2cReg::Cr1), I2C_CR1_ACK);
            &&& cv.state is AddressSent && addr(sr1) && len == 1 ==> {
                &&& event_accesses(cv, sr1)[0] == nack
                &&& forall|i: int|
                    0 <= i < event_accesses(cv, sr1).len() ==> !(event_accesses(cv, sr1)[i]
                        is ReadData)
            }
            &&& cv.state is AddressSent && addr(sr1) && len == 2 ==> event_accesses(cv, sr1)[0]
                == (Op::Modify {
                reg: i2c_reg(cv.periph, I2cReg::Cr1),
                clear: I2C_CR1_ACK,
                set: I2C_CR1_POS,
            })
            &&& cv.state matches PeripheralState::Receiving(pos) ==> (rxne(sr1) && pos + 3 == len
                ==> event_accesses(cv, sr1) == seq![nack, Op::ReadData(cv.periph)])
        }),
{
    let len = cv.transaction->0.current().data.len();
    let nack = clear_bits(i2c_reg(cv.periph, I2cReg::Cr1), I2C_CR1_ACK);
    match cv.state {
        PeripheralState::Receiving(pos) => {
            if rxne(sr1) && pos + 3 == len {
                assert(event_accesses(cv, sr1) =~= seq![nack, Op::ReadData(cv.periph)]);
            }
        },
        _ => {},
    }
}

/// An error interrupt ends the transaction with an error, whatever its
/// state was, and the next look at the context frees it: the context is
/// idle again, without a transaction.
pub proof fn lemma_error_frees_context(cv: ContextView)
    ensures
        ({
            let failed = ContextView { state: PeripheralState::Done(TRANSACTION_ERROR), ..cv };
            &&& failed.state is Done
            &&& failed.state != PeripheralState::Done(0)
            &&& failed.polled() == ContextView::idle(cv.periph)
            &&& !failed.polled().busy()
        }),
{
}

/// The accesses of the error handler clear the bits that steer a
/// transaction and leave every other bit of the configuration as it is.
pub proof fn lemma_error_keeps_configuration(bv: BusView)
    ensures
        ({
            let after = bv.run(error_accesses(bv.periph));
            &&& after.regs == (Config {
                cr1: bv.regs.cr1 & !I2C_CR1_TRANSACTION_BITS,
                ..bv.regs
            })
            &&& after.regs.cr1 & I2C_CR1_TRANSACTION_BITS == 0
            &&& after.saved == bv.saved
        }),
{
    let p = bv.periph;
    let cr1 = bv.regs.cr1;
    lemma_run_2(
        bv,
        clear_bits(i2c_reg(p, I2cReg::Sr1), crate::i2c_v1::I2C_SR1_ERROR_FLAGS),
        clear_bits(i2c_reg(p, I2cReg::Cr1), I2C_CR1_TRANSACTION_BITS),
    );
    lemma_requests();
    crate::lockstep::lemma_reset_bits(cr1);
    assert((cr1 & !I2C_CR1_TRANSACTION_BITS) & I2C_CR1_TRANSACTION_BITS == 0) by (bit_vector);
}

/// The accesses between the release of the data line and the final release
/// of the clock line, in the program that frees the bus.
pub open spec fn recovery_pulses(scl: Pin) -> Seq<Op> {
    clock_pulses(scl, DEBLOCK_PULSES as nat)
}

proof fn lemma_clock_pulses(scl: Pin, count: nat)
    ensures
        clock_pulses(scl, count).len() == 4 * count,
        forall|k: int|
            0 <= k < count ==> {
                &&& #[trigger] clock_pulses(scl, count)[4 * k] == scl.spec_set()
                &&& clock_pulses(scl, count)[4 * k + 1] == Op::WaitUs(DEBLOCK_HALF_PERIOD_US)
                &&& clock_pulses(scl, count)[4 * k + 2] == scl.spec_reset()
                &&& clock_pulses(scl, count)[4 * k + 3] == Op::WaitUs(DEBLOCK_HALF_PERIOD_US)
            },
    decreases count,
{
    if count > 0 {
        lemma_clock_pulses(scl, (count - 1) as nat);
    }
}

/// Freeing the bus pulses the clock line exactly nine times while the data
/// line is released. The program first resets the peripheral and takes
/// both lines in hand. It then releases the data line, and the accesses
/// that follow are nine times: clock line high, a wait, clock line low, a
/// wait. None of them touches the data line. At last the clock line is
/// released, and the program ends with the whole initialisation of the
/// peripheral, which hands both lines back to it.
pub proof fn lemma_recovery_pulses(periph: crate::i2c::Peripheral, grouping: ItPriorityGrouping)
    ensures
        ({
            let sda = spec_sda_pin(periph);
            let scl = spec_scl_pin(periph);
            let pulses = recovery_pulses(scl);
            let prepare = spec_reset(periph) + line_setup(sda, manual_line_mode()) + line_setup(
                scl,
                manual_line_mode(),
            );
            &&& spec_deblock_bus(periph, grouping) == prepare + seq![sda.spec_set()] + pulses
                + seq![scl.spec_set()] + spec_peripheral_init(periph, grouping)
            &&& pulses.len() == 4 * 9
            &&& forall|k: int|
                0 <= k < 9 ==> {
                    &&& #[trigger] pulses[4 * k] == scl.spec_set()
                    &&& pulses[4 * k + 1] == Op::WaitUs(DEBLOCK_HALF_PERIOD_US)
                    &&& pulses[4 * k + 2] == scl.spec_reset()
                    &&& pulses[4 * k + 3] == Op::WaitUs(DEBLOCK_HALF_PERIOD_US)
                }
            &&& forall|i: int|
                0 <= i < pulses.len() ==> #[trigger] pulses[i] != sda.spec_reset() && pulses[i]
                    != sda.spec_set()
        }),
{
    let sda = spec_sda_pin(periph);
    let scl = spec_scl_pin(periph);
    let pulses = recovery_pulses(scl);
    lemma_clock_pulses(scl, 9);
    assert(sda.port != scl.port || sda.pin_num != scl.pin_num);
    assert forall|i: int| 0 <= i < pulses.len() implies #[trigger] pulses[i] != sda.spec_reset()
        && pulses[i] != sda.spec_set() by {
        let k = i / 4;
        assert(0 <= k < 9);
        assert(pulses[4 * k] == scl.spec_set());
        assert(i == 4 * k || i == 4 * k + 1 || i == 4 * k + 2 || i == 4 * k + 3);
        lemma_pins_differ(periph);
    }
}

/// The accesses that drive the clock line of a peripheral are not those
/// that drive its data line.
proof fn lemma_pins_differ(periph: crate::i2c::Peripheral)
    ensures
        spec_scl_pin(periph).spec_set() != spec_sda_pin(periph).spec_set(),
        spec_scl_pin(periph).spec_set() != spec_sda_pin(periph).spec_reset(),
        spec_scl_pin(periph).spec_reset() != spec_sda_pin(periph).spec_set(),
        spec_scl_pin(periph).spec_reset() != spec_sda_pin(periph).spec_reset(),
{
    assert(1u32 << 9u32 != 1u32 << 6u32 && 1u32 << 9u32 != 0x0001_0000u32 << 6u32 && 1u32 << 6u32
        != 0x0001_0000u32 << 9u32 && 0x0001_0000u32 << 9u32 != 0x0001_0000u32 << 6u32 && 1u32
        << 3u32 != 1u32 << 10u32 && 1u32 << 3u32 != 0x0001_0000u32 << 10u32 && 1u32 << 10u32
        != 0x0001_0000u32 << 3u32 && 0x0001_0000u32 << 3u32 != 0x0001_0000u32 << 10u32)
        by (bit_vector);
}

} // verus!
