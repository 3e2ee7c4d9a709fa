//! What a transaction leaves behind on the simulated bus, and why.

use vstd::prelude::*;
use crate::i2c::{
    arm_accesses, steps_fit, valid_steps, ContextView, PeripheralState, StepView,
};
use crate::i2c_v1::{address_byte, error_accesses, spec_deblock_bus};
use crate::lockstep::{
    coupled, engaged, interrupt, interrupts, interrupts_from, lemma_arm,
    lemma_interrupt_address, lemma_interrupt_advances, lemma_interrupt_receive,
    lemma_interrupt_start, lemma_interrupt_transmit, remaining, round,
};
use crate::scb::ItPriorityGrouping;
use crate::sim::{BusPhase, BusView};

verus! {

/// Whether two sequences of steps have the same directions and lengths.
pub open spec fn same_shape(a: Seq<StepView>, b: Seq<StepView>) -> bool {
    &&& a.len() == b.len()
    &&& forall|j: int|
        0 <= j < a.len() ==> (#[trigger] a[j]).read == b[j].read && a[j].data.len()
            == b[j].data.len()
}

/// Number of bytes that the steps before `upto` read.
pub open spec fn read_total(steps: Seq<StepView>, upto: int) -> nat
    decreases upto,
{
    if upto <= 0 {
        0
    } else {
        read_total(steps, upto - 1) + if steps[upto - 1].read {
            steps[upto - 1].data.len()
        } else {
            0
        }
    }
}

/// The steps when the read steps before `done` are filled with the bytes
/// that the device sends, and the step `done`, if it reads, up to `part`.
/// Each read step takes the bytes that follow those of the read steps
/// before it.
pub open spec fn filled(steps: Seq<StepView>, bus: BusView, done: int, part: int) -> Seq<
    StepView,
> {
    Seq::new(
        steps.len(),
        |j: int|
            if steps[j].read {
                StepView {
                    read: true,
                    data: Seq::new(
                        steps[j].data.len(),
                        |k: int|
                            if j < done || (j == done && k < part) {
                                bus.byte_ahead(read_total(steps, j) + k)
                            } else {
                                steps[j].data[k]
                            },
                    ),
                }
            } else {
                steps[j]
            },
    )
}

/// The steps after the transaction: every read step holds the bytes that
/// the device sent for it, and every write step is as it was.
pub open spec fn completed(steps: Seq<StepView>, bus: BusView) -> Seq<StepView> {
    filled(steps, bus, steps.len() as int, 0)
}

/// Number of steps that have ended.
pub open spec fn steps_done(cv: ContextView) -> int {
    let t = cv.transaction->0;
    if cv.state is Done {
        t.curr_step + 1
    } else {
        t.curr_step as int
    }
}

/// Number of bytes of the current step that were received.
pub open spec fn part_read(cv: ContextView) -> int {
    match cv.state {
        PeripheralState::Receiving(pos) => pos as int,
        _ => 0,
    }
}

/// Number of bytes that the transaction has read so far.
pub open spec fn reads_done(steps: Seq<StepView>, cv: ContextView) -> nat {
    (read_total(steps, steps_done(cv)) + part_read(cv)) as nat
}

/// The bytes that were received went where they belong: the buffers hold
/// the bytes of the device in the order in which it sent them, and the bus
/// has handed out exactly those.
pub open spec fn buffers_on_track(
    steps: Seq<StepView>,
    start: BusView,
    cv: ContextView,
    bv: BusView,
) -> bool {
    let t = cv.transaction->0;
    &&& same_shape(steps, t.steps)
    &&& t.steps == filled(steps, start, steps_done(cv), part_read(cv))
    &&& bv.incoming == start.incoming
    &&& bv.consumed == start.consumed_ahead(reads_done(steps, cv))
    &&& bv.received == start.received + Seq::new(
        reads_done(steps, cv),
        |m: int| start.byte_ahead(m),
    )
}

/// A step that does not read is filled as soon as it is reached.
proof fn lemma_filled_write_done(steps: Seq<StepView>, start: BusView, cur: int)
    requires
        0 <= cur < steps.len(),
        !steps[cur].read,
    ensures
        filled(steps, start, cur + 1, 0) == filled(steps, start, cur, 0),
{
    assert forall|j: int| 0 <= j < steps.len() implies filled(steps, start, cur + 1, 0)[j]
        == filled(steps, start, cur, 0)[j] by {
        if steps[j].read {
            assert(filled(steps, start, cur + 1, 0)[j].data =~= filled(
                steps,
                start,
                cur,
                0,
            )[j].data);
        }
    }
    assert(filled(steps, start, cur + 1, 0) =~= filled(steps, start, cur, 0));
}

/// A step whose bytes were all received is filled.
proof fn lemma_filled_read_done(steps: Seq<StepView>, start: BusView, cur: int)
    requires
        0 <= cur < steps.len(),
    ensures
        filled(steps, start, cur + 1, 0) == filled(
            steps,
            start,
            cur,
            steps[cur].data.len() as int,
        ),
{
    let len = steps[cur].data.len() as int;
    assert forall|j: int| 0 <= j < steps.len() implies filled(steps, start, cur + 1, 0)[j]
        == filled(steps, start, cur, len)[j] by {
        if steps[j].read {
            assert(filled(steps, start, cur + 1, 0)[j].data =~= filled(
                steps,
                start,
                cur,
                len,
            )[j].data);
        }
    }
    assert(filled(steps, start, cur + 1, 0) =~= filled(steps, start, cur, len));
}

/// Storing the byte that belongs at `pos` of the current step fills the
/// step one byte further.
proof fn lemma_filled_store(steps: Seq<StepView>, start: BusView, cur: int, pos: int)
    requires
        0 <= cur < steps.len(),
        steps[cur].read,
        0 <= pos < steps[cur].data.len(),
    ensures
        filled(steps, start, cur, pos + 1) == filled(steps, start, cur, pos).update(
            cur,
            StepView {
                read: true,
                data: filled(steps, start, cur, pos)[cur].data.update(
                    pos,
                    start.byte_ahead(read_total(steps, cur) + pos),
                ),
            },
        ),
{
    let before = filled(steps, start, cur, pos);
    let stored = before.update(
        cur,
        StepView {
            read: true,
            data: before[cur].data.update(pos, start.byte_ahead(read_total(steps, cur) + pos)),
        },
    );
    assert forall|j: int| 0 <= j < steps.len() implies filled(steps, start, cur, pos + 1)[j]
        == stored[j] by {
        if steps[j].read {
            assert(filled(steps, start, cur, pos + 1)[j].data =~= stored[j].data);
        }
    }
    assert(filled(steps, start, cur, pos + 1) =~= stored);
}

/// The number of bytes that the steps up to and with `cur` read.
proof fn lemma_read_total_next(steps: Seq<StepView>, cur: int)
    requires
        0 <= cur < steps.len(),
    ensures
        read_total(steps, cur + 1) == read_total(steps, cur) + if steps[cur].read {
            steps[cur].data.len()
        } else {
            0
        },
{
}

/// The bytes that the bus hands out after it has handed out `done` of them
/// are the ones that follow them.
proof fn lemma_bytes_ahead(start: BusView, bv: BusView, done: nat, count: nat)
    requires
        start.wf(),
        bv.incoming == start.incoming,
        bv.consumed == start.consumed_ahead(done),
    ensures
        forall|m: int| 0 <= m ==> bv.byte_ahead(m) == start.byte_ahead(done + m),
        bv.consumed_ahead(count) == start.consumed_ahead(done + count),
{
}

proof fn lemma_buffers_receive(
    steps: Seq<StepView>,
    start: BusView,
    cv: ContextView,
    bv: BusView,
)
    requires
        coupled(cv, bv),
        start.wf(),
        cv.state is Receiving,
        buffers_on_track(steps, start, cv, bv),
    ensures
        buffers_on_track(steps, start, interrupt(cv, bv).0, interrupt(cv, bv).1),
{
    let (cv2, bv2) = interrupt(cv, bv);
    let t = cv.transaction->0;
    let t2 = cv2.transaction->0;
    let cur = t.curr_step as int;
    let len = t.current().data.len();
    let pos = cv.state->Receiving_0 as int;
    let r = reads_done(steps, cv);
    let base = read_total(steps, cur);
    assert(steps[cur].read == t.steps[cur].read && steps[cur].data.len() == len);
    lemma_interrupt_receive(cv, bv);
    lemma_read_total_next(steps, cur);
    let count: nat = if pos + 2 == len {
        2
    } else {
        1
    };
    lemma_bytes_ahead(start, bv, r, count);
    assert(r == base + pos);
    assert(bv.byte_ahead(0) == start.byte_ahead(base + pos));
    assert(bv.byte_ahead(1) == start.byte_ahead(base + pos + 1));
    lemma_filled_store(steps, start, cur, pos);
    if pos + 2 == len {
        lemma_filled_store(steps, start, cur, pos + 1);
    }
    lemma_filled_read_done(steps, start, cur);
    let r2 = reads_done(steps, cv2);
    assert(r2 == r + count);
    assert(bv2.received =~= start.received + Seq::new(r2, |m: int| start.byte_ahead(m)));
    assert(t2.steps == filled(steps, start, steps_done(cv2), part_read(cv2)));
    assert(same_shape(steps, t2.steps));
}

proof fn lemma_buffers_transmit(
    steps: Seq<StepView>,
    start: BusView,
    cv: ContextView,
    bv: BusView,
)
    requires
        coupled(cv, bv),
        start.wf(),
        cv.state is Transmitting,
        buffers_on_track(steps, start, cv, bv),
    ensures
        buffers_on_track(steps, start, interrupt(cv, bv).0, interrupt(cv, bv).1),
{
    let t = cv.transaction->0;
    let cur = t.curr_step as int;
    assert(steps[cur].read == t.steps[cur].read);
    lemma_interrupt_transmit(cv, bv);
    lemma_read_total_next(steps, cur);
    lemma_filled_write_done(steps, start, cur);
}

/// One interrupt keeps the buffers on track.
pub proof fn lemma_buffers_on_track(
    steps: Seq<StepView>,
    start: BusView,
    cv: ContextView,
    bv: BusView,
)
    requires
        coupled(cv, bv),
        start.wf(),
        !(cv.state is Done),
        buffers_on_track(steps, start, cv, bv),
    ensures
        buffers_on_track(steps, start, interrupt(cv, bv).0, interrupt(cv, bv).1),
{
    match cv.state {
        PeripheralState::StartBitSet => {
            lemma_interrupt_start(cv, bv);
        },
        PeripheralState::AddressSent => {
            lemma_interrupt_address(cv, bv);
        },
        PeripheralState::Transmitting(_) => {
            lemma_buffers_transmit(steps, start, cv, bv);
        },
        PeripheralState::Receiving(_) => {
            lemma_buffers_receive(steps, start, cv, bv);
        },
        PeripheralState::Done(_) => {},
    }
}

/// For every byte of a step, whether the peripheral was set to acknowledge
/// when the byte was read: no longer from the third byte from the end on, so
/// that the device sees the last byte refused.
pub open spec fn step_acks(step: StepView) -> Seq<bool> {
    if step.read {
        Seq::new(step.data.len(), |k: int| k + 3 < step.data.len())
    } else {
        Seq::empty()
    }
}

/// The acknowledge settings at the reads of the steps before `upto`.
pub open spec fn acks_total(steps: Seq<StepView>, upto: int) -> Seq<bool>
    decreases upto,
{
    if upto <= 0 {
        Seq::empty()
    } else {
        acks_total(steps, upto - 1) + step_acks(steps[upto - 1])
    }
}

/// The acknowledge settings at the reads that the transaction has made.
pub open spec fn acks_so_far(steps: Seq<StepView>, cv: ContextView) -> Seq<bool> {
    let len = steps[cv.transaction->0.curr_step as int].data.len();
    acks_total(steps, steps_done(cv)) + Seq::new(part_read(cv) as nat, |k: int| k + 3 < len)
}

/// The bus has recorded the acknowledge settings at the reads that the
/// transaction has made, and no others.
pub open spec fn acks_on_track(
    steps: Seq<StepView>,
    start: BusView,
    cv: ContextView,
    bv: BusView,
) -> bool {
    &&& same_shape(steps, cv.transaction->0.steps)
    &&& bv.acks == start.acks + acks_so_far(steps, cv)
}

/// One interrupt keeps the record of the acknowledge settings on track.
pub proof fn lemma_acks_on_track(
    steps: Seq<StepView>,
    start: BusView,
    cv: ContextView,
    bv: BusView,
)
    requires
        coupled(cv, bv),
        !(cv.state is Done),
        acks_on_track(steps, start, cv, bv),
    ensures
        acks_on_track(steps, start, interrupt(cv, bv).0, interrupt(cv, bv).1),
{
    let (cv2, bv2) = interrupt(cv, bv);
    let t = cv.transaction->0;
    let cur = t.curr_step as int;
    let len = t.current().data.len();
    assert(acks_total(steps, cur + 1) == acks_total(steps, cur) + step_acks(steps[cur]));
    match cv.state {
        PeripheralState::StartBitSet => {
            lemma_interrupt_start(cv, bv);
            assert(acks_so_far(steps, cv2) =~= acks_so_far(steps, cv));
        },
        PeripheralState::AddressSent => {
            lemma_interrupt_address(cv, bv);
            assert(acks_so_far(steps, cv2) =~= acks_so_far(steps, cv));
        },
        PeripheralState::Transmitting(pos) => {
            lemma_interrupt_transmit(cv, bv);
            assert(acks_so_far(steps, cv2) =~= acks_so_far(steps, cv));
        },
        PeripheralState::Receiving(pos) => {
            lemma_interrupt_receive(cv, bv);
            let count: nat = if pos + 2 == len {
                2
            } else {
                1
            };
            assert(acks_so_far(steps, cv2) =~= acks_so_far(steps, cv) + Seq::new(
                count,
                |m: int| pos + m + 3 < len,
            ));
            assert(bv2.acks =~= start.acks + acks_so_far(steps, cv2));
        },
        PeripheralState::Done(_) => {},
    }
}

/// The bytes that a step puts on the bus: the address byte, and for a write
/// the bytes of the buffer.
pub open spec fn step_wire(step: StepView, device_addr: u8) -> Seq<u8> {
    seq![address_byte(device_addr, step.read)] + if step.read {
        Seq::empty()
    } else {
        step.data
    }
}

/// The bytes that the steps before `upto` put on the bus.
pub open spec fn wire_total(steps: Seq<StepView>, device_addr: u8, upto: int) -> Seq<u8>
    decreases upto,
{
    if upto <= 0 {
        Seq::empty()
    } else {
        wire_total(steps, device_addr, upto - 1) + step_wire(steps[upto - 1], device_addr)
    }
}

/// The bytes that the transaction has put on the bus.
pub open spec fn wire_so_far(steps: Seq<StepView>, cv: ContextView) -> Seq<u8> {
    let t = cv.transaction->0;
    let step = steps[t.curr_step as int];
    let address = seq![address_byte(t.device_addr, step.read)];
    wire_total(steps, t.device_addr, steps_done(cv)) + match cv.state {
        PeripheralState::StartBitSet => Seq::empty(),
        PeripheralState::AddressSent => address,
        PeripheralState::Transmitting(pos) => address + step.data.take(pos as int),
        PeripheralState::Receiving(_) => address,
        PeripheralState::Done(_) => Seq::empty(),
    }
}

/// The write steps are as they were, and the bus has recorded the bytes
/// that the transaction has put on it, and no others.
pub open spec fn wire_on_track(
    steps: Seq<StepView>,
    start: BusView,
    cv: ContextView,
    bv: BusView,
) -> bool {
    let t = cv.transaction->0;
    &&& same_shape(steps, t.steps)
    &&& forall|j: int| 0 <= j < steps.len() && !steps[j].read ==> #[trigger] t.steps[j] == steps[j]
    &&& bv.sent == start.sent + wire_so_far(steps, cv)
}

/// One interrupt keeps the record of the bytes on the bus on track.
pub proof fn lemma_wire_on_track(
    steps: Seq<StepView>,
    start: BusView,
    cv: ContextView,
    bv: BusView,
)
    requires
        coupled(cv, bv),
        !(cv.state is Done),
        wire_on_track(steps, start, cv, bv),
    ensures
        wire_on_track(steps, start, interrupt(cv, bv).0, interrupt(cv, bv).1),
{
    let (cv2, bv2) = interrupt(cv, bv);
    let t = cv.transaction->0;
    let cur = t.curr_step as int;
    let step = steps[cur];
    let len = step.data.len();
    let a = t.device_addr;
    assert(wire_total(steps, a, cur + 1) == wire_total(steps, a, cur) + step_wire(step, a));
    assert(t.steps[cur].read == step.read);
    match cv.state {
        PeripheralState::StartBitSet => {
            lemma_interrupt_start(cv, bv);
            assert(bv2.sent =~= start.sent + wire_so_far(steps, cv2));
        },
        PeripheralState::AddressSent => {
            lemma_interrupt_address(cv, bv);
            if !step.read {
                assert(t.steps[cur] == step);
                assert(step.data.take(1) =~= seq![step.data[0]]);
            }
            assert(bv2.sent =~= start.sent + wire_so_far(steps, cv2));
        },
        PeripheralState::Transmitting(pos) => {
            lemma_interrupt_transmit(cv, bv);
            assert(t.steps[cur] == step);
            if pos < len {
                assert(step.data.take(pos + 1) =~= step.data.take(pos as int).push(
                    step.data[pos as int],
                ));
            } else {
                assert(step.data.take(pos as int) =~= step.data);
            }
            assert(bv2.sent =~= start.sent + wire_so_far(steps, cv2));
        },
        PeripheralState::Receiving(pos) => {
            lemma_interrupt_receive(cv, bv);
            assert(bv2.sent =~= start.sent + wire_so_far(steps, cv2));
        },
        PeripheralState::Done(_) => {},
    }
}

/// The states that the engine passes through while it handles a step, from
/// the wait for the start condition on. A write of `n` bytes waits before
/// each of its bytes but the first and once more for the last to go out; a
/// read waits for each of its bytes but the last.
pub open spec fn step_trace(step: StepView) -> Seq<PeripheralState> {
    seq![PeripheralState::StartBitSet, PeripheralState::AddressSent] + if step.read {
        Seq::new(
            if step.data.len() <= 2 {
                1
            } else {
                (step.data.len() - 1) as nat
            },
            |k: int| PeripheralState::Receiving(k as usize),
        )
    } else {
        Seq::new(step.data.len(), |k: int| PeripheralState::Transmitting((k + 1) as usize))
    }
}

/// The states that the engine passes through for the steps before `upto`.
pub open spec fn trace_total(steps: Seq<StepView>, upto: int) -> Seq<PeripheralState>
    decreases upto,
{
    if upto <= 0 {
        Seq::empty()
    } else {
        trace_total(steps, upto - 1) + step_trace(steps[upto - 1])
    }
}

/// The states that the engine passes through for a transaction on a bus
/// without faults: those of each step in turn, then the final state of a
/// success.
pub open spec fn expected_trace(steps: Seq<StepView>) -> Seq<PeripheralState> {
    trace_total(steps, steps.len() as int).push(PeripheralState::Done(0))
}

/// The states that the engine has passed through, up to the one it is in.
pub open spec fn trace_so_far(steps: Seq<StepView>, cv: ContextView) -> Seq<PeripheralState> {
    let begun = seq![PeripheralState::StartBitSet, PeripheralState::AddressSent];
    trace_total(steps, steps_done(cv)) + match cv.state {
        PeripheralState::StartBitSet => seq![PeripheralState::StartBitSet],
        PeripheralState::AddressSent => begun,
        PeripheralState::Transmitting(pos) => begun + Seq::new(
            pos as nat,
            |k: int| PeripheralState::Transmitting((k + 1) as usize),
        ),
        PeripheralState::Receiving(pos) => begun + Seq::new(
            (pos + 1) as nat,
            |k: int| PeripheralState::Receiving(k as usize),
        ),
        PeripheralState::Done(code) => seq![PeripheralState::Done(code)],
    }
}

/// One interrupt adds the state that it leads to to the states that the
/// engine has passed through.
#[verifier::rlimit(30)]
pub proof fn lemma_trace_on_track(steps: Seq<StepView>, cv: ContextView, bv: BusView)
    requires
        coupled(cv, bv),
        !(cv.state is Done),
        same_shape(steps, cv.transaction->0.steps),
    ensures
        same_shape(steps, interrupt(cv, bv).0.transaction->0.steps),
        trace_so_far(steps, interrupt(cv, bv).0) == trace_so_far(steps, cv).push(
            interrupt(cv, bv).0.state,
        ),
{
    let (cv2, bv2) = interrupt(cv, bv);
    let t = cv.transaction->0;
    let cur = t.curr_step as int;
    let step = steps[cur];
    let len = step.data.len();
    assert(trace_total(steps, cur + 1) == trace_total(steps, cur) + step_trace(step));
    assert(t.steps[cur].read == step.read);
    match cv.state {
        PeripheralState::StartBitSet => {
            lemma_interrupt_start(cv, bv);
        },
        PeripheralState::AddressSent => {
            lemma_interrupt_address(cv, bv);
        },
        PeripheralState::Transmitting(pos) => {
            lemma_interrupt_transmit(cv, bv);
        },
        PeripheralState::Receiving(pos) => {
            lemma_interrupt_receive(cv, bv);
        },
        PeripheralState::Done(_) => {},
    }
    assert(trace_so_far(steps, cv2) =~= trace_so_far(steps, cv).push(cv2.state));
}

/// Whether the bus serves a transaction of these steps to its end: it has
/// no fault, or it raises its error only after as many interrupts as the
/// steps take.
pub open spec fn completes(steps: Seq<StepView>, start: BusView) -> bool {
    match start.fault_in {
        None => true,
        Some(served) => served >= interrupts_from(steps, 0),
    }
}

/// What a transaction of the steps `steps` leaves behind when it ran to its
/// end on a bus that was in the state `start`, from a context `idle`
/// without a transaction in flight.
///
/// The context is idle again. Every read step holds the bytes that the
/// device sent for it, in order, and every write step is as it was. The bus
/// is what the program that arms it and then one event interrupt after
/// another make of it, for as many interrupts as the steps take; it is at
/// rest again, and its records have grown by what the transaction read,
/// by the acknowledge setting at each byte read, and by the bytes that
/// went out.
pub open spec fn transaction_outcome(
    steps: Seq<StepView>,
    device_addr: u8,
    idle: ContextView,
    start: BusView,
    steps_after: Seq<StepView>,
    ctx_after: ContextView,
    bus_after: BusView,
) -> bool {
    let n = steps.len() as int;
    &&& ctx_after == ContextView::idle(idle.periph)
    &&& steps_after == completed(steps, start)
    &&& bus_after == interrupts(
        idle.armed(device_addr, steps),
        start.run(arm_accesses(idle.periph)),
        interrupts_from(steps, 0),
    ).1
    &&& bus_after.periph == start.periph
    &&& bus_after.phase == BusPhase::Idle
    &&& bus_after.incoming == start.incoming
    &&& bus_after.consumed == start.consumed_ahead(read_total(steps, n))
    &&& bus_after.received == start.received + Seq::new(
        read_total(steps, n),
        |m: int| start.byte_ahead(m),
    )
    &&& bus_after.acks == start.acks + acks_total(steps, n)
    &&& bus_after.sent == start.sent + wire_total(steps, device_addr, n)
}

/// What a transaction of the steps `steps` leaves behind when the bus, in
/// the state `start`, raised its error before the end.
///
/// The context is idle again. The steps are as the interrupts that the bus
/// served left them. The bus is what those interrupts, then the accesses of
/// the error handler, then the program that frees the bus make of it.
pub open spec fn transaction_failure(
    steps: Seq<StepView>,
    device_addr: u8,
    idle: ContextView,
    start: BusView,
    grouping: ItPriorityGrouping,
    steps_after: Seq<StepView>,
    ctx_after: ContextView,
    bus_after: BusView,
) -> bool {
    let reached = interrupts(
        idle.armed(device_addr, steps),
        start.run(arm_accesses(idle.periph)),
        start.fault_in->0,
    );
    &&& ctx_after == ContextView::idle(idle.periph)
    &&& same_shape(steps, steps_after)
    &&& steps_after == reached.0.transaction->0.steps
    &&& bus_after == reached.1.run(error_accesses(idle.periph)).run(
        spec_deblock_bus(idle.periph, grouping),
    )
}

/// Where a transaction stands after `count` interrupts that the bus served:
/// the engine and the bus agree, they are what the interrupts made of the
/// armed context and bus, and the buffers, the records of the bus and the
/// states that the engine passed through are what the steps call for.
#[verifier::opaque]
pub open spec fn in_flight(
    steps: Seq<StepView>,
    device_addr: u8,
    idle: ContextView,
    start: BusView,
    count: nat,
    trace: Seq<PeripheralState>,
    cv: ContextView,
    bv: BusView,
) -> bool {
    let armed = idle.armed(device_addr, steps);
    let armed_bus = start.run(arm_accesses(idle.periph));
    &&& valid_steps(steps)
    &&& start.wf()
    &&& start.periph == idle.periph
    &&& engaged(cv, bv)
    &&& cv.periph == idle.periph
    &&& cv.transaction->0.device_addr == device_addr
    &&& (cv, bv) == interrupts(armed, armed_bus, count)
    &&& count + remaining(cv) == interrupts_from(steps, 0)
    &&& match start.fault_in {
        None => bv.fault_in is None,
        Some(served) => count <= served && bv.fault_in == Some((served - count) as nat),
    }
    &&& buffers_on_track(steps, start, cv, bv)
    &&& acks_on_track(steps, start, cv, bv)
    &&& wire_on_track(steps, start, cv, bv)
    &&& trace == trace_so_far(steps, cv)
}

/// A transaction that was submitted and armed is in flight.
pub proof fn lemma_in_flight_armed(
    steps: Seq<StepView>,
    device_addr: u8,
    idle: ContextView,
    start: BusView,
)
    requires
        valid_steps(steps),
        steps_fit(steps),
        start.wf(),
        idle.wf(),
        !idle.busy(),
        idle.periph == start.periph,
    ensures
        in_flight(
            steps,
            device_addr,
            idle,
            start,
            0,
            seq![PeripheralState::StartBitSet],
            idle.armed(device_addr, steps),
            start.run(arm_accesses(idle.periph)),
        ),
        start.run(arm_accesses(idle.periph)).wf(),
{
    reveal(in_flight);
    let cv1 = idle.armed(device_addr, steps);
    let bv1 = start.run(arm_accesses(idle.periph));
    lemma_arm(start);
    assert(remaining(cv1) == interrupts_from(steps, 0));
    assert(cv1.transaction->0.steps =~= filled(steps, start, 0, 0)) by {
        assert forall|j: int| 0 <= j < steps.len() implies (#[trigger] steps[j]) == filled(
            steps,
            start,
            0,
            0,
        )[j] by {
            assert(steps[j].data =~= filled(steps, start, 0, 0)[j].data);
        }
    }
    assert(bv1.received =~= start.received + Seq::new(0, |m: int| start.byte_ahead(m)));
    assert(bv1.acks =~= start.acks + acks_so_far(steps, cv1));
    assert(bv1.sent =~= start.sent + wire_so_far(steps, cv1));
    assert(seq![PeripheralState::StartBitSet] =~= trace_so_far(steps, cv1));
}

/// What the harness may rely on while a transaction is in flight.
pub proof fn lemma_in_flight_wf(
    steps: Seq<StepView>,
    device_addr: u8,
    idle: ContextView,
    start: BusView,
    count: nat,
    trace: Seq<PeripheralState>,
    cv: ContextView,
    bv: BusView,
)
    requires
        in_flight(steps, device_addr, idle, start, count, trace, cv, bv),
    ensures
        cv.wf(),
        bv.wf(),
        cv.transaction is Some,
        cv.periph == idle.periph,
        bv.periph == idle.periph,
        cv.state is Done ==> cv.state == PeripheralState::Done(0),
{
    reveal(in_flight);
}

/// An interrupt that the bus serves keeps the transaction in flight, and
/// one interrupt less remains.
pub proof fn lemma_in_flight_round(
    steps: Seq<StepView>,
    device_addr: u8,
    idle: ContextView,
    start: BusView,
    count: nat,
    trace: Seq<PeripheralState>,
    cv: ContextView,
    bv: BusView,
)
    requires
        in_flight(steps, device_addr, idle, start, count, trace, cv, bv),
        !(cv.state is Done),
        !bv.faulted(),
    ensures
        in_flight(
            steps,
            device_addr,
            idle,
            start,
            count + 1,
            trace.push(round(cv, bv).0.state),
            round(cv, bv).0,
            round(cv, bv).1,
        ),
        remaining(round(cv, bv).0) < remaining(cv),
{
    reveal(in_flight);
    lemma_interrupt_advances(cv, bv);
    lemma_buffers_on_track(steps, start, cv, bv);
    lemma_acks_on_track(steps, start, cv, bv);
    lemma_wire_on_track(steps, start, cv, bv);
    lemma_trace_on_track(steps, cv, bv);
    let armed = idle.armed(device_addr, steps);
    let armed_bus = start.run(arm_accesses(idle.periph));
    assert(interrupts(armed, armed_bus, count + 1) == round(cv, bv));
    lemma_counted_keeps(steps, start, interrupt(cv, bv).0, interrupt(cv, bv).1);
}

/// Counting an interrupt changes nothing but the count.
proof fn lemma_counted_keeps(steps: Seq<StepView>, start: BusView, cv: ContextView, bv: BusView)
    requires
        engaged(cv, bv),
        buffers_on_track(steps, start, cv, bv),
        acks_on_track(steps, start, cv, bv),
        wire_on_track(steps, start, cv, bv),
    ensures
        engaged(cv, bv.counted()),
        buffers_on_track(steps, start, cv, bv.counted()),
        acks_on_track(steps, start, cv, bv.counted()),
        wire_on_track(steps, start, cv, bv.counted()),
{
}

/// A transaction in flight whose state is a final one has run to its end.
pub proof fn lemma_in_flight_done(
    steps: Seq<StepView>,
    device_addr: u8,
    idle: ContextView,
    start: BusView,
    count: nat,
    trace: Seq<PeripheralState>,
    cv: ContextView,
    bv: BusView,
)
    requires
        in_flight(steps, device_addr, idle, start, count, trace, cv, bv),
        cv.state is Done,
    ensures
        completes(steps, start),
        trace == expected_trace(steps),
        transaction_outcome(
            steps,
            device_addr,
            idle,
            start,
            cv.transaction->0.steps,
            ContextView::idle(idle.periph),
            bv,
        ),
{
    reveal(in_flight);
    let n = steps.len() as int;
    assert(steps_done(cv) == n);
    assert(trace =~= expected_trace(steps));
    assert(count == interrupts_from(steps, 0));
    assert(bv.acks =~= start.acks + acks_total(steps, n));
    assert(bv.sent =~= start.sent + wire_total(steps, device_addr, n));
}

/// A transaction in flight on a bus that has raised its error does not run
/// to its end: the bus has served as many interrupts as it was to serve.
pub proof fn lemma_in_flight_fault(
    steps: Seq<StepView>,
    device_addr: u8,
    idle: ContextView,
    start: BusView,
    count: nat,
    trace: Seq<PeripheralState>,
    cv: ContextView,
    bv: BusView,
)
    requires
        in_flight(steps, device_addr, idle, start, count, trace, cv, bv),
        !(cv.state is Done),
        bv.faulted(),
    ensures
        !completes(steps, start),
        start.fault_in == Some(count),
        (cv, bv) == interrupts(
            idle.armed(device_addr, steps),
            start.run(arm_accesses(idle.periph)),
            count,
        ),
        same_shape(steps, cv.transaction->0.steps),
{
    reveal(in_flight);
}

} // verus!
