//! The engine and the simulated bus, one interrupt at a time.

use vstd::prelude::*;
use crate::hw::{clear_bits, set_bits, spec_modified, I2cReg, Op};
use crate::i2c::{arm_accesses, ContextView, Peripheral, PeripheralState, StepView};
use crate::i2c_v1::{
    addr, address_byte, btf, byte_stored, event_accesses, event_transition, i2c_reg, rxne, sb,
    spec_end_step, spec_reset, spec_send_data, step_ended, txe, I2C_CR1_ACK, I2C_CR1_POS,
    I2C_CR1_START, I2C_CR1_STOP, I2C_CR1_SWRST, I2C_CR1_TRANSACTION_BITS, I2C_CR2_ITBUFEN,
    I2C_SR1_ADDR, I2C_SR1_BERR, I2C_SR1_BTF, I2C_SR1_ERROR_FLAGS, I2C_SR1_RXNE, I2C_SR1_SB,
    I2C_SR1_TXE,
};
use crate::sim::{lemma_run_concat, lemma_run_push, spec_held, BusPhase, BusView, Config};

verus! {

/// The flags that the simulated bus raises are the ones that the engine
/// waits for.
pub proof fn lemma_status_flags()
    ensures
        I2C_SR1_BERR & I2C_SR1_ERROR_FLAGS != 0,
        0u32 & I2C_SR1_ERROR_FLAGS == 0,
        I2C_SR1_SB & I2C_SR1_ERROR_FLAGS == 0,
        I2C_SR1_ADDR & I2C_SR1_ERROR_FLAGS == 0,
        (I2C_SR1_TXE | I2C_SR1_BTF) & I2C_SR1_ERROR_FLAGS == 0,
        (I2C_SR1_RXNE | I2C_SR1_BTF) & I2C_SR1_ERROR_FLAGS == 0,
        sb(I2C_SR1_SB),
        addr(I2C_SR1_ADDR),
        txe(I2C_SR1_TXE | I2C_SR1_BTF),
        btf(I2C_SR1_TXE | I2C_SR1_BTF),
        rxne(I2C_SR1_RXNE | I2C_SR1_BTF),
        btf(I2C_SR1_RXNE | I2C_SR1_BTF),
{
    assert(I2C_SR1_BERR & I2C_SR1_ERROR_FLAGS != 0 && 0u32 & I2C_SR1_ERROR_FLAGS == 0
        && I2C_SR1_SB & I2C_SR1_ERROR_FLAGS == 0 && I2C_SR1_ADDR & I2C_SR1_ERROR_FLAGS == 0 && (
    I2C_SR1_TXE | I2C_SR1_BTF) & I2C_SR1_ERROR_FLAGS == 0 && (I2C_SR1_RXNE | I2C_SR1_BTF)
        & I2C_SR1_ERROR_FLAGS == 0) by (bit_vector);
    assert(I2C_SR1_SB & I2C_SR1_SB != 0 && I2C_SR1_ADDR & I2C_SR1_ADDR != 0 && (I2C_SR1_TXE
        | I2C_SR1_BTF) & I2C_SR1_TXE != 0 && (I2C_SR1_TXE | I2C_SR1_BTF) & I2C_SR1_BTF != 0 && (
    I2C_SR1_RXNE | I2C_SR1_BTF) & I2C_SR1_RXNE != 0 && (I2C_SR1_RXNE | I2C_SR1_BTF) & I2C_SR1_BTF
        != 0) by (bit_vector);
}

/// Which requests the bits hold that the engine sets in the first control
/// register.
pub proof fn lemma_requests()
    ensures
        0u32 & I2C_CR1_SWRST == 0,
        0u32 & I2C_CR1_START == 0,
        0u32 & I2C_CR1_STOP == 0,
        I2C_CR1_ACK & I2C_CR1_SWRST == 0,
        I2C_CR1_ACK & I2C_CR1_START == 0,
        I2C_CR1_ACK & I2C_CR1_STOP == 0,
        I2C_CR1_POS & I2C_CR1_SWRST == 0,
        I2C_CR1_POS & I2C_CR1_START == 0,
        I2C_CR1_POS & I2C_CR1_STOP == 0,
        I2C_CR1_START & I2C_CR1_SWRST == 0,
        I2C_CR1_START & I2C_CR1_START != 0,
        I2C_CR1_STOP & I2C_CR1_SWRST == 0,
        I2C_CR1_STOP & I2C_CR1_START == 0,
        I2C_CR1_STOP & I2C_CR1_STOP != 0,
        I2C_CR1_SWRST & I2C_CR1_SWRST != 0,
{
    assert(0u32 & I2C_CR1_SWRST == 0 && 0u32 & I2C_CR1_START == 0 && 0u32 & I2C_CR1_STOP == 0
        && I2C_CR1_ACK & I2C_CR1_SWRST == 0 && I2C_CR1_ACK & I2C_CR1_START == 0 && I2C_CR1_ACK
        & I2C_CR1_STOP == 0 && I2C_CR1_POS & I2C_CR1_SWRST == 0 && I2C_CR1_POS & I2C_CR1_START
        == 0 && I2C_CR1_POS & I2C_CR1_STOP == 0 && I2C_CR1_START & I2C_CR1_SWRST == 0
        && I2C_CR1_START & I2C_CR1_START != 0 && I2C_CR1_STOP & I2C_CR1_SWRST == 0
        && I2C_CR1_STOP & I2C_CR1_START == 0 && I2C_CR1_STOP & I2C_CR1_STOP != 0
        && I2C_CR1_SWRST & I2C_CR1_SWRST != 0) by (bit_vector);
}

/// A byte that is written to the data register goes out as it is, and the
/// lowest bit of an address byte is the direction.
pub proof fn lemma_data_byte(byte: u8)
    ensures
        (((byte as u32) & 0xff) as u8) == byte,
        (byte as u32) & 1 != 0 <==> byte & 1 != 0,
{
    assert((((byte as u32) & 0xff) as u8) == byte) by (bit_vector);
    assert((byte as u32) & 1 != 0 <==> byte & 1 != 0) by (bit_vector);
}

/// The lowest bit of an address byte is set for a read and clear for a
/// write.
pub proof fn lemma_address_direction(device_addr: u8, read: bool)
    ensures
        address_byte(device_addr, read) & 1 != 0 <==> read,
{
    assert(((device_addr << 1u8) | 1u8) & 1 != 0) by (bit_vector);
    assert(((device_addr << 1u8) | 0u8) & 1 == 0) by (bit_vector);
}

/// Whether the peripheral acknowledges the bytes it receives.
pub open spec fn ack_enabled(bv: BusView) -> bool {
    bv.regs.cr1 & I2C_CR1_ACK != 0
}

/// What the accesses of the engine to the first control register do to the
/// acknowledge bit.
pub proof fn lemma_ack_bit(cr1: u32)
    ensures
        spec_held(I2cReg::Cr1, spec_modified(cr1, I2C_CR1_ACK, 0)) & I2C_CR1_ACK == 0,
        spec_held(I2cReg::Cr1, spec_modified(cr1, I2C_CR1_ACK, I2C_CR1_POS))
            & I2C_CR1_ACK == 0,
        spec_held(I2cReg::Cr1, spec_modified(cr1, 0, I2C_CR1_ACK)) & I2C_CR1_ACK != 0,
        spec_held(I2cReg::Cr1, spec_modified(cr1, 0, I2C_CR1_STOP)) & I2C_CR1_ACK
            == cr1 & I2C_CR1_ACK,
        spec_held(I2cReg::Cr1, spec_modified(cr1, 0, I2C_CR1_START)) & I2C_CR1_ACK
            == cr1 & I2C_CR1_ACK,
{
    assert((((cr1 & !I2C_CR1_ACK) | 0) & !(I2C_CR1_START | I2C_CR1_STOP)) & I2C_CR1_ACK == 0
        && (((cr1 & !I2C_CR1_ACK) | I2C_CR1_POS) & !(I2C_CR1_START | I2C_CR1_STOP)) & I2C_CR1_ACK
        == 0 && (((cr1 & !0) | I2C_CR1_ACK) & !(I2C_CR1_START | I2C_CR1_STOP)) & I2C_CR1_ACK != 0
        && (((cr1 & !0) | I2C_CR1_STOP) & !(I2C_CR1_START | I2C_CR1_STOP)) & I2C_CR1_ACK == cr1
        & I2C_CR1_ACK && (((cr1 & !0) | I2C_CR1_START) & !(I2C_CR1_START | I2C_CR1_STOP))
        & I2C_CR1_ACK == cr1 & I2C_CR1_ACK) by (bit_vector);
}

/// Running a program of one access.
pub proof fn lemma_run_1(bus: BusView, a: Op)
    ensures
        bus.run(seq![a]) == bus.step(a),
{
    lemma_run_push(bus, Seq::empty(), a);
    assert(bus.run(Seq::empty()) == bus);
}

/// Running a program of two accesses.
pub proof fn lemma_run_2(bus: BusView, a: Op, b: Op)
    ensures
        bus.run(seq![a, b]) == bus.step(a).step(b),
{
    lemma_run_1(bus, a);
    lemma_run_push(bus, seq![a], b);
    assert(seq![a, b] =~= seq![a].push(b));
}

/// Running a program of three accesses.
pub proof fn lemma_run_3(bus: BusView, a: Op, b: Op, c: Op)
    ensures
        bus.run(seq![a, b, c]) == bus.step(a).step(b).step(c),
{
    lemma_run_2(bus, a, b);
    lemma_run_push(bus, seq![a, b], c);
    assert(seq![a, b, c] =~= seq![a, b].push(c));
}

/// Running a program of four accesses.
pub proof fn lemma_run_4(bus: BusView, a: Op, b: Op, c: Op, d: Op)
    ensures
        bus.run(seq![a, b, c, d]) == bus.step(a).step(b).step(c).step(d),
{
    lemma_run_3(bus, a, b, c);
    lemma_run_push(bus, seq![a, b, c], d);
    assert(seq![a, b, c, d] =~= seq![a, b, c].push(d));
}

/// One event interrupt on the simulated bus: the status is read, the
/// accesses of the handler are performed, and the handler makes its
/// transition with the bytes that were read.
pub open spec fn interrupt(cv: ContextView, bv: BusView) -> (ContextView, BusView) {
    let sr1 = bv.status();
    let after = bv.run(event_accesses(cv, sr1));
    (event_transition(cv, sr1, after.received_since(bv)), after)
}

/// The engine and the bus agree on where the transaction stands, and the
/// bus has not raised an error.
pub open spec fn coupled(cv: ContextView, bv: BusView) -> bool {
    engaged(cv, bv) && !bv.faulted()
}

/// The engine and the bus agree on where the transaction stands.
pub open spec fn engaged(cv: ContextView, bv: BusView) -> bool {
    &&& cv.wf()
    &&& bv.wf()
    &&& cv.periph == bv.periph
    &&& cv.transaction is Some
    &&& {
        let step = cv.transaction->0.current();
        let len = step.data.len();
        match cv.state {
            PeripheralState::StartBitSet => bv.phase == BusPhase::Started,
            PeripheralState::AddressSent => bv.phase == BusPhase::Addressed(step.read)
                && !bv.sr1_read,
            PeripheralState::Transmitting(pos) => {
                &&& bv.phase == BusPhase::Streaming(false)
                &&& !step.read
                &&& 1 <= pos <= len
            },
            PeripheralState::Receiving(pos) => {
                &&& bv.phase == BusPhase::Streaming(true)
                &&& step.read
                &&& (pos == 0 || pos + 2 <= len)
                &&& ack_enabled(bv) == (pos + 3 <= len)
            },
            PeripheralState::Done(code) => {
                &&& code == 0
                &&& cv.transaction->0.on_last_step()
                &&& bv.phase == BusPhase::Idle
            },
        }
    }
}

/// What an interrupt leaves as it is on the bus: the device, and what it
/// has sent and was sent so far.
pub open spec fn same_traffic(before: BusView, after: BusView) -> bool {
    &&& after.periph == before.periph
    &&& after.incoming == before.incoming
    &&& after.consumed == before.consumed
    &&& after.received == before.received
    &&& after.acks == before.acks
    &&& after.sent == before.sent
    &&& after.fault_in == before.fault_in
}

/// What an interrupt leaves as it is on the bus when bytes go out: all of
/// the above but the bytes that were sent.
pub open spec fn same_traffic_but_sent(before: BusView, after: BusView) -> bool {
    same_traffic(before, BusView { sent: before.sent, ..after })
}

/// The interrupt that finds the start condition sent: the address byte goes
/// out, and the device acknowledges.
pub proof fn lemma_interrupt_start(cv: ContextView, bv: BusView)
    requires
        coupled(cv, bv),
        cv.state is StartBitSet,
    ensures
        ({
            let (cv2, bv2) = interrupt(cv, bv);
            let t = cv.transaction->0;
            &&& cv2 == ContextView { state: PeripheralState::AddressSent, ..cv }
            &&& bv2.phase == BusPhase::Addressed(t.current().read)
            &&& !bv2.sr1_read
            &&& bv2.regs == bv.regs
            &&& same_traffic_but_sent(bv, bv2)
            &&& bv2.sent == bv.sent.push(address_byte(t.device_addr, t.current().read))
        }),
{
    let t = cv.transaction->0;
    let byte = address_byte(t.device_addr, t.current().read);
    lemma_status_flags();
    lemma_data_byte(byte);
    lemma_address_direction(t.device_addr, t.current().read);
    lemma_run_1(bv, spec_send_data(cv.periph, byte));
}

/// The interrupt that finds the address acknowledged: the acknowledge is
/// set up for a read, or the first byte goes out for a write, and data
/// moves from then on.
pub proof fn lemma_interrupt_address(cv: ContextView, bv: BusView)
    requires
        coupled(cv, bv),
        cv.state is AddressSent,
    ensures
        ({
            let (cv2, bv2) = interrupt(cv, bv);
            let step = cv.transaction->0.current();
            &&& cv2 == ContextView {
                state: if step.read {
                    PeripheralState::Receiving(0)
                } else {
                    PeripheralState::Transmitting(1)
                },
                ..cv
            }
            &&& bv2.phase == BusPhase::Streaming(step.read)
            &&& same_traffic_but_sent(bv, bv2)
            &&& bv2.sent == if step.read {
                bv.sent
            } else {
                bv.sent.push(step.data[0])
            }
            &&& step.read ==> ack_enabled(bv2) == (step.data.len() >= 3)
            &&& !step.read ==> bv2.regs.cr1 == bv.regs.cr1
        }),
{
    let p = cv.periph;
    let step = cv.transaction->0.current();
    let len = step.data.len();
    lemma_status_flags();
    lemma_requests();
    lemma_ack_bit(bv.regs.cr1);
    let r1 = Op::Read(i2c_reg(p, I2cReg::Sr1));
    let r2 = Op::Read(i2c_reg(p, I2cReg::Sr2));
    let buf = set_bits(i2c_reg(p, I2cReg::Cr2), I2C_CR2_ITBUFEN);
    if step.read {
        if len == 1 {
            let a = clear_bits(i2c_reg(p, I2cReg::Cr1), I2C_CR1_ACK);
            assert(event_accesses(cv, bv.status()) =~= seq![a, buf, r1, r2]);
            lemma_run_4(bv, a, buf, r1, r2);
        } else if len == 2 {
            let a = Op::Modify {
                reg: i2c_reg(p, I2cReg::Cr1),
                clear: I2C_CR1_ACK,
                set: I2C_CR1_POS,
            };
            assert(event_accesses(cv, bv.status()) =~= seq![a, r1, r2]);
            lemma_run_3(bv, a, r1, r2);
        } else {
            let a = set_bits(i2c_reg(p, I2cReg::Cr1), I2C_CR1_ACK);
            assert(event_accesses(cv, bv.status()) =~= seq![a, buf, r1, r2]);
            lemma_run_4(bv, a, buf, r1, r2);
        }
    } else {
        let send = spec_send_data(p, step.data[0]);
        lemma_data_byte(step.data[0]);
        if len >= 2 {
            assert(event_accesses(cv, bv.status()) =~= seq![r1, r2, send, buf]);
            lemma_run_4(bv, r1, r2, send, buf);
        } else {
            assert(event_accesses(cv, bv.status()) =~= seq![r1, r2, send]);
            lemma_run_3(bv, r1, r2, send);
        }
    }
}

/// The interrupt while a write step is sent: the next byte goes out, or,
/// when all have gone out, the step ends.
pub proof fn lemma_interrupt_transmit(cv: ContextView, bv: BusView)
    requires
        coupled(cv, bv),
        cv.state is Transmitting,
    ensures
        ({
            let (cv2, bv2) = interrupt(cv, bv);
            let t = cv.transaction->0;
            let step = t.current();
            let pos = cv.state->Transmitting_0;
            &&& same_traffic_but_sent(bv, bv2)
            &&& ack_enabled(bv2) == ack_enabled(bv)
            &&& pos < step.data.len() ==> {
                &&& cv2 == ContextView {
                    state: PeripheralState::Transmitting((pos + 1) as usize),
                    ..cv
                }
                &&& bv2.phase == bv.phase
                &&& bv2.sent == bv.sent.push(step.data[pos as int])
            }
            &&& pos >= step.data.len() ==> {
                &&& cv2 == step_ended(cv)
                &&& bv2.sent == bv.sent
                &&& bv2.phase == if t.on_last_step() {
                    BusPhase::Idle
                } else {
                    BusPhase::Started
                }
            }
        }),
{
    let p = cv.periph;
    let t = cv.transaction->0;
    let step = t.current();
    let pos = cv.state->Transmitting_0;
    lemma_status_flags();
    lemma_requests();
    lemma_ack_bit(bv.regs.cr1);
    if pos < step.data.len() {
        lemma_data_byte(step.data[pos as int]);
        lemma_run_1(bv, spec_send_data(p, step.data[pos as int]));
    } else {
        lemma_run_2(
            bv,
            spec_end_step(p, t.on_last_step()),
            clear_bits(i2c_reg(p, I2cReg::Cr2), I2C_CR2_ITBUFEN),
        );
    }
}

/// The interrupt while a read step is received. The last two bytes of a
/// step are read together, after the stop condition was requested if the
/// step is the last one; a single byte is read alone. Any other byte is
/// read alone, and before the third byte from the end is read the
/// acknowledge is switched off.
#[verifier::rlimit(30)]
pub proof fn lemma_interrupt_receive(cv: ContextView, bv: BusView)
    requires
        coupled(cv, bv),
        cv.state is Receiving,
    ensures
        ({
            let (cv2, bv2) = interrupt(cv, bv);
            let t = cv.transaction->0;
            let len = t.current().data.len();
            let pos = cv.state->Receiving_0;
            let count: nat = if pos + 2 == len {
                2
            } else {
                1
            };
            &&& bv2.periph == bv.periph
            &&& bv2.incoming == bv.incoming
            &&& bv2.sent == bv.sent
            &&& bv2.fault_in == bv.fault_in
            &&& bv2.wf()
            &&& bv2.consumed == bv.consumed_ahead(count)
            &&& bv2.received == bv.received + Seq::new(count, |m: int| bv.byte_ahead(m))
            &&& bv2.acks == bv.acks + Seq::new(count, |m: int| pos + m + 3 < len)
            &&& pos + 3 <= len ==> {
                &&& cv2 == ContextView {
                    state: PeripheralState::Receiving((pos + 1) as usize),
                    ..byte_stored(cv, pos as int, bv.byte_ahead(0))
                }
                &&& bv2.phase == bv.phase
                &&& ack_enabled(bv2) == (pos + 4 <= len)
            }
            &&& pos + 2 == len ==> cv2 == step_ended(
                byte_stored(
                    byte_stored(cv, pos as int, bv.byte_ahead(0)),
                    pos + 1,
                    bv.byte_ahead(1),
                ),
            )
            &&& pos + 1 == len ==> cv2 == step_ended(
                byte_stored(cv, pos as int, bv.byte_ahead(0)),
            )
            &&& pos + 3 > len ==> bv2.phase == if t.on_last_step() {
                BusPhase::Idle
            } else {
                BusPhase::Started
            }
        }),
{
    let p = cv.periph;
    let t = cv.transaction->0;
    let len = t.current().data.len();
    let pos = cv.state->Receiving_0;
    let last = t.on_last_step();
    let (cv2, bv2) = interrupt(cv, bv);
    lemma_status_flags();
    lemma_requests();
    lemma_ack_bit(bv.regs.cr1);
    let rd = Op::ReadData(p);
    let nack = clear_bits(i2c_reg(p, I2cReg::Cr1), I2C_CR1_ACK);
    let end = spec_end_step(p, last);
    let buf = clear_bits(i2c_reg(p, I2cReg::Cr2), I2C_CR2_ITBUFEN);
    if pos + 1 == len {
        if last {
            assert(event_accesses(cv, bv.status()) =~= seq![rd, end, buf]);
            lemma_run_3(bv, rd, end, buf);
        } else {
            assert(event_accesses(cv, bv.status()) =~= seq![rd, end]);
            lemma_run_2(bv, rd, end);
        }
        assert(bv2.received =~= bv.received + Seq::new(1, |m: int| bv.byte_ahead(m)));
        assert(bv2.acks =~= bv.acks + Seq::new(1, |m: int| pos + m + 3 < len));
        assert(bv2.received_since(bv) =~= seq![bv.byte_ahead(0)]);
    } else if pos + 2 == len {
        if last {
            assert(event_accesses(cv, bv.status()) =~= seq![nack, end, rd, rd]);
            lemma_run_4(bv, nack, end, rd, rd);
            lemma_ack_bit(bv.step(nack).regs.cr1);
            let first = bv.step(nack).step(end).step(rd);
            assert(first.acks == bv.acks.push(false));
            assert(first.received == bv.received.push(bv.byte_ahead(0)));
            assert(first.consumed == bv.consumed_ahead(1));
            assert(first.next_byte() == bv.byte_ahead(1));
            assert(bv2 == first.step(rd));
        } else {
            assert(event_accesses(cv, bv.status()) =~= seq![nack, rd, rd, end]);
            lemma_run_4(bv, nack, rd, rd, end);
            let first = bv.step(nack).step(rd);
            assert(first.acks == bv.acks.push(false));
            assert(first.received == bv.received.push(bv.byte_ahead(0)));
            assert(first.consumed == bv.consumed_ahead(1));
            assert(first.next_byte() == bv.byte_ahead(1));
            assert(bv2 == first.step(rd).step(end));
        }
        assert(bv2.received == bv.received.push(bv.byte_ahead(0)).push(bv.byte_ahead(1)));
        assert(bv2.acks == bv.acks.push(false).push(false));
        assert(bv2.received =~= bv.received + Seq::new(2, |m: int| bv.byte_ahead(m)));
        assert(bv2.acks =~= bv.acks + Seq::new(2, |m: int| pos + m + 3 < len));
        assert(bv2.received_since(bv) =~= seq![bv.byte_ahead(0), bv.byte_ahead(1)]);
    } else {
        if pos + 3 == len {
            assert(event_accesses(cv, bv.status()) =~= seq![nack, rd]);
            lemma_run_2(bv, nack, rd);
        } else {
            assert(event_accesses(cv, bv.status()) =~= seq![rd]);
            lemma_run_1(bv, rd);
        }
        assert(bv2.received =~= bv.received + Seq::new(1, |m: int| bv.byte_ahead(m)));
        assert(bv2.acks =~= bv.acks + Seq::new(1, |m: int| pos + m + 3 < len));
        assert(bv2.received_since(bv) =~= seq![bv.byte_ahead(0)]);
    }
}

/// Number of interrupts that a step takes on the simulated bus: one for
/// the start condition, one for the address, and one for every access to
/// the data, where the last two bytes of a read are one access and the end
/// of a write is one more.
pub open spec fn interrupts_in(step: StepView) -> nat {
    if !step.read {
        step.data.len() + 2
    } else if step.data.len() <= 2 {
        3
    } else {
        step.data.len() + 1
    }
}

/// Number of interrupts that the steps from `from` on take.
pub open spec fn interrupts_from(steps: Seq<StepView>, from: int) -> nat
    decreases steps.len() - from,
{
    if from < 0 || from >= steps.len() {
        0
    } else {
        interrupts_in(steps[from]) + interrupts_from(steps, from + 1)
    }
}

/// Number of interrupts that the transaction still takes on the simulated
/// bus.
pub open spec fn remaining(cv: ContextView) -> nat {
    match cv.transaction {
        None => 0,
        Some(t) => {
            let step = t.current();
            let len = step.data.len();
            let later = interrupts_from(t.steps, t.curr_step + 1);
            match cv.state {
                PeripheralState::StartBitSet => interrupts_in(step) + later,
                PeripheralState::AddressSent => (interrupts_in(step) - 1) as nat + later,
                PeripheralState::Transmitting(pos) => (len - pos + 1) as nat + later,
                PeripheralState::Receiving(pos) => (if len <= 2 {
                    1
                } else {
                    len - 1 - pos
                }) as nat + later,
                PeripheralState::Done(_) => 0,
            }
        },
    }
}

/// Storing a byte in a buffer does not change the number of interrupts
/// that the steps take.
pub proof fn lemma_interrupts_from_stored(
    steps: Seq<StepView>,
    stored: Seq<StepView>,
    from: int,
)
    requires
        stored.len() == steps.len(),
        forall|j: int|
            0 <= j < steps.len() ==> (#[trigger] stored[j]).read == steps[j].read
                && stored[j].data.len() == steps[j].data.len(),
    ensures
        interrupts_from(stored, from) == interrupts_from(steps, from),
    decreases steps.len() - from,
{
    if 0 <= from < steps.len() {
        lemma_interrupts_from_stored(steps, stored, from + 1);
    }
}

/// On the simulated bus every event interrupt advances the transaction: the
/// engine and the bus still agree afterwards, and one interrupt less
/// remains.
pub proof fn lemma_interrupt_advances(cv: ContextView, bv: BusView)
    requires
        coupled(cv, bv),
        !(cv.state is Done),
    ensures
        coupled(interrupt(cv, bv).0, interrupt(cv, bv).1),
        remaining(interrupt(cv, bv).0) + 1 == remaining(cv),
        interrupt(cv, bv).0.periph == cv.periph,
        interrupt(cv, bv).0.transaction->0.device_addr == cv.transaction->0.device_addr,
        interrupt(cv, bv).1.fault_in == bv.fault_in,
{
    let (cv2, bv2) = interrupt(cv, bv);
    let t = cv.transaction->0;
    let step = t.current();
    let len = step.data.len();
    assert(interrupts_from(t.steps, t.curr_step + 1) == if t.on_last_step() {
        0
    } else {
        interrupts_in(t.steps[t.curr_step + 1]) + interrupts_from(t.steps, t.curr_step + 2)
    });
    match cv.state {
        PeripheralState::StartBitSet => {
            lemma_interrupt_start(cv, bv);
        },
        PeripheralState::AddressSent => {
            lemma_interrupt_address(cv, bv);
        },
        PeripheralState::Transmitting(pos) => {
            lemma_interrupt_transmit(cv, bv);
        },
        PeripheralState::Receiving(pos) => {
            lemma_interrupt_receive(cv, bv);
            let t2 = cv2.transaction->0;
            lemma_interrupts_from_stored(t.steps, t2.steps, t.curr_step + 1);
            lemma_interrupts_from_stored(t.steps, t2.steps, t.curr_step + 2);
        },
        PeripheralState::Done(_) => {},
    }
}

/// What a reset leaves in the first control register: the bits that steer
/// a transaction are clear, and so is the reset bit once it was lowered.
pub proof fn lemma_reset_bits(cr1: u32)
    ensures
        spec_held(I2cReg::Cr1, spec_modified(cr1, I2C_CR1_TRANSACTION_BITS, 0)) == cr1
            & !I2C_CR1_TRANSACTION_BITS,
        spec_held(I2cReg::Cr1, cr1 & !I2C_CR1_TRANSACTION_BITS) == cr1
            & !I2C_CR1_TRANSACTION_BITS,
        spec_held(I2cReg::Cr1, spec_modified(I2C_CR1_SWRST, I2C_CR1_SWRST, 0)) == 0,
        spec_held(
            I2cReg::Cr1,
            spec_modified(cr1 & !I2C_CR1_TRANSACTION_BITS, 0, I2C_CR1_START),
        ) == cr1 & !I2C_CR1_TRANSACTION_BITS,
{
    assert((((cr1 & !I2C_CR1_TRANSACTION_BITS) | 0) & !(I2C_CR1_START | I2C_CR1_STOP)) == cr1
        & !I2C_CR1_TRANSACTION_BITS && ((cr1 & !I2C_CR1_TRANSACTION_BITS) & !(I2C_CR1_START
        | I2C_CR1_STOP)) == cr1 & !I2C_CR1_TRANSACTION_BITS && (((I2C_CR1_SWRST & !I2C_CR1_SWRST)
        | 0) & !(I2C_CR1_START | I2C_CR1_STOP)) == 0 && ((((cr1 & !I2C_CR1_TRANSACTION_BITS) & !0)
        | I2C_CR1_START) & !(I2C_CR1_START | I2C_CR1_STOP)) == cr1 & !I2C_CR1_TRANSACTION_BITS)
        by (bit_vector);
}

/// The first part of a reset: the bits that steer a transaction are
/// cleared, and the configuration is kept aside.
pub open spec fn reset_save(p: Peripheral) -> Seq<Op> {
    seq![
        clear_bits(i2c_reg(p, I2cReg::Cr1), I2C_CR1_TRANSACTION_BITS),
        Op::Save(i2c_reg(p, I2cReg::Cr1)),
        Op::Save(i2c_reg(p, I2cReg::Cr2)),
        Op::Save(i2c_reg(p, I2cReg::Oar1)),
        Op::Save(i2c_reg(p, I2cReg::Oar2)),
        Op::Save(i2c_reg(p, I2cReg::Ccr)),
        Op::Save(i2c_reg(p, I2cReg::Trise)),
        Op::Save(i2c_reg(p, I2cReg::Fltr)),
    ]
}

/// The second part of a reset: the reset bit is raised and lowered.
pub open spec fn reset_pulse(p: Peripheral) -> Seq<Op> {
    seq![
        set_bits(i2c_reg(p, I2cReg::Cr1), I2C_CR1_SWRST),
        clear_bits(i2c_reg(p, I2cReg::Cr1), I2C_CR1_SWRST),
    ]
}

/// The third part of a reset: the configuration is written back.
pub open spec fn reset_restore(p: Peripheral) -> Seq<Op> {
    seq![
        Op::Restore(i2c_reg(p, I2cReg::Cr2)),
        Op::Restore(i2c_reg(p, I2cReg::Oar1)),
        Op::Restore(i2c_reg(p, I2cReg::Oar2)),
        Op::Restore(i2c_reg(p, I2cReg::Ccr)),
        Op::Restore(i2c_reg(p, I2cReg::Trise)),
        Op::Restore(i2c_reg(p, I2cReg::Fltr)),
        Op::Restore(i2c_reg(p, I2cReg::Cr1)),
    ]
}

#[verifier::rlimit(30)]
proof fn lemma_reset_save(bv: BusView)
    ensures
        ({
            let after = bv.run(reset_save(bv.periph));
            let kept = Config { cr1: bv.regs.cr1 & !I2C_CR1_TRANSACTION_BITS, ..bv.regs };
            &&& same_traffic(bv, after)
            &&& after.phase == bv.phase
            &&& after.sr1_read == bv.sr1_read
            &&& after.regs == kept
            &&& after.saved == kept
            &&& after.log == bv.log + reset_save(bv.periph)
        }),
{
    let p = bv.periph;
    lemma_requests();
    lemma_reset_bits(bv.regs.cr1);
    let s0: Seq<Op> = Seq::empty();
    let b0 = bv;
    assert(bv.run(s0) == b0);
    let s1 = s0.push(clear_bits(i2c_reg(p, I2cReg::Cr1), I2C_CR1_TRANSACTION_BITS));
    lemma_run_push(bv, s0, clear_bits(i2c_reg(p, I2cReg::Cr1), I2C_CR1_TRANSACTION_BITS));
    let b1 = b0.step(clear_bits(i2c_reg(p, I2cReg::Cr1), I2C_CR1_TRANSACTION_BITS));
    assert(bv.run(s1) == b1);
    assert(b1.regs.cr1 == bv.regs.cr1 & !I2C_CR1_TRANSACTION_BITS && b1.saved == bv.saved);
    let s2 = s1.push(Op::Save(i2c_reg(p, I2cReg::Cr1)));
    lemma_run_push(bv, s1, Op::Save(i2c_reg(p, I2cReg::Cr1)));
    let b2 = b1.step(Op::Save(i2c_reg(p, I2cReg::Cr1)));
    assert(bv.run(s2) == b2);
    assert(b2.regs == b1.regs && b2.saved.cr1 == b1.regs.cr1 && same_traffic(bv, b2));
    let s3 = s2.push(Op::Save(i2c_reg(p, I2cReg::Cr2)));
    lemma_run_push(bv, s2, Op::Save(i2c_reg(p, I2cReg::Cr2)));
    let b3 = b2.step(Op::Save(i2c_reg(p, I2cReg::Cr2)));
    assert(bv.run(s3) == b3);
    assert(b3.regs == b1.regs && b3.saved.cr2 == b1.regs.cr2 && same_traffic(bv, b3));
    let s4 = s3.push(Op::Save(i2c_reg(p, I2cReg::Oar1)));
    lemma_run_push(bv, s3, Op::Save(i2c_reg(p, I2cReg::Oar1)));
    let b4 = b3.step(Op::Save(i2c_reg(p, I2cReg::Oar1)));
    assert(bv.run(s4) == b4);
    assert(b4.regs == b1.regs && b4.saved.oar1 == b1.regs.oar1 && same_traffic(bv, b4));
    let s5 = s4.push(Op::Save(i2c_reg(p, I2cReg::Oar2)));
    lemma_run_push(bv, s4, Op::Save(i2c_reg(p, I2cReg::Oar2)));
    let b5 = b4.step(Op::Save(i2c_reg(p, I2cReg::Oar2)));
    assert(bv.run(s5) == b5);
    assert(b5.regs == b1.regs && b5.saved.oar2 == b1.regs.oar2 && same_traffic(bv, b5));
    let s6 = s5.push(Op::Save(i2c_reg(p, I2cReg::Ccr)));
    lemma_run_push(bv, s5, Op::Save(i2c_reg(p, I2cReg::Ccr)));
    let b6 = b5.step(Op::Save(i2c_reg(p, I2cReg::Ccr)));
    assert(bv.run(s6) == b6);
    assert(b6.regs == b1.regs && b6.saved.ccr == b1.regs.ccr && same_traffic(bv, b6));
    let s7 = s6.push(Op::Save(i2c_reg(p, I2cReg::Trise)));
    lemma_run_push(bv, s6, Op::Save(i2c_reg(p, I2cReg::Trise)));
    let b7 = b6.step(Op::Save(i2c_reg(p, I2cReg::Trise)));
    assert(bv.run(s7) == b7);
    assert(b7.regs == b1.regs && b7.saved.trise == b1.regs.trise && same_traffic(bv, b7));
    let s8 = s7.push(Op::Save(i2c_reg(p, I2cReg::Fltr)));
    lemma_run_push(bv, s7, Op::Save(i2c_reg(p, I2cReg::Fltr)));
    let b8 = b7.step(Op::Save(i2c_reg(p, I2cReg::Fltr)));
    assert(bv.run(s8) == b8);
    assert(b8.regs == b1.regs && b8.saved.fltr == b1.regs.fltr && same_traffic(bv, b8));
    assert(s8 =~= reset_save(p));
    assert(b8.log =~= bv.log + reset_save(p));
}

proof fn lemma_reset_pulse(bv: BusView)
    ensures
        ({
            let after = bv.run(reset_pulse(bv.periph));
            &&& same_traffic(bv, after)
            &&& after.phase == BusPhase::Idle
            &&& !after.sr1_read
            &&& after.regs == Config::spec_zero()
            &&& after.saved == bv.saved
            &&& after.log == bv.log + reset_pulse(bv.periph)
        }),
{
    let p = bv.periph;
    lemma_requests();
    lemma_reset_bits(bv.regs.cr1);
    let s0: Seq<Op> = Seq::empty();
    let b0 = bv;
    assert(bv.run(s0) == b0);
    let s1 = s0.push(set_bits(i2c_reg(p, I2cReg::Cr1), I2C_CR1_SWRST));
    lemma_run_push(bv, s0, set_bits(i2c_reg(p, I2cReg::Cr1), I2C_CR1_SWRST));
    let b1 = b0.step(set_bits(i2c_reg(p, I2cReg::Cr1), I2C_CR1_SWRST));
    assert(bv.run(s1) == b1);
    let s2 = s1.push(clear_bits(i2c_reg(p, I2cReg::Cr1), I2C_CR1_SWRST));
    lemma_run_push(bv, s1, clear_bits(i2c_reg(p, I2cReg::Cr1), I2C_CR1_SWRST));
    let b2 = b1.step(clear_bits(i2c_reg(p, I2cReg::Cr1), I2C_CR1_SWRST));
    assert(bv.run(s2) == b2);
    assert(s2 =~= reset_pulse(p));
    assert(b2.log =~= bv.log + reset_pulse(p));
}

proof fn lemma_reset_restore(bv: BusView)
    requires
        bv.saved.cr1 & !I2C_CR1_TRANSACTION_BITS == bv.saved.cr1,
    ensures
        ({
            let after = bv.run(reset_restore(bv.periph));
            &&& same_traffic(bv, after)
            &&& after.phase == bv.phase
            &&& after.sr1_read == bv.sr1_read
            &&& after.regs == bv.saved
            &&& after.saved == bv.saved
            &&& after.log == bv.log + reset_restore(bv.periph)
        }),
{
    let p = bv.periph;
    lemma_reset_bits(bv.saved.cr1);
    let s0: Seq<Op> = Seq::empty();
    let b0 = bv;
    assert(bv.run(s0) == b0);
    let s1 = s0.push(Op::Restore(i2c_reg(p, I2cReg::Cr2)));
    lemma_run_push(bv, s0, Op::Restore(i2c_reg(p, I2cReg::Cr2)));
    let b1 = b0.step(Op::Restore(i2c_reg(p, I2cReg::Cr2)));
    assert(bv.run(s1) == b1);
    assert(b1.regs.cr2 == bv.saved.cr2 && b1.saved == bv.saved && same_traffic(bv, b1));
    let s2 = s1.push(Op::Restore(i2c_reg(p, I2cReg::Oar1)));
    lemma_run_push(bv, s1, Op::Restore(i2c_reg(p, I2cReg::Oar1)));
    let b2 = b1.step(Op::Restore(i2c_reg(p, I2cReg::Oar1)));
    assert(bv.run(s2) == b2);
    assert(b2.regs.oar1 == bv.saved.oar1 && b2.saved == bv.saved && same_traffic(bv, b2));
    let s3 = s2.push(Op::Restore(i2c_reg(p, I2cReg::Oar2)));
    lemma_run_push(bv, s2, Op::Restore(i2c_reg(p, I2cReg::Oar2)));
    let b3 = b2.step(Op::Restore(i2c_reg(p, I2cReg::Oar2)));
    assert(bv.run(s3) == b3);
    assert(b3.regs.oar2 == bv.saved.oar2 && b3.saved == bv.saved && same_traffic(bv, b3));
    let s4 = s3.push(Op::Restore(i2c_reg(p, I2cReg::Ccr)));
    lemma_run_push(bv, s3, Op::Restore(i2c_reg(p, I2cReg::Ccr)));
    let b4 = b3.step(Op::Restore(i2c_reg(p, I2cReg::Ccr)));
    assert(bv.run(s4) == b4);
    assert(b4.regs.ccr == bv.saved.ccr && b4.saved == bv.saved && same_traffic(bv, b4));
    let s5 = s4.push(Op::Restore(i2c_reg(p, I2cReg::Trise)));
    lemma_run_push(bv, s4, Op::Restore(i2c_reg(p, I2cReg::Trise)));
    let b5 = b4.step(Op::Restore(i2c_reg(p, I2cReg::Trise)));
    assert(bv.run(s5) == b5);
    assert(b5.regs.trise == bv.saved.trise && b5.saved == bv.saved && same_traffic(bv, b5));
    let s6 = s5.push(Op::Restore(i2c_reg(p, I2cReg::Fltr)));
    lemma_run_push(bv, s5, Op::Restore(i2c_reg(p, I2cReg::Fltr)));
    let b6 = b5.step(Op::Restore(i2c_reg(p, I2cReg::Fltr)));
    assert(bv.run(s6) == b6);
    assert(b6.regs.fltr == bv.saved.fltr && b6.saved == bv.saved && same_traffic(bv, b6));
    let s7 = s6.push(Op::Restore(i2c_reg(p, I2cReg::Cr1)));
    lemma_run_push(bv, s6, Op::Restore(i2c_reg(p, I2cReg::Cr1)));
    let b7 = b6.step(Op::Restore(i2c_reg(p, I2cReg::Cr1)));
    assert(bv.run(s7) == b7);
    assert(b7.regs.cr1 == bv.saved.cr1 && b7.saved == bv.saved && same_traffic(bv, b7));
    assert(s7 =~= reset_restore(p));
    assert(b7.log =~= bv.log + reset_restore(p));
}

/// A reset of the peripheral ends any transfer and keeps the configuration:
/// afterwards every configuration register holds what it held before, but
/// for the bits of the first control register that steer a transaction,
/// which are clear. What was sent and received is left as it is.
pub proof fn lemma_reset_keeps_configuration(bv: BusView)
    ensures
        ({
            let after = bv.run(spec_reset(bv.periph));
            &&& same_traffic(bv, after)
            &&& after.phase == BusPhase::Idle
            &&& !after.sr1_read
            &&& after.regs == (Config {
                cr1: bv.regs.cr1 & !I2C_CR1_TRANSACTION_BITS,
                ..bv.regs
            })
            &&& after.log == bv.log + spec_reset(bv.periph)
        }),
{
    let p = bv.periph;
    let saved = bv.run(reset_save(p));
    let pulsed = saved.run(reset_pulse(p));
    lemma_reset_save(bv);
    lemma_reset_pulse(saved);
    assert((bv.regs.cr1 & !I2C_CR1_TRANSACTION_BITS) & !I2C_CR1_TRANSACTION_BITS == bv.regs.cr1
        & !I2C_CR1_TRANSACTION_BITS) by {
        let x = bv.regs.cr1;
        assert((x & !I2C_CR1_TRANSACTION_BITS) & !I2C_CR1_TRANSACTION_BITS == x
            & !I2C_CR1_TRANSACTION_BITS) by (bit_vector);
    }
    lemma_reset_restore(pulsed);
    assert(spec_reset(p) =~= reset_save(p) + reset_pulse(p) + reset_restore(p));
    lemma_run_concat(bv, reset_save(p), reset_pulse(p));
    lemma_run_concat(bv, reset_save(p) + reset_pulse(p), reset_restore(p));
    let after = bv.run(spec_reset(p));
    assert(after.log =~= bv.log + spec_reset(p));
}

/// Arming the hardware for a transaction sends a start condition and leaves
/// what was sent and received as it is.
pub proof fn lemma_arm(bv: BusView)
    ensures
        ({
            let after = bv.run(arm_accesses(bv.periph));
            &&& same_traffic(bv, after)
            &&& after.phase == BusPhase::Started
            &&& after.regs == (Config {
                cr1: bv.regs.cr1 & !I2C_CR1_TRANSACTION_BITS,
                ..bv.regs
            })
        }),
{
    let p = bv.periph;
    lemma_requests();
    lemma_reset_bits(bv.regs.cr1);
    lemma_reset_keeps_configuration(bv);
    let start = set_bits(i2c_reg(p, I2cReg::Cr1), I2C_CR1_START);
    assert(arm_accesses(p) =~= spec_reset(p).push(start));
    lemma_run_push(bv, spec_reset(p), start);
}

/// One event interrupt that the bus serves and counts.
pub open spec fn round(cv: ContextView, bv: BusView) -> (ContextView, BusView) {
    (interrupt(cv, bv).0, interrupt(cv, bv).1.counted())
}

/// The engine and the bus after `count` event interrupts.
pub open spec fn interrupts(cv: ContextView, bv: BusView, count: nat) -> (ContextView, BusView)
    decreases count,
{
    if count == 0 {
        (cv, bv)
    } else {
        let before = interrupts(cv, bv, (count - 1) as nat);
        round(before.0, before.1)
    }
}

} // verus!
