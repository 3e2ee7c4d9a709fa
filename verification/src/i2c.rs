//! Transactions and the per-peripheral context that the foreground and the
//! interrupt handlers share.

use vstd::prelude::*;
use crate::hw::{data_reads, push_op, set_bits, I2cReg, Op, I2C1_BASE, I2C2_BASE, I2C3_BASE};
use crate::i2c_v1::{deblock_bus, i2c_reg, spec_deblock_bus, spec_reset, I2C, I2C_CR1_START};
use crate::scb::ItPriorityGrouping;

verus! {

/// One of the I2C peripherals of the microcontroller.
#[derive(Clone, Copy, PartialEq, Eq, Debug, Structural)]
pub enum Peripheral {
    I2C1,
    I2C2,
    I2C3,
}

/// Where a peripheral stands in its transaction.
#[derive(Clone, Copy, PartialEq, Eq, Debug, Structural)]
pub enum PeripheralState {
    /// A start condition was requested.
    StartBitSet,
    /// The address byte was written to the data register.
    AddressSent,
    /// Sending the current step; the value is the offset of the next byte.
    Transmitting(usize),
    /// Receiving the current step; the value is the offset of the next byte.
    Receiving(usize),
    /// No transaction is running. The value is the result of the last one:
    /// zero for success, negative for an error.
    Done(i32),
}

/// One leg of a transaction: bytes to read from the device, or bytes to
/// write to it.
#[derive(PartialEq, Eq, Debug)]
pub enum Step {
    Read(Vec<u8>),
    Write(Vec<u8>),
}

/// What a step is: its direction and the content of its buffer.
pub struct StepView {
    pub read: bool,
    pub data: Seq<u8>,
}

/// The steps of a transaction, the step that is being handled, and the
/// address of the device.
#[derive(Debug)]
pub struct Transaction {
    pub steps: Vec<Step>,
    pub curr_step: usize,
    pub device_addr: u8,
}

/// What a transaction is: the views of its steps, the step that is being
/// handled, and the address of the device.
pub struct TransactionView {
    pub steps: Seq<StepView>,
    pub curr_step: usize,
    pub device_addr: u8,
}

/// The state of one peripheral that the foreground and the interrupt
/// handlers share.
#[derive(Debug)]
pub struct InterruptContext {
    pub current_transaction: Option<Transaction>,
    pub periph_id: Peripheral,
    pub state: PeripheralState,
}

/// What a context is: the view of its transaction, its peripheral and its
/// state.
pub struct ContextView {
    pub transaction: Option<TransactionView>,
    pub periph: Peripheral,
    pub state: PeripheralState,
}

/// Why a transaction did not run or did not complete.
#[derive(Clone, Copy, PartialEq, Eq, Debug, Structural)]
pub enum Error {
    /// A transaction is already in flight on the peripheral.
    Busy,
    /// The bus reported an error while the transaction ran.
    TransactionFailed,
}

/// What the foreground learns when it looks at a transaction.
#[derive(PartialEq, Eq, Debug)]
pub enum Poll {
    /// The transaction is still running.
    Pending,
    /// The transaction ended without an error.
    Complete,
    /// The transaction ended with an error. The value is the program that
    /// frees the bus; it is to be run before anything else is done with the
    /// peripheral.
    Failed(Vec<Op>),
}

/// The views of a sequence of steps.
pub open spec fn steps_view(steps: Seq<Step>) -> Seq<StepView> {
    Seq::new(steps.len(), |i: int| steps[i]@)
}

/// Whether a sequence of steps can be run: it has a step, and no step has
/// an empty buffer.
pub open spec fn valid_steps(steps: Seq<StepView>) -> bool {
    &&& steps.len() >= 1
    &&& forall|i: int| 0 <= i < steps.len() ==> (#[trigger] steps[i]).data.len() >= 1
}

/// Whether the number of steps and the length of every buffer are numbers
/// of the machine.
pub open spec fn steps_fit(steps: Seq<StepView>) -> bool {
    &&& steps.len() <= usize::MAX
    &&& forall|i: int| 0 <= i < steps.len() ==> (#[trigger] steps[i]).data.len() <= usize::MAX
}

/// The steps that a vector holds fit the machine.
pub proof fn lemma_steps_fit(steps: &Vec<Step>)
    ensures
        steps_fit(steps_view(steps@)),
{
    assert(steps.len() == steps@.len());
    assert forall|i: int| 0 <= i < steps@.len() implies (#[trigger] steps_view(
        steps@,
    )[i]).data.len() <= usize::MAX by {
        match steps@[i] {
            Step::Read(data) => {
                assert(data.len() == data@.len());
            },
            Step::Write(data) => {
                assert(data.len() == data@.len());
            },
        }
    }
}

impl Peripheral {
    pub open spec fn spec_base_addr(self) -> u32 {
        match self {
            Peripheral::I2C1 => I2C1_BASE,
            Peripheral::I2C2 => I2C2_BASE,
            Peripheral::I2C3 => I2C3_BASE,
        }
    }

    /// Base address of the peripheral's register block.
    #[verifier::when_used_as_spec(spec_base_addr)]
    pub fn base_addr(self) -> (a: u32)
        ensures
            a == self.spec_base_addr(),
    {
        match self {
            Peripheral::I2C1 => I2C1_BASE,
            Peripheral::I2C2 => I2C2_BASE,
            Peripheral::I2C3 => I2C3_BASE,
        }
    }

    pub open spec fn spec_index(self) -> usize {
        match self {
            Peripheral::I2C1 => 0,
            Peripheral::I2C2 => 1,
            Peripheral::I2C3 => 2,
        }
    }

    /// Position of the peripheral's context among the contexts of all
    /// peripherals.
    #[verifier::when_used_as_spec(spec_index)]
    pub fn index(self) -> (i: usize)
        ensures
            i == self.spec_index(),
            i < 3,
    {
        match self {
            Peripheral::I2C1 => 0,
            Peripheral::I2C2 => 1,
            Peripheral::I2C3 => 2,
        }
    }
}

impl View for Step {
    type V = StepView;

    open spec fn view(&self) -> StepView {
        match *self {
            Step::Read(data) => StepView { read: true, data: data@ },
            Step::Write(data) => StepView { read: false, data: data@ },
        }
    }
}

impl Step {
    /// The step's buffer.
    pub fn as_ref(&self) -> (data: &Vec<u8>)
        ensures
            data@ == self@.data,
    {
        match self {
            Step::Read(data) => data,
            Step::Write(data) => data,
        }
    }

    /// Stores a byte in the step's buffer.
    pub fn set(&mut self, pos: usize, byte: u8)
        requires
            pos < old(self)@.data.len(),
        ensures
            final(self)@ == (StepView {
                read: old(self)@.read,
                data: old(self)@.data.update(pos as int, byte),
            }),
    {
        match self {
            Step::Read(data) => {
                data[pos] = byte;
            },
            Step::Write(data) => {
                data[pos] = byte;
            },
        }
    }

    /// Number of bytes in the step's buffer.
    pub fn len(&self) -> (n: usize)
        ensures
            n == self@.data.len(),
    {
        match self {
            Step::Read(data) => data.len(),
            Step::Write(data) => data.len(),
        }
    }

    /// Whether the step reads from the device.
    pub fn is_read(&self) -> (read: bool)
        ensures
            read == self@.read,
    {
        match self {
            Step::Read(_) => true,
            Step::Write(_) => false,
        }
    }
}

impl TransactionView {
    /// The transaction with `byte` stored at `pos` in the buffer of the
    /// step that is being handled.
    pub open spec fn store(self, pos: int, byte: u8) -> TransactionView {
        TransactionView {
            steps: self.steps.update(
                self.curr_step as int,
                StepView {
                    read: self.current().read,
                    data: self.current().data.update(pos, byte),
                },
            ),
            ..self
        }
    }

    /// The transaction with the next step as the one that is being handled.
    pub open spec fn advance(self) -> TransactionView {
        TransactionView { curr_step: (self.curr_step + 1) as usize, ..self }
    }

    /// The step that is being handled.
    pub open spec fn current(self) -> StepView {
        self.steps[self.curr_step as int]
    }

    /// Whether no step follows the one that is being handled.
    pub open spec fn on_last_step(self) -> bool {
        self.curr_step + 1 >= self.steps.len()
    }

    /// The steps can be run, and one of them is being handled.
    pub open spec fn wf(self) -> bool {
        &&& valid_steps(self.steps)
        &&& steps_fit(self.steps)
        &&& self.curr_step < self.steps.len()
    }
}

impl View for Transaction {
    type V = TransactionView;

    open spec fn view(&self) -> TransactionView {
        TransactionView {
            steps: steps_view(self.steps@),
            curr_step: self.curr_step,
            device_addr: self.device_addr,
        }
    }
}

impl Transaction {
    /// The step that is being handled.
    pub fn current(&self) -> (step: &Step)
        requires
            self@.wf(),
        ensures
            step@ == self@.current(),
    {
        &self.steps[self.curr_step]
    }

    /// Stores a byte that was received in the buffer of the step that is
    /// being handled.
    pub fn store(&mut self, pos: usize, byte: u8)
        requires
            old(self)@.wf(),
            pos < old(self)@.current().data.len(),
        ensures
            final(self)@ == old(self)@.store(pos as int, byte),
            final(self)@.wf(),
    {
        let cur: usize = self.curr_step;
        self.steps[cur].set(pos, byte);
        proof {
            assert(self@.steps =~= old(self)@.store(pos as int, byte).steps);
        }
    }

    /// Makes the next step the one that is being handled.
    pub fn advance(&mut self)
        requires
            old(self)@.wf(),
            !old(self)@.on_last_step(),
        ensures
            final(self)@ == old(self)@.advance(),
            final(self)@.wf(),
    {
        let count: usize = self.steps.len();
        assert(self@.steps.len() == count);
        self.curr_step = self.curr_step + 1;
    }

    /// Whether no step follows the one that is being handled.
    pub fn on_last_step(&self) -> (last: bool)
        requires
            self@.wf(),
        ensures
            last == self@.on_last_step(),
    {
        let count: usize = self.steps.len();
        assert(self@.steps.len() == count);
        self.curr_step + 1 >= count
    }
}

impl ContextView {
    /// The context of a peripheral that has not run a transaction yet.
    pub open spec fn idle(periph: Peripheral) -> ContextView {
        ContextView { transaction: None, periph, state: PeripheralState::Done(0) }
    }

    /// Whether a transaction is in flight: one is installed, or the state is
    /// not a final one.
    pub open spec fn busy(self) -> bool {
        self.transaction is Some || !(self.state is Done)
    }

    /// A context without a transaction is in a final state. The current step
    /// of a transaction exists, and a position at which a byte is awaited
    /// lies in its buffer.
    pub open spec fn wf(self) -> bool {
        match self.transaction {
            None => self.state is Done,
            Some(t) => {
                &&& t.wf()
                &&& (self.state matches PeripheralState::Receiving(pos) ==> pos
                    < t.current().data.len())
            },
        }
    }
}

impl View for InterruptContext {
    type V = ContextView;

    open spec fn view(&self) -> ContextView {
        ContextView {
            transaction: match self.current_transaction {
                None => None,
                Some(t) => Some(t@),
            },
            periph: self.periph_id,
            state: self.state,
        }
    }
}

/// The accesses that arm the hardware for a transaction: the peripheral is
/// reset, and a start condition is requested.
pub open spec fn arm_accesses(periph: Peripheral) -> Seq<Op> {
    spec_reset(periph) + seq![set_bits(i2c_reg(periph, I2cReg::Cr1), I2C_CR1_START)]
}

impl ContextView {
    /// The context after the foreground has looked at it: idle again once
    /// the state is a final one, else unchanged.
    pub open spec fn polled(self) -> ContextView {
        if self.state is Done {
            ContextView::idle(self.periph)
        } else {
            self
        }
    }

    /// The context after a transaction of these steps was accepted.
    pub open spec fn armed(self, device_addr: u8, steps: Seq<StepView>) -> ContextView {
        ContextView {
            transaction: Some(TransactionView { steps, curr_step: 0, device_addr }),
            state: PeripheralState::StartBitSet,
            ..self
        }
    }
}

impl InterruptContext {
    /// The context of a peripheral that has not run a transaction yet.
    pub fn new(periph: Peripheral) -> (ctx: InterruptContext)
        ensures
            ctx@ == ContextView::idle(periph),
            ctx@.wf(),
    {
        InterruptContext {
            current_transaction: None,
            periph_id: periph,
            state: PeripheralState::Done(0),
        }
    }

    /// The state of the peripheral.
    pub fn state(&self) -> (state: PeripheralState)
        ensures
            state == self@.state,
    {
        self.state
    }

    /// Whether a transaction is in flight.
    pub fn is_busy(&self) -> (busy: bool)
        ensures
            busy == self@.busy(),
    {
        let done = match self.state {
            PeripheralState::Done(_) => true,
            _ => false,
        };
        self.current_transaction.is_some() || !done
    }

    /// Submits a transaction.
    ///
    /// While a transaction is in flight the call fails with `Error::Busy`
    /// and changes nothing. Otherwise the steps are moved into the context,
    /// which then waits for the start condition, and the program that arms
    /// the hardware is returned. The caller runs `begin_transaction` and the
    /// program with interrupts disabled, then polls with `poll_transaction`.
    pub fn begin_transaction(&mut self, device_addr: u8, steps: &mut Vec<Step>) -> (r: Result<
        Vec<Op>,
        Error,
    >)
        requires
            old(self)@.wf(),
            valid_steps(steps_view(old(steps)@)),
        ensures
            final(self)@.wf(),
            old(self)@.busy() ==> {
                &&& r == Err::<Vec<Op>, Error>(Error::Busy)
                &&& *final(self) == *old(self)
                &&& *final(steps) == *old(steps)
            },
            !old(self)@.busy() ==> {
                &&& r is Ok
                &&& r->Ok_0@ == arm_accesses(old(self)@.periph)
                &&& data_reads(r->Ok_0@) == 0
                &&& final(self)@ == old(self)@.armed(device_addr, steps_view(old(steps)@))
                &&& final(steps)@.len() == 0
            },
    {
        if self.is_busy() {
            return Err(Error::Busy);
        }
        let periph = I2C::get_periph(self.periph_id);
        let mut ops = periph.reset();
        let mut owned: Vec<Step> = Vec::new();
        core::mem::swap(steps, &mut owned);
        self.current_transaction = Some(
            Transaction { steps: owned, curr_step: 0, device_addr },
        );
        self.state = PeripheralState::StartBitSet;
        push_op(&mut ops, periph.send_start());
        proof {
            assert(ops@ =~= arm_accesses(self.periph_id));
            lemma_steps_fit(&self.current_transaction->0.steps);
        }
        Ok(ops)
    }

    /// Looks whether the transaction has ended.
    ///
    /// While the state is not a final one, nothing changes. In a final state
    /// the transaction is taken out of the context, its steps are moved back
    /// into `steps`, and the state becomes the one of an idle peripheral.
    /// After a result other than zero, the program that frees the bus is
    /// returned with the failure. The caller runs `poll_transaction` with
    /// interrupts disabled.
    pub fn poll_transaction(&mut self, steps: &mut Vec<Step>, grouping: ItPriorityGrouping) -> (r:
        Poll)
        requires
            old(self)@.wf(),
        ensures
            final(self)@.wf(),
            !(old(self)@.state is Done) ==> {
                &&& r is Pending
                &&& *final(self) == *old(self)
                &&& *final(steps) == *old(steps)
            },
            final(self)@ == old(self)@.polled(),
            old(self)@.state is Done ==> {
                &&& match old(self)@.transaction {
                    Some(t) => steps_view(final(steps)@) == t.steps,
                    None => *final(steps) == *old(steps),
                }
                &&& old(self)@.state == PeripheralState::Done(0) ==> r is Complete
                &&& old(self)@.state != PeripheralState::Done(0) ==> r is Failed && r->Failed_0@
                    == spec_deblock_bus(old(self)@.periph, grouping)
            },
    {
        match self.state {
            PeripheralState::Done(ret_val) => {
                let mut finished: Option<Transaction> = None;
                core::mem::swap(&mut self.current_transaction, &mut finished);
                match finished {
                    Some(trans) => {
                        let mut owned = trans.steps;
                        core::mem::swap(steps, &mut owned);
                    },
                    None => {},
                }
                self.state = PeripheralState::Done(0);
                if ret_val == 0 {
                    Poll::Complete
                } else {
                    Poll::Failed(deblock_bus(self.periph_id, grouping))
                }
            },
            _ => Poll::Pending,
        }
    }
}

} // verus!
