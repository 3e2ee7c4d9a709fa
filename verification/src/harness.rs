//! Whole transactions on the simulated bus.

use vstd::prelude::*;
use crate::i2c::{
    steps_view, valid_steps, Error, InterruptContext, Peripheral, PeripheralState, Poll, Step,
};
use crate::i2c_v1::{
    rust_i2c_interrupt_accesses, rust_i2c_interrupt_error_handler, rust_i2c_interrupt_handler,
    I2C,
};
use crate::lockstep::{lemma_status_flags, remaining, round};
use crate::outcome::{
    completes, expected_trace, in_flight, lemma_in_flight_armed, lemma_in_flight_done,
    lemma_in_flight_fault, lemma_in_flight_round, lemma_in_flight_wf, transaction_failure,
    transaction_outcome,
};
use crate::scb::ItPriorityGrouping;
use crate::sim::SimulatedBus;

verus! {

impl Peripheral {
    /// Runs a transaction on the simulated bus and returns the states that
    /// the engine passed through.
    ///
    /// The transaction is submitted and the bus is armed. Then the context
    /// is looked at and, while the transaction has not ended, an interrupt
    /// is delivered: the event interrupt, or the error interrupt once the
    /// bus has raised its error.
    ///
    /// While a transaction is in flight the call fails with `Error::Busy`
    /// and changes nothing. If the bus raises its error before the
    /// transaction has ended, the bus is freed and the call fails with
    /// `Error::TransactionFailed`.
    pub fn trace_transaction(
        &self,
        ctx: &mut InterruptContext,
        bus: &mut SimulatedBus,
        device_addr: u8,
        steps: &mut Vec<Step>,
        grouping: ItPriorityGrouping,
    ) -> (r: Result<Vec<PeripheralState>, Error>)
        requires
            old(ctx)@.wf(),
            old(bus)@.wf(),
            old(ctx)@.periph == *self,
            old(bus)@.periph == *self,
            valid_steps(steps_view(old(steps)@)),
        ensures
            final(ctx)@.wf(),
            final(bus)@.wf(),
            old(ctx)@.busy() ==> {
                &&& r == Err::<Vec<PeripheralState>, Error>(Error::Busy)
                &&& *final(ctx) == *old(ctx)
                &&& *final(bus) == *old(bus)
                &&& *final(steps) == *old(steps)
            },
            !old(ctx)@.busy() && completes(steps_view(old(steps)@), old(bus)@) ==> {
                &&& r is Ok
                &&& r->Ok_0@ == expected_trace(steps_view(old(steps)@))
                &&& transaction_outcome(
                    steps_view(old(steps)@),
                    device_addr,
                    old(ctx)@,
                    old(bus)@,
                    steps_view(final(steps)@),
                    final(ctx)@,
                    final(bus)@,
                )
            },
            !old(ctx)@.busy() && !completes(steps_view(old(steps)@), old(bus)@) ==> {
                &&& r == Err::<Vec<PeripheralState>, Error>(Error::TransactionFailed)
                &&& transaction_failure(
                    steps_view(old(steps)@),
                    device_addr,
                    old(ctx)@,
                    old(bus)@,
                    grouping,
                    steps_view(final(steps)@),
                    final(ctx)@,
                    final(bus)@,
                )
            },
    {
        let ghost steps0 = steps_view(steps@);
        let ghost cv0 = ctx@;
        let ghost bv0 = bus@;
        match ctx.begin_transaction(device_addr, steps) {
            Err(e) => {
                return Err(e);
            },
            Ok(ops) => {
                let _ = bus.perform(&ops);
            },
        }
        let i2c = I2C::get_periph(*self);
        let ghost mut count: nat = 0;
        let mut trace: Vec<PeripheralState> = Vec::new();
        trace.push(ctx.state());
        proof {
            lemma_in_flight_armed(steps0, device_addr, cv0, bv0);
            assert(trace@ =~= seq![PeripheralState::StartBitSet]);
        }
        loop
            invariant
                steps0 == steps_view(old(steps)@),
                cv0 == old(ctx)@,
                bv0 == old(bus)@,
                cv0.periph == *self,
                i2c.periph == *self,
                !cv0.busy(),
                in_flight(steps0, device_addr, cv0, bv0, count, trace@, ctx@, bus@),
            decreases remaining(ctx@),
        {
            let ghost cv = ctx@;
            let ghost bv = bus@;
            let ghost before = trace@;
            proof {
                lemma_in_flight_wf(steps0, device_addr, cv0, bv0, count, trace@, cv, bv);
            }
            match ctx.poll_transaction(steps, grouping) {
                Poll::Pending => {},
                Poll::Complete => {
                    proof {
                        lemma_in_flight_done(steps0, device_addr, cv0, bv0, count, trace@, cv, bv);
                    }
                    return Ok(trace);
                },
                Poll::Failed(recovery) => {
                    let _ = bus.perform(&recovery);
                    return Err(Error::TransactionFailed);
                },
            }
            let sr1 = bus.status();
            proof {
                lemma_status_flags();
            }
            if i2c.is_error_set(sr1) {
                proof {
                    lemma_in_flight_fault(steps0, device_addr, cv0, bv0, count, trace@, cv, bv);
                }
                let ops = rust_i2c_interrupt_error_handler(ctx);
                let _ = bus.perform(&ops);
                match ctx.poll_transaction(steps, grouping) {
                    Poll::Failed(recovery) => {
                        let _ = bus.perform(&recovery);
                    },
                    _ => {},
                }
                return Err(Error::TransactionFailed);
            }
            let ops = rust_i2c_interrupt_accesses(ctx, sr1);
            let data = bus.perform(&ops);
            rust_i2c_interrupt_handler(ctx, sr1, &data);
            bus.count_interrupt();
            trace.push(ctx.state());
            proof {
                assert(ctx@ == round(cv, bv).0);
                assert(bus@ == round(cv, bv).1);
                lemma_in_flight_round(steps0, device_addr, cv0, bv0, count, before, cv, bv);
                count = count + 1;
            }
        }
    }

    /// Runs a transaction on the simulated bus.
    ///
    /// While a transaction is in flight the call fails with `Error::Busy`
    /// and changes nothing. Otherwise the transaction runs to its end,
    /// unless the bus raises its error before: then the bus is freed, and
    /// the call fails with `Error::TransactionFailed`. After a success the
    /// read steps are filled with the bytes of the device. Either way the
    /// context is idle again.
    pub fn run_transaction(
        &self,
        ctx: &mut InterruptContext,
        bus: &mut SimulatedBus,
        device_addr: u8,
        steps: &mut Vec<Step>,
        grouping: ItPriorityGrouping,
    ) -> (r: Result<(), Error>)
        requires
            old(ctx)@.wf(),
            old(bus)@.wf(),
            old(ctx)@.periph == *self,
            old(bus)@.periph == *self,
            valid_steps(steps_view(old(steps)@)),
        ensures
            final(ctx)@.wf(),
            final(bus)@.wf(),
            old(ctx)@.busy() ==> {
                &&& r == Err::<(), Error>(Error::Busy)
                &&& *final(ctx) == *old(ctx)
                &&& *final(bus) == *old(bus)
                &&& *final(steps) == *old(steps)
            },
            !old(ctx)@.busy() && completes(steps_view(old(steps)@), old(bus)@) ==> {
                &&& r == Ok::<(), Error>(())
                &&& transaction_outcome(
                    steps_view(old(steps)@),
                    device_addr,
                    old(ctx)@,
                    old(bus)@,
                    steps_view(final(steps)@),
                    final(ctx)@,
                    final(bus)@,
                )
            },
            !old(ctx)@.busy() && !completes(steps_view(old(steps)@), old(bus)@) ==> {
                &&& r == Err::<(), Error>(Error::TransactionFailed)
                &&& transaction_failure(
                    steps_view(old(steps)@),
                    device_addr,
                    old(ctx)@,
                    old(bus)@,
                    grouping,
                    steps_view(final(steps)@),
                    final(ctx)@,
                    final(bus)@,
                )
            },
    {
        match self.trace_transaction(ctx, bus, device_addr, steps, grouping) {
            Ok(_) => Ok(()),
            Err(e) => Err(e),
        }
    }
}

} // verus!
