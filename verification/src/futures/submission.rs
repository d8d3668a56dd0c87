//! Placing the instructions of one request, one after the other.
//!
//! The instructions of a request are placed in their order, each after the
//! reply to the one before it, so that a close has been accepted before the
//! open that follows it is sent. The first failure ends the run; what was
//! accepted before it stays accepted and is reported with it.

use vstd::prelude::*;
use crate::error::MexcError;
use super::structures::{OrderInstruction, OrderReceipt};

verus! {

/// The progress of one run: the instructions to place, the receipts of
/// those that were accepted, and the failure that ended the run, if one did.
pub struct OrderSubmission {
    pub orders: Vec<OrderInstruction>,
    pub receipts: Vec<OrderReceipt>,
    pub failure: Option<MexcError>,
}

impl OrderSubmission {
    /// There is a receipt for each instruction placed so far, and no more
    /// than there are instructions.
    pub open spec fn wf(self) -> bool {
        self.receipts@.len() <= self.orders@.len()
    }

    /// Whether the run is over: every instruction was accepted, or one
    /// failed.
    pub open spec fn spec_is_finished(&self) -> bool {
        self.failure is Some || self.receipts@.len() >= self.orders@.len()
    }

    /// A run that has placed nothing yet.
    pub fn new(orders: Vec<OrderInstruction>) -> (run: Self)
        ensures
            run.wf(),
            run.orders == orders,
            run.receipts@.len() == 0,
            run.failure is None,
    {
        OrderSubmission { orders, receipts: Vec::new(), failure: None }
    }

    /// Whether the run is over.
    #[verifier::when_used_as_spec(spec_is_finished)]
    pub fn is_finished(&self) -> (done: bool)
        ensures
            done == self.spec_is_finished(),
    {
        self.failure.is_some() || self.receipts.len() >= self.orders.len()
    }

    /// The instruction to place next: the first one without a receipt, as
    /// long as nothing has failed.
    pub fn next_order(&self) -> (next: Option<&OrderInstruction>)
        ensures
            match next {
                Some(order) => !self.spec_is_finished() && *order
                    == self.orders@[self.receipts@.len() as int],
                None => self.spec_is_finished(),
            },
    {
        if self.failure.is_some() || self.receipts.len() >= self.orders.len() {
            None
        } else {
            Some(&self.orders[self.receipts.len()])
        }
    }

    /// Takes in the reply to the instruction that was placed last. A
    /// receipt is added to those collected; a failure ends the run and
    /// leaves the receipts as they are. A run that is over takes in
    /// nothing.
    pub fn record(&mut self, reply: Result<OrderReceipt, MexcError>)
        ensures
            old(self).wf() ==> final(self).wf(),
            final(self).orders == old(self).orders,
            old(self).spec_is_finished() ==> *final(self) == *old(self),
            !old(self).spec_is_finished() ==> match reply {
                Ok(receipt) => final(self).receipts@ == old(self).receipts@.push(receipt)
                    && final(self).failure is None,
                Err(e) => final(self).receipts == old(self).receipts && final(self).failure
                    == Some(e),
            },
    {
        if self.failure.is_some() || self.receipts.len() >= self.orders.len() {
            return ;
        }
        match reply {
            Ok(receipt) => {
                self.receipts.push(receipt);
            },
            Err(e) => {
                self.failure = Some(e);
            },
        }
    }

    /// Ends the run and hands out what it came to: the receipts of the
    /// accepted instructions, in the order of the instructions, and the
    /// failure that stopped it, if one did.
    pub fn into_outcome(self) -> (outcome: (Vec<OrderReceipt>, Option<MexcError>))
        ensures
            outcome.0 == self.receipts,
            outcome.1 == self.failure,
    {
        (self.receipts, self.failure)
    }
}

/// A run that has failed hands out no further instruction, and a run that
/// is not over has placed exactly the instructions before the next one.
pub proof fn failure_stops_the_run(run: OrderSubmission)
    requires
        run.wf(),
    ensures
        run.failure is Some ==> run.spec_is_finished(),
        !run.spec_is_finished() ==> run.receipts@.len() < run.orders@.len(),
        run.spec_is_finished() && run.failure is None ==> run.receipts@.len() == run.orders@.len(),
{
}

} // verus!
