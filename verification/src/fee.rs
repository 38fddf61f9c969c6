//! The cost triple attached to every billable object, and its arithmetic.

use vstd::prelude::*;

verus! {

/// Unit of metered computational cost.
pub type Gas = u64;

/// Costs associated with an object that can only be sent over the network (and executed
/// by the receiver).
#[derive(Debug, Hash, PartialEq, Eq)]
pub struct Fee {
    /// Fee for sending an object from the sender to itself, guaranteeing that it does not leave
    /// the shard.
    pub send_sir: Gas,
    /// Fee for sending an object potentially across the shards.
    pub send_not_sir: Gas,
    /// Fee for executing the object.
    pub execution: Gas,
}

impl Clone for Fee {
    fn clone(&self) -> (fee: Self)
        ensures
            fee == *self,
    {
        Fee { send_sir: self.send_sir, send_not_sir: self.send_not_sir, execution: self.execution }
    }
}

impl Fee {
    /// The triple that charges `gas` for each of its three parts.
    pub open spec fn flat(gas: Gas) -> Fee {
        Fee { send_sir: gas, send_not_sir: gas, execution: gas }
    }

    /// The send cost that applies: the same-shard one when the sender is the receiver,
    /// the cross-shard one otherwise.
    pub open spec fn send(&self, sir: bool) -> int {
        if sir {
            self.send_sir as int
        } else {
            self.send_not_sir as int
        }
    }

    /// The cheaper of the two send costs.
    pub open spec fn min_send(&self) -> int {
        if self.send_sir <= self.send_not_sir {
            self.send_sir as int
        } else {
            self.send_not_sir as int
        }
    }

    /// The least that sending and executing the object can cost, as an unbounded integer.
    pub open spec fn min_send_and_exec(&self) -> int {
        self.min_send() + self.execution
    }

    /// Whether the least send-and-execute cost is representable as `Gas`.
    pub open spec fn is_bounded(&self) -> bool {
        self.min_send_and_exec() <= Gas::MAX
    }

    /// Whether both send costs agree, so that shard locality makes no difference.
    pub open spec fn is_shard_uniform(&self) -> bool {
        self.send_sir == self.send_not_sir
    }

    /// Selects the send cost by shard locality.
    #[inline]
    pub fn send_fee(&self, sir: bool) -> (gas: Gas)
        ensures
            gas == self.send(sir),
            sir ==> gas == self.send_sir,
            !sir ==> gas == self.send_not_sir,
    {
        if sir {
            self.send_sir
        } else {
            self.send_not_sir
        }
    }

    /// The cost of executing the object.
    pub fn exec_fee(&self) -> (gas: Gas)
        ensures
            gas == self.execution,
    {
        self.execution
    }

    /// The minimum fee to send and execute.
    ///
    /// The sum must be representable: a triple for which it is not is a configuration
    /// error, to be caught with [`Fee::checked_min_send_and_exec_fee`] before this is called.
    pub fn min_send_and_exec_fee(&self) -> (gas: Gas)
        requires
            self.is_bounded(),
        ensures
            gas == self.min_send_and_exec(),
    {
        let send: Gas = if self.send_sir <= self.send_not_sir {
            self.send_sir
        } else {
            self.send_not_sir
        };
        send + self.execution
    }

    /// The minimum fee to send and execute, or `None` when it overflows `Gas`.
    pub fn checked_min_send_and_exec_fee(&self) -> (gas: Option<Gas>)
        ensures
            self.is_bounded() ==> gas == Some(self.min_send_and_exec() as Gas),
            !self.is_bounded() ==> gas.is_none(),
    {
        let send: Gas = if self.send_sir <= self.send_not_sir {
            self.send_sir
        } else {
            self.send_not_sir
        };
        send.checked_add(self.execution)
    }

    /// The least send-and-execute cost is a lower bound on what sending and executing
    /// costs under either locality, and one of the two attains it.
    pub proof fn lemma_min_send_and_exec_is_least(&self, sir: bool)
        ensures
            self.min_send_and_exec() <= self.send(sir) + self.execution,
            self.min_send_and_exec() == self.send(true) + self.execution
                || self.min_send_and_exec() == self.send(false) + self.execution,
    {
    }

    /// Where both send costs agree, the least send-and-execute cost is the send cost plus
    /// the execution cost, whatever the locality.
    pub proof fn lemma_shard_uniform(&self, sir: bool)
        requires
            self.is_shard_uniform(),
        ensures
            self.min_send_and_exec() == self.send(sir) + self.execution,
    {
    }
}

} // verus!
