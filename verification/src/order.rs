//! The swap order: a standing offer to exchange one asset for another.

use vstd::prelude::*;
use crate::asset::{Asset, Identity, OrderId};
use crate::error::SwapError;
use crate::status::OrderStatus;

verus! {

/// A swap proposal. Everything but `status` is fixed once the order is
/// placed.
#[derive(Clone, Copy, Debug, PartialEq, Eq)]
pub struct PrivateSwapOrder {
    /// Unique id of the order.
    pub order_id: OrderId,
    /// What the initiator offers.
    pub offered_asset: Asset,
    /// What the initiator asks for in return.
    pub requested_asset: Asset,
    /// Who placed the order.
    pub initiator_public_key: Identity,
    /// Commitment to the solvency proof supplied at placement.
    pub solvency_proof_hash: [u8; 32],
    /// Where the order stands in its lifecycle.
    pub status: OrderStatus,
}

impl PrivateSwapOrder {
    /// This order with its status replaced.
    pub open spec fn with_status(self, status: OrderStatus) -> PrivateSwapOrder {
        PrivateSwapOrder { status: status, ..self }
    }

    /// Two orders have the same terms when they agree on every field but
    /// `status`.
    pub open spec fn same_terms(self, other: PrivateSwapOrder) -> bool {
        self.with_status(other.status) == other
    }

    /// What `transition` returns for an order in state `current` asked to
    /// move to `next`.
    pub open spec fn transition_result(current: OrderStatus, next: OrderStatus) -> Result<
        (),
        SwapError,
    > {
        if current.permits(next) {
            Ok(())
        } else {
            Err(SwapError::InvalidStateTransition { current: current, attempted: next })
        }
    }

    /// Moves the order to `next` if the state machine allows it. A refused
    /// transition names the current and the attempted state and changes
    /// nothing.
    pub fn transition(&mut self, next: OrderStatus) -> (outcome: Result<(), SwapError>)
        ensures
            outcome == Self::transition_result(old(self).status, next),
            outcome is Ok ==> *final(self) == old(self).with_status(next),
            outcome is Err ==> *final(self) == *old(self),
    {
        if self.status.can_transition_to(next) {
            self.status = next;
            Ok(())
        } else {
            Err(SwapError::InvalidStateTransition { current: self.status, attempted: next })
        }
    }
}

} // verus!
