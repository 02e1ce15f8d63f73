//! The custody collaborator and what its answers mean for the registry.
//!
//! Custody locks and transfers assets; how it does so is its own business.
//! It is called synchronously and any error it reports ends the operation
//! at hand without a trace in the registry.

use vstd::prelude::*;
use crate::asset::{Asset, Identity, OrderId};
use crate::error::{CustodyError, SwapError};
use crate::lifecycle::{history_kept, statuses_advance};
use crate::order::PrivateSwapOrder;
use crate::registry::OrderRegistry;
use crate::status::OrderStatus;

verus! {

/// The capability to lock and transfer assets.
pub trait Custody {
    /// Locks `asset` on behalf of `identity`.
    fn lock(&mut self, identity: &Identity, asset: &Asset) -> Result<(), CustodyError>;

    /// Transfers both legs of a swap, or neither.
    fn swap(&mut self, leg_a: &Asset, leg_b: &Asset) -> Result<(), CustodyError>;
}

/// The registry after custody answered the lock request of a placement: a
/// failed lock takes the still-`Open` order out again.
pub open spec fn placement_settled(
    orders: Map<OrderId, PrivateSwapOrder>,
    order_id: OrderId,
    locked: Result<(), CustodyError>,
) -> Map<OrderId, PrivateSwapOrder> {
    if locked is Err && orders.contains_key(order_id) && orders[order_id].status is Open {
        orders.remove(order_id)
    } else {
        orders
    }
}

/// What a placement returns once custody answered the lock request.
pub open spec fn placement_settlement(locked: Result<(), CustodyError>) -> Result<(), SwapError> {
    match locked {
        Ok(()) => Ok(()),
        Err(e) => Err(SwapError::CustodyError(e)),
    }
}

/// What an acceptance returns once custody answered the swap request.
pub open spec fn acceptance_settlement(
    orders: Map<OrderId, PrivateSwapOrder>,
    order_id: OrderId,
    swapped: Result<(), CustodyError>,
) -> Result<(), SwapError> {
    match swapped {
        Ok(()) => OrderRegistry::update_result(orders, order_id, OrderStatus::Accepted),
        Err(_) => Err(SwapError::SwapExecutionFailed),
    }
}

/// Concludes a placement with custody's answer to the lock request. If the
/// lock failed, the order admitted for it is taken out of the registry
/// again, so that no order stays `Open` without its asset locked, and the
/// custody error is passed on. Orders that are no longer `Open` are never
/// taken out.
pub fn settle_placement(
    orders: &mut OrderRegistry,
    order_id: &OrderId,
    locked: Result<(), CustodyError>,
) -> (outcome: Result<(), SwapError>)
    requires
        old(orders).wf(),
    ensures
        final(orders).wf(),
        outcome == placement_settlement(locked),
        final(orders)@ == placement_settled(old(orders)@, *order_id, locked),
        statuses_advance(old(orders)@, final(orders)@),
{
    match locked {
        Ok(()) => Ok(()),
        Err(e) => {
            let open = match orders.get(order_id) {
                Ok(order) => match order.status {
                    OrderStatus::Open => true,
                    _ => false,
                },
                Err(_) => false,
            };
            if open {
                orders.retract(order_id);
            }
            Err(SwapError::CustodyError(e))
        },
    }
}

/// Concludes an acceptance with custody's answer to the swap request. Only
/// an executed swap moves the order to `Accepted`; a failed one is reported
/// as `SwapExecutionFailed` and leaves the order `Open`.
pub fn settle_acceptance(
    orders: &mut OrderRegistry,
    order_id: &OrderId,
    swapped: Result<(), CustodyError>,
) -> (outcome: Result<(), SwapError>)
    requires
        old(orders).wf(),
    ensures
        final(orders).wf(),
        outcome == acceptance_settlement(old(orders)@, *order_id, swapped),
        outcome is Ok ==> final(orders)@ == old(orders)@.insert(
            *order_id,
            old(orders)@[*order_id].with_status(OrderStatus::Accepted),
        ),
        outcome is Err ==> final(orders)@ == old(orders)@,
        history_kept(old(orders)@, final(orders)@),
{
    match swapped {
        Ok(()) => orders.update_status(order_id, OrderStatus::Accepted),
        Err(_) => Err(SwapError::SwapExecutionFailed),
    }
}

} // verus!
