//! The proof verification gate: the policy that lets an operation proceed
//! only when the registry admits it and the submitted proof verified.
//!
//! The proof system itself is a collaborator behind [`ProofVerifier`]. Its
//! verdict is a plain `bool`; the functions here say what follows from each
//! verdict, and never look inside the proof.

use vstd::prelude::*;
use crate::asset::{Asset, Identity, OrderId};
use crate::error::SwapError;
use crate::lifecycle::history_kept;
use crate::order::PrivateSwapOrder;
use crate::registry::OrderRegistry;
use crate::status::OrderStatus;

verus! {

/// The capability to judge proofs. An implementation must be deterministic
/// and free of side effects; it takes `&self` and is asked anew on every
/// call, so no verdict is ever reused.
pub trait ProofVerifier {
    /// Whether `proof` shows that the initiator of `order` controls at least
    /// the offered quantity of the offered asset.
    fn verify_solvency(&self, proof: &[u8], order: &PrivateSwapOrder) -> bool;

    /// Whether `proof` shows that the acceptor controls the requested asset
    /// and means to accept exactly the order named `order_id`.
    fn verify_intent(&self, proof: &[u8], order_id: &OrderId) -> bool;
}

/// `verdict` is an answer that `verifier` gives when asked whether `proof`
/// shows the solvency of `order`'s initiator.
pub open spec fn judges_solvency<V: ProofVerifier>(
    verifier: V,
    proof: Seq<u8>,
    order: PrivateSwapOrder,
    verdict: bool,
) -> bool {
    exists|bytes: &[u8]|
        bytes@ == proof && #[trigger] call_ensures(
            V::verify_solvency,
            (&verifier, bytes, &order),
            verdict,
        )
}

/// `verdict` is an answer that `verifier` gives when asked whether `proof`
/// shows the intent to accept the order named `order_id`.
pub open spec fn judges_intent<V: ProofVerifier>(
    verifier: V,
    proof: Seq<u8>,
    order_id: OrderId,
    verdict: bool,
) -> bool {
    exists|bytes: &[u8]|
        bytes@ == proof && #[trigger] call_ensures(
            V::verify_intent,
            (&verifier, bytes, &order_id),
            verdict,
        )
}

/// What custody is asked to lock when an order is placed.
#[derive(Clone, Copy, Debug, PartialEq, Eq)]
pub struct LockRequest {
    /// Whose asset is locked: the initiator of the order.
    pub identity: Identity,
    /// The offered asset.
    pub asset: Asset,
}

/// What custody is asked to transfer when an order is accepted.
#[derive(Clone, Copy, Debug, PartialEq, Eq)]
pub struct SwapRequest {
    /// The leg from initiator to acceptor: the offered asset.
    pub leg_a: Asset,
    /// The leg from acceptor to initiator: the requested asset.
    pub leg_b: Asset,
}

/// Validation of a placement: the id must be unused and the order `Open`.
/// A taken id is reported whatever the status of the submitted order.
pub open spec fn placement_check(
    orders: Map<OrderId, PrivateSwapOrder>,
    order: PrivateSwapOrder,
) -> Result<(), SwapError> {
    if orders.contains_key(order.order_id) {
        Err(SwapError::DuplicateOrderId)
    } else if !(order.status is Open) {
        Err(SwapError::InvalidInitialState)
    } else {
        Ok(())
    }
}

/// Whether a placement may proceed, for each verdict on the solvency proof,
/// and what custody must then lock. Validation failures come first.
pub open spec fn placement_decision(
    orders: Map<OrderId, PrivateSwapOrder>,
    order: PrivateSwapOrder,
    verdict: bool,
) -> Result<LockRequest, SwapError> {
    match placement_check(orders, order) {
        Err(e) => Err(e),
        Ok(()) => if verdict {
            Ok(LockRequest { identity: order.initiator_public_key, asset: order.offered_asset })
        } else {
            Err(SwapError::ProofVerificationFailed)
        },
    }
}

/// Validation of an acceptance: the order must exist and be `Open`.
pub open spec fn acceptance_check(
    orders: Map<OrderId, PrivateSwapOrder>,
    order_id: OrderId,
) -> Result<(), SwapError> {
    OrderRegistry::update_result(orders, order_id, OrderStatus::Accepted)
}

/// Whether an acceptance may proceed, for each verdict on the intent proof,
/// and what custody must then transfer. Validation failures come first.
pub open spec fn acceptance_decision(
    orders: Map<OrderId, PrivateSwapOrder>,
    order_id: OrderId,
    verdict: bool,
) -> Result<SwapRequest, SwapError> {
    match acceptance_check(orders, order_id) {
        Err(e) => Err(e),
        Ok(()) => if verdict {
            Ok(
                SwapRequest {
                    leg_a: orders[order_id].offered_asset,
                    leg_b: orders[order_id].requested_asset,
                },
            )
        } else {
            Err(SwapError::ProofVerificationFailed)
        },
    }
}

/// Validates a placement against the registry alone. Nothing outside is
/// consulted and nothing changes.
pub fn check_placement(orders: &OrderRegistry, order: &PrivateSwapOrder) -> (outcome: Result<
    (),
    SwapError,
>)
    requires
        orders.wf(),
    ensures
        outcome == placement_check(orders@, *order),
{
    if orders.contains(&order.order_id) {
        return Err(SwapError::DuplicateOrderId);
    }
    match order.status {
        OrderStatus::Open => Ok(()),
        _ => Err(SwapError::InvalidInitialState),
    }
}

/// Admits `order` into the registry if it passes validation and its solvency
/// proof verified, and says what custody must lock for it. A refusal leaves
/// the registry as it was.
pub fn admit_placement(orders: &mut OrderRegistry, order: PrivateSwapOrder, verdict: bool) -> (outcome:
    Result<LockRequest, SwapError>)
    requires
        old(orders).wf(),
    ensures
        final(orders).wf(),
        outcome == placement_decision(old(orders)@, order, verdict),
        outcome is Ok ==> final(orders)@ == old(orders)@.insert(order.order_id, order),
        outcome is Err ==> final(orders)@ == old(orders)@,
        history_kept(old(orders)@, final(orders)@),
{
    match check_placement(orders, &order) {
        Err(e) => Err(e),
        Ok(()) => {
            if !verdict {
                return Err(SwapError::ProofVerificationFailed);
            }
            match orders.insert(order) {
                Err(e) => Err(e),
                Ok(()) => Ok(
                    LockRequest { identity: order.initiator_public_key, asset: order.offered_asset },
                ),
            }
        },
    }
}

/// Validates an acceptance against the registry alone. Nothing outside is
/// consulted and nothing changes.
pub fn check_acceptance(orders: &OrderRegistry, order_id: &OrderId) -> (outcome: Result<
    (),
    SwapError,
>)
    requires
        orders.wf(),
    ensures
        outcome == acceptance_check(orders@, *order_id),
{
    match orders.get(order_id) {
        Err(e) => Err(e),
        Ok(order) => {
            if order.status.can_transition_to(OrderStatus::Accepted) {
                Ok(())
            } else {
                Err(
                    SwapError::InvalidStateTransition {
                        current: order.status,
                        attempted: OrderStatus::Accepted,
                    },
                )
            }
        },
    }
}

/// Authorizes the acceptance of `order_id` if it passes validation and the
/// intent proof verified, and says which two legs custody must transfer.
/// The registry is only read: the order becomes `Accepted` once custody has
/// executed the swap.
pub fn authorize_acceptance(orders: &OrderRegistry, order_id: &OrderId, verdict: bool) -> (outcome:
    Result<SwapRequest, SwapError>)
    requires
        orders.wf(),
    ensures
        outcome == acceptance_decision(orders@, *order_id, verdict),
{
    match check_acceptance(orders, order_id) {
        Err(e) => Err(e),
        Ok(()) => {
            if !verdict {
                return Err(SwapError::ProofVerificationFailed);
            }
            match orders.get(order_id) {
                Err(e) => Err(e),
                Ok(order) => Ok(
                    SwapRequest { leg_a: order.offered_asset, leg_b: order.requested_asset },
                ),
            }
        },
    }
}

} // verus!
