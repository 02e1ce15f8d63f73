//! The swap orchestrator: the two public operations, each an atomic unit
//! of validation, proof verification, registry mutation and custody.
//!
//! The contract owns its registry and its two collaborators. It is driven
//! through `&mut self`, so operations are applied one at a time: nothing can
//! come between the validation of an order and the change made to it.

use vstd::prelude::*;
use crate::asset::OrderId;
use crate::custody::{
    placement_settled, placement_settlement, settle_acceptance, settle_placement, Custody,
};
use crate::error::{CustodyError, SwapError};
use crate::gate::{
    acceptance_check, acceptance_decision, admit_placement, authorize_acceptance,
    check_acceptance, check_placement, judges_intent, judges_solvency, placement_check,
    placement_decision, ProofVerifier,
};
use crate::lifecycle::history_kept;
use crate::order::PrivateSwapOrder;
use crate::registry::OrderRegistry;
use crate::status::OrderStatus;

verus! {

/// What `place_order` returns and the registry it leaves behind, as a
/// function of the registry before, the submitted order, the verifier's
/// verdict and custody's answer to the lock request. The verdict counts only
/// where validation passed, and custody's answer only where the proof
/// verified.
pub open spec fn place_outcome(
    orders: Map<OrderId, PrivateSwapOrder>,
    order: PrivateSwapOrder,
    verdict: bool,
    locked: Result<(), CustodyError>,
) -> (Result<(), SwapError>, Map<OrderId, PrivateSwapOrder>) {
    match placement_decision(orders, order, verdict) {
        Err(e) => (Err(e), orders),
        Ok(_) => (
            placement_settlement(locked),
            placement_settled(orders.insert(order.order_id, order), order.order_id, locked),
        ),
    }
}

/// What `accept_order` returns and the registry it leaves behind, as a
/// function of the registry before, the order id, the verifier's verdict and
/// custody's answer to the swap request.
pub open spec fn accept_outcome(
    orders: Map<OrderId, PrivateSwapOrder>,
    order_id: OrderId,
    verdict: bool,
    swapped: Result<(), CustodyError>,
) -> (Result<(), SwapError>, Map<OrderId, PrivateSwapOrder>) {
    match acceptance_decision(orders, order_id, verdict) {
        Err(e) => (Err(e), orders),
        Ok(_) => match swapped {
            Ok(()) => (
                Ok(()),
                orders.insert(order_id, orders[order_id].with_status(OrderStatus::Accepted)),
            ),
            Err(_) => (Err(SwapError::SwapExecutionFailed), orders),
        },
    }
}

/// The private swap contract: an order registry together with the proof
/// verifier and the custody it relies on.
pub struct PrivateSwapContract<V, C> {
    orders: OrderRegistry,
    verifier: V,
    custody: C,
}

impl<V, C> View for PrivateSwapContract<V, C> {
    type V = Map<OrderId, PrivateSwapOrder>;

    /// The contract's registry as a map from order id to order.
    closed spec fn view(&self) -> Map<OrderId, PrivateSwapOrder> {
        self.orders@
    }
}

impl<V: ProofVerifier, C: Custody> PrivateSwapContract<V, C> {
    /// The contract's invariant: that of its registry.
    pub closed spec fn wf(&self) -> bool {
        self.orders.wf()
    }

    /// The custody collaborator as it stands.
    pub closed spec fn custody_state(&self) -> C {
        self.custody
    }

    /// The proof verifier as it stands.
    pub closed spec fn verifier_state(&self) -> V {
        self.verifier
    }

    /// A contract with no orders.
    pub fn new(verifier: V, custody: C) -> (contract: Self)
        ensures
            contract.wf(),
            contract@ == Map::<OrderId, PrivateSwapOrder>::empty(),
            contract.verifier_state() == verifier,
            contract.custody_state() == custody,
    {
        PrivateSwapContract { orders: OrderRegistry::new(), verifier, custody }
    }

    /// A contract that continues from an existing registry.
    pub fn with_registry(orders: OrderRegistry, verifier: V, custody: C) -> (contract: Self)
        requires
            orders.wf(),
        ensures
            contract.wf(),
            contract@ == orders@,
            contract.verifier_state() == verifier,
            contract.custody_state() == custody,
    {
        PrivateSwapContract { orders, verifier, custody }
    }

    /// The registry, for lookups and audits.
    pub fn registry(&self) -> (orders: &OrderRegistry)
        requires
            self.wf(),
        ensures
            orders.wf(),
            orders@ == self@,
    {
        &self.orders
    }

    /// The custody collaborator.
    pub fn custody(&self) -> (custody: &C)
        ensures
            *custody == self.custody_state(),
    {
        &self.custody
    }

    /// The proof verifier.
    pub fn proof_verifier(&self) -> (judge: &V)
        ensures
            *judge == self.verifier_state(),
    {
        &self.verifier
    }

    /// Places a new order, backed by a proof of the initiator's solvency.
    ///
    /// The order is validated first: its id must be unused
    /// (`DuplicateOrderId`) and its status `Open` (`InvalidInitialState`).
    /// Then the proof is verified (`ProofVerificationFailed`), the order is
    /// registered, and custody is asked to lock the offered asset. If that
    /// fails the registration is rolled back and the custody error passed
    /// on. Whatever the collaborators answer, the operation is
    /// all-or-nothing: on `Ok` the order is registered as submitted, on any
    /// error the registry is as before; and custody is not touched unless
    /// validation passed and the proof verified.
    ///
    /// The result and the registry left behind are `place_outcome` of the
    /// verifier's verdict and custody's answer. The verdict is what the
    /// verifier answers on this proof and this order; custody's answer and
    /// its state afterwards are those of exactly one request: to lock the
    /// offered asset for the initiator.
    pub fn place_order(&mut self, order: PrivateSwapOrder, solvency_proof: Vec<u8>) -> (outcome:
        Result<(), SwapError>)
        requires
            old(self).wf(),
        ensures
            final(self).wf(),
            final(self).verifier_state() == old(self).verifier_state(),
            exists|verdict: bool, locked: Result<(), CustodyError>|
                {
                    &&& #[trigger] place_outcome(old(self)@, order, verdict, locked) == (
                        outcome,
                        final(self)@,
                    )
                    &&& placement_check(old(self)@, order) is Ok ==> judges_solvency(
                        old(self).verifier_state(),
                        solvency_proof@,
                        order,
                        verdict,
                    )
                    &&& match placement_decision(old(self)@, order, verdict) {
                        Ok(request) => exists|custody: &mut C|
                            {
                                &&& *custody == old(self).custody_state()
                                &&& *final(custody) == final(self).custody_state()
                                &&& #[trigger] call_ensures(
                                    C::lock,
                                    (custody, &request.identity, &request.asset),
                                    locked,
                                )
                            },
                        Err(_) => final(self).custody_state() == old(self).custody_state(),
                    }
                },
            placement_check(old(self)@, order) matches Err(e) ==> outcome == Err::<(), SwapError>(
                e,
            ),
            outcome is Ok ==> final(self)@ == old(self)@.insert(order.order_id, order),
            outcome is Err ==> final(self)@ == old(self)@,
            outcome matches Err(e) && !(e is CustodyError) ==> final(self).custody_state()
                == old(self).custody_state(),
            history_kept(old(self)@, final(self)@),
    {
        let ghost before = self.orders@;
        match check_placement(&self.orders, &order) {
            Err(e) => {
                assert(place_outcome(before, order, false, Ok(())) == (
                    Err::<(), SwapError>(e),
                    before,
                ));
                return Err(e);
            },
            Ok(()) => {},
        }
        let proof_bytes = solvency_proof.as_slice();
        let verdict = self.verifier.verify_solvency(proof_bytes, &order);
        assert(judges_solvency(self.verifier, solvency_proof@, order, verdict)) by {
            assert(call_ensures(V::verify_solvency, (&self.verifier, proof_bytes, &order), verdict));
        }
        let request = match admit_placement(&mut self.orders, order, verdict) {
            Err(e) => {
                assert(place_outcome(before, order, verdict, Ok(())) == (
                    Err::<(), SwapError>(e),
                    before,
                ));
                return Err(e);
            },
            Ok(request) => request,
        };
        let locked = self.custody.lock(&request.identity, &request.asset);
        let outcome = settle_placement(&mut self.orders, &order.order_id, locked);
        proof {
            assert(place_outcome(before, order, verdict, locked) == (outcome, self.orders@));
        }
        outcome
    }

    /// Accepts an open order, backed by a proof of the acceptor's intent.
    ///
    /// The order is validated first: it must exist (`OrderNotFound`) and be
    /// `Open` (`InvalidStateTransition`). Then the proof, bound to
    /// `order_id`, is verified (`ProofVerificationFailed`) and custody is
    /// asked to execute both legs of the swap. Only if it does, the order
    /// becomes `Accepted`; otherwise the operation fails with
    /// `SwapExecutionFailed` and the order stays `Open`. Custody is not
    /// touched unless validation passed and the proof verified.
    ///
    /// The result and the registry left behind are `accept_outcome` of the
    /// verifier's verdict and custody's answer. The verdict is what the
    /// verifier answers on this proof and this order id; custody's answer
    /// and its state afterwards are those of exactly one request: to swap
    /// the offered asset against the requested one.
    pub fn accept_order(&mut self, order_id: OrderId, intent_proof: Vec<u8>) -> (outcome: Result<
        (),
        SwapError,
    >)
        requires
            old(self).wf(),
        ensures
            final(self).wf(),
            final(self).verifier_state() == old(self).verifier_state(),
            exists|verdict: bool, swapped: Result<(), CustodyError>|
                {
                    &&& #[trigger] accept_outcome(old(self)@, order_id, verdict, swapped) == (
                        outcome,
                        final(self)@,
                    )
                    &&& acceptance_check(old(self)@, order_id) is Ok ==> judges_intent(
                        old(self).verifier_state(),
                        intent_proof@,
                        order_id,
                        verdict,
                    )
                    &&& match acceptance_decision(old(self)@, order_id, verdict) {
                        Ok(request) => exists|custody: &mut C|
                            {
                                &&& *custody == old(self).custody_state()
                                &&& *final(custody) == final(self).custody_state()
                                &&& #[trigger] call_ensures(
                                    C::swap,
                                    (custody, &request.leg_a, &request.leg_b),
                                    swapped,
                                )
                            },
                        Err(_) => final(self).custody_state() == old(self).custody_state(),
                    }
                },
            acceptance_check(old(self)@, order_id) matches Err(e) ==> outcome == Err::<
                (),
                SwapError,
            >(e),
            outcome is Ok ==> final(self)@ == old(self)@.insert(
                order_id,
                old(self)@[order_id].with_status(OrderStatus::Accepted),
            ),
            outcome is Err ==> final(self)@ == old(self)@,
            outcome matches Err(e) && !(e is SwapExecutionFailed) ==> final(self).custody_state()
                == old(self).custody_state(),
            history_kept(old(self)@, final(self)@),
    {
        let ghost before = self.orders@;
        match check_acceptance(&self.orders, &order_id) {
            Err(e) => {
                assert(accept_outcome(before, order_id, false, Ok(())) == (
                    Err::<(), SwapError>(e),
                    before,
                ));
                return Err(e);
            },
            Ok(()) => {},
        }
        let proof_bytes = intent_proof.as_slice();
        let verdict = self.verifier.verify_intent(proof_bytes, &order_id);
        assert(judges_intent(self.verifier, intent_proof@, order_id, verdict)) by {
            assert(call_ensures(V::verify_intent, (&self.verifier, proof_bytes, &order_id), verdict));
        }
        let request = match authorize_acceptance(&self.orders, &order_id, verdict) {
            Err(e) => {
                assert(accept_outcome(before, order_id, verdict, Ok(())) == (
                    Err::<(), SwapError>(e),
                    before,
                ));
                return Err(e);
            },
            Ok(request) => request,
        };
        let swapped = self.custody.swap(&request.leg_a, &request.leg_b);
        let outcome = settle_acceptance(&mut self.orders, &order_id, swapped);
        proof {
            assert(accept_outcome(before, order_id, verdict, swapped) == (outcome, self.orders@));
        }
        outcome
    }
}

} // verus!
