//! What holds of every order over its whole life, and of the two operations
//! however the collaborators answer.
//!
//! The relations here compare a registry before and after any number of
//! operations; every function that changes a registry promises one of them.

use vstd::prelude::*;
use crate::asset::OrderId;
use crate::contract::{accept_outcome, place_outcome};
use crate::error::{CustodyError, SwapError};
use crate::gate::{acceptance_decision, placement_check, placement_decision, SwapRequest};
use crate::order::PrivateSwapOrder;
use crate::status::OrderStatus;

verus! {

/// One order seen at two moments: its terms are the same, and its status is
/// either the same or has moved along the state machine.
pub open spec fn order_advances(before: PrivateSwapOrder, after: PrivateSwapOrder) -> bool {
    before.same_terms(after) && (after.status == before.status || before.status.permits(
        after.status,
    ))
}

/// Every order found in both registries has only advanced.
pub open spec fn statuses_advance(
    before: Map<OrderId, PrivateSwapOrder>,
    after: Map<OrderId, PrivateSwapOrder>,
) -> bool {
    forall|id: OrderId| #[trigger]
        before.contains_key(id) && after.contains_key(id) ==> order_advances(
            before[id],
            after[id],
        )
}

/// Every order of the earlier registry is still there and has only advanced:
/// orders are never deleted, never rewritten, and never move backwards.
pub open spec fn history_kept(
    before: Map<OrderId, PrivateSwapOrder>,
    after: Map<OrderId, PrivateSwapOrder>,
) -> bool {
    forall|id: OrderId| #[trigger]
        before.contains_key(id) ==> after.contains_key(id) && order_advances(
            before[id],
            after[id],
        )
}

/// A status moves in one direction only: from `Open` to a terminal state.
/// There is no way back to `Open`, and no way from `Accepted` to `Cancelled`
/// or from `Cancelled` to `Accepted`.
pub proof fn lemma_status_moves_forward(from: OrderStatus, to: OrderStatus)
    requires
        from.permits(to),
    ensures
        from is Open,
        to is Accepted || to is Cancelled,
        !to.permits(from),
        forall|next: OrderStatus| !to.permits(next),
{
}

/// An order in a terminal state never changes again.
pub proof fn lemma_terminal_is_final(before: PrivateSwapOrder, after: PrivateSwapOrder)
    requires
        order_advances(before, after),
        before.status.terminal(),
    ensures
        after == before,
{
}

/// Advancing is reflexive and transitive, so it holds across any number of
/// single steps.
pub proof fn lemma_order_advances_composes(
    first: PrivateSwapOrder,
    second: PrivateSwapOrder,
    third: PrivateSwapOrder,
)
    requires
        order_advances(first, second),
        order_advances(second, third),
    ensures
        order_advances(first, first),
        order_advances(first, third),
{
}

/// A registry's history is kept across any number of steps that each keep
/// it.
pub proof fn lemma_history_kept_composes(
    first: Map<OrderId, PrivateSwapOrder>,
    second: Map<OrderId, PrivateSwapOrder>,
    third: Map<OrderId, PrivateSwapOrder>,
)
    requires
        history_kept(first, second),
        history_kept(second, third),
    ensures
        history_kept(first, first),
        history_kept(first, third),
        statuses_advance(first, third),
{
    assert forall|id: OrderId| #[trigger] first.contains_key(id) implies third.contains_key(id)
        && order_advances(first[id], third[id]) by {
        lemma_order_advances_composes(first[id], second[id], third[id]);
    }
}

/// A placement is all or nothing, whatever the verifier and custody answer:
/// it either registers the order exactly as submitted, or leaves the
/// registry exactly as it was. A lock that custody refuses is rolled back
/// without a trace.
pub proof fn lemma_placement_all_or_nothing(
    orders: Map<OrderId, PrivateSwapOrder>,
    order: PrivateSwapOrder,
    verdict: bool,
    locked: Result<(), CustodyError>,
)
    ensures
        ({
            let (outcome, after) = place_outcome(orders, order, verdict, locked);
            &&& outcome is Ok <==> placement_decision(orders, order, verdict) is Ok && locked is Ok
            &&& outcome is Ok ==> after == orders.insert(order.order_id, order)
            &&& outcome is Err ==> after == orders
            &&& history_kept(orders, after)
        }),
{
    assert(orders.insert(order.order_id, order).remove(order.order_id) =~= orders.remove(
        order.order_id,
    ));
}

/// A placement whose solvency proof does not verify fails and leaves the
/// registry unchanged; in particular it leaves no entry for the order's id.
pub proof fn lemma_rejected_solvency_leaves_no_trace(
    orders: Map<OrderId, PrivateSwapOrder>,
    order: PrivateSwapOrder,
    locked: Result<(), CustodyError>,
)
    ensures
        place_outcome(orders, order, false, locked).0 is Err,
        place_outcome(orders, order, false, locked).1 == orders,
        placement_decision(orders, order, false) is Err,
{
}

/// Once an order is placed, placing any order under the same id fails with
/// `DuplicateOrderId`, whatever the proofs and custody say, and the order
/// placed first stays exactly as it is.
pub proof fn lemma_second_placement_is_duplicate(
    orders: Map<OrderId, PrivateSwapOrder>,
    first: PrivateSwapOrder,
    first_verdict: bool,
    first_locked: Result<(), CustodyError>,
    second: PrivateSwapOrder,
    second_verdict: bool,
    second_locked: Result<(), CustodyError>,
)
    requires
        place_outcome(orders, first, first_verdict, first_locked).0 is Ok,
        second.order_id == first.order_id,
    ensures
        ({
            let placed = place_outcome(orders, first, first_verdict, first_locked).1;
            &&& placed.contains_key(first.order_id)
            &&& placed[first.order_id] == first
            &&& place_outcome(placed, second, second_verdict, second_locked) == (
                Err::<(), SwapError>(SwapError::DuplicateOrderId),
                placed,
            )
        }),
{
    lemma_placement_all_or_nothing(orders, first, first_verdict, first_locked);
}

/// An id is never used twice: once an order is registered under it, and
/// whatever happens to that order afterwards, every later placement under
/// the same id is refused with `DuplicateOrderId`.
pub proof fn lemma_ids_are_never_reused(
    before: Map<OrderId, PrivateSwapOrder>,
    after: Map<OrderId, PrivateSwapOrder>,
    order: PrivateSwapOrder,
    verdict: bool,
    locked: Result<(), CustodyError>,
)
    requires
        before.contains_key(order.order_id),
        history_kept(before, after),
    ensures
        placement_check(after, order) == Err::<(), SwapError>(SwapError::DuplicateOrderId),
        place_outcome(after, order, verdict, locked) == (
            Err::<(), SwapError>(SwapError::DuplicateOrderId),
            after,
        ),
{
}

/// Accepting an id under which nothing is registered fails with
/// `OrderNotFound`: no proof is looked at, custody is asked for nothing, and
/// the registry is unchanged.
pub proof fn lemma_accept_unknown_order(
    orders: Map<OrderId, PrivateSwapOrder>,
    order_id: OrderId,
    verdict: bool,
    swapped: Result<(), CustodyError>,
)
    requires
        !orders.contains_key(order_id),
    ensures
        acceptance_decision(orders, order_id, verdict) == Err::<SwapRequest, SwapError>(
            SwapError::OrderNotFound,
        ),
        accept_outcome(orders, order_id, verdict, swapped) == (
            Err::<(), SwapError>(SwapError::OrderNotFound),
            orders,
        ),
{
}

/// Accepting an order that is already `Accepted` or `Cancelled` fails with
/// `InvalidStateTransition`, naming its state: no swap is requested from
/// custody, and the registry is unchanged.
pub proof fn lemma_accept_settled_order(
    orders: Map<OrderId, PrivateSwapOrder>,
    order_id: OrderId,
    verdict: bool,
    swapped: Result<(), CustodyError>,
)
    requires
        orders.contains_key(order_id),
        orders[order_id].status.terminal(),
    ensures
        acceptance_decision(orders, order_id, verdict) == Err::<SwapRequest, SwapError>(
            SwapError::InvalidStateTransition {
                current: orders[order_id].status,
                attempted: OrderStatus::Accepted,
            },
        ),
        accept_outcome(orders, order_id, verdict, swapped) == (
            Err::<(), SwapError>(
                SwapError::InvalidStateTransition {
                    current: orders[order_id].status,
                    attempted: OrderStatus::Accepted,
                },
            ),
            orders,
        ),
{
}

/// An acceptance changes at most the status of the one order it names, and
/// only from `Open` to `Accepted`, and only when the proof verified and
/// custody executed the swap.
pub proof fn lemma_acceptance_moves_one_status(
    orders: Map<OrderId, PrivateSwapOrder>,
    order_id: OrderId,
    verdict: bool,
    swapped: Result<(), CustodyError>,
)
    ensures
        ({
            let (outcome, after) = accept_outcome(orders, order_id, verdict, swapped);
            &&& outcome is Ok <==> orders.contains_key(order_id) && orders[order_id].status is Open
                && verdict && swapped is Ok
            &&& outcome is Ok ==> after == orders.insert(
                order_id,
                orders[order_id].with_status(OrderStatus::Accepted),
            )
            &&& outcome is Err ==> after == orders
            &&& history_kept(orders, after)
        }),
{
}

/// Operations on one order never touch another: whatever happens to the
/// order named, every other id maps to what it mapped to before.
pub proof fn lemma_other_orders_untouched(
    orders: Map<OrderId, PrivateSwapOrder>,
    order: PrivateSwapOrder,
    order_id: OrderId,
    verdict: bool,
    answer: Result<(), CustodyError>,
    other: OrderId,
)
    requires
        other != order.order_id,
        other != order_id,
    ensures
        ({
            let placed = place_outcome(orders, order, verdict, answer).1;
            let accepted = accept_outcome(orders, order_id, verdict, answer).1;
            &&& placed.contains_key(other) == orders.contains_key(other)
            &&& accepted.contains_key(other) == orders.contains_key(other)
            &&& orders.contains_key(other) ==> placed[other] == orders[other] && accepted[other]
                == orders[other]
        }),
{
}

/// Of two acceptances of the same order, applied one after the other, at
/// most one succeeds. Once the first has succeeded the second is refused
/// with `InvalidStateTransition`, whatever its proof, before custody is
/// asked for anything: the assets are never swapped twice.
pub proof fn lemma_second_acceptance_is_refused(
    orders: Map<OrderId, PrivateSwapOrder>,
    order_id: OrderId,
    first_verdict: bool,
    first_swapped: Result<(), CustodyError>,
    second_verdict: bool,
    second_swapped: Result<(), CustodyError>,
)
    requires
        accept_outcome(orders, order_id, first_verdict, first_swapped).0 is Ok,
    ensures
        ({
            let accepted = accept_outcome(orders, order_id, first_verdict, first_swapped).1;
            let refusal = SwapError::InvalidStateTransition {
                current: OrderStatus::Accepted,
                attempted: OrderStatus::Accepted,
            };
            &&& accepted[order_id].status is Accepted
            &&& acceptance_decision(accepted, order_id, second_verdict) == Err::<SwapRequest, SwapError>(
                refusal,
            )
            &&& accept_outcome(accepted, order_id, second_verdict, second_swapped) == (
                Err::<(), SwapError>(refusal),
                accepted,
            )
        }),
{
}

} // verus!
