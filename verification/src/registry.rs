//! The order registry: the authoritative mapping from order id to order.
//!
//! Orders are kept in arrival order in a vector whose ids are pairwise
//! distinct; the registry is viewed as the map from each id to the one order
//! that carries it. Orders enter through `insert` and change only through
//! `update_status`, which follows the status state machine.

use vstd::prelude::*;
use crate::asset::{same_bytes, OrderId};
use crate::error::SwapError;
use crate::lifecycle::{history_kept, statuses_advance};
use crate::order::PrivateSwapOrder;
use crate::status::OrderStatus;

verus! {

/// No two entries carry the same id.
spec fn distinct_ids(entries: Seq<PrivateSwapOrder>) -> bool {
    forall|i: int, j: int|
        0 <= i < j < entries.len() ==> entries[i].order_id != entries[j].order_id
}

/// Some entry carries `id`.
spec fn holds(entries: Seq<PrivateSwapOrder>, id: OrderId) -> bool {
    exists|i: int| 0 <= i < entries.len() && entries[i].order_id == id
}

/// The position of an entry that carries `id`.
spec fn slot(entries: Seq<PrivateSwapOrder>, id: OrderId) -> int {
    choose|i: int| 0 <= i < entries.len() && entries[i].order_id == id
}

/// The map that a sequence of entries stands for.
spec fn model(entries: Seq<PrivateSwapOrder>) -> Map<OrderId, PrivateSwapOrder> {
    Map::new(|id: OrderId| holds(entries, id), |id: OrderId| entries[slot(entries, id)])
}

/// With distinct ids, the entry at position `i` is what its id maps to.
proof fn lemma_model_at(entries: Seq<PrivateSwapOrder>, i: int)
    requires
        distinct_ids(entries),
        0 <= i < entries.len(),
    ensures
        model(entries).contains_key(entries[i].order_id),
        model(entries)[entries[i].order_id] == entries[i],
        slot(entries, entries[i].order_id) == i,
{
}

/// Appending an order under a fresh id inserts it into the map.
proof fn lemma_model_push(entries: Seq<PrivateSwapOrder>, order: PrivateSwapOrder)
    requires
        distinct_ids(entries),
        !holds(entries, order.order_id),
    ensures
        distinct_ids(entries.push(order)),
        model(entries.push(order)) == model(entries).insert(order.order_id, order),
{
    let after = entries.push(order);
    assert(distinct_ids(after));
    assert forall|id: OrderId| #[trigger]
        model(after).contains_key(id) == model(entries).insert(
            order.order_id,
            order,
        ).contains_key(id) by {
        if holds(entries, id) {
            assert(after[slot(entries, id)].order_id == id);
        }
        if id == order.order_id {
            assert(after[entries.len() as int].order_id == id);
        }
    }
    assert forall|id: OrderId| #[trigger] model(after).contains_key(id) implies model(after)[id]
        == model(entries).insert(order.order_id, order)[id] by {
        let k = slot(after, id);
        lemma_model_at(after, k);
        if k < entries.len() {
            lemma_model_at(entries, k);
        }
    }
}

/// Replacing an entry by an order with the same id overwrites its slot in
/// the map.
proof fn lemma_model_update(entries: Seq<PrivateSwapOrder>, i: int, order: PrivateSwapOrder)
    requires
        distinct_ids(entries),
        0 <= i < entries.len(),
        order.order_id == entries[i].order_id,
    ensures
        distinct_ids(entries.update(i, order)),
        model(entries.update(i, order)) == model(entries).insert(order.order_id, order),
{
    let after = entries.update(i, order);
    assert(distinct_ids(after));
    assert forall|id: OrderId| #[trigger]
        model(after).contains_key(id) == model(entries).insert(
            order.order_id,
            order,
        ).contains_key(id) by {
        if holds(entries, id) {
            assert(after[slot(entries, id)].order_id == id);
        }
        if holds(after, id) {
            assert(entries[slot(after, id)].order_id == id);
        }
    }
    assert forall|id: OrderId| #[trigger] model(after).contains_key(id) implies model(after)[id]
        == model(entries).insert(order.order_id, order)[id] by {
        let k = slot(after, id);
        lemma_model_at(after, k);
        lemma_model_at(entries, k);
    }
}

/// Where the entry at position `k` stood before the entry at `i` was taken
/// out.
spec fn before_removal(i: int, k: int) -> int {
    if k < i {
        k
    } else {
        k + 1
    }
}

/// Taking an entry out removes its id from the map and nothing else.
proof fn lemma_model_remove(entries: Seq<PrivateSwapOrder>, i: int)
    requires
        distinct_ids(entries),
        0 <= i < entries.len(),
    ensures
        distinct_ids(entries.remove(i)),
        model(entries.remove(i)) == model(entries).remove(entries[i].order_id),
{
    let gone = entries[i].order_id;
    let after = entries.remove(i);
    assert forall|k: int| 0 <= k < after.len() implies #[trigger] after[k] == entries[before_removal(
        i,
        k,
    )] by {}
    assert(distinct_ids(after));
    assert forall|id: OrderId| #[trigger]
        model(after).contains_key(id) == model(entries).remove(gone).contains_key(id) by {
        if holds(after, id) {
            let k = before_removal(i, slot(after, id));
            assert(entries[k].order_id == id);
        }
        if holds(entries, id) && id != gone {
            let k = slot(entries, id);
            let k1 = if k < i {
                k
            } else {
                k - 1
            };
            assert(after[k1].order_id == id);
        }
    }
    assert forall|id: OrderId| #[trigger] model(after).contains_key(id) implies model(after)[id]
        == model(entries).remove(gone)[id] by {
        let k = slot(after, id);
        lemma_model_at(after, k);
        lemma_model_at(entries, before_removal(i, k));
    }
}

/// The map has exactly one key per entry.
proof fn lemma_model_len(entries: Seq<PrivateSwapOrder>)
    requires
        distinct_ids(entries),
    ensures
        model(entries).dom().finite(),
        model(entries).dom().len() == entries.len(),
    decreases entries.len(),
{
    if entries.len() == 0 {
        assert(model(entries).dom() =~= Set::<OrderId>::empty());
    } else {
        let front = entries.drop_last();
        let last = entries.last();
        assert(entries =~= front.push(last));
        assert(distinct_ids(front));
        assert(!holds(front, last.order_id)) by {
            if holds(front, last.order_id) {
                assert(entries[slot(front, last.order_id)].order_id == last.order_id);
            }
        }
        lemma_model_len(front);
        lemma_model_push(front, last);
    }
}

/// The authoritative mapping from order id to order.
pub struct OrderRegistry {
    entries: Vec<PrivateSwapOrder>,
}

impl View for OrderRegistry {
    type V = Map<OrderId, PrivateSwapOrder>;

    /// The registry as a map from order id to order.
    closed spec fn view(&self) -> Map<OrderId, PrivateSwapOrder> {
        model(self.entries@)
    }
}

impl OrderRegistry {
    /// The registry's invariant: every id names at most one stored order.
    pub closed spec fn wf(&self) -> bool {
        distinct_ids(self.entries@)
    }

    /// What `insert` returns on a registry holding `orders`.
    pub open spec fn insert_result(
        orders: Map<OrderId, PrivateSwapOrder>,
        order: PrivateSwapOrder,
    ) -> Result<(), SwapError> {
        if orders.contains_key(order.order_id) {
            Err(SwapError::DuplicateOrderId)
        } else {
            Ok(())
        }
    }

    /// What `update_status` returns on a registry holding `orders`.
    pub open spec fn update_result(
        orders: Map<OrderId, PrivateSwapOrder>,
        order_id: OrderId,
        new_status: OrderStatus,
    ) -> Result<(), SwapError> {
        if !orders.contains_key(order_id) {
            Err(SwapError::OrderNotFound)
        } else {
            PrivateSwapOrder::transition_result(orders[order_id].status, new_status)
        }
    }

    /// Every order is stored under its own id, and the registry is finite.
    pub proof fn lemma_keyed_by_order_id(&self)
        requires
            self.wf(),
        ensures
            self@.dom().finite(),
            forall|id: OrderId| #[trigger] self@.contains_key(id) ==> self@[id].order_id == id,
    {
        lemma_model_len(self.entries@);
    }

    /// An empty registry.
    pub fn new() -> (registry: OrderRegistry)
        ensures
            registry.wf(),
            registry@ == Map::<OrderId, PrivateSwapOrder>::empty(),
    {
        OrderRegistry { entries: Vec::new() }
    }

    /// How many orders were ever registered.
    pub fn len(&self) -> (count: usize)
        requires
            self.wf(),
        ensures
            count == self@.dom().len(),
    {
        proof {
            lemma_model_len(self.entries@);
        }
        self.entries.len()
    }

    /// Whether no order was ever registered.
    pub fn is_empty(&self) -> (empty: bool)
        requires
            self.wf(),
        ensures
            empty == (self@ == Map::<OrderId, PrivateSwapOrder>::empty()),
    {
        proof {
            lemma_model_len(self.entries@);
            if self.entries@.len() == 0 {
                assert(self@ =~= Map::<OrderId, PrivateSwapOrder>::empty());
            }
        }
        self.entries.len() == 0
    }

    /// The position of the entry that carries `order_id`, if there is one.
    fn find(&self, order_id: &OrderId) -> (found: Option<usize>)
        ensures
            match found {
                Some(i) => i < self.entries@.len() && self.entries@[i as int].order_id
                    == *order_id,
                None => !holds(self.entries@, *order_id),
            },
    {
        let mut i: usize = 0;
        while i < self.entries.len()
            invariant
                i <= self.entries@.len(),
                forall|k: int| 0 <= k < i ==> self.entries@[k].order_id != *order_id,
            decreases self.entries@.len() - i,
        {
            if same_bytes(&self.entries[i].order_id, order_id) {
                return Some(i);
            }
            i += 1;
        }
        None
    }

    /// Whether an order is registered under `order_id`.
    pub fn contains(&self, order_id: &OrderId) -> (present: bool)
        requires
            self.wf(),
        ensures
            present == self@.contains_key(*order_id),
    {
        match self.find(order_id) {
            Some(i) => {
                proof {
                    lemma_model_at(self.entries@, i as int);
                }
                true
            },
            None => false,
        }
    }

    /// The order registered under `order_id`, or `OrderNotFound`.
    pub fn get(&self, order_id: &OrderId) -> (found: Result<&PrivateSwapOrder, SwapError>)
        requires
            self.wf(),
        ensures
            match found {
                Ok(order) => self@.contains_key(*order_id) && *order == self@[*order_id],
                Err(e) => !self@.contains_key(*order_id) && e == SwapError::OrderNotFound,
            },
    {
        match self.find(order_id) {
            Some(i) => {
                proof {
                    lemma_model_at(self.entries@, i as int);
                }
                Ok(&self.entries[i])
            },
            None => Err(SwapError::OrderNotFound),
        }
    }

    /// Registers `order` under its own id. An id that is already taken is
    /// refused with `DuplicateOrderId`, and the order stored under it stays
    /// as it is.
    pub fn insert(&mut self, order: PrivateSwapOrder) -> (outcome: Result<(), SwapError>)
        requires
            old(self).wf(),
        ensures
            final(self).wf(),
            outcome == Self::insert_result(old(self)@, order),
            outcome is Ok ==> final(self)@ == old(self)@.insert(order.order_id, order),
            outcome is Err ==> final(self)@ == old(self)@,
            history_kept(old(self)@, final(self)@),
    {
        match self.find(&order.order_id) {
            Some(i) => {
                proof {
                    lemma_model_at(self.entries@, i as int);
                }
                Err(SwapError::DuplicateOrderId)
            },
            None => {
                proof {
                    lemma_model_push(self.entries@, order);
                }
                self.entries.push(order);
                Ok(())
            },
        }
    }

    /// Moves the order registered under `order_id` to `new_status`. Fails
    /// with `OrderNotFound` if there is no such order and with
    /// `InvalidStateTransition` if the state machine does not allow the move;
    /// a failure changes nothing.
    pub fn update_status(&mut self, order_id: &OrderId, new_status: OrderStatus) -> (outcome:
        Result<(), SwapError>)
        requires
            old(self).wf(),
        ensures
            final(self).wf(),
            outcome == Self::update_result(old(self)@, *order_id, new_status),
            outcome is Ok ==> final(self)@ == old(self)@.insert(
                *order_id,
                old(self)@[*order_id].with_status(new_status),
            ),
            outcome is Err ==> final(self)@ == old(self)@,
            history_kept(old(self)@, final(self)@),
    {
        match self.find(order_id) {
            None => Err(SwapError::OrderNotFound),
            Some(i) => {
                proof {
                    lemma_model_at(self.entries@, i as int);
                }
                let mut order = self.entries[i];
                match order.transition(new_status) {
                    Err(e) => Err(e),
                    Ok(()) => {
                        proof {
                            lemma_model_update(self.entries@, i as int, order);
                        }
                        self.entries[i] = order;
                        Ok(())
                    },
                }
            },
        }
    }

    /// Takes back the registration of `order_id`, as if it had never been
    /// inserted. Only the rollback of a placement whose asset could not be
    /// locked uses this.
    pub(crate) fn retract(&mut self, order_id: &OrderId)
        requires
            old(self).wf(),
        ensures
            final(self).wf(),
            final(self)@ == old(self)@.remove(*order_id),
            statuses_advance(old(self)@, final(self)@),
    {
        if let Some(i) = self.find(order_id) {
            proof {
                lemma_model_remove(self.entries@, i as int);
            }
            self.entries.remove(i);
        }
    }
}

} // verus!
