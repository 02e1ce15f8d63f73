use std::cell::Cell;

use private_swap::{
    Asset, Custody, CustodyError, OrderRegistry, OrderStatus, PrivateSwapContract,
    PrivateSwapOrder, ProofVerifier, SwapError,
};

const GOOD_SOLVENCY: [u8; 3] = [1, 2, 3];
const GOOD_INTENT: [u8; 2] = [9, 9];

/// Accepts one solvency proof, and one intent proof per order id (the proof
/// followed by the id's first byte); counts how often it is asked.
struct CountingVerifier {
    asked: Cell<u32>,
}

impl ProofVerifier for CountingVerifier {
    fn verify_solvency(&self, proof: &[u8], _order: &PrivateSwapOrder) -> bool {
        self.asked.set(self.asked.get() + 1);
        proof == GOOD_SOLVENCY
    }

    fn verify_intent(&self, proof: &[u8], order_id: &[u8; 32]) -> bool {
        self.asked.set(self.asked.get() + 1);
        proof.len() == 3 && proof[..2] == GOOD_INTENT && proof[2] == order_id[0]
    }
}

#[derive(Debug, Clone, PartialEq)]
enum Call {
    Lock([u8; 32], Asset),
    Swap(Asset, Asset),
}

/// Records every request; fails the requests whose number is listed.
struct Ledger {
    calls: Vec<Call>,
    failing: Vec<usize>,
}

impl Ledger {
    fn answer(&self) -> Result<(), CustodyError> {
        if self.failing.contains(&self.calls.len()) {
            Err(CustodyError { code: 40 + self.calls.len() as u32 })
        } else {
            Ok(())
        }
    }
}

impl Custody for Ledger {
    fn lock(&mut self, identity: &[u8; 32], asset: &Asset) -> Result<(), CustodyError> {
        self.calls.push(Call::Lock(*identity, *asset));
        self.answer()
    }

    fn swap(&mut self, leg_a: &Asset, leg_b: &Asset) -> Result<(), CustodyError> {
        self.calls.push(Call::Swap(*leg_a, *leg_b));
        self.answer()
    }
}

fn order(id: u8, offered: u64) -> PrivateSwapOrder {
    PrivateSwapOrder {
        order_id: [id; 32],
        offered_asset: Asset { token_type: [0xA0; 32], amount: offered },
        requested_asset: Asset { token_type: [0xB0; 32], amount: 50 },
        initiator_public_key: [0x11; 32],
        solvency_proof_hash: [0x5A; 32],
        status: OrderStatus::Open,
    }
}

fn intent_for(id: u8) -> Vec<u8> {
    vec![9, 9, id]
}

fn contract(failing: Vec<usize>) -> PrivateSwapContract<CountingVerifier, Ledger> {
    PrivateSwapContract::new(
        CountingVerifier { asked: Cell::new(0) },
        Ledger { calls: vec![], failing },
    )
}

fn lock_of(o: &PrivateSwapOrder) -> Call {
    Call::Lock(o.initiator_public_key, o.offered_asset)
}

fn swap_of(o: &PrivateSwapOrder) -> Call {
    Call::Swap(o.offered_asset, o.requested_asset)
}

#[test]
fn new_contract_has_no_orders() {
    let c = contract(vec![]);
    assert!(c.registry().is_empty());
    assert!(c.custody().calls.is_empty());
    assert_eq!(c.proof_verifier().asked.get(), 0);
}

#[test]
fn place_order_registers_an_open_order_and_locks_its_asset() {
    let mut c = contract(vec![]);
    assert_eq!(c.place_order(order(1, 100), GOOD_SOLVENCY.to_vec()), Ok(()));
    assert_eq!(c.registry().get(&[1; 32]), Ok(&order(1, 100)));
    assert_eq!(c.custody().calls, vec![lock_of(&order(1, 100))]);
    assert_eq!(c.proof_verifier().asked.get(), 1);
}

#[test]
fn place_order_refuses_a_non_open_order_before_anything_else() {
    let mut c = contract(vec![]);
    for status in [OrderStatus::Accepted, OrderStatus::Cancelled] {
        let submitted = PrivateSwapOrder { status, ..order(1, 100) };
        assert_eq!(
            c.place_order(submitted, GOOD_SOLVENCY.to_vec()),
            Err(SwapError::InvalidInitialState)
        );
    }
    assert!(c.registry().is_empty());
    assert!(c.custody().calls.is_empty());
    assert_eq!(c.proof_verifier().asked.get(), 0);
}

#[test]
fn place_order_with_an_empty_proof_is_rejected() {
    let mut c = contract(vec![]);
    assert_eq!(c.place_order(order(1, 100), vec![]), Err(SwapError::ProofVerificationFailed));
    assert!(!c.registry().contains(&[1; 32]));
    assert_eq!(c.registry().len(), 0);
    assert!(c.custody().calls.is_empty());
}

#[test]
fn rejected_placement_can_be_repeated_with_a_valid_proof() {
    let mut c = contract(vec![]);
    assert_eq!(
        c.place_order(order(1, 100), vec![3, 2, 1]),
        Err(SwapError::ProofVerificationFailed)
    );
    assert_eq!(c.place_order(order(1, 100), GOOD_SOLVENCY.to_vec()), Ok(()));
    assert_eq!(c.registry().get(&[1; 32]), Ok(&order(1, 100)));
    assert_eq!(c.proof_verifier().asked.get(), 2);
}

#[test]
fn second_placement_under_the_same_id_is_a_duplicate() {
    let mut c = contract(vec![]);
    assert_eq!(c.place_order(order(1, 100), GOOD_SOLVENCY.to_vec()), Ok(()));
    assert_eq!(
        c.place_order(order(1, 100), GOOD_SOLVENCY.to_vec()),
        Err(SwapError::DuplicateOrderId)
    );
    assert_eq!(
        c.place_order(order(1, 777), GOOD_SOLVENCY.to_vec()),
        Err(SwapError::DuplicateOrderId)
    );
    assert_eq!(c.place_order(order(1, 777), vec![]), Err(SwapError::DuplicateOrderId));
    assert_eq!(c.registry().get(&[1; 32]), Ok(&order(1, 100)));
    assert_eq!(c.registry().len(), 1);
    assert_eq!(c.custody().calls, vec![lock_of(&order(1, 100))]);
    assert_eq!(c.proof_verifier().asked.get(), 1);
}

#[test]
fn duplicate_is_reported_even_after_the_first_order_was_accepted() {
    let mut c = contract(vec![]);
    assert_eq!(c.place_order(order(1, 100), GOOD_SOLVENCY.to_vec()), Ok(()));
    assert_eq!(c.accept_order([1; 32], intent_for(1)), Ok(()));
    assert_eq!(
        c.place_order(order(1, 100), GOOD_SOLVENCY.to_vec()),
        Err(SwapError::DuplicateOrderId)
    );
    assert_eq!(c.registry().get(&[1; 32]).unwrap().status, OrderStatus::Accepted);
}

#[test]
fn failed_lock_rolls_the_placement_back() {
    let mut c = contract(vec![1]);
    assert_eq!(
        c.place_order(order(1, 100), GOOD_SOLVENCY.to_vec()),
        Err(SwapError::CustodyError(CustodyError { code: 41 }))
    );
    assert!(c.registry().is_empty());
    assert!(!c.registry().contains(&[1; 32]));
    assert_eq!(c.custody().calls, vec![lock_of(&order(1, 100))]);

    assert_eq!(c.place_order(order(1, 100), GOOD_SOLVENCY.to_vec()), Ok(()));
    assert_eq!(c.registry().get(&[1; 32]), Ok(&order(1, 100)));
    assert_eq!(c.custody().calls.len(), 2);
}

#[test]
fn failed_lock_leaves_earlier_orders_alone() {
    let mut c = contract(vec![2]);
    assert_eq!(c.place_order(order(1, 100), GOOD_SOLVENCY.to_vec()), Ok(()));
    assert_eq!(
        c.place_order(order(2, 200), GOOD_SOLVENCY.to_vec()),
        Err(SwapError::CustodyError(CustodyError { code: 42 }))
    );
    assert_eq!(c.registry().len(), 1);
    assert_eq!(c.registry().get(&[1; 32]), Ok(&order(1, 100)));
    assert_eq!(c.registry().get(&[2; 32]), Err(SwapError::OrderNotFound));
}

#[test]
fn accept_order_on_an_unknown_id_is_not_found() {
    let mut c = contract(vec![]);
    assert_eq!(c.accept_order([1; 32], intent_for(1)), Err(SwapError::OrderNotFound));
    assert_eq!(c.place_order(order(1, 100), GOOD_SOLVENCY.to_vec()), Ok(()));
    assert_eq!(c.accept_order([2; 32], intent_for(2)), Err(SwapError::OrderNotFound));
    assert_eq!(c.registry().get(&[1; 32]), Ok(&order(1, 100)));
    assert_eq!(c.custody().calls, vec![lock_of(&order(1, 100))]);
    assert_eq!(c.proof_verifier().asked.get(), 1);
}

#[test]
fn accept_order_on_an_accepted_order_is_refused_without_custody() {
    let mut c = contract(vec![]);
    assert_eq!(c.place_order(order(1, 100), GOOD_SOLVENCY.to_vec()), Ok(()));
    assert_eq!(c.accept_order([1; 32], intent_for(1)), Ok(()));
    let calls_before = c.custody().calls.clone();
    let asked_before = c.proof_verifier().asked.get();
    assert_eq!(
        c.accept_order([1; 32], intent_for(1)),
        Err(SwapError::InvalidStateTransition {
            current: OrderStatus::Accepted,
            attempted: OrderStatus::Accepted,
        })
    );
    assert_eq!(c.custody().calls, calls_before);
    assert_eq!(c.proof_verifier().asked.get(), asked_before);
    assert_eq!(c.registry().get(&[1; 32]).unwrap().status, OrderStatus::Accepted);
}

#[test]
fn accept_order_on_a_cancelled_order_is_refused_without_custody() {
    let mut registry = OrderRegistry::new();
    assert_eq!(registry.insert(order(1, 100)), Ok(()));
    assert_eq!(registry.update_status(&[1; 32], OrderStatus::Cancelled), Ok(()));
    let mut c = PrivateSwapContract::with_registry(
        registry,
        CountingVerifier { asked: Cell::new(0) },
        Ledger { calls: vec![], failing: vec![] },
    );
    assert_eq!(
        c.accept_order([1; 32], intent_for(1)),
        Err(SwapError::InvalidStateTransition {
            current: OrderStatus::Cancelled,
            attempted: OrderStatus::Accepted,
        })
    );
    assert!(c.custody().calls.is_empty());
    assert_eq!(c.proof_verifier().asked.get(), 0);
    assert_eq!(c.registry().get(&[1; 32]).unwrap().status, OrderStatus::Cancelled);
}

#[test]
fn accept_order_with_a_proof_for_another_order_is_rejected() {
    let mut c = contract(vec![]);
    assert_eq!(c.place_order(order(1, 100), GOOD_SOLVENCY.to_vec()), Ok(()));
    assert_eq!(c.place_order(order(2, 200), GOOD_SOLVENCY.to_vec()), Ok(()));
    assert_eq!(
        c.accept_order([1; 32], intent_for(2)),
        Err(SwapError::ProofVerificationFailed)
    );
    assert_eq!(c.registry().get(&[1; 32]), Ok(&order(1, 100)));
    assert_eq!(c.registry().get(&[2; 32]), Ok(&order(2, 200)));
    assert_eq!(c.custody().calls, vec![lock_of(&order(1, 100)), lock_of(&order(2, 200))]);
}

#[test]
fn failed_swap_leaves_the_order_open_for_a_retry() {
    let mut c = contract(vec![2]);
    assert_eq!(c.place_order(order(1, 100), GOOD_SOLVENCY.to_vec()), Ok(()));
    assert_eq!(c.accept_order([1; 32], intent_for(1)), Err(SwapError::SwapExecutionFailed));
    assert_eq!(c.registry().get(&[1; 32]), Ok(&order(1, 100)));
    assert_eq!(c.custody().calls, vec![lock_of(&order(1, 100)), swap_of(&order(1, 100))]);

    assert_eq!(c.accept_order([1; 32], intent_for(1)), Ok(()));
    assert_eq!(c.registry().get(&[1; 32]).unwrap().status, OrderStatus::Accepted);
    assert_eq!(c.custody().calls.len(), 3);
}

#[test]
fn of_two_acceptors_exactly_one_wins_and_assets_move_once() {
    let mut c = contract(vec![]);
    assert_eq!(c.place_order(order(1, 100), GOOD_SOLVENCY.to_vec()), Ok(()));
    let first = c.accept_order([1; 32], intent_for(1));
    let second = c.accept_order([1; 32], intent_for(1));
    assert_eq!(first, Ok(()));
    assert_eq!(
        second,
        Err(SwapError::InvalidStateTransition {
            current: OrderStatus::Accepted,
            attempted: OrderStatus::Accepted,
        })
    );
    let swaps = c.custody().calls.iter().filter(|call| matches!(call, Call::Swap(..))).count();
    assert_eq!(swaps, 1);
    assert_eq!(c.registry().get(&[1; 32]).unwrap().status, OrderStatus::Accepted);
}

#[test]
fn accepting_one_order_leaves_the_others_open() {
    let mut c = contract(vec![]);
    for id in 1..=3u8 {
        assert_eq!(c.place_order(order(id, 100 * id as u64), GOOD_SOLVENCY.to_vec()), Ok(()));
    }
    assert_eq!(c.accept_order([2; 32], intent_for(2)), Ok(()));
    assert_eq!(c.registry().get(&[1; 32]), Ok(&order(1, 100)));
    assert_eq!(
        c.registry().get(&[2; 32]),
        Ok(&PrivateSwapOrder { status: OrderStatus::Accepted, ..order(2, 200) })
    );
    assert_eq!(c.registry().get(&[3; 32]), Ok(&order(3, 300)));
    assert_eq!(c.custody().calls.last(), Some(&swap_of(&order(2, 200))));
    assert_eq!(c.registry().len(), 3);
}

#[test]
fn every_call_verifies_its_proof_anew() {
    let mut c = contract(vec![2]);
    assert_eq!(c.place_order(order(1, 100), GOOD_SOLVENCY.to_vec()), Ok(()));
    assert_eq!(c.accept_order([1; 32], intent_for(1)), Err(SwapError::SwapExecutionFailed));
    assert_eq!(c.accept_order([1; 32], vec![]), Err(SwapError::ProofVerificationFailed));
    assert_eq!(c.accept_order([1; 32], intent_for(1)), Ok(()));
    assert_eq!(c.proof_verifier().asked.get(), 4);
}
