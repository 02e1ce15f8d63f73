//! Every way an operation can fail. All failures are reported to the caller;
//! none is fatal and none leaves a partial change behind.

use vstd::prelude::*;
use crate::status::OrderStatus;

verus! {

/// A failure reported by the custody collaborator. The code is the
/// collaborator's own; it is carried through, never interpreted.
#[derive(Clone, Copy, Debug, PartialEq, Eq, Structural)]
pub struct CustodyError {
    pub code: u32,
}

/// Why an operation was refused.
#[derive(Clone, Copy, Debug, PartialEq, Eq, Structural)]
pub enum SwapError {
    /// The submitted proof did not verify.
    ProofVerificationFailed,
    /// No order is registered under the given id.
    OrderNotFound,
    /// An order is already registered under the given id.
    DuplicateOrderId,
    /// The order is in state `current`, from which `attempted` cannot be
    /// reached.
    InvalidStateTransition { current: OrderStatus, attempted: OrderStatus },
    /// A new order was submitted in a state other than `Open`.
    InvalidInitialState,
    /// Custody could not execute the swap; the order stays `Open`.
    SwapExecutionFailed,
    /// Custody could not lock the offered asset.
    CustodyError(CustodyError),
}

impl SwapError {
    /// Failures found by looking at the registry alone, before any proof is
    /// verified or custody is asked for anything.
    pub open spec fn is_validation_failure(self) -> bool {
        self is OrderNotFound || self is DuplicateOrderId || self is InvalidStateTransition
            || self is InvalidInitialState
    }

    /// The text of `message`, by variant.
    pub open spec fn message_text(self) -> Seq<char> {
        match self {
            SwapError::ProofVerificationFailed => "Invalid proof provided."@,
            SwapError::OrderNotFound => "Order not found."@,
            SwapError::DuplicateOrderId => "Order id already in use."@,
            SwapError::InvalidStateTransition { .. } => "Order is not open."@,
            SwapError::InvalidInitialState => "New orders must be open."@,
            SwapError::SwapExecutionFailed => "Swap execution failed."@,
            SwapError::CustodyError(_) => "Custody refused the request."@,
        }
    }

    /// A short description of the failure for the caller.
    pub fn message(&self) -> (text: &'static str)
        ensures
            text@ == self.message_text(),
    {
        match self {
            SwapError::ProofVerificationFailed => "Invalid proof provided.",
            SwapError::OrderNotFound => "Order not found.",
            SwapError::DuplicateOrderId => "Order id already in use.",
            SwapError::InvalidStateTransition { .. } => "Order is not open.",
            SwapError::InvalidInitialState => "New orders must be open.",
            SwapError::SwapExecutionFailed => "Swap execution failed.",
            SwapError::CustodyError(_) => "Custody refused the request.",
        }
    }

    /// Whether this failure was found by validation alone.
    pub fn found_by_validation(&self) -> (validation: bool)
        ensures
            validation == self.is_validation_failure(),
    {
        match self {
            SwapError::OrderNotFound => true,
            SwapError::DuplicateOrderId => true,
            SwapError::InvalidStateTransition { .. } => true,
            SwapError::InvalidInitialState => true,
            SwapError::ProofVerificationFailed => false,
            SwapError::SwapExecutionFailed => false,
            SwapError::CustodyError(_) => false,
        }
    }
}

} // verus!
