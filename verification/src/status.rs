//! The lifecycle of an order: `Open` is the only initial state, `Accepted`
//! and `Cancelled` are terminal.

use vstd::prelude::*;

verus! {

/// Where an order stands in its lifecycle.
#[derive(Clone, Copy, Debug, PartialEq, Eq, Structural)]
pub enum OrderStatus {
    Open,
    Accepted,
    Cancelled,
}

impl OrderStatus {
    /// An order in a terminal state can never change again.
    pub open spec fn terminal(self) -> bool {
        self is Accepted || self is Cancelled
    }

    /// The transition relation: `Open -> Accepted` and `Open -> Cancelled`,
    /// and nothing else.
    pub open spec fn permits(self, next: OrderStatus) -> bool {
        self is Open && next.terminal()
    }

    /// Whether this state is terminal.
    pub fn is_terminal(&self) -> (terminal: bool)
        ensures
            terminal == self.terminal(),
    {
        match self {
            OrderStatus::Open => false,
            OrderStatus::Accepted => true,
            OrderStatus::Cancelled => true,
        }
    }

    /// Whether the state machine allows moving from this state to `next`.
    pub fn can_transition_to(&self, next: OrderStatus) -> (allowed: bool)
        ensures
            allowed == self.permits(next),
    {
        match self {
            OrderStatus::Open => next.is_terminal(),
            OrderStatus::Accepted => false,
            OrderStatus::Cancelled => false,
        }
    }
}

} // verus!
