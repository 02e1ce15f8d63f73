//! Confidential peer-to-peer asset swaps: the order lifecycle and the
//! proof-gated protocol that decides which transitions are admissible.
//!
//! Proofs arrive as opaque bytes and are judged by a pluggable
//! [`ProofVerifier`]; assets are moved by a pluggable [`Custody`]. Everything
//! in between is verified: the status state machine, the order registry with
//! its uniqueness invariant, and the two operations that sequence
//! verification, registry mutation and custody into one atomic unit.

pub mod asset;
pub mod contract;
pub mod custody;
pub mod error;
pub mod gate;
pub mod lifecycle;
pub mod order;
pub mod registry;
pub mod status;

pub use asset::{same_bytes, Asset, Identity, OrderId};
pub use contract::PrivateSwapContract;
pub use custody::{settle_acceptance, settle_placement, Custody};
pub use error::{CustodyError, SwapError};
pub use gate::{
    admit_placement, authorize_acceptance, check_acceptance, check_placement, LockRequest,
    ProofVerifier, SwapRequest,
};
pub use order::PrivateSwapOrder;
pub use registry::OrderRegistry;
pub use status::OrderStatus;
