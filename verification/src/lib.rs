//! A single-owner, delayed-execution authorization gate.
//!
//! An arbitrary call (target, value, function signature, payload) may run only
//! after it has been queued, has waited out a mandatory minimum delay, and is
//! executed before a grace-period deadline elapses. The state machine
//! (queue / execute / cancel per transaction identifier), the ownership guard
//! and the timing policy are verified; the identifier itself is a Keccak-256
//! digest of the descriptor's canonical ABI encoding, computed by outside
//! crates behind narrow trusted wrappers.

pub mod addr;
pub mod bytes;
pub mod ident;
pub mod laws;
pub mod store;
pub mod timelock;
pub mod uint256;

pub use addr::Address;
pub use ident::TxId;
pub use timelock::CallPlan;
pub use timelock::CancelEvent;
pub use timelock::ExecuteEvent;
pub use timelock::QueueEvent;
pub use timelock::TimeLock;
pub use timelock::TimeLockError;
pub use timelock::execute_outcome;
pub use timelock::GRACE_PERIOD;
pub use timelock::MAX_DELAY;
pub use timelock::MIN_DELAY;
pub use uint256::Uint256;
