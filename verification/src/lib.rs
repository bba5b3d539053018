//! Test helpers for driving canister lifecycles through a cycle wallet.
//!
//! The library prepares every payload of the wallet call-forwarding protocol
//! as plain bytes with an exact contract; an unverified shell performs the
//! actual network calls and hands the reply bytes back for decoding.
use vstd::prelude::*;

pub mod canister;
pub mod codec;
pub mod errors;
pub mod ledger;
pub mod principal;

pub use canister::management::Management;
pub use canister::wallet::Wallet;
pub use canister::Canister;
pub use errors::Error;
pub use principal::Principal;

verus! {

/// Default cycle budget attached to a ledger canister creation.
pub const DEFAULT_LEDGER_CYCLES: u64 = 1_000_000_000_000;

} // verus!
