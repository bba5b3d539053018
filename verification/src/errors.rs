//! The closed error taxonomy of the library.
//!
//! Configuration, encoding, transport and forwarding-semantic failures each
//! get their own variant, so a caller can always tell where a failure arose.
use vstd::prelude::*;

verus! {

/// Every failure the library can report.
///
/// Transport failures surfaced by the agent ([`Error::Agent`]) are kept
/// distinct from a failure the wallet itself reported for a forwarded call,
/// which arrives as [`Error::Generic`] carrying the wallet's exact message.
#[derive(Debug)]
pub enum Error {
    /// Identity missing from the json
    InvalidOrMissingAccountInJson,
    /// A principal error
    Principal(String),
    /// Standard IO error
    Io(String),
    /// Serde json error
    Json(String),
    /// Agent (transport) error
    Agent(String),
    /// Identity error
    Ident(String),
    /// Missing configuration directory
    MissingConfig,
    /// Candid codec error
    Candid(String),
    /// Generic error as a String
    Generic(String),
    /// Percentage error
    MustBeAPercentage(),
    /// Invalid memory size error
    InvalidMemorySize(u64),
}

impl From<String> for Error {
    /// A bare textual failure, such as the message a wallet reports for a
    /// forwarded call, becomes [`Error::Generic`] carrying that exact text.
    fn from(s: String) -> (r: Error) {
        Error::Generic(s)
    }
}

impl vstd::std_specs::convert::FromSpecImpl<String> for Error {
    open spec fn obeys_from_spec() -> bool {
        true
    }

    open spec fn from_spec(s: String) -> Error {
        Error::Generic(s)
    }
}

} // verus!
