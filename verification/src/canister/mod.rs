//! Canister handles for test cases.
//!
//! A handle pairs a canister's address with a compile-time role tag. The tag
//! is a zero-sized marker erased at construction: wallet-only operations are
//! implemented only for the wallet specialization and management-only
//! operations only for the management specialization, so misuse is a compile
//! error rather than a runtime check.
use vstd::prelude::*;

use crate::principal::Principal;

pub mod management;
pub mod wallet;

verus! {

/// A prepared but unsubmitted call: target address, method name and the
/// already-encoded argument bytes. It is handed to the transport shell, or
/// repackaged by the wallet's call-forwarding protocol.
#[derive(Debug)]
pub struct CallDescriptor {
    /// The canister the call is addressed to.
    pub canister: Principal,
    /// The method to invoke on it.
    pub method_name: String,
    /// The encoded argument bytes.
    pub args: Vec<u8>,
}

/// Represent a canister in a test case: an address plus a role tag.
#[verifier::reject_recursive_types(T)]
pub struct Canister<T> {
    id: Principal,
    role: core::marker::PhantomData<T>,
}

impl<T> View for Canister<T> {
    type V = Seq<u8>;

    closed spec fn view(&self) -> Seq<u8> {
        self.id@
    }
}

impl<T> Canister<T> {
    /// Create a new canister handle with a given address.
    pub fn new(id: Principal) -> (r: Self)
        ensures
            r@ == id@,
    {
        Canister { id, role: core::marker::PhantomData }
    }

    /// The address of the canister.
    pub fn principal(&self) -> (r: &Principal)
        ensures
            r@ == self@,
    {
        &self.id
    }

    /// Prepare an update call to the canister. Absent arguments stand for an
    /// empty argument blob.
    pub fn update(&self, method_name: &str, args: Option<Vec<u8>>) -> (r: CallDescriptor)
        ensures
            r.canister@ == self@,
            r.method_name@ == method_name@,
            args matches Some(a) ==> r.args@ == a@,
            args is None ==> r.args@ == Seq::<u8>::empty(),
    {
        let arg_bytes: Vec<u8> = match args {
            Some(a) => a,
            None => Vec::new(),
        };
        CallDescriptor {
            canister: self.id.clone(),
            method_name: method_name.to_owned(),
            args: arg_bytes,
        }
    }

    /// Prepare a query call to the canister. Queries never need cycles, so
    /// they are submitted directly and bypass forwarding.
    pub fn query(&self, method_name: &str) -> (r: CallDescriptor)
        ensures
            r.canister@ == self@,
            r.method_name@ == method_name@,
            r.args@ == Seq::<u8>::empty(),
    {
        CallDescriptor {
            canister: self.id.clone(),
            method_name: method_name.to_owned(),
            args: Vec::new(),
        }
    }
}

} // verus!
