//! Canister addresses.
//!
//! A principal is the fixed-length binary identifier of a canister or a user.
//! The library holds it as its own plain-byte type so that every payload
//! built from it can be specified exactly; only parsing the textual form is
//! delegated to the platform's own codec.
use vstd::prelude::*;

use crate::errors::Error;

verus! {

/// The longest a principal's binary form can be, in bytes.
pub const MAX_PRINCIPAL_LEN: usize = 29;

/// A well-formed principal holds at most [`MAX_PRINCIPAL_LEN`] bytes.
pub open spec fn valid_principal(s: Seq<u8>) -> bool {
    s.len() <= MAX_PRINCIPAL_LEN
}

/// An addressable endpoint's binary identifier.
#[derive(Debug)]
pub struct Principal {
    bytes: Vec<u8>,
}

impl Clone for Principal {
    fn clone(&self) -> (r: Self)
        ensures
            r@ == self@,
    {
        Principal { bytes: self.bytes.clone() }
    }
}

impl View for Principal {
    type V = Seq<u8>;

    closed spec fn view(&self) -> Seq<u8> {
        self.bytes@
    }
}

/// What `candid::Principal::from_text` yields on a given text: the decoded
/// binary identifier, or nothing when the text is rejected. The result is a
/// function of the characters alone.
pub uninterp spec fn principal_text_bytes(s: Seq<char>) -> Option<Seq<u8>>;

/// Relies on `candid::Principal::from_text`: base32/CRC decoding of the
/// textual form, depending on the input text alone; a decoded principal is
/// never longer than 29 bytes. On failure the error's text is handed back.
#[verifier::external_body]
fn principal_from_text_raw(text: &str) -> (r: Result<Vec<u8>, String>)
    ensures
        r is Ok <==> principal_text_bytes(text@) is Some,
        r is Ok ==> r->Ok_0@ == principal_text_bytes(text@)->0,
        r is Ok ==> r->Ok_0@.len() <= 29,
{
    match candid::Principal::from_text(text) {
        Ok(p) => Ok(p.as_slice().to_vec()),
        Err(e) => Err(e.to_string()),
    }
}

impl Principal {
    /// Wrap raw identifier bytes; rejected when longer than a principal can be.
    pub fn new(bytes: Vec<u8>) -> (r: Result<Principal, Error>)
        ensures
            bytes@.len() <= MAX_PRINCIPAL_LEN ==> (r matches Ok(p) && p@ == bytes@),
            bytes@.len() > MAX_PRINCIPAL_LEN ==> (r matches Err(e) && e is Principal),
    {
        if bytes.len() <= MAX_PRINCIPAL_LEN {
            Ok(Principal { bytes })
        } else {
            Err(Error::Principal(String::from_str("principal may hold at most 29 bytes")))
        }
    }

    /// The management canister's address: the empty identifier.
    pub fn management_canister() -> (r: Principal)
        ensures
            r@ == Seq::<u8>::empty(),
    {
        Principal { bytes: Vec::new() }
    }

    /// Parse the textual form of a principal.
    pub fn from_text(text: &str) -> (r: Result<Principal, Error>)
        ensures
            r is Ok <==> principal_text_bytes(text@) is Some,
            r matches Ok(p) ==> p@ == principal_text_bytes(text@)->0 && valid_principal(p@),
            r matches Err(e) ==> e is Principal,
    {
        match principal_from_text_raw(text) {
            Ok(bytes) => Ok(Principal { bytes }),
            Err(msg) => Err(Error::Principal(msg)),
        }
    }

    /// The identifier's raw bytes.
    pub fn as_bytes(&self) -> (r: &Vec<u8>)
        ensures
            r@ == self@,
    {
        &self.bytes
    }

    /// Whether this principal is well formed.
    pub fn is_valid(&self) -> (r: bool)
        ensures
            r == valid_principal(self@),
    {
        self.bytes.len() <= MAX_PRINCIPAL_LEN
    }
}

} // verus!
