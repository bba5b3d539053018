//! Functions specific to the wallet.
//!
//! The wallet canister holds cycles on behalf of a user. A call that must
//! spend cycles is not sent to its target directly: it is repackaged as a
//! forward envelope carrying the original target, method, argument bytes and
//! the cycle budget, and submitted to the wallet's own forwarding method.
//! The wallet's reply wraps the inner call's outcome a second time, and the
//! two layers are unwrapped independently, so a transport failure is never
//! confused with a failure the target canister itself reported.
use vstd::prelude::*;

use vstd::utf8::{encode_utf8, valid_utf8};

use crate::canister::{CallDescriptor, Canister};
use crate::codec::{
    lemma_parse_blob_round, lemma_parse_nat64_round, lemma_parse_prefix_round, parse_blob,
    parse_leb, parse_nat64, parse_prefix, parse_principal_val, push_blob, push_byte, push_leb,
    push_nat64le, push_principal_val, push_text, read_blob, read_leb, read_nat64, expect_prefix,
    spec_blob, spec_leb, spec_nat64le, spec_principal_val, spec_text, spec_unit_args,
    string_from_utf8, unit_args,
};
use crate::errors::Error;
use crate::principal::{principal_text_bytes, valid_principal, Principal};

verus! {

/// Role tag of a cycle-holding wallet canister.
pub struct Wallet;

/// The balance result of a wallet balance call.
#[derive(Debug, Clone, Copy, PartialEq, Eq, Structural)]
pub struct BalanceResult {
    /// The wallet's cycle balance.
    pub amount: u64,
}

/// The success payload of a forwarded call: the bytes the target returned.
#[derive(Debug)]
pub struct CallResult {
    /// The returned bytes, still encoded.
    pub payload: Vec<u8>,
}

/// The success payload of a canister-creation call.
#[derive(Debug)]
pub struct CreateResult {
    /// The address of the canister that was created.
    pub canister_id: Principal,
}

/// The wallet-level wrapper around an unsent call: the original target,
/// method and argument bytes, plus the attached cycle amount.
#[derive(Debug)]
pub struct CallForwardArgs {
    /// The canister the inner call is addressed to (never the wallet itself).
    pub canister: Principal,
    /// The method of the inner call.
    pub method_name: String,
    /// The encoded argument bytes of the inner call.
    pub args: Vec<u8>,
    /// The cycle budget attached to the inner call.
    pub cycles: u64,
}

/// Header and type table of a forward envelope:
/// `record { args : blob; cycles : nat64; method_name : text; canister : principal }`.
pub open spec fn spec_envelope_prefix() -> Seq<u8> {
    seq![0x44u8, 0x49u8, 0x44u8, 0x4cu8, 0x02u8, 0x6cu8, 0x04u8, 0xddu8, 0x9au8, 0xd2u8, 0x83u8, 0x04u8, 0x01u8, 0x8du8, 0xaau8, 0xcdu8, 0x94u8, 0x08u8, 0x78u8, 0xa9u8, 0x8fu8, 0x98u8, 0xecu8, 0x08u8, 0x71u8, 0xa7u8, 0xc4u8, 0xd2u8, 0xe6u8, 0x09u8, 0x68u8, 0x6du8, 0x7bu8, 0x01u8, 0x00u8]
}

fn envelope_prefix() -> (v: Vec<u8>)
    ensures
        v@ == spec_envelope_prefix(),
{
    let mut v: Vec<u8> = Vec::new();
    v.push(0x44);
    v.push(0x49);
    v.push(0x44);
    v.push(0x4c);
    v.push(0x02);
    v.push(0x6c);
    v.push(0x04);
    v.push(0xdd);
    v.push(0x9a);
    v.push(0xd2);
    v.push(0x83);
    v.push(0x04);
    v.push(0x01);
    v.push(0x8d);
    v.push(0xaa);
    v.push(0xcd);
    v.push(0x94);
    v.push(0x08);
    v.push(0x78);
    v.push(0xa9);
    v.push(0x8f);
    v.push(0x98);
    v.push(0xec);
    v.push(0x08);
    v.push(0x71);
    v.push(0xa7);
    v.push(0xc4);
    v.push(0xd2);
    v.push(0xe6);
    v.push(0x09);
    v.push(0x68);
    v.push(0x6d);
    v.push(0x7b);
    v.push(0x01);
    v.push(0x00);
    proof {
        assert(v@ =~= spec_envelope_prefix());
    }
    v
}

/// Header and type table of a canister-creation argument:
/// `record { cycles : nat64; settings : record { freezing_threshold : opt nat64;
/// controllers : opt vec principal; memory_allocation : opt nat64;
/// compute_allocation : opt nat8 } }`.
pub open spec fn spec_create_args_prefix() -> Seq<u8> {
    seq![0x44u8, 0x49u8, 0x44u8, 0x4cu8, 0x06u8, 0x6cu8, 0x02u8, 0x8du8, 0xaau8, 0xcdu8, 0x94u8, 0x08u8, 0x78u8, 0xe3u8, 0xf9u8, 0xf5u8, 0xd9u8, 0x08u8, 0x01u8, 0x6cu8, 0x04u8, 0xc0u8, 0xcfu8, 0xf2u8, 0x71u8, 0x02u8, 0xd7u8, 0xe0u8, 0x9bu8, 0x90u8, 0x02u8, 0x03u8, 0xdeu8, 0xebu8, 0xb5u8, 0xa9u8, 0x0eu8, 0x02u8, 0xa8u8, 0x82u8, 0xacu8, 0xc6u8, 0x0fu8, 0x05u8, 0x6eu8, 0x78u8, 0x6eu8, 0x04u8, 0x6du8, 0x68u8, 0x6eu8, 0x7bu8, 0x01u8, 0x00u8]
}

fn create_args_prefix() -> (v: Vec<u8>)
    ensures
        v@ == spec_create_args_prefix(),
{
    let mut v: Vec<u8> = Vec::new();
    v.push(0x44);
    v.push(0x49);
    v.push(0x44);
    v.push(0x4c);
    v.push(0x06);
    v.push(0x6c);
    v.push(0x02);
    v.push(0x8d);
    v.push(0xaa);
    v.push(0xcd);
    v.push(0x94);
    v.push(0x08);
    v.push(0x78);
    v.push(0xe3);
    v.push(0xf9);
    v.push(0xf5);
    v.push(0xd9);
    v.push(0x08);
    v.push(0x01);
    v.push(0x6c);
    v.push(0x04);
    v.push(0xc0);
    v.push(0xcf);
    v.push(0xf2);
    v.push(0x71);
    v.push(0x02);
    v.push(0xd7);
    v.push(0xe0);
    v.push(0x9b);
    v.push(0x90);
    v.push(0x02);
    v.push(0x03);
    v.push(0xde);
    v.push(0xeb);
    v.push(0xb5);
    v.push(0xa9);
    v.push(0x0e);
    v.push(0x02);
    v.push(0xa8);
    v.push(0x82);
    v.push(0xac);
    v.push(0xc6);
    v.push(0x0f);
    v.push(0x05);
    v.push(0x6e);
    v.push(0x78);
    v.push(0x6e);
    v.push(0x04);
    v.push(0x6d);
    v.push(0x68);
    v.push(0x6e);
    v.push(0x7b);
    v.push(0x01);
    v.push(0x00);
    proof {
        assert(v@ =~= spec_create_args_prefix());
    }
    v
}

/// Header and type table of a forward reply:
/// `variant { Ok : record { return : blob }; Err : text }`.
pub open spec fn spec_forward_reply_prefix() -> Seq<u8> {
    seq![0x44u8, 0x49u8, 0x44u8, 0x4cu8, 0x03u8, 0x6bu8, 0x02u8, 0xbcu8, 0x8au8, 0x01u8, 0x01u8, 0xc5u8, 0xfeu8, 0xd2u8, 0x01u8, 0x71u8, 0x6cu8, 0x01u8, 0xb0u8, 0xc9u8, 0xb6u8, 0x49u8, 0x02u8, 0x6du8, 0x7bu8, 0x01u8, 0x00u8]
}

fn forward_reply_prefix() -> (v: Vec<u8>)
    ensures
        v@ == spec_forward_reply_prefix(),
{
    let mut v: Vec<u8> = Vec::new();
    v.push(0x44);
    v.push(0x49);
    v.push(0x44);
    v.push(0x4c);
    v.push(0x03);
    v.push(0x6b);
    v.push(0x02);
    v.push(0xbc);
    v.push(0x8a);
    v.push(0x01);
    v.push(0x01);
    v.push(0xc5);
    v.push(0xfe);
    v.push(0xd2);
    v.push(0x01);
    v.push(0x71);
    v.push(0x6c);
    v.push(0x01);
    v.push(0xb0);
    v.push(0xc9);
    v.push(0xb6);
    v.push(0x49);
    v.push(0x02);
    v.push(0x6d);
    v.push(0x7b);
    v.push(0x01);
    v.push(0x00);
    proof {
        assert(v@ =~= spec_forward_reply_prefix());
    }
    v
}

/// Header and type table of a canister-creation reply:
/// `variant { Ok : record { canister_id : principal }; Err : text }`.
pub open spec fn spec_create_reply_prefix() -> Seq<u8> {
    seq![0x44u8, 0x49u8, 0x44u8, 0x4cu8, 0x02u8, 0x6bu8, 0x02u8, 0xbcu8, 0x8au8, 0x01u8, 0x01u8, 0xc5u8, 0xfeu8, 0xd2u8, 0x01u8, 0x71u8, 0x6cu8, 0x01u8, 0xb3u8, 0xc4u8, 0xb1u8, 0xf2u8, 0x04u8, 0x68u8, 0x01u8, 0x00u8]
}

fn create_reply_prefix() -> (v: Vec<u8>)
    ensures
        v@ == spec_create_reply_prefix(),
{
    let mut v: Vec<u8> = Vec::new();
    v.push(0x44);
    v.push(0x49);
    v.push(0x44);
    v.push(0x4c);
    v.push(0x02);
    v.push(0x6b);
    v.push(0x02);
    v.push(0xbc);
    v.push(0x8a);
    v.push(0x01);
    v.push(0x01);
    v.push(0xc5);
    v.push(0xfe);
    v.push(0xd2);
    v.push(0x01);
    v.push(0x71);
    v.push(0x6c);
    v.push(0x01);
    v.push(0xb3);
    v.push(0xc4);
    v.push(0xb1);
    v.push(0xf2);
    v.push(0x04);
    v.push(0x68);
    v.push(0x01);
    v.push(0x00);
    proof {
        assert(v@ =~= spec_create_reply_prefix());
    }
    v
}

/// Header and type table of a wallet balance reply:
/// `record { amount : nat64 }`.
pub open spec fn spec_balance_reply_prefix() -> Seq<u8> {
    seq![0x44u8, 0x49u8, 0x44u8, 0x4cu8, 0x01u8, 0x6cu8, 0x01u8, 0xd8u8, 0xa3u8, 0x8cu8, 0xa8u8, 0x0du8, 0x78u8, 0x01u8, 0x00u8]
}

fn balance_reply_prefix() -> (v: Vec<u8>)
    ensures
        v@ == spec_balance_reply_prefix(),
{
    let mut v: Vec<u8> = Vec::new();
    v.push(0x44);
    v.push(0x49);
    v.push(0x44);
    v.push(0x4c);
    v.push(0x01);
    v.push(0x6c);
    v.push(0x01);
    v.push(0xd8);
    v.push(0xa3);
    v.push(0x8c);
    v.push(0xa8);
    v.push(0x0d);
    v.push(0x78);
    v.push(0x01);
    v.push(0x00);
    proof {
        assert(v@ =~= spec_balance_reply_prefix());
    }
    v
}

/// The encoded bytes of a forward envelope.
pub open spec fn spec_encode_envelope(
    canister: Seq<u8>,
    method: Seq<char>,
    args: Seq<u8>,
    cycles: u64,
) -> Seq<u8> {
    spec_envelope_prefix() + spec_blob(args) + spec_nat64le(cycles) + spec_text(method)
        + spec_principal_val(canister)
}

/// Wrap an unsent call into a forward envelope with a cycle budget.
///
/// The envelope carries the descriptor's target, method and argument bytes
/// unchanged, and its cycle field equals the given budget exactly,
/// independent of the target method or arguments.
pub fn forward_envelope(call: CallDescriptor, cycles: u64) -> (env: CallForwardArgs)
    ensures
        env.canister@ == call.canister@,
        env.method_name@ == call.method_name@,
        env.args@ == call.args@,
        env.cycles == cycles,
{
    CallForwardArgs {
        canister: call.canister,
        method_name: call.method_name,
        args: call.args,
        cycles,
    }
}

/// Serialize a forward envelope.
pub fn encode_envelope(env: &CallForwardArgs) -> (out: Vec<u8>)
    ensures
        out@ == spec_encode_envelope(env.canister@, env.method_name@, env.args@, env.cycles),
{
    let mut out: Vec<u8> = envelope_prefix();
    push_blob(&mut out, env.args.as_slice());
    push_nat64le(&mut out, env.cycles);
    push_text(&mut out, env.method_name.as_str());
    push_principal_val(&mut out, env.canister.as_bytes().as_slice());
    out
}

/// A forward reply reporting the inner call's success payload.
pub open spec fn spec_fwd_ok(payload: Seq<u8>) -> Seq<u8> {
    spec_forward_reply_prefix() + seq![0u8] + spec_blob(payload)
}

/// A forward reply reporting the inner call's textual failure.
pub open spec fn spec_fwd_err(msg: Seq<u8>) -> Seq<u8> {
    spec_forward_reply_prefix() + seq![1u8] + spec_blob(msg)
}

/// Decode a forward reply into the inner call's outcome.
pub open spec fn spec_decode_forward(s: Seq<u8>) -> Option<Result<Seq<u8>, Seq<u8>>> {
    match parse_prefix(s, spec_forward_reply_prefix()) {
        Some(r) => match parse_leb(r) {
            Some(t) => if t.0 == 0 {
                match parse_blob(t.1) {
                    Some(u) => if u.1.len() == 0 {
                        Some(Ok(u.0))
                    } else {
                        None
                    },
                    None => None,
                }
            } else if t.0 == 1 {
                match parse_blob(t.1) {
                    Some(u) => if u.1.len() == 0 {
                        Some(Err(u.0))
                    } else {
                        None
                    },
                    None => None,
                }
            } else {
                None
            },
            None => None,
        },
        None => None,
    }
}

/// A reply that reports a success payload decodes to exactly that payload.
pub proof fn lemma_decode_forward_ok(payload: Seq<u8>)
    ensures
        spec_decode_forward(spec_fwd_ok(payload)) == Some(Ok::<Seq<u8>, Seq<u8>>(payload)),
{
    let tail = seq![0u8] + spec_blob(payload);
    assert(spec_fwd_ok(payload) =~= spec_forward_reply_prefix() + tail);
    lemma_parse_prefix_round(spec_forward_reply_prefix(), tail);
    assert(tail[0] == 0u8);
    assert(tail.drop_first() =~= spec_blob(payload) + Seq::<u8>::empty());
    lemma_parse_blob_round(payload, Seq::<u8>::empty());
}

/// A reply that reports a failure decodes to exactly that message, and is
/// never taken for a success.
pub proof fn lemma_decode_forward_err(msg: Seq<u8>)
    ensures
        spec_decode_forward(spec_fwd_err(msg)) == Some(Err::<Seq<u8>, Seq<u8>>(msg)),
{
    let tail = seq![1u8] + spec_blob(msg);
    assert(spec_fwd_err(msg) =~= spec_forward_reply_prefix() + tail);
    lemma_parse_prefix_round(spec_forward_reply_prefix(), tail);
    assert(tail[0] == 1u8);
    assert(tail.drop_first() =~= spec_blob(msg) + Seq::<u8>::empty());
    lemma_parse_blob_round(msg, Seq::<u8>::empty());
}

/// Unwrap a forward reply: a reported failure surfaces as [`Error::Generic`]
/// carrying the wallet's exact message, never as a success; anything that is
/// not a well-formed forward reply is a codec failure.
pub fn call_forward_reply(data: &Vec<u8>) -> (r: Result<Vec<u8>, Error>)
    ensures
        spec_decode_forward(data@) matches Some(Ok(p)) ==> (r matches Ok(v) && v@ == p),
        spec_decode_forward(data@) matches Some(Err(m)) ==> (valid_utf8(m) ==> (r matches Err(e)
            && e matches Error::Generic(t) && encode_utf8(t@) == m)),
        spec_decode_forward(data@) matches Some(Err(m)) ==> (!valid_utf8(m) ==> (r matches Err(e)
            && e is Candid)),
        spec_decode_forward(data@) is None ==> (r matches Err(e) && e is Candid),
{
    proof {
        assert(data@.skip(0) =~= data@);
    }
    let prefix: Vec<u8> = forward_reply_prefix();
    let pos: usize = match expect_prefix(data, 0, &prefix) {
        Some(p) => p,
        None => {
            return Err(Error::Candid(String::from_str("unrecognized forward reply header")));
        },
    };
    let (idx, pos2): (u64, usize) = match read_leb(data, pos) {
        Some(t) => t,
        None => {
            return Err(Error::Candid(String::from_str("truncated forward reply")));
        },
    };
    if idx == 0 {
        match read_blob(data, pos2) {
            Some((payload, pos3)) => {
                if pos3 == data.len() {
                    Ok(payload)
                } else {
                    Err(Error::Candid(String::from_str("trailing bytes in forward reply")))
                }
            },
            None => Err(Error::Candid(String::from_str("truncated forward reply payload"))),
        }
    } else if idx == 1 {
        match read_blob(data, pos2) {
            Some((msg, pos3)) => {
                if pos3 == data.len() {
                    match string_from_utf8(msg) {
                        Some(text) => Err(Error::Generic(text)),
                        None => Err(
                            Error::Candid(String::from_str("forward error is not valid text")),
                        ),
                    }
                } else {
                    Err(Error::Candid(String::from_str("trailing bytes in forward reply")))
                }
            },
            None => Err(Error::Candid(String::from_str("truncated forward reply message"))),
        }
    } else {
        Err(Error::Candid(String::from_str("unknown forward reply variant")))
    }
}

/// A wallet balance reply carrying the balance.
pub open spec fn spec_balance_reply(amount: u64) -> Seq<u8> {
    spec_balance_reply_prefix() + spec_nat64le(amount)
}

/// Decode a wallet balance reply.
pub open spec fn spec_decode_balance(s: Seq<u8>) -> Option<u64> {
    match parse_prefix(s, spec_balance_reply_prefix()) {
        Some(r) => match parse_nat64(r) {
            Some(t) => if t.1.len() == 0 {
                Some(t.0)
            } else {
                None
            },
            None => None,
        },
        None => None,
    }
}

/// A balance reply decodes back to the balance it encodes.
pub proof fn lemma_decode_balance(amount: u64)
    ensures
        spec_decode_balance(spec_balance_reply(amount)) == Some(amount),
{
    lemma_parse_prefix_round(spec_balance_reply_prefix(), spec_nat64le(amount));
    lemma_parse_nat64_round(amount, Seq::<u8>::empty());
    assert(spec_nat64le(amount) + Seq::<u8>::empty() =~= spec_nat64le(amount));
}

/// Decode the reply of a wallet balance query.
pub fn balance_reply(data: &Vec<u8>) -> (r: Result<BalanceResult, Error>)
    ensures
        spec_decode_balance(data@) matches Some(x) ==> (r matches Ok(b) && b.amount == x),
        spec_decode_balance(data@) is None ==> (r matches Err(e) && e is Candid),
{
    proof {
        assert(data@.skip(0) =~= data@);
    }
    let prefix: Vec<u8> = balance_reply_prefix();
    let pos: usize = match expect_prefix(data, 0, &prefix) {
        Some(p) => p,
        None => {
            return Err(Error::Candid(String::from_str("unrecognized balance reply header")));
        },
    };
    match read_nat64(data, pos) {
        Some((amount, pos2)) => {
            if pos2 == data.len() {
                Ok(BalanceResult { amount })
            } else {
                Err(Error::Candid(String::from_str("trailing bytes in balance reply")))
            }
        },
        None => Err(Error::Candid(String::from_str("truncated balance reply"))),
    }
}

/// Decode a canister-creation reply into the created address or the
/// reported failure.
pub open spec fn spec_decode_create(s: Seq<u8>) -> Option<Result<Seq<u8>, Seq<u8>>> {
    match parse_prefix(s, spec_create_reply_prefix()) {
        Some(r) => match parse_leb(r) {
            Some(t) => if t.0 == 0 {
                match parse_principal_val(t.1) {
                    Some(u) => if u.1.len() == 0 {
                        Some(Ok(u.0))
                    } else {
                        None
                    },
                    None => None,
                }
            } else if t.0 == 1 {
                match parse_blob(t.1) {
                    Some(u) => if u.1.len() == 0 {
                        Some(Err(u.0))
                    } else {
                        None
                    },
                    None => None,
                }
            } else {
                None
            },
            None => None,
        },
        None => None,
    }
}

/// Decode the reply of a canister-creation call.
pub fn create_canister_reply(data: &Vec<u8>) -> (r: Result<Principal, Error>)
    ensures
        spec_decode_create(data@) matches Some(Ok(p)) ==> (valid_principal(p) ==> (r matches Ok(
            pr,
        ) && pr@ == p)),
        spec_decode_create(data@) matches Some(Ok(p)) ==> (!valid_principal(p) ==> (r matches Err(
            e,
        ) && e is Principal)),
        spec_decode_create(data@) matches Some(Err(m)) ==> (valid_utf8(m) ==> (r matches Err(e)
            && e matches Error::Generic(t) && encode_utf8(t@) == m)),
        spec_decode_create(data@) matches Some(Err(m)) ==> (!valid_utf8(m) ==> (r matches Err(e)
            && e is Candid)),
        spec_decode_create(data@) is None ==> (r matches Err(e) && e is Candid),
{
    proof {
        assert(data@.skip(0) =~= data@);
    }
    let prefix: Vec<u8> = create_reply_prefix();
    let pos: usize = match expect_prefix(data, 0, &prefix) {
        Some(p) => p,
        None => {
            return Err(Error::Candid(String::from_str("unrecognized creation reply header")));
        },
    };
    let (idx, pos2): (u64, usize) = match read_leb(data, pos) {
        Some(t) => t,
        None => {
            return Err(Error::Candid(String::from_str("truncated creation reply")));
        },
    };
    if idx == 0 {
        if pos2 < data.len() && data[pos2] == 1u8 {
            proof {
                assert(data@.skip(pos2 as int)[0] == 1u8);
                assert(data@.skip(pos2 as int).drop_first() =~= data@.skip(pos2 as int + 1));
            }
            match read_blob(data, pos2 + 1) {
                Some((bytes, pos3)) => {
                    if pos3 == data.len() {
                        Principal::new(bytes)
                    } else {
                        Err(Error::Candid(String::from_str("trailing bytes in creation reply")))
                    }
                },
                None => Err(Error::Candid(String::from_str("truncated principal in reply"))),
            }
        } else {
            proof {
                if pos2 < data.len() {
                    assert(data@.skip(pos2 as int)[0] != 1u8);
                }
            }
            Err(Error::Candid(String::from_str("malformed principal in reply")))
        }
    } else if idx == 1 {
        match read_blob(data, pos2) {
            Some((msg, pos3)) => {
                if pos3 == data.len() {
                    match string_from_utf8(msg) {
                        Some(text) => Err(Error::Generic(text)),
                        None => Err(
                            Error::Candid(String::from_str("creation error is not valid text")),
                        ),
                    }
                } else {
                    Err(Error::Candid(String::from_str("trailing bytes in creation reply")))
                }
            },
            None => Err(Error::Candid(String::from_str("truncated creation reply message"))),
        }
    } else {
        Err(Error::Candid(String::from_str("unknown creation reply variant")))
    }
}

/// The identifier bytes of each controller, in order.
pub open spec fn spec_principals(ps: Seq<Seq<u8>>) -> Seq<u8>
    decreases ps.len(),
{
    if ps.len() == 0 {
        Seq::<u8>::empty()
    } else {
        spec_principal_val(ps.first()) + spec_principals(ps.drop_first())
    }
}

/// An optional controller list value.
pub open spec fn spec_opt_controllers(ctl: Option<Seq<Seq<u8>>>) -> Seq<u8> {
    match ctl {
        None => seq![0u8],
        Some(ps) => seq![1u8] + spec_leb(ps.len()) + spec_principals(ps),
    }
}

/// The identifier bytes of an optional controller list.
pub open spec fn controllers_view(ctl: &Option<Vec<Principal>>) -> Option<Seq<Seq<u8>>> {
    match ctl {
        Some(v) => Some(v@.map_values(|p: Principal| p@)),
        None => None,
    }
}

/// The encoded argument of a canister-creation call: the cycle amount and
/// settings whose optional tuning fields are all absent but the controllers.
pub open spec fn spec_encode_create_args(cycles: u64, ctl: Option<Seq<Seq<u8>>>) -> Seq<u8> {
    spec_create_args_prefix() + spec_nat64le(cycles) + seq![0u8] + spec_opt_controllers(ctl)
        + seq![0u8] + seq![0u8]
}

pub(crate) fn push_principals(out: &mut Vec<u8>, ps: &Vec<Principal>, i: usize)
    requires
        i <= ps.len(),
    ensures
        final(out)@ == old(out)@ + spec_principals(
            ps@.skip(i as int).map_values(|p: Principal| p@),
        ),
    decreases ps.len() - i,
{
    let ghost m: Seq<Seq<u8>> = ps@.skip(i as int).map_values(|p: Principal| p@);
    if i < ps.len() {
        push_principal_val(out, ps[i].as_bytes().as_slice());
        push_principals(out, ps, i + 1);
        proof {
            assert(m.first() == ps@[i as int]@);
            assert(m.drop_first() =~= ps@.skip(i as int + 1).map_values(|p: Principal| p@));
            assert(out@ =~= old(out)@ + spec_principals(m));
        }
    } else {
        proof {
            assert(m =~= Seq::<Seq<u8>>::empty());
            assert(out@ =~= old(out)@ + spec_principals(m));
        }
    }
}

// ------------------------------------------------------------------
// Locating a wallet in the address book.
// ------------------------------------------------------------------

/// Whether `serde_json` accepts a document: a function of the text alone.
pub uninterp spec fn json_doc_parses(doc: Seq<char>) -> bool;

/// The text recorded in a parsed address-book document under `identities`,
/// the account's name, and `local`: nothing when any step of that path is
/// absent or the value there is no string. A function of the document and
/// the account name alone.
pub uninterp spec fn wallet_entry_of(doc: Seq<char>, account: Seq<char>) -> Option<Seq<char>>;

/// Relies on `serde_json::from_str::<Value>`, `Value::get` and
/// `Value::as_str`: parse the address-book document and walk to the text
/// under `identities`/account/`local`. An undecodable document hands the
/// parser's message back; a missing or non-textual entry yields nothing.
#[verifier::external_body]
fn lookup_wallet_entry(doc: &str, account: &str) -> (r: Result<Option<String>, String>)
    ensures
        r is Ok <==> json_doc_parses(doc@),
        r matches Ok(e) ==> match e {
            Some(t) => wallet_entry_of(doc@, account@) == Some(t@),
            None => wallet_entry_of(doc@, account@) is None,
        },
{
    match serde_json::from_str::<serde_json::Value>(doc) {
        Ok(v) => Ok(
            v.get("identities")
                .and_then(|ids| ids.get(account))
                .and_then(|entry| entry.get("local"))
                .and_then(|local| local.as_str())
                .map(|text| text.to_owned()),
        ),
        Err(e) => Err(e.to_string()),
    }
}

/// The address a well-formed address-book document records for an account:
/// the decoded principal of the text under `identities`/account/`local`,
/// and nothing when the document does not parse, the entry is absent or no
/// string, or its text is no principal.
pub open spec fn spec_wallet_lookup(doc: Seq<char>, account: Seq<char>) -> Option<Seq<u8>> {
    if json_doc_parses(doc) {
        match wallet_entry_of(doc, account) {
            Some(t) => principal_text_bytes(t),
            None => None,
        }
    } else {
        None
    }
}

/// Find the wallet address recorded for an account in the address-book
/// document. It succeeds exactly when the document parses, the path
/// `identities`/account/`local` holds a string, and that string is a
/// principal's text; each failure cause keeps its own error kind.
pub fn get_wallet_principal(json_text: &str, account_name: &str) -> (r: Result<Principal, Error>)
    ensures
        r is Ok <==> spec_wallet_lookup(json_text@, account_name@) is Some,
        r matches Ok(p) ==> p@ == spec_wallet_lookup(json_text@, account_name@)->0
            && valid_principal(p@),
        !json_doc_parses(json_text@) ==> (r matches Err(e) && e is Json),
        (json_doc_parses(json_text@) && wallet_entry_of(json_text@, account_name@) is None) ==> (
        r matches Err(e) && e == Error::InvalidOrMissingAccountInJson),
        json_doc_parses(json_text@) ==> (wallet_entry_of(json_text@, account_name@) matches Some(
            t,
        ) ==> (principal_text_bytes(t) is None ==> (r matches Err(e) && e is Principal))),
{
    match lookup_wallet_entry(json_text, account_name) {
        Err(m) => Err(Error::Json(m)),
        Ok(None) => Err(Error::InvalidOrMissingAccountInJson),
        Ok(Some(text)) => Principal::from_text(text.as_str()),
    }
}

impl Canister<Wallet> {
    /// Create a new wallet canister handle for the account recorded in the
    /// address-book document: it succeeds exactly when the document records
    /// an address for the account, and the handle's address is that entry;
    /// each failure of the lookup keeps its own error kind.
    pub fn new_wallet(json_text: &str, account_name: &str) -> (r: Result<Self, Error>)
        ensures
            r is Ok <==> spec_wallet_lookup(json_text@, account_name@) is Some,
            r matches Ok(c) ==> c@ == spec_wallet_lookup(json_text@, account_name@)->0,
            !json_doc_parses(json_text@) ==> (r matches Err(e) && e is Json),
            (json_doc_parses(json_text@) && wallet_entry_of(json_text@, account_name@) is None)
                ==> (r matches Err(e) && e == Error::InvalidOrMissingAccountInJson),
            json_doc_parses(json_text@) ==> (wallet_entry_of(json_text@, account_name@)
                matches Some(t) ==> (principal_text_bytes(t) is None ==> (r matches Err(e)
                && e is Principal))),
    {
        let id: Principal = get_wallet_principal(json_text, account_name)?;
        Ok(Self::new(id))
    }

    /// Forward a call through the wallet, so cycles can be spent.
    ///
    /// The result is the call to submit: an update of the wallet's own
    /// forwarding method whose argument is the serialized envelope carrying
    /// the original target, method, argument bytes and exactly the given
    /// cycle budget.
    pub fn call_forward(&self, call: CallDescriptor, cycles: u64) -> (r: CallDescriptor)
        ensures
            r.canister@ == self@,
            r.method_name@ == "wallet_call"@,
            r.args@ == spec_encode_envelope(
                call.canister@,
                call.method_name@,
                call.args@,
                cycles,
            ),
    {
        let env: CallForwardArgs = forward_envelope(call, cycles);
        let bytes: Vec<u8> = encode_envelope(&env);
        CallDescriptor {
            canister: self.principal().clone(),
            method_name: String::from_str("wallet_call"),
            args: bytes,
        }
    }

    /// Prepare the query that asks the wallet for its cycle balance; its
    /// reply is decoded by [`balance_reply`].
    pub fn balance_request(&self) -> (r: CallDescriptor)
        ensures
            r.canister@ == self@,
            r.method_name@ == "wallet_balance"@,
            r.args@ == spec_unit_args(),
    {
        CallDescriptor {
            canister: self.principal().clone(),
            method_name: String::from_str("wallet_balance"),
            args: unit_args(),
        }
    }

    /// Prepare the update call that asks the wallet to create an empty
    /// canister with the given cycles and controllers; every other setting
    /// is left absent. This does not install code: install it afterwards.
    /// The reply is decoded by [`create_canister_reply`].
    pub fn create_canister(&self, cycles: u64, controllers: Option<Vec<Principal>>) -> (r:
        CallDescriptor)
        ensures
            r.canister@ == self@,
            r.method_name@ == "wallet_create_canister"@,
            r.args@ == spec_encode_create_args(cycles, controllers_view(&controllers)),
    {
        let mut out: Vec<u8> = create_args_prefix();
        push_nat64le(&mut out, cycles);
        push_byte(&mut out, 0u8);
        match &controllers {
            None => {
                push_byte(&mut out, 0u8);
            },
            Some(ps) => {
                push_byte(&mut out, 1u8);
                push_leb(&mut out, ps.len() as u64);
                push_principals(&mut out, ps, 0);
                proof {
                    assert(ps@.skip(0) =~= ps@);
                }
            },
        }
        push_byte(&mut out, 0u8);
        push_byte(&mut out, 0u8);
        CallDescriptor {
            canister: self.principal().clone(),
            method_name: String::from_str("wallet_create_canister"),
            args: out,
        }
    }
}

// ------------------------------------------------------------------
// Allocation settings.
// ------------------------------------------------------------------

/// A compute allocation: a percentage of an execution core.
#[derive(Copy, Clone, Debug)]
pub struct ComputeAllocation(u8);

impl ComputeAllocation {
    /// The percentage as a plain number.
    pub fn get(&self) -> (r: u8)
        ensures
            r == self@,
    {
        self.0
    }

    /// The allocation in percent; anything over one hundred is rejected.
    pub fn try_from(value: u64) -> (r: Result<ComputeAllocation, Error>)
        ensures
            value <= 100 ==> (r matches Ok(a) && a@ == value),
            value > 100 ==> (r matches Err(e) && e == Error::MustBeAPercentage()),
    {
        if value <= 100 {
            Ok(ComputeAllocation(value as u8))
        } else {
            Err(Error::MustBeAPercentage())
        }
    }
}

impl View for ComputeAllocation {
    type V = u8;

    closed spec fn view(&self) -> u8 {
        self.0
    }
}

impl From<ComputeAllocation> for u8 {
    fn from(compute_allocation: ComputeAllocation) -> (r: u8) {
        compute_allocation.0
    }
}

impl vstd::std_specs::convert::FromSpecImpl<ComputeAllocation> for u8 {
    open spec fn obeys_from_spec() -> bool {
        true
    }

    open spec fn from_spec(compute_allocation: ComputeAllocation) -> u8 {
        compute_allocation@
    }
}

/// The memory ceiling a canister may use, in bytes.
#[derive(Copy, Clone, Debug)]
pub struct MemoryAllocation(u64);

/// The largest memory allocation the platform accepts, in bytes.
pub const MAX_MEMORY_ALLOCATION: u64 = 281474976710656;

impl MemoryAllocation {
    /// The allocation as a plain number of bytes.
    pub fn get(&self) -> (r: u64)
        ensures
            r == self@,
    {
        self.0
    }

    /// The allocation in bytes; anything over [`MAX_MEMORY_ALLOCATION`]
    /// is rejected.
    pub fn try_from(value: u64) -> (r: Result<MemoryAllocation, Error>)
        ensures
            value <= MAX_MEMORY_ALLOCATION ==> (r matches Ok(a) && a@ == value),
            value > MAX_MEMORY_ALLOCATION ==> (r matches Err(e) && e == Error::InvalidMemorySize(
                value,
            )),
    {
        if value <= MAX_MEMORY_ALLOCATION {
            Ok(MemoryAllocation(value))
        } else {
            Err(Error::InvalidMemorySize(value))
        }
    }
}

impl View for MemoryAllocation {
    type V = u64;

    closed spec fn view(&self) -> u64 {
        self.0
    }
}

impl From<MemoryAllocation> for u64 {
    fn from(memory_allocation: MemoryAllocation) -> (r: u64) {
        memory_allocation.0
    }
}

impl vstd::std_specs::convert::FromSpecImpl<MemoryAllocation> for u64 {
    open spec fn obeys_from_spec() -> bool {
        true
    }

    open spec fn from_spec(memory_allocation: MemoryAllocation) -> u64 {
        memory_allocation@
    }
}

} // verus!
