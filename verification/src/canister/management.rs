//! Management canister operations.
//!
//! The management canister installs, upgrades, stops and deletes canisters.
//! Every one of its operations is routed through the wallet's
//! call-forwarding protocol, so cycles can be attached; each function here
//! prepares the fully encoded forwarded call, and its reply decoder unwraps
//! the two result layers.
use vstd::prelude::*;

use vstd::utf8::{encode_utf8, valid_utf8};

use crate::canister::wallet::{
    call_forward_reply, spec_decode_forward, spec_encode_envelope, Wallet,
};
use crate::canister::{CallDescriptor, Canister};
use crate::codec::{
    expect_prefix, lemma_parse_blob_round, lemma_parse_leb_round, lemma_parse_prefix_round,
    lemma_parse_principal_round, parse_blob, parse_leb, parse_principal_val, parse_prefix,
    push_blob, push_leb, push_principal_val, read_blob, read_leb, spec_blob, spec_leb,
    spec_principal_val, spec_unit_args,
};
use crate::errors::Error;
use crate::principal::{valid_principal, Principal};

verus! {

/// Role tag of the management canister.
pub struct Management;

/// The install mode of the module to install. If a canister already has
/// code installed, [`InstallMode::Install`] is an error;
/// [`InstallMode::Reinstall`] unconditionally overwrites the module,
/// discarding prior state; [`InstallMode::Upgrade`] swaps the module while
/// running the platform's upgrade hooks, preserving state.
#[derive(Copy, Clone, PartialEq, Eq, Structural, Debug)]
pub enum InstallMode {
    /// Install a module where none is installed yet.
    Install,
    /// Overwrite the module, discarding prior state.
    Reinstall,
    /// Swap the module, preserving state across the upgrade hooks.
    Upgrade,
}

/// The index of an install mode in the payload's mode variant, whose cases
/// stand in field-order: reinstall, upgrade, install.
pub open spec fn mode_index(m: InstallMode) -> nat {
    match m {
        InstallMode::Reinstall => 0,
        InstallMode::Upgrade => 1,
        InstallMode::Install => 2,
    }
}

/// Installation arguments of an install, reinstall or upgrade operation.
#[derive(Debug)]
pub struct CanisterInstall {
    /// How the module is to be installed.
    pub mode: InstallMode,
    /// The canister that receives the module.
    pub canister_id: Principal,
    /// The compiled module as raw bytes.
    pub wasm_module: Vec<u8>,
    /// The encoded init or upgrade argument bytes.
    pub arg: Vec<u8>,
}

/// Header and type table of an install payload:
/// `record { arg : blob; wasm_module : blob; mode : variant { reinstall;
/// upgrade; install }; canister_id : principal }`.
pub open spec fn spec_install_prefix() -> Seq<u8> {
    seq![0x44u8, 0x49u8, 0x44u8, 0x4cu8, 0x03u8, 0x6cu8, 0x04u8, 0xd6u8, 0xfcu8, 0xa7u8, 0x02u8, 0x01u8, 0xa7u8, 0x9fu8, 0xc9u8, 0x7eu8, 0x01u8, 0xe3u8, 0xa6u8, 0x83u8, 0xc3u8, 0x04u8, 0x02u8, 0xb3u8, 0xc4u8, 0xb1u8, 0xf2u8, 0x04u8, 0x68u8, 0x6du8, 0x7bu8, 0x6bu8, 0x03u8, 0xc8u8, 0xbbu8, 0x8au8, 0x70u8, 0x7fu8, 0x9cu8, 0xe9u8, 0xc6u8, 0x99u8, 0x06u8, 0x7fu8, 0x9bu8, 0xaau8, 0xebu8, 0xecu8, 0x08u8, 0x7fu8, 0x01u8, 0x00u8]
}

fn install_prefix() -> (v: Vec<u8>)
    ensures
        v@ == spec_install_prefix(),
{
    let mut v: Vec<u8> = Vec::new();
    v.push(0x44);
    v.push(0x49);
    v.push(0x44);
    v.push(0x4c);
    v.push(0x03);
    v.push(0x6c);
    v.push(0x04);
    v.push(0xd6);
    v.push(0xfc);
    v.push(0xa7);
    v.push(0x02);
    v.push(0x01);
    v.push(0xa7);
    v.push(0x9f);
    v.push(0xc9);
    v.push(0x7e);
    v.push(0x01);
    v.push(0xe3);
    v.push(0xa6);
    v.push(0x83);
    v.push(0xc3);
    v.push(0x04);
    v.push(0x02);
    v.push(0xb3);
    v.push(0xc4);
    v.push(0xb1);
    v.push(0xf2);
    v.push(0x04);
    v.push(0x68);
    v.push(0x6d);
    v.push(0x7b);
    v.push(0x6b);
    v.push(0x03);
    v.push(0xc8);
    v.push(0xbb);
    v.push(0x8a);
    v.push(0x70);
    v.push(0x7f);
    v.push(0x9c);
    v.push(0xe9);
    v.push(0xc6);
    v.push(0x99);
    v.push(0x06);
    v.push(0x7f);
    v.push(0x9b);
    v.push(0xaa);
    v.push(0xeb);
    v.push(0xec);
    v.push(0x08);
    v.push(0x7f);
    v.push(0x01);
    v.push(0x00);
    proof {
        assert(v@ =~= spec_install_prefix());
    }
    v
}

/// Header and type table of a stop or delete argument:
/// `record { canister_id : principal }`.
pub open spec fn spec_canister_id_args_prefix() -> Seq<u8> {
    seq![0x44u8, 0x49u8, 0x44u8, 0x4cu8, 0x01u8, 0x6cu8, 0x01u8, 0xb3u8, 0xc4u8, 0xb1u8, 0xf2u8, 0x04u8, 0x68u8, 0x01u8, 0x00u8]
}

fn canister_id_args_prefix() -> (v: Vec<u8>)
    ensures
        v@ == spec_canister_id_args_prefix(),
{
    let mut v: Vec<u8> = Vec::new();
    v.push(0x44);
    v.push(0x49);
    v.push(0x44);
    v.push(0x4c);
    v.push(0x01);
    v.push(0x6c);
    v.push(0x01);
    v.push(0xb3);
    v.push(0xc4);
    v.push(0xb1);
    v.push(0xf2);
    v.push(0x04);
    v.push(0x68);
    v.push(0x01);
    v.push(0x00);
    proof {
        assert(v@ =~= spec_canister_id_args_prefix());
    }
    v
}

/// Header of a reply that carries a bare principal.
pub open spec fn spec_principal_reply_prefix() -> Seq<u8> {
    seq![0x44u8, 0x49u8, 0x44u8, 0x4cu8, 0x00u8, 0x01u8, 0x68u8]
}

fn principal_reply_prefix() -> (v: Vec<u8>)
    ensures
        v@ == spec_principal_reply_prefix(),
{
    let mut v: Vec<u8> = Vec::new();
    v.push(0x44);
    v.push(0x49);
    v.push(0x44);
    v.push(0x4c);
    v.push(0x00);
    v.push(0x01);
    v.push(0x68);
    proof {
        assert(v@ =~= spec_principal_reply_prefix());
    }
    v
}

/// The encoded bytes of an install payload.
pub open spec fn spec_encode_install(
    mode: InstallMode,
    canister: Seq<u8>,
    wasm: Seq<u8>,
    arg: Seq<u8>,
) -> Seq<u8> {
    spec_install_prefix() + spec_blob(arg) + spec_blob(wasm) + spec_leb(mode_index(mode))
        + spec_principal_val(canister)
}

/// Serialize an install payload.
pub fn encode_install(p: &CanisterInstall) -> (out: Vec<u8>)
    ensures
        out@ == spec_encode_install(p.mode, p.canister_id@, p.wasm_module@, p.arg@),
{
    let mut out: Vec<u8> = install_prefix();
    push_blob(&mut out, p.arg.as_slice());
    push_blob(&mut out, p.wasm_module.as_slice());
    let idx: u64 = match p.mode {
        InstallMode::Reinstall => 0,
        InstallMode::Upgrade => 1,
        InstallMode::Install => 2,
    };
    push_leb(&mut out, idx);
    push_principal_val(&mut out, p.canister_id.as_bytes().as_slice());
    out
}

/// Decode an install payload back into its mode, address, module bytes and
/// argument bytes.
pub open spec fn spec_decode_install(s: Seq<u8>) -> Option<(InstallMode, Seq<u8>, Seq<u8>, Seq<u8>)> {
    match parse_prefix(s, spec_install_prefix()) {
        Some(r0) => match parse_blob(r0) {
            Some(arg_r) => match parse_blob(arg_r.1) {
                Some(wasm_r) => match parse_leb(wasm_r.1) {
                    Some(idx_r) => {
                        let mode: Option<InstallMode> = if idx_r.0 == 0 {
                            Some(InstallMode::Reinstall)
                        } else if idx_r.0 == 1 {
                            Some(InstallMode::Upgrade)
                        } else if idx_r.0 == 2 {
                            Some(InstallMode::Install)
                        } else {
                            None
                        };
                        match mode {
                            Some(m) => match parse_principal_val(idx_r.1) {
                                Some(p_r) => if p_r.1.len() == 0 && valid_principal(p_r.0) {
                                    Some((m, p_r.0, wasm_r.0, arg_r.0))
                                } else {
                                    None
                                },
                                None => None,
                            },
                            None => None,
                        }
                    },
                    None => None,
                },
                None => None,
            },
            None => None,
        },
        None => None,
    }
}

/// Decoding a constructed install payload reproduces the exact mode,
/// address, module bytes and argument bytes that went in.
pub proof fn lemma_install_roundtrip(
    mode: InstallMode,
    canister: Seq<u8>,
    wasm: Seq<u8>,
    arg: Seq<u8>,
)
    requires
        valid_principal(canister),
    ensures
        spec_decode_install(spec_encode_install(mode, canister, wasm, arg)) == Some(
            (mode, canister, wasm, arg),
        ),
{
    let tail1 = spec_blob(arg) + (spec_blob(wasm) + (spec_leb(mode_index(mode))
        + spec_principal_val(canister)));
    assert(spec_encode_install(mode, canister, wasm, arg) =~= spec_install_prefix() + tail1);
    lemma_parse_prefix_round(spec_install_prefix(), tail1);
    lemma_parse_blob_round(arg, spec_blob(wasm) + (spec_leb(mode_index(mode))
        + spec_principal_val(canister)));
    lemma_parse_blob_round(wasm, spec_leb(mode_index(mode)) + spec_principal_val(canister));
    lemma_parse_leb_round(mode_index(mode), spec_principal_val(canister));
    lemma_parse_principal_round(canister, Seq::<u8>::empty());
    assert(spec_principal_val(canister) + Seq::<u8>::empty() =~= spec_principal_val(canister));
}

/// Parse the bytes of an install payload.
pub fn decode_install(data: &Vec<u8>) -> (r: Result<CanisterInstall, Error>)
    ensures
        spec_decode_install(data@) matches Some(t) ==> (r matches Ok(p) && p.mode == t.0
            && p.canister_id@ == t.1 && p.wasm_module@ == t.2 && p.arg@ == t.3),
        spec_decode_install(data@) is None ==> (r matches Err(e) && e is Candid),
{
    proof {
        assert(data@.skip(0) =~= data@);
    }
    let prefix: Vec<u8> = install_prefix();
    let pos: usize = match expect_prefix(data, 0, &prefix) {
        Some(p) => p,
        None => {
            return Err(Error::Candid(String::from_str("unrecognized install payload header")));
        },
    };
    let (arg, pos2): (Vec<u8>, usize) = match read_blob(data, pos) {
        Some(t) => t,
        None => {
            return Err(Error::Candid(String::from_str("truncated install argument")));
        },
    };
    let (wasm, pos3): (Vec<u8>, usize) = match read_blob(data, pos2) {
        Some(t) => t,
        None => {
            return Err(Error::Candid(String::from_str("truncated install module")));
        },
    };
    let (idx, pos4): (u64, usize) = match read_leb(data, pos3) {
        Some(t) => t,
        None => {
            return Err(Error::Candid(String::from_str("truncated install mode")));
        },
    };
    let mode: InstallMode = if idx == 0 {
        InstallMode::Reinstall
    } else if idx == 1 {
        InstallMode::Upgrade
    } else if idx == 2 {
        InstallMode::Install
    } else {
        return Err(Error::Candid(String::from_str("unknown install mode")));
    };
    if pos4 < data.len() && data[pos4] == 1u8 {
        proof {
            assert(data@.skip(pos4 as int)[0] == 1u8);
            assert(data@.skip(pos4 as int).drop_first() =~= data@.skip(pos4 as int + 1));
        }
        match read_blob(data, pos4 + 1) {
            Some((bytes, pos5)) => {
                if pos5 == data.len() {
                    match Principal::new(bytes) {
                        Ok(canister_id) => Ok(
                            CanisterInstall { mode, canister_id, wasm_module: wasm, arg },
                        ),
                        Err(_) => Err(
                            Error::Candid(String::from_str("oversized principal in payload")),
                        ),
                    }
                } else {
                    Err(Error::Candid(String::from_str("trailing bytes in install payload")))
                }
            },
            None => Err(Error::Candid(String::from_str("truncated principal in payload"))),
        }
    } else {
        proof {
            if pos4 < data.len() {
                assert(data@.skip(pos4 as int)[0] != 1u8);
            }
        }
        Err(Error::Candid(String::from_str("malformed principal in payload")))
    }
}

/// The encoded argument of a stop or delete operation.
pub open spec fn spec_encode_canister_id_args(canister: Seq<u8>) -> Seq<u8> {
    spec_canister_id_args_prefix() + spec_principal_val(canister)
}

/// Serialize the argument of a stop or delete operation.
pub fn encode_canister_id_args(canister: &Principal) -> (out: Vec<u8>)
    ensures
        out@ == spec_encode_canister_id_args(canister@),
{
    let mut out: Vec<u8> = canister_id_args_prefix();
    push_principal_val(&mut out, canister.as_bytes().as_slice());
    out
}

/// A reply that carries one bare principal.
pub open spec fn spec_principal_reply(p: Seq<u8>) -> Seq<u8> {
    spec_principal_reply_prefix() + spec_principal_val(p)
}

/// Decode a reply that carries one bare principal.
pub open spec fn spec_decode_principal_reply(s: Seq<u8>) -> Option<Seq<u8>> {
    match parse_prefix(s, spec_principal_reply_prefix()) {
        Some(r) => match parse_principal_val(r) {
            Some(t) => if t.1.len() == 0 {
                Some(t.0)
            } else {
                None
            },
            None => None,
        },
        None => None,
    }
}

/// A principal reply decodes back to the principal it encodes.
pub proof fn lemma_decode_principal_reply(p: Seq<u8>)
    ensures
        spec_decode_principal_reply(spec_principal_reply(p)) == Some(p),
{
    lemma_parse_prefix_round(spec_principal_reply_prefix(), spec_principal_val(p));
    lemma_parse_principal_round(p, Seq::<u8>::empty());
    assert(spec_principal_val(p) + Seq::<u8>::empty() =~= spec_principal_val(p));
}

/// Parse a reply that carries one bare principal.
pub fn principal_reply(data: &Vec<u8>) -> (r: Result<Principal, Error>)
    ensures
        spec_decode_principal_reply(data@) matches Some(p) ==> (valid_principal(p) ==> (
        r matches Ok(pr) && pr@ == p)),
        spec_decode_principal_reply(data@) matches Some(p) ==> (!valid_principal(p) ==> (
        r matches Err(e) && e is Principal)),
        spec_decode_principal_reply(data@) is None ==> (r matches Err(e) && e is Candid),
{
    proof {
        assert(data@.skip(0) =~= data@);
    }
    let prefix: Vec<u8> = principal_reply_prefix();
    let pos: usize = match expect_prefix(data, 0, &prefix) {
        Some(p) => p,
        None => {
            return Err(Error::Candid(String::from_str("unrecognized principal reply header")));
        },
    };
    if pos < data.len() && data[pos] == 1u8 {
        proof {
            assert(data@.skip(pos as int)[0] == 1u8);
            assert(data@.skip(pos as int).drop_first() =~= data@.skip(pos as int + 1));
        }
        match read_blob(data, pos + 1) {
            Some((bytes, pos2)) => {
                if pos2 == data.len() {
                    Principal::new(bytes)
                } else {
                    Err(Error::Candid(String::from_str("trailing bytes in principal reply")))
                }
            },
            None => Err(Error::Candid(String::from_str("truncated principal reply"))),
        }
    } else {
        proof {
            if pos < data.len() {
                assert(data@.skip(pos as int)[0] != 1u8);
            }
        }
        Err(Error::Candid(String::from_str("malformed principal reply")))
    }
}

/// Parse an empty reply: exactly the header with no argument values.
pub fn unit_reply(data: &Vec<u8>) -> (r: Result<(), Error>)
    ensures
        r is Ok <==> data@ == spec_unit_args(),
        r matches Err(e) ==> e is Candid,
{
    proof {
        assert(data@.skip(0) =~= data@);
        assert(spec_unit_args() + Seq::<u8>::empty() =~= spec_unit_args());
        lemma_parse_prefix_round(spec_unit_args(), Seq::<u8>::empty());
    }
    let prefix: Vec<u8> = crate::codec::unit_args();
    match expect_prefix(data, 0, &prefix) {
        Some(pos) => {
            if pos == data.len() {
                proof {
                    assert(data@ =~= data@.take(pos as int) + data@.skip(pos as int));
                    assert(data@.skip(pos as int).len() == 0);
                    assert(data@ =~= spec_unit_args());
                }
                Ok(())
            } else {
                Err(Error::Candid(String::from_str("trailing bytes in empty reply")))
            }
        },
        None => Err(Error::Candid(String::from_str("unexpected reply payload"))),
    }
}

impl Canister<Management> {
    /// Create a new management canister handle: its address is the empty
    /// identifier.
    pub fn new_management() -> (r: Self)
        ensures
            r@ == Seq::<u8>::empty(),
    {
        Canister::new(Principal::management_canister())
    }

    /// Route a management call through the wallet so cycles can be spent:
    /// the result is the wallet update call whose argument is the envelope
    /// around the management call.
    pub fn through_wallet_call(
        &self,
        wallet: &Canister<Wallet>,
        fn_name: &str,
        cycles: u64,
        arg: Option<Vec<u8>>,
    ) -> (r: CallDescriptor)
        ensures
            r.canister@ == wallet@,
            r.method_name@ == "wallet_call"@,
            arg matches Some(a) ==> r.args@ == spec_encode_envelope(self@, fn_name@, a@, cycles),
            arg is None ==> r.args@ == spec_encode_envelope(
                self@,
                fn_name@,
                Seq::<u8>::empty(),
                cycles,
            ),
    {
        let call: CallDescriptor = self.update(fn_name, arg);
        wallet.call_forward(call, cycles)
    }

    /// Install a module in an existing canister that has none yet. The
    /// result is the forwarded call to submit; [`install_code_reply`]
    /// decodes its reply. To create a canister first, use the wallet's
    /// canister creation.
    pub fn install_code(
        &self,
        wallet: &Canister<Wallet>,
        canister_id: Principal,
        bytecode: Vec<u8>,
        arg: Vec<u8>,
    ) -> (r: CallDescriptor)
        ensures
            r.canister@ == wallet@,
            r.method_name@ == "wallet_call"@,
            r.args@ == spec_encode_envelope(
                self@,
                "install_code"@,
                spec_encode_install(InstallMode::Install, canister_id@, bytecode@, arg@),
                0,
            ),
    {
        let install_args = (CanisterInstall {
            mode: InstallMode::Install,
            canister_id,
            wasm_module: bytecode,
            arg,
        });
        let bytes: Vec<u8> = encode_install(&install_args);
        self.through_wallet_call(wallet, "install_code", 0, Some(bytes))
    }

    /// Upgrade the module of an existing canister, preserving its state.
    /// The result is the forwarded call to submit; [`upgrade_code_reply`]
    /// decodes its reply.
    pub fn upgrade_code(
        &self,
        wallet: &Canister<Wallet>,
        canister_id: Principal,
        bytecode: Vec<u8>,
        arg: Vec<u8>,
    ) -> (r: CallDescriptor)
        ensures
            r.canister@ == wallet@,
            r.method_name@ == "wallet_call"@,
            r.args@ == spec_encode_envelope(
                self@,
                "upgrade_code"@,
                spec_encode_install(InstallMode::Upgrade, canister_id@, bytecode@, arg@),
                0,
            ),
    {
        let install_args = (CanisterInstall {
            mode: InstallMode::Upgrade,
            canister_id,
            wasm_module: bytecode,
            arg,
        });
        let bytes: Vec<u8> = encode_install(&install_args);
        self.through_wallet_call(wallet, "upgrade_code", 0, Some(bytes))
    }

    /// Stop a running canister. The result is the forwarded call to submit;
    /// [`stop_canister_reply`] decodes its reply.
    pub fn stop_canister(&self, wallet: &Canister<Wallet>, canister_id: Principal) -> (r:
        CallDescriptor)
        ensures
            r.canister@ == wallet@,
            r.method_name@ == "wallet_call"@,
            r.args@ == spec_encode_envelope(
                self@,
                "stop_canister"@,
                spec_encode_canister_id_args(canister_id@),
                0,
            ),
    {
        let bytes: Vec<u8> = encode_canister_id_args(&canister_id);
        self.through_wallet_call(wallet, "stop_canister", 0, Some(bytes))
    }

    /// Delete a canister that is not running; stop it first. The result is
    /// the forwarded call to submit; [`delete_canister_reply`] decodes its
    /// reply.
    pub fn delete_canister(&self, wallet: &Canister<Wallet>, canister_id: Principal) -> (r:
        CallDescriptor)
        ensures
            r.canister@ == wallet@,
            r.method_name@ == "wallet_call"@,
            r.args@ == spec_encode_envelope(
                self@,
                "delete_canister"@,
                spec_encode_canister_id_args(canister_id@),
                0,
            ),
    {
        let bytes: Vec<u8> = encode_canister_id_args(&canister_id);
        self.through_wallet_call(wallet, "delete_canister", 0, Some(bytes))
    }
}

/// Unwrap the reply of a forwarded install: a wallet-reported failure keeps
/// its exact message, and a success must carry an empty payload.
pub fn install_code_reply(data: &Vec<u8>) -> (r: Result<(), Error>)
    ensures
        spec_decode_forward(data@) matches Some(Ok(p)) ==> (r is Ok <==> p == spec_unit_args()),
        spec_decode_forward(data@) matches Some(Err(m)) ==> r is Err,
        spec_decode_forward(data@) matches Some(Err(m)) ==> (valid_utf8(m) ==> (r matches Err(e)
            && e matches Error::Generic(t) && encode_utf8(t@) == m)),
        spec_decode_forward(data@) is None ==> (r matches Err(e) && e is Candid),
{
    let payload: Vec<u8> = call_forward_reply(data)?;
    unit_reply(&payload)
}

/// Unwrap the reply of a forwarded upgrade: unlike install, stop and
/// delete, its success payload carries the upgraded canister's address.
pub fn upgrade_code_reply(data: &Vec<u8>) -> (r: Result<Principal, Error>)
    ensures
        spec_decode_forward(data@) matches Some(Err(m)) ==> r is Err,
        spec_decode_forward(data@) matches Some(Err(m)) ==> (valid_utf8(m) ==> (r matches Err(e)
            && e matches Error::Generic(t) && encode_utf8(t@) == m)),
        spec_decode_forward(data@) matches Some(Ok(p)) ==> (
        spec_decode_principal_reply(p) matches Some(b) ==> (valid_principal(b) ==> (r matches Ok(
        pr) && pr@ == b))),
        spec_decode_forward(data@) matches Some(Ok(p)) ==> (
        spec_decode_principal_reply(p) matches Some(b) ==> (!valid_principal(b) ==> (r matches Err(
        e) && e is Principal))),
        spec_decode_forward(data@) matches Some(Ok(p)) ==> (spec_decode_principal_reply(p)
            is None ==> (r matches Err(e) && e is Candid)),
        spec_decode_forward(data@) is None ==> (r matches Err(e) && e is Candid),
{
    let payload: Vec<u8> = call_forward_reply(data)?;
    principal_reply(&payload)
}

/// Unwrap the reply of a forwarded stop, which must carry an empty payload.
pub fn stop_canister_reply(data: &Vec<u8>) -> (r: Result<(), Error>)
    ensures
        spec_decode_forward(data@) matches Some(Ok(p)) ==> (r is Ok <==> p == spec_unit_args()),
        spec_decode_forward(data@) matches Some(Err(m)) ==> r is Err,
        spec_decode_forward(data@) matches Some(Err(m)) ==> (valid_utf8(m) ==> (r matches Err(e)
            && e matches Error::Generic(t) && encode_utf8(t@) == m)),
        spec_decode_forward(data@) is None ==> (r matches Err(e) && e is Candid),
{
    let payload: Vec<u8> = call_forward_reply(data)?;
    unit_reply(&payload)
}

/// Unwrap the reply of a forwarded delete, which must carry an empty
/// payload.
pub fn delete_canister_reply(data: &Vec<u8>) -> (r: Result<(), Error>)
    ensures
        spec_decode_forward(data@) matches Some(Ok(p)) ==> (r is Ok <==> p == spec_unit_args()),
        spec_decode_forward(data@) matches Some(Err(m)) ==> r is Err,
        spec_decode_forward(data@) matches Some(Err(m)) ==> (valid_utf8(m) ==> (r matches Err(e)
            && e matches Error::Generic(t) && encode_utf8(t@) == m)),
        spec_decode_forward(data@) is None ==> (r matches Err(e) && e is Candid),
{
    let payload: Vec<u8> = call_forward_reply(data)?;
    unit_reply(&payload)
}

} // verus!
