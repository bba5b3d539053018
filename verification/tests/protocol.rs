//! The forwarding protocol and management payloads, held against the
//! platform's own codec.
use std::rc::Rc;

use candid::types::internal::Field;
use candid::types::value::{IDLArgs, IDLField, IDLValue, VariantValue};
use candid::types::{Label, Type, TypeEnv, TypeInner};

use ic_test_utils::canister::management::{
    decode_install, encode_install, install_code_reply, principal_reply, unit_reply,
    upgrade_code_reply, CanisterInstall, InstallMode, Management,
};
use ic_test_utils::canister::wallet::{
    balance_reply, call_forward_reply, create_canister_reply, BalanceResult, Wallet,
};
use ic_test_utils::canister::Canister;
use ic_test_utils::{Error, Principal};

fn leb(mut n: u64) -> Vec<u8> {
    let mut out = Vec::new();
    loop {
        let b = (n & 0x7f) as u8;
        n >>= 7;
        if n != 0 {
            out.push(b | 0x80);
        } else {
            out.push(b);
            break;
        }
    }
    out
}

/// Header and type table bytes of a forward reply, as the platform encodes
/// `variant { Ok : record { return : blob }; Err : text }`.
fn forward_reply_prefix() -> Vec<u8> {
    let mut v = vec![0x44, 0x49, 0x44, 0x4c, 0x03, 0x6b, 0x02];
    v.extend(leb(17724)); // Ok
    v.push(0x01);
    v.extend(leb(3456837)); // Err
    v.push(0x71);
    v.extend([0x6c, 0x01]);
    v.extend(leb(153986224)); // return
    v.push(0x02);
    v.extend([0x6d, 0x7b, 0x01, 0x00]);
    v
}

fn forward_ok(payload: &[u8]) -> Vec<u8> {
    let mut v = forward_reply_prefix();
    v.push(0x00);
    v.extend(leb(payload.len() as u64));
    v.extend(payload);
    v
}

fn forward_err(msg: &str) -> Vec<u8> {
    let mut v = forward_reply_prefix();
    v.push(0x01);
    v.extend(leb(msg.len() as u64));
    v.extend(msg.as_bytes());
    v
}

fn principal(bytes: &[u8]) -> Principal {
    Principal::new(bytes.to_vec()).unwrap()
}

fn blob_bytes(v: &IDLValue) -> Vec<u8> {
    match v {
        IDLValue::Blob(b) => b.clone(),
        IDLValue::Vec(items) => items
            .iter()
            .map(|i| match i {
                IDLValue::Nat8(b) => *b,
                other => panic!("expected a byte, got {other:?}"),
            })
            .collect(),
        other => panic!("expected a blob, got {other:?}"),
    }
}

fn record_fields(v: &IDLValue) -> &Vec<IDLField> {
    match v {
        IDLValue::Record(fields) => fields,
        other => panic!("expected a record, got {other:?}"),
    }
}

fn field<'a>(fields: &'a [IDLField], id: u32) -> &'a IDLValue {
    &fields
        .iter()
        .find(|f| matches!(&f.id, Label::Id(i) if i == &id))
        .unwrap_or_else(|| panic!("no field {id}"))
        .val
}

fn decode_envelope(bytes: &[u8]) -> (Vec<u8>, u64, String, Vec<u8>) {
    let args = IDLArgs::from_bytes(bytes).expect("the envelope must be valid candid");
    assert_eq!(args.args.len(), 1);
    let fields = record_fields(&args.args[0]);
    assert_eq!(fields.len(), 4);
    let inner_args = blob_bytes(field(fields, 1081380189));
    let cycles = match field(fields, 2190693645) {
        IDLValue::Nat64(c) => *c,
        other => panic!("expected nat64 cycles, got {other:?}"),
    };
    let method = match field(fields, 2374371241) {
        IDLValue::Text(t) => t.clone(),
        other => panic!("expected a text method, got {other:?}"),
    };
    let target = match field(fields, 2631180839) {
        IDLValue::Principal(p) => p.as_slice().to_vec(),
        other => panic!("expected a principal, got {other:?}"),
    };
    (inner_args, cycles, method, target)
}

#[test]
fn reply_layout_matches_the_platform_serializer() {
    let blob_ty: Type = TypeInner::Vec(TypeInner::Nat8.into()).into();
    let call_result_ty: Type = TypeInner::Record(vec![Field {
        id: Rc::new(Label::Named("return".to_string())),
        ty: blob_ty,
    }])
    .into();
    let result_ty: Type = TypeInner::Variant(vec![
        Field { id: Rc::new(Label::Named("Ok".to_string())), ty: call_result_ty },
        Field { id: Rc::new(Label::Named("Err".to_string())), ty: TypeInner::Text.into() },
    ])
    .into();
    let env = TypeEnv::new();

    let err_val = IDLValue::Variant(VariantValue(
        Box::new(IDLField {
            id: Label::Named("Err".to_string()),
            val: IDLValue::Text("boom".to_string()),
        }),
        1,
    ));
    let bytes = IDLArgs::new(&[err_val])
        .to_bytes_with_types(&env, &[result_ty.clone()])
        .unwrap();
    assert_eq!(bytes, forward_err("boom"));

    let ok_val = IDLValue::Variant(VariantValue(
        Box::new(IDLField {
            id: Label::Named("Ok".to_string()),
            val: IDLValue::Record(vec![IDLField {
                id: Label::Named("return".to_string()),
                val: IDLValue::Blob(vec![1, 2, 3]),
            }]),
        }),
        0,
    ));
    let bytes = IDLArgs::new(&[ok_val])
        .to_bytes_with_types(&env, &[result_ty])
        .unwrap();
    assert_eq!(bytes, forward_ok(&[1, 2, 3]));
}

#[test]
fn envelope_layout_matches_the_platform_serializer() {
    let named = |n: &str| Rc::new(Label::Named(n.to_string()));
    let blob_ty: Type = TypeInner::Vec(TypeInner::Nat8.into()).into();
    let envelope_ty: Type = TypeInner::Record(vec![
        Field { id: named("args"), ty: blob_ty },
        Field { id: named("cycles"), ty: TypeInner::Nat64.into() },
        Field { id: named("method_name"), ty: TypeInner::Text.into() },
        Field { id: named("canister"), ty: TypeInner::Principal.into() },
    ])
    .into();
    let value = IDLValue::Record(vec![
        IDLField { id: Label::Named("args".to_string()), val: IDLValue::Blob(vec![9, 9, 9]) },
        IDLField { id: Label::Named("cycles".to_string()), val: IDLValue::Nat64(42) },
        IDLField {
            id: Label::Named("method_name".to_string()),
            val: IDLValue::Text("transfer".to_string()),
        },
        IDLField {
            id: Label::Named("canister".to_string()),
            val: IDLValue::Principal(candid::Principal::from_slice(&[0, 0, 0, 0, 0, 0, 0, 1, 1, 1])),
        },
    ]);
    let expected = IDLArgs::new(&[value])
        .to_bytes_with_types(&TypeEnv::new(), &[envelope_ty])
        .unwrap();

    let wallet = Canister::<Wallet>::new(principal(&[1, 2, 3]));
    let target = Canister::<Wallet>::new(principal(&[0, 0, 0, 0, 0, 0, 0, 1, 1, 1]));
    let call = target.update("transfer", Some(vec![9, 9, 9]));
    let forwarded = wallet.call_forward(call, 42);
    assert_eq!(forwarded.args, expected);
}

#[test]
fn management_layouts_match_the_platform_serializer() {
    let named = |n: &str| Rc::new(Label::Named(n.to_string()));
    let blob_ty: Type = TypeInner::Vec(TypeInner::Nat8.into()).into();
    let mode_ty: Type = TypeInner::Variant(vec![
        Field { id: named("reinstall"), ty: TypeInner::Null.into() },
        Field { id: named("upgrade"), ty: TypeInner::Null.into() },
        Field { id: named("install"), ty: TypeInner::Null.into() },
    ])
    .into();
    let install_ty: Type = TypeInner::Record(vec![
        Field { id: named("arg"), ty: blob_ty.clone() },
        Field { id: named("wasm_module"), ty: blob_ty },
        Field { id: named("mode"), ty: mode_ty },
        Field { id: named("canister_id"), ty: TypeInner::Principal.into() },
    ])
    .into();
    let value = IDLValue::Record(vec![
        IDLField { id: Label::Named("arg".to_string()), val: IDLValue::Blob(vec![1, 2]) },
        IDLField {
            id: Label::Named("wasm_module".to_string()),
            val: IDLValue::Blob(vec![0x00, 0x61, 0x73, 0x6d]),
        },
        IDLField {
            id: Label::Named("mode".to_string()),
            val: IDLValue::Variant(VariantValue(
                Box::new(IDLField {
                    id: Label::Named("upgrade".to_string()),
                    val: IDLValue::Null,
                }),
                1,
            )),
        },
        IDLField {
            id: Label::Named("canister_id".to_string()),
            val: IDLValue::Principal(candid::Principal::from_slice(&[9, 8, 7])),
        },
    ]);
    let expected = IDLArgs::new(&[value])
        .to_bytes_with_types(&TypeEnv::new(), &[install_ty])
        .unwrap();
    let p = CanisterInstall {
        mode: InstallMode::Upgrade,
        canister_id: principal(&[9, 8, 7]),
        wasm_module: vec![0x00, 0x61, 0x73, 0x6d],
        arg: vec![1, 2],
    };
    assert_eq!(encode_install(&p), expected);
}

#[test]
fn create_args_layout_matches_the_platform_serializer() {
    let named = |n: &str| Rc::new(Label::Named(n.to_string()));
    let settings_ty: Type = TypeInner::Record(vec![
        Field { id: named("freezing_threshold"), ty: TypeInner::Opt(TypeInner::Nat64.into()).into() },
        Field {
            id: named("controllers"),
            ty: TypeInner::Opt(Type::from(TypeInner::Vec(TypeInner::Principal.into()))).into(),
        },
        Field { id: named("memory_allocation"), ty: TypeInner::Opt(TypeInner::Nat64.into()).into() },
        Field { id: named("compute_allocation"), ty: TypeInner::Opt(TypeInner::Nat8.into()).into() },
    ])
    .into();
    let in_ty: Type = TypeInner::Record(vec![
        Field { id: named("cycles"), ty: TypeInner::Nat64.into() },
        Field { id: named("settings"), ty: settings_ty },
    ])
    .into();
    let value = IDLValue::Record(vec![
        IDLField { id: Label::Named("cycles".to_string()), val: IDLValue::Nat64(77) },
        IDLField {
            id: Label::Named("settings".to_string()),
            val: IDLValue::Record(vec![
                IDLField { id: Label::Named("freezing_threshold".to_string()), val: IDLValue::None },
                IDLField {
                    id: Label::Named("controllers".to_string()),
                    val: IDLValue::Opt(Box::new(IDLValue::Vec(vec![IDLValue::Principal(
                        candid::Principal::from_slice(&[6, 6]),
                    )]))),
                },
                IDLField { id: Label::Named("memory_allocation".to_string()), val: IDLValue::None },
                IDLField { id: Label::Named("compute_allocation".to_string()), val: IDLValue::None },
            ]),
        },
    ]);
    let expected = IDLArgs::new(&[value])
        .to_bytes_with_types(&TypeEnv::new(), &[in_ty])
        .unwrap();
    let wallet = Canister::<Wallet>::new(principal(&[1]));
    let req = wallet.create_canister(77, Some(vec![principal(&[6, 6])]));
    assert_eq!(req.args, expected);
}

#[test]
fn envelope_carries_cycles_exactly() {
    let wallet = Canister::<Wallet>::new(principal(&[1, 2, 3]));
    let target = Canister::<Management>::new(principal(&[0, 0, 0, 0, 0, 0, 0, 1, 1, 1]));
    let call = target.update("transfer", Some(vec![9, 9, 9]));
    let forwarded = wallet.call_forward(call, 42);
    assert_eq!(forwarded.method_name, "wallet_call");
    assert_eq!(forwarded.canister.as_bytes().as_slice(), &[1, 2, 3]);
    let (inner_args, cycles, method, target_bytes) = decode_envelope(&forwarded.args);
    assert_eq!(cycles, 42);
    assert_eq!(method, "transfer");
    assert_eq!(target_bytes, vec![0, 0, 0, 0, 0, 0, 0, 1, 1, 1]);
    assert_eq!(inner_args, vec![9, 9, 9]);
}

#[test]
fn envelope_cycles_independent_of_method() {
    let wallet = Canister::<Wallet>::new(principal(&[7]));
    let target = Canister::<Wallet>::new(principal(&[8]));
    let call = target.update("another_method", None);
    let forwarded = wallet.call_forward(call, 0);
    let (inner_args, cycles, method, _) = decode_envelope(&forwarded.args);
    assert_eq!(cycles, 0);
    assert_eq!(method, "another_method");
    assert_eq!(inner_args, Vec::<u8>::new());
}

#[test]
fn forward_error_surfaces_exact_message() {
    let data = forward_err("canister rejected the call");
    let r = call_forward_reply(&data);
    match r {
        Err(Error::Generic(m)) => assert_eq!(m, "canister rejected the call"),
        other => panic!("expected the wallet's message, got {other:?}"),
    }
}

#[test]
fn forward_error_is_never_a_success() {
    let data = forward_err("");
    assert!(call_forward_reply(&data).is_err());
}

#[test]
fn forward_success_payload_is_returned() {
    let data = forward_ok(&[1, 2, 3, 4]);
    let r = call_forward_reply(&data).unwrap();
    assert_eq!(r, vec![1, 2, 3, 4]);
}

#[test]
fn forward_garbage_is_a_codec_error() {
    let data = vec![0x44, 0x49, 0x44, 0x4d];
    assert!(matches!(call_forward_reply(&data), Err(Error::Candid(_))));
}

#[test]
fn install_payload_roundtrips() {
    let p = CanisterInstall {
        mode: InstallMode::Install,
        canister_id: principal(&[0, 0, 0, 0, 0, 0, 0, 2, 1, 1]),
        wasm_module: vec![0x00, 0x61, 0x73, 0x6d, 1, 0, 0, 0],
        arg: vec![0x44, 0x49, 0x44, 0x4c, 0, 0],
    };
    let bytes = encode_install(&p);
    let q = decode_install(&bytes).unwrap();
    assert_eq!(q.mode, InstallMode::Install);
    assert_eq!(q.canister_id.as_bytes(), p.canister_id.as_bytes());
    assert_eq!(q.wasm_module, p.wasm_module);
    assert_eq!(q.arg, p.arg);
}

#[test]
fn install_payload_roundtrips_each_mode() {
    for mode in [InstallMode::Install, InstallMode::Reinstall, InstallMode::Upgrade] {
        let p = CanisterInstall {
            mode,
            canister_id: principal(&[5, 5]),
            wasm_module: vec![1],
            arg: vec![],
        };
        let q = decode_install(&encode_install(&p)).unwrap();
        assert_eq!(q.mode, mode);
    }
}

#[test]
fn install_payload_is_valid_candid() {
    let p = CanisterInstall {
        mode: InstallMode::Reinstall,
        canister_id: principal(&[9, 8, 7]),
        wasm_module: vec![0x00, 0x61, 0x73, 0x6d],
        arg: vec![1, 2],
    };
    let bytes = encode_install(&p);
    let args = IDLArgs::from_bytes(&bytes).expect("the payload must be valid candid");
    let fields = record_fields(&args.args[0]);
    assert_eq!(fields.len(), 4);
    assert_eq!(blob_bytes(field(fields, 4849238)), vec![1, 2]);
    assert_eq!(blob_bytes(field(fields, 265441191)), vec![0x00, 0x61, 0x73, 0x6d]);
    match field(fields, 1214305123) {
        IDLValue::Variant(v) => match &v.0.id {
            Label::Id(id) => assert_eq!(id, &235052488), // reinstall
            other => panic!("expected a hashed label, got {other:?}"),
        },
        other => panic!("expected the mode variant, got {other:?}"),
    }
    match field(fields, 1313628723) {
        IDLValue::Principal(pr) => assert_eq!(pr.as_slice(), &[9, 8, 7]),
        other => panic!("expected a principal, got {other:?}"),
    }
}

#[test]
fn install_code_forwards_through_wallet_with_zero_cycles() {
    let management = Canister::<Management>::new_management();
    let wallet = Canister::<Wallet>::new(principal(&[3, 3]));
    let call = management.install_code(&wallet, principal(&[2]), vec![0x61], vec![]);
    assert_eq!(call.canister.as_bytes().as_slice(), &[3, 3]);
    assert_eq!(call.method_name, "wallet_call");
    let (inner_args, cycles, method, target_bytes) = decode_envelope(&call.args);
    assert_eq!(cycles, 0);
    assert_eq!(method, "install_code");
    assert_eq!(target_bytes, Vec::<u8>::new()); // the management canister
    let inner = decode_install(&inner_args).unwrap();
    assert_eq!(inner.mode, InstallMode::Install);
    assert_eq!(inner.wasm_module, vec![0x61]);
}

#[test]
fn stop_canister_names_the_target() {
    let management = Canister::<Management>::new_management();
    let wallet = Canister::<Wallet>::new(principal(&[3, 3]));
    let call = management.stop_canister(&wallet, principal(&[4, 4, 4]));
    let (inner_args, cycles, method, _) = decode_envelope(&call.args);
    assert_eq!(cycles, 0);
    assert_eq!(method, "stop_canister");
    let args = IDLArgs::from_bytes(&inner_args).expect("the argument must be valid candid");
    let fields = record_fields(&args.args[0]);
    match field(fields, 1313628723) {
        IDLValue::Principal(pr) => assert_eq!(pr.as_slice(), &[4, 4, 4]),
        other => panic!("expected a principal, got {other:?}"),
    }
}

#[test]
fn unit_reply_accepts_exactly_the_empty_tuple() {
    assert!(unit_reply(&vec![0x44, 0x49, 0x44, 0x4c, 0x00, 0x00]).is_ok());
    assert!(matches!(
        unit_reply(&vec![0x44, 0x49, 0x44, 0x4c, 0x00, 0x00, 0x00]),
        Err(Error::Candid(_))
    ));
    assert!(unit_reply(&vec![]).is_err());
}

#[test]
fn install_code_reply_unwraps_both_layers() {
    let ok = forward_ok(&[0x44, 0x49, 0x44, 0x4c, 0x00, 0x00]);
    assert!(install_code_reply(&ok).is_ok());
    let err = forward_err("install failed");
    match install_code_reply(&err) {
        Err(Error::Generic(m)) => assert_eq!(m, "install failed"),
        other => panic!("expected the wallet's message, got {other:?}"),
    }
    let bad_payload = forward_ok(&[1, 2, 3]);
    assert!(install_code_reply(&bad_payload).is_err());
}

#[test]
fn upgrade_reply_carries_a_principal() {
    let mut inner = vec![0x44, 0x49, 0x44, 0x4c, 0x00, 0x01, 0x68, 0x01];
    inner.extend(leb(3));
    inner.extend([7, 7, 7]);
    let r = principal_reply(&inner).unwrap();
    assert_eq!(r.as_bytes().as_slice(), &[7, 7, 7]);
    let wrapped = forward_ok(&inner);
    let p = upgrade_code_reply(&wrapped).unwrap();
    assert_eq!(p.as_bytes().as_slice(), &[7, 7, 7]);
}

#[test]
fn balance_reply_reads_the_amount() {
    let mut data = vec![0x44, 0x49, 0x44, 0x4c, 0x01, 0x6c, 0x01];
    data.extend(leb(3573748184)); // amount
    data.extend([0x78, 0x01, 0x00]);
    data.extend(5000u64.to_le_bytes());
    assert_eq!(balance_reply(&data).unwrap(), BalanceResult { amount: 5000 });
    data.pop();
    assert!(matches!(balance_reply(&data), Err(Error::Candid(_))));
}

#[test]
fn balance_request_sends_the_empty_tuple() {
    let wallet = Canister::<Wallet>::new(principal(&[1]));
    let req = wallet.balance_request();
    assert_eq!(req.method_name, "wallet_balance");
    assert_eq!(req.args, vec![0x44, 0x49, 0x44, 0x4c, 0x00, 0x00]);
}

#[test]
fn create_canister_request_is_valid_candid() {
    let wallet = Canister::<Wallet>::new(principal(&[1]));
    let req = wallet.create_canister(77, Some(vec![principal(&[6, 6])]));
    assert_eq!(req.method_name, "wallet_create_canister");
    let args = IDLArgs::from_bytes(&req.args).expect("the argument must be valid candid");
    let fields = record_fields(&args.args[0]);
    match field(fields, 2190693645) {
        IDLValue::Nat64(c) => assert_eq!(*c, 77),
        other => panic!("expected nat64 cycles, got {other:?}"),
    }
    let settings = record_fields(field(fields, 2336062691));
    match field(settings, 570880087) {
        IDLValue::Opt(inner) => match inner.as_ref() {
            IDLValue::Vec(items) => {
                assert_eq!(items.len(), 1);
                match &items[0] {
                    IDLValue::Principal(pr) => assert_eq!(pr.as_slice(), &[6, 6]),
                    other => panic!("expected a principal, got {other:?}"),
                }
            }
            other => panic!("expected a controller list, got {other:?}"),
        },
        IDLValue::None => panic!("the controllers must be present"),
        other => panic!("expected an option, got {other:?}"),
    }
    for id in [238856128u32, 3844961758, 4174053672] {
        match field(settings, id) {
            IDLValue::None => {}
            other => panic!("expected an absent setting, got {other:?}"),
        }
    }
}

#[test]
fn create_canister_reply_reads_the_address() {
    let mut data = vec![0x44, 0x49, 0x44, 0x4c, 0x02, 0x6b, 0x02];
    data.extend(leb(17724));
    data.push(0x01);
    data.extend(leb(3456837));
    data.extend([0x71, 0x6c, 0x01]);
    data.extend(leb(1313628723));
    data.extend([0x68, 0x01, 0x00]);
    let mut ok = data.clone();
    ok.extend([0x00, 0x01]);
    ok.extend(leb(2));
    ok.extend([0xab, 0xcd]);
    let p = create_canister_reply(&ok).unwrap();
    assert_eq!(p.as_bytes().as_slice(), &[0xab, 0xcd]);
    let mut err = data;
    err.push(0x01);
    err.extend(leb(8));
    err.extend(b"no funds");
    match create_canister_reply(&err) {
        Err(Error::Generic(m)) => assert_eq!(m, "no funds"),
        other => panic!("expected the wallet's message, got {other:?}"),
    }
}

#[test]
fn balance_reply_layout_matches_the_platform_serializer() {
    let amount_ty: Type = TypeInner::Record(vec![Field {
        id: Rc::new(Label::Named("amount".to_string())),
        ty: TypeInner::Nat64.into(),
    }])
    .into();
    let value = IDLValue::Record(vec![IDLField {
        id: Label::Named("amount".to_string()),
        val: IDLValue::Nat64(5000),
    }]);
    let bytes = IDLArgs::new(&[value])
        .to_bytes_with_types(&TypeEnv::new(), &[amount_ty])
        .unwrap();
    assert_eq!(balance_reply(&bytes).unwrap(), BalanceResult { amount: 5000 });
}

#[test]
fn creation_reply_layout_matches_the_platform_serializer() {
    let named = |n: &str| Rc::new(Label::Named(n.to_string()));
    let create_result_ty: Type = TypeInner::Record(vec![Field {
        id: named("canister_id"),
        ty: TypeInner::Principal.into(),
    }])
    .into();
    let result_ty: Type = TypeInner::Variant(vec![
        Field { id: named("Ok"), ty: create_result_ty },
        Field { id: named("Err"), ty: TypeInner::Text.into() },
    ])
    .into();
    let env = TypeEnv::new();
    let ok_val = IDLValue::Variant(VariantValue(
        Box::new(IDLField {
            id: Label::Named("Ok".to_string()),
            val: IDLValue::Record(vec![IDLField {
                id: Label::Named("canister_id".to_string()),
                val: IDLValue::Principal(candid::Principal::from_slice(&[0xab, 0xcd])),
            }]),
        }),
        0,
    ));
    let bytes = IDLArgs::new(&[ok_val])
        .to_bytes_with_types(&env, &[result_ty.clone()])
        .unwrap();
    let p = create_canister_reply(&bytes).unwrap();
    assert_eq!(p.as_bytes().as_slice(), &[0xab, 0xcd]);

    let err_val = IDLValue::Variant(VariantValue(
        Box::new(IDLField {
            id: Label::Named("Err".to_string()),
            val: IDLValue::Text("no funds".to_string()),
        }),
        1,
    ));
    let bytes = IDLArgs::new(&[err_val])
        .to_bytes_with_types(&env, &[result_ty])
        .unwrap();
    match create_canister_reply(&bytes) {
        Err(Error::Generic(m)) => assert_eq!(m, "no funds"),
        other => panic!("expected the wallet's message, got {other:?}"),
    }
}

#[test]
fn principal_reply_layout_matches_the_platform_serializer() {
    let value = IDLValue::Principal(candid::Principal::from_slice(&[7, 7, 7]));
    let bytes = IDLArgs::new(&[value])
        .to_bytes_with_types(&TypeEnv::new(), &[TypeInner::Principal.into()])
        .unwrap();
    let p = principal_reply(&bytes).unwrap();
    assert_eq!(p.as_bytes().as_slice(), &[7, 7, 7]);
}
