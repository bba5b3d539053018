//! The ledger bootstrap builder, principals, the wallet address book, and
//! the allocation settings.
use std::rc::Rc;

use candid::types::internal::Field;
use candid::types::value::{IDLArgs, IDLField, IDLValue};
use candid::types::{Label, Type, TypeEnv, TypeInner};

use ic_test_utils::canister::wallet::{
    get_wallet_principal, ComputeAllocation, MemoryAllocation, Wallet,
};
use ic_test_utils::ledger::encode_ledger_init;
use ic_test_utils::canister::Canister;
use ic_test_utils::ledger::{new_ledger_canister, AccountIdentifier, Tokens};
use ic_test_utils::{Error, Principal};

fn account(seed: u8) -> AccountIdentifier {
    AccountIdentifier::from_hash(vec![seed; 28]).unwrap()
}

#[test]
fn two_accounts_then_finalize() {
    let mut builder = new_ledger_canister("bob");
    builder.with_account(Ok(account(1)), Tokens::from_e8s(100)).unwrap();
    builder.with_account(Ok(account(2)), Tokens::from_e8s(50)).unwrap();
    let (payload, cycles) = builder.build(Ok(account(9)), None).unwrap();
    assert_eq!(payload.minting_account.as_bytes().as_slice(), &[9u8; 28]);
    assert_eq!(cycles, 1_000_000_000_000);
    assert_eq!(payload.initial_values.len(), 2);
    let mut balances: Vec<(Vec<u8>, u64)> = payload
        .initial_values
        .iter()
        .map(|(a, t)| (a.as_bytes().clone(), t.get_e8s()))
        .collect();
    balances.sort();
    assert_eq!(balances, vec![(vec![1u8; 28], 100), (vec![2u8; 28], 50)]);
    assert!(payload.max_message_size_bytes.is_none());
    assert!(payload.transaction_window.is_none());
    assert!(payload.send_whitelist.is_empty());
}

#[test]
fn same_account_twice_keeps_the_second_balance() {
    let mut builder = new_ledger_canister("bob");
    builder.with_account(Ok(account(1)), Tokens::from_e8s(100)).unwrap();
    builder.with_account(Ok(account(1)), Tokens::from_e8s(50)).unwrap();
    let (payload, _) = builder.build(Ok(account(9)), None).unwrap();
    assert_eq!(payload.initial_values.len(), 1);
    assert_eq!(payload.initial_values[0].0.as_bytes().as_slice(), &[1u8; 28]);
    assert_eq!(payload.initial_values[0].1.get_e8s(), 50);
}

#[test]
fn bad_owner_identity_fails_before_anything_else() {
    let mut builder = new_ledger_canister("nobody");
    let r = builder.build(
        Err(Error::Ident(String::from("no identity.pem under that name"))),
        None,
    );
    match r {
        Err(Error::Ident(m)) => assert_eq!(m, "no identity.pem under that name"),
        other => panic!("expected an identity error, got {other:?}"),
    }
    // the failed finalize left the builder untouched
    builder.with_account(Ok(account(1)), Tokens::from_e8s(1)).unwrap();
    let (payload, _) = builder.build(Ok(account(9)), None).unwrap();
    assert_eq!(payload.initial_values.len(), 1);
}

#[test]
fn cycles_can_be_overridden() {
    let mut builder = new_ledger_canister("bob");
    let (_, cycles) = builder.build(Ok(account(9)), Some(7)).unwrap();
    assert_eq!(cycles, 7);
}

#[test]
fn a_consumed_builder_rejects_further_use() {
    let mut builder = new_ledger_canister("bob");
    builder.with_account(Ok(account(1)), Tokens::from_e8s(1)).unwrap();
    builder.build(Ok(account(9)), None).unwrap();
    assert!(matches!(
        builder.with_account(Ok(account(2)), Tokens::from_e8s(2)),
        Err(Error::Generic(_))
    ));
    assert!(matches!(builder.build(Ok(account(9)), None), Err(Error::Generic(_))));
}

#[test]
fn a_failed_account_resolution_is_handed_through() {
    let mut builder = new_ledger_canister("bob");
    let r = builder.with_account(
        Err(Error::Ident(String::from("unreadable pem"))),
        Tokens::from_e8s(1),
    );
    match r {
        Err(Error::Ident(m)) => assert_eq!(m, "unreadable pem"),
        other => panic!("expected an identity error, got {other:?}"),
    }
    let (payload, _) = builder.build(Ok(account(9)), None).unwrap();
    assert_eq!(payload.initial_values.len(), 0);
}

#[test]
fn tokens_are_counted_in_e8s() {
    assert_eq!(Tokens::new(1, 0).unwrap().get_e8s(), 100_000_000);
    assert_eq!(Tokens::new(2, 31).unwrap().get_e8s(), 200_000_031);
    assert_eq!(Tokens::from_tokens(50_000_000).unwrap().get_e8s(), 5_000_000_000_000_000);
    assert!(matches!(Tokens::new(u64::MAX, 0), Err(Error::Generic(_))));
    assert!(matches!(Tokens::from_tokens(u64::MAX / 2), Err(Error::Generic(_))));
}

#[test]
fn account_identifiers_hold_exactly_28_bytes() {
    assert!(AccountIdentifier::from_hash(vec![0; 28]).is_ok());
    assert!(matches!(AccountIdentifier::from_hash(vec![0; 27]), Err(Error::Generic(_))));
    assert!(matches!(AccountIdentifier::from_hash(vec![0; 32]), Err(Error::Generic(_))));
}

#[test]
fn principal_text_forms_match_the_platform() {
    let ours = Principal::from_text("aaaaa-aa").unwrap();
    assert_eq!(ours.as_bytes().len(), 0);
    for text in ["2vxsx-fae", "rrkah-fqaaa-aaaaa-aaaaq-cai", "ryjl3-tyaaa-aaaaa-aaaba-cai"] {
        let theirs = candid::Principal::from_text(text).unwrap();
        let ours = Principal::from_text(text).unwrap();
        assert_eq!(ours.as_bytes().as_slice(), theirs.as_slice());
    }
    assert!(matches!(Principal::from_text("not a principal"), Err(Error::Principal(_))));
    assert!(matches!(Principal::from_text("aaaaa-ab"), Err(Error::Principal(_))));
}

#[test]
fn principals_hold_at_most_29_bytes() {
    assert!(Principal::new(vec![0; 29]).is_ok());
    assert!(matches!(Principal::new(vec![0; 30]), Err(Error::Principal(_))));
}

#[test]
fn wallet_is_found_in_the_address_book() {
    let id = candid::Principal::from_slice(&[0, 0, 0, 0, 0, 0, 0, 1, 1, 1]);
    let json = format!(
        "{{\"identities\":{{\"bob\":{{\"local\":\"{}\"}}}}}}",
        id.to_text()
    );
    let wallet = Canister::<Wallet>::new_wallet(&json, "bob").unwrap();
    assert_eq!(wallet.principal().as_bytes().as_slice(), id.as_slice());
    assert!(matches!(
        Canister::<Wallet>::new_wallet(&json, "alice"),
        Err(Error::InvalidOrMissingAccountInJson)
    ));
    assert!(matches!(
        Canister::<Wallet>::new_wallet("{]", "bob"),
        Err(Error::Json(_))
    ));
    let numeric = "{\"identities\":{\"bob\":{\"local\":7}}}";
    assert!(matches!(
        get_wallet_principal(numeric, "bob"),
        Err(Error::InvalidOrMissingAccountInJson)
    ));
    let bad_text = "{\"identities\":{\"bob\":{\"local\":\"zzz\"}}}";
    assert!(matches!(get_wallet_principal(bad_text, "bob"), Err(Error::Principal(_))));
}

#[test]
fn compute_allocation_is_a_percentage() {
    assert_eq!(ComputeAllocation::try_from(100).unwrap().get(), 100);
    assert_eq!(ComputeAllocation::try_from(0).unwrap().get(), 0);
    assert_eq!(u8::from(ComputeAllocation::try_from(33).unwrap()), 33);
    assert!(matches!(
        ComputeAllocation::try_from(101),
        Err(Error::MustBeAPercentage())
    ));
}

#[test]
fn memory_allocation_is_bounded() {
    let max = 281474976710656u64;
    assert_eq!(MemoryAllocation::try_from(max).unwrap().get(), max);
    assert_eq!(u64::from(MemoryAllocation::try_from(4096).unwrap()), 4096);
    match MemoryAllocation::try_from(max + 1) {
        Err(Error::InvalidMemorySize(v)) => assert_eq!(v, max + 1),
        other => panic!("expected a memory size error, got {other:?}"),
    }
}

#[test]
fn ledger_init_layout_matches_the_platform_serializer() {
    let named = |n: &str| Rc::new(Label::Named(n.to_string()));
    let unnamed = |i: u32| Rc::new(Label::Unnamed(i));
    let blob_ty: Type = TypeInner::Vec(TypeInner::Nat8.into()).into();
    let tokens_ty: Type = TypeInner::Record(vec![Field {
        id: named("e8s"),
        ty: TypeInner::Nat64.into(),
    }])
    .into();
    let entry_ty: Type = TypeInner::Record(vec![
        Field { id: unnamed(0), ty: blob_ty.clone() },
        Field { id: unnamed(1), ty: tokens_ty },
    ])
    .into();
    let init_ty: Type = TypeInner::Record(vec![
        Field {
            id: named("send_whitelist"),
            ty: TypeInner::Vec(TypeInner::Principal.into()).into(),
        },
        Field { id: named("minting_account"), ty: blob_ty },
        Field {
            id: named("transaction_window"),
            ty: TypeInner::Opt(TypeInner::Nat64.into()).into(),
        },
        Field {
            id: named("max_message_size_bytes"),
            ty: TypeInner::Opt(TypeInner::Nat64.into()).into(),
        },
        Field { id: named("initial_values"), ty: TypeInner::Vec(entry_ty).into() },
    ])
    .into();
    let entry = |seed: u8, e8s: u64| {
        IDLValue::Record(vec![
            IDLField { id: Label::Unnamed(0), val: IDLValue::Blob(vec![seed; 28]) },
            IDLField {
                id: Label::Unnamed(1),
                val: IDLValue::Record(vec![IDLField {
                    id: Label::Named("e8s".to_string()),
                    val: IDLValue::Nat64(e8s),
                }]),
            },
        ])
    };
    let value = IDLValue::Record(vec![
        IDLField { id: Label::Named("send_whitelist".to_string()), val: IDLValue::Vec(vec![]) },
        IDLField {
            id: Label::Named("minting_account".to_string()),
            val: IDLValue::Blob(vec![9; 28]),
        },
        IDLField { id: Label::Named("transaction_window".to_string()), val: IDLValue::None },
        IDLField { id: Label::Named("max_message_size_bytes".to_string()), val: IDLValue::None },
        IDLField {
            id: Label::Named("initial_values".to_string()),
            val: IDLValue::Vec(vec![entry(1, 100), entry(2, 50)]),
        },
    ]);
    let expected = IDLArgs::new(&[value])
        .to_bytes_with_types(&TypeEnv::new(), &[init_ty])
        .unwrap();

    let mut builder = new_ledger_canister("bob");
    builder.with_account(Ok(account(1)), Tokens::from_e8s(100)).unwrap();
    builder.with_account(Ok(account(2)), Tokens::from_e8s(50)).unwrap();
    let (payload, _) = builder.build(Ok(account(9)), None).unwrap();
    assert_eq!(encode_ledger_init(&payload), expected);
}
