//! Create and bootstrap a ledger canister.
//!
//! The builder accumulates named accounts with token balances, keyed by
//! account identifier with unique keys and last write winning, then
//! finalizes them exactly once into a canister-creation payload whose
//! minting authority is the owner's account. Resolving an identity name to
//! its account identifier needs the filesystem and the platform's key
//! derivation, so the builder takes each resolution's outcome as an
//! argument: a failed resolution surfaces before anything is submitted.
use vstd::prelude::*;

use crate::canister::wallet::{spec_principals, push_principals};
use crate::codec::{push_blob, push_byte, push_leb, push_nat64le, spec_blob, spec_leb, spec_nat64le};
use crate::errors::Error;
use crate::principal::Principal;

verus! {

/// How many e8s one whole token holds.
pub const E8S_PER_TOKEN: u64 = 100_000_000;

/// A token amount, counted in e8s (a hundred-millionth of a token).
#[derive(Copy, Clone, Debug, PartialEq, Eq, Structural)]
pub struct Tokens {
    e8s: u64,
}

impl View for Tokens {
    type V = u64;

    closed spec fn view(&self) -> u64 {
        self.e8s
    }
}

impl Tokens {
    /// A token amount from whole tokens and an e8s remainder; rejected when
    /// the total does not fit the 64-bit e8s counter.
    pub fn new(tokens: u64, e8s: u64) -> (r: Result<Tokens, Error>)
        ensures
            tokens * E8S_PER_TOKEN + e8s <= u64::MAX ==> (r matches Ok(t) && t@ == tokens
                * E8S_PER_TOKEN + e8s),
            tokens * E8S_PER_TOKEN + e8s > u64::MAX ==> (r matches Err(e) && e is Generic),
    {
        proof {
            vstd::arithmetic::div_mod::lemma_fundamental_div_mod(u64::MAX as int, E8S_PER_TOKEN as int);
        }
        if tokens <= u64::MAX / E8S_PER_TOKEN {
            let base: u64 = tokens * E8S_PER_TOKEN;
            if e8s <= u64::MAX - base {
                Ok(Tokens { e8s: base + e8s })
            } else {
                Err(Error::Generic(String::from_str("token amount overflows the e8s counter")))
            }
        } else {
            Err(Error::Generic(String::from_str("token amount overflows the e8s counter")))
        }
    }

    /// A token amount from whole tokens alone.
    pub fn from_tokens(tokens: u64) -> (r: Result<Tokens, Error>)
        ensures
            tokens * E8S_PER_TOKEN <= u64::MAX ==> (r matches Ok(t) && t@ == tokens
                * E8S_PER_TOKEN),
            tokens * E8S_PER_TOKEN > u64::MAX ==> (r matches Err(e) && e is Generic),
    {
        Tokens::new(tokens, 0)
    }

    /// A token amount from a plain e8s count.
    pub fn from_e8s(e8s: u64) -> (t: Tokens)
        ensures
            t@ == e8s,
    {
        Tokens { e8s }
    }

    /// The amount as a plain e8s count.
    pub fn get_e8s(&self) -> (r: u64)
        ensures
            r == self@,
    {
        self.e8s
    }
}

/// The number of bytes of an account identifier's hash.
pub const ACCOUNT_ID_LEN: usize = 28;

/// An account identifier: the hash the platform derives from an identity's
/// address.
#[derive(Debug)]
pub struct AccountIdentifier {
    hash: Vec<u8>,
}

impl View for AccountIdentifier {
    type V = Seq<u8>;

    closed spec fn view(&self) -> Seq<u8> {
        self.hash@
    }
}

impl Clone for AccountIdentifier {
    fn clone(&self) -> (r: Self)
        ensures
            r@ == self@,
    {
        AccountIdentifier { hash: self.hash.clone() }
    }
}

impl AccountIdentifier {
    /// Wrap a derived account hash; rejected unless it has exactly
    /// [`ACCOUNT_ID_LEN`] bytes.
    pub fn from_hash(hash: Vec<u8>) -> (r: Result<AccountIdentifier, Error>)
        ensures
            hash@.len() == ACCOUNT_ID_LEN ==> (r matches Ok(a) && a@ == hash@),
            hash@.len() != ACCOUNT_ID_LEN ==> (r matches Err(e) && e is Generic),
    {
        if hash.len() == ACCOUNT_ID_LEN {
            Ok(AccountIdentifier { hash })
        } else {
            Err(Error::Generic(String::from_str("an account identifier holds 28 bytes")))
        }
    }

    /// The hash bytes of the identifier.
    pub fn as_bytes(&self) -> (r: &Vec<u8>)
        ensures
            r@ == self@,
    {
        &self.hash
    }
}

/// The mapping that a list of account entries stands for: later entries
/// override earlier ones with the same identifier.
pub open spec fn accounts_map(entries: Seq<(AccountIdentifier, Tokens)>) -> Map<Seq<u8>, u64>
    decreases entries.len(),
{
    if entries.len() == 0 {
        Map::<Seq<u8>, u64>::empty()
    } else {
        accounts_map(entries.drop_last()).insert(entries.last().0@, entries.last().1@)
    }
}

/// The initialization payload of a ledger canister: the minting account and
/// the initial balances, with every optional tuning field left absent.
#[derive(Debug)]
pub struct LedgerCanisterInitPayload {
    /// The account credited for minting.
    pub minting_account: AccountIdentifier,
    /// The initial balance of each account; identifiers are unique.
    pub initial_values: Vec<(AccountIdentifier, Tokens)>,
    /// Left absent: the platform's default message size cap applies.
    pub max_message_size_bytes: Option<u64>,
    /// Left absent: the platform's default transaction window applies.
    pub transaction_window: Option<u64>,
    /// Left empty: no canister is whitelisted for send.
    pub send_whitelist: Vec<Principal>,
}

/// Mutable builder state for bootstrapping a ledger canister.
#[derive(Debug)]
pub struct LedgerBuilder {
    owner: String,
    accounts: Vec<(AccountIdentifier, Tokens)>,
    finalized: bool,
}

impl LedgerBuilder {
    /// The owner's identity name.
    pub closed spec fn spec_owner(&self) -> Seq<char> {
        self.owner@
    }

    /// The accumulated balances as a mapping with unique keys.
    pub closed spec fn spec_accounts(&self) -> Map<Seq<u8>, u64> {
        accounts_map(self.accounts@)
    }

    /// Whether the builder was already consumed.
    pub closed spec fn spec_finalized(&self) -> bool {
        self.finalized
    }

    fn new(owner: &str) -> (b: Self)
        ensures
            b.spec_owner() == owner@,
            b.spec_accounts() == Map::<Seq<u8>, u64>::empty(),
            !b.spec_finalized(),
    {
        LedgerBuilder { owner: owner.to_owned(), accounts: Vec::new(), finalized: false }
    }

    /// The owner's identity name, for resolving its account.
    pub fn owner_name(&self) -> (r: &String)
        ensures
            r@ == self.spec_owner(),
    {
        &self.owner
    }

    /// Add an account to the ledger canister under a resolved identifier,
    /// overwriting any prior balance for the same identifier. A failed
    /// identity resolution is handed through unchanged; a consumed builder
    /// rejects the call loudly.
    pub fn with_account(&mut self, account: Result<AccountIdentifier, Error>, tokens: Tokens) -> (r:
        Result<(), Error>)
        ensures
            final(self).spec_owner() == old(self).spec_owner(),
            final(self).spec_finalized() == old(self).spec_finalized(),
            old(self).spec_finalized() ==> (r matches Err(e) && e is Generic
                && final(self).spec_accounts() == old(self).spec_accounts()),
            !old(self).spec_finalized() ==> match account {
                Ok(a) => r is Ok && final(self).spec_accounts() == old(self).spec_accounts().insert(
                    a@,
                    tokens@,
                ),
                Err(e) => r == Err::<(), Error>(e) && final(self).spec_accounts() == old(
                    self,
                ).spec_accounts(),
            },
    {
        if self.finalized {
            return Err(Error::Generic(String::from_str("ledger builder is already finalized")));
        }
        let account: AccountIdentifier = match account {
            Ok(a) => a,
            Err(e) => {
                return Err(e);
            },
        };
        let mut kept: Vec<(AccountIdentifier, Tokens)> = Vec::new();
        let n: usize = self.accounts.len();
        let mut i: usize = 0;
        while i < n
            invariant
                i <= n,
                n == self.accounts.len(),
                accounts_map(kept@) =~= accounts_map(self.accounts@.take(i as int)).remove(
                    account@,
                ),
            decreases n - i,
        {
            let ghost prev: Seq<(AccountIdentifier, Tokens)> = kept@;
            let same: bool = bytes_eq(self.accounts[i].0.as_bytes(), account.as_bytes());
            if !same {
                let entry: (AccountIdentifier, Tokens) = (
                    self.accounts[i].0.clone(),
                    self.accounts[i].1,
                );
                kept.push(entry);
            }
            i = i + 1;
            proof {
                assert(self.accounts@.take(i as int).drop_last() =~= self.accounts@.take(
                    i as int - 1,
                ));
                if !same {
                    assert(kept@.drop_last() =~= prev);
                    assert(accounts_map(kept@) =~= accounts_map(
                        self.accounts@.take(i as int),
                    ).remove(account@));
                } else {
                    assert(accounts_map(kept@) =~= accounts_map(
                        self.accounts@.take(i as int),
                    ).remove(account@));
                }
            }
        }
        proof {
            assert(self.accounts@.take(n as int) =~= self.accounts@);
        }
        let ghost kept_before: Seq<(AccountIdentifier, Tokens)> = kept@;
        let ghost acct_view: Seq<u8> = account@;
        kept.push((account, tokens));
        proof {
            assert(kept@.drop_last() =~= kept_before);
            assert(kept@.last().0@ == acct_view);
            assert(accounts_map(kept@) == accounts_map(kept_before).insert(
                kept@.last().0@,
                kept@.last().1@,
            ));
            assert(accounts_map(kept@) =~= accounts_map(old(self).accounts@).insert(
                acct_view,
                tokens@,
            ));
        }
        self.accounts = kept;
        Ok(())
    }

    /// Finalize the ledger canister: consume the accumulated balances into
    /// an initialization payload whose minting account is the owner's, and
    /// the cycle budget to create it with, [`crate::DEFAULT_LEDGER_CYCLES`]
    /// unless overridden. A failed resolution of the owner surfaces here,
    /// before anything is submitted, and leaves the builder untouched; a
    /// consumed builder rejects a second call loudly.
    pub fn build(&mut self, owner_account: Result<AccountIdentifier, Error>, cycles: Option<u64>)
        -> (r: Result<(LedgerCanisterInitPayload, u64), Error>)
        ensures
            final(self).spec_owner() == old(self).spec_owner(),
            old(self).spec_finalized() ==> (r matches Err(e) && e is Generic && final(self)
                .spec_accounts() == old(self).spec_accounts() && final(self).spec_finalized()),
            !old(self).spec_finalized() ==> match owner_account {
                Ok(a) => {
                    &&& r matches Ok(t)
                    &&& r matches Ok(t) ==> {
                        &&& t.0.minting_account@ == a@
                        &&& accounts_map(t.0.initial_values@) == old(self).spec_accounts()
                        &&& t.0.max_message_size_bytes is None
                        &&& t.0.transaction_window is None
                        &&& t.0.send_whitelist@.len() == 0
                        &&& t.1 == match cycles {
                            Some(c) => c,
                            None => crate::DEFAULT_LEDGER_CYCLES,
                        }
                    }
                    &&& final(self).spec_accounts() == Map::<Seq<u8>, u64>::empty()
                    &&& final(self).spec_finalized()
                },
                Err(e) => r == Err::<(LedgerCanisterInitPayload, u64), Error>(e) && final(self)
                    .spec_accounts() == old(self).spec_accounts() && !final(self).spec_finalized(),
            },
    {
        if self.finalized {
            return Err(Error::Generic(String::from_str("ledger builder is already finalized")));
        }
        let owner: AccountIdentifier = match owner_account {
            Ok(a) => a,
            Err(e) => {
                return Err(e);
            },
        };
        let mut initial_values: Vec<(AccountIdentifier, Tokens)> = Vec::new();
        core::mem::swap(&mut initial_values, &mut self.accounts);
        self.finalized = true;
        let payload = (LedgerCanisterInitPayload {
            minting_account: owner,
            initial_values,
            max_message_size_bytes: None,
            transaction_window: None,
            send_whitelist: Vec::new(),
        });
        let budget: u64 = match cycles {
            Some(c) => c,
            None => crate::DEFAULT_LEDGER_CYCLES,
        };
        Ok((payload, budget))
    }
}


/// Header and type table of a ledger initialization argument:
/// `record { send_whitelist : vec principal; minting_account : blob;
/// transaction_window : opt nat64; max_message_size_bytes : opt nat64;
/// initial_values : vec record { blob; record { e8s : nat64 } } }`.
/// This is the library's own layout for its payload type.
pub open spec fn spec_ledger_init_prefix() -> Seq<u8> {
    seq![0x44u8, 0x49u8, 0x44u8, 0x4cu8, 0x07u8, 0x6cu8, 0x05u8, 0x90u8, 0xc5u8, 0xa3u8, 0xa9u8, 0x01u8, 0x01u8, 0xaeu8, 0xcbu8, 0xebu8, 0x88u8, 0x04u8, 0x02u8, 0xf1u8, 0xb6u8, 0xf9u8, 0x85u8, 0x08u8, 0x03u8, 0xe0u8, 0xabu8, 0x86u8, 0xefu8, 0x08u8, 0x03u8, 0xfdu8, 0xbau8, 0xcfu8, 0xccu8, 0x0du8, 0x04u8, 0x6du8, 0x68u8, 0x6du8, 0x7bu8, 0x6eu8, 0x78u8, 0x6du8, 0x05u8, 0x6cu8, 0x02u8, 0x00u8, 0x02u8, 0x01u8, 0x06u8, 0x6cu8, 0x01u8, 0xe0u8, 0xa9u8, 0xb3u8, 0x02u8, 0x78u8, 0x01u8, 0x00u8]
}

fn ledger_init_prefix() -> (v: Vec<u8>)
    ensures
        v@ == spec_ledger_init_prefix(),
{
    let mut v: Vec<u8> = Vec::new();
    v.push(0x44);
    v.push(0x49);
    v.push(0x44);
    v.push(0x4c);
    v.push(0x07);
    v.push(0x6c);
    v.push(0x05);
    v.push(0x90);
    v.push(0xc5);
    v.push(0xa3);
    v.push(0xa9);
    v.push(0x01);
    v.push(0x01);
    v.push(0xae);
    v.push(0xcb);
    v.push(0xeb);
    v.push(0x88);
    v.push(0x04);
    v.push(0x02);
    v.push(0xf1);
    v.push(0xb6);
    v.push(0xf9);
    v.push(0x85);
    v.push(0x08);
    v.push(0x03);
    v.push(0xe0);
    v.push(0xab);
    v.push(0x86);
    v.push(0xef);
    v.push(0x08);
    v.push(0x03);
    v.push(0xfd);
    v.push(0xba);
    v.push(0xcf);
    v.push(0xcc);
    v.push(0x0d);
    v.push(0x04);
    v.push(0x6d);
    v.push(0x68);
    v.push(0x6d);
    v.push(0x7b);
    v.push(0x6e);
    v.push(0x78);
    v.push(0x6d);
    v.push(0x05);
    v.push(0x6c);
    v.push(0x02);
    v.push(0x00);
    v.push(0x02);
    v.push(0x01);
    v.push(0x06);
    v.push(0x6c);
    v.push(0x01);
    v.push(0xe0);
    v.push(0xa9);
    v.push(0xb3);
    v.push(0x02);
    v.push(0x78);
    v.push(0x01);
    v.push(0x00);
    proof {
        assert(v@ =~= spec_ledger_init_prefix());
    }
    v
}

/// An optional 64-bit value: absent, or present with the word.
pub open spec fn spec_opt_nat64(o: Option<u64>) -> Seq<u8> {
    match o {
        None => seq![0u8],
        Some(x) => seq![1u8] + spec_nat64le(x),
    }
}

/// The balance entries of a ledger initialization, in order: each an
/// account hash and its e8s balance.
pub open spec fn spec_init_entries(entries: Seq<(Seq<u8>, u64)>) -> Seq<u8>
    decreases entries.len(),
{
    if entries.len() == 0 {
        Seq::<u8>::empty()
    } else {
        spec_blob(entries.first().0) + spec_nat64le(entries.first().1) + spec_init_entries(
            entries.drop_first(),
        )
    }
}

/// The view of the accumulated entries: each account's hash bytes and its
/// balance.
pub open spec fn entries_view(entries: Seq<(AccountIdentifier, Tokens)>) -> Seq<(Seq<u8>, u64)> {
    entries.map_values(|e: (AccountIdentifier, Tokens)| (e.0@, e.1@))
}

/// The encoded bytes of a ledger initialization argument.
pub open spec fn spec_encode_ledger_init(
    minting: Seq<u8>,
    entries: Seq<(Seq<u8>, u64)>,
    max_message_size_bytes: Option<u64>,
    transaction_window: Option<u64>,
    whitelist: Seq<Seq<u8>>,
) -> Seq<u8> {
    spec_ledger_init_prefix() + spec_leb(whitelist.len()) + spec_principals(whitelist)
        + spec_blob(minting) + spec_opt_nat64(transaction_window) + spec_opt_nat64(
        max_message_size_bytes,
    ) + spec_leb(entries.len()) + spec_init_entries(entries)
}

fn push_init_entries(out: &mut Vec<u8>, entries: &Vec<(AccountIdentifier, Tokens)>, i: usize)
    requires
        i <= entries.len(),
    ensures
        final(out)@ == old(out)@ + spec_init_entries(entries_view(entries@.skip(i as int))),
    decreases entries.len() - i,
{
    let ghost m: Seq<(Seq<u8>, u64)> = entries_view(entries@.skip(i as int));
    if i < entries.len() {
        push_blob(out, entries[i].0.as_bytes().as_slice());
        push_nat64le(out, entries[i].1.get_e8s());
        push_init_entries(out, entries, i + 1);
        proof {
            assert(m.first() == (entries@[i as int].0@, entries@[i as int].1@));
            assert(m.drop_first() =~= entries_view(entries@.skip(i as int + 1)));
            assert(out@ =~= old(out)@ + spec_init_entries(m));
        }
    } else {
        proof {
            assert(m =~= Seq::<(Seq<u8>, u64)>::empty());
            assert(out@ =~= old(out)@ + spec_init_entries(m));
        }
    }
}

fn push_opt_nat64(out: &mut Vec<u8>, o: &Option<u64>)
    ensures
        final(out)@ == old(out)@ + spec_opt_nat64(*o),
{
    match o {
        None => {
            push_byte(out, 0u8);
        },
        Some(x) => {
            push_byte(out, 1u8);
            push_nat64le(out, *x);
        },
    }
}

/// Serialize a ledger initialization payload into the argument bytes of
/// the creation call that installs the ledger module.
pub fn encode_ledger_init(p: &LedgerCanisterInitPayload) -> (out: Vec<u8>)
    ensures
        out@ == spec_encode_ledger_init(
            p.minting_account@,
            entries_view(p.initial_values@),
            p.max_message_size_bytes,
            p.transaction_window,
            p.send_whitelist@.map_values(|q: Principal| q@),
        ),
{
    let mut out: Vec<u8> = ledger_init_prefix();
    push_leb(&mut out, p.send_whitelist.len() as u64);
    push_principals(&mut out, &p.send_whitelist, 0);
    proof {
        assert(p.send_whitelist@.skip(0) =~= p.send_whitelist@);
    }
    push_blob(&mut out, p.minting_account.as_bytes().as_slice());
    push_opt_nat64(&mut out, &p.transaction_window);
    push_opt_nat64(&mut out, &p.max_message_size_bytes);
    push_leb(&mut out, p.initial_values.len() as u64);
    push_init_entries(&mut out, &p.initial_values, 0);
    proof {
        assert(p.initial_values@.skip(0) =~= p.initial_values@);
    }
    out
}

/// Compare two byte strings.
fn bytes_eq(a: &Vec<u8>, b: &Vec<u8>) -> (r: bool)
    ensures
        r == (a@ == b@),
{
    if a.len() != b.len() {
        return false;
    }
    let mut i: usize = 0;
    while i < a.len()
        invariant
            i <= a.len(),
            a.len() == b.len(),
            forall|j: int| 0 <= j < i ==> a@[j] == b@[j],
        decreases a.len() - i,
    {
        if a[i] != b[i] {
            return false;
        }
        i = i + 1;
    }
    proof {
        assert(a@ =~= b@);
    }
    true
}

/// Create a new ledger canister through the [`LedgerBuilder`].
pub fn new_ledger_canister(owner: &str) -> (b: LedgerBuilder)
    ensures
        b.spec_owner() == owner@,
        b.spec_accounts() == Map::<Seq<u8>, u64>::empty(),
        !b.spec_finalized(),
{
    LedgerBuilder::new(owner)
}

/// Two accounts added under distinct identifiers and then finalized stand
/// in the payload's mapping as exactly those two entries, each with its own
/// balance: the mapping that the builder's contracts accumulate from an
/// empty start is pinned to the two inserts.
pub proof fn lemma_two_accounts(k1: Seq<u8>, v1: u64, k2: Seq<u8>, v2: u64)
    requires
        k1 != k2,
    ensures
        ({
            let m = Map::<Seq<u8>, u64>::empty().insert(k1, v1).insert(k2, v2);
            &&& m.dom() =~= set![k1, k2]
            &&& m[k1] == v1
            &&& m[k2] == v2
            &&& m.dom().len() == 2
        }),
{
    let m = Map::<Seq<u8>, u64>::empty().insert(k1, v1).insert(k2, v2);
    assert(m.dom() =~= set![k1, k2]);
    assert(set![k1, k2].len() == 2) by {
        broadcast use vstd::set::axiom_set_empty_len, vstd::set::axiom_set_insert_len;

        assert(set![k1, k2] =~= Set::<Seq<u8>>::empty().insert(k1).insert(k2));
    }
}

/// Adding a balance twice under one identifier leaves only the second:
/// the later insert wins.
pub proof fn lemma_last_write_wins(k: Seq<u8>, v1: u64, v2: u64)
    ensures
        Map::<Seq<u8>, u64>::empty().insert(k, v1).insert(k, v2) == Map::<Seq<u8>, u64>::empty()
            .insert(k, v2),
{
    assert(Map::<Seq<u8>, u64>::empty().insert(k, v1).insert(k, v2) =~= Map::<
        Seq<u8>,
        u64,
    >::empty().insert(k, v2));
}

} // verus!
