//! The execution database: a mutable view of world state (balances, nonces,
//! code and storage references), exposing read and commit operations, and
//! the checked balance-adjustment primitives.

use vstd::prelude::*;

use crate::error::Error;
use crate::types::{Address, B256};
use crate::u256::{pow2_256, U256};

verus! {

/// One account of the world state. An account is "touched" when it must
/// appear in the resulting state diff even if its values did not change.
#[derive(Clone, Copy, Debug, PartialEq, Eq, Structural)]
pub struct AccountState {
    pub balance: U256,
    pub nonce: u64,
    pub code_hash: B256,
    pub storage_root: B256,
    pub touched: bool,
}

/// The mathematical content of an account: the balance as a number.
pub struct AccountModel {
    pub balance: nat,
    pub nonce: u64,
    pub code_hash: B256,
    pub storage_root: B256,
    pub touched: bool,
}

/// The content of an account.
pub open spec fn acct_model(a: AccountState) -> AccountModel {
    AccountModel {
        balance: a.balance.as_nat(),
        nonce: a.nonce,
        code_hash: a.code_hash,
        storage_root: a.storage_root,
        touched: a.touched,
    }
}

/// The default empty account, served when an address is absent.
pub open spec fn empty_model() -> AccountModel {
    AccountModel {
        balance: 0,
        nonce: 0,
        code_hash: B256 { hi: 0, lo: 0 },
        storage_root: B256 { hi: 0, lo: 0 },
        touched: false,
    }
}

impl AccountState {
    /// The default empty account.
    pub fn empty() -> (r: AccountState)
        ensures
            acct_model(r) == empty_model(),
    {
        AccountState {
            balance: U256::zero(),
            nonce: 0,
            code_hash: B256::zero(),
            storage_root: B256::zero(),
            touched: false,
        }
    }
}

/// The account an address resolves to: the stored one, else the empty one.
pub open spec fn model_at(m: Map<Address, AccountModel>, a: Address) -> AccountModel {
    if m.contains_key(a) {
        m[a]
    } else {
        empty_model()
    }
}

/// The key-value entries of an association list, later entries winning.
pub open spec fn entries_map(s: Seq<(Address, AccountState)>) -> Map<Address, AccountModel>
    decreases s.len(),
{
    if s.len() == 0 {
        Map::empty()
    } else {
        entries_map(s.drop_last()).insert(s.last().0, acct_model(s.last().1))
    }
}

/// Whether an association list holds each address at most once.
pub open spec fn unique_addresses(s: Seq<(Address, AccountState)>) -> bool {
    forall|i: int, j: int|
        0 <= i < j < s.len() ==> (#[trigger] s[i]).0 != (#[trigger] s[j]).0
}

/// An address occurs in the list exactly when the entry map holds it.
pub proof fn lemma_entries_contains(s: Seq<(Address, AccountState)>, a: Address)
    ensures
        entries_map(s).contains_key(a) <==> (exists|i: int| 0 <= i < s.len() && (#[trigger] s[i]).0 == a),
    decreases s.len(),
{
    if s.len() > 0 {
        let prefix = s.drop_last();
        lemma_entries_contains(prefix, a);
        if s.last().0 == a {
            assert(s[s.len() - 1].0 == a);
        } else {
            if entries_map(s).contains_key(a) {
                let i = choose|i: int| 0 <= i < prefix.len() && (#[trigger] prefix[i]).0 == a;
                assert(s[i].0 == a);
            }
            if exists|i: int| 0 <= i < s.len() && (#[trigger] s[i]).0 == a {
                let i = choose|i: int| 0 <= i < s.len() && (#[trigger] s[i]).0 == a;
                assert(i < s.len() - 1);
                assert(prefix[i].0 == a);
            }
        }
    }
}

/// In a list with unique addresses, the entry at any index is what the
/// entry map holds for its address.
pub proof fn lemma_entries_at(s: Seq<(Address, AccountState)>, i: int)
    requires
        unique_addresses(s),
        0 <= i < s.len(),
    ensures
        entries_map(s).contains_key(s[i].0),
        entries_map(s)[s[i].0] == acct_model(s[i].1),
    decreases s.len(),
{
    if i < s.len() - 1 {
        let prefix = s.drop_last();
        assert(unique_addresses(prefix)) by {
            assert(forall|x: int, y: int|
                0 <= x < y < prefix.len() ==> (#[trigger] prefix[x]).0 != (#[trigger] prefix[y]).0
            ) by {
                assert(forall|x: int| 0 <= x < prefix.len() ==> prefix[x] == s[x]);
            }
        }
        lemma_entries_at(prefix, i);
        assert(s.last().0 != s[i].0);
    }
}

/// Updating the entry at an index replaces exactly that address's account.
pub proof fn lemma_entries_update(s: Seq<(Address, AccountState)>, i: int, acct: AccountState)
    requires
        unique_addresses(s),
        0 <= i < s.len(),
    ensures
        entries_map(s.update(i, (s[i].0, acct))) == entries_map(s).insert(s[i].0, acct_model(acct)),
    decreases s.len(),
{
    let t = s.update(i, (s[i].0, acct));
    if i == s.len() - 1 {
        assert(t.drop_last() =~= s.drop_last());
        assert(t.last() == (s[i].0, acct));
        assert(entries_map(t) =~= entries_map(s).insert(s[i].0, acct_model(acct)));
    } else {
        let prefix = s.drop_last();
        assert(unique_addresses(prefix)) by {
            assert(forall|x: int| 0 <= x < prefix.len() ==> prefix[x] == s[x]);
        }
        lemma_entries_update(prefix, i, acct);
        assert(t.drop_last() =~= prefix.update(i, (s[i].0, acct)));
        assert(t.last() == s.last());
        assert(s.last().0 != s[i].0);
        assert(entries_map(t) =~= entries_map(s).insert(s[i].0, acct_model(acct)));
    }
}

/// Whether every balance a state holds is representable in 256 bits.
pub open spec fn balances_bounded(m: Map<Address, AccountModel>) -> bool {
    forall|a: Address| m.contains_key(a) ==> (#[trigger] m[a]).balance < pow2_256()
}

/// A state read out of a database always has representable balances.
pub proof fn lemma_entries_balances_bounded(s: Seq<(Address, AccountState)>)
    ensures
        balances_bounded(entries_map(s)),
    decreases s.len(),
{
    if s.len() > 0 {
        lemma_entries_balances_bounded(s.drop_last());
        s.last().1.balance.lemma_as_nat_bound();
    }
}

/// The execution database, owned by one strategy for the span of one
/// block's replay.
pub struct ExecDb {
    pub accounts: Vec<(Address, AccountState)>,
}

impl ExecDb {
    /// The world state this database holds.
    pub open spec fn view(self) -> Map<Address, AccountModel> {
        entries_map(self.accounts@)
    }

    /// Well-formedness: each address is stored at most once.
    pub open spec fn wf(self) -> bool {
        unique_addresses(self.accounts@)
    }

    /// An empty database.
    pub fn new() -> (r: ExecDb)
        ensures
            r.wf(),
            r.view() == Map::<Address, AccountModel>::empty(),
    {
        ExecDb { accounts: Vec::new() }
    }

    /// Start a database from a list of accounts; a later entry for the same
    /// address overrides an earlier one.
    pub fn from_accounts(accounts: Vec<(Address, AccountState)>) -> (r: ExecDb)
        ensures
            r.wf(),
            r.view() == entries_map(accounts@),
    {
        let mut db = ExecDb::new();
        let n = accounts.len();
        let mut i: usize = 0;
        while i < n
            invariant
                n == accounts@.len(),
                i <= n,
                db.wf(),
                db.view() == entries_map(accounts@.take(i as int)),
            decreases n - i,
        {
            let (addr, acct) = accounts[i];
            db.commit(addr, acct);
            proof {
                assert(accounts@.take(i + 1).drop_last() =~= accounts@.take(i as int));
                assert(accounts@.take(i + 1).last() == accounts@[i as int]);
            }
            i = i + 1;
        }
        proof {
            assert(accounts@.take(n as int) =~= accounts@);
        }
        db
    }

    /// The index holding an address, if any.
    fn find_index(&self, address: Address) -> (r: Option<usize>)
        ensures
            match r {
                Some(i) => i < self.accounts@.len() && self.accounts@[i as int].0 == address,
                None => forall|j: int|
                    0 <= j < self.accounts@.len() ==> (#[trigger] self.accounts@[j]).0 != address,
            },
    {
        let n = self.accounts.len();
        let mut k: usize = 0;
        while k < n
            invariant
                n == self.accounts@.len(),
                k <= n,
                forall|j: int| 0 <= j < k ==> (#[trigger] self.accounts@[j]).0 != address,
            decreases n - k,
        {
            if self.accounts[k].0 == address {
                return Some(k);
            }
            k = k + 1;
        }
        None
    }

    /// Read an account: `Some` exactly when the address is present, with
    /// the stored account.
    pub fn basic(&self, address: Address) -> (r: Option<AccountState>)
        requires
            self.wf(),
        ensures
            match r {
                Some(acct) => self.view().contains_key(address) && acct_model(acct)
                    == self.view()[address],
                None => !self.view().contains_key(address),
            },
    {
        proof {
            lemma_entries_contains(self.accounts@, address);
        }
        match self.find_index(address) {
            Some(i) => {
                proof {
                    lemma_entries_at(self.accounts@, i as int);
                }
                Some(self.accounts[i].1)
            },
            None => None,
        }
    }

    /// Commit one account delta: afterwards the state maps the address to
    /// exactly this account and is elsewhere unchanged.
    pub fn commit(&mut self, address: Address, account: AccountState)
        requires
            old(self).wf(),
        ensures
            final(self).wf(),
            final(self).view() == old(self).view().insert(address, acct_model(account)),
    {
        let ghost s0 = self.accounts@;
        match self.find_index(address) {
            Some(i) => {
                self.accounts.set(i, (address, account));
                proof {
                    assert(self.accounts@ =~= s0.update(i as int, (s0[i as int].0, account)));
                    lemma_entries_update(s0, i as int, account);
                    assert(unique_addresses(self.accounts@)) by {
                        assert(forall|x: int|
                            0 <= x < s0.len() ==> (#[trigger] self.accounts@[x]).0 == s0[x].0);
                    }
                }
            },
            None => {
                self.accounts.push((address, account));
                proof {
                    assert(self.accounts@.drop_last() =~= s0);
                    assert(self.accounts@.last() == (address, account));
                    assert(unique_addresses(self.accounts@)) by {
                        assert(forall|x: int|
                            0 <= x < s0.len() ==> (#[trigger] self.accounts@[x]) == s0[x]);
                    }
                }
            },
        }
    }
}

/// Whether a credit of `amount` to `a` stays within 256 bits.
pub open spec fn credit_ok(m: Map<Address, AccountModel>, a: Address, amount: nat) -> bool {
    model_at(m, a).balance + amount < pow2_256()
}

/// The state after crediting `amount` to `a`: the balance grows, the
/// account is marked touched, everything else is unchanged.
pub open spec fn credited(m: Map<Address, AccountModel>, a: Address, amount: nat) -> Map<
    Address,
    AccountModel,
> {
    let prior = model_at(m, a);
    m.insert(
        a,
        AccountModel {
            balance: (prior.balance + amount) as nat,
            nonce: prior.nonce,
            code_hash: prior.code_hash,
            storage_root: prior.storage_root,
            touched: true,
        },
    )
}

/// Whether a debit of `amount` from `a` is covered by the balance.
pub open spec fn debit_ok(m: Map<Address, AccountModel>, a: Address, amount: nat) -> bool {
    model_at(m, a).balance >= amount
}

/// The state after debiting `amount` from `a`.
pub open spec fn debited(m: Map<Address, AccountModel>, a: Address, amount: nat) -> Map<
    Address,
    AccountModel,
> {
    let prior = model_at(m, a);
    m.insert(
        a,
        AccountModel {
            balance: (prior.balance - amount) as nat,
            nonce: prior.nonce,
            code_hash: prior.code_hash,
            storage_root: prior.storage_root,
            touched: true,
        },
    )
}

/// Credit an amount to an account: read it (empty when absent), apply a
/// checked addition, mark it touched and commit. Overflow is a fatal
/// arithmetic invariant violation and leaves the state unchanged.
pub fn increase_account_balance(db: &mut ExecDb, address: Address, amount_wei: U256) -> (r: Result<
    (),
    Error,
>)
    requires
        old(db).wf(),
    ensures
        final(db).wf(),
        credit_ok(old(db).view(), address, amount_wei.as_nat()) ==> r == Ok::<(), Error>(())
            && final(db).view() == credited(old(db).view(), address, amount_wei.as_nat()),
        !credit_ok(old(db).view(), address, amount_wei.as_nat()) ==> r == Err::<(), Error>(
            Error::ArithmeticInvariantViolation,
        ) && final(db).view() == old(db).view(),
{
    let prior = match db.basic(address) {
        Some(acct) => acct,
        None => AccountState::empty(),
    };
    match prior.balance.checked_add(amount_wei) {
        Some(new_balance) => {
            let account = AccountState {
                balance: new_balance,
                nonce: prior.nonce,
                code_hash: prior.code_hash,
                storage_root: prior.storage_root,
                touched: true,
            };
            db.commit(address, account);
            Ok(())
        },
        None => Err(Error::ArithmeticInvariantViolation),
    }
}

/// Debit an amount from an account: read it (empty when absent), apply a
/// checked subtraction, mark it touched and commit. A debit larger than the
/// balance is a fatal arithmetic invariant violation and leaves the state
/// unchanged: a balance never goes below zero.
pub fn decrease_account_balance(db: &mut ExecDb, address: Address, amount_wei: U256) -> (r: Result<
    (),
    Error,
>)
    requires
        old(db).wf(),
    ensures
        final(db).wf(),
        debit_ok(old(db).view(), address, amount_wei.as_nat()) ==> r == Ok::<(), Error>(())
            && final(db).view() == debited(old(db).view(), address, amount_wei.as_nat()),
        !debit_ok(old(db).view(), address, amount_wei.as_nat()) ==> r == Err::<(), Error>(
            Error::ArithmeticInvariantViolation,
        ) && final(db).view() == old(db).view(),
{
    let prior = match db.basic(address) {
        Some(acct) => acct,
        None => AccountState::empty(),
    };
    match prior.balance.checked_sub(amount_wei) {
        Some(new_balance) => {
            let account = AccountState {
                balance: new_balance,
                nonce: prior.nonce,
                code_hash: prior.code_hash,
                storage_root: prior.storage_root,
                touched: true,
            };
            db.commit(address, account);
            Ok(())
        },
        None => Err(Error::ArithmeticInvariantViolation),
    }
}

} // verus!
