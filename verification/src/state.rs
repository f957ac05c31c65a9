//! The journaled account state the handler and the system contracts act on:
//! accounts keyed by address, emitted logs, a preloaded code store, and an
//! all-or-nothing checkpoint per transaction.
//!
//! The state is modelled as a `Map` from address bytes to an account model;
//! every mutation's contract is stated against that map.

use vstd::prelude::*;
use crate::address::Address;
use crate::u256::{U256, sat256, pow2_256};
use crate::byteops::eq_bytes;

verus! {

/// The mathematical model of one account.
pub ghost struct AccountModel {
    pub balance: int,
    pub nonce: nat,
    pub code: Option<Seq<u8>>,
    pub touched: bool,
    pub warm: bool,
}

/// One account's concrete state.
#[derive(Debug)]
pub struct Account {
    pub balance: U256,
    pub nonce: u64,
    pub code: Option<Vec<u8>>,
    pub touched: bool,
    pub warm: bool,
}

impl Account {
    /// The account's model.
    pub open spec fn model(self) -> AccountModel {
        AccountModel {
            balance: self.balance.as_nat(),
            nonce: self.nonce as nat,
            code: match self.code {
                Some(c) => Some(c@),
                None => None,
            },
            touched: self.touched,
            warm: self.warm,
        }
    }

    /// A fresh, empty account.
    pub fn new_empty() -> (r: Account)
        ensures
            r.model() == empty_account_model(),
    {
        Account { balance: U256::zero(), nonce: 0, code: None, touched: false, warm: false }
    }
}

/// The model of a fresh, empty account.
pub open spec fn empty_account_model() -> AccountModel {
    AccountModel { balance: 0, nonce: 0, code: None, touched: false, warm: false }
}

/// The mathematical model of one emitted log.
pub ghost struct LogModel {
    pub address: Seq<u8>,
    pub topics: Seq<Seq<u8>>,
    pub data: Seq<u8>,
}

/// One emitted log.
#[derive(Debug)]
pub struct LogEntry {
    pub address: Address,
    pub topics: Vec<Vec<u8>>,
    pub data: Vec<u8>,
}

impl LogEntry {
    /// The log's model.
    pub open spec fn model(self) -> LogModel {
        LogModel {
            address: self.address@,
            topics: Seq::new(self.topics@.len(), |i: int| self.topics@[i]@),
            data: self.data@,
        }
    }
}

/// The map modelled by an address-keyed entry list; a later entry wins.
pub open spec fn as_map(s: Seq<(Address, Account)>) -> Map<Seq<u8>, AccountModel>
    decreases s.len(),
{
    if s.len() == 0 {
        Map::empty()
    } else {
        as_map(s.drop_last()).insert(s.last().0@, s.last().1.model())
    }
}

/// No two entries share an address.
pub open spec fn unique_keys(s: Seq<(Address, Account)>) -> bool {
    forall|i: int, j: int| 0 <= i < j < s.len() ==> s[i].0@ != s[j].0@
}

/// Every entry's address is well formed.
pub open spec fn keys_wf(s: Seq<(Address, Account)>) -> bool {
    forall|i: int| 0 <= i < s.len() ==> (#[trigger] s[i].0@).len() == 20
}

/// An address found nowhere in the list is not in the map.
pub proof fn lemma_as_map_absent(s: Seq<(Address, Account)>, k: Seq<u8>)
    requires
        forall|i: int| 0 <= i < s.len() ==> (#[trigger] s[i].0@) != k,
    ensures
        !as_map(s).contains_key(k),
    decreases s.len(),
{
    if s.len() > 0 {
        lemma_as_map_absent(s.drop_last(), k);
    }
}

/// With unique keys, entry `i` decides the map at its address.
pub proof fn lemma_as_map_index(s: Seq<(Address, Account)>, i: int)
    requires
        unique_keys(s),
        0 <= i < s.len(),
    ensures
        as_map(s).contains_key(s[i].0@),
        as_map(s)[s[i].0@] == s[i].1.model(),
    decreases s.len(),
{
    if i == s.len() - 1 {
    } else {
        lemma_as_map_index(s.drop_last(), i);
    }
}

/// Updating entry `i` in place updates the map at its address.
pub proof fn lemma_as_map_update(s: Seq<(Address, Account)>, i: int, e: (Address, Account))
    requires
        unique_keys(s),
        0 <= i < s.len(),
        e.0@ == s[i].0@,
    ensures
        as_map(s.update(i, e)) == as_map(s).insert(e.0@, e.1.model()),
    decreases s.len(),
{
    let t = s.update(i, e);
    if i == s.len() - 1 {
        assert(t.drop_last() =~= s.drop_last());
        assert(as_map(t) =~= as_map(s).insert(e.0@, e.1.model()));
    } else {
        lemma_as_map_update(s.drop_last(), i, e);
        assert(t.drop_last() =~= s.drop_last().update(i, e));
        assert(t.last() == s.last());
        assert(as_map(t) == as_map(s.drop_last()).insert(e.0@, e.1.model()).insert(s.last().0@,
            s.last().1.model()));
        assert(s[i].0@ != s.last().0@);
        assert(as_map(t) =~= as_map(s).insert(e.0@, e.1.model()));
    }
}

/// Entry lists that agree key by key and model by model.
pub open spec fn entries_equiv(s: Seq<(Address, Account)>, t: Seq<(Address, Account)>) -> bool {
    &&& s.len() == t.len()
    &&& forall|i: int|
        0 <= i < s.len() ==> (#[trigger] s[i].0@) == t[i].0@ && s[i].1.model() == t[i].1.model()
}

/// Equivalent entry lists have the same map.
pub proof fn lemma_as_map_congruent(s: Seq<(Address, Account)>, t: Seq<(Address, Account)>)
    requires
        entries_equiv(s, t),
    ensures
        as_map(s) == as_map(t),
    decreases s.len(),
{
    if s.len() > 0 {
        assert(entries_equiv(s.drop_last(), t.drop_last()));
        lemma_as_map_congruent(s.drop_last(), t.drop_last());
        assert(as_map(s) =~= as_map(t));
    }
}

/// Pointwise-equal keys carry uniqueness and well-formedness over.
pub proof fn lemma_keys_preserved(pre: Seq<(Address, Account)>, post: Seq<(Address, Account)>)
    requires
        pre.len() == post.len(),
        forall|i: int| 0 <= i < pre.len() ==> (#[trigger] post[i].0@) == pre[i].0@,
        unique_keys(pre),
        keys_wf(pre),
    ensures
        unique_keys(post),
        keys_wf(post),
{
}

/// `m` with an empty account created under `k` when none exists: the
/// engine's account-load semantics.
pub open spec fn spec_loaded_map(m: Map<Seq<u8>, AccountModel>, k: Seq<u8>) -> Map<
    Seq<u8>,
    AccountModel,
> {
    if m.contains_key(k) {
        m
    } else {
        m.insert(k, empty_account_model())
    }
}

/// The first bytecode stored under a hash, if any.
pub open spec fn spec_code_by_hash(s: Seq<(Vec<u8>, Vec<u8>)>, h: Seq<u8>) -> Option<Seq<u8>>
    decreases s.len(),
{
    if s.len() == 0 {
        None
    } else if s[0].0@ == h {
        Some(s[0].1@)
    } else {
        spec_code_by_hash(s.subrange(1, s.len() as int), h)
    }
}

/// A transfer that could not be applied.
#[derive(Clone, Copy, Debug, PartialEq, Eq, Structural)]
pub enum TransferError {
    /// The source balance is smaller than the amount.
    OutOfFunds,
    /// The destination balance would overflow.
    OverflowPayment,
}

/// The journaled world state.
#[derive(Debug)]
pub struct JournalState {
    /// Live accounts, keyed by address.
    pub accounts: Vec<(Address, Account)>,
    /// Logs emitted so far.
    pub logs: Vec<LogEntry>,
    /// Preloaded bytecode, keyed by 32-byte hash; read-only here.
    pub code_store: Vec<(Vec<u8>, Vec<u8>)>,
    /// The accounts and log count at the open checkpoint, if one is open.
    pub snapshot: Option<(Vec<(Address, Account)>, usize)>,
}

impl JournalState {
    /// The state's account map.
    pub open spec fn accounts_map(self) -> Map<Seq<u8>, AccountModel> {
        as_map(self.accounts@)
    }

    /// The state's emitted logs.
    pub open spec fn logs_model(self) -> Seq<LogModel> {
        Seq::new(self.logs@.len(), |i: int| self.logs@[i].model())
    }

    /// The account map saved at the open checkpoint.
    pub open spec fn checkpoint_map(self) -> Map<Seq<u8>, AccountModel> {
        as_map(self.snapshot.unwrap().0@)
    }

    /// The log count saved at the open checkpoint.
    pub open spec fn checkpoint_log_len(self) -> int {
        self.snapshot.unwrap().1 as int
    }

    /// The preloaded code store, as a map from hash to bytecode.
    pub open spec fn code_store_contains(self, hash: Seq<u8>, code: Seq<u8>) -> bool {
        exists|i: int| 0 <= i < self.code_store@.len() && (#[trigger] self.code_store@[i]).0@
            == hash && self.code_store@[i].1@ == code
    }

    /// Well-formedness: keys are unique, well-formed addresses; so in the
    /// snapshot.
    pub open spec fn wf(self) -> bool {
        &&& unique_keys(self.accounts@)
        &&& keys_wf(self.accounts@)
        &&& (self.snapshot is Some ==> unique_keys(self.snapshot.unwrap().0@) && keys_wf(
            self.snapshot.unwrap().0@,
        ) && self.snapshot.unwrap().1 <= self.logs@.len())
    }

    /// A fresh, empty state.
    pub fn new() -> (r: JournalState)
        ensures
            r.wf(),
            r.accounts_map() == Map::<Seq<u8>, AccountModel>::empty(),
            r.logs_model() == Seq::<LogModel>::empty(),
            r.snapshot is None,
            r.code_store@.len() == 0,
    {
        let r = JournalState {
            accounts: Vec::new(),
            logs: Vec::new(),
            code_store: Vec::new(),
            snapshot: None,
        };
        proof {
            assert(r.logs_model() =~= Seq::<LogModel>::empty());
        }
        r
    }

    /// The index of the entry for `addr`, if one exists.
    fn find_index(&self, addr: &[u8]) -> (r: Option<usize>)
        ensures
            match r {
                Some(i) => i < self.accounts@.len() && self.accounts@[i as int].0@ == addr@,
                None => forall|i: int|
                    0 <= i < self.accounts@.len() ==> (#[trigger] self.accounts@[i].0@) != addr@,
            },
    {
        let n = self.accounts.len();
        let mut i: usize = 0;
        while i < n
            invariant
                0 <= i <= n,
                n == self.accounts@.len(),
                forall|j: int| 0 <= j < i ==> (#[trigger] self.accounts@[j].0@) != addr@,
            decreases n - i,
        {
            if eq_bytes(self.accounts[i].0.as_slice(), addr) {
                return Some(i);
            }
            i += 1;
        }
        None
    }

    /// Whether an account exists for `addr`.
    pub fn contains_account(&self, addr: &Address) -> (r: bool)
        requires
            self.wf(),
        ensures
            r == self.accounts_map().contains_key(addr@),
    {
        match self.find_index(addr.as_slice()) {
            Some(i) => {
                proof {
                    lemma_as_map_index(self.accounts@, i as int);
                }
                true
            },
            None => {
                proof {
                    lemma_as_map_absent(self.accounts@, addr@);
                }
                false
            },
        }
    }

    /// Loads the account for `addr`, creating an empty one if none exists;
    /// the engine's account-load with creation on first touch.
    pub fn load_account(&mut self, addr: &Address)
        requires
            old(self).wf(),
            addr@.len() == 20,
        ensures
            final(self).wf(),
            final(self).accounts_map() == if old(self).accounts_map().contains_key(addr@) {
                old(self).accounts_map()
            } else {
                old(self).accounts_map().insert(addr@, empty_account_model())
            },
            final(self).accounts_map().contains_key(addr@),
            final(self).logs@ == old(self).logs@,
            final(self).snapshot == old(self).snapshot,
            final(self).code_store@ == old(self).code_store@,
    {
        match self.find_index(addr.as_slice()) {
            Some(i) => {
                proof {
                    lemma_as_map_index(self.accounts@, i as int);
                    assert(final(self).accounts_map() =~= old(self).accounts_map());
                }
            },
            None => {
                proof {
                    lemma_as_map_absent(self.accounts@, addr@);
                }
                let entry = (addr.duplicate(), Account::new_empty());
                let ghost pre = self.accounts@;
                self.accounts.push(entry);
                proof {
                    assert(self.accounts@.drop_last() =~= pre);
                    lemma_as_map_index(self.accounts@, self.accounts@.len() - 1);
                }
            },
        }
    }

    /// The balance of an existing account.
    pub fn balance_of(&self, addr: &Address) -> (r: U256)
        requires
            self.wf(),
            self.accounts_map().contains_key(addr@),
        ensures
            r.as_nat() == self.accounts_map()[addr@].balance,
    {
        match self.find_index(addr.as_slice()) {
            Some(i) => {
                proof {
                    lemma_as_map_index(self.accounts@, i as int);
                }
                self.accounts[i].1.balance
            },
            None => {
                proof {
                    lemma_as_map_absent(self.accounts@, addr@);
                }
                U256::zero()
            },
        }
    }

    /// The nonce of an existing account.
    pub fn nonce_of(&self, addr: &Address) -> (r: u64)
        requires
            self.wf(),
            self.accounts_map().contains_key(addr@),
        ensures
            r == self.accounts_map()[addr@].nonce,
    {
        match self.find_index(addr.as_slice()) {
            Some(i) => {
                proof {
                    lemma_as_map_index(self.accounts@, i as int);
                }
                self.accounts[i].1.nonce
            },
            None => {
                proof {
                    lemma_as_map_absent(self.accounts@, addr@);
                }
                0
            },
        }
    }

    /// Replaces the balance of an existing account.
    pub fn set_balance(&mut self, addr: &Address, v: U256)
        requires
            old(self).wf(),
            old(self).accounts_map().contains_key(addr@),
        ensures
            final(self).wf(),
            final(self).accounts_map() == old(self).accounts_map().insert(addr@,
                AccountModel { balance: v.as_nat(), ..old(self).accounts_map()[addr@] }),
            final(self).logs@ == old(self).logs@,
            final(self).snapshot == old(self).snapshot,
            final(self).code_store@ == old(self).code_store@,
    {
        match self.find_index(addr.as_slice()) {
            Some(i) => {
                proof {
                    lemma_as_map_index(self.accounts@, i as int);
                }
                let ghost pre = self.accounts@;
                let e = &mut self.accounts[i];
                e.1.balance = v;
                proof {
                    lemma_as_map_update(pre, i as int, self.accounts@[i as int]);
                    lemma_keys_preserved(pre, self.accounts@);
                }
            },
            None => {
                proof {
                    lemma_as_map_absent(self.accounts@, addr@);
                }
            },
        }
    }

    /// Bumps the nonce of an existing account, clamping at the maximum.
    pub fn bump_nonce(&mut self, addr: &Address)
        requires
            old(self).wf(),
            old(self).accounts_map().contains_key(addr@),
        ensures
            final(self).wf(),
            final(self).accounts_map() == old(self).accounts_map().insert(addr@,
                AccountModel {
                    nonce: if old(self).accounts_map()[addr@].nonce < u64::MAX {
                        (old(self).accounts_map()[addr@].nonce + 1) as nat
                    } else {
                        u64::MAX as nat
                    },
                    ..old(self).accounts_map()[addr@]
                }),
            final(self).logs@ == old(self).logs@,
            final(self).snapshot == old(self).snapshot,
            final(self).code_store@ == old(self).code_store@,
    {
        match self.find_index(addr.as_slice()) {
            Some(i) => {
                proof {
                    lemma_as_map_index(self.accounts@, i as int);
                }
                let ghost pre = self.accounts@;
                let e = &mut self.accounts[i];
                if e.1.nonce < u64::MAX {
                    e.1.nonce = e.1.nonce + 1;
                }
                proof {
                    lemma_as_map_update(pre, i as int, self.accounts@[i as int]);
                    lemma_keys_preserved(pre, self.accounts@);
                }
            },
            None => {
                proof {
                    lemma_as_map_absent(self.accounts@, addr@);
                }
            },
        }
    }

    /// Marks an existing account as touched.
    pub fn touch_account(&mut self, addr: &Address)
        requires
            old(self).wf(),
            old(self).accounts_map().contains_key(addr@),
        ensures
            final(self).wf(),
            final(self).accounts_map() == old(self).accounts_map().insert(addr@,
                AccountModel { touched: true, ..old(self).accounts_map()[addr@] }),
            final(self).logs@ == old(self).logs@,
            final(self).snapshot == old(self).snapshot,
            final(self).code_store@ == old(self).code_store@,
    {
        match self.find_index(addr.as_slice()) {
            Some(i) => {
                proof {
                    lemma_as_map_index(self.accounts@, i as int);
                }
                let ghost pre = self.accounts@;
                let e = &mut self.accounts[i];
                e.1.touched = true;
                proof {
                    lemma_as_map_update(pre, i as int, self.accounts@[i as int]);
                    lemma_keys_preserved(pre, self.accounts@);
                }
            },
            None => {
                proof {
                    lemma_as_map_absent(self.accounts@, addr@);
                }
            },
        }
    }

    /// Marks an existing account as warm.
    pub fn warm_account(&mut self, addr: &Address)
        requires
            old(self).wf(),
            old(self).accounts_map().contains_key(addr@),
        ensures
            final(self).wf(),
            final(self).accounts_map() == old(self).accounts_map().insert(addr@,
                AccountModel { warm: true, ..old(self).accounts_map()[addr@] }),
            final(self).logs@ == old(self).logs@,
            final(self).snapshot == old(self).snapshot,
            final(self).code_store@ == old(self).code_store@,
    {
        match self.find_index(addr.as_slice()) {
            Some(i) => {
                proof {
                    lemma_as_map_index(self.accounts@, i as int);
                }
                let ghost pre = self.accounts@;
                let e = &mut self.accounts[i];
                e.1.warm = true;
                proof {
                    lemma_as_map_update(pre, i as int, self.accounts@[i as int]);
                    lemma_keys_preserved(pre, self.accounts@);
                }
            },
            None => {
                proof {
                    lemma_as_map_absent(self.accounts@, addr@);
                }
            },
        }
    }

    /// Installs bytecode on an existing account.
    pub fn set_code(&mut self, addr: &Address, code: Vec<u8>)
        requires
            old(self).wf(),
            old(self).accounts_map().contains_key(addr@),
        ensures
            final(self).wf(),
            final(self).accounts_map() == old(self).accounts_map().insert(addr@,
                AccountModel { code: Some(code@), ..old(self).accounts_map()[addr@] }),
            final(self).logs@ == old(self).logs@,
            final(self).snapshot == old(self).snapshot,
            final(self).code_store@ == old(self).code_store@,
    {
        match self.find_index(addr.as_slice()) {
            Some(i) => {
                proof {
                    lemma_as_map_index(self.accounts@, i as int);
                }
                let ghost pre = self.accounts@;
                let e = &mut self.accounts[i];
                e.1.code = Some(code);
                proof {
                    lemma_as_map_update(pre, i as int, self.accounts@[i as int]);
                    lemma_keys_preserved(pre, self.accounts@);
                }
            },
            None => {
                proof {
                    lemma_as_map_absent(self.accounts@, addr@);
                }
            },
        }
    }

    /// Credits an account, creating it first when absent, clamping at the
    /// largest representable balance.
    pub fn credit_balance(&mut self, addr: &Address, amount: &U256)
        requires
            old(self).wf(),
            addr@.len() == 20,
        ensures
            final(self).wf(),
            ({
                let m0 = spec_loaded_map(old(self).accounts_map(), addr@);
                final(self).accounts_map() == m0.insert(addr@,
                    AccountModel {
                        balance: sat256(m0[addr@].balance + amount.as_nat()),
                        ..m0[addr@]
                    })
            }),
            final(self).logs@ == old(self).logs@,
            final(self).snapshot == old(self).snapshot,
            final(self).code_store@ == old(self).code_store@,
    {
        self.load_account(addr);
        let bal = self.balance_of(addr);
        let new_bal = bal.saturating_add(amount);
        self.set_balance(addr, new_bal);
    }

    /// Moves `amount` between two accounts, creating them when absent; the
    /// debit happens before the credit, so a self-transfer leaves the
    /// balance unchanged.
    pub fn transfer(&mut self, from: &Address, to: &Address, amount: &U256) -> (r: Result<
        (),
        TransferError,
    >)
        requires
            old(self).wf(),
            from@.len() == 20,
            to@.len() == 20,
        ensures
            final(self).wf(),
            ({
                let m = spec_loaded_map(spec_loaded_map(old(self).accounts_map(), from@), to@);
                let fb = m[from@].balance;
                let m1 = m.insert(from@, AccountModel { balance: fb - amount.as_nat(), ..m[from@] });
                &&& (r is Ok <==> fb >= amount.as_nat() && m1[to@].balance + amount.as_nat()
                    < pow2_256())
                &&& (r == Err::<(), TransferError>(TransferError::OutOfFunds) <==> fb
                    < amount.as_nat())
                &&& (r is Ok ==> final(self).accounts_map() == m1.insert(to@,
                    AccountModel { balance: m1[to@].balance + amount.as_nat(), ..m1[to@] },
                ))
                &&& (r is Err ==> final(self).accounts_map() == m)
            }),
            final(self).logs@ == old(self).logs@,
            final(self).snapshot == old(self).snapshot,
            final(self).code_store@ == old(self).code_store@,
    {
        self.load_account(from);
        self.load_account(to);
        let fb = self.balance_of(from);
        let fb_sub = match fb.checked_sub(amount) {
            Some(v) => v,
            None => {
                return Err(TransferError::OutOfFunds);
            },
        };
        let same = eq_bytes(from.as_slice(), to.as_slice());
        if same {
            proof {
                assert(from@ == to@);
            }
            let m1_to = fb_sub;
            match m1_to.checked_add(amount) {
                Some(_) => {
                    self.set_balance(from, fb_sub);
                    self.credit_balance(to, amount);
                    Ok(())
                },
                None => Err(TransferError::OverflowPayment),
            }
        } else {
            let tb = self.balance_of(to);
            match tb.checked_add(amount) {
                Some(_) => {
                    self.set_balance(from, fb_sub);
                    self.credit_balance(to, amount);
                    Ok(())
                },
                None => Err(TransferError::OverflowPayment),
            }
        }
    }

    /// Emits a log.
    pub fn log(&mut self, entry: LogEntry)
        requires
            old(self).wf(),
        ensures
            final(self).wf(),
            final(self).accounts_map() == old(self).accounts_map(),
            final(self).logs_model() == old(self).logs_model().push(entry.model()),
            final(self).snapshot == old(self).snapshot,
            final(self).code_store@ == old(self).code_store@,
    {
        self.logs.push(entry);
        proof {
            assert(self.logs_model() =~= old(self).logs_model().push(entry.model()));
        }
    }

    /// Whether an existing account carries code.
    pub fn has_code(&self, addr: &Address) -> (r: bool)
        requires
            self.wf(),
            self.accounts_map().contains_key(addr@),
        ensures
            r == (self.accounts_map()[addr@].code is Some && self.accounts_map()[addr@].code.unwrap().len()
                > 0),
    {
        match self.find_index(addr.as_slice()) {
            Some(i) => {
                proof {
                    lemma_as_map_index(self.accounts@, i as int);
                }
                match &self.accounts[i].1.code {
                    Some(c) => c.len() > 0,
                    None => false,
                }
            },
            None => {
                proof {
                    lemma_as_map_absent(self.accounts@, addr@);
                }
                false
            },
        }
    }

    /// A copy of an existing account's code.
    pub fn code_of(&self, addr: &Address) -> (r: Option<Vec<u8>>)
        requires
            self.wf(),
            self.accounts_map().contains_key(addr@),
        ensures
            r is Some <==> self.accounts_map()[addr@].code is Some,
            r is Some ==> r.unwrap()@ == self.accounts_map()[addr@].code.unwrap(),
    {
        match self.find_index(addr.as_slice()) {
            Some(i) => {
                proof {
                    lemma_as_map_index(self.accounts@, i as int);
                }
                match &self.accounts[i].1.code {
                    Some(c) => Some(vstd::slice::slice_to_vec(c.as_slice())),
                    None => None,
                }
            },
            None => {
                proof {
                    lemma_as_map_absent(self.accounts@, addr@);
                }
                None
            },
        }
    }

    /// Looks bytecode up by its 32-byte hash in the preloaded store; the
    /// earliest entry wins.
    pub fn code_by_hash(&self, hash: &[u8]) -> (r: Option<Vec<u8>>)
        ensures
            r is Some <==> spec_code_by_hash(self.code_store@, hash@) is Some,
            r is Some ==> r.unwrap()@ == spec_code_by_hash(self.code_store@, hash@).unwrap(),
    {
        let n = self.code_store.len();
        let mut i: usize = 0;
        proof {
            assert(self.code_store@.skip(0) =~= self.code_store@);
        }
        while i < n
            invariant
                0 <= i <= n,
                n == self.code_store@.len(),
                spec_code_by_hash(self.code_store@, hash@) == spec_code_by_hash(
                    self.code_store@.skip(i as int),
                    hash@,
                ),
            decreases n - i,
        {
            proof {
                assert(self.code_store@.skip(i as int)[0] == self.code_store@[i as int]);
                assert(self.code_store@.skip(i as int).subrange(
                    1,
                    self.code_store@.skip(i as int).len() as int,
                ) =~= self.code_store@.skip(i + 1));
            }
            if eq_bytes(self.code_store[i].0.as_slice(), hash) {
                let c = vstd::slice::slice_to_vec(self.code_store[i].1.as_slice());
                return Some(c);
            }
            i += 1;
        }
        proof {
            assert(self.code_store@.skip(n as int) =~= Seq::<(Vec<u8>, Vec<u8>)>::empty());
        }
        None
    }

    /// Adds an entry to the preloaded code store.
    pub fn preload_code(&mut self, hash: Vec<u8>, code: Vec<u8>)
        requires
            old(self).wf(),
        ensures
            final(self).wf(),
            final(self).accounts_map() == old(self).accounts_map(),
            final(self).logs@ == old(self).logs@,
            final(self).snapshot == old(self).snapshot,
            final(self).code_store@ == old(self).code_store@.push((hash, code)),
    {
        self.code_store.push((hash, code));
    }

    /// Opens a transaction checkpoint: what the journal can later roll back
    /// to.
    pub fn checkpoint(&mut self)
        requires
            old(self).wf(),
        ensures
            final(self).wf(),
            final(self).accounts_map() == old(self).accounts_map(),
            final(self).logs@ == old(self).logs@,
            final(self).code_store@ == old(self).code_store@,
            final(self).snapshot is Some,
            final(self).checkpoint_map() == old(self).accounts_map(),
            final(self).checkpoint_log_len() == old(self).logs@.len(),
    {
        let copy = clone_entries(&self.accounts);
        proof {
            lemma_as_map_congruent(copy@, self.accounts@);
            lemma_keys_preserved(self.accounts@, copy@);
        }
        let len = self.logs.len();
        self.snapshot = Some((copy, len));
    }

    /// Commits the open transaction: the checkpoint is dropped and all
    /// effects stand.
    pub fn commit_tx(&mut self)
        requires
            old(self).wf(),
        ensures
            final(self).wf(),
            final(self).accounts_map() == old(self).accounts_map(),
            final(self).logs@ == old(self).logs@,
            final(self).code_store@ == old(self).code_store@,
            final(self).snapshot is None,
    {
        self.snapshot = None;
    }

    /// Discards every effect since the checkpoint: accounts return to the
    /// saved state and logs emitted since are dropped.
    pub fn discard_tx(&mut self)
        requires
            old(self).wf(),
            old(self).snapshot is Some,
        ensures
            final(self).wf(),
            final(self).accounts_map() == old(self).checkpoint_map(),
            final(self).logs@ == old(self).logs@.take(old(self).checkpoint_log_len()),
            final(self).code_store@ == old(self).code_store@,
            final(self).snapshot is None,
    {
        let mut snap: Option<(Vec<(Address, Account)>, usize)> = None;
        core::mem::swap(&mut self.snapshot, &mut snap);
        match snap {
            Some((accounts, log_len)) => {
                self.accounts = accounts;
                self.logs.truncate(log_len);
                proof {
                    assert(self.logs@ =~= old(self).logs@.take(old(self).checkpoint_log_len()));
                }
            },
            None => {},
        }
    }
}

/// A deep copy of an account entry list, equal entry by entry at the model
/// level.
fn clone_entries(v: &Vec<(Address, Account)>) -> (r: Vec<(Address, Account)>)
    ensures
        entries_equiv(r@, v@),
{
    let n = v.len();
    let mut out: Vec<(Address, Account)> = Vec::new();
    let mut i: usize = 0;
    while i < n
        invariant
            0 <= i <= n,
            n == v@.len(),
            out@.len() == i,
            forall|j: int| 0 <= j < i ==> (#[trigger] out@[j].0@) == v@[j].0@ && out@[j].1.model()
                == v@[j].1.model(),
        decreases n - i,
    {
        let e = &v[i];
        let code: Option<Vec<u8>> = match &e.1.code {
            Some(c) => Some(vstd::slice::slice_to_vec(c.as_slice())),
            None => None,
        };
        let acct = Account {
            balance: e.1.balance,
            nonce: e.1.nonce,
            code,
            touched: e.1.touched,
            warm: e.1.warm,
        };
        proof {
            assert(acct.model() == v@[i as int].1.model());
        }
        out.push((e.0.duplicate(), acct));
        i += 1;
    }
    out
}

} // verus!
