use crate::error::PaymentEngineError;
use crate::model::{Account, Amount, Transaction, TransactionType};
use lru::LruCache;
use pickledb::{PickleDb, PickleDbDumpPolicy, SerializationMethod};
use std::collections::HashMap;
use std::time::Duration;
use vstd::prelude::*;

verus! {

broadcast use vstd::std_specs::hash::group_hash_axioms;

/// The value stored under `k`, if any.
pub open spec fn lookup<K, V>(m: Map<K, V>, k: K) -> Option<V> {
    if m.contains_key(k) {
        Some(m[k])
    } else {
        None
    }
}

/// `s` lists each account of `m` once, as `m` holds it.
pub open spec fn lists_accounts(s: Seq<Account>, m: Map<u16, Account>) -> bool {
    &&& forall|i: int|
        0 <= i < s.len() ==> m.contains_key(#[trigger] s[i].client_id) && m[s[i].client_id] == s[i]
    &&& forall|k: u16| m.contains_key(k) ==> exists|i: int| 0 <= i < s.len() && #[trigger] s[i].client_id == k
    &&& forall|i: int, j: int| 0 <= i < j < s.len() ==> s[i].client_id != s[j].client_id
}

/// Storage of transactions and accounts, as the processor sees it: each
/// deposit and withdrawal under its id, each account under its client id.
pub trait DatastoreOperations {
    /// The store's internal consistency.
    spec fn wf(&self) -> bool;

    /// The transactions recorded so far, by id.
    spec fn transactions(&self) -> Map<u32, Transaction>;

    /// The accounts recorded so far, by client id.
    spec fn accounts(&self) -> Map<u16, Account>;

    /// The store never reports a failure of its own storage.
    spec fn reliable(&self) -> bool;

    fn retrieve_transaction(&mut self, transaction_id: u32) -> (r: Result<
        Option<Transaction>,
        PaymentEngineError,
    >)
        requires
            old(self).wf(),
        ensures
            final(self).wf(),
            final(self).reliable() == old(self).reliable(),
            old(self).reliable() ==> r is Ok,
            final(self).transactions() == old(self).transactions(),
            final(self).accounts() == old(self).accounts(),
            match r {
                Ok(t) => t == lookup(old(self).transactions(), transaction_id),
                Err(e) => e.is_store_failure(),
            },
    ;

    fn save_transaction(&mut self, transaction: Transaction) -> (r: Result<(), PaymentEngineError>)
        requires
            old(self).wf(),
        ensures
            final(self).wf(),
            final(self).reliable() == old(self).reliable(),
            old(self).reliable() ==> r is Ok,
            final(self).accounts() == old(self).accounts(),
            match r {
                Ok(_) => final(self).transactions() == old(self).transactions().insert(
                    transaction.transaction_id,
                    transaction,
                ),
                Err(e) => e.is_store_failure() && final(self).transactions()
                    == old(self).transactions(),
            },
    ;

    fn retrieve_account(&self, client_id: u16) -> (r: Result<Option<Account>, PaymentEngineError>)
        requires
            self.wf(),
        ensures
            self.reliable() ==> r is Ok,
            match r {
                Ok(a) => a == lookup(self.accounts(), client_id),
                Err(e) => e.is_store_failure(),
            },
    ;

    fn save_account(&mut self, account: Account) -> (r: Result<(), PaymentEngineError>)
        requires
            old(self).wf(),
        ensures
            final(self).wf(),
            final(self).reliable() == old(self).reliable(),
            old(self).reliable() ==> r is Ok,
            final(self).transactions() == old(self).transactions(),
            match r {
                Ok(_) => final(self).accounts() == old(self).accounts().insert(
                    account.client_id,
                    account,
                ),
                Err(e) => e.is_store_failure() && final(self).accounts() == old(self).accounts(),
            },
    ;

    fn retrieve_all_accounts(&self) -> (r: Result<Vec<Account>, PaymentEngineError>)
        requires
            self.wf(),
        ensures
            self.reliable() ==> r is Ok,
            match r {
                Ok(v) => lists_accounts(v@, self.accounts()),
                Err(e) => e.is_store_failure(),
            },
    ;

    /// Sets the dispute flag of a recorded transaction.
    fn set_transaction_disputed(&mut self, transaction_id: u32, disputed: bool) -> (r: Result<
        (),
        PaymentEngineError,
    >)
        requires
            old(self).wf(),
        ensures
            final(self).wf(),
            final(self).reliable() == old(self).reliable(),
            old(self).reliable() && old(self).transactions().contains_key(transaction_id) ==> r is Ok,
            final(self).accounts() == old(self).accounts(),
            !old(self).transactions().contains_key(transaction_id) ==> r matches Err(
                PaymentEngineError::DisputedValueChange,
            ),
            match r {
                Ok(_) => old(self).transactions().contains_key(transaction_id)
                    && final(self).transactions() == old(self).transactions().insert(
                    transaction_id,
                    Transaction { disputed, ..old(self).transactions()[transaction_id] },
                ),
                Err(e) => final(self).transactions() == old(self).transactions() && (old(self).transactions().contains_key(transaction_id) ==> e.is_store_failure()),
            },
    ;

    /// A hint that the transaction will not be looked up soon; changes nothing that can be read.
    fn remove_transaction_from_cache(&mut self, transaction_id: u32) -> (r: Result<
        (),
        PaymentEngineError,
    >)
        requires
            old(self).wf(),
        ensures
            final(self).wf(),
            final(self).reliable() == old(self).reliable(),
            old(self).reliable() ==> r is Ok,
            final(self).transactions() == old(self).transactions(),
            final(self).accounts() == old(self).accounts(),
            r is Err ==> r->Err_0.is_store_failure(),
    ;
}

/// Accounts by client id, listed in the order in which they first arrived.
pub struct AccountStore {
    accounts: HashMap<u16, Account>,
    client_ids: Vec<u16>,
}

impl AccountStore {
    pub closed spec fn view(&self) -> Map<u16, Account> {
        self.accounts@
    }

    pub closed spec fn wf(&self) -> bool {
        &&& forall|i: int|
            0 <= i < self.client_ids@.len() ==> self.accounts@.contains_key(
                #[trigger] self.client_ids@[i],
            )
        &&& forall|k: u16| #[trigger]
            self.accounts@.contains_key(k) ==> self.client_ids@.contains(k)
        &&& forall|i: int, j: int|
            0 <= i < j < self.client_ids@.len() ==> self.client_ids@[i] != self.client_ids@[j]
        &&& forall|k: u16| #[trigger]
            self.accounts@.contains_key(k) ==> self.accounts@[k].client_id == k
    }

    pub fn new() -> (r: AccountStore)
        ensures
            r.wf(),
            r@ == Map::<u16, Account>::empty(),
    {
        AccountStore { accounts: HashMap::new(), client_ids: Vec::new() }
    }

    pub fn get(&self, client_id: u16) -> (r: Option<Account>)
        ensures
            r == lookup(self@, client_id),
    {
        match self.accounts.get(&client_id) {
            Some(a) => Some(*a),
            None => None,
        }
    }

    pub fn insert(&mut self, account: Account)
        requires
            old(self).wf(),
        ensures
            final(self).wf(),
            final(self)@ == old(self)@.insert(account.client_id, account),
    {
        if !self.accounts.contains_key(&account.client_id) {
            self.client_ids.push(account.client_id);
        }
        self.accounts.insert(account.client_id, account);
        proof {
            let ids = self.client_ids@;
            assert forall|k: u16| #[trigger] self.accounts@.contains_key(k) implies ids.contains(k) by {
                if k == account.client_id {
                    if !old(self).accounts@.contains_key(k) {
                        assert(ids[ids.len() - 1] == k);
                    }
                } else {
                    let i = choose|i: int| 0 <= i < old(self).client_ids@.len()
                        && old(self).client_ids@[i] == k;
                    assert(ids[i] == k);
                }
            }
        }
    }

    pub fn list(&self) -> (r: Vec<Account>)
        requires
            self.wf(),
        ensures
            lists_accounts(r@, self@),
    {
        let mut r: Vec<Account> = Vec::new();
        let mut i: usize = 0;
        while i < self.client_ids.len()
            invariant
                self.wf(),
                i <= self.client_ids@.len(),
                r@.len() == i,
                forall|j: int| 0 <= j < i ==> #[trigger] r@[j].client_id == self.client_ids@[j],
                forall|j: int| 0 <= j < i ==> self@[self.client_ids@[j]] == #[trigger] r@[j],
            decreases self.client_ids@.len() - i,
        {
            let id = self.client_ids[i];
            match self.accounts.get(&id) {
                Some(a) => {
                    r.push(*a);
                },
                None => {
                    assert(false);
                },
            }
            i = i + 1;
        }
        proof {
            assert forall|k: u16| self@.contains_key(k) implies exists|j: int|
                0 <= j < r@.len() && #[trigger] r@[j].client_id == k by {
                let j = choose|j: int| 0 <= j < self.client_ids@.len() && self.client_ids@[j] == k;
                assert(r@[j].client_id == k);
            }
        }
        r
    }
}

/// A store that keeps everything in memory.
pub struct MemoryDatastore {
    transactions: HashMap<u32, Transaction>,
    accounts: AccountStore,
}

impl MemoryDatastore {
    pub fn new() -> (r: MemoryDatastore)
        ensures
            r.wf(),
            r.transactions() == Map::<u32, Transaction>::empty(),
            r.accounts() == Map::<u16, Account>::empty(),
    {
        MemoryDatastore { transactions: HashMap::new(), accounts: AccountStore::new() }
    }
}

impl DatastoreOperations for MemoryDatastore {
    closed spec fn wf(&self) -> bool {
        self.accounts.wf()
    }

    closed spec fn transactions(&self) -> Map<u32, Transaction> {
        self.transactions@
    }

    closed spec fn accounts(&self) -> Map<u16, Account> {
        self.accounts@
    }

    open spec fn reliable(&self) -> bool {
        true
    }

    fn retrieve_transaction(&mut self, transaction_id: u32) -> (r: Result<
        Option<Transaction>,
        PaymentEngineError,
    >)
        ensures
            r is Ok,
    {
        match self.transactions.get(&transaction_id) {
            Some(t) => Ok(Some(*t)),
            None => Ok(None),
        }
    }

    fn save_transaction(&mut self, transaction: Transaction) -> (r: Result<(), PaymentEngineError>)
        ensures
            r is Ok,
    {
        self.transactions.insert(transaction.transaction_id, transaction);
        Ok(())
    }

    fn retrieve_account(&self, client_id: u16) -> (r: Result<Option<Account>, PaymentEngineError>)
        ensures
            r is Ok,
    {
        Ok(self.accounts.get(client_id))
    }

    fn save_account(&mut self, account: Account) -> (r: Result<(), PaymentEngineError>)
        ensures
            r is Ok,
    {
        self.accounts.insert(account);
        Ok(())
    }

    fn retrieve_all_accounts(&self) -> (r: Result<Vec<Account>, PaymentEngineError>)
        ensures
            r is Ok,
    {
        Ok(self.accounts.list())
    }

    fn set_transaction_disputed(&mut self, transaction_id: u32, disputed: bool) -> (r: Result<
        (),
        PaymentEngineError,
    >)
        ensures
            r is Ok <==> old(self).transactions().contains_key(transaction_id),
    {
        match self.transactions.get(&transaction_id) {
            Some(t) => {
                let updated = Transaction { disputed, ..*t };
                self.transactions.insert(transaction_id, updated);
                Ok(())
            },
            None => Err(PaymentEngineError::DisputedValueChange),
        }
    }

    fn remove_transaction_from_cache(&mut self, transaction_id: u32) -> (r: Result<
        (),
        PaymentEngineError,
    >)
        ensures
            r is Ok,
    {
        Ok(())
    }
}


const TRANSACTION_DB_PATH: &'static str = "pe_transaction.db";

const FLUSH_INTERVAL_MICROSECONDS: u64 = 500;

const CACHE_SIZE: usize = 50_000;

/// A transaction as the durable store holds it: type code, client id,
/// transaction id, amount in units of 0.0001, dispute flag.
pub type TransactionRecord = (u8, u16, u32, Option<i128>, bool);

pub open spec fn type_code(t: TransactionType) -> u8 {
    match t {
        TransactionType::Deposit => 0,
        TransactionType::Withdrawal => 1,
        TransactionType::Dispute => 2,
        TransactionType::Resolve => 3,
        TransactionType::Chargeback => 4,
    }
}

pub open spec fn type_of_code(c: u8) -> TransactionType {
    if c == 0 {
        TransactionType::Deposit
    } else if c == 1 {
        TransactionType::Withdrawal
    } else if c == 2 {
        TransactionType::Dispute
    } else if c == 3 {
        TransactionType::Resolve
    } else {
        TransactionType::Chargeback
    }
}

pub open spec fn record_of(t: Transaction) -> TransactionRecord {
    (
        type_code(t.transaction_type),
        t.client_id,
        t.transaction_id,
        match t.amount {
            Some(a) => Some(a.units),
            None => None,
        },
        t.disputed,
    )
}

pub open spec fn transaction_of(r: TransactionRecord) -> Transaction {
    Transaction {
        transaction_type: type_of_code(r.0),
        client_id: r.1,
        transaction_id: r.2,
        amount: match r.3 {
            Some(u) => Some(Amount { units: u }),
            None => None,
        },
        disputed: r.4,
    }
}

/// A record read back gives the transaction that was written.
pub proof fn lemma_record_round_trip(t: Transaction)
    ensures
        transaction_of(record_of(t)) == t,
{
}

fn encode_transaction(t: &Transaction) -> (r: TransactionRecord)
    ensures
        r == record_of(*t),
{
    let code: u8 = match t.transaction_type {
        TransactionType::Deposit => 0,
        TransactionType::Withdrawal => 1,
        TransactionType::Dispute => 2,
        TransactionType::Resolve => 3,
        TransactionType::Chargeback => 4,
    };
    let units = match t.amount {
        Some(a) => Some(a.units),
        None => None,
    };
    (code, t.client_id, t.transaction_id, units, t.disputed)
}

fn decode_transaction(r: &TransactionRecord) -> (t: Transaction)
    ensures
        t == transaction_of(*r),
{
    let transaction_type = if r.0 == 0 {
        TransactionType::Deposit
    } else if r.0 == 1 {
        TransactionType::Withdrawal
    } else if r.0 == 2 {
        TransactionType::Dispute
    } else if r.0 == 3 {
        TransactionType::Resolve
    } else {
        TransactionType::Chargeback
    };
    let amount = match r.3 {
        Some(u) => Some(Amount { units: u }),
        None => None,
    };
    Transaction { transaction_type, client_id: r.1, transaction_id: r.2, amount, disputed: r.4 }
}

#[verifier::external_type_specification]
#[verifier::external_body]
pub struct ExPickleDb(PickleDb);

#[verifier::external_type_specification]
#[verifier::external_body]
#[verifier::reject_recursive_types(K)]
#[verifier::reject_recursive_types(V)]
#[verifier::reject_recursive_types(S)]
pub struct ExLruCache<K, V, S>(LruCache<K, V, S>);

#[verifier::external_type_specification]
#[verifier::external_body]
pub struct ExLruHasher(lru::DefaultHasher);

/// The records that a database holds, by the transaction id whose decimal text is their key.
pub uninterp spec fn stored_records(db: PickleDb) -> Map<u32, TransactionRecord>;

/// The transactions that a cache holds, by id.
pub uninterp spec fn cached_transactions(cache: LruCache<u32, Transaction>) -> Map<u32, Transaction>;

/// Relies on `PickleDb::new`: a new database holds no entries.
#[verifier::external_body]
fn new_transaction_db(path: &str, flush_interval_micros: u64) -> (r: PickleDb)
    ensures
        stored_records(r).is_empty(),
{
    PickleDb::new(
        path,
        PickleDbDumpPolicy::PeriodicDump(Duration::from_micros(flush_interval_micros)),
        SerializationMethod::Bin,
    )
}

/// Relies on `PickleDb::get`: the value last set under the key, deserialized as it was serialized.
#[verifier::external_body]
fn db_get(db: &PickleDb, transaction_id: u32) -> (r: Option<TransactionRecord>)
    ensures
        r == lookup(stored_records(*db), transaction_id),
{
    db.get::<TransactionRecord>(&transaction_id.to_string())
}

/// Relies on `PickleDb::set`: on success the key holds the value; on failure
/// (serialization, or a dump) the entries are restored as they were.
#[verifier::external_body]
fn db_set(db: &mut PickleDb, transaction_id: u32, record: &TransactionRecord) -> (r: Result<
    (),
    pickledb::error::Error,
>)
    ensures
        match r {
            Ok(_) => stored_records(*final(db)) == stored_records(*old(db)).insert(
                transaction_id,
                *record,
            ),
            Err(_) => stored_records(*final(db)) == stored_records(*old(db)),
        },
{
    db.set(&transaction_id.to_string(), record)
}

/// Relies on `LruCache::new`: a new cache is empty.
#[verifier::external_body]
fn new_cache(capacity: usize) -> (r: LruCache<u32, Transaction>)
    ensures
        cached_transactions(r).is_empty(),
{
    LruCache::new(capacity)
}

/// Relies on `LruCache::get`: the value under the key, if present; only the recency order changes.
#[verifier::external_body]
fn cache_get(cache: &mut LruCache<u32, Transaction>, transaction_id: u32) -> (r: Option<Transaction>)
    ensures
        cached_transactions(*final(cache)) == cached_transactions(*old(cache)),
        r == lookup(cached_transactions(*old(cache)), transaction_id),
{
    cache.get(&transaction_id).copied()
}

/// Relies on `LruCache::put`: the key gets the value, unless the capacity is zero;
/// another entry may be evicted; no other entry changes.
#[verifier::external_body]
fn cache_put(cache: &mut LruCache<u32, Transaction>, transaction_id: u32, transaction: Transaction)
    ensures
        forall|k: u32| #[trigger]
            cached_transactions(*final(cache)).contains_key(k) ==> if k == transaction_id {
                cached_transactions(*final(cache))[k] == transaction
            } else {
                cached_transactions(*old(cache)).contains_key(k) && cached_transactions(
                    *final(cache),
                )[k] == cached_transactions(*old(cache))[k]
            },
{
    cache.put(transaction_id, transaction);
}

/// Relies on `LruCache::pop`: the key leaves the cache.
#[verifier::external_body]
fn cache_pop(cache: &mut LruCache<u32, Transaction>, transaction_id: u32)
    ensures
        cached_transactions(*final(cache)) == cached_transactions(*old(cache)).remove(
            transaction_id,
        ),
{
    cache.pop(&transaction_id);
}

/// The production store: transactions in a pickledb database, with recently
/// disputed ones also in a bounded LRU cache; accounts in memory.
pub struct PickleDatastore {
    transaction_db: PickleDb,
    accounts: AccountStore,
    disputed_transactions_cache: LruCache<u32, Transaction>,
}

impl PickleDatastore {
    /// An empty store whose database file is `pe_transaction.db`.
    pub fn new() -> (r: PickleDatastore)
        ensures
            r.wf(),
            r.transactions() == Map::<u32, Transaction>::empty(),
            r.accounts() == Map::<u16, Account>::empty(),
    {
        PickleDatastore::open(TRANSACTION_DB_PATH)
    }

    /// An empty store whose database file is `path`; the file is written, not read.
    pub fn open(path: &str) -> (r: PickleDatastore)
        ensures
            r.wf(),
            r.transactions() == Map::<u32, Transaction>::empty(),
            r.accounts() == Map::<u16, Account>::empty(),
    {
        let r = PickleDatastore {
            transaction_db: new_transaction_db(path, FLUSH_INTERVAL_MICROSECONDS),
            accounts: AccountStore::new(),
            disputed_transactions_cache: new_cache(CACHE_SIZE),
        };
        assert(r.transactions() =~= Map::<u32, Transaction>::empty());
        r
    }

    /// Looks in the cache first, then in the database.
    fn find_transaction(&mut self, transaction_id: u32) -> (r: Option<Transaction>)
        requires
            old(self).wf(),
        ensures
            final(self).wf(),
            final(self).transactions() == old(self).transactions(),
            final(self).accounts() == old(self).accounts(),
            r == lookup(old(self).transactions(), transaction_id),
    {
        match cache_get(&mut self.disputed_transactions_cache, transaction_id) {
            Some(t) => Some(t),
            None => match db_get(&self.transaction_db, transaction_id) {
                Some(record) => Some(decode_transaction(&record)),
                None => None,
            },
        }
    }
}

impl DatastoreOperations for PickleDatastore {
    /// Every cached transaction agrees with the database, which is authoritative.
    closed spec fn wf(&self) -> bool {
        &&& self.accounts.wf()
        &&& forall|k: u32| #[trigger]
            cached_transactions(self.disputed_transactions_cache).contains_key(k) ==> {
                &&& stored_records(self.transaction_db).contains_key(k)
                &&& transaction_of(stored_records(self.transaction_db)[k]) == cached_transactions(
                    self.disputed_transactions_cache,
                )[k]
            }
    }

    closed spec fn transactions(&self) -> Map<u32, Transaction> {
        stored_records(self.transaction_db).map_values(|r: TransactionRecord| transaction_of(r))
    }

    closed spec fn accounts(&self) -> Map<u16, Account> {
        self.accounts@
    }

    /// Saving a record may fail in the database.
    open spec fn reliable(&self) -> bool {
        false
    }

    fn retrieve_transaction(&mut self, transaction_id: u32) -> (r: Result<
        Option<Transaction>,
        PaymentEngineError,
    >)
        ensures
            r is Ok,
    {
        Ok(self.find_transaction(transaction_id))
    }

    fn save_transaction(&mut self, transaction: Transaction) -> (r: Result<(), PaymentEngineError>) {
        let record = encode_transaction(&transaction);
        // The cached copy would go stale.
        cache_pop(&mut self.disputed_transactions_cache, transaction.transaction_id);
        match db_set(&mut self.transaction_db, transaction.transaction_id, &record) {
            Ok(_) => {
                proof {
                    lemma_record_round_trip(transaction);
                    assert(self.transactions() =~= old(self).transactions().insert(
                        transaction.transaction_id,
                        transaction,
                    ));
                }
                Ok(())
            },
            Err(source) => {
                proof {
                    assert(self.transactions() =~= old(self).transactions());
                }
                Err(PaymentEngineError::PickleDb { source })
            },
        }
    }

    fn retrieve_account(&self, client_id: u16) -> (r: Result<Option<Account>, PaymentEngineError>)
        ensures
            r is Ok,
    {
        Ok(self.accounts.get(client_id))
    }

    fn save_account(&mut self, account: Account) -> (r: Result<(), PaymentEngineError>)
        ensures
            r is Ok,
    {
        self.accounts.insert(account);
        Ok(())
    }

    fn retrieve_all_accounts(&self) -> (r: Result<Vec<Account>, PaymentEngineError>)
        ensures
            r is Ok,
    {
        Ok(self.accounts.list())
    }

    fn set_transaction_disputed(&mut self, transaction_id: u32, disputed: bool) -> (r: Result<
        (),
        PaymentEngineError,
    >) {
        let transaction = match self.find_transaction(transaction_id) {
            Some(t) => t,
            None => return Err(PaymentEngineError::DisputedValueChange),
        };
        let updated = Transaction { disputed, ..transaction };
        let record = encode_transaction(&updated);
        match db_set(&mut self.transaction_db, transaction_id, &record) {
            Ok(_) => {},
            Err(source) => {
                proof {
                    assert(self.transactions() =~= old(self).transactions());
                }
                return Err(PaymentEngineError::PickleDb { source });
            },
        }
        cache_put(&mut self.disputed_transactions_cache, transaction_id, updated);
        proof {
            lemma_record_round_trip(updated);
            assert(self.transactions() =~= old(self).transactions().insert(
                transaction_id,
                Transaction { disputed, ..old(self).transactions()[transaction_id] },
            ));
        }
        Ok(())
    }

    fn remove_transaction_from_cache(&mut self, transaction_id: u32) -> (r: Result<
        (),
        PaymentEngineError,
    >)
        ensures
            r is Ok,
    {
        cache_pop(&mut self.disputed_transactions_cache, transaction_id);
        Ok(())
    }
}

} // verus!
