use crate::datastore::lookup;
use crate::error::PaymentEngineError;
use crate::model::{amount_of, Account, Transaction, TransactionType};
use vstd::prelude::*;

verus! {

/// A deposit adds its amount to `available` and `total`.
pub open spec fn deposit_rule(t: Transaction, a: Account) -> Result<Account, PaymentEngineError> {
    match t.amount {
        None => Err(PaymentEngineError::NoAmount),
        Some(x) => match (
            amount_of(a.available.units + x.units),
            amount_of(a.total.units + x.units),
        ) {
            (Some(available), Some(total)) => Ok(Account { available, total, ..a }),
            _ => Err(PaymentEngineError::AmountOutOfRange),
        },
    }
}

/// A withdrawal takes its amount from `available` and `total`, if `available` covers it.
pub open spec fn withdrawal_rule(t: Transaction, a: Account) -> Result<Account, PaymentEngineError> {
    match t.amount {
        None => Err(PaymentEngineError::NoAmount),
        Some(x) => if x.units > a.available.units {
            Err(PaymentEngineError::InsufficientAccountFunds)
        } else {
            match (amount_of(a.available.units - x.units), amount_of(a.total.units - x.units)) {
                (Some(available), Some(total)) => Ok(Account { available, total, ..a }),
                _ => Err(PaymentEngineError::AmountOutOfRange),
            }
        },
    }
}

/// A dispute holds the referenced amount: a deposit's leaves `available`, a
/// withdrawal's comes back into `total`.
pub open spec fn dispute_rule(a: Account, referenced: Option<Transaction>) -> Result<
    Account,
    PaymentEngineError,
> {
    match referenced {
        None => Err(PaymentEngineError::DisputedTransactionNotFound),
        Some(r) => if r.disputed {
            Err(PaymentEngineError::TransactionAlreadyDisputed)
        } else {
            match r.amount {
                None => Err(PaymentEngineError::NoAmount),
                Some(x) => match r.transaction_type {
                    TransactionType::Deposit => match (
                        amount_of(a.available.units - x.units),
                        amount_of(a.held.units + x.units),
                    ) {
                        (Some(available), Some(held)) => Ok(Account { available, held, ..a }),
                        _ => Err(PaymentEngineError::AmountOutOfRange),
                    },
                    TransactionType::Withdrawal => match (
                        amount_of(a.held.units + x.units),
                        amount_of(a.total.units + x.units),
                    ) {
                        (Some(held), Some(total)) => Ok(Account { held, total, ..a }),
                        _ => Err(PaymentEngineError::AmountOutOfRange),
                    },
                    _ => Err(PaymentEngineError::InvalidDisputedTransactionType),
                },
            }
        },
    }
}

/// A resolve releases the held amount back into `available`.
pub open spec fn resolve_rule(a: Account, referenced: Option<Transaction>) -> Result<
    Account,
    PaymentEngineError,
> {
    match referenced {
        None => Err(PaymentEngineError::DisputedTransactionNotFound),
        Some(r) => if !r.disputed {
            Err(PaymentEngineError::TransactionNotDisputed)
        } else {
            match r.amount {
                None => Err(PaymentEngineError::NoAmount),
                Some(x) => match r.transaction_type {
                    TransactionType::Deposit | TransactionType::Withdrawal => match (
                        amount_of(a.available.units + x.units),
                        amount_of(a.held.units - x.units),
                    ) {
                        (Some(available), Some(held)) => Ok(Account { available, held, ..a }),
                        _ => Err(PaymentEngineError::AmountOutOfRange),
                    },
                    _ => Err(PaymentEngineError::InvalidDisputedTransactionType),
                },
            }
        },
    }
}

/// A chargeback removes the held amount from `held` and `total` and locks the account.
pub open spec fn chargeback_rule(a: Account, referenced: Option<Transaction>) -> Result<
    Account,
    PaymentEngineError,
> {
    match referenced {
        None => Err(PaymentEngineError::DisputedTransactionNotFound),
        Some(r) => if !r.disputed {
            Err(PaymentEngineError::TransactionNotDisputed)
        } else {
            match r.amount {
                None => Err(PaymentEngineError::NoAmount),
                Some(x) => match r.transaction_type {
                    TransactionType::Deposit | TransactionType::Withdrawal => match (
                        amount_of(a.held.units - x.units),
                        amount_of(a.total.units - x.units),
                    ) {
                        (Some(held), Some(total)) => Ok(Account { held, total, locked: true, ..a }),
                        _ => Err(PaymentEngineError::AmountOutOfRange),
                    },
                    _ => Err(PaymentEngineError::InvalidDisputedTransactionType),
                },
            }
        },
    }
}

/// The account after `t`, given the account and the transaction that `t` refers to.
pub open spec fn rule(t: Transaction, a: Account, referenced: Option<Transaction>) -> Result<
    Account,
    PaymentEngineError,
> {
    match t.transaction_type {
        TransactionType::Deposit => deposit_rule(t, a),
        TransactionType::Withdrawal => withdrawal_rule(t, a),
        TransactionType::Dispute => dispute_rule(a, referenced),
        TransactionType::Resolve => resolve_rule(a, referenced),
        TransactionType::Chargeback => chargeback_rule(a, referenced),
    }
}

/// The recorded transactions with the dispute flag of `id` set to `disputed`.
pub open spec fn flagged(txs: Map<u32, Transaction>, id: u32, disputed: bool) -> Map<u32, Transaction> {
    txs.insert(id, Transaction { disputed, ..txs[id] })
}

/// The recorded transactions after `t` succeeded.
pub open spec fn recorded(t: Transaction, txs: Map<u32, Transaction>) -> Map<u32, Transaction> {
    match t.transaction_type {
        TransactionType::Deposit | TransactionType::Withdrawal => txs.insert(t.transaction_id, t),
        TransactionType::Dispute => flagged(txs, t.transaction_id, true),
        _ => flagged(txs, t.transaction_id, false),
    }
}

/// The account of `client_id`, or a fresh one.
pub open spec fn account_for(accounts: Map<u16, Account>, client_id: u16) -> Account {
    if accounts.contains_key(client_id) {
        accounts[client_id]
    } else {
        Account::empty(client_id)
    }
}

/// The store after one transaction of the log: unchanged where it is refused.
pub open spec fn step(
    txs: Map<u32, Transaction>,
    accounts: Map<u16, Account>,
    t: Transaction,
) -> (Map<u32, Transaction>, Map<u16, Account>) {
    match rule(t, account_for(accounts, t.client_id), lookup(txs, t.transaction_id)) {
        Ok(a) => (recorded(t, txs), accounts.insert(a.client_id, a)),
        Err(_) => (txs, accounts),
    }
}

/// The store after a log of transactions, applied in order.
pub open spec fn replay(
    txs: Map<u32, Transaction>,
    accounts: Map<u16, Account>,
    log: Seq<Transaction>,
) -> (Map<u32, Transaction>, Map<u16, Account>)
    decreases log.len(),
{
    if log.len() == 0 {
        (txs, accounts)
    } else {
        let (t2, a2) = replay(txs, accounts, log.drop_last());
        step(t2, a2, log.last())
    }
}

/// The refused transactions of a log, each with its position and the rule's error.
pub open spec fn refusals(
    txs: Map<u32, Transaction>,
    accounts: Map<u16, Account>,
    log: Seq<Transaction>,
) -> Seq<(usize, PaymentEngineError)>
    decreases log.len(),
{
    if log.len() == 0 {
        Seq::empty()
    } else {
        let (t2, a2) = replay(txs, accounts, log.drop_last());
        let t = log.last();
        let earlier = refusals(txs, accounts, log.drop_last());
        match rule(t, account_for(a2, t.client_id), lookup(t2, t.transaction_id)) {
            Ok(_) => earlier,
            Err(e) => earlier.push(((log.len() - 1) as usize, e)),
        }
    }
}

/// Each account is stored under its own client id.
pub open spec fn keyed(accounts: Map<u16, Account>) -> bool {
    forall|c: u16| #[trigger] accounts.contains_key(c) ==> accounts[c].client_id == c
}

/// Every stored account is balanced.
pub open spec fn all_balanced(accounts: Map<u16, Account>) -> bool {
    forall|c: u16| #[trigger] accounts.contains_key(c) ==> accounts[c].balanced()
}

/// What a handler did: on success the store and the account hold `outcome`
/// and the transactions `next`; on a refusal by the rules nothing changed;
/// only a failure of the store may come between, and none comes from a
/// reliable store. On any error the accounts are as they were.
pub open spec fn applied(
    outcome: Result<Account, PaymentEngineError>,
    next: Map<u32, Transaction>,
    old_txs: Map<u32, Transaction>,
    old_accounts: Map<u16, Account>,
    old_account: Account,
    reliable: bool,
    r: Result<(), PaymentEngineError>,
    txs: Map<u32, Transaction>,
    accounts: Map<u16, Account>,
    account: Account,
) -> bool {
    &&& match r {
        Ok(_) => {
            &&& outcome is Ok
            &&& txs == next
            &&& accounts == old_accounts.insert(outcome->Ok_0.client_id, outcome->Ok_0)
            &&& account == outcome->Ok_0
        },
        Err(e) => {
            &&& account == old_account
            &&& accounts == old_accounts
            &&& e.is_store_failure() || outcome == Err::<Account, PaymentEngineError>(e)
            &&& !(reliable && e.is_store_failure())
        },
    }
    &&& outcome is Err ==> txs == old_txs && accounts == old_accounts
}


/// Every rule that succeeds on a balanced account leaves it balanced:
/// `total == available + held`.
pub proof fn lemma_rule_keeps_balance(t: Transaction, a: Account, referenced: Option<Transaction>)
    requires
        a.balanced(),
    ensures
        rule(t, a, referenced) matches Ok(b) ==> b.balanced(),
{
}

/// Replaying any log over balanced accounts leaves every account balanced.
pub proof fn lemma_replay_keeps_balance(
    txs: Map<u32, Transaction>,
    accounts: Map<u16, Account>,
    log: Seq<Transaction>,
)
    requires
        all_balanced(accounts),
    ensures
        all_balanced(replay(txs, accounts, log).1),
    decreases log.len(),
{
    if log.len() > 0 {
        let (t2, a2) = replay(txs, accounts, log.drop_last());
        lemma_replay_keeps_balance(txs, accounts, log.drop_last());
        let t = log.last();
        let a = account_for(a2, t.client_id);
        lemma_rule_keeps_balance(t, a, lookup(t2, t.transaction_id));
    }
}

/// No rule unlocks an account.
pub proof fn lemma_rule_keeps_lock(t: Transaction, a: Account, referenced: Option<Transaction>)
    requires
        a.locked,
    ensures
        rule(t, a, referenced) matches Ok(b) ==> b.locked,
{
}

/// Once a client's account is locked it stays locked, whatever the log that follows.
pub proof fn lemma_replay_keeps_lock(
    txs: Map<u32, Transaction>,
    accounts: Map<u16, Account>,
    log: Seq<Transaction>,
    client_id: u16,
)
    requires
        keyed(accounts),
        accounts.contains_key(client_id),
        accounts[client_id].locked,
    ensures
        keyed(replay(txs, accounts, log).1),
        replay(txs, accounts, log).1.contains_key(client_id),
        replay(txs, accounts, log).1[client_id].locked,
    decreases log.len(),
{
    if log.len() > 0 {
        let (t2, a2) = replay(txs, accounts, log.drop_last());
        lemma_replay_keeps_lock(txs, accounts, log.drop_last(), client_id);
        let t = log.last();
        let a = account_for(a2, t.client_id);
        if a.locked {
            lemma_rule_keeps_lock(t, a, lookup(t2, t.transaction_id));
        }
    }
}

/// A resolve or chargeback that succeeded cannot be applied again: a second
/// one on the same transaction is refused as not disputed and changes nothing.
pub proof fn lemma_settled_dispute_refused(
    txs: Map<u32, Transaction>,
    accounts: Map<u16, Account>,
    settle: Transaction,
    again: Transaction,
)
    requires
        settle.transaction_type is Resolve || settle.transaction_type is Chargeback,
        again.transaction_type is Resolve || again.transaction_type is Chargeback,
        again.transaction_id == settle.transaction_id,
        rule(
            settle,
            account_for(accounts, settle.client_id),
            lookup(txs, settle.transaction_id),
        ) is Ok,
    ensures
        ({
            let (t2, a2) = step(txs, accounts, settle);
            &&& rule(again, account_for(a2, again.client_id), lookup(t2, again.transaction_id))
                == Err::<Account, PaymentEngineError>(PaymentEngineError::TransactionNotDisputed)
            &&& step(t2, a2, again) == (t2, a2)
        }),
{
}

/// A deposit followed by a dispute and a resolve of it leaves the accounts and
/// the recorded transactions as the deposit left them.
pub proof fn lemma_dispute_resolve_round_trip(
    txs: Map<u32, Transaction>,
    accounts: Map<u16, Account>,
    deposit: Transaction,
    dispute: Transaction,
    resolve: Transaction,
)
    requires
        deposit.transaction_type is Deposit,
        dispute.transaction_type is Dispute,
        resolve.transaction_type is Resolve,
        !deposit.disputed,
        dispute.transaction_id == deposit.transaction_id,
        resolve.transaction_id == deposit.transaction_id,
        dispute.client_id == deposit.client_id,
        resolve.client_id == deposit.client_id,
        keyed(accounts),
        deposit_rule(deposit, account_for(accounts, deposit.client_id)) is Ok,
        amount_of(account_for(accounts, deposit.client_id).held.units + deposit.amount->Some_0.units)
            is Some,
    ensures
        ({
            let s1 = step(txs, accounts, deposit);
            let s2 = step(s1.0, s1.1, dispute);
            let s3 = step(s2.0, s2.1, resolve);
            &&& s2.1[deposit.client_id].held.units == s1.1[deposit.client_id].held.units
                + deposit.amount->Some_0.units
            &&& s3.1 == s1.1
            &&& s3.0 =~= s1.0
        }),
{
    let c = deposit.client_id;
    let id = deposit.transaction_id;
    let x = deposit.amount->Some_0;
    let a0 = account_for(accounts, c);
    let a1 = deposit_rule(deposit, a0)->Ok_0;
    let s1 = step(txs, accounts, deposit);
    assert(s1.1 == accounts.insert(c, a1));
    assert(account_for(s1.1, c) == a1);
    assert(lookup(s1.0, id) == Some(deposit));
    let a2 = dispute_rule(a1, Some(deposit))->Ok_0;
    assert(dispute_rule(a1, Some(deposit)) is Ok);
    let s2 = step(s1.0, s1.1, dispute);
    assert(s2.1 == s1.1.insert(c, a2));
    assert(account_for(s2.1, c) == a2);
    let marked = Transaction { disputed: true, ..deposit };
    assert(lookup(s2.0, id) == Some(marked));
    assert(resolve_rule(a2, Some(marked)) == Ok::<Account, PaymentEngineError>(a1));
    assert(s2.1.insert(c, a1) =~= s1.1);
}

/// A withdrawal of exactly the available funds succeeds, leaves none
/// available and the held funds and lock as they were; one unit more is
/// refused for want of funds, and changes nothing.
pub proof fn lemma_withdrawal_boundary(
    txs: Map<u32, Transaction>,
    accounts: Map<u16, Account>,
    t: Transaction,
    a: Account,
)
    requires
        t.transaction_type is Withdrawal,
        amount_of(a.total.units - a.available.units) is Some,
    ensures
        t.amount == Some(a.available) ==> (withdrawal_rule(t, a) matches Ok(b) && b.available.units
            == 0 && b.held == a.held && b.total.units == a.total.units - a.available.units
            && b.locked == a.locked && b.client_id == a.client_id),
        a.balanced() && t.amount == Some(a.available) ==> (withdrawal_rule(t, a) matches Ok(b)
            && b.total.units == a.held.units && b.balanced()),
        (t.amount matches Some(x) && x.units == a.available.units + 1) ==> withdrawal_rule(t, a)
            == Err::<Account, PaymentEngineError>(PaymentEngineError::InsufficientAccountFunds),
        (t.amount matches Some(x) && x.units == account_for(accounts, t.client_id).available.units
            + 1) ==> step(txs, accounts, t) == (txs, accounts),
{
}

} // verus!
