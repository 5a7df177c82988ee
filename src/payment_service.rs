use crate::datastore::{lists_accounts, lookup, DatastoreOperations};
use crate::error::PaymentEngineError;
use crate::model::{Account, Transaction, TransactionType};
use crate::rules::{
    account_for, applied, chargeback_rule, deposit_rule, dispute_rule, flagged, recorded, refusals,
    replay, resolve_rule, rule, withdrawal_rule,
};
use vstd::prelude::*;

verus! {

/// The account after a deposit, or the rule's refusal.
pub fn deposit_outcome(transaction: &Transaction, account: &Account) -> (r: Result<Account, PaymentEngineError>)
    ensures
        r == deposit_rule(*transaction, *account),
{
    let amount = match transaction.amount {
        Some(amount) => amount,
        None => return Err(PaymentEngineError::NoAmount),
    };
    let available = match account.available.checked_add(amount) {
        Some(v) => v,
        None => return Err(PaymentEngineError::AmountOutOfRange),
    };
    let total = match account.total.checked_add(amount) {
        Some(v) => v,
        None => return Err(PaymentEngineError::AmountOutOfRange),
    };
    Ok(Account { available, total, ..*account })
}

/// The account after a withdrawal, or the rule's refusal; only `available` must cover it.
pub fn withdrawal_outcome(transaction: &Transaction, account: &Account) -> (r: Result<Account, PaymentEngineError>)
    ensures
        r == withdrawal_rule(*transaction, *account),
{
    let amount = match transaction.amount {
        Some(amount) => {
            if amount.units > account.available.units {
                return Err(PaymentEngineError::InsufficientAccountFunds);
            }
            amount
        },
        None => return Err(PaymentEngineError::NoAmount),
    };
    let available = match account.available.checked_sub(amount) {
        Some(v) => v,
        None => return Err(PaymentEngineError::AmountOutOfRange),
    };
    let total = match account.total.checked_sub(amount) {
        Some(v) => v,
        None => return Err(PaymentEngineError::AmountOutOfRange),
    };
    Ok(Account { available, total, ..*account })
}

/// The account after a dispute of `referenced`, or the rule's refusal.
pub fn dispute_outcome(account: &Account, referenced: Option<Transaction>) -> (r: Result<Account, PaymentEngineError>)
    ensures
        r == dispute_rule(*account, referenced),
{
    let referenced = match referenced {
        Some(t) => t,
        None => return Err(PaymentEngineError::DisputedTransactionNotFound),
    };
    if referenced.disputed {
        return Err(PaymentEngineError::TransactionAlreadyDisputed);
    }
    let amount = match referenced.amount {
        Some(amount) => amount,
        None => return Err(PaymentEngineError::NoAmount),
    };
    match referenced.transaction_type {
        TransactionType::Deposit => {
            let available = match account.available.checked_sub(amount) {
                Some(v) => v,
                None => return Err(PaymentEngineError::AmountOutOfRange),
            };
            let held = match account.held.checked_add(amount) {
                Some(v) => v,
                None => return Err(PaymentEngineError::AmountOutOfRange),
            };
            Ok(Account { available, held, ..*account })
        },
        TransactionType::Withdrawal => {
            let held = match account.held.checked_add(amount) {
                Some(v) => v,
                None => return Err(PaymentEngineError::AmountOutOfRange),
            };
            let total = match account.total.checked_add(amount) {
                Some(v) => v,
                None => return Err(PaymentEngineError::AmountOutOfRange),
            };
            Ok(Account { held, total, ..*account })
        },
        _ => Err(PaymentEngineError::InvalidDisputedTransactionType),
    }
}

/// The account after a resolve of `referenced`, or the rule's refusal.
pub fn resolve_outcome(account: &Account, referenced: Option<Transaction>) -> (r: Result<Account, PaymentEngineError>)
    ensures
        r == resolve_rule(*account, referenced),
{
    let referenced = match referenced {
        Some(t) => t,
        None => return Err(PaymentEngineError::DisputedTransactionNotFound),
    };
    if !referenced.disputed {
        return Err(PaymentEngineError::TransactionNotDisputed);
    }
    let amount = match referenced.amount {
        Some(amount) => amount,
        None => return Err(PaymentEngineError::NoAmount),
    };
    match referenced.transaction_type {
        TransactionType::Deposit | TransactionType::Withdrawal => {
            let available = match account.available.checked_add(amount) {
                Some(v) => v,
                None => return Err(PaymentEngineError::AmountOutOfRange),
            };
            let held = match account.held.checked_sub(amount) {
                Some(v) => v,
                None => return Err(PaymentEngineError::AmountOutOfRange),
            };
            Ok(Account { available, held, ..*account })
        },
        _ => Err(PaymentEngineError::InvalidDisputedTransactionType),
    }
}

/// The account after a chargeback of `referenced`, or the rule's refusal.
pub fn chargeback_outcome(account: &Account, referenced: Option<Transaction>) -> (r: Result<Account, PaymentEngineError>)
    ensures
        r == chargeback_rule(*account, referenced),
{
    let referenced = match referenced {
        Some(t) => t,
        None => return Err(PaymentEngineError::DisputedTransactionNotFound),
    };
    if !referenced.disputed {
        return Err(PaymentEngineError::TransactionNotDisputed);
    }
    let amount = match referenced.amount {
        Some(amount) => amount,
        None => return Err(PaymentEngineError::NoAmount),
    };
    match referenced.transaction_type {
        TransactionType::Deposit | TransactionType::Withdrawal => {
            let held = match account.held.checked_sub(amount) {
                Some(v) => v,
                None => return Err(PaymentEngineError::AmountOutOfRange),
            };
            let total = match account.total.checked_sub(amount) {
                Some(v) => v,
                None => return Err(PaymentEngineError::AmountOutOfRange),
            };
            Ok(Account { held, total, locked: true, ..*account })
        },
        _ => Err(PaymentEngineError::InvalidDisputedTransactionType),
    }
}

/// Applies ledger transactions to the accounts of a store.
pub struct PaymentService<D: DatastoreOperations> {
    datastore: D,
}

impl<D: DatastoreOperations> PaymentService<D> {
    pub closed spec fn wf(&self) -> bool {
        self.datastore.wf()
    }

    /// The transactions that the store holds.
    pub closed spec fn transactions(&self) -> Map<u32, Transaction> {
        self.datastore.transactions()
    }

    /// The accounts that the store holds.
    pub closed spec fn accounts(&self) -> Map<u16, Account> {
        self.datastore.accounts()
    }

    /// The store never reports a failure of its own storage.
    pub closed spec fn reliable(&self) -> bool {
        self.datastore.reliable()
    }

    pub fn new(datastore: D) -> (r: Self)
        requires
            datastore.wf(),
        ensures
            r.wf(),
            r.transactions() == datastore.transactions(),
            r.accounts() == datastore.accounts(),
            r.reliable() == datastore.reliable(),
    {
        PaymentService { datastore }
    }

    /// Applies one transaction to `account`, by its type.
    pub fn process_transaction(&mut self, transaction: &Transaction, account: &mut Account) -> (r:
        Result<(), PaymentEngineError>)
        requires
            old(self).wf(),
        ensures
            final(self).wf(),
            final(self).reliable() == old(self).reliable(),
            (transaction.transaction_type is Deposit || transaction.transaction_type is Withdrawal)
                && rule(*transaction, *old(account), None) is Err ==> r == Err::<
                (),
                PaymentEngineError,
            >(rule(*transaction, *old(account), None)->Err_0),
            applied(
                rule(
                    *transaction,
                    *old(account),
                    lookup(old(self).transactions(), transaction.transaction_id),
                ),
                recorded(*transaction, old(self).transactions()),
                old(self).transactions(),
                old(self).accounts(),
                *old(account),
                old(self).reliable(),
                r,
                final(self).transactions(),
                final(self).accounts(),
                *final(account),
            ),
    {
        match transaction.transaction_type {
            TransactionType::Deposit => self.handle_deposit(transaction, account),
            TransactionType::Withdrawal => self.handle_withdrawal(transaction, account),
            TransactionType::Dispute => self.handle_dispute(transaction, account),
            TransactionType::Resolve => self.handle_resolve(transaction, account),
            TransactionType::Chargeback => self.handle_chargeback(transaction, account),
        }
    }

    /// Records a deposit and credits its amount.
    pub fn handle_deposit(&mut self, transaction: &Transaction, account: &mut Account) -> (r: Result<
        (),
        PaymentEngineError,
    >)
        requires
            old(self).wf(),
        ensures
            final(self).wf(),
            final(self).reliable() == old(self).reliable(),
            deposit_rule(*transaction, *old(account)) is Err ==> r == Err::<(), PaymentEngineError>(deposit_rule(*transaction, *old(account))->Err_0),
            applied(
                deposit_rule(*transaction, *old(account)),
                old(self).transactions().insert(transaction.transaction_id, *transaction),
                old(self).transactions(),
                old(self).accounts(),
                *old(account),
                old(self).reliable(),
                r,
                final(self).transactions(),
                final(self).accounts(),
                *final(account),
            ),
    {
        let updated = deposit_outcome(transaction, account)?;
        self.datastore.save_transaction(*transaction)?;
        self.datastore.save_account(updated)?;
        *account = updated;
        Ok(())
    }

    /// Records a withdrawal and debits its amount, if the available funds cover it.
    pub fn handle_withdrawal(&mut self, transaction: &Transaction, account: &mut Account) -> (r: Result<
        (),
        PaymentEngineError,
    >)
        requires
            old(self).wf(),
        ensures
            final(self).wf(),
            final(self).reliable() == old(self).reliable(),
            withdrawal_rule(*transaction, *old(account)) is Err ==> r == Err::<(), PaymentEngineError>(withdrawal_rule(*transaction, *old(account))->Err_0),
            applied(
                withdrawal_rule(*transaction, *old(account)),
                old(self).transactions().insert(transaction.transaction_id, *transaction),
                old(self).transactions(),
                old(self).accounts(),
                *old(account),
                old(self).reliable(),
                r,
                final(self).transactions(),
                final(self).accounts(),
                *final(account),
            ),
    {
        let updated = withdrawal_outcome(transaction, account)?;
        self.datastore.save_transaction(*transaction)?;
        self.datastore.save_account(updated)?;
        *account = updated;
        Ok(())
    }

    /// Opens a dispute on the transaction that `transaction` refers to.
    pub fn handle_dispute(&mut self, transaction: &Transaction, account: &mut Account) -> (r: Result<
        (),
        PaymentEngineError,
    >)
        requires
            old(self).wf(),
        ensures
            final(self).wf(),
            final(self).reliable() == old(self).reliable(),
            applied(
                dispute_rule(
                    *old(account),
                    lookup(old(self).transactions(), transaction.transaction_id),
                ),
                flagged(old(self).transactions(), transaction.transaction_id, true),
                old(self).transactions(),
                old(self).accounts(),
                *old(account),
                old(self).reliable(),
                r,
                final(self).transactions(),
                final(self).accounts(),
                *final(account),
            ),
    {
        let referenced = self.datastore.retrieve_transaction(transaction.transaction_id)?;
        let updated = dispute_outcome(account, referenced)?;
        self.datastore.set_transaction_disputed(transaction.transaction_id, true)?;
        self.datastore.save_account(updated)?;
        *account = updated;
        Ok(())
    }

    /// Closes the dispute on the referenced transaction and releases the held funds.
    pub fn handle_resolve(&mut self, transaction: &Transaction, account: &mut Account) -> (r: Result<
        (),
        PaymentEngineError,
    >)
        requires
            old(self).wf(),
        ensures
            final(self).wf(),
            final(self).reliable() == old(self).reliable(),
            applied(
                resolve_rule(
                    *old(account),
                    lookup(old(self).transactions(), transaction.transaction_id),
                ),
                flagged(old(self).transactions(), transaction.transaction_id, false),
                old(self).transactions(),
                old(self).accounts(),
                *old(account),
                old(self).reliable(),
                r,
                final(self).transactions(),
                final(self).accounts(),
                *final(account),
            ),
    {
        let referenced = self.datastore.retrieve_transaction(transaction.transaction_id)?;
        let updated = resolve_outcome(account, referenced)?;
        self.remove_disputed_state(transaction.transaction_id)?;
        self.datastore.save_account(updated)?;
        *account = updated;
        Ok(())
    }

    /// Closes the dispute on the referenced transaction by reversing it, and locks the account.
    pub fn handle_chargeback(&mut self, transaction: &Transaction, account: &mut Account) -> (r: Result<
        (),
        PaymentEngineError,
    >)
        requires
            old(self).wf(),
        ensures
            final(self).wf(),
            final(self).reliable() == old(self).reliable(),
            applied(
                chargeback_rule(
                    *old(account),
                    lookup(old(self).transactions(), transaction.transaction_id),
                ),
                flagged(old(self).transactions(), transaction.transaction_id, false),
                old(self).transactions(),
                old(self).accounts(),
                *old(account),
                old(self).reliable(),
                r,
                final(self).transactions(),
                final(self).accounts(),
                *final(account),
            ),
    {
        let referenced = self.datastore.retrieve_transaction(transaction.transaction_id)?;
        let updated = chargeback_outcome(account, referenced)?;
        self.remove_disputed_state(transaction.transaction_id)?;
        self.datastore.save_account(updated)?;
        *account = updated;
        Ok(())
    }

    /// Clears the dispute flag of a recorded transaction and drops it from any cache.
    fn remove_disputed_state(&mut self, referenced_transaction_id: u32) -> (r: Result<
        (),
        PaymentEngineError,
    >)
        requires
            old(self).wf(),
            old(self).transactions().contains_key(referenced_transaction_id),
        ensures
            final(self).wf(),
            final(self).reliable() == old(self).reliable(),
            final(self).accounts() == old(self).accounts(),
            old(self).reliable() ==> r is Ok,
            match r {
                Ok(_) => final(self).transactions() == flagged(
                    old(self).transactions(),
                    referenced_transaction_id,
                    false,
                ),
                Err(e) => e.is_store_failure(),
            },
    {
        self.datastore.set_transaction_disputed(referenced_transaction_id, false)?;
        self.datastore.remove_transaction_from_cache(referenced_transaction_id)?;
        Ok(())
    }

    /// Applies a log of transactions in order, each to the account of its
    /// client. A transaction that the rules refuse changes nothing and is
    /// reported with its position; a failure of the store ends the run.
    pub fn run(&mut self, transactions: &Vec<Transaction>) -> (r: Result<
        Vec<(usize, PaymentEngineError)>,
        PaymentEngineError,
    >)
        requires
            old(self).wf(),
        ensures
            final(self).wf(),
            final(self).reliable() == old(self).reliable(),
            old(self).reliable() ==> r is Ok,
            transactions@.len() == 0 ==> (r matches Ok(v) && v@.len() == 0),
            match r {
                Ok(rejected) => {
                    &&& (final(self).transactions(), final(self).accounts()) == replay(
                        old(self).transactions(),
                        old(self).accounts(),
                        transactions@,
                    )
                    &&& rejected@ == refusals(
                        old(self).transactions(),
                        old(self).accounts(),
                        transactions@,
                    )
                },
                Err(e) => e.is_store_failure(),
            },
    {
        let ghost txs0 = self.transactions();
        let ghost accounts0 = self.accounts();
        let mut rejected: Vec<(usize, PaymentEngineError)> = Vec::new();
        let mut i: usize = 0;
        while i < transactions.len()
            invariant
                self.wf(),
                self.reliable() == old(self).reliable(),
                i <= transactions@.len(),
                (self.transactions(), self.accounts()) == replay(
                    txs0,
                    accounts0,
                    transactions@.take(i as int),
                ),
                rejected@ == refusals(txs0, accounts0, transactions@.take(i as int)),
            decreases transactions@.len() - i,
        {
            let transaction = transactions[i];
            proof {
                assert(transactions@.take(i + 1).drop_last() =~= transactions@.take(i as int));
                assert(transactions@.take(i + 1).last() == transaction);
            }
            let mut account = self.retrieve_account(transaction.client_id)?;
            match self.process_transaction(&transaction, &mut account) {
                Ok(_) => {},
                Err(e) => {
                    if e.store_failure() {
                        return Err(e);
                    }
                    rejected.push((i, e));
                },
            }
            i = i + 1;
        }
        proof {
            assert(transactions@.take(transactions@.len() as int) =~= transactions@);
        }
        Ok(rejected)
    }

    /// Every account that the store holds, each once.
    pub fn list_accounts(&self) -> (r: Result<Vec<Account>, PaymentEngineError>)
        requires
            self.wf(),
        ensures
            self.reliable() ==> r is Ok,
            match r {
                Ok(v) => lists_accounts(v@, self.accounts()),
                Err(e) => e.is_store_failure(),
            },
    {
        self.datastore.retrieve_all_accounts()
    }

    /// The stored account of a client, or a fresh one.
    pub fn retrieve_account(&self, client_id: u16) -> (r: Result<Account, PaymentEngineError>)
        requires
            self.wf(),
        ensures
            self.reliable() ==> r is Ok,
            match r {
                Ok(a) => a == account_for(self.accounts(), client_id),
                Err(e) => e.is_store_failure(),
            },
    {
        match self.datastore.retrieve_account(client_id)? {
            None => Ok(Account::new(client_id)),
            Some(account) => Ok(account),
        }
    }
}

} // verus!
