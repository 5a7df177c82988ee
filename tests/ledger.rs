use payment_engine::datastore::MemoryDatastore;
use payment_engine::error::PaymentEngineError;
use payment_engine::model::{Account, Amount, Transaction, TransactionType};
use payment_engine::payment_service::{
    chargeback_outcome, deposit_outcome, dispute_outcome, resolve_outcome, withdrawal_outcome,
    PaymentService,
};

fn whole(n: i128) -> Amount {
    Amount { units: n * 10000 }
}

fn tx(kind: TransactionType, client_id: u16, transaction_id: u32, amount: Option<Amount>) -> Transaction {
    Transaction::new(kind, client_id, transaction_id, amount)
}

fn account(service: &PaymentService<MemoryDatastore>, client_id: u16) -> Account {
    service.retrieve_account(client_id).unwrap()
}

fn assert_balanced(a: &Account) {
    assert_eq!(a.total.units, a.available.units + a.held.units);
}

#[test]
fn deposit_on_empty_account() {
    let mut service = PaymentService::new(MemoryDatastore::new());
    let log = vec![tx(TransactionType::Deposit, 1, 1, Some(whole(500)))];
    let rejected = service.run(&log).unwrap();
    assert!(rejected.is_empty());
    let a = account(&service, 1);
    assert_eq!(a.available, whole(500));
    assert_eq!(a.held, whole(0));
    assert_eq!(a.total, whole(500));
    assert!(!a.locked);
}

#[test]
fn unknown_client_gets_fresh_account() {
    let service = PaymentService::new(MemoryDatastore::new());
    assert_eq!(account(&service, 42), Account::new(42));
}

#[test]
fn balance_holds_over_a_mixed_log() {
    let mut service = PaymentService::new(MemoryDatastore::new());
    let log = vec![
        tx(TransactionType::Deposit, 1, 1, Some(Amount { units: 10_000_123 })),
        tx(TransactionType::Withdrawal, 1, 2, Some(Amount { units: 2_500_000 })),
        tx(TransactionType::Dispute, 1, 1, None),
        tx(TransactionType::Deposit, 2, 3, Some(whole(70))),
        tx(TransactionType::Dispute, 1, 2, None),
        tx(TransactionType::Resolve, 1, 1, None),
        tx(TransactionType::Chargeback, 1, 2, None),
        tx(TransactionType::Withdrawal, 2, 4, Some(whole(100))),
    ];
    let rejected = service.run(&log).unwrap();
    assert_eq!(rejected.len(), 1);
    assert_eq!(rejected[0].0, 7);
    assert!(matches!(rejected[0].1, PaymentEngineError::InsufficientAccountFunds));
    for a in service.list_accounts().unwrap() {
        assert_balanced(&a);
    }
    let a = account(&service, 1);
    assert_eq!(a.available.units, 7_500_123);
    assert_eq!(a.held.units, 0);
    assert_eq!(a.total.units, 7_500_123);
    assert!(a.locked);
}

#[test]
fn locked_account_stays_locked() {
    let mut service = PaymentService::new(MemoryDatastore::new());
    let log = vec![
        tx(TransactionType::Deposit, 5, 1, Some(whole(10))),
        tx(TransactionType::Dispute, 5, 1, None),
        tx(TransactionType::Chargeback, 5, 1, None),
        tx(TransactionType::Deposit, 5, 2, Some(whole(3))),
        tx(TransactionType::Dispute, 5, 2, None),
        tx(TransactionType::Resolve, 5, 2, None),
        tx(TransactionType::Withdrawal, 5, 3, Some(whole(1))),
    ];
    let rejected = service.run(&log).unwrap();
    assert!(rejected.is_empty());
    let a = account(&service, 5);
    assert!(a.locked);
    assert_eq!(a.available, whole(2));
    assert_eq!(a.total, whole(2));
}

#[test]
fn repeated_resolve_is_refused_without_change() {
    let mut service = PaymentService::new(MemoryDatastore::new());
    let log = vec![
        tx(TransactionType::Deposit, 1, 9, Some(whole(40))),
        tx(TransactionType::Dispute, 1, 9, None),
        tx(TransactionType::Resolve, 1, 9, None),
    ];
    service.run(&log).unwrap();
    let before = account(&service, 1);
    let mut a = before;
    let r = service.handle_resolve(&tx(TransactionType::Resolve, 1, 9, None), &mut a);
    assert!(matches!(r, Err(PaymentEngineError::TransactionNotDisputed)));
    assert_eq!(a, before);
    assert_eq!(account(&service, 1), before);
}

#[test]
fn repeated_chargeback_is_refused_without_change() {
    let mut service = PaymentService::new(MemoryDatastore::new());
    let log = vec![
        tx(TransactionType::Deposit, 1, 9, Some(whole(40))),
        tx(TransactionType::Dispute, 1, 9, None),
        tx(TransactionType::Chargeback, 1, 9, None),
        tx(TransactionType::Chargeback, 1, 9, None),
    ];
    let rejected = service.run(&log).unwrap();
    assert_eq!(rejected.len(), 1);
    assert_eq!(rejected[0].0, 3);
    assert!(matches!(rejected[0].1, PaymentEngineError::TransactionNotDisputed));
    let a = account(&service, 1);
    assert_eq!(a.total, whole(0));
    assert_eq!(a.held, whole(0));
    assert!(a.locked);
}

#[test]
fn dispute_then_resolve_restores_balances() {
    let mut service = PaymentService::new(MemoryDatastore::new());
    service
        .run(&vec![tx(TransactionType::Deposit, 4, 1, Some(Amount { units: 12_345 }))])
        .unwrap();
    let after_deposit = account(&service, 4);
    service
        .run(&vec![
            tx(TransactionType::Dispute, 4, 1, None),
            tx(TransactionType::Resolve, 4, 1, None),
        ])
        .unwrap();
    assert_eq!(account(&service, 4), after_deposit);
}

#[test]
fn withdrawal_of_all_available_funds() {
    let mut service = PaymentService::new(MemoryDatastore::new());
    let mut a = Account { client_id: 2, available: whole(7), held: whole(3), total: whole(10), locked: false };
    service
        .handle_withdrawal(&tx(TransactionType::Withdrawal, 2, 1, Some(whole(7))), &mut a)
        .unwrap();
    assert_eq!(a.available, whole(0));
    assert_eq!(a.held, whole(3));
    assert_eq!(a.total, whole(3));
}

#[test]
fn withdrawal_one_unit_over_available() {
    let mut service = PaymentService::new(MemoryDatastore::new());
    let before = Account { client_id: 2, available: whole(7), held: whole(3), total: whole(10), locked: false };
    let mut a = before;
    let r = service.handle_withdrawal(
        &tx(TransactionType::Withdrawal, 2, 1, Some(Amount { units: 70_001 })),
        &mut a,
    );
    assert!(matches!(r, Err(PaymentEngineError::InsufficientAccountFunds)));
    assert_eq!(a, before);
    assert_eq!(service.list_accounts().unwrap().len(), 0);
}

#[test]
fn withdrawal_scenario() {
    let mut service = PaymentService::new(MemoryDatastore::new());
    let mut a = Account { client_id: 2, available: whole(1000), held: whole(0), total: whole(1000), locked: false };
    service
        .process_transaction(&tx(TransactionType::Withdrawal, 2, 2, Some(whole(500))), &mut a)
        .unwrap();
    let a = account(&service, 2);
    assert_eq!(a.available, whole(500));
    assert_eq!(a.held, whole(0));
    assert_eq!(a.total, whole(500));
}

#[test]
fn deposit_dispute_resolve_scenario() {
    let mut service = PaymentService::new(MemoryDatastore::new());
    let mut a = Account { client_id: 3, available: whole(1000), held: whole(0), total: whole(1000), locked: false };
    service.process_transaction(&tx(TransactionType::Deposit, 3, 333, Some(whole(500))), &mut a).unwrap();
    service.process_transaction(&tx(TransactionType::Dispute, 3, 333, None), &mut a).unwrap();
    assert_eq!((a.available, a.held, a.total), (whole(1000), whole(500), whole(1500)));
    service.process_transaction(&tx(TransactionType::Resolve, 3, 333, None), &mut a).unwrap();
    assert_eq!((a.available, a.held, a.total), (whole(1500), whole(0), whole(1500)));
    assert_eq!(account(&service, 3), a);
}

#[test]
fn withdrawal_dispute_chargeback_scenario() {
    let mut service = PaymentService::new(MemoryDatastore::new());
    let mut a = Account { client_id: 3, available: whole(1000), held: whole(0), total: whole(1000), locked: false };
    service.process_transaction(&tx(TransactionType::Withdrawal, 3, 455, Some(whole(500))), &mut a).unwrap();
    assert_eq!((a.available, a.total), (whole(500), whole(500)));
    service.process_transaction(&tx(TransactionType::Dispute, 3, 455, None), &mut a).unwrap();
    assert_eq!((a.available, a.held, a.total), (whole(500), whole(500), whole(1000)));
    service.process_transaction(&tx(TransactionType::Chargeback, 3, 455, None), &mut a).unwrap();
    assert_eq!((a.available, a.held, a.total), (whole(500), whole(0), whole(500)));
    assert!(a.locked);
}

#[test]
fn missing_amount_is_refused() {
    let mut service = PaymentService::new(MemoryDatastore::new());
    let mut a = Account::new(1);
    let r = service.handle_deposit(&tx(TransactionType::Deposit, 1, 1, None), &mut a);
    assert!(matches!(r, Err(PaymentEngineError::NoAmount)));
    let r = service.handle_withdrawal(&tx(TransactionType::Withdrawal, 1, 2, None), &mut a);
    assert!(matches!(r, Err(PaymentEngineError::NoAmount)));
    assert_eq!(a, Account::new(1));
}

#[test]
fn unknown_reference_is_refused() {
    let mut service = PaymentService::new(MemoryDatastore::new());
    let mut a = Account::new(1);
    for kind in [TransactionType::Dispute, TransactionType::Resolve, TransactionType::Chargeback] {
        let r = service.process_transaction(&tx(kind, 1, 77, None), &mut a);
        assert!(matches!(r, Err(PaymentEngineError::DisputedTransactionNotFound)));
    }
    assert_eq!(a, Account::new(1));
}

#[test]
fn double_dispute_is_refused() {
    let mut service = PaymentService::new(MemoryDatastore::new());
    let rejected = service
        .run(&vec![
            tx(TransactionType::Deposit, 1, 1, Some(whole(5))),
            tx(TransactionType::Dispute, 1, 1, None),
            tx(TransactionType::Dispute, 1, 1, None),
        ])
        .unwrap();
    assert_eq!(rejected.len(), 1);
    assert!(matches!(rejected[0].1, PaymentEngineError::TransactionAlreadyDisputed));
    let a = account(&service, 1);
    assert_eq!((a.available, a.held, a.total), (whole(0), whole(5), whole(5)));
}

#[test]
fn dispute_of_a_dispute_record_is_refused() {
    let mut service = PaymentService::new(MemoryDatastore::new());
    let mut a = Account::new(1);
    // A handler records whatever transaction it is handed.
    service.handle_deposit(&tx(TransactionType::Dispute, 1, 8, Some(whole(2))), &mut a).unwrap();
    let before = a;
    let r = service.handle_dispute(&tx(TransactionType::Dispute, 1, 8, None), &mut a);
    assert!(matches!(r, Err(PaymentEngineError::InvalidDisputedTransactionType)));
    assert_eq!(a, before);
}

#[test]
fn overflowing_balance_is_refused() {
    let mut service = PaymentService::new(MemoryDatastore::new());
    let mut a = Account::new(1);
    service.handle_deposit(&tx(TransactionType::Deposit, 1, 1, Some(Amount { units: i128::MAX })), &mut a).unwrap();
    let r = service.handle_deposit(&tx(TransactionType::Deposit, 1, 2, Some(Amount { units: 1 })), &mut a);
    assert!(matches!(r, Err(PaymentEngineError::AmountOutOfRange)));
    assert_eq!(a.total.units, i128::MAX);
}

#[test]
fn accounts_are_listed_once_each() {
    let mut service = PaymentService::new(MemoryDatastore::new());
    service
        .run(&vec![
            tx(TransactionType::Deposit, 3, 1, Some(whole(1))),
            tx(TransactionType::Deposit, 1, 2, Some(whole(2))),
            tx(TransactionType::Deposit, 3, 3, Some(whole(4))),
        ])
        .unwrap();
    let listed = service.list_accounts().unwrap();
    assert_eq!(listed.len(), 2);
    assert_eq!(listed[0].client_id, 3);
    assert_eq!(listed[0].total, whole(5));
    assert_eq!(listed[1].client_id, 1);
    assert_eq!(listed[1].total, whole(2));
}

#[test]
fn rule_outcomes_on_given_values() {
    let a = Account { client_id: 1, available: whole(10), held: whole(0), total: whole(10), locked: false };
    let d = deposit_outcome(&tx(TransactionType::Deposit, 1, 1, Some(whole(5))), &a).unwrap();
    assert_eq!((d.available, d.total), (whole(15), whole(15)));
    assert!(matches!(
        withdrawal_outcome(&tx(TransactionType::Withdrawal, 1, 2, Some(whole(11))), &a),
        Err(PaymentEngineError::InsufficientAccountFunds)
    ));
    let held_a = Account { client_id: 1, available: whole(2), held: whole(8), total: whole(10), locked: false };
    assert!(matches!(
        withdrawal_outcome(&tx(TransactionType::Withdrawal, 1, 2, Some(whole(5))), &held_a),
        Err(PaymentEngineError::InsufficientAccountFunds)
    ));
    let w = tx(TransactionType::Withdrawal, 1, 2, Some(whole(4)));
    let disputed = dispute_outcome(&a, Some(w)).unwrap();
    assert_eq!((disputed.available, disputed.held, disputed.total), (whole(10), whole(4), whole(14)));
    assert!(matches!(resolve_outcome(&a, Some(w)), Err(PaymentEngineError::TransactionNotDisputed)));
    assert!(matches!(dispute_outcome(&a, None), Err(PaymentEngineError::DisputedTransactionNotFound)));
    let mut open = w;
    open.disputed = true;
    assert!(matches!(dispute_outcome(&a, Some(open)), Err(PaymentEngineError::TransactionAlreadyDisputed)));
    let c = chargeback_outcome(&disputed, Some(open)).unwrap();
    assert_eq!((c.available, c.held, c.total, c.locked), (whole(10), whole(0), whole(10), true));
    let r = resolve_outcome(&disputed, Some(open)).unwrap();
    assert_eq!((r.available, r.held, r.total), (whole(14), whole(0), whole(14)));
}

#[test]
fn refused_deposit_writes_nothing() {
    let mut service = PaymentService::new(MemoryDatastore::new());
    let mut a = Account::new(1);
    let r = service.handle_deposit(&tx(TransactionType::Deposit, 1, 1, None), &mut a);
    assert!(matches!(r, Err(PaymentEngineError::NoAmount)));
    assert!(service.list_accounts().unwrap().is_empty());
    let r = service.handle_dispute(&tx(TransactionType::Dispute, 1, 1, None), &mut a);
    assert!(matches!(r, Err(PaymentEngineError::DisputedTransactionNotFound)));
}

#[test]
fn empty_log_rejects_nothing() {
    let mut service = PaymentService::new(MemoryDatastore::new());
    assert!(service.run(&vec![]).unwrap().is_empty());
    assert!(service.list_accounts().unwrap().is_empty());
}
