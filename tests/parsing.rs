use payment_engine::error::PaymentEngineError;
use payment_engine::model::{amount_from_parts, transaction_type_named, parse_amount, parse_transaction, parse_transaction_type, Amount, TransactionType};

#[test]
fn type_names_ignore_case() {
    assert_eq!(parse_transaction_type("deposit").unwrap(), TransactionType::Deposit);
    assert_eq!(parse_transaction_type("WITHDRAWAL").unwrap(), TransactionType::Withdrawal);
    assert_eq!(parse_transaction_type("Dispute").unwrap(), TransactionType::Dispute);
    assert_eq!(parse_transaction_type("reSolve").unwrap(), TransactionType::Resolve);
    assert_eq!(parse_transaction_type("CHARGEBACK").unwrap(), TransactionType::Chargeback);
}

#[test]
fn unknown_type_name_is_refused() {
    assert!(matches!(parse_transaction_type("refund"), Err(PaymentEngineError::InvalidTransactionType)));
    assert!(matches!(parse_transaction_type(""), Err(PaymentEngineError::InvalidTransactionType)));
}

#[test]
fn amounts_are_read_to_four_digits() {
    assert_eq!(parse_amount("400.9699").unwrap(), Some(Amount { units: 4_009_699 }));
    assert_eq!(parse_amount("500").unwrap(), Some(Amount { units: 5_000_000 }));
    assert_eq!(parse_amount("2.5").unwrap(), Some(Amount { units: 25_000 }));
    assert_eq!(parse_amount("-1.25").unwrap(), Some(Amount { units: -12_500 }));
}

#[test]
fn amounts_round_half_to_even() {
    assert_eq!(parse_amount("1.00005").unwrap(), Some(Amount { units: 10_000 }));
    assert_eq!(parse_amount("1.00015").unwrap(), Some(Amount { units: 10_002 }));
    assert_eq!(parse_amount("1.000151").unwrap(), Some(Amount { units: 10_002 }));
    assert_eq!(parse_amount("0.12344999").unwrap(), Some(Amount { units: 1_234 }));
}

#[test]
fn empty_or_zero_amount_is_absent() {
    assert_eq!(parse_amount("").unwrap(), None);
    assert_eq!(parse_amount("0").unwrap(), None);
    assert_eq!(parse_amount("0.0000").unwrap(), None);
    assert_eq!(parse_amount("0.00004").unwrap(), None);
}

#[test]
fn malformed_amount_is_refused() {
    assert!(matches!(parse_amount("abc"), Err(PaymentEngineError::InvalidAmount)));
    assert!(matches!(parse_amount("1.2.3"), Err(PaymentEngineError::InvalidAmount)));
}

#[test]
fn rows_are_read_into_transactions() {
    let t = parse_transaction("Deposit", 1, 7, "1.5").unwrap();
    assert_eq!(t.transaction_type, TransactionType::Deposit);
    assert_eq!(t.client_id, 1);
    assert_eq!(t.transaction_id, 7);
    assert_eq!(t.amount, Some(Amount { units: 15_000 }));
    assert!(!t.disputed);
    let t = parse_transaction("dispute", 2, 7, "").unwrap();
    assert_eq!(t.amount, None);
    assert!(matches!(parse_transaction("deposit", 1, 1, "x"), Err(PaymentEngineError::InvalidAmount)));
    assert!(matches!(parse_transaction("bogus", 1, 1, "x"), Err(PaymentEngineError::InvalidTransactionType)));
}

#[test]
fn lower_case_names_are_known() {
    assert_eq!(transaction_type_named("resolve"), Some(TransactionType::Resolve));
    assert_eq!(transaction_type_named("chargeback"), Some(TransactionType::Chargeback));
    assert_eq!(transaction_type_named("Deposit"), None);
    assert_eq!(transaction_type_named("deposits"), None);
}

#[test]
fn amounts_from_mantissa_and_scale() {
    assert_eq!(amount_from_parts(5, 0), Some(Amount { units: 50_000 }));
    assert_eq!(amount_from_parts(4_009_699, 4), Some(Amount { units: 4_009_699 }));
    assert_eq!(amount_from_parts(100_015, 5), Some(Amount { units: 10_002 }));
    assert_eq!(amount_from_parts(-100_025, 5), Some(Amount { units: -10_002 }));
    assert_eq!(amount_from_parts(4, 5), None);
    assert_eq!(amount_from_parts(0, 0), None);
}
