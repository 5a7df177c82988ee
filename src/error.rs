use vstd::prelude::*;

verus! {

#[verifier::external_type_specification]
#[verifier::external_body]
pub struct ExPickleError(pickledb::error::Error);

/// Why a transaction, or a field of one, was refused.
#[derive(Debug)]
pub enum PaymentEngineError {
    /// A deposit or withdrawal, or the transaction a dispute refers to, has no amount.
    NoAmount,
    /// A withdrawal asks for more than the available funds.
    InsufficientAccountFunds,
    /// The transaction a dispute, resolve or chargeback refers to is unknown.
    DisputedTransactionNotFound,
    /// The referenced transaction is neither a deposit nor a withdrawal.
    InvalidDisputedTransactionType,
    /// The referenced transaction is disputed already.
    TransactionAlreadyDisputed,
    /// The store holds no transaction under the id whose dispute flag was to change.
    DisputedValueChange,
    /// The referenced transaction has no open dispute.
    TransactionNotDisputed,
    /// A balance would leave the range of the fixed-point representation.
    AmountOutOfRange,
    /// An amount field is not a decimal number.
    InvalidAmount,
    /// A type field names none of the five transaction types.
    InvalidTransactionType,
    /// The transaction store could not save a record.
    PickleDb { source: pickledb::error::Error },
}

impl PaymentEngineError {
    /// Whether the error comes from the storage backend rather than from a business rule.
    pub open spec fn is_store_failure(self) -> bool {
        self is PickleDb
    }

    pub fn store_failure(&self) -> (r: bool)
        ensures
            r == self.is_store_failure(),
    {
        match self {
            PaymentEngineError::PickleDb { .. } => true,
            _ => false,
        }
    }
}

} // verus!
