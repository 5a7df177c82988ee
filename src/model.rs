use crate::error::PaymentEngineError;
use rust_decimal::Decimal;
use std::str::FromStr;
use vstd::prelude::*;

verus! {

/// Number of fractional decimal digits that amounts and balances carry.
pub const DECIMAL_POINT: u32 = 4;

/// Largest magnitude of a decimal mantissa: 96 bits.
pub const MAX_MANTISSA: i128 = 79228162514264337593543950335;

/// A fixed-point decimal quantity, counted in units of 0.0001.
#[derive(Clone, Copy, Debug, PartialEq, Eq, Structural)]
pub struct Amount {
    pub units: i128,
}

/// The amount of exactly `x` units, if it is representable.
pub open spec fn amount_of(x: int) -> Option<Amount> {
    if i128::MIN <= x <= i128::MAX {
        Some(Amount { units: x as i128 })
    } else {
        None
    }
}

impl Amount {
    /// The zero amount.
    pub fn zero() -> (r: Amount)
        ensures
            r.units == 0,
    {
        Amount { units: 0 }
    }

    /// The sum of two amounts, or `None` where it is not representable.
    pub fn checked_add(self, other: Amount) -> (r: Option<Amount>)
        ensures
            r == amount_of(self.units + other.units),
    {
        match self.units.checked_add(other.units) {
            Some(units) => Some(Amount { units }),
            None => None,
        }
    }

    /// The difference of two amounts, or `None` where it is not representable.
    pub fn checked_sub(self, other: Amount) -> (r: Option<Amount>)
        ensures
            r == amount_of(self.units - other.units),
    {
        match self.units.checked_sub(other.units) {
            Some(units) => Some(Amount { units }),
            None => None,
        }
    }
}

/// The five kinds of ledger operations.
#[derive(Clone, Copy, Debug, PartialEq, Eq, Structural)]
pub enum TransactionType {
    Deposit,
    Withdrawal,
    Dispute,
    Resolve,
    Chargeback,
}

/// One row of the ledger. Deposits and withdrawals carry their own id and an
/// amount; the dispute family carries the id of the transaction it refers to.
#[derive(Clone, Copy, Debug, PartialEq, Eq, Structural)]
pub struct Transaction {
    pub transaction_type: TransactionType,
    pub client_id: u16,
    pub transaction_id: u32,
    pub amount: Option<Amount>,
    pub disputed: bool,
}

impl Transaction {
    /// A transaction that is not disputed.
    pub fn new(
        transaction_type: TransactionType,
        client_id: u16,
        transaction_id: u32,
        amount: Option<Amount>,
    ) -> (r: Transaction)
        ensures
            r == (Transaction { transaction_type, client_id, transaction_id, amount, disputed: false }),
    {
        Transaction { transaction_type, client_id, transaction_id, amount, disputed: false }
    }
}

/// The balances of one client.
#[derive(Clone, Copy, Debug, PartialEq, Eq, Structural)]
pub struct Account {
    pub client_id: u16,
    pub available: Amount,
    pub held: Amount,
    pub total: Amount,
    pub locked: bool,
}

impl Account {
    /// `total` is the sum of `available` and `held`.
    pub open spec fn balanced(self) -> bool {
        self.total.units == self.available.units + self.held.units
    }

    /// A fresh, empty and unlocked account.
    pub open spec fn empty(client_id: u16) -> Account {
        Account {
            client_id,
            available: Amount { units: 0 },
            held: Amount { units: 0 },
            total: Amount { units: 0 },
            locked: false,
        }
    }

    pub fn new(client: u16) -> (r: Account)
        ensures
            r == Account::empty(client),
            r.balanced(),
    {
        Account {
            client_id: client,
            available: Amount::zero(),
            held: Amount::zero(),
            total: Amount::zero(),
            locked: false,
        }
    }
}

/// What `str::to_lowercase` makes of a text.
pub uninterp spec fn lower_of(s: Seq<char>) -> Seq<char>;

/// Relies on `str::to_lowercase`: the result depends on the characters alone.
#[verifier::external_body]
fn lowercase(s: &str) -> (r: String)
    ensures
        r@ == lower_of(s@),
{
    s.to_lowercase()
}

/// The transaction type that a lower-case name stands for.
pub open spec fn type_named(name: Seq<char>) -> Option<TransactionType> {
    if name == "deposit"@ {
        Some(TransactionType::Deposit)
    } else if name == "withdrawal"@ {
        Some(TransactionType::Withdrawal)
    } else if name == "dispute"@ {
        Some(TransactionType::Dispute)
    } else if name == "resolve"@ {
        Some(TransactionType::Resolve)
    } else if name == "chargeback"@ {
        Some(TransactionType::Chargeback)
    } else {
        None
    }
}

/// The transaction type that a lower-case name stands for.
pub fn transaction_type_named(name: &str) -> (r: Option<TransactionType>)
    ensures
        r == type_named(name@),
{
    let name = name.to_owned();
    if name == "deposit".to_owned() {
        Some(TransactionType::Deposit)
    } else if name == "withdrawal".to_owned() {
        Some(TransactionType::Withdrawal)
    } else if name == "dispute".to_owned() {
        Some(TransactionType::Dispute)
    } else if name == "resolve".to_owned() {
        Some(TransactionType::Resolve)
    } else if name == "chargeback".to_owned() {
        Some(TransactionType::Chargeback)
    } else {
        None
    }
}

/// Reads a transaction type, regardless of case.
pub fn parse_transaction_type(text: &str) -> (r: Result<TransactionType, PaymentEngineError>)
    ensures
        match type_named(lower_of(text@)) {
            Some(t) => r == Ok::<TransactionType, PaymentEngineError>(t),
            None => r matches Err(PaymentEngineError::InvalidTransactionType),
        },
{
    let name = lowercase(text);
    match transaction_type_named(name.as_str()) {
        Some(t) => Ok(t),
        None => Err(PaymentEngineError::InvalidTransactionType),
    }
}

/// `10` to the power `n`.
pub open spec fn pow10(n: nat) -> int
    decreases n,
{
    if n == 0 {
        1
    } else {
        10 * pow10((n - 1) as nat)
    }
}

/// `m / d` for `m >= 0`, rounded to the nearest integer, ties to the even one.
pub open spec fn half_even_div(m: int, d: int) -> int {
    let q = m / d;
    let r = m % d;
    if 2 * r > d || (2 * r == d && q % 2 == 1) {
        q + 1
    } else {
        q
    }
}

/// `m / d`, rounded to the nearest integer, ties to the even one, symmetric around zero.
pub open spec fn round_half_even(m: int, d: int) -> int {
    if m >= 0 {
        half_even_div(m, d)
    } else {
        -half_even_div(-m, d)
    }
}

/// The mantissa and scale that `Decimal::from_str` reads from a text, if it reads one.
pub uninterp spec fn decimal_parts_of(text: Seq<char>) -> Option<(i128, u32)>;

/// Relies on `rust_decimal::Decimal::from_str`: reads a decimal number, whose
/// mantissa holds at most 96 bits and whose scale is at most 28.
#[verifier::external_body]
fn parse_decimal(text: &str) -> (r: Option<(i128, u32)>)
    ensures
        r == decimal_parts_of(text@),
        r matches Some((m, s)) ==> -MAX_MANTISSA <= m <= MAX_MANTISSA && s <= 28,
{
    match Decimal::from_str(text) {
        Ok(d) => Some((d.mantissa(), d.scale())),
        Err(_) => None,
    }
}

/// Relies on `Decimal::from_i128_with_scale` and `Decimal::round_dp`: the value
/// `mantissa / 10^scale` rounded to `dp` fractional digits, ties to even; a value
/// with no more than `dp` digits comes back as it is.
#[verifier::external_body]
fn round_decimal(mantissa: i128, scale: u32, dp: u32) -> (r: (i128, u32))
    requires
        -MAX_MANTISSA <= mantissa <= MAX_MANTISSA,
        scale <= 28,
    ensures
        scale <= dp ==> r == (mantissa, scale),
        scale > dp ==> r.1 == dp && r.0 == round_half_even(
            mantissa as int,
            pow10((scale - dp) as nat),
        ),
{
    let d = Decimal::from_i128_with_scale(mantissa, scale).round_dp(dp);
    (d.mantissa(), d.scale())
}

/// Units of 0.0001 in the decimal `m / 10^s`, rounded to four fractional digits.
pub open spec fn rounded_units(m: int, s: nat) -> int {
    if s <= DECIMAL_POINT {
        m * pow10((DECIMAL_POINT - s) as nat)
    } else {
        round_half_even(m, pow10((s - DECIMAL_POINT) as nat))
    }
}

/// The amount `m / 10^s` rounded to four fractional digits; `None` where that is zero.
pub open spec fn amount_of_parts(m: int, s: nat) -> Option<Amount> {
    let u = rounded_units(m, s);
    if u == 0 {
        None
    } else {
        Some(Amount { units: u as i128 })
    }
}

/// What an amount field holds: `None` where it is empty or rounds to zero.
pub open spec fn amount_field(text: Seq<char>) -> Result<Option<Amount>, ()> {
    if text.len() == 0 {
        Ok(None)
    } else {
        match decimal_parts_of(text) {
            None => Err(()),
            Some((m, s)) => Ok(amount_of_parts(m as int, s as nat)),
        }
    }
}

/// The decimal with the given mantissa and scale, rounded to four fractional
/// digits (ties to even), as an amount; `None` where it rounds to zero.
pub fn amount_from_parts(mantissa: i128, scale: u32) -> (r: Option<Amount>)
    requires
        -MAX_MANTISSA <= mantissa <= MAX_MANTISSA,
        scale <= 28,
    ensures
        r == amount_of_parts(mantissa as int, scale as nat),
{
    let (rm, rs) = round_decimal(mantissa, scale, DECIMAL_POINT);
    proof {
        reveal_with_fuel(pow10, 5);
    }
    let units: i128 = if rs == 0 {
        rm * 10000
    } else if rs == 1 {
        rm * 1000
    } else if rs == 2 {
        rm * 100
    } else if rs == 3 {
        rm * 10
    } else {
        rm
    };
    if units == 0 {
        None
    } else {
        Some(Amount { units })
    }
}

/// Reads an amount field: a decimal rounded to four fractional digits, where an
/// empty field or one that rounds to zero means no amount.
pub fn parse_amount(text: &str) -> (r: Result<Option<Amount>, PaymentEngineError>)
    ensures
        match amount_field(text@) {
            Ok(a) => r == Ok::<Option<Amount>, PaymentEngineError>(a),
            Err(_) => r matches Err(PaymentEngineError::InvalidAmount),
        },
{
    if text.is_empty() {
        return Ok(None);
    }
    match parse_decimal(text) {
        Some((m, s)) => Ok(amount_from_parts(m, s)),
        None => Err(PaymentEngineError::InvalidAmount),
    }
}
/// Reads one ledger row: its type (in any case) and its amount field, with
/// the client and transaction ids as given.
pub fn parse_transaction(
    type_text: &str,
    client_id: u16,
    transaction_id: u32,
    amount_text: &str,
) -> (r: Result<Transaction, PaymentEngineError>)
    ensures
        match (type_named(lower_of(type_text@)), amount_field(amount_text@)) {
            (None, _) => r matches Err(PaymentEngineError::InvalidTransactionType),
            (Some(_), Err(_)) => r matches Err(PaymentEngineError::InvalidAmount),
            (Some(transaction_type), Ok(amount)) => r == Ok::<Transaction, PaymentEngineError>(
                Transaction { transaction_type, client_id, transaction_id, amount, disputed: false },
            ),
        },
{
    let transaction_type = parse_transaction_type(type_text)?;
    let amount = parse_amount(amount_text)?;
    Ok(Transaction::new(transaction_type, client_id, transaction_id, amount))
}

} // verus!
