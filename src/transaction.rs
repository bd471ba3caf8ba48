use vstd::prelude::*;

use crate::account::{AccountAddress, AccountId, UserId};
use crate::money::{converted, Amount, Currency, LedgerError, Rate};

verus! {

/// Identity of a transaction; doubles as its idempotency key.
#[derive(Clone, Copy, Debug, PartialEq, Eq, Structural)]
pub struct TransactionId(pub u128);

/// Identity of a locked exchange rate.
#[derive(Clone, Copy, Debug, PartialEq, Eq, Structural)]
pub struct ExchangeId(pub u128);

/// Where the value of a transaction goes.
#[derive(Debug)]
pub enum Receipt {
    /// An account of this ledger, credited in the same atomic unit.
    Account(AccountId),
    /// An outside address, settled by an external collaborator.
    Address(AccountAddress),
}

impl Clone for Receipt {
    fn clone(&self) -> (r: Self)
        ensures
            r == *self,
    {
        match self {
            Receipt::Account(id) => Receipt::Account(*id),
            Receipt::Address(a) => Receipt::Address(a.clone()),
        }
    }
}

/// The tag of a `Receipt`.
#[derive(Clone, Copy, Debug, PartialEq, Eq, Structural)]
pub enum ReceiptType {
    Account,
    Address,
}

impl Receipt {
    pub fn receipt_type(&self) -> (r: ReceiptType)
        ensures
            (r == ReceiptType::Account) <==> (self is Account),
    {
        match self {
            Receipt::Account(_) => ReceiptType::Account,
            Receipt::Address(_) => ReceiptType::Address,
        }
    }
}

/// Lifecycle of a transaction: `Pending` first, then exactly one of the
/// two terminal states.
#[derive(Clone, Copy, Debug, PartialEq, Eq, Structural)]
pub enum TransactionStatus {
    Pending,
    Completed,
    Rejected,
}

impl TransactionStatus {
    pub open spec fn is_terminal(self) -> bool {
        self != TransactionStatus::Pending
    }
}

/// What a transaction has done to balances so far.
#[derive(Clone, Copy, Debug, PartialEq, Eq, Structural)]
pub enum BalanceEffect {
    /// Debit and credit were applied when the transaction was created.
    Applied,
    /// The source was debited; the outside settlement has not reported yet.
    AwaitingSettlement,
    /// Nothing has been applied: the transaction is held until a later time.
    Held,
    /// Nothing was applied and nothing will be.
    Cancelled,
}

/// The outcome of asking for a status change: whether it changes anything.
pub open spec fn transition_spec(current: TransactionStatus, target: TransactionStatus) -> Result<
    bool,
    LedgerError,
> {
    if target == TransactionStatus::Pending {
        Err(LedgerError::InvalidTransition)
    } else if current == TransactionStatus::Pending {
        Ok(true)
    } else if current == target {
        Ok(false)
    } else {
        Err(LedgerError::InvalidTransition)
    }
}

/// Decides a status change. `Ok(true)`: the change applies; `Ok(false)`:
/// the transaction already has that terminal status and nothing happens;
/// `InvalidTransition`: back to pending, or from one terminal status to the other.
pub fn transition(current: TransactionStatus, target: TransactionStatus) -> (r: Result<
    bool,
    LedgerError,
>)
    ensures
        r == transition_spec(current, target),
{
    if target == TransactionStatus::Pending {
        Err(LedgerError::InvalidTransition)
    } else if current == TransactionStatus::Pending {
        Ok(true)
    } else if current == target {
        Ok(false)
    } else {
        Err(LedgerError::InvalidTransition)
    }
}

/// A validated request to move value.
#[derive(Debug)]
pub struct CreateTransaction {
    pub id: TransactionId,
    pub user_id: UserId,
    pub from: AccountId,
    pub to: Receipt,
    pub to_currency: Currency,
    pub value_currency: Currency,
    pub value: Amount,
    pub fee: Amount,
    pub exchange_id: Option<ExchangeId>,
    pub exchange_rate: Option<Rate>,
    /// Milliseconds since the Unix epoch.
    pub hold_until: Option<u64>,
}

/// A stored transaction.
#[derive(Debug)]
pub struct Transaction {
    pub id: TransactionId,
    pub user_id: UserId,
    pub from: AccountId,
    pub to: Receipt,
    pub to_currency: Currency,
    pub value_currency: Currency,
    pub value: Amount,
    pub fee: Amount,
    pub exchange_id: Option<ExchangeId>,
    pub exchange_rate: Option<Rate>,
    pub status: TransactionStatus,
    pub effect: BalanceEffect,
    pub hold_until: Option<u64>,
    pub created_at: u64,
    pub updated_at: u64,
}

impl Clone for Transaction {
    fn clone(&self) -> (r: Self)
        ensures
            r == *self,
    {
        Transaction {
            id: self.id,
            user_id: self.user_id,
            from: self.from,
            to: self.to.clone(),
            to_currency: self.to_currency,
            value_currency: self.value_currency,
            value: self.value,
            fee: self.fee,
            exchange_id: self.exchange_id,
            exchange_rate: self.exchange_rate,
            status: self.status,
            effect: self.effect,
            hold_until: self.hold_until,
            created_at: self.created_at,
            updated_at: self.updated_at,
        }
    }
}

/// Whether `cmd` is held at time `now`: its hold time lies in the future.
pub open spec fn is_held(cmd: CreateTransaction, now: u64) -> bool {
    cmd.hold_until matches Some(t) && t > now
}

/// The amount debited from the source: value plus fee.
pub open spec fn debit_of(cmd: CreateTransaction) -> nat {
    cmd.value@ + cmd.fee@
}

/// The amount that reaches the destination, in `to_currency`, when `value`
/// of `value_currency` is sent; `None` when the currencies differ and the
/// exchange id or rate is missing.
pub open spec fn credit_amount(
    value: Amount,
    value_currency: Currency,
    to_currency: Currency,
    exchange_id: Option<ExchangeId>,
    exchange_rate: Option<Rate>,
) -> Option<nat> {
    if to_currency == value_currency {
        Some(value@)
    } else {
        match (exchange_id, exchange_rate) {
            (Some(_), Some(r)) => Some(converted(value@, r.numer(), r.denom())),
            _ => None,
        }
    }
}

/// The amount that `cmd` credits to its destination.
pub open spec fn credit_of(cmd: CreateTransaction) -> Option<nat> {
    credit_amount(cmd.value, cmd.value_currency, cmd.to_currency, cmd.exchange_id, cmd.exchange_rate)
}

/// The amount that the stored transaction `t` credits to its destination.
pub open spec fn credit_of_record(t: Transaction) -> Option<nat> {
    credit_amount(t.value, t.value_currency, t.to_currency, t.exchange_id, t.exchange_rate)
}

/// The credited amount in minor units; `Err` as `credit_amount` prescribes:
/// `CurrencyMismatch` when it is `None`, `AmountOverflow` when it does not fit.
pub fn compute_credit(
    value: Amount,
    value_currency: Currency,
    to_currency: Currency,
    exchange_id: Option<ExchangeId>,
    exchange_rate: Option<Rate>,
) -> (r: Result<u64, LedgerError>)
    ensures
        credit_amount(value, value_currency, to_currency, exchange_id, exchange_rate) is None
            ==> r == Err::<u64, LedgerError>(LedgerError::CurrencyMismatch),
        credit_amount(value, value_currency, to_currency, exchange_id, exchange_rate) matches Some(
            c,
        ) ==> (if c <= u64::MAX {
            r == Ok::<u64, LedgerError>(c as u64)
        } else {
            r == Err::<u64, LedgerError>(LedgerError::AmountOverflow)
        }),
{
    if to_currency == value_currency {
        return Ok(value.0);
    }
    match (exchange_id, exchange_rate) {
        (Some(_), Some(rate)) => match crate::money::convert_units(value.0, &rate) {
            Some(c) => Ok(c),
            None => Err(LedgerError::AmountOverflow),
        },
        _ => Err(LedgerError::CurrencyMismatch),
    }
}

/// Status and balance effect of a freshly created transaction: held when
/// its hold time is in the future; otherwise completed for an internal
/// destination and awaiting settlement for an outside address.
pub open spec fn initial_state(cmd: CreateTransaction, now: u64) -> (TransactionStatus, BalanceEffect) {
    if is_held(cmd, now) {
        (TransactionStatus::Pending, BalanceEffect::Held)
    } else {
        match cmd.to {
            Receipt::Account(_) => (TransactionStatus::Completed, BalanceEffect::Applied),
            Receipt::Address(_) => (TransactionStatus::Pending, BalanceEffect::AwaitingSettlement),
        }
    }
}

/// `t` moved to `status` and `effect` at time `at`.
pub open spec fn with_state(
    t: Transaction,
    status: TransactionStatus,
    effect: BalanceEffect,
    at: u64,
) -> Transaction {
    Transaction { status: status, effect: effect, updated_at: at, ..t }
}

/// The record stored for `cmd` with the given status and effect.
pub open spec fn record_of(
    cmd: CreateTransaction,
    status: TransactionStatus,
    effect: BalanceEffect,
    now: u64,
) -> Transaction {
    Transaction {
        id: cmd.id,
        user_id: cmd.user_id,
        from: cmd.from,
        to: cmd.to,
        to_currency: cmd.to_currency,
        value_currency: cmd.value_currency,
        value: cmd.value,
        fee: cmd.fee,
        exchange_id: cmd.exchange_id,
        exchange_rate: cmd.exchange_rate,
        status: status,
        effect: effect,
        hold_until: cmd.hold_until,
        created_at: now,
        updated_at: now,
    }
}

impl Transaction {
    /// The record stored for `cmd`.
    pub fn from_command(
        cmd: CreateTransaction,
        status: TransactionStatus,
        effect: BalanceEffect,
        now: u64,
    ) -> (r: Transaction)
        ensures
            r == record_of(cmd, status, effect, now),
    {
        Transaction {
            id: cmd.id,
            user_id: cmd.user_id,
            from: cmd.from,
            to: cmd.to,
            to_currency: cmd.to_currency,
            value_currency: cmd.value_currency,
            value: cmd.value,
            fee: cmd.fee,
            exchange_id: cmd.exchange_id,
            exchange_rate: cmd.exchange_rate,
            status,
            effect,
            hold_until: cmd.hold_until,
            created_at: now,
            updated_at: now,
        }
    }
}

} // verus!
