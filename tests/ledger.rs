use wallet_core::account::{
    Account, AccountAddress, AccountId, Balance, CreateAccount, NewAccount, UpdateAccount, UserId,
};
use wallet_core::ledger::Ledger;
use wallet_core::money::{convert, convert_units, Amount, Currency, LedgerError, Money, Rate};
use wallet_core::notify::{submit_status_update, submit_transaction, Notification};
use wallet_core::transaction::{
    transition, BalanceEffect, CreateTransaction, ExchangeId, Receipt, TransactionId,
    TransactionStatus,
};

const ETH: u64 = 1_000_000_000_000_000_000;

fn row(id: u128, currency: Currency, balance: u64) -> Account {
    Account {
        id: AccountId(id),
        user_id: UserId(7),
        currency,
        account_address: AccountAddress(format!("0xaddr{}", id)),
        name: "main".to_string(),
        balance: Amount(balance),
        created_at: 1,
        updated_at: 1,
    }
}

fn ledger_with(rows: &[(u128, Currency, u64)]) -> Ledger {
    Ledger::from_accounts(rows.iter().map(|&(id, c, b)| row(id, c, b)).collect()).unwrap()
}

fn balance(ledger: &Ledger, id: u128) -> u64 {
    ledger.get_account(AccountId(id)).unwrap().balance.0
}

fn transfer(id: u128, from: u128, to: u128, value: u64, fee: u64) -> CreateTransaction {
    CreateTransaction {
        id: TransactionId(id),
        user_id: UserId(7),
        from: AccountId(from),
        to: Receipt::Account(AccountId(to)),
        to_currency: Currency::Eth,
        value_currency: Currency::Eth,
        value: Amount(value),
        fee: Amount(fee),
        exchange_id: None,
        exchange_rate: None,
        hold_until: None,
    }
}

#[test]
fn internal_transfer_moves_value_and_fee() {
    let mut ledger = ledger_with(&[(1, Currency::Eth, 10 * ETH), (2, Currency::Eth, 0)]);
    let c = submit_transaction(&mut ledger, transfer(100, 1, 2, 3 * ETH, ETH / 10), 5).unwrap();
    assert_eq!(balance(&ledger, 1), 6_900_000_000_000_000_000);
    assert_eq!(balance(&ledger, 2), 3 * ETH);
    assert_eq!(c.transaction.status, TransactionStatus::Completed);
    let callbacks: Vec<_> = c
        .notifications
        .iter()
        .filter_map(|n| match n {
            Notification::Callback(cb) => Some(cb.transaction_id),
            _ => None,
        })
        .collect();
    assert_eq!(callbacks, vec![TransactionId(100)]);
}

#[test]
fn transfer_beyond_balance_changes_nothing() {
    let mut ledger = ledger_with(&[(1, Currency::Eth, ETH), (2, Currency::Eth, 0)]);
    let r = submit_transaction(&mut ledger, transfer(100, 1, 2, 2 * ETH, 0), 5);
    assert_eq!(r.err(), Some(LedgerError::InsufficientFunds));
    assert_eq!(balance(&ledger, 1), ETH);
    assert_eq!(balance(&ledger, 2), 0);
    assert!(ledger.get_transaction(TransactionId(100)).is_none());
    assert!(ledger.transaction_count() == 0);
}

#[test]
fn cross_currency_transfer_credits_converted_value() {
    let mut ledger = ledger_with(&[(1, Currency::Eth, 10 * ETH), (2, Currency::Btc, 0)]);
    let mut cmd = transfer(100, 1, 2, 3 * ETH, 0);
    cmd.to_currency = Currency::Btc;
    cmd.exchange_id = Some(ExchangeId(55));
    cmd.exchange_rate = Some(Rate::new(5, 100).unwrap());
    let t = ledger.create_transaction(cmd, 5).unwrap();
    assert_eq!(balance(&ledger, 2), 150_000_000_000_000_000);
    assert_eq!(balance(&ledger, 1), 7 * ETH);
    assert_eq!(t.exchange_id, Some(ExchangeId(55)));
    let stored = ledger.get_transaction(TransactionId(100)).unwrap();
    assert_eq!(stored.exchange_id, Some(ExchangeId(55)));
}

#[test]
fn cross_currency_without_rate_is_a_mismatch() {
    let mut ledger = ledger_with(&[(1, Currency::Eth, 10), (2, Currency::Btc, 0)]);
    let mut cmd = transfer(100, 1, 2, 3, 0);
    cmd.to_currency = Currency::Btc;
    cmd.exchange_rate = Some(Rate::new(1, 2).unwrap());
    assert_eq!(ledger.create_transaction(cmd, 5).err(), Some(LedgerError::CurrencyMismatch));
    assert_eq!(balance(&ledger, 1), 10);
}

#[test]
fn destination_currency_must_match() {
    let mut ledger = ledger_with(&[(1, Currency::Eth, 10), (2, Currency::Btc, 0)]);
    let r = ledger.create_transaction(transfer(100, 1, 2, 3, 0), 5);
    assert_eq!(r.err(), Some(LedgerError::CurrencyMismatch));
}

#[test]
fn unknown_accounts_are_not_found() {
    let mut ledger = ledger_with(&[(1, Currency::Eth, 10)]);
    assert_eq!(ledger.create_transaction(transfer(100, 9, 1, 3, 0), 5).err(), Some(LedgerError::NotFound));
    assert_eq!(ledger.create_transaction(transfer(101, 1, 9, 3, 0), 5).err(), Some(LedgerError::NotFound));
    assert_eq!(balance(&ledger, 1), 10);
}

#[test]
fn repeated_transaction_id_applies_once() {
    let mut ledger = ledger_with(&[(1, Currency::Eth, 10), (2, Currency::Eth, 0)]);
    let first = submit_transaction(&mut ledger, transfer(100, 1, 2, 3, 1), 5).unwrap();
    let again = submit_transaction(&mut ledger, transfer(100, 1, 2, 3, 1), 6).unwrap();
    assert_eq!(balance(&ledger, 1), 6);
    assert_eq!(balance(&ledger, 2), 3);
    assert_eq!(again.transaction.created_at, first.transaction.created_at);
    assert!(again.notifications.is_empty());
    assert_eq!(ledger.transaction_count(), 1);
}

#[test]
fn held_transaction_waits_for_release() {
    let mut ledger = ledger_with(&[(1, Currency::Eth, 10), (2, Currency::Eth, 0)]);
    let mut cmd = transfer(100, 1, 2, 3, 1);
    cmd.hold_until = Some(50);
    let t = ledger.create_transaction(cmd, 5).unwrap();
    assert_eq!(t.status, TransactionStatus::Pending);
    assert_eq!(t.effect, BalanceEffect::Held);
    assert_eq!(balance(&ledger, 1), 10);
    assert_eq!(balance(&ledger, 2), 0);
    let t = ledger.update_status(TransactionId(100), TransactionStatus::Completed, 60).unwrap();
    assert_eq!(t.status, TransactionStatus::Completed);
    assert_eq!(balance(&ledger, 1), 6);
    assert_eq!(balance(&ledger, 2), 3);
}

#[test]
fn held_transaction_rejected_never_moves_value() {
    let mut ledger = ledger_with(&[(1, Currency::Eth, 10), (2, Currency::Eth, 0)]);
    let mut cmd = transfer(100, 1, 2, 3, 1);
    cmd.hold_until = Some(50);
    ledger.create_transaction(cmd, 5).unwrap();
    let t = ledger.update_status(TransactionId(100), TransactionStatus::Rejected, 60).unwrap();
    assert_eq!(t.status, TransactionStatus::Rejected);
    assert_eq!(t.effect, BalanceEffect::Cancelled);
    assert_eq!(balance(&ledger, 1), 10);
    assert_eq!(balance(&ledger, 2), 0);
}

#[test]
fn past_hold_time_applies_at_once() {
    let mut ledger = ledger_with(&[(1, Currency::Eth, 10), (2, Currency::Eth, 0)]);
    let mut cmd = transfer(100, 1, 2, 3, 0);
    cmd.hold_until = Some(5);
    let t = ledger.create_transaction(cmd, 5).unwrap();
    assert_eq!(t.status, TransactionStatus::Completed);
    assert_eq!(balance(&ledger, 2), 3);
}

#[test]
fn terminal_status_is_final() {
    let mut ledger = ledger_with(&[(1, Currency::Eth, 10), (2, Currency::Eth, 0)]);
    ledger.create_transaction(transfer(100, 1, 2, 3, 0), 5).unwrap();
    let same = ledger.update_status(TransactionId(100), TransactionStatus::Completed, 9).unwrap();
    assert_eq!(same.status, TransactionStatus::Completed);
    assert_eq!(same.updated_at, 5);
    let other = ledger.update_status(TransactionId(100), TransactionStatus::Rejected, 9);
    assert_eq!(other.err(), Some(LedgerError::InvalidTransition));
    let back = ledger.update_status(TransactionId(100), TransactionStatus::Pending, 9);
    assert_eq!(back.err(), Some(LedgerError::InvalidTransition));
    assert_eq!(balance(&ledger, 1), 7);
    assert_eq!(
        ledger.update_status(TransactionId(999), TransactionStatus::Completed, 9).err(),
        Some(LedgerError::NotFound)
    );
}

#[test]
fn transition_table() {
    let (p, c, r) = (
        TransactionStatus::Pending,
        TransactionStatus::Completed,
        TransactionStatus::Rejected,
    );
    assert_eq!(transition(p, c), Ok(true));
    assert_eq!(transition(p, r), Ok(true));
    assert_eq!(transition(c, c), Ok(false));
    assert_eq!(transition(r, r), Ok(false));
    assert_eq!(transition(c, r), Err(LedgerError::InvalidTransition));
    assert_eq!(transition(r, c), Err(LedgerError::InvalidTransition));
    assert_eq!(transition(p, p), Err(LedgerError::InvalidTransition));
}

#[test]
fn outside_address_settles_later() {
    let mut ledger = ledger_with(&[(1, Currency::Eth, 10)]);
    let mut cmd = transfer(100, 1, 2, 3, 1);
    cmd.to = Receipt::Address(AccountAddress("0xoutside".to_string()));
    let t = ledger.create_transaction(cmd, 5).unwrap();
    assert_eq!(t.status, TransactionStatus::Pending);
    assert_eq!(t.effect, BalanceEffect::AwaitingSettlement);
    assert_eq!(balance(&ledger, 1), 6);
    let t = ledger.update_status(TransactionId(100), TransactionStatus::Rejected, 7).unwrap();
    assert_eq!(t.status, TransactionStatus::Rejected);
    assert_eq!(balance(&ledger, 1), 10);
}

#[test]
fn outside_address_completion_keeps_balance() {
    let mut ledger = ledger_with(&[(1, Currency::Eth, 10)]);
    let mut cmd = transfer(100, 1, 2, 3, 1);
    cmd.to = Receipt::Address(AccountAddress("0xoutside".to_string()));
    ledger.create_transaction(cmd, 5).unwrap();
    let t = ledger.update_status(TransactionId(100), TransactionStatus::Completed, 7).unwrap();
    assert_eq!(t.status, TransactionStatus::Completed);
    assert_eq!(balance(&ledger, 1), 6);
}

#[test]
fn self_transfer_only_costs_the_fee() {
    let mut ledger = ledger_with(&[(1, Currency::Eth, 10)]);
    ledger.create_transaction(transfer(100, 1, 1, 3, 1), 5).unwrap();
    assert_eq!(balance(&ledger, 1), 9);
}

fn payout(id: u128, value: u64) -> CreateTransaction {
    let mut cmd = transfer(id, 1, 0, value, 0);
    cmd.to = Receipt::Address(AccountAddress("0xoutside".to_string()));
    cmd
}

#[test]
fn debits_commit_only_while_funds_last() {
    let mut ledger = ledger_with(&[(1, Currency::Eth, 10)]);
    let mut committed: i128 = 0;
    for (id, value) in [(100u128, 4u64), (101, 4), (102, 4)] {
        if ledger.create_transaction(payout(id, value), 2).is_ok() {
            committed -= value as i128;
        }
        assert!(balance(&ledger, 1) <= 10);
    }
    assert_eq!(balance(&ledger, 1), 2);
    ledger.update_status(TransactionId(101), TransactionStatus::Rejected, 3).unwrap();
    committed += 4;
    assert!(ledger.create_transaction(payout(103, 3), 4).is_ok());
    committed -= 3;
    assert_eq!(committed, -7);
    assert_eq!(balance(&ledger, 1) as i128, 10 + committed);
    assert_eq!(
        ledger.create_transaction(payout(104, 4), 5).err(),
        Some(LedgerError::InsufficientFunds)
    );
    assert_eq!(balance(&ledger, 1), 3);
}

#[test]
fn credit_past_the_largest_amount_overflows() {
    let mut ledger = ledger_with(&[(1, Currency::Eth, u64::MAX), (2, Currency::Eth, 1)]);
    let r = ledger.create_transaction(transfer(100, 2, 1, 1, 0), 5);
    assert_eq!(r.err(), Some(LedgerError::AmountOverflow));
    assert_eq!(balance(&ledger, 1), u64::MAX);
    assert_eq!(balance(&ledger, 2), 1);
    let r = ledger.create_transaction(transfer(101, 1, 1, u64::MAX, 1), 5);
    assert_eq!(r.err(), Some(LedgerError::AmountOverflow));
}

#[test]
fn restoring_rows_with_a_shared_id_fails() {
    assert!(Ledger::from_accounts(vec![row(1, Currency::Eth, 0), row(1, Currency::Btc, 5)]).is_none());
    let l = Ledger::from_accounts(vec![row(1, Currency::Eth, 0), row(2, Currency::Btc, 5)]).unwrap();
    assert_eq!(l.account_count(), 2);
    assert_eq!(balance(&l, 2), 5);
}

#[test]
fn balance_of_an_account() {
    let b = Balance::from(row(4, Currency::Btc, 9));
    assert_eq!(b.currency, Currency::Btc);
    assert_eq!(b.balance, Amount(9));
}

#[test]
fn duplicate_account_is_a_conflict() {
    let mut ledger = ledger_with(&[(1, Currency::Eth, 0)]);
    let again = NewAccount {
        id: AccountId(1),
        user_id: UserId(8),
        currency: Currency::Btc,
        account_address: AccountAddress("x".to_string()),
        name: "other".to_string(),
    };
    assert_eq!(ledger.create_account(again, 2).err(), Some(LedgerError::Conflict));
    assert_eq!(ledger.account_count(), 1);
    let fresh = NewAccount {
        id: AccountId(2),
        user_id: UserId(8),
        currency: Currency::Btc,
        account_address: AccountAddress("bc1q".to_string()),
        name: "other".to_string(),
    };
    let a = ledger.create_account(fresh, 2).unwrap();
    assert_eq!(a.balance, Amount(0));
    assert_eq!(a.account_address.0, "bc1q");
    assert_eq!(ledger.account_count(), 2);
}

#[test]
fn rename_account() {
    let mut ledger = ledger_with(&[(1, Currency::Eth, 0)]);
    let a = ledger.update_name(AccountId(1), UpdateAccount { name: "savings".to_string() }, 4).unwrap();
    assert_eq!(a.name, "savings");
    assert_eq!(a.updated_at, 4);
    let missing = ledger.update_name(AccountId(2), UpdateAccount { name: "x".to_string() }, 4);
    assert_eq!(missing.err(), Some(LedgerError::NotFound));
}

#[test]
fn money_arithmetic() {
    let a = Money::new(Currency::Eth, 5);
    let b = Money::new(Currency::Eth, 7);
    let c = Money::new(Currency::Btc, 1);
    assert_eq!(a.add(&b), Ok(Money::new(Currency::Eth, 12)));
    assert_eq!(a.add(&c), Err(LedgerError::CurrencyMismatch));
    assert_eq!(b.subtract(&a), Ok(Money::new(Currency::Eth, 2)));
    assert_eq!(a.subtract(&b), Err(LedgerError::InsufficientFunds));
    assert_eq!(a.subtract(&c), Err(LedgerError::CurrencyMismatch));
    let max = Money::new(Currency::Eth, u64::MAX);
    assert_eq!(max.add(&a), Err(LedgerError::AmountOverflow));
}

#[test]
fn conversion_rounds_half_to_even() {
    let r = Rate::new(5, 100).unwrap();
    assert_eq!(convert_units(30, &r), Some(2));
    assert_eq!(convert_units(10, &r), Some(0));
    assert_eq!(convert_units(50, &r), Some(2));
    assert_eq!(convert_units(70, &r), Some(4));
    assert_eq!(convert_units(31, &r), Some(2));
    assert_eq!(convert_units(29, &r), Some(1));
    let big = Rate::new(3, 1).unwrap();
    assert_eq!(convert_units(u64::MAX, &big), None);
    let m = convert(Money::new(Currency::Eth, 3 * ETH), &r, Currency::Btc).unwrap();
    assert_eq!(m, Money::new(Currency::Btc, 150_000_000_000_000_000));
    assert!(Rate::new(0, 1).is_none());
    assert!(Rate::new(1, 0).is_none());
}

#[test]
fn conversion_round_trip_within_one_unit() {
    let r = Rate::new(7, 3).unwrap();
    for a in [0u64, 1, 2, 5, 99, 1000, 123_456_789] {
        let there = convert_units(a, &r).unwrap();
        let back = convert_units(there, &r.inverse()).unwrap();
        assert!(back + 1 >= a && back <= a + 1, "{} -> {} -> {}", a, there, back);
    }
}

#[test]
fn release_without_funds_fails_and_stays_held() {
    let mut ledger = ledger_with(&[(1, Currency::Eth, 10), (2, Currency::Eth, 0)]);
    let mut cmd = transfer(100, 1, 2, 8, 0);
    cmd.hold_until = Some(50);
    ledger.create_transaction(cmd, 5).unwrap();
    let mut spend = transfer(101, 1, 0, 5, 0);
    spend.to = Receipt::Address(AccountAddress("0xoutside".to_string()));
    ledger.create_transaction(spend, 6).unwrap();
    let r = ledger.update_status(TransactionId(100), TransactionStatus::Completed, 60);
    assert_eq!(r.err(), Some(LedgerError::InsufficientFunds));
    let t = ledger.get_transaction(TransactionId(100)).unwrap();
    assert_eq!(t.status, TransactionStatus::Pending);
    assert_eq!(t.effect, BalanceEffect::Held);
    assert_eq!(balance(&ledger, 1), 5);
    assert_eq!(balance(&ledger, 2), 0);
}

#[test]
fn status_change_is_announced_once() {
    let mut ledger = ledger_with(&[(1, Currency::Eth, 10)]);
    ledger.create_transaction(payout(100, 3), 2).unwrap();
    let c = submit_status_update(&mut ledger, TransactionId(100), TransactionStatus::Completed, 3)
        .unwrap();
    assert_eq!(c.transaction.status, TransactionStatus::Completed);
    let callbacks = c
        .notifications
        .iter()
        .filter(|n| matches!(n, Notification::Callback(cb) if cb.transaction_id == TransactionId(100)))
        .count();
    assert_eq!(callbacks, 1);
    let again = submit_status_update(&mut ledger, TransactionId(100), TransactionStatus::Completed, 4)
        .unwrap();
    assert!(again.notifications.is_empty());
    let wrong = submit_status_update(&mut ledger, TransactionId(100), TransactionStatus::Rejected, 5);
    assert_eq!(wrong.err(), Some(LedgerError::InvalidTransition));
    let missing = submit_status_update(&mut ledger, TransactionId(7), TransactionStatus::Rejected, 5);
    assert_eq!(missing.err(), Some(LedgerError::NotFound));
    assert_eq!(balance(&ledger, 1), 7);
}

#[test]
fn placeholder_records() {
    let a = Account::default_with(AccountId(1), UserId(2), 9);
    assert_eq!(a.currency, Currency::Eth);
    assert_eq!(a.name, "new acc");
    assert_eq!(a.balance, Amount(0));
    assert_eq!((a.created_at, a.updated_at), (9, 9));
    let n = NewAccount::default_with(AccountId(1), UserId(2));
    assert_eq!(n.name, "new acc");
    assert_eq!(n.currency, Currency::Eth);
    let c = CreateAccount::default_with(AccountId(1), UserId(2));
    assert_eq!(c.name, "");
    assert_eq!(c.currency, Currency::Eth);
    assert_eq!(c.daily_limit_type, None);
}
