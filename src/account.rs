use vstd::prelude::*;

use crate::money::{Amount, Currency};

verus! {

/// Identity of an account; never reused.
#[derive(Clone, Copy, Debug, PartialEq, Eq, Structural)]
pub struct AccountId(pub u128);

/// Identity of a user.
#[derive(Clone, Copy, Debug, PartialEq, Eq, Structural)]
pub struct UserId(pub u128);

/// Identity of a workspace on the transactions service.
#[derive(Clone, Copy, Debug, PartialEq, Eq, Structural)]
pub struct WorkspaceId(pub u128);

/// A currency-specific address (for example a blockchain address),
/// assigned once when the account is created.
#[derive(Debug)]
pub struct AccountAddress(pub String);

impl Clone for AccountAddress {
    fn clone(&self) -> (r: Self)
        ensures
            r == *self,
    {
        AccountAddress(self.0.clone())
    }
}

/// The longest name, in characters, that an account may carry.
pub const MAX_NAME_LEN: usize = 40;

/// An account name holds between one and forty characters.
pub open spec fn valid_name(name: Seq<char>) -> bool {
    1 <= name.len() <= MAX_NAME_LEN
}

/// Whether `name` is acceptable as an account name.
pub fn is_valid_name(name: &String) -> (r: bool)
    ensures
        r == valid_name(name@),
{
    let n = name.as_str().unicode_len();
    1 <= n && n <= MAX_NAME_LEN
}

/// A stored account: one running balance in one currency.
#[derive(Debug)]
pub struct Account {
    pub id: AccountId,
    pub user_id: UserId,
    pub currency: Currency,
    pub account_address: AccountAddress,
    pub name: String,
    pub balance: Amount,
    /// Milliseconds since the Unix epoch.
    pub created_at: u64,
    /// Milliseconds since the Unix epoch.
    pub updated_at: u64,
}

impl Clone for Account {
    fn clone(&self) -> (r: Self)
        ensures
            r == *self,
    {
        Account {
            id: self.id,
            user_id: self.user_id,
            currency: self.currency,
            account_address: self.account_address.clone(),
            name: self.name.clone(),
            balance: self.balance,
            created_at: self.created_at,
            updated_at: self.updated_at,
        }
    }
}

/// `a` with balance `b`, last touched at `at`.
pub open spec fn with_balance(a: Account, b: nat, at: u64) -> Account {
    Account { balance: Amount(b as u64), updated_at: at, ..a }
}

/// `a` renamed to `name` at `at`.
pub open spec fn with_name(a: Account, name: String, at: u64) -> Account {
    Account { name: name, updated_at: at, ..a }
}

/// The account that `n` describes, created at `now` with a zero balance.
pub open spec fn account_of(n: NewAccount, now: u64) -> Account {
    Account {
        id: n.id,
        user_id: n.user_id,
        currency: n.currency,
        account_address: n.account_address,
        name: n.name,
        balance: Amount(0),
        created_at: now,
        updated_at: now,
    }
}

impl Account {
    /// A placeholder account for the given ids: Eth, named "new acc", with
    /// an empty address and a zero balance, created at `now`.
    pub fn default_with(id: AccountId, user_id: UserId, now: u64) -> (r: Account)
        ensures
            r.id == id,
            r.user_id == user_id,
            r.currency == Currency::Eth,
            r.account_address.0@ == Seq::<char>::empty(),
            r.name@ == "new acc"@,
            r.balance == Amount(0),
            r.created_at == now,
            r.updated_at == now,
    {
        Account {
            id,
            user_id,
            currency: Currency::Eth,
            account_address: AccountAddress(String::new()),
            name: String::from_str("new acc"),
            balance: Amount(0),
            created_at: now,
            updated_at: now,
        }
    }

    /// A fresh account from its creation record, with a zero balance.
    pub fn from_new(new_account: NewAccount, now: u64) -> (r: Account)
        ensures
            r == account_of(new_account, now),
    {
        Account {
            id: new_account.id,
            user_id: new_account.user_id,
            currency: new_account.currency,
            account_address: new_account.account_address,
            name: new_account.name,
            balance: Amount(0),
            created_at: now,
            updated_at: now,
        }
    }
}

/// What is stored when an account is created: the request plus its address.
#[derive(Debug)]
pub struct NewAccount {
    pub id: AccountId,
    pub user_id: UserId,
    pub currency: Currency,
    pub account_address: AccountAddress,
    pub name: String,
}

impl NewAccount {
    /// A placeholder creation record for the given ids: Eth, named
    /// "new acc", with an empty address.
    pub fn default_with(id: AccountId, user_id: UserId) -> (r: NewAccount)
        ensures
            r.id == id,
            r.user_id == user_id,
            r.currency == Currency::Eth,
            r.account_address.0@ == Seq::<char>::empty(),
            r.name@ == "new acc"@,
    {
        NewAccount {
            id,
            user_id,
            currency: Currency::Eth,
            account_address: AccountAddress(String::new()),
            name: String::from_str("new acc"),
        }
    }

    /// The stored form of `create`, with the address generated for it.
    pub fn from_create(create: CreateAccount, account_address: AccountAddress) -> (r: NewAccount)
        ensures
            r.id == create.id,
            r.user_id == create.user_id,
            r.currency == create.currency,
            r.name == create.name,
            r.account_address == account_address,
    {
        NewAccount {
            id: create.id,
            user_id: create.user_id,
            currency: create.currency,
            account_address,
            name: create.name,
        }
    }

    pub fn is_valid(&self) -> (r: bool)
        ensures
            r == valid_name(self.name@),
    {
        is_valid_name(&self.name)
    }
}

/// The one change that callers may make to an account directly.
#[derive(Debug, Default)]
pub struct UpdateAccount {
    pub name: String,
}

impl UpdateAccount {
    pub fn is_valid(&self) -> (r: bool)
        ensures
            r == valid_name(self.name@),
    {
        is_valid_name(&self.name)
    }
}

/// The balance of an account, with its currency.
#[derive(Clone, Copy, Debug)]
pub struct Balance {
    pub currency: Currency,
    pub balance: Amount,
}

impl Balance {
    pub fn new(currency: Currency, balance: Amount) -> (r: Self)
        ensures
            r.currency == currency,
            r.balance == balance,
    {
        Self { currency, balance }
    }

    /// The balance of `acc`, read without taking it.
    pub fn of_account(acc: &Account) -> (r: Self)
        ensures
            r.currency == acc.currency,
            r.balance == acc.balance,
    {
        Self { currency: acc.currency, balance: acc.balance }
    }
}

impl From<Account> for Balance {
    fn from(acc: Account) -> (r: Self) {
        Balance { currency: acc.currency, balance: acc.balance }
    }
}

impl vstd::std_specs::convert::FromSpecImpl<Account> for Balance {
    open spec fn obeys_from_spec() -> bool {
        true
    }

    open spec fn from_spec(acc: Account) -> Self {
        Balance { currency: acc.currency, balance: acc.balance }
    }
}

/// How much an account may spend in a day.
#[derive(Clone, Copy, Debug, PartialEq, Eq, Structural)]
pub enum DailyLimitType {
    DefaultLimit,
    Unlimited,
}

/// A request to open an account.
#[derive(Debug)]
pub struct CreateAccount {
    pub id: AccountId,
    pub user_id: UserId,
    pub currency: Currency,
    pub name: String,
    pub daily_limit_type: Option<DailyLimitType>,
}

impl CreateAccount {
    /// A placeholder request for the given ids: Eth, with an empty name and
    /// no daily limit chosen.
    pub fn default_with(id: AccountId, user_id: UserId) -> (r: CreateAccount)
        ensures
            r.id == id,
            r.user_id == user_id,
            r.currency == Currency::Eth,
            r.name@ == Seq::<char>::empty(),
            r.daily_limit_type is None,
    {
        CreateAccount {
            id,
            user_id,
            currency: Currency::Eth,
            name: String::new(),
            daily_limit_type: None,
        }
    }

    pub fn is_valid(&self) -> (r: bool)
        ensures
            r == valid_name(self.name@),
    {
        is_valid_name(&self.name)
    }
}

} // verus!
