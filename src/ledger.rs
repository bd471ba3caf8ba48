use vstd::prelude::*;

use crate::account::{account_of, with_balance, with_name, Account, AccountId, NewAccount, UpdateAccount};
use crate::money::{Amount, Currency, LedgerError};
use crate::transaction::{
    compute_credit, credit_of, credit_of_record, debit_of, initial_state, is_held,
    record_of, transition, transition_spec, with_state, BalanceEffect, CreateTransaction, Receipt,
    Transaction, TransactionId, TransactionStatus,
};

verus! {

/// Whether some account in `s` has id `id`.
pub open spec fn has_account(s: Seq<Account>, id: AccountId) -> bool {
    exists|i: int| 0 <= i < s.len() && #[trigger] s[i].id == id
}

/// The position of the account with id `id` in `s`.
pub open spec fn account_index(s: Seq<Account>, id: AccountId) -> int {
    choose|i: int| 0 <= i < s.len() && #[trigger] s[i].id == id
}

/// The balance of the account with id `id` in `s`.
pub open spec fn balance_in(s: Seq<Account>, id: AccountId) -> nat {
    s[account_index(s, id)].balance@
}

/// Whether some transaction in `s` has id `id`.
pub open spec fn has_transaction(s: Seq<Transaction>, id: TransactionId) -> bool {
    exists|i: int| 0 <= i < s.len() && #[trigger] s[i].id == id
}

/// The position of the transaction with id `id` in `s`.
pub open spec fn transaction_index(s: Seq<Transaction>, id: TransactionId) -> int {
    choose|i: int| 0 <= i < s.len() && #[trigger] s[i].id == id
}

pub open spec fn account_ids_unique(s: Seq<Account>) -> bool {
    forall|i: int, j: int| 0 <= i < s.len() && 0 <= j < s.len() && i != j ==> s[i].id != s[j].id
}

pub open spec fn transaction_ids_unique(s: Seq<Transaction>) -> bool {
    forall|i: int, j: int| 0 <= i < s.len() && 0 <= j < s.len() && i != j ==> s[i].id != s[j].id
}

/// `s` with the balance of the account at `i` set to `b` at time `at`.
pub open spec fn set_balance_at(s: Seq<Account>, i: int, b: nat, at: u64) -> Seq<Account> {
    s.update(i, with_balance(s[i], b, at))
}

/// Why moving `debit` out of `from` and `credit` into `to` cannot start,
/// before any balance is looked at.
pub open spec fn route_error(
    s: Seq<Account>,
    from: AccountId,
    to: Receipt,
    value_currency: Currency,
    to_currency: Currency,
) -> Option<LedgerError> {
    if !has_account(s, from) {
        Some(LedgerError::NotFound)
    } else if s[account_index(s, from)].currency != value_currency {
        Some(LedgerError::CurrencyMismatch)
    } else {
        match to {
            Receipt::Account(t) => if !has_account(s, t) {
                Some(LedgerError::NotFound)
            } else if s[account_index(s, t)].currency != to_currency {
                Some(LedgerError::CurrencyMismatch)
            } else {
                None
            },
            Receipt::Address(_) => None,
        }
    }
}

/// The balance of internal destination `t` once `debit` has left `from`.
pub open spec fn balance_after_debit(s: Seq<Account>, from: AccountId, t: AccountId, debit: nat) -> int {
    if t == from {
        balance_in(s, from) - debit
    } else {
        balance_in(s, t) as int
    }
}

/// Why the balances cannot take the transfer: the source cannot cover
/// `debit`, or the destination cannot hold `credit` more.
pub open spec fn funds_error(
    s: Seq<Account>,
    from: AccountId,
    to: Receipt,
    debit: nat,
    credit: nat,
) -> Option<LedgerError> {
    if balance_in(s, from) < debit {
        Some(LedgerError::InsufficientFunds)
    } else {
        match to {
            Receipt::Account(t) => if balance_after_debit(s, from, t, debit) + credit > u64::MAX {
                Some(LedgerError::AmountOverflow)
            } else {
                None
            },
            Receipt::Address(_) => None,
        }
    }
}

/// The accounts after `debit` has left `from` and, for an internal
/// destination, `credit` has reached it.
pub open spec fn transfer_effect(
    s: Seq<Account>,
    from: AccountId,
    to: Receipt,
    debit: nat,
    credit: nat,
    at: u64,
) -> Seq<Account> {
    let fi = account_index(s, from);
    let s1 = set_balance_at(s, fi, (s[fi].balance@ - debit) as nat, at);
    match to {
        Receipt::Account(t) => {
            let ti = account_index(s, t);
            set_balance_at(s1, ti, s1[ti].balance@ + credit, at)
        },
        Receipt::Address(_) => s1,
    }
}

/// Why a movement of `value` plus `fee` cannot be recorded at all.
pub open spec fn movement_static_error(
    s: Seq<Account>,
    from: AccountId,
    to: Receipt,
    value_currency: Currency,
    to_currency: Currency,
    debit: nat,
    credit: Option<nat>,
) -> Option<LedgerError> {
    match route_error(s, from, to, value_currency, to_currency) {
        Some(e) => Some(e),
        None => match credit {
            None => Some(LedgerError::CurrencyMismatch),
            Some(c) => if debit > u64::MAX || c > u64::MAX {
                Some(LedgerError::AmountOverflow)
            } else {
                None
            },
        },
    }
}

/// Why a movement cannot be applied to the balances now.
pub open spec fn movement_error(
    s: Seq<Account>,
    from: AccountId,
    to: Receipt,
    value_currency: Currency,
    to_currency: Currency,
    debit: nat,
    credit: Option<nat>,
) -> Option<LedgerError> {
    match movement_static_error(s, from, to, value_currency, to_currency, debit, credit) {
        Some(e) => Some(e),
        None => funds_error(s, from, to, debit, credit->0),
    }
}

/// Why creating `cmd` at `now` fails, when no transaction has its id yet.
/// A held transaction touches no balance, so its funds are not checked.
pub open spec fn create_error(s: Seq<Account>, cmd: CreateTransaction, now: u64) -> Option<LedgerError> {
    if is_held(cmd, now) {
        movement_static_error(s, cmd.from, cmd.to, cmd.value_currency, cmd.to_currency, debit_of(cmd), credit_of(cmd))
    } else {
        movement_error(s, cmd.from, cmd.to, cmd.value_currency, cmd.to_currency, debit_of(cmd), credit_of(cmd))
    }
}

/// The accounts after `cmd` was created at `now` without error.
pub open spec fn create_effect(s: Seq<Account>, cmd: CreateTransaction, now: u64) -> Seq<Account> {
    if is_held(cmd, now) {
        s
    } else {
        transfer_effect(s, cmd.from, cmd.to, debit_of(cmd), credit_of(cmd)->0, now)
    }
}

/// A signed change to one balance.
#[derive(Clone, Copy, Debug, PartialEq, Eq, Structural)]
pub enum Delta {
    Credit(Amount),
    Debit(Amount),
}

impl Delta {
    pub open spec fn signed(self) -> int {
        match self {
            Delta::Credit(a) => a@ as int,
            Delta::Debit(a) => -(a@ as int),
        }
    }
}

/// Whether `d` can be committed on balance `bal`: the result stays within
/// zero and the largest representable amount.
pub open spec fn commits(bal: int, d: Delta) -> bool {
    0 <= bal + d.signed() <= u64::MAX
}

/// The balance after `d` is offered to balance `bal`.
pub open spec fn step(bal: int, d: Delta) -> int {
    if commits(bal, d) {
        bal + d.signed()
    } else {
        bal
    }
}

/// The balance after each of `ds` was offered in turn.
pub open spec fn replay(bal: int, ds: Seq<Delta>) -> int
    decreases ds.len(),
{
    if ds.len() == 0 {
        bal
    } else {
        step(replay(bal, ds.drop_last()), ds.last())
    }
}

/// The sum of the signed deltas among `ds` that were committed.
pub open spec fn committed_sum(bal: int, ds: Seq<Delta>) -> int
    decreases ds.len(),
{
    if ds.len() == 0 {
        0
    } else {
        let before = replay(bal, ds.drop_last());
        committed_sum(bal, ds.drop_last()) + if commits(before, ds.last()) {
            ds.last().signed()
        } else {
            0
        }
    }
}

/// Offering deltas one by one to a balance keeps it within range, and its
/// final value is the start plus the committed deltas.
pub proof fn lemma_replay(bal: int, ds: Seq<Delta>)
    requires
        0 <= bal <= u64::MAX,
    ensures
        replay(bal, ds) == bal + committed_sum(bal, ds),
        0 <= replay(bal, ds) <= u64::MAX,
    decreases ds.len(),
{
    if ds.len() > 0 {
        lemma_replay(bal, ds.drop_last());
    }
}

/// For any sequence of debits and credits against one account, the final
/// balance equals the initial balance plus the sum of the committed deltas,
/// and no intermediate balance is negative.
pub proof fn lemma_balance_conservation(bal: int, ds: Seq<Delta>)
    requires
        0 <= bal <= u64::MAX,
    ensures
        replay(bal, ds) == bal + committed_sum(bal, ds),
        forall|k: int| 0 <= k <= ds.len() ==> #[trigger] replay(bal, ds.take(k)) >= 0,
{
    lemma_replay(bal, ds);
    assert forall|k: int| 0 <= k <= ds.len() implies #[trigger] replay(bal, ds.take(k)) >= 0 by {
        lemma_replay(bal, ds.take(k));
    }
}

/// In an account list with unique ids, the account found at `i` is the one
/// that `account_index` names.
pub proof fn lemma_account_index(s: Seq<Account>, id: AccountId, i: int)
    requires
        account_ids_unique(s),
        0 <= i < s.len(),
        s[i].id == id,
    ensures
        has_account(s, id),
        account_index(s, id) == i,
{
    assert(has_account(s, id));
    let k = account_index(s, id);
    assert(s[k].id == id);
}

/// Changing balances, names or timestamps keeps every account id in place.
pub proof fn lemma_same_ids(s: Seq<Account>, s2: Seq<Account>, id: AccountId)
    requires
        account_ids_unique(s),
        s2.len() == s.len(),
        forall|j: int| 0 <= j < s.len() ==> s2[j].id == s[j].id,
    ensures
        account_ids_unique(s2),
        has_account(s2, id) == has_account(s, id),
        has_account(s, id) ==> account_index(s2, id) == account_index(s, id),
{
    if has_account(s, id) {
        let i = account_index(s, id);
        lemma_account_index(s2, id, i);
    }
    if has_account(s2, id) {
        let i = account_index(s2, id);
        assert(s[i].id == id);
    }
}

/// The update that a status change makes to the stored transaction `t`
/// when `update_error` reports nothing: the new accounts and the new record.
pub open spec fn update_result(
    s: Seq<Account>,
    t: Transaction,
    target: TransactionStatus,
    now: u64,
) -> (Seq<Account>, Transaction) {
    if transition_spec(t.status, target) == Ok::<bool, LedgerError>(false) {
        (s, t)
    } else {
        match (t.effect, target) {
            (BalanceEffect::Held, TransactionStatus::Completed) => (
                transfer_effect(s, t.from, t.to, t.value@ + t.fee@, credit_of_record(t)->0, now),
                with_state(t, TransactionStatus::Completed, BalanceEffect::Applied, now),
            ),
            (BalanceEffect::Held, TransactionStatus::Rejected) => (
                s,
                with_state(t, TransactionStatus::Rejected, BalanceEffect::Cancelled, now),
            ),
            (BalanceEffect::AwaitingSettlement, TransactionStatus::Completed) => (
                s,
                with_state(t, TransactionStatus::Completed, BalanceEffect::Applied, now),
            ),
            (BalanceEffect::AwaitingSettlement, TransactionStatus::Rejected) => {
                let fi = account_index(s, t.from);
                (
                    set_balance_at(s, fi, s[fi].balance@ + t.value@ + t.fee@, now),
                    with_state(t, TransactionStatus::Rejected, BalanceEffect::Cancelled, now),
                )
            },
            _ => (s, with_state(t, target, t.effect, now)),
        }
    }
}

/// Why changing the status of the stored transaction `t` to `target` fails.
/// Releasing a held transaction applies its movement now; rejecting one
/// that awaits settlement refunds value and fee to the source.
pub open spec fn update_error(s: Seq<Account>, t: Transaction, target: TransactionStatus) -> Option<
    LedgerError,
> {
    match transition_spec(t.status, target) {
        Err(e) => Some(e),
        Ok(changes) => if !changes {
            None
        } else {
            match (t.effect, target) {
                (BalanceEffect::Held, TransactionStatus::Completed) => movement_error(
                    s,
                    t.from,
                    t.to,
                    t.value_currency,
                    t.to_currency,
                    t.value@ + t.fee@,
                    credit_of_record(t),
                ),
                (BalanceEffect::AwaitingSettlement, TransactionStatus::Rejected) => if !has_account(
                    s,
                    t.from,
                ) {
                    Some(LedgerError::NotFound)
                } else if balance_in(s, t.from) + t.value@ + t.fee@ > u64::MAX {
                    Some(LedgerError::AmountOverflow)
                } else {
                    None
                },
                _ => None,
            }
        },
    }
}

/// A transaction held until a later time leaves every balance as it was,
/// both when it is created and when it is rejected before release.
pub proof fn lemma_hold_has_no_effect(
    s: Seq<Account>,
    cmd: CreateTransaction,
    t: Transaction,
    now: u64,
    later: u64,
)
    requires
        is_held(cmd, now),
        t.status == TransactionStatus::Pending,
        t.effect == BalanceEffect::Held,
    ensures
        create_effect(s, cmd, now) == s,
        initial_state(cmd, now) == (TransactionStatus::Pending, BalanceEffect::Held),
        update_error(s, t, TransactionStatus::Rejected) is None,
        update_result(s, t, TransactionStatus::Rejected, later).0 == s,
{
}

/// A terminal transaction keeps its status: asking for the same status
/// changes nothing, asking for the other one fails with `InvalidTransition`.
pub proof fn lemma_terminal_is_final(s: Seq<Account>, t: Transaction, target: TransactionStatus, now: u64)
    requires
        t.status.is_terminal(),
        target.is_terminal(),
    ensures
        target == t.status ==> update_error(s, t, target) is None && update_result(s, t, target, now)
            == (s, t),
        target != t.status ==> update_error(s, t, target) == Some(LedgerError::InvalidTransition),
{
}

/// The in-memory ledger: accounts and transactions, each keyed by a unique id.
#[derive(Debug)]
pub struct Ledger {
    accounts: Vec<Account>,
    transactions: Vec<Transaction>,
}

impl Ledger {
    /// The stored accounts, in order of creation.
    pub closed spec fn accounts(&self) -> Seq<Account> {
        self.accounts@
    }

    /// The stored transactions, in order of creation.
    pub closed spec fn transactions(&self) -> Seq<Transaction> {
        self.transactions@
    }

    pub open spec fn wf(&self) -> bool {
        account_ids_unique(self.accounts()) && transaction_ids_unique(self.transactions())
    }

    pub fn new() -> (r: Ledger)
        ensures
            r.wf(),
            r.accounts().len() == 0,
            r.transactions().len() == 0,
    {
        Ledger { accounts: Vec::new(), transactions: Vec::new() }
    }

    /// A ledger restored from stored account rows and no transactions;
    /// `None` when two rows share an id.
    pub fn from_accounts(accounts: Vec<Account>) -> (r: Option<Ledger>)
        ensures
            r is Some <==> account_ids_unique(accounts@),
            r matches Some(l) ==> l.wf() && l.accounts() == accounts@ && l.transactions().len() == 0,
    {
        let mut i: usize = 0;
        while i < accounts.len()
            invariant
                i <= accounts@.len(),
                forall|a: int, b: int| 0 <= a < i && 0 <= b < i && a != b ==> accounts@[a].id != accounts@[b].id,
            decreases accounts@.len() - i,
        {
            let mut j: usize = 0;
            while j < i
                invariant
                    i < accounts@.len(),
                    j <= i,
                    forall|b: int| 0 <= b < j ==> accounts@[b].id != accounts@[i as int].id,
                decreases i - j,
            {
                if accounts[j].id == accounts[i].id {
                    proof {
                        assert(accounts@[j as int].id == accounts@[i as int].id);
                    }
                    return None;
                }
                j += 1;
            }
            i += 1;
        }
        Some(Ledger { accounts, transactions: Vec::new() })
    }

    /// The number of stored accounts.
    pub fn account_count(&self) -> (r: usize)
        ensures
            r == self.accounts().len(),
    {
        self.accounts.len()
    }

    /// The number of stored transactions.
    pub fn transaction_count(&self) -> (r: usize)
        ensures
            r == self.transactions().len(),
    {
        self.transactions.len()
    }

    /// The position of the account with id `id`.
    pub fn find_account(&self, id: AccountId) -> (r: Option<usize>)
        requires
            self.wf(),
        ensures
            r is None <==> !has_account(self.accounts(), id),
            r matches Some(i) ==> i < self.accounts().len() && i == account_index(self.accounts(), id)
                && self.accounts()[i as int].id == id,
    {
        let mut i: usize = 0;
        while i < self.accounts.len()
            invariant
                self.wf(),
                i <= self.accounts().len(),
                forall|j: int| 0 <= j < i ==> self.accounts()[j].id != id,
            decreases self.accounts().len() - i,
        {
            if self.accounts[i].id == id {
                proof {
                    assert(self.accounts()[i as int].id == id);
                    assert(has_account(self.accounts(), id));
                    let k = account_index(self.accounts(), id);
                    assert(self.accounts()[k].id == id);
                    assert(k == i);
                }
                return Some(i);
            }
            i += 1;
        }
        None
    }

    /// The position of the transaction with id `id`.
    pub fn find_transaction(&self, id: TransactionId) -> (r: Option<usize>)
        requires
            self.wf(),
        ensures
            r is None <==> !has_transaction(self.transactions(), id),
            r matches Some(i) ==> i < self.transactions().len() && i == transaction_index(
                self.transactions(),
                id,
            ) && self.transactions()[i as int].id == id,
    {
        let mut i: usize = 0;
        while i < self.transactions.len()
            invariant
                self.wf(),
                i <= self.transactions().len(),
                forall|j: int| 0 <= j < i ==> self.transactions()[j].id != id,
            decreases self.transactions().len() - i,
        {
            if self.transactions[i].id == id {
                proof {
                    assert(self.transactions()[i as int].id == id);
                    assert(has_transaction(self.transactions(), id));
                    let k = transaction_index(self.transactions(), id);
                    assert(self.transactions()[k].id == id);
                    assert(k == i);
                }
                return Some(i);
            }
            i += 1;
        }
        None
    }

    /// Stores a new account with a zero balance; `Conflict` when its id is taken.
    pub fn create_account(&mut self, new_account: NewAccount, now: u64) -> (r: Result<Account, LedgerError>)
        requires
            old(self).wf(),
        ensures
            final(self).wf(),
            final(self).transactions() == old(self).transactions(),
            has_account(old(self).accounts(), new_account.id) ==> r == Err::<Account, LedgerError>(
                LedgerError::Conflict,
            ) && final(self).accounts() == old(self).accounts(),
            !has_account(old(self).accounts(), new_account.id) ==> r == Ok::<Account, LedgerError>(
                account_of(new_account, now),
            ) && final(self).accounts() == old(self).accounts().push(account_of(new_account, now)),
    {
        if self.find_account(new_account.id).is_some() {
            return Err(LedgerError::Conflict);
        }
        let acc = Account::from_new(new_account, now);
        let copy = acc.clone();
        self.accounts.push(acc);
        Ok(copy)
    }

    /// The account with id `id`, if any; changes nothing.
    pub fn get_account(&self, id: AccountId) -> (r: Option<Account>)
        requires
            self.wf(),
        ensures
            r == if has_account(self.accounts(), id) {
                Some(self.accounts()[account_index(self.accounts(), id)])
            } else {
                None::<Account>
            },
    {
        match self.find_account(id) {
            Some(i) => Some(self.accounts[i].clone()),
            None => None,
        }
    }

    /// The transaction with id `id`, if any; changes nothing.
    pub fn get_transaction(&self, id: TransactionId) -> (r: Option<Transaction>)
        requires
            self.wf(),
        ensures
            r == if has_transaction(self.transactions(), id) {
                Some(self.transactions()[transaction_index(self.transactions(), id)])
            } else {
                None::<Transaction>
            },
    {
        match self.find_transaction(id) {
            Some(i) => Some(self.transactions[i].clone()),
            None => None,
        }
    }

    /// Renames an account; `NotFound` when it does not exist.
    pub fn update_name(&mut self, id: AccountId, update: UpdateAccount, now: u64) -> (r: Result<
        Account,
        LedgerError,
    >)
        requires
            old(self).wf(),
        ensures
            final(self).wf(),
            final(self).transactions() == old(self).transactions(),
            !has_account(old(self).accounts(), id) ==> r == Err::<Account, LedgerError>(
                LedgerError::NotFound,
            ) && final(self).accounts() == old(self).accounts(),
            has_account(old(self).accounts(), id) ==> {
                let i = account_index(old(self).accounts(), id);
                let a = with_name(old(self).accounts()[i], update.name, now);
                r == Ok::<Account, LedgerError>(a) && final(self).accounts() == old(self).accounts().update(i, a)
            },
    {
        match self.find_account(id) {
            None => Err(LedgerError::NotFound),
            Some(i) => {
                self.accounts[i].name = update.name;
                self.accounts[i].updated_at = now;
                Ok(self.accounts[i].clone())
            },
        }
    }

    /// Offers a signed change to one balance. It commits only when the
    /// balance stays within zero and the largest amount: `InsufficientFunds`
    /// below zero, `AmountOverflow` above; `NotFound` for an unknown account.
    pub(crate) fn apply_delta(&mut self, id: AccountId, d: Delta, now: u64) -> (r: Result<Account, LedgerError>)
        requires
            old(self).wf(),
        ensures
            final(self).wf(),
            final(self).transactions() == old(self).transactions(),
            !has_account(old(self).accounts(), id) ==> r == Err::<Account, LedgerError>(
                LedgerError::NotFound,
            ) && final(self).accounts() == old(self).accounts(),
            has_account(old(self).accounts(), id) ==> {
                let i = account_index(old(self).accounts(), id);
                let b = old(self).accounts()[i].balance@ as int;
                &&& has_account(final(self).accounts(), id)
                &&& balance_in(final(self).accounts(), id) == step(b, d)
                &&& commits(b, d) ==> r == Ok::<Account, LedgerError>(
                    with_balance(old(self).accounts()[i], step(b, d) as nat, now),
                ) && final(self).accounts() == set_balance_at(old(self).accounts(), i, step(b, d) as nat, now)
                &&& !commits(b, d) ==> final(self).accounts() == old(self).accounts()
                &&& b + d.signed() < 0 ==> r == Err::<Account, LedgerError>(LedgerError::InsufficientFunds)
                &&& b + d.signed() > u64::MAX ==> r == Err::<Account, LedgerError>(LedgerError::AmountOverflow)
            },
    {
        let i = match self.find_account(id) {
            None => return Err(LedgerError::NotFound),
            Some(i) => i,
        };
        let b = self.accounts[i].balance.0;
        let nb: u64 = match d {
            Delta::Credit(a) => {
                if b > u64::MAX - a.0 {
                    return Err(LedgerError::AmountOverflow);
                }
                b + a.0
            },
            Delta::Debit(a) => {
                if b < a.0 {
                    return Err(LedgerError::InsufficientFunds);
                }
                b - a.0
            },
        };
        self.set_balance(i, nb, now);
        proof {
            lemma_same_ids(old(self).accounts(), self.accounts(), id);
        }
        Ok(self.accounts[i].clone())
    }

    /// Resolves source and destination of a movement, as `route_error` says.
    fn check_route(
        &self,
        from: AccountId,
        to: &Receipt,
        value_currency: Currency,
        to_currency: Currency,
    ) -> (r: Result<(usize, Option<usize>), LedgerError>)
        requires
            self.wf(),
        ensures
            route_error(self.accounts(), from, *to, value_currency, to_currency) matches Some(e) ==> r
                == Err::<(usize, Option<usize>), LedgerError>(e),
            route_error(self.accounts(), from, *to, value_currency, to_currency) is None ==> (r matches Ok(
                (fi, ti),
            ) && has_account(self.accounts(), from) && fi == account_index(self.accounts(), from)
                && fi < self.accounts().len() && self.accounts()[fi as int].id == from && match *to {
                Receipt::Account(t) => has_account(self.accounts(), t) && (ti matches Some(j) && j
                    == account_index(self.accounts(), t) && j < self.accounts().len()
                    && self.accounts()[j as int].id == t),
                Receipt::Address(_) => ti is None,
            }),
    {
        let fi = match self.find_account(from) {
            None => return Err(LedgerError::NotFound),
            Some(i) => i,
        };
        if self.accounts[fi].currency != value_currency {
            return Err(LedgerError::CurrencyMismatch);
        }
        match to {
            Receipt::Account(t) => match self.find_account(*t) {
                None => Err(LedgerError::NotFound),
                Some(ti) => {
                    if self.accounts[ti].currency != to_currency {
                        Err(LedgerError::CurrencyMismatch)
                    } else {
                        Ok((fi, Some(ti)))
                    }
                },
            },
            Receipt::Address(_) => Ok((fi, None)),
        }
    }

    /// Checks that the balances can take a movement, as `funds_error` says.
    fn check_funds(&self, fi: usize, ti: Option<usize>, debit: u64, credit: u64) -> (r: Result<
        (),
        LedgerError,
    >)
        requires
            self.wf(),
            fi < self.accounts().len(),
            ti matches Some(j) ==> j < self.accounts().len(),
        ensures
            self.accounts()[fi as int].balance@ < debit ==> r == Err::<(), LedgerError>(
                LedgerError::InsufficientFunds,
            ),
            self.accounts()[fi as int].balance@ >= debit ==> match ti {
                Some(j) => {
                    let base = if j == fi {
                        self.accounts()[fi as int].balance@ - debit
                    } else {
                        self.accounts()[j as int].balance@ as int
                    };
                    if base + credit > u64::MAX {
                        r == Err::<(), LedgerError>(LedgerError::AmountOverflow)
                    } else {
                        r == Ok::<(), LedgerError>(())
                    }
                },
                None => r == Ok::<(), LedgerError>(()),
            },
    {
        let b = self.accounts[fi].balance.0;
        if b < debit {
            return Err(LedgerError::InsufficientFunds);
        }
        match ti {
            Some(j) => {
                let base = if j == fi {
                    b - debit
                } else {
                    self.accounts[j].balance.0
                };
                if base > u64::MAX - credit {
                    Err(LedgerError::AmountOverflow)
                } else {
                    Ok(())
                }
            },
            None => Ok(()),
        }
    }

    /// Debits `fi` and credits `ti`, both at time `now`.
    fn transfer(&mut self, fi: usize, ti: Option<usize>, debit: u64, credit: u64, now: u64)
        requires
            old(self).wf(),
            fi < old(self).accounts().len(),
            old(self).accounts()[fi as int].balance@ >= debit,
            ti matches Some(j) ==> j < old(self).accounts().len() && (if j == fi {
                old(self).accounts()[fi as int].balance@ - debit
            } else {
                old(self).accounts()[j as int].balance@ as int
            }) + credit <= u64::MAX,
        ensures
            final(self).wf(),
            final(self).transactions() == old(self).transactions(),
            final(self).accounts() == {
                let s1 = set_balance_at(
                    old(self).accounts(),
                    fi as int,
                    (old(self).accounts()[fi as int].balance@ - debit) as nat,
                    now,
                );
                match ti {
                    Some(j) => set_balance_at(s1, j as int, s1[j as int].balance@ + credit as nat, now),
                    None => s1,
                }
            },
    {
        let nb = self.accounts[fi].balance.0 - debit;
        self.set_balance(fi, nb, now);
        if let Some(j) = ti {
            let nc = self.accounts[j].balance.0 + credit;
            self.set_balance(j, nc, now);
        }
    }

    /// Creates a transaction. An id already present returns the stored
    /// record and changes nothing. A transaction held until a later time is
    /// stored pending, with no balance effect. Otherwise value plus fee
    /// leave the source and the converted value reaches an internal
    /// destination, all or nothing, and the record is stored with it.
    pub fn create_transaction(&mut self, cmd: CreateTransaction, now: u64) -> (r: Result<
        Transaction,
        LedgerError,
    >)
        requires
            old(self).wf(),
        ensures
            final(self).wf(),
            has_transaction(old(self).transactions(), cmd.id) ==> r == Ok::<Transaction, LedgerError>(
                old(self).transactions()[transaction_index(old(self).transactions(), cmd.id)],
            ) && final(self).accounts() == old(self).accounts() && final(self).transactions() == old(
                self,
            ).transactions(),
            !has_transaction(old(self).transactions(), cmd.id) ==> match create_error(
                old(self).accounts(),
                cmd,
                now,
            ) {
                Some(e) => r == Err::<Transaction, LedgerError>(e) && final(self).accounts() == old(
                    self,
                ).accounts() && final(self).transactions() == old(self).transactions(),
                None => {
                    let t = record_of(cmd, initial_state(cmd, now).0, initial_state(cmd, now).1, now);
                    &&& r == Ok::<Transaction, LedgerError>(t)
                    &&& final(self).accounts() == create_effect(old(self).accounts(), cmd, now)
                    &&& final(self).transactions() == old(self).transactions().push(t)
                },
            },
    {
        match self.find_transaction(cmd.id) {
            Some(k) => return Ok(self.transactions[k].clone()),
            None => {},
        }
        let (fi, ti) = match self.check_route(cmd.from, &cmd.to, cmd.value_currency, cmd.to_currency) {
            Ok(p) => p,
            Err(e) => return Err(e),
        };
        let credit = match compute_credit(
            cmd.value,
            cmd.value_currency,
            cmd.to_currency,
            cmd.exchange_id,
            cmd.exchange_rate,
        ) {
            Ok(c) => c,
            Err(e) => return Err(e),
        };
        let debit = match cmd.value.0.checked_add(cmd.fee.0) {
            Some(d) => d,
            None => return Err(LedgerError::AmountOverflow),
        };
        let held = match cmd.hold_until {
            Some(t) => t > now,
            None => false,
        };
        let (status, effect) = if held {
            (TransactionStatus::Pending, BalanceEffect::Held)
        } else {
            match self.check_funds(fi, ti, debit, credit) {
                Ok(()) => {},
                Err(e) => return Err(e),
            }
            self.transfer(fi, ti, debit, credit, now);
            match cmd.to {
                Receipt::Account(_) => (TransactionStatus::Completed, BalanceEffect::Applied),
                Receipt::Address(_) => (TransactionStatus::Pending, BalanceEffect::AwaitingSettlement),
            }
        };
        let t = Transaction::from_command(cmd, status, effect, now);
        let copy = t.clone();
        self.transactions.push(t);
        Ok(copy)
    }

    /// Moves a transaction to a terminal status, as `update_error` and
    /// `update_result` say; `NotFound` for an unknown id.
    pub fn update_status(&mut self, id: TransactionId, target: TransactionStatus, now: u64) -> (r:
        Result<Transaction, LedgerError>)
        requires
            old(self).wf(),
        ensures
            final(self).wf(),
            !has_transaction(old(self).transactions(), id) ==> r == Err::<Transaction, LedgerError>(
                LedgerError::NotFound,
            ) && final(self).accounts() == old(self).accounts() && final(self).transactions() == old(
                self,
            ).transactions(),
            has_transaction(old(self).transactions(), id) ==> {
                let k = transaction_index(old(self).transactions(), id);
                let t = old(self).transactions()[k];
                match update_error(old(self).accounts(), t, target) {
                    Some(e) => r == Err::<Transaction, LedgerError>(e) && final(self).accounts() == old(
                        self,
                    ).accounts() && final(self).transactions() == old(self).transactions(),
                    None => {
                        let (accounts, t2) = update_result(old(self).accounts(), t, target, now);
                        &&& r == Ok::<Transaction, LedgerError>(t2)
                        &&& final(self).accounts() == accounts
                        &&& final(self).transactions() == old(self).transactions().update(k, t2)
                    },
                }
            },
    {
        let k = match self.find_transaction(id) {
            None => return Err(LedgerError::NotFound),
            Some(k) => k,
        };
        let changes = match transition(self.transactions[k].status, target) {
            Err(e) => return Err(e),
            Ok(c) => c,
        };
        if !changes {
            return Ok(self.transactions[k].clone());
        }
        let effect = self.transactions[k].effect;
        let new_effect = match (effect, target) {
            (BalanceEffect::Held, TransactionStatus::Completed) => {
                let (fi, ti) = match self.check_route(
                    self.transactions[k].from,
                    &self.transactions[k].to,
                    self.transactions[k].value_currency,
                    self.transactions[k].to_currency,
                ) {
                    Ok(p) => p,
                    Err(e) => return Err(e),
                };
                let credit = match compute_credit(
                    self.transactions[k].value,
                    self.transactions[k].value_currency,
                    self.transactions[k].to_currency,
                    self.transactions[k].exchange_id,
                    self.transactions[k].exchange_rate,
                ) {
                    Ok(c) => c,
                    Err(e) => return Err(e),
                };
                let debit = match self.transactions[k].value.0.checked_add(self.transactions[k].fee.0) {
                    Some(d) => d,
                    None => return Err(LedgerError::AmountOverflow),
                };
                match self.check_funds(fi, ti, debit, credit) {
                    Ok(()) => {},
                    Err(e) => return Err(e),
                }
                self.transfer(fi, ti, debit, credit, now);
                BalanceEffect::Applied
            },
            (BalanceEffect::Held, TransactionStatus::Rejected) => BalanceEffect::Cancelled,
            (BalanceEffect::AwaitingSettlement, TransactionStatus::Completed) => BalanceEffect::Applied,
            (BalanceEffect::AwaitingSettlement, TransactionStatus::Rejected) => {
                let from = self.transactions[k].from;
                let refund = match self.transactions[k].value.0.checked_add(self.transactions[k].fee.0) {
                    Some(d) => d,
                    None => {
                        return if self.find_account(from).is_none() {
                            Err(LedgerError::NotFound)
                        } else {
                            Err(LedgerError::AmountOverflow)
                        };
                    },
                };
                match self.apply_delta(from, Delta::Credit(Amount(refund)), now) {
                    Ok(_) => {},
                    Err(e) => return Err(e),
                }
                BalanceEffect::Cancelled
            },
            _ => effect,
        };
        self.transactions[k].status = target;
        self.transactions[k].effect = new_effect;
        self.transactions[k].updated_at = now;
        proof {
            assert(self.transactions()[k as int].id == old(self).transactions()[k as int].id);
        }
        Ok(self.transactions[k].clone())
    }

    fn set_balance(&mut self, i: usize, b: u64, now: u64)
        requires
            old(self).wf(),
            i < old(self).accounts().len(),
        ensures
            final(self).wf(),
            final(self).transactions() == old(self).transactions(),
            final(self).accounts() == set_balance_at(old(self).accounts(), i as int, b as nat, now),
    {
        self.accounts[i].balance = Amount(b);
        self.accounts[i].updated_at = now;
    }
}

} // verus!
