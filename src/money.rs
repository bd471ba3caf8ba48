use vstd::prelude::*;
use vstd::arithmetic::div_mod::{lemma_fundamental_div_mod, lemma_mod_bound};

verus! {

/// A supported asset. Amounts of different currencies never mix
/// without an explicit exchange rate.
#[derive(Clone, Copy, Debug, PartialEq, Eq, Structural)]
pub enum Currency {
    Eth,
    Btc,
    Stq,
}

/// An exact magnitude in minor units (for example wei or satoshi).
#[derive(Clone, Copy, Debug, PartialEq, Eq, Structural)]
pub struct Amount(pub u64);

impl Amount {
    pub open spec fn view(self) -> nat {
        self.0 as nat
    }
}

/// An amount tagged with its currency.
#[derive(Clone, Copy, Debug, PartialEq, Eq, Structural)]
pub struct Money {
    pub currency: Currency,
    pub amount: Amount,
}

/// Every way a ledger operation can fail.
#[derive(Clone, Copy, Debug, PartialEq, Eq, Structural)]
pub enum LedgerError {
    /// A referenced account or transaction does not exist.
    NotFound,
    /// An account or transaction with this id already exists.
    Conflict,
    /// A debit would take a balance below zero.
    InsufficientFunds,
    /// Amounts of different currencies were combined, or an exchange
    /// rate is missing where the currencies differ.
    CurrencyMismatch,
    /// The requested status change is not allowed.
    InvalidTransition,
    /// The backing store failed.
    StorageUnavailable,
    /// The message broker failed.
    BrokerUnavailable,
    /// A result does not fit in the 64-bit minor-unit representation.
    AmountOverflow,
}

/// A positive exchange rate `numer / denom`.
#[derive(Clone, Copy, Debug)]
pub struct Rate {
    num: u64,
    den: u64,
}

/// `x / d` rounded to the nearest integer, ties to the even neighbour.
pub open spec fn round_half_even(x: nat, d: nat) -> nat
    recommends
        d > 0,
{
    let q = x / d;
    let r = x % d;
    if 2 * r < d {
        q
    } else if 2 * r > d {
        q + 1
    } else if q % 2 == 0 {
        q
    } else {
        q + 1
    }
}

/// The number of minor units that `a` minor units become at rate `num / den`.
pub open spec fn converted(a: nat, num: nat, den: nat) -> nat {
    round_half_even(a * num, den)
}

impl Rate {
    #[verifier::type_invariant]
    spec fn inv(self) -> bool {
        self.num > 0 && self.den > 0
    }

    pub closed spec fn numer(self) -> nat {
        self.num as nat
    }

    pub closed spec fn denom(self) -> nat {
        self.den as nat
    }

    /// The rate `num / den`; `None` when either part is zero.
    pub fn new(num: u64, den: u64) -> (r: Option<Rate>)
        ensures
            r is Some <==> (num > 0 && den > 0),
            r matches Some(rate) ==> rate.numer() == num && rate.denom() == den,
    {
        if num > 0 && den > 0 {
            Some(Rate { num, den })
        } else {
            None
        }
    }

    pub fn numerator(&self) -> (r: u64)
        ensures
            r == self.numer(),
    {
        self.num
    }

    pub fn denominator(&self) -> (r: u64)
        ensures
            r == self.denom(),
    {
        self.den
    }

    /// The rate that undoes this one.
    pub fn inverse(&self) -> (r: Rate)
        ensures
            r.numer() == self.denom(),
            r.denom() == self.numer(),
    {
        proof {
            use_type_invariant(self);
        }
        Rate { num: self.den, den: self.num }
    }
}

impl Money {
    pub fn new(currency: Currency, amount: u64) -> (r: Money)
        ensures
            r.currency == currency,
            r.amount.0 == amount,
    {
        Money { currency, amount: Amount(amount) }
    }

    /// The sum of two amounts of one currency.
    pub fn add(&self, other: &Money) -> (r: Result<Money, LedgerError>)
        ensures
            self.currency != other.currency ==> r == Err::<Money, LedgerError>(
                LedgerError::CurrencyMismatch,
            ),
            self.currency == other.currency && self.amount@ + other.amount@ > u64::MAX
                ==> r == Err::<Money, LedgerError>(LedgerError::AmountOverflow),
            self.currency == other.currency && self.amount@ + other.amount@ <= u64::MAX ==> (
            r matches Ok(m) && m.currency == self.currency && m.amount@ == self.amount@
                + other.amount@),
    {
        if self.currency != other.currency {
            return Err(LedgerError::CurrencyMismatch);
        }
        match self.amount.0.checked_add(other.amount.0) {
            Some(s) => Ok(Money { currency: self.currency, amount: Amount(s) }),
            None => Err(LedgerError::AmountOverflow),
        }
    }

    /// The difference of two amounts of one currency; a result below zero
    /// is refused, which is what keeps every balance non-negative.
    pub fn subtract(&self, other: &Money) -> (r: Result<Money, LedgerError>)
        ensures
            self.currency != other.currency ==> r == Err::<Money, LedgerError>(
                LedgerError::CurrencyMismatch,
            ),
            self.currency == other.currency && self.amount@ < other.amount@ ==> r == Err::<
                Money,
                LedgerError,
            >(LedgerError::InsufficientFunds),
            self.currency == other.currency && self.amount@ >= other.amount@ ==> (r matches Ok(
                m,
            ) && m.currency == self.currency && m.amount@ == self.amount@ - other.amount@),
    {
        if self.currency != other.currency {
            return Err(LedgerError::CurrencyMismatch);
        }
        if self.amount.0 < other.amount.0 {
            return Err(LedgerError::InsufficientFunds);
        }
        Ok(Money { currency: self.currency, amount: Amount(self.amount.0 - other.amount.0) })
    }
}

/// `a` minor units converted at `rate`, rounded half to even; `None` when
/// the result does not fit in 64 bits.
pub fn convert_units(a: u64, rate: &Rate) -> (r: Option<u64>)
    ensures
        converted(a as nat, rate.numer(), rate.denom()) <= u64::MAX ==> r == Some(
            converted(a as nat, rate.numer(), rate.denom()) as u64,
        ),
        converted(a as nat, rate.numer(), rate.denom()) > u64::MAX ==> r is None,
{
    let num = rate.numerator();
    let den = rate.denominator();
    proof {
        use_type_invariant(rate);
        assert((a as nat) * (num as nat) <= (u64::MAX as nat) * (u64::MAX as nat))
            by (nonlinear_arith)
            requires
                a <= u64::MAX,
                num <= u64::MAX,
        ;
    }
    let x: u128 = (a as u128) * (num as u128);
    let q: u128 = x / (den as u128);
    let rem: u128 = x % (den as u128);
    proof {
        lemma_mod_bound(x as int, den as int);
        assert(q <= x) by {
            vstd::arithmetic::div_mod::lemma_div_is_ordered_by_denominator(x as int, 1, den as int);
        }
    }
    let rounded: u128 = if 2 * rem < den as u128 {
        q
    } else if 2 * rem > den as u128 {
        q + 1
    } else if q % 2 == 0 {
        q
    } else {
        q + 1
    };
    if rounded <= u64::MAX as u128 {
        Some(rounded as u64)
    } else {
        None
    }
}

/// Converts `m` into `target` at `rate`; `None` when the result does not fit.
pub fn convert(m: Money, rate: &Rate, target: Currency) -> (r: Option<Money>)
    ensures
        converted(m.amount@, rate.numer(), rate.denom()) <= u64::MAX ==> r == Some(
            Money { currency: target, amount: Amount(converted(m.amount@, rate.numer(), rate.denom()) as u64) },
        ),
        converted(m.amount@, rate.numer(), rate.denom()) > u64::MAX ==> r is None,
{
    match convert_units(m.amount.0, rate) {
        Some(v) => Some(Money { currency: target, amount: Amount(v) }),
        None => None,
    }
}

/// Rounding to the nearest multiple is off by at most half a step:
/// `|round_half_even(x, d) * d - x| <= d / 2`.
pub proof fn lemma_round_error(x: nat, d: nat)
    requires
        d > 0,
    ensures
        2 * (round_half_even(x, d) * d) <= 2 * x + d,
        2 * x <= 2 * (round_half_even(x, d) * d) + d,
{
    lemma_fundamental_div_mod(x as int, d as int);
    lemma_mod_bound(x as int, d as int);
    let q = x / d;
    let r = x % d;
    assert((q + 1) * d == q * d + d) by (nonlinear_arith);
    assert(d * q == q * d) by (nonlinear_arith);
}

/// Converting at a rate of at least one and back at the inverse rate
/// returns to within one minor unit of the start.
pub proof fn lemma_convert_round_trip(a: nat, num: nat, den: nat)
    requires
        0 < den <= num,
    ensures
        converted(converted(a, num, den), den, num) <= a + 1,
        a <= converted(converted(a, num, den), den, num) + 1,
{
    let b = converted(a, num, den);
    let c = converted(b, den, num);
    lemma_round_error(a * num, den);
    lemma_round_error(b * den, num);
    assert(c <= a + 1 && a <= c + 1) by (nonlinear_arith)
        requires
            2 * (b * den) <= 2 * (a * num) + den,
            2 * (a * num) <= 2 * (b * den) + den,
            2 * (c * num) <= 2 * (b * den) + num,
            2 * (b * den) <= 2 * (c * num) + num,
            0 < den <= num,
    ;
}

} // verus!
