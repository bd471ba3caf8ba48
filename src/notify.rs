use vstd::prelude::*;

use crate::account::{AccountId, UserId};
use crate::ledger::{
    create_effect, create_error, has_transaction, transaction_index, update_error, update_result,
    Ledger,
};
use crate::money::{Amount, Currency, LedgerError};
use crate::transaction::{
    initial_state, record_of, transition, transition_spec, CreateTransaction, Transaction, TransactionId,
    TransactionStatus,
};

verus! {

/// The name of the exchange that every notification goes through.
pub open spec fn exchange_name() -> Seq<char> {
    "notifications"@
}

/// The two durable queues, each bound to the exchange under its own name.
#[derive(Clone, Copy, Debug, PartialEq, Eq, Structural)]
pub enum Queue {
    Pushes,
    Callbacks,
}

pub open spec fn queue_name(q: Queue) -> Seq<char> {
    match q {
        Queue::Pushes => "pushes"@,
        Queue::Callbacks => "callbacks"@,
    }
}

impl Queue {
    /// The queue's name, which is also its routing key.
    pub fn name(&self) -> (r: String)
        ensures
            r@ == queue_name(*self),
    {
        match self {
            Queue::Pushes => String::from_str("pushes"),
            Queue::Callbacks => String::from_str("callbacks"),
        }
    }
}

/// How an exchange routes messages to its queues.
#[derive(Clone, Copy, Debug, PartialEq, Eq, Structural)]
pub enum ExchangeKind {
    Direct,
    Topic,
}

/// One step of the broker topology.
#[derive(Debug)]
pub enum Declaration {
    Exchange { name: String, kind: ExchangeKind, durable: bool },
    Queue { name: String, durable: bool },
    Binding { queue: String, exchange: String, routing_key: String },
}

/// Whether `d` declares the durable direct exchange of notifications.
pub open spec fn is_exchange_declaration(d: Declaration) -> bool {
    d matches Declaration::Exchange { name, kind, durable } && name@ == exchange_name() && kind
        == ExchangeKind::Direct && durable
}

/// Whether `d` declares queue `q` as durable.
pub open spec fn is_queue_declaration(d: Declaration, q: Queue) -> bool {
    d matches Declaration::Queue { name, durable } && name@ == queue_name(q) && durable
}

/// Whether `d` binds queue `q` to the exchange under the queue's own name.
pub open spec fn is_binding_declaration(d: Declaration, q: Queue) -> bool {
    d matches Declaration::Binding { queue, exchange, routing_key } && queue@ == queue_name(q)
        && exchange@ == exchange_name() && routing_key@ == queue_name(q)
}

/// The whole topology, declared once at startup, in order: the exchange,
/// the two queues, then their bindings. Declaring it again is harmless.
pub fn topology() -> (r: Vec<Declaration>)
    ensures
        r@.len() == 5,
        is_exchange_declaration(r@[0]),
        is_queue_declaration(r@[1], Queue::Pushes),
        is_queue_declaration(r@[2], Queue::Callbacks),
        is_binding_declaration(r@[3], Queue::Pushes),
        is_binding_declaration(r@[4], Queue::Callbacks),
{
    let mut r: Vec<Declaration> = Vec::new();
    r.push(
        Declaration::Exchange {
            name: String::from_str("notifications"),
            kind: ExchangeKind::Direct,
            durable: true,
        },
    );
    r.push(Declaration::Queue { name: Queue::Pushes.name(), durable: true });
    r.push(Declaration::Queue { name: Queue::Callbacks.name(), durable: true });
    r.push(
        Declaration::Binding {
            queue: Queue::Pushes.name(),
            exchange: String::from_str("notifications"),
            routing_key: Queue::Pushes.name(),
        },
    );
    r.push(
        Declaration::Binding {
            queue: Queue::Callbacks.name(),
            exchange: String::from_str("notifications"),
            routing_key: Queue::Callbacks.name(),
        },
    );
    r
}

/// A serialized event ready to be handed to the broker.
#[derive(Debug)]
pub struct Outgoing {
    pub exchange: String,
    pub routing_key: String,
    pub payload: Vec<u8>,
}

/// Frames `payload` for queue `q`: published to the exchange with the
/// queue's name as routing key.
pub fn outgoing(q: Queue, payload: Vec<u8>) -> (r: Outgoing)
    ensures
        r.exchange@ == exchange_name(),
        r.routing_key@ == queue_name(q),
        r.payload@ == payload@,
{
    Outgoing { exchange: String::from_str("notifications"), routing_key: q.name(), payload }
}

/// The event that tells a webhook consumer the state of a transaction.
#[derive(Clone, Copy, Debug, PartialEq, Eq, Structural)]
pub struct Callback {
    pub transaction_id: TransactionId,
    pub user_id: UserId,
    pub from: AccountId,
    pub status: TransactionStatus,
    pub value: Amount,
    pub fee: Amount,
    pub value_currency: Currency,
    pub to_currency: Currency,
}

/// The event that tells a user's devices that a transaction settled.
#[derive(Clone, Copy, Debug, PartialEq, Eq, Structural)]
pub struct PushNotification {
    pub user_id: UserId,
    pub transaction_id: TransactionId,
    pub status: TransactionStatus,
}

#[derive(Clone, Copy, Debug, PartialEq, Eq, Structural)]
pub enum Notification {
    Push(PushNotification),
    Callback(Callback),
}

impl Notification {
    /// The queue this event is published to.
    pub fn queue(&self) -> (r: Queue)
        ensures
            (r == Queue::Callbacks) <==> (self is Callback),
    {
        match self {
            Notification::Push(_) => Queue::Pushes,
            Notification::Callback(_) => Queue::Callbacks,
        }
    }
}

pub open spec fn callback_of(t: Transaction) -> Callback {
    Callback {
        transaction_id: t.id,
        user_id: t.user_id,
        from: t.from,
        status: t.status,
        value: t.value,
        fee: t.fee,
        value_currency: t.value_currency,
        to_currency: t.to_currency,
    }
}

/// The events announcing the state of `t`: always its callback, and a push
/// to its initiator once it reached a terminal status.
pub open spec fn notifications_of(t: Transaction) -> Seq<Notification> {
    let cb = seq![Notification::Callback(callback_of(t))];
    if t.status.is_terminal() {
        cb.push(
            Notification::Push(
                PushNotification { user_id: t.user_id, transaction_id: t.id, status: t.status },
            ),
        )
    } else {
        cb
    }
}

/// The number of callbacks among `ns`.
pub open spec fn callback_count(ns: Seq<Notification>) -> nat
    decreases ns.len(),
{
    if ns.len() == 0 {
        0
    } else {
        callback_count(ns.drop_last()) + if ns.last() is Callback {
            1nat
        } else {
            0nat
        }
    }
}

/// A state change of a transaction is announced by exactly one callback,
/// and that callback names the transaction.
pub proof fn lemma_one_callback(t: Transaction)
    ensures
        callback_count(notifications_of(t)) == 1,
        notifications_of(t)[0] == Notification::Callback(callback_of(t)),
        callback_of(t).transaction_id == t.id,
{
    let cb = seq![Notification::Callback(callback_of(t))];
    assert(cb.drop_last() =~= Seq::<Notification>::empty());
    assert(callback_count(cb.drop_last()) == 0);
    assert(callback_count(cb) == 1);
    if t.status.is_terminal() {
        assert(notifications_of(t).drop_last() =~= cb);
    }
}

/// The events announcing the state of `t`.
pub fn notifications(t: &Transaction) -> (r: Vec<Notification>)
    ensures
        r@ == notifications_of(*t),
{
    let mut r: Vec<Notification> = Vec::new();
    r.push(
        Notification::Callback(
            Callback {
                transaction_id: t.id,
                user_id: t.user_id,
                from: t.from,
                status: t.status,
                value: t.value,
                fee: t.fee,
                value_currency: t.value_currency,
                to_currency: t.to_currency,
            },
        ),
    );
    if t.status != TransactionStatus::Pending {
        r.push(
            Notification::Push(
                PushNotification { user_id: t.user_id, transaction_id: t.id, status: t.status },
            ),
        );
    }
    proof {
        assert(r@ =~= notifications_of(*t));
    }
    r
}

/// A committed ledger change and the events that announce it.
#[derive(Debug)]
pub struct Committed {
    pub transaction: Transaction,
    pub notifications: Vec<Notification>,
}

/// Creates a transaction and lists the events to publish once it is
/// committed. A repeated id commits nothing and announces nothing; a
/// failure commits nothing and announces nothing.
pub fn submit_transaction(ledger: &mut Ledger, cmd: CreateTransaction, now: u64) -> (r: Result<
    Committed,
    LedgerError,
>)
    requires
        old(ledger).wf(),
    ensures
        final(ledger).wf(),
        has_transaction(old(ledger).transactions(), cmd.id) ==> (r matches Ok(c) && c.transaction
            == old(ledger).transactions()[transaction_index(old(ledger).transactions(), cmd.id)]
            && c.notifications@.len() == 0) && final(ledger).accounts() == old(ledger).accounts()
            && final(ledger).transactions() == old(ledger).transactions(),
        !has_transaction(old(ledger).transactions(), cmd.id) ==> match create_error(
            old(ledger).accounts(),
            cmd,
            now,
        ) {
            Some(e) => r == Err::<Committed, LedgerError>(e) && final(ledger).accounts() == old(
                ledger,
            ).accounts() && final(ledger).transactions() == old(ledger).transactions(),
            None => {
                let t = record_of(cmd, initial_state(cmd, now).0, initial_state(cmd, now).1, now);
                &&& r matches Ok(c) && c.transaction == t && c.notifications@ == notifications_of(t)
                &&& final(ledger).accounts() == create_effect(old(ledger).accounts(), cmd, now)
                &&& final(ledger).transactions() == old(ledger).transactions().push(t)
            },
        },
{
    let existed = ledger.find_transaction(cmd.id).is_some();
    match ledger.create_transaction(cmd, now) {
        Err(e) => Err(e),
        Ok(t) => {
            let ns = if existed {
                Vec::new()
            } else {
                notifications(&t)
            };
            Ok(Committed { transaction: t, notifications: ns })
        },
    }
}

/// Changes the status of a transaction and lists the events to publish once
/// the change is committed: the events of the new record when the status
/// changed, none when the call changed nothing or failed.
pub fn submit_status_update(
    ledger: &mut Ledger,
    id: TransactionId,
    target: TransactionStatus,
    now: u64,
) -> (r: Result<Committed, LedgerError>)
    requires
        old(ledger).wf(),
    ensures
        final(ledger).wf(),
        !has_transaction(old(ledger).transactions(), id) ==> r == Err::<Committed, LedgerError>(
            LedgerError::NotFound,
        ) && final(ledger).accounts() == old(ledger).accounts() && final(ledger).transactions()
            == old(ledger).transactions(),
        has_transaction(old(ledger).transactions(), id) ==> {
            let k = transaction_index(old(ledger).transactions(), id);
            let t = old(ledger).transactions()[k];
            match update_error(old(ledger).accounts(), t, target) {
                Some(e) => r == Err::<Committed, LedgerError>(e) && final(ledger).accounts() == old(
                    ledger,
                ).accounts() && final(ledger).transactions() == old(ledger).transactions(),
                None => {
                    let (accounts, t2) = update_result(old(ledger).accounts(), t, target, now);
                    &&& r matches Ok(c) && c.transaction == t2 && c.notifications@ == if transition_spec(
                        t.status,
                        target,
                    ) == Ok::<bool, LedgerError>(true) {
                        notifications_of(t2)
                    } else {
                        Seq::<Notification>::empty()
                    }
                    &&& final(ledger).accounts() == accounts
                    &&& final(ledger).transactions() == old(ledger).transactions().update(k, t2)
                },
            }
        },
{
    let changes = match ledger.get_transaction(id) {
        Some(t) => match transition(t.status, target) {
            Ok(c) => c,
            Err(_) => false,
        },
        None => false,
    };
    match ledger.update_status(id, target, now) {
        Err(e) => Err(e),
        Ok(t) => {
            let ns = if changes {
                notifications(&t)
            } else {
                Vec::new()
            };
            Ok(Committed { transaction: t, notifications: ns })
        },
    }
}

/// Whether one attempt to publish reached the broker.
#[derive(Clone, Copy, Debug, PartialEq, Eq, Structural)]
pub enum PublishOutcome {
    Delivered,
    Failed,
}

/// What to do after an attempt to publish.
#[derive(Clone, Copy, Debug, PartialEq, Eq, Structural)]
pub enum PublishAction {
    Done,
    Retry,
    /// Give the event up; the loss is to be logged.
    Abandon,
}

/// Decides what follows the `attempts`-th attempt to publish one event,
/// with at most `max_attempts` attempts in all.
pub fn after_publish(attempts: u32, max_attempts: u32, outcome: PublishOutcome) -> (r:
    PublishAction)
    ensures
        outcome == PublishOutcome::Delivered ==> r == PublishAction::Done,
        outcome == PublishOutcome::Failed && attempts < max_attempts ==> r == PublishAction::Retry,
        outcome == PublishOutcome::Failed && attempts >= max_attempts ==> r
            == PublishAction::Abandon,
{
    match outcome {
        PublishOutcome::Delivered => PublishAction::Done,
        PublishOutcome::Failed => if attempts < max_attempts {
            PublishAction::Retry
        } else {
            PublishAction::Abandon
        },
    }
}

} // verus!
