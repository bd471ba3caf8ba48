use wallet_core::account::{AccountId, UserId};
use wallet_core::money::{Amount, Currency};
use wallet_core::notify::{
    after_publish, notifications, outgoing, topology, Declaration, ExchangeKind, Notification,
    PublishAction, PublishOutcome, Queue,
};
use wallet_core::transaction::{
    BalanceEffect, Receipt, Transaction, TransactionId, TransactionStatus,
};

fn record(status: TransactionStatus) -> Transaction {
    Transaction {
        id: TransactionId(3),
        user_id: UserId(4),
        from: AccountId(1),
        to: Receipt::Account(AccountId(2)),
        to_currency: Currency::Eth,
        value_currency: Currency::Eth,
        value: Amount(10),
        fee: Amount(1),
        exchange_id: None,
        exchange_rate: None,
        status,
        effect: BalanceEffect::Applied,
        hold_until: None,
        created_at: 0,
        updated_at: 0,
    }
}

#[test]
fn topology_declares_exchange_queues_and_bindings() {
    let t = topology();
    assert_eq!(t.len(), 5);
    match &t[0] {
        Declaration::Exchange { name, kind, durable } => {
            assert_eq!(name, "notifications");
            assert_eq!(*kind, ExchangeKind::Direct);
            assert!(*durable);
        }
        _ => panic!("exchange first"),
    }
    match (&t[1], &t[2]) {
        (Declaration::Queue { name: a, durable: da }, Declaration::Queue { name: b, durable: db }) => {
            assert_eq!(a, "pushes");
            assert_eq!(b, "callbacks");
            assert!(*da && *db);
        }
        _ => panic!("queues next"),
    }
    match &t[4] {
        Declaration::Binding { queue, exchange, routing_key } => {
            assert_eq!(queue, "callbacks");
            assert_eq!(exchange, "notifications");
            assert_eq!(routing_key, "callbacks");
        }
        _ => panic!("bindings last"),
    }
}

#[test]
fn outgoing_uses_queue_name_as_routing_key() {
    let o = outgoing(Queue::Pushes, vec![1, 2, 3]);
    assert_eq!(o.exchange, "notifications");
    assert_eq!(o.routing_key, "pushes");
    assert_eq!(o.payload, vec![1, 2, 3]);
    assert_eq!(Queue::Callbacks.name(), "callbacks");
}

#[test]
fn completed_transaction_gets_callback_and_push() {
    let ns = notifications(&record(TransactionStatus::Completed));
    assert_eq!(ns.len(), 2);
    assert!(matches!(ns[0], Notification::Callback(cb) if cb.transaction_id == TransactionId(3)));
    assert!(matches!(ns[1], Notification::Push(p) if p.user_id == UserId(4)));
    assert_eq!(ns[0].queue(), Queue::Callbacks);
    assert_eq!(ns[1].queue(), Queue::Pushes);
}

#[test]
fn pending_transaction_gets_callback_only() {
    let ns = notifications(&record(TransactionStatus::Pending));
    assert_eq!(ns.len(), 1);
    assert!(matches!(ns[0], Notification::Callback(_)));
}

#[test]
fn publish_retries_are_bounded() {
    assert_eq!(after_publish(1, 3, PublishOutcome::Delivered), PublishAction::Done);
    assert_eq!(after_publish(1, 3, PublishOutcome::Failed), PublishAction::Retry);
    assert_eq!(after_publish(3, 3, PublishOutcome::Failed), PublishAction::Abandon);
    assert_eq!(after_publish(0, 0, PublishOutcome::Failed), PublishAction::Abandon);
}
