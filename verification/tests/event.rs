use ldk_node::lightning::events::PaymentFailureReason;
use lightning_js::event::{
    next_event, payment_event, reason_to_str, same_bytes, Event, FailureReason, NextEvent,
    PaymentEvent, PaymentEventType, PaymentHash, PaymentId,
};

fn hash(byte: u8) -> PaymentHash {
    PaymentHash([byte; 32])
}

fn received(byte: u8) -> Event {
    Event::PaymentReceived { payment_hash: hash(byte), amount_msat: 1_000 }
}

/// Asks for the next event of a queue, as a caller does.
fn ask(queue: &mut Vec<Event>) -> Option<PaymentEvent> {
    loop {
        match next_event(queue.first().copied()) {
            NextEvent::Return(event) => return event,
            NextEvent::Acknowledge => {
                queue.remove(0);
            }
        }
    }
}

#[test]
fn reasons_are_named_as_the_node_names_them() {
    let pairs = [
        (FailureReason::RecipientRejected, PaymentFailureReason::RecipientRejected),
        (FailureReason::UserAbandoned, PaymentFailureReason::UserAbandoned),
        (FailureReason::RetriesExhausted, PaymentFailureReason::RetriesExhausted),
        (FailureReason::PaymentExpired, PaymentFailureReason::PaymentExpired),
        (FailureReason::RouteNotFound, PaymentFailureReason::RouteNotFound),
        (FailureReason::UnexpectedError, PaymentFailureReason::UnexpectedError),
        (FailureReason::UnknownRequiredFeatures, PaymentFailureReason::UnknownRequiredFeatures),
        (FailureReason::InvoiceRequestExpired, PaymentFailureReason::InvoiceRequestExpired),
        (FailureReason::InvoiceRequestRejected, PaymentFailureReason::InvoiceRequestRejected),
        (FailureReason::BlindedPathCreationFailed, PaymentFailureReason::BlindedPathCreationFailed),
    ];
    for (reason, node_reason) in pairs {
        assert_eq!(reason_to_str(reason), format!("{node_reason:?}"));
    }
}

#[test]
fn hashes_are_the_same_only_if_all_bytes_are() {
    let mut other = [7u8; 32];
    assert!(same_bytes(&[7; 32], &other));
    other[31] = 8;
    assert!(!same_bytes(&[7; 32], &other));
}

#[test]
fn claimable_and_received_payments_are_shown_with_their_amount() {
    let claimable =
        Event::PaymentClaimable { payment_hash: hash(0xab), claimable_amount_msat: u64::MAX };
    assert_eq!(
        payment_event(&claimable),
        Some(PaymentEvent {
            event_type: PaymentEventType::Claimable,
            payment_hash: "ab".repeat(32),
            amount_msat: Some(-1),
            reason: None,
        })
    );
    assert_eq!(
        payment_event(&received(1)),
        Some(PaymentEvent {
            event_type: PaymentEventType::Received,
            payment_hash: "01".repeat(32),
            amount_msat: Some(1_000),
            reason: None,
        })
    );
}

#[test]
fn failures_are_shown_where_they_name_a_hash() {
    let failed = Event::PaymentFailed {
        payment_id: None,
        payment_hash: Some(hash(2)),
        reason: Some(FailureReason::RouteNotFound),
    };
    assert_eq!(
        payment_event(&failed),
        Some(PaymentEvent {
            event_type: PaymentEventType::Failed,
            payment_hash: "02".repeat(32),
            amount_msat: None,
            reason: Some("RouteNotFound".to_string()),
        })
    );
    let without_reason =
        Event::PaymentFailed { payment_id: None, payment_hash: Some(hash(2)), reason: None };
    assert_eq!(payment_event(&without_reason).unwrap().reason, None);
    let without_hash = Event::PaymentFailed {
        payment_id: Some(PaymentId([1; 32])),
        payment_hash: None,
        reason: None,
    };
    assert_eq!(payment_event(&without_hash), None);
}

#[test]
fn other_events_are_passed_over() {
    assert_eq!(next_event(Some(Event::Other)), NextEvent::Acknowledge);
    let successful = Event::PaymentSuccessful { payment_id: Some(PaymentId([1; 32])) };
    assert_eq!(next_event(Some(successful)), NextEvent::Acknowledge);
    assert_eq!(next_event(None), NextEvent::Return(None));
}

#[test]
fn an_event_is_returned_until_it_is_acknowledged() {
    let mut queue = vec![Event::Other, received(1), Event::Other, received(2)];
    let first = ask(&mut queue).unwrap();
    assert_eq!(first.payment_hash, "01".repeat(32));
    assert_eq!(ask(&mut queue).unwrap(), first);
    assert_eq!(queue.len(), 3);
}

#[test]
fn each_payment_event_is_delivered_once_and_in_order() {
    let mut queue = vec![Event::Other, received(1), Event::Other, received(2), received(3), Event::Other];
    let mut seen = Vec::new();
    while let Some(event) = ask(&mut queue) {
        seen.push(event.payment_hash);
        queue.remove(0);
    }
    assert_eq!(seen, vec!["01".repeat(32), "02".repeat(32), "03".repeat(32)]);
    assert!(queue.is_empty());
}
