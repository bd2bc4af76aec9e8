use lightning_js::event::{Event, FailureReason, PaymentHash};
use lightning_js::receive::{ReceiveStep, ReceivedPayment, Receiving, HARD_TIMEOUT_MS};

const MS: u128 = 1_000_000;

fn claimable(byte: u8) -> Event {
    Event::PaymentClaimable { payment_hash: PaymentHash([byte; 32]), claimable_amount_msat: 1 }
}

fn received(byte: u8, amount_msat: u64) -> Event {
    Event::PaymentReceived { payment_hash: PaymentHash([byte; 32]), amount_msat }
}

fn failed(byte: u8) -> Event {
    Event::PaymentFailed {
        payment_id: None,
        payment_hash: Some(PaymentHash([byte; 32])),
        reason: Some(FailureReason::UnexpectedError),
    }
}

#[test]
fn receiving_lasts_at_least_the_minimum() {
    let receiving = Receiving::new(1_000, 200);
    assert_eq!(receiving.step(0), ReceiveStep::Poll);
    assert_eq!(receiving.step(1_000 * MS - 1), ReceiveStep::Poll);
    assert_eq!(receiving.step(1_000 * MS), ReceiveStep::Finish);
}

#[test]
fn receiving_lasts_until_the_node_is_quiet() {
    let mut receiving = Receiving::new(1_000, 200);
    receiving.on_event(&Event::Other, 900 * MS);
    assert_eq!(receiving.step(1_000 * MS), ReceiveStep::Poll);
    assert_eq!(receiving.step(1_099 * MS), ReceiveStep::Poll);
    assert_eq!(receiving.step(1_100 * MS), ReceiveStep::Finish);
}

#[test]
fn receiving_waits_for_claims_that_are_under_way() {
    let mut receiving = Receiving::new(0, 0);
    receiving.on_event(&claimable(1), 0);
    receiving.on_event(&claimable(2), 0);
    receiving.on_event(&claimable(1), 0);
    assert_eq!(receiving.step(5_000 * MS), ReceiveStep::Poll);
    assert_eq!(receiving.pending_claims(), vec!["01".repeat(32), "02".repeat(32)]);
    receiving.on_event(&received(1, 10), 5_000 * MS);
    assert_eq!(receiving.pending_claims(), vec!["02".repeat(32)]);
    assert_eq!(receiving.step(5_000 * MS), ReceiveStep::Poll);
    receiving.on_event(&failed(2), 5_000 * MS);
    assert!(receiving.pending_claims().is_empty());
    assert_eq!(receiving.step(5_000 * MS), ReceiveStep::Finish);
}

#[test]
fn a_failure_without_a_hash_ends_no_claim() {
    let mut receiving = Receiving::new(0, 0);
    receiving.on_event(&claimable(1), 0);
    let failure = Event::PaymentFailed { payment_id: None, payment_hash: None, reason: None };
    receiving.on_event(&failure, 0);
    assert_eq!(receiving.pending_claims().len(), 1);
}

#[test]
fn a_claim_can_be_opened_again() {
    let mut receiving = Receiving::new(0, 0);
    receiving.on_event(&claimable(1), 0);
    receiving.on_event(&failed(1), 0);
    receiving.on_event(&claimable(1), 0);
    assert_eq!(receiving.pending_claims(), vec!["01".repeat(32)]);
}

#[test]
fn the_hard_timeout_ends_receiving() {
    let mut receiving = Receiving::new(0, 0);
    receiving.on_event(&claimable(1), 0);
    assert_eq!(receiving.step(60_000 * MS - 1), ReceiveStep::Poll);
    assert_eq!(receiving.step(HARD_TIMEOUT_MS as u128 * MS), ReceiveStep::TimedOut);
    let long = Receiving::new(120_000, 0);
    assert_eq!(long.step(60_000 * MS), ReceiveStep::TimedOut);
}

#[test]
fn negative_thresholds_are_always_met() {
    assert_eq!(Receiving::new(-1, -1).step(0), ReceiveStep::Finish);
}

#[test]
fn every_payment_that_arrives_is_collected_in_order() {
    let mut receiving = Receiving::new(0, 0);
    receiving.on_event(&received(0xab, 2_000), 0);
    receiving.on_event(&Event::Other, 0);
    receiving.on_event(&failed(3), 0);
    receiving.on_event(&received(0xab, 2_000), 0);
    receiving.on_event(&received(0x0c, u64::MAX), 0);
    let expected = [("ab", 2_000), ("ab", 2_000), ("0c", -1)];
    let payments = receiving.into_received();
    assert_eq!(payments.len(), 3);
    for (payment, (byte, amount)) in payments.into_iter().zip(expected) {
        assert_eq!(payment, ReceivedPayment { payment_hash: byte.repeat(32), amount });
    }
}

#[test]
fn hashes_are_shown_as_the_node_shows_them() {
    let mut receiving = Receiving::new(0, 0);
    let mut bytes = [0u8; 32];
    for (i, byte) in bytes.iter_mut().enumerate() {
        *byte = (i * 7 + 3) as u8;
    }
    let event = Event::PaymentReceived { payment_hash: PaymentHash(bytes), amount_msat: 1 };
    receiving.on_event(&event, 0);
    let expected = ldk_node::lightning_types::payment::PaymentHash(bytes).to_string();
    assert_eq!(receiving.into_received()[0].payment_hash, expected);
}

/// Receives over some readings of the clock, and gives the end, the number of polls and the rest.
fn run(readings: &[(u128, Option<Event>)]) -> (Option<ReceiveStep>, usize, Receiving) {
    let mut receiving = Receiving::new(100, 50);
    for (polls, (now_ns, event)) in readings.iter().enumerate() {
        match receiving.step(*now_ns) {
            ReceiveStep::Poll => {
                if let Some(event) = event {
                    receiving.on_event(event, *now_ns);
                }
            }
            step => return (Some(step), polls, receiving),
        }
    }
    (None, readings.len(), receiving)
}

#[test]
fn a_run_ends_at_the_first_reading_that_ends_it() {
    let readings = [
        (0, Some(claimable(1))),
        (90 * MS, None),
        (120 * MS, Some(received(1, 7))),
        (169 * MS, None),
        (170 * MS, Some(received(2, 8))),
        (180 * MS, Some(received(3, 9))),
    ];
    let (end, polls, receiving) = run(&readings);
    assert_eq!(end, Some(ReceiveStep::Finish));
    assert_eq!(polls, 4);
    let payments = receiving.into_received();
    assert_eq!(payments.len(), 1);
    assert_eq!(payments[0].amount, 7);
}

#[test]
fn a_run_ends_by_the_hard_timeout() {
    let readings = [(0, Some(claimable(1))), (59_999 * MS, None), (60_000 * MS, None), (61_000 * MS, None)];
    let (end, polls, receiving) = run(&readings);
    assert_eq!(end, Some(ReceiveStep::TimedOut));
    assert_eq!(polls, 2);
    assert_eq!(receiving.pending_claims().len(), 1);
    assert_eq!(run(&readings[..2]).0, None);
}
