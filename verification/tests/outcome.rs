use lightning_js::error::{Error, Status};
use lightning_js::event::{Event, FailureReason, PaymentHash, PaymentId};
use lightning_js::outcome::{wait_for_payment_outcome, Acknowledged, WaitStep};

const SECOND: u128 = 1_000_000_000;
const ID: PaymentId = PaymentId([9; 32]);

fn look(event: Event) -> Option<Acknowledged> {
    Some((event, Ok(())))
}

fn successful(byte: u8) -> Event {
    Event::PaymentSuccessful { payment_id: Some(PaymentId([byte; 32])) }
}

fn failed(byte: u8, reason: Option<FailureReason>) -> Event {
    Event::PaymentFailed {
        payment_id: Some(PaymentId([byte; 32])),
        payment_hash: Some(PaymentHash([1; 32])),
        reason,
    }
}

#[test]
fn success_of_the_payment_ends_the_wait() {
    let step = wait_for_payment_outcome(&ID, 30, look(successful(9)), 0);
    assert_eq!(step, WaitStep::Done(Ok(())));
}

#[test]
fn failure_of_the_payment_ends_the_wait_with_its_reason() {
    let step =
        wait_for_payment_outcome(&ID, 30, look(failed(9, Some(FailureReason::RouteNotFound))), 0);
    let WaitStep::Done(Err(error)) = step else { panic!("the wait goes on") };
    assert_eq!(error, Error::PaymentFailed(Some(FailureReason::RouteNotFound)));
    assert_eq!(error.status(), Status::GenericFailure);
    assert_eq!(error.reason(), "lnurl payment failed: RouteNotFound");

    let step = wait_for_payment_outcome(&ID, 30, look(failed(9, None)), 100 * SECOND);
    let WaitStep::Done(Err(error)) = step else { panic!("the wait goes on") };
    assert_eq!(error.reason(), "lnurl payment failed: unknown reason");
}

#[test]
fn events_about_other_payments_do_not_end_the_wait() {
    let others = [
        successful(8),
        failed(8, None),
        Event::PaymentSuccessful { payment_id: None },
        Event::PaymentFailed { payment_id: None, payment_hash: None, reason: None },
        Event::PaymentReceived { payment_hash: PaymentHash([9; 32]), amount_msat: 1 },
        Event::Other,
    ];
    for event in others {
        assert_eq!(wait_for_payment_outcome(&ID, 30, look(event), 0), WaitStep::Sleep);
        assert_eq!(
            wait_for_payment_outcome(&ID, 30, look(event), 30 * SECOND),
            WaitStep::Done(Ok(()))
        );
    }
}

#[test]
fn the_wait_ends_without_a_failure_when_the_time_is_up() {
    assert_eq!(wait_for_payment_outcome(&ID, 2, None, 2 * SECOND - 1), WaitStep::Sleep);
    assert_eq!(wait_for_payment_outcome(&ID, 2, None, 2 * SECOND), WaitStep::Done(Ok(())));
    assert_eq!(wait_for_payment_outcome(&ID, 0, None, 0), WaitStep::Done(Ok(())));
    assert_eq!(wait_for_payment_outcome(&ID, u64::MAX, None, 10 * SECOND), WaitStep::Sleep);
}

#[test]
fn an_event_that_cannot_be_acknowledged_ends_the_wait() {
    for event in [successful(9), failed(9, None), Event::Other] {
        let polled = Some((event, Err("no store".to_string())));
        let step = wait_for_payment_outcome(&ID, 30, polled, 0);
        assert_eq!(step, WaitStep::Done(Err(Error::EventHandled("no store".to_string()))));
    }
}

#[test]
fn the_first_word_on_the_payment_counts() {
    let looks = [None, look(Event::Other), look(failed(9, None)), look(successful(9))];
    let mut outcome = None;
    for (n, polled) in looks.into_iter().enumerate() {
        if let WaitStep::Done(done) = wait_for_payment_outcome(&ID, 30, polled, n as u128 * SECOND) {
            outcome = Some((n, done));
            break;
        }
    }
    assert_eq!(outcome, Some((2, Err(Error::PaymentFailed(None)))));
}
