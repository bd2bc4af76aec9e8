//! Waiting for the outcome of a payment that was sent.

use vstd::prelude::*;

use crate::error::Error;
use crate::event;
use crate::event::{Event, PaymentId};

verus! {

/// An event of the node together with what became of acknowledging it.
pub type Acknowledged = (Event, Result<(), String>);

/// What to do next.
#[derive(PartialEq, Eq, Debug)]
pub enum WaitStep {
    /// The wait is over.
    Done(Result<(), Error>),
    /// Look for an event again after a pause.
    Sleep,
}

/// What an event says about the outcome of a payment. An event that does not name this payment
/// says nothing.
pub open spec fn verdict(payment_id: Seq<u8>, event: Event) -> Option<Result<(), Error>> {
    match event {
        Event::PaymentSuccessful { payment_id: Some(id) } => if id@ == payment_id {
            Some(Ok(()))
        } else {
            None
        },
        Event::PaymentFailed { payment_id: Some(id), reason, .. } => if id@ == payment_id {
            Some(Err(Error::PaymentFailed(reason)))
        } else {
            None
        },
        _ => None,
    }
}

/// Whether the time is up.
pub open spec fn time_is_up(timeout_secs: u64, elapsed_ns: u128) -> bool {
    elapsed_ns >= timeout_secs * 1_000_000_000
}

/// What to do after one look for an event: an event that could not be acknowledged ends the wait
/// with that failure, an event about this payment ends it with what it says, and otherwise the
/// wait ends, without a failure, when the time is up.
pub open spec fn wait_step(
    payment_id: Seq<u8>,
    timeout_secs: u64,
    polled: Option<Acknowledged>,
    elapsed_ns: u128,
) -> WaitStep {
    let after_event: Option<Result<(), Error>> = match polled {
        Some((_, Err(failure))) => Some(Err(Error::EventHandled(failure))),
        Some((event, Ok(_))) => verdict(payment_id, event),
        None => None,
    };
    match after_event {
        Some(outcome) => WaitStep::Done(outcome),
        None => if time_is_up(timeout_secs, elapsed_ns) {
            WaitStep::Done(Ok(()))
        } else {
            WaitStep::Sleep
        },
    }
}

fn event_verdict(payment_id: &PaymentId, event: &Event) -> (res: Option<Result<(), Error>>)
    ensures
        res == verdict(payment_id@, *event),
{
    match *event {
        Event::PaymentSuccessful { payment_id: Some(id) } => {
            if event::same_bytes(&id.0, &payment_id.0) {
                Some(Ok(()))
            } else {
                None
            }
        },
        Event::PaymentFailed { payment_id: Some(id), reason, .. } => {
            if event::same_bytes(&id.0, &payment_id.0) {
                Some(Err(Error::PaymentFailed(reason)))
            } else {
                None
            }
        },
        _ => None,
    }
}

/// Decides what to do after one look for an event, `elapsed_ns` nanoseconds after the wait began.
pub fn wait_for_payment_outcome(
    payment_id: &PaymentId,
    timeout_secs: u64,
    polled: Option<Acknowledged>,
    elapsed_ns: u128,
) -> (res: WaitStep)
    ensures
        res == wait_step(payment_id@, timeout_secs, polled, elapsed_ns),
{
    if let Some((event, acknowledged)) = polled {
        match acknowledged {
            Err(failure) => {
                return WaitStep::Done(Err(Error::EventHandled(failure)));
            },
            Ok(_) => {
                if let Some(outcome) = event_verdict(payment_id, &event) {
                    return WaitStep::Done(outcome);
                }
            },
        }
    }
    if elapsed_ns >= timeout_secs as u128 * 1_000_000_000 {
        WaitStep::Done(Ok(()))
    } else {
        WaitStep::Sleep
    }
}

/// The outcome of a wait, from what each look for an event gave and the time after it: none
/// while the wait goes on.
pub open spec fn outcome(
    payment_id: Seq<u8>,
    timeout_secs: u64,
    looks: Seq<(Option<Acknowledged>, u128)>,
) -> Option<Result<(), Error>>
    decreases looks.len(),
{
    if looks.len() == 0 {
        None
    } else {
        match wait_step(payment_id, timeout_secs, looks[0].0, looks[0].1) {
            WaitStep::Done(outcome) => Some(outcome),
            WaitStep::Sleep => outcome(payment_id, timeout_secs, looks.drop_first()),
        }
    }
}

/// Whether a look for an event neither failed nor gave an event about the payment.
pub open spec fn says_nothing(payment_id: Seq<u8>, polled: Option<Acknowledged>) -> bool {
    match polled {
        None => true,
        Some((event, acknowledged)) => acknowledged is Ok && verdict(payment_id, event) is None,
    }
}

/// While no event is about the payment, the wait goes on until the time is up, and then ends
/// without a failure.
pub proof fn law_other_events_do_not_end_the_wait(
    payment_id: Seq<u8>,
    timeout_secs: u64,
    looks: Seq<(Option<Acknowledged>, u128)>,
)
    requires
        forall|i: int| 0 <= i < looks.len() ==> says_nothing(payment_id, (#[trigger] looks[i]).0),
    ensures
        outcome(payment_id, timeout_secs, looks) == if exists|i: int|
            0 <= i < looks.len() && time_is_up(timeout_secs, (#[trigger] looks[i]).1) {
            Some(Ok::<(), Error>(()))
        } else {
            None
        },
    decreases looks.len(),
{
    if looks.len() > 0 {
        let rest = looks.drop_first();
        assert(says_nothing(payment_id, looks[0].0));
        assert forall|i: int| 0 <= i < rest.len() implies says_nothing(
            payment_id,
            (#[trigger] rest[i]).0,
        ) by {
            assert(rest[i] == looks[i + 1]);
        }
        law_other_events_do_not_end_the_wait(payment_id, timeout_secs, rest);
        if !time_is_up(timeout_secs, looks[0].1) {
            if exists|i: int| 0 <= i < looks.len() && time_is_up(timeout_secs, (#[trigger] looks[i]).1) {
                let i = choose|i: int|
                    0 <= i < looks.len() && time_is_up(timeout_secs, (#[trigger] looks[i]).1);
                assert(rest[i - 1] == looks[i]);
            }
            if exists|i: int| 0 <= i < rest.len() && time_is_up(timeout_secs, (#[trigger] rest[i]).1) {
                let i = choose|i: int|
                    0 <= i < rest.len() && time_is_up(timeout_secs, (#[trigger] rest[i]).1);
                assert(looks[i + 1] == rest[i]);
            }
        }
    }
}

/// Looks that say nothing, before the time is up, only put the outcome off.
pub proof fn law_the_first_word_on_the_payment_counts(
    payment_id: Seq<u8>,
    timeout_secs: u64,
    looks: Seq<(Option<Acknowledged>, u128)>,
    n: int,
)
    requires
        0 <= n < looks.len(),
        forall|i: int|
            0 <= i < n ==> says_nothing(payment_id, (#[trigger] looks[i]).0) && !time_is_up(
                timeout_secs,
                looks[i].1,
            ),
        looks[n].0 is Some,
        (looks[n].0->0).1 is Ok,
        verdict(payment_id, (looks[n].0->0).0) is Some,
    ensures
        outcome(payment_id, timeout_secs, looks) == verdict(payment_id, (looks[n].0->0).0),
    decreases n,
{
    if n > 0 {
        let rest = looks.drop_first();
        assert(says_nothing(payment_id, looks[0].0));
        assert forall|i: int| 0 <= i < n - 1 implies says_nothing(
            payment_id,
            (#[trigger] rest[i]).0,
        ) && !time_is_up(timeout_secs, rest[i].1) by {
            assert(rest[i] == looks[i + 1]);
        }
        assert(rest[n - 1] == looks[n]);
        law_the_first_word_on_the_payment_counts(payment_id, timeout_secs, rest, n - 1);
    }
}

/// Success is said of a payment by exactly one event, and failure by exactly one: those that name
/// this payment. Which hash the failure names makes no difference, and its reason is kept.
pub proof fn law_only_events_that_name_the_payment_speak_of_it(
    payment_id: Seq<u8>,
    id: PaymentId,
    hash: Option<event::PaymentHash>,
    received: event::PaymentHash,
    amount_msat: u64,
    reason: Option<event::FailureReason>,
)
    ensures
        verdict(payment_id, Event::PaymentSuccessful { payment_id: Some(id) }) == if id.0@
            == payment_id {
            Some(Ok::<(), Error>(()))
        } else {
            None
        },
        verdict(
            payment_id,
            Event::PaymentFailed { payment_id: Some(id), payment_hash: hash, reason },
        ) == if id.0@ == payment_id {
            Some(Err::<(), Error>(Error::PaymentFailed(reason)))
        } else {
            None
        },
        verdict(payment_id, Event::PaymentSuccessful { payment_id: None }) is None,
        verdict(payment_id, Event::PaymentFailed { payment_id: None, payment_hash: hash, reason }) is None,
        verdict(payment_id, Event::PaymentReceived { payment_hash: received, amount_msat }) is None,
        verdict(
            payment_id,
            Event::PaymentClaimable { payment_hash: received, claimable_amount_msat: amount_msat },
        ) is None,
        verdict(payment_id, Event::Other) is None,
{
}

/// What one look comes to: a failed acknowledgement is returned whatever the event, word on the
/// payment counts even when the time is up, and without any the wait goes on for exactly as many
/// seconds as the caller gave it and then ends without a failure.
pub proof fn law_what_one_look_comes_to(
    payment_id: Seq<u8>,
    timeout_secs: u64,
    event: Event,
    failure: String,
    elapsed_ns: u128,
)
    ensures
        wait_step(payment_id, timeout_secs, Some((event, Err(failure))), elapsed_ns)
            == WaitStep::Done(Err(Error::EventHandled(failure))),
        verdict(payment_id, event) is Some ==> wait_step(
            payment_id,
            timeout_secs,
            Some((event, Ok(()))),
            elapsed_ns,
        ) == WaitStep::Done(verdict(payment_id, event)->0),
        verdict(payment_id, event) is None ==> wait_step(
            payment_id,
            timeout_secs,
            Some((event, Ok(()))),
            elapsed_ns,
        ) == wait_step(payment_id, timeout_secs, None, elapsed_ns),
        elapsed_ns >= timeout_secs * 1_000_000_000 ==> wait_step(
            payment_id,
            timeout_secs,
            None,
            elapsed_ns,
        ) == WaitStep::Done(Ok(())),
        elapsed_ns < timeout_secs * 1_000_000_000 ==> wait_step(
            payment_id,
            timeout_secs,
            None,
            elapsed_ns,
        ) == WaitStep::Sleep,
{
}

} // verus!
