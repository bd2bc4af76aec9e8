//! What the node reports, and which of it is a payment event for the caller.

use vstd::prelude::*;

use crate::amount;
use crate::text;

verus! {

/// The hash that a payment is locked to.
#[derive(Clone, Copy, PartialEq, Eq, Debug)]
pub struct PaymentHash(pub [u8; 32]);

impl View for PaymentHash {
    type V = Seq<u8>;

    open spec fn view(&self) -> Seq<u8> {
        self.0@
    }
}

/// The node's own identifier of a payment that it sends.
#[derive(Clone, Copy, PartialEq, Eq, Debug)]
pub struct PaymentId(pub [u8; 32]);

impl View for PaymentId {
    type V = Seq<u8>;

    open spec fn view(&self) -> Seq<u8> {
        self.0@
    }
}

/// Whether two hashes or identifiers are the same.
pub fn same_bytes(a: &[u8; 32], b: &[u8; 32]) -> (res: bool)
    ensures
        res == (a@ == b@),
{
    let mut i: usize = 0;
    while i < 32
        invariant
            i <= 32,
            a@.take(i as int) == b@.take(i as int),
        decreases 32 - i,
    {
        if a[i] != b[i] {
            return false;
        }
        proof {
            assert(a@.take(i + 1) =~= a@.take(i as int).push(a@[i as int]));
            assert(b@.take(i + 1) =~= b@.take(i as int).push(b@[i as int]));
        }
        i += 1;
    }
    proof {
        assert(a@.take(32) =~= a@);
        assert(b@.take(32) =~= b@);
    }
    true
}

/// Why a payment failed.
#[derive(Clone, Copy, PartialEq, Eq, Debug, Structural)]
pub enum FailureReason {
    RecipientRejected,
    UserAbandoned,
    RetriesExhausted,
    PaymentExpired,
    RouteNotFound,
    UnexpectedError,
    UnknownRequiredFeatures,
    InvoiceRequestExpired,
    InvoiceRequestRejected,
    BlindedPathCreationFailed,
}

/// What the node reports.
#[derive(Clone, Copy, PartialEq, Eq, Debug)]
pub enum Event {
    PaymentSuccessful { payment_id: Option<PaymentId> },
    PaymentFailed {
        payment_id: Option<PaymentId>,
        payment_hash: Option<PaymentHash>,
        reason: Option<FailureReason>,
    },
    PaymentReceived { payment_hash: PaymentHash, amount_msat: u64 },
    PaymentClaimable { payment_hash: PaymentHash, claimable_amount_msat: u64 },
    /// Anything that is not about a payment to or from this node.
    Other,
}

#[derive(Clone, Copy, PartialEq, Eq, Debug, Structural)]
pub enum PaymentEventType {
    Claimable,
    Received,
    Failed,
}

/// A payment event as the caller sees it.
#[derive(Clone, PartialEq, Eq, Debug)]
pub struct PaymentEvent {
    pub event_type: PaymentEventType,
    pub payment_hash: String,
    pub amount_msat: Option<i64>,
    pub reason: Option<String>,
}

pub struct PaymentEventView {
    pub event_type: PaymentEventType,
    pub payment_hash: Seq<char>,
    pub amount_msat: Option<int>,
    pub reason: Option<Seq<char>>,
}

impl View for PaymentEvent {
    type V = PaymentEventView;

    open spec fn view(&self) -> PaymentEventView {
        PaymentEventView {
            event_type: self.event_type,
            payment_hash: self.payment_hash@,
            amount_msat: match self.amount_msat {
                Some(amount_msat) => Some(amount_msat as int),
                None => None,
            },
            reason: match self.reason {
                Some(reason) => Some(reason@),
                None => None,
            },
        }
    }
}

/// The name of a reason.
pub open spec fn reason_name(reason: FailureReason) -> Seq<char> {
    match reason {
        FailureReason::RecipientRejected => "RecipientRejected"@,
        FailureReason::UserAbandoned => "UserAbandoned"@,
        FailureReason::RetriesExhausted => "RetriesExhausted"@,
        FailureReason::PaymentExpired => "PaymentExpired"@,
        FailureReason::RouteNotFound => "RouteNotFound"@,
        FailureReason::UnexpectedError => "UnexpectedError"@,
        FailureReason::UnknownRequiredFeatures => "UnknownRequiredFeatures"@,
        FailureReason::InvoiceRequestExpired => "InvoiceRequestExpired"@,
        FailureReason::InvoiceRequestRejected => "InvoiceRequestRejected"@,
        FailureReason::BlindedPathCreationFailed => "BlindedPathCreationFailed"@,
    }
}

/// The payment event that the caller sees for an event of the node. A failure that names no
/// payment hash, a sent payment that succeeded and everything else is not shown.
pub open spec fn shown(event: Event) -> Option<PaymentEventView> {
    match event {
        Event::PaymentClaimable { payment_hash, claimable_amount_msat } => Some(
            PaymentEventView {
                event_type: PaymentEventType::Claimable,
                payment_hash: text::hex(payment_hash@),
                amount_msat: Some(amount::signed(claimable_amount_msat as int)),
                reason: None,
            },
        ),
        Event::PaymentReceived { payment_hash, amount_msat } => Some(
            PaymentEventView {
                event_type: PaymentEventType::Received,
                payment_hash: text::hex(payment_hash@),
                amount_msat: Some(amount::signed(amount_msat as int)),
                reason: None,
            },
        ),
        Event::PaymentFailed { payment_hash: Some(payment_hash), reason, .. } => Some(
            PaymentEventView {
                event_type: PaymentEventType::Failed,
                payment_hash: text::hex(payment_hash@),
                amount_msat: None,
                reason: match reason {
                    Some(reason) => Some(reason_name(reason)),
                    None => None,
                },
            },
        ),
        _ => None,
    }
}

/// Whether an event is acknowledged without the caller having seen it.
pub open spec fn passed_over(event: Event) -> bool {
    shown(event) is None
}

/// The name of a reason.
pub fn reason_to_str(reason: FailureReason) -> (res: &'static str)
    ensures
        res@ == reason_name(reason),
{
    match reason {
        FailureReason::RecipientRejected => "RecipientRejected",
        FailureReason::UserAbandoned => "UserAbandoned",
        FailureReason::RetriesExhausted => "RetriesExhausted",
        FailureReason::PaymentExpired => "PaymentExpired",
        FailureReason::RouteNotFound => "RouteNotFound",
        FailureReason::UnexpectedError => "UnexpectedError",
        FailureReason::UnknownRequiredFeatures => "UnknownRequiredFeatures",
        FailureReason::InvoiceRequestExpired => "InvoiceRequestExpired",
        FailureReason::InvoiceRequestRejected => "InvoiceRequestRejected",
        FailureReason::BlindedPathCreationFailed => "BlindedPathCreationFailed",
    }
}

/// The payment event that the caller sees, if there is one.
pub fn payment_event(event: &Event) -> (res: Option<PaymentEvent>)
    ensures
        res is Some <==> shown(*event) is Some,
        res matches Some(payment_event) ==> payment_event@ == shown(*event)->0,
{
    match *event {
        Event::PaymentClaimable { payment_hash, claimable_amount_msat } => Some(
            PaymentEvent {
                event_type: PaymentEventType::Claimable,
                payment_hash: text::bytes_to_hex(&payment_hash.0),
                amount_msat: Some(amount::same_bits_i64(claimable_amount_msat)),
                reason: None,
            },
        ),
        Event::PaymentReceived { payment_hash, amount_msat } => Some(
            PaymentEvent {
                event_type: PaymentEventType::Received,
                payment_hash: text::bytes_to_hex(&payment_hash.0),
                amount_msat: Some(amount::same_bits_i64(amount_msat)),
                reason: None,
            },
        ),
        Event::PaymentFailed { payment_hash: Some(payment_hash), reason, .. } => Some(
            PaymentEvent {
                event_type: PaymentEventType::Failed,
                payment_hash: text::bytes_to_hex(&payment_hash.0),
                amount_msat: None,
                reason: match reason {
                    Some(reason) => Some(reason_to_str(reason).to_string()),
                    None => None,
                },
            },
        ),
        _ => None,
    }
}

/// What to do with what the node's event queue has at its head.
#[derive(Clone, PartialEq, Eq, Debug)]
pub enum NextEvent {
    /// Hand this to the caller and leave the queue as it is.
    Return(Option<PaymentEvent>),
    /// Acknowledge the event, which takes it off the queue, and look again.
    Acknowledge,
}

/// Decides on the head of the queue: payment events and the end of the queue go to the caller,
/// other events are acknowledged and passed over.
pub fn next_event(head: Option<Event>) -> (res: NextEvent)
    ensures
        res is Acknowledge <==> (head is Some && passed_over(head->0)),
        res matches NextEvent::Return(returned) ==> (returned is Some <==> head is Some) && (
        returned matches Some(payment_event) ==> payment_event@ == shown(head->0)->0),
{
    match head {
        None => NextEvent::Return(None),
        Some(event) => match payment_event(&event) {
            Some(payment_event) => NextEvent::Return(Some(payment_event)),
            None => NextEvent::Acknowledge,
        },
    }
}

/// The queue as a call for the next event leaves it: without the events before the first one
/// that is shown.
pub open spec fn after_next_event(queue: Seq<Event>) -> Seq<Event>
    decreases queue.len(),
{
    if queue.len() > 0 && passed_over(queue[0]) {
        after_next_event(queue.drop_first())
    } else {
        queue
    }
}

/// What a call for the next event returns.
pub open spec fn next_event_of(queue: Seq<Event>) -> Option<PaymentEventView> {
    let rest = after_next_event(queue);
    if rest.len() > 0 {
        shown(rest[0])
    } else {
        None
    }
}

/// The payment events of a queue, in order.
pub open spec fn payment_events(queue: Seq<Event>) -> Seq<PaymentEventView>
    decreases queue.len(),
{
    if queue.len() == 0 {
        Seq::empty()
    } else if shown(queue[0]) is Some {
        seq![shown(queue[0])->0] + payment_events(queue.drop_first())
    } else {
        payment_events(queue.drop_first())
    }
}

/// What a caller sees who asks for the next event and acknowledges it until there is none.
pub open spec fn delivered(queue: Seq<Event>) -> Seq<PaymentEventView>
    decreases queue.len(),
    via delivered_decreases
{
    let rest = after_next_event(queue);
    if rest.len() == 0 {
        Seq::empty()
    } else {
        seq![shown(rest[0])->0] + delivered(rest.drop_first())
    }
}

#[via_fn]
proof fn delivered_decreases(queue: Seq<Event>) {
    lemma_after_next_event(queue);
}

proof fn lemma_after_next_event(queue: Seq<Event>)
    ensures
        after_next_event(queue).len() <= queue.len(),
        after_next_event(queue).len() > 0 ==> shown(after_next_event(queue)[0]) is Some,
        payment_events(after_next_event(queue)) == payment_events(queue),
        after_next_event(after_next_event(queue)) == after_next_event(queue),
    decreases queue.len(),
{
    if queue.len() > 0 && passed_over(queue[0]) {
        lemma_after_next_event(queue.drop_first());
    }
}

/// A call for the next event takes no payment event off the queue, and until the event is
/// acknowledged every further call returns the same one.
pub proof fn law_next_event_does_not_acknowledge(queue: Seq<Event>)
    ensures
        payment_events(after_next_event(queue)) == payment_events(queue),
        next_event_of(after_next_event(queue)) == next_event_of(queue),
        after_next_event(after_next_event(queue)) == after_next_event(queue),
{
    lemma_after_next_event(queue);
}

/// A call for the next event returns nothing exactly when the queue holds no payment event, and
/// otherwise the first of them.
pub proof fn law_next_event_is_the_first(queue: Seq<Event>)
    ensures
        next_event_of(queue) is None <==> payment_events(queue).len() == 0,
        next_event_of(queue) matches Some(event) ==> event == payment_events(queue)[0],
{
    lemma_after_next_event(queue);
}

/// A caller who acknowledges each event that it was given sees every payment event once, in
/// the order in which the node reported them.
pub proof fn law_each_payment_event_is_delivered_once(queue: Seq<Event>)
    ensures
        delivered(queue) == payment_events(queue),
    decreases queue.len(),
{
    lemma_after_next_event(queue);
    let rest = after_next_event(queue);
    if rest.len() > 0 {
        law_each_payment_event_is_delivered_once(rest.drop_first());
    }
}

/// A payment that can be claimed and one that has arrived are shown with the hash and the amount
/// that the node reports, to the millisatoshi, and without a reason. An amount that a signed
/// number cannot hold is shown by the negative one with the same bits.
pub proof fn law_payments_are_shown_with_their_own_amount(hash: PaymentHash, msat: u64)
    ensures
        ({
            let amount = if msat <= 0x7fff_ffff_ffff_ffff {
                msat as int
            } else {
                msat - 0x1_0000_0000_0000_0000
            };
            let claimable = shown(
                Event::PaymentClaimable { payment_hash: hash, claimable_amount_msat: msat },
            );
            let received = shown(Event::PaymentReceived { payment_hash: hash, amount_msat: msat });
            &&& claimable is Some
            &&& claimable->0.event_type is Claimable
            &&& claimable->0.payment_hash == text::hex(hash.0@)
            &&& claimable->0.amount_msat == Some(amount)
            &&& claimable->0.reason is None
            &&& received is Some
            &&& received->0.event_type is Received
            &&& received->0.payment_hash == text::hex(hash.0@)
            &&& received->0.amount_msat == Some(amount)
            &&& received->0.reason is None
        }),
{
}

/// Whether a payment can be claimed or has arrived changes only the type under which it is shown:
/// hash and amount stay the same, and payments that differ in either are shown differently.
pub proof fn law_shown_payments_tell_hash_and_amount_apart(
    hash: PaymentHash,
    msat: u64,
    other_hash: PaymentHash,
    other_msat: u64,
)
    ensures
        ({
            let claimable = shown(
                Event::PaymentClaimable { payment_hash: hash, claimable_amount_msat: msat },
            )->0;
            let received = shown(
                Event::PaymentReceived { payment_hash: other_hash, amount_msat: other_msat },
            )->0;
            &&& claimable.payment_hash == received.payment_hash <==> hash.0@ == other_hash.0@
            &&& claimable.amount_msat == received.amount_msat <==> msat == other_msat
        }),
{
    if text::hex(hash.0@) == text::hex(other_hash.0@) {
        text::law_hex_is_injective(hash.0@, other_hash.0@);
    }
}

/// A failure is shown exactly where it names a payment hash, with that hash, the name of its
/// reason where it has one, and no amount, whatever the identifier of the payment.
pub proof fn law_failures_are_shown_with_hash_and_reason(
    payment_id: Option<PaymentId>,
    hash: PaymentHash,
    reason: Option<FailureReason>,
)
    ensures
        ({
            let failed = shown(
                Event::PaymentFailed { payment_id, payment_hash: Some(hash), reason },
            );
            &&& failed is Some
            &&& failed->0.event_type is Failed
            &&& failed->0.payment_hash == text::hex(hash.0@)
            &&& failed->0.amount_msat is None
            &&& failed->0.reason is Some <==> reason is Some
            &&& reason is Some ==> failed->0.reason->0 == reason_name(reason->0)
        }),
        shown(Event::PaymentFailed { payment_id, payment_hash: None, reason }) is None,
        shown(Event::PaymentSuccessful { payment_id }) is None,
        shown(Event::Other) is None,
{
}

/// An event is acknowledged without the caller having seen it exactly where it is not about a
/// payment to this node and not about the failure of a payment with a known hash.
pub proof fn law_only_other_events_are_passed_over(event: Event)
    ensures
        passed_over(event) <==> {
            ||| event is PaymentSuccessful
            ||| event is Other
            ||| event matches Event::PaymentFailed { payment_hash: None, .. }
        },
{
}

/// The payment events of a queue are those of its events that are shown, in order.
pub proof fn law_payment_events_are_those_that_are_shown(first: Seq<Event>, second: Seq<Event>)
    ensures
        payment_events(first + second) == payment_events(first) + payment_events(second),
        forall|event: Event| #[trigger] payment_events(seq![event]) == match shown(event) {
            Some(payment_event) => seq![payment_event],
            None => Seq::empty(),
        },
        payment_events(Seq::empty()) == Seq::<PaymentEventView>::empty(),
    decreases first.len(),
{
    assert forall|event: Event| #[trigger] payment_events(seq![event]) == match shown(event) {
        Some(payment_event) => seq![payment_event],
        None => Seq::empty(),
    } by {
        assert(seq![event].drop_first() =~= Seq::<Event>::empty());
        assert(payment_events(seq![event].drop_first()) =~= Seq::<PaymentEventView>::empty());
        assert(seq![event][0] == event);
        if let Some(payment_event) = shown(event) {
            assert(payment_events(seq![event]) =~= seq![payment_event]);
        }
    }
    if first.len() == 0 {
        assert(first + second =~= second);
        assert(payment_events(first) + payment_events(second) =~= payment_events(second));
    } else {
        let rest = first.drop_first();
        law_payment_events_are_those_that_are_shown(rest, second);
        assert((first + second).drop_first() =~= rest + second);
        assert((first + second)[0] == first[0]);
        assert(payment_events(first + second) =~= payment_events(first) + payment_events(second));
    }
}

/// Payment events, hashes and identifiers are seen as they are.
pub proof fn law_payment_events_are_seen_as_they_are(
    payment_event: PaymentEvent,
    hash: PaymentHash,
    payment_id: PaymentId,
)
    ensures
        payment_event@.event_type == payment_event.event_type,
        payment_event@.payment_hash == payment_event.payment_hash@,
        payment_event@.amount_msat is Some <==> payment_event.amount_msat is Some,
        payment_event.amount_msat matches Some(msat) ==> payment_event@.amount_msat->0 == msat,
        payment_event@.reason is Some <==> payment_event.reason is Some,
        payment_event.reason matches Some(reason) ==> payment_event@.reason->0 == reason@,
        hash@ == hash.0@,
        payment_id@ == payment_id.0@,
{
}

} // verus!
