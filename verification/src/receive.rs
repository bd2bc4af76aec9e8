//! Receiving: collecting payments until the node has been quiet for long enough and no claim is
//! under way.

use vstd::prelude::*;

use crate::amount;
use crate::event;
use crate::event::{Event, PaymentHash};
use crate::ldk;
use crate::text;

verus! {

/// After this long receiving ends even while claims are under way.
pub const HARD_TIMEOUT_MS: i64 = 60_000;

/// A payment that arrived.
#[derive(Clone, PartialEq, Eq, Debug)]
pub struct ReceivedPayment {
    pub payment_hash: String,
    pub amount: i64,
}

pub struct ReceivedPaymentView {
    pub payment_hash: Seq<char>,
    pub amount: int,
}

impl View for ReceivedPayment {
    type V = ReceivedPaymentView;

    open spec fn view(&self) -> ReceivedPaymentView {
        ReceivedPaymentView { payment_hash: self.payment_hash@, amount: self.amount as int }
    }
}

/// What to do next.
#[derive(Clone, Copy, PartialEq, Eq, Debug, Structural)]
pub enum ReceiveStep {
    /// Done: long enough, quiet for long enough, and no claim under way.
    Finish,
    /// Give up waiting.
    TimedOut,
    /// Look for an event, and decide again after a pause.
    Poll,
}

/// How far receiving has come. Times are in nanoseconds since it began.
pub struct ReceiveView {
    pub min_threshold_ms: int,
    pub quiet_threshold_ms: int,
    pub last_event_ns: int,
    /// The hashes of the payments whose claim is under way.
    pub pending: Set<Seq<u8>>,
    pub received: Seq<ReceivedPaymentView>,
}

/// The payment that an event reports as arrived.
pub open spec fn received_payment(payment_hash: Seq<u8>, amount_msat: u64) -> ReceivedPaymentView {
    ReceivedPaymentView {
        payment_hash: text::hex(payment_hash),
        amount: amount::signed(amount_msat as int),
    }
}

/// The claims under way after an event: one is added when a payment becomes claimable, and one
/// ends when its payment has arrived or failed.
pub open spec fn pending_after(pending: Set<Seq<u8>>, event: Event) -> Set<Seq<u8>> {
    match event {
        Event::PaymentClaimable { payment_hash, .. } => pending.insert(payment_hash@),
        Event::PaymentReceived { payment_hash, .. } => pending.remove(payment_hash@),
        Event::PaymentFailed { payment_hash: Some(payment_hash), .. } => pending.remove(
            payment_hash@,
        ),
        _ => pending,
    }
}

/// The payments that have arrived after an event.
pub open spec fn received_after(received: Seq<ReceivedPaymentView>, event: Event) -> Seq<
    ReceivedPaymentView,
> {
    match event {
        Event::PaymentReceived { payment_hash, amount_msat } => received.push(
            received_payment(payment_hash@, amount_msat),
        ),
        _ => received,
    }
}

impl ReceiveView {
    /// The nanoseconds since the last event, or since the beginning where there was none.
    pub open spec fn quiet_ns(self, now_ns: int) -> int {
        if now_ns >= self.last_event_ns {
            now_ns - self.last_event_ns
        } else {
            0
        }
    }

    /// Whether receiving is complete.
    pub open spec fn can_exit(self, now_ns: int) -> bool {
        &&& self.pending.is_empty()
        &&& amount::millis(now_ns) >= self.min_threshold_ms
        &&& amount::millis(self.quiet_ns(now_ns)) >= self.quiet_threshold_ms
    }

    /// What to do at a point in time.
    pub open spec fn step(self, now_ns: int) -> ReceiveStep {
        if self.can_exit(now_ns) {
            ReceiveStep::Finish
        } else if amount::millis(now_ns) >= HARD_TIMEOUT_MS {
            ReceiveStep::TimedOut
        } else {
            ReceiveStep::Poll
        }
    }

    /// How far receiving has come once an event has been handled.
    pub open spec fn after(self, event: Event, now_ns: int) -> ReceiveView {
        ReceiveView {
            last_event_ns: now_ns,
            pending: pending_after(self.pending, event),
            received: received_after(self.received, event),
            ..self
        }
    }
}

/// How far receiving has come.
pub struct Receiving {
    min_threshold_ms: i64,
    quiet_threshold_ms: i64,
    last_event_ns: u128,
    pending: Vec<PaymentHash>,
    received: Vec<ReceivedPayment>,
}

impl View for Receiving {
    type V = ReceiveView;

    closed spec fn view(&self) -> ReceiveView {
        ReceiveView {
            min_threshold_ms: self.min_threshold_ms as int,
            quiet_threshold_ms: self.quiet_threshold_ms as int,
            last_event_ns: self.last_event_ns as int,
            pending: hashes(self.pending@).to_set(),
            received: self.received@.map_values(|payment: ReceivedPayment| payment@),
        }
    }
}

/// The bytes of some hashes.
spec fn hashes(pending: Seq<PaymentHash>) -> Seq<Seq<u8>> {
    pending.map_values(|hash: PaymentHash| hash@)
}

/// Where a hash stands, if it does.
fn position(pending: &Vec<PaymentHash>, hash: &PaymentHash) -> (res: Option<usize>)
    ensures
        res matches Some(i) ==> i < pending.len() && pending[i as int]@ == hash@,
        res is None ==> !hashes(pending@).contains(hash@),
{
    let mut i: usize = 0;
    while i < pending.len()
        invariant
            i <= pending.len(),
            forall|j: int| 0 <= j < i ==> (#[trigger] pending[j])@ != hash@,
        decreases pending.len() - i,
    {
        if event::same_bytes(&pending[i].0, &hash.0) {
            return Some(i);
        }
        i += 1;
    }
    proof {
        assert forall|j: int| 0 <= j < hashes(pending@).len() implies hashes(pending@)[j]
            != hash@ by {
            assert(hashes(pending@)[j] == pending[j]@);
        }
    }
    None
}

impl Receiving {
    /// No claim is counted twice.
    pub closed spec fn wf(self) -> bool {
        hashes(self.pending@).no_duplicates()
    }

    /// Nothing has happened yet.
    pub fn new(min_threshold_ms: i64, quiet_threshold_ms: i64) -> (res: Self)
        ensures
            res.wf(),
            res@ == (ReceiveView {
                min_threshold_ms: min_threshold_ms as int,
                quiet_threshold_ms: quiet_threshold_ms as int,
                last_event_ns: 0,
                pending: Set::empty(),
                received: Seq::empty(),
            }),
    {
        let res = Receiving {
            min_threshold_ms,
            quiet_threshold_ms,
            last_event_ns: 0,
            pending: Vec::new(),
            received: Vec::new(),
        };
        proof {
            assert(hashes(res.pending@) =~= Seq::empty());
            assert(res@.pending =~= Set::empty());
            assert(res@.received =~= Seq::empty());
        }
        res
    }

    /// Decides what to do, at a time in nanoseconds since receiving began.
    pub fn step(&self, now_ns: u128) -> (res: ReceiveStep)
        ensures
            res == self@.step(now_ns as int),
    {
        let total_ms: i64 = amount::nanos_to_millis(now_ns);
        let quiet_ns: u128 = if now_ns >= self.last_event_ns {
            now_ns - self.last_event_ns
        } else {
            0
        };
        let quiet_ms: i64 = amount::nanos_to_millis(quiet_ns);
        proof {
            if self.pending.len() == 0 {
                assert(self@.pending =~= Set::empty());
            } else {
                assert(hashes(self.pending@)[0] == self.pending[0]@);
                assert(self@.pending.contains(self.pending[0]@));
            }
        }
        if self.pending.len() == 0 && total_ms >= self.min_threshold_ms && quiet_ms
            >= self.quiet_threshold_ms {
            ReceiveStep::Finish
        } else if total_ms >= HARD_TIMEOUT_MS {
            ReceiveStep::TimedOut
        } else {
            ReceiveStep::Poll
        }
    }

    fn insert(&mut self, hash: PaymentHash)
        requires
            old(self).wf(),
        ensures
            final(self).wf(),
            final(self)@ == (ReceiveView {
                pending: old(self)@.pending.insert(hash@),
                ..old(self)@
            }),
    {
        let ghost before = hashes(self.pending@);
        match position(&self.pending, &hash) {
            Some(i) => {
                proof {
                    assert(before[i as int] == hash@);
                    assert(before.contains(hash@));
                    assert(self@.pending =~= old(self)@.pending.insert(hash@));
                }
            },
            None => {
                self.pending.push(hash);
                proof {
                    let after = hashes(self.pending@);
                    assert(after =~= before.push(hash@));
                    assert forall|i: int, j: int|
                        0 <= i < after.len() && 0 <= j < after.len() && i != j implies after[i]
                        != after[j] by {
                        if i < before.len() {
                            assert(before.contains(before[i]));
                        }
                        if j < before.len() {
                            assert(before.contains(before[j]));
                        }
                    }
                    assert forall|h: Seq<u8>| after.contains(h) <==> before.contains(h) || h == hash@ by {
                        if before.contains(h) {
                            let i = choose|i: int| 0 <= i < before.len() && before[i] == h;
                            assert(after[i] == h);
                        }
                        if h == hash@ {
                            assert(after[before.len() as int] == h);
                        }
                    }
                    assert(self@.pending =~= old(self)@.pending.insert(hash@));
                }
            },
        }
    }

    fn remove(&mut self, hash: &PaymentHash)
        requires
            old(self).wf(),
        ensures
            final(self).wf(),
            final(self)@ == (ReceiveView {
                pending: old(self)@.pending.remove(hash@),
                ..old(self)@
            }),
    {
        let ghost before = hashes(self.pending@);
        match position(&self.pending, hash) {
            Some(i) => {
                self.pending.remove(i);
                proof {
                    let after = hashes(self.pending@);
                    assert(after =~= before.remove(i as int));
                    assert(before[i as int] == hash@);
                    assert forall|h: Seq<u8>| after.contains(h) <==> before.contains(h) && h != hash@ by {
                        if after.contains(h) {
                            let j = choose|j: int| 0 <= j < after.len() && after[j] == h;
                            let k = if j < i {
                                j
                            } else {
                                j + 1
                            };
                            assert(before[k] == h);
                        }
                        if before.contains(h) && h != hash@ {
                            let k = choose|k: int| 0 <= k < before.len() && before[k] == h;
                            let j = if k < i {
                                k
                            } else {
                                k - 1
                            };
                            assert(after[j] == h);
                        }
                    }
                    assert(self@.pending =~= old(self)@.pending.remove(hash@));
                }
            },
            None => {
                proof {
                    assert(self@.pending =~= old(self)@.pending.remove(hash@));
                }
            },
        }
    }

    /// Takes note of an event that the node reported at `now_ns`.
    pub fn on_event(&mut self, event: &Event, now_ns: u128)
        requires
            old(self).wf(),
        ensures
            final(self).wf(),
            final(self)@ == old(self)@.after(*event, now_ns as int),
    {
        match *event {
            Event::PaymentClaimable { payment_hash, .. } => {
                self.insert(payment_hash);
            },
            Event::PaymentReceived { payment_hash, amount_msat } => {
                self.remove(&payment_hash);
                let ghost before = self.received@;
                self.received.push(
                    ReceivedPayment {
                        payment_hash: ldk::payment_hash_to_string(&payment_hash),
                        amount: amount::same_bits_i64(amount_msat),
                    },
                );
                proof {
                    assert(self@.received =~= before.map_values(
                        |payment: ReceivedPayment| payment@,
                    ).push(received_payment(payment_hash@, amount_msat)));
                }
            },
            Event::PaymentFailed { payment_hash: Some(payment_hash), .. } => {
                self.remove(&payment_hash);
            },
            _ => {},
        }
        self.last_event_ns = now_ns;
    }

    /// The hashes of the claims that are under way, in hexadecimal.
    pub fn pending_claims(&self) -> (res: Vec<String>)
        requires
            self.wf(),
        ensures
            res@.map_values(|claim: String| claim@).to_set() == self@.pending.map(
                |hash: Seq<u8>| text::hex(hash),
            ),
            res@.map_values(|claim: String| claim@).no_duplicates(),
    {
        let mut res: Vec<String> = Vec::new();
        let mut i: usize = 0;
        while i < self.pending.len()
            invariant
                i <= self.pending.len(),
                res.len() == i,
                forall|j: int| 0 <= j < i ==> (#[trigger] res[j])@ == text::hex(self.pending[j]@),
            decreases self.pending.len() - i,
        {
            res.push(text::bytes_to_hex(&self.pending[i].0));
            i += 1;
        }
        proof {
            let all = hashes(self.pending@);
            let shown = res@.map_values(|claim: String| claim@);
            let show = |hash: Seq<u8>| text::hex(hash);
            assert forall|t: Seq<char>| shown.to_set().contains(t) implies self@.pending.map(
                show,
            ).contains(t) by {
                let i = choose|i: int| 0 <= i < shown.len() && shown[i] == t;
                assert(shown[i] == res[i]@ && all[i] == self.pending[i]@);
                assert(self@.pending.contains(all[i]) && show(all[i]) == t);
            }
            assert forall|t: Seq<char>| self@.pending.map(show).contains(t) implies shown.to_set().contains(t) by {
                let h = choose|h: Seq<u8>| self@.pending.contains(h) && t == show(h);
                let i = choose|i: int| 0 <= i < all.len() && all[i] == h;
                assert(shown[i] == res[i]@ && all[i] == self.pending[i]@);
                assert(shown[i] == t);
            }
            assert(shown.to_set() =~= self@.pending.map(show));
            assert forall|i: int, j: int|
                0 <= i < shown.len() && 0 <= j < shown.len() && i != j implies shown[i]
                != shown[j] by {
                assert(shown[i] == res[i]@ && shown[j] == res[j]@);
                assert(all[i] == self.pending[i]@ && all[j] == self.pending[j]@);
                if shown[i] == shown[j] {
                    text::law_hex_is_injective(all[i], all[j]);
                }
            }
        }
        res
    }

    /// The payments that arrived, in order.
    pub fn into_received(self) -> (res: Vec<ReceivedPayment>)
        ensures
            res@.map_values(|payment: ReceivedPayment| payment@) == self@.received,
    {
        self.received
    }
}

/// How far receiving has come after a row of events, each with the time at which it was
/// reported.
pub open spec fn replay(start: ReceiveView, events: Seq<(Event, int)>) -> ReceiveView
    decreases events.len(),
{
    if events.len() == 0 {
        start
    } else {
        replay(start, events.drop_last()).after(events.last().0, events.last().1)
    }
}

/// The payments that a row of events reports as arrived, in order.
pub open spec fn received_in(events: Seq<(Event, int)>) -> Seq<ReceivedPaymentView>
    decreases events.len(),
{
    if events.len() == 0 {
        Seq::empty()
    } else {
        received_after(received_in(events.drop_last()), events.last().0)
    }
}

/// Whether an event opens the claim of a payment.
pub open spec fn opens(event: Event, hash: Seq<u8>) -> bool {
    event matches Event::PaymentClaimable { payment_hash, .. } && payment_hash@ == hash
}

/// Whether an event ends the claim of a payment.
pub open spec fn settles(event: Event, hash: Seq<u8>) -> bool {
    ||| event matches Event::PaymentReceived { payment_hash, .. } && payment_hash@ == hash
    ||| event matches Event::PaymentFailed { payment_hash: Some(payment_hash), .. } && payment_hash@
        == hash
}

/// Whether no event from `first` on ends the claim of a payment.
pub open spec fn unsettled_from(events: Seq<(Event, int)>, first: int, hash: Seq<u8>) -> bool {
    forall|i: int| first <= i < events.len() ==> !settles((#[trigger] events[i]).0, hash)
}

/// Every payment that arrives is collected, once and in order, whatever else is reported.
pub proof fn law_every_arrival_is_collected(start: ReceiveView, events: Seq<(Event, int)>)
    ensures
        replay(start, events).received == start.received + received_in(events),
    decreases events.len(),
{
    if events.len() == 0 {
        assert(start.received + received_in(events) =~= start.received);
    } else {
        let rest = events.drop_last();
        law_every_arrival_is_collected(start, rest);
        assert(replay(start, events).received =~= start.received + received_in(events));
    }
}

/// A claim is under way exactly when it was opened, before or by one of the events, and none of
/// the later events ended it.
pub proof fn law_claims_under_way(start: ReceiveView, events: Seq<(Event, int)>, hash: Seq<u8>)
    ensures
        replay(start, events).pending.contains(hash) <==> {
            ||| start.pending.contains(hash) && unsettled_from(events, 0, hash)
            ||| exists|i: int|
                0 <= i < events.len() && opens((#[trigger] events[i]).0, hash) && unsettled_from(
                    events,
                    i + 1,
                    hash,
                )
        },
    decreases events.len(),
{
    if events.len() > 0 {
        let rest = events.drop_last();
        let last = events.last().0;
        let end = events.len() - 1;
        assert(events[end].0 == last);
        law_claims_under_way(start, rest, hash);
        assert forall|first: int| 0 <= first implies unsettled_from(events, first, hash) == (
        #[trigger] unsettled_from(rest, first, hash) && (first <= end ==> !settles(last, hash))) by {
            assert(forall|i: int| first <= i < rest.len() ==> rest[i] == #[trigger] events[i]);
            if unsettled_from(events, first, hash) {
                assert forall|i: int| first <= i < rest.len() implies !settles(
                    (#[trigger] rest[i]).0,
                    hash,
                ) by {
                    assert(events[i] == rest[i]);
                }
            }
        }
        assert(unsettled_from(events, 0, hash) == (unsettled_from(rest, 0, hash) && !settles(
            last,
            hash,
        )));
        if opens(last, hash) {
            assert(unsettled_from(events, end + 1, hash));
        } else {
            if exists|i: int|
                0 <= i < events.len() && opens((#[trigger] events[i]).0, hash) && unsettled_from(
                    events,
                    i + 1,
                    hash,
                ) {
                let i = choose|i: int|
                    0 <= i < events.len() && opens((#[trigger] events[i]).0, hash)
                        && unsettled_from(events, i + 1, hash);
                assert(rest[i] == events[i]);
                assert(unsettled_from(rest, i + 1, hash));
            }
            if exists|i: int|
                0 <= i < rest.len() && opens((#[trigger] rest[i]).0, hash) && unsettled_from(
                    rest,
                    i + 1,
                    hash,
                ) {
                let i = choose|i: int|
                    0 <= i < rest.len() && opens((#[trigger] rest[i]).0, hash) && unsettled_from(
                        rest,
                        i + 1,
                        hash,
                    );
                assert(rest[i] == events[i]);
                if !settles(last, hash) {
                    assert(unsettled_from(events, i + 1, hash));
                }
            }
        }
    }
}

/// Receiving never finishes while a claim is under way, nor before either threshold.
pub proof fn law_finish_means_complete(receiving: ReceiveView, now_ns: int)
    requires
        receiving.step(now_ns) is Finish,
    ensures
        receiving.pending.is_empty(),
        amount::millis(now_ns) >= receiving.min_threshold_ms,
        amount::millis(receiving.quiet_ns(now_ns)) >= receiving.quiet_threshold_ms,
{
}

/// Receiving never goes on after the hard timeout, whatever is under way.
pub proof fn law_hard_timeout_ends_receiving(receiving: ReceiveView, now_ns: int)
    requires
        amount::millis(now_ns) >= HARD_TIMEOUT_MS,
    ensures
        receiving.step(now_ns) !is Poll,
{
}

/// A time at which receiving decides what to do, and the event that the node has then if it is
/// asked for one.
pub type Reading = (int, Option<Event>);

/// How far receiving has come once it has asked for an event.
pub open spec fn polled(receiving: ReceiveView, reading: Reading) -> ReceiveView {
    match reading.1 {
        Some(event) => receiving.after(event, reading.0),
        None => receiving,
    }
}

/// How far receiving has come once it has asked for an event at each of the first `n` readings.
pub open spec fn polled_through(
    receiving: ReceiveView,
    readings: Seq<Reading>,
    n: nat,
) -> ReceiveView
    decreases n,
{
    if n == 0 {
        receiving
    } else {
        polled(polled_through(receiving, readings, (n - 1) as nat), readings[n - 1])
    }
}

/// A whole run of receiving.
pub struct ReceiveRun {
    /// How it ended, if it did.
    pub end: Option<ReceiveStep>,
    /// At how many readings the node was asked for an event.
    pub polls: nat,
    pub receiving: ReceiveView,
}

/// What a whole run comes to: at each reading receiving ends, or asks for an event and goes on.
pub open spec fn run(receiving: ReceiveView, readings: Seq<Reading>) -> ReceiveRun
    decreases readings.len(),
{
    if readings.len() == 0 {
        ReceiveRun { end: None, polls: 0, receiving }
    } else {
        match receiving.step(readings[0].0) {
            ReceiveStep::Poll => {
                let rest = run(polled(receiving, readings[0]), readings.drop_first());
                ReceiveRun { polls: rest.polls + 1, ..rest }
            },
            step => ReceiveRun { end: Some(step), polls: 0, receiving },
        }
    }
}

/// The events that the first `n` readings have, each with its time.
pub open spec fn events_of(readings: Seq<Reading>, n: nat) -> Seq<(Event, int)>
    decreases n,
{
    if n == 0 {
        Seq::empty()
    } else {
        match readings[n - 1].1 {
            Some(event) => events_of(readings, (n - 1) as nat).push((event, readings[n - 1].0)),
            None => events_of(readings, (n - 1) as nat),
        }
    }
}

proof fn lemma_polled_first(receiving: ReceiveView, readings: Seq<Reading>, n: nat)
    requires
        n < readings.len(),
    ensures
        polled_through(receiving, readings, n + 1) == polled_through(
            polled(receiving, readings[0]),
            readings.drop_first(),
            n,
        ),
    decreases n,
{
    if n == 0 {
        assert(polled_through(receiving, readings, 0) == receiving);
    } else {
        lemma_polled_first(receiving, readings, (n - 1) as nat);
        assert(readings.drop_first()[n - 1] == readings[n as int]);
    }
}

/// A run ends at the first reading at which there is anything to do but ask for an event, and at
/// that reading none is asked for.
pub proof fn law_receiving_ends_at_the_first_reading_that_ends_it(
    receiving: ReceiveView,
    readings: Seq<Reading>,
)
    ensures
        ({
            let whole = run(receiving, readings);
            &&& whole.polls <= readings.len()
            &&& whole.receiving == polled_through(receiving, readings, whole.polls)
            &&& forall|i: int|
                0 <= i < whole.polls ==> polled_through(receiving, readings, i as nat).step(
                    (#[trigger] readings[i]).0,
                ) is Poll
            &&& whole.end is Some <==> whole.polls < readings.len()
            &&& whole.end matches Some(step) ==> step !is Poll && step == whole.receiving.step(
                readings[whole.polls as int].0,
            )
        }),
    decreases readings.len(),
{
    if readings.len() > 0 && receiving.step(readings[0].0) is Poll {
        let whole = run(receiving, readings);
        let next = polled(receiving, readings[0]);
        let rest = readings.drop_first();
        law_receiving_ends_at_the_first_reading_that_ends_it(next, rest);
        assert(polled_through(receiving, readings, 0) == receiving);
        lemma_polled_first(receiving, readings, run(next, rest).polls);
        if run(next, rest).polls < rest.len() {
            assert(rest[run(next, rest).polls as int] == readings[whole.polls as int]);
        }
        assert forall|i: int| 0 <= i < whole.polls implies polled_through(
            receiving,
            readings,
            i as nat,
        ).step((#[trigger] readings[i]).0) is Poll by {
            if i > 0 {
                lemma_polled_first(receiving, readings, (i - 1) as nat);
                assert(rest[i - 1] == readings[i]);
            }
        }
    }
}

/// A run never goes beyond a reading at or after the hard timeout.
pub proof fn law_a_run_ends_by_the_hard_timeout(
    receiving: ReceiveView,
    readings: Seq<Reading>,
    i: int,
)
    requires
        0 <= i < readings.len(),
        amount::millis(readings[i].0) >= HARD_TIMEOUT_MS,
    ensures
        run(receiving, readings).end is Some,
        run(receiving, readings).polls <= i,
{
    law_receiving_ends_at_the_first_reading_that_ends_it(receiving, readings);
    if run(receiving, readings).polls > i {
        law_hard_timeout_ends_receiving(
            polled_through(receiving, readings, i as nat),
            readings[i].0,
        );
    }
}

/// What a run has collected is what arrived by the events that it asked for, once and in order,
/// and where it finished no claim is under way.
pub proof fn law_a_run_collects_what_it_was_given(
    receiving: ReceiveView,
    readings: Seq<Reading>,
)
    ensures
        ({
            let whole = run(receiving, readings);
            let events = events_of(readings, whole.polls);
            &&& whole.receiving == replay(receiving, events)
            &&& whole.receiving.received == receiving.received + received_in(events)
            &&& whole.end == Some(ReceiveStep::Finish) ==> whole.receiving.pending.is_empty()
        }),
{
    let whole = run(receiving, readings);
    law_receiving_ends_at_the_first_reading_that_ends_it(receiving, readings);
    lemma_polling_is_replaying(receiving, readings, whole.polls);
    law_every_arrival_is_collected(receiving, events_of(readings, whole.polls));
}

proof fn lemma_polling_is_replaying(receiving: ReceiveView, readings: Seq<Reading>, n: nat)
    ensures
        polled_through(receiving, readings, n) == replay(receiving, events_of(readings, n)),
    decreases n,
{
    if n > 0 {
        lemma_polling_is_replaying(receiving, readings, (n - 1) as nat);
        if let Some(event) = readings[n - 1].1 {
            let before = events_of(readings, (n - 1) as nat);
            assert(events_of(readings, n).drop_last() =~= before);
        }
    }
}

/// A payment that arrives is added at the end of what was collected, once, with its own hash and
/// its own amount to the millisatoshi, or, where a signed number cannot hold it, the negative one
/// with the same bits. No other event adds anything.
pub proof fn law_an_arrival_is_collected_with_its_own_amount(
    receiving: ReceiveView,
    event: Event,
    now_ns: int,
)
    ensures
        ({
            let received = receiving.after(event, now_ns).received;
            &&& event matches Event::PaymentReceived { payment_hash, amount_msat } ==> {
                &&& received.len() == receiving.received.len() + 1
                &&& received.drop_last() == receiving.received
                &&& received.last().payment_hash == text::hex(payment_hash.0@)
                &&& amount_msat <= 0x7fff_ffff_ffff_ffff ==> received.last().amount == amount_msat
                &&& amount_msat > 0x7fff_ffff_ffff_ffff ==> received.last().amount == amount_msat
                    - 0x1_0000_0000_0000_0000
            }
            &&& event !is PaymentReceived ==> received == receiving.received
        }),
{
    if event is PaymentReceived {
        assert(receiving.after(event, now_ns).received.drop_last() =~= receiving.received);
    }
}

/// The amounts collected over a row of events are, in order, those of the payments that the
/// events report as arrived, and so are the hashes.
pub proof fn law_the_amounts_collected_are_those_that_arrived(
    start: ReceiveView,
    events: Seq<(Event, int)>,
)
    requires
        forall|i: int|
            0 <= i < events.len() && (#[trigger] events[i]).0 is PaymentReceived
                ==> events[i].0->PaymentReceived_amount_msat <= 0x7fff_ffff_ffff_ffff,
    ensures
        ({
            let arrivals = events.filter(|event: (Event, int)| event.0 is PaymentReceived);
            let received = replay(start, events).received;
            &&& received.map_values(|payment: ReceivedPaymentView| payment.amount)
                == start.received.map_values(|payment: ReceivedPaymentView| payment.amount)
                + arrivals.map_values(
                |event: (Event, int)| event.0->PaymentReceived_amount_msat as int,
            )
            &&& received.map_values(|payment: ReceivedPaymentView| payment.payment_hash)
                == start.received.map_values(|payment: ReceivedPaymentView| payment.payment_hash)
                + arrivals.map_values(
                |event: (Event, int)| text::hex(event.0->PaymentReceived_payment_hash.0@),
            )
        }),
    decreases events.len(),
{
    reveal(Seq::filter);
    let is_arrival = |event: (Event, int)| event.0 is PaymentReceived;
    let amount = |payment: ReceivedPaymentView| payment.amount;
    let hash = |payment: ReceivedPaymentView| payment.payment_hash;
    let event_amount = |event: (Event, int)| event.0->PaymentReceived_amount_msat as int;
    let event_hash = |event: (Event, int)| text::hex(event.0->PaymentReceived_payment_hash.0@);
    let arrivals = events.filter(is_arrival);
    let received = replay(start, events).received;
    if events.len() == 0 {
        assert(arrivals =~= Seq::empty());
        assert(received.map_values(amount) =~= start.received.map_values(amount)
            + arrivals.map_values(event_amount));
        assert(received.map_values(hash) =~= start.received.map_values(hash) + arrivals.map_values(
            event_hash,
        ));
    } else {
        let rest = events.drop_last();
        let last = events.last();
        assert(events[events.len() - 1] == last);
        assert forall|i: int|
            0 <= i < rest.len() && (#[trigger] rest[i]).0 is PaymentReceived implies rest[i].0->PaymentReceived_amount_msat
            <= 0x7fff_ffff_ffff_ffff by {
            assert(events[i] == rest[i]);
        }
        law_the_amounts_collected_are_those_that_arrived(start, rest);
        let before = replay(start, rest);
        law_an_arrival_is_collected_with_its_own_amount(before, last.0, last.1);
        let earlier = rest.filter(is_arrival);
        if last.0 is PaymentReceived {
            assert(received =~= before.received.push(received.last()));
            assert(arrivals =~= earlier.push(last));
            assert(received.map_values(amount) =~= before.received.map_values(amount).push(
                received.last().amount,
            ));
            assert(received.map_values(hash) =~= before.received.map_values(hash).push(
                received.last().payment_hash,
            ));
            assert(arrivals.map_values(event_amount) =~= earlier.map_values(event_amount).push(
                event_amount(last),
            ));
            assert(arrivals.map_values(event_hash) =~= earlier.map_values(event_hash).push(
                event_hash(last),
            ));
        } else {
            assert(arrivals =~= earlier);
        }
        assert(received.map_values(amount) =~= start.received.map_values(amount)
            + arrivals.map_values(event_amount));
        assert(received.map_values(hash) =~= start.received.map_values(hash) + arrivals.map_values(
            event_hash,
        ));
    }
}

/// What an event does to the claims: after one that can be claimed that claim is under way, after
/// an arrival or a failure with its hash it is not, and every other claim is as it was.
pub proof fn law_an_event_touches_only_its_own_claim(
    receiving: ReceiveView,
    event: Event,
    now_ns: int,
    hash: Seq<u8>,
)
    ensures
        ({
            let pending = receiving.after(event, now_ns).pending;
            let named = match event {
                Event::PaymentClaimable { payment_hash, .. } => Some(payment_hash.0@),
                Event::PaymentReceived { payment_hash, .. } => Some(payment_hash.0@),
                Event::PaymentFailed { payment_hash: Some(payment_hash), .. } => Some(
                    payment_hash.0@,
                ),
                _ => None,
            };
            &&& named == Some(hash) ==> (pending.contains(hash) <==> event is PaymentClaimable)
            &&& named != Some(hash) ==> (pending.contains(hash) <==> receiving.pending.contains(
                hash,
            ))
        }),
{
}

/// Every event, whatever it is, starts the quiet time anew, and none changes the thresholds.
pub proof fn law_every_event_breaks_the_quiet(receiving: ReceiveView, event: Event, now_ns: int)
    ensures
        receiving.after(event, now_ns).last_event_ns == now_ns,
        receiving.after(event, now_ns).min_threshold_ms == receiving.min_threshold_ms,
        receiving.after(event, now_ns).quiet_threshold_ms == receiving.quiet_threshold_ms,
{
}

/// Receiving finishes exactly when no claim is under way, as many milliseconds have passed as the
/// caller wants at least, and as many since the last event as the caller wants it quiet. It gives
/// up exactly when it cannot finish and 60 seconds have passed.
pub proof fn law_receiving_ends_by_the_thresholds(receiving: ReceiveView, now_ns: u128)
    requires
        0 <= receiving.last_event_ns <= now_ns,
        now_ns < 0x8000_0000_0000_0000 * 1_000_000,
    ensures
        ({
            let complete = (forall|hash: Seq<u8>| !#[trigger] receiving.pending.contains(hash))
                && now_ns as int / 1_000_000 >= receiving.min_threshold_ms && (now_ns
                - receiving.last_event_ns) / 1_000_000 >= receiving.quiet_threshold_ms;
            &&& receiving.step(now_ns as int) is Finish <==> complete
            &&& receiving.step(now_ns as int) is TimedOut <==> !complete && now_ns as int
                / 1_000_000 >= 60_000
        }),
{
    if receiving.pending.is_empty() {
        assert(receiving.pending =~= Set::empty());
    } else if forall|hash: Seq<u8>| !#[trigger] receiving.pending.contains(hash) {
        assert(receiving.pending =~= Set::empty());
    }
}

/// A payment that was collected is seen as it is.
pub proof fn law_received_payments_are_seen_as_they_are(payment: ReceivedPayment)
    ensures
        payment@.payment_hash == payment.payment_hash@,
        payment@.amount == payment.amount,
{
}

} // verus!
