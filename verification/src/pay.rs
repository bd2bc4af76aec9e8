//! Paying a target: what has to be in place, what is sent, and what the caller is told.

use vstd::prelude::*;

use crate::channel;
use crate::channel::ChannelDetails;
use crate::error::Error;
use crate::event::PaymentId;
use crate::invoice::InvoiceView;
use crate::ldk;
use crate::resolve;
use crate::resolve::{PaymentInstructions, PaymentMethod, PaymentTarget, PaymentTargetView, ResolutionView};
use crate::session;
use crate::session::{Ending, NodeCall, Operation};
use crate::text;

verus! {

/// What the node is told to send.
#[derive(PartialEq, Eq, Debug)]
pub enum Sending {
    Bolt11 { bolt11: String, amount_msat: u64 },
    Bolt12 { offer: String, amount_msat: u64, payer_note: String },
}

pub enum SendingView {
    Bolt11 { bolt11: Seq<char>, amount_msat: u64 },
    Bolt12 { offer: Seq<char>, amount_msat: u64, payer_note: Seq<char> },
}

impl View for Sending {
    type V = SendingView;

    open spec fn view(&self) -> SendingView {
        match self {
            Sending::Bolt11 { bolt11, amount_msat } => SendingView::Bolt11 {
                bolt11: bolt11@,
                amount_msat: *amount_msat,
            },
            Sending::Bolt12 { offer, amount_msat, payer_note } => SendingView::Bolt12 {
                offer: offer@,
                amount_msat: *amount_msat,
                payer_note: payer_note@,
            },
        }
    }
}

impl SendingView {
    pub open spec fn amount_msat(self) -> u64 {
        match self {
            SendingView::Bolt11 { amount_msat, .. } => amount_msat,
            SendingView::Bolt12 { amount_msat, .. } => amount_msat,
        }
    }
}

/// What has just been done for a payment, and what came of it.
#[derive(PartialEq, Eq, Debug)]
pub enum PayProgress {
    /// Nothing yet.
    Begun,
    /// The whole network graph was fetched: as of this time, or not at all.
    RgsSynced(Result<u32, String>),
    /// The wait for usable channels is over, and these are the channels.
    ChannelsAwaited(Vec<ChannelDetails>),
    /// The node was told to send.
    Sent(Result<PaymentId, String>),
    /// The wait for the outcome is over.
    OutcomeAwaited(PaymentId, Result<(), Error>),
}

/// What is to be done next for a payment.
#[derive(PartialEq, Eq, Debug)]
pub enum PayStep {
    /// Fetch the whole network graph.
    SyncRgs,
    /// Wait until the channels are usable, and list them.
    AwaitChannels,
    Send(Sending),
    AwaitOutcome { payment_id: PaymentId, timeout_secs: u64 },
    /// Tell the caller the identifier of the payment, or why there is none.
    Return(Result<String, Error>),
}

pub enum PayStepView {
    SyncRgs,
    AwaitChannels,
    Send(SendingView),
    AwaitOutcome { payment_id: PaymentId, timeout_secs: u64 },
    Return(Result<Seq<char>, Error>),
}

impl View for PayStep {
    type V = PayStepView;

    open spec fn view(&self) -> PayStepView {
        match self {
            PayStep::SyncRgs => PayStepView::SyncRgs,
            PayStep::AwaitChannels => PayStepView::AwaitChannels,
            PayStep::Send(sending) => PayStepView::Send(sending@),
            PayStep::AwaitOutcome { payment_id, timeout_secs } => PayStepView::AwaitOutcome {
                payment_id: *payment_id,
                timeout_secs: *timeout_secs,
            },
            PayStep::Return(Ok(payment_id)) => PayStepView::Return(Ok(payment_id@)),
            PayStep::Return(Err(error)) => PayStepView::Return(Err(*error)),
        }
    }
}

/// What is sent to pay a target. The recipient of an offer is given a note.
pub open spec fn sending_of(target: PaymentTargetView) -> SendingView {
    match target {
        PaymentTargetView::Bolt11(invoice, amount_msat) => SendingView::Bolt11 {
            bolt11: invoice.bolt11,
            amount_msat,
        },
        PaymentTargetView::Bolt12(offer, amount_msat) => SendingView::Bolt12 {
            offer,
            amount_msat,
            payer_note: "A payment by MoneyDevKit"@,
        },
    }
}

/// What is to be done next. An offer is asked for its invoice by onion messages, which need
/// routes: so the network graph is fetched first, and it does no harm if that fails. Nothing is
/// sent unless the usable channels together can send the amount.
pub open spec fn pay_step(
    target: PaymentTargetView,
    wait_secs: Option<u64>,
    progress: PayProgress,
) -> PayStepView {
    match progress {
        PayProgress::Begun => if target is Bolt12 {
            PayStepView::SyncRgs
        } else {
            PayStepView::AwaitChannels
        },
        PayProgress::RgsSynced(_) => PayStepView::AwaitChannels,
        PayProgress::ChannelsAwaited(channels) => if channel::usable_outbound(channels@)
            < target.amount_msat() {
            PayStepView::Return(
                Err(
                    Error::InsufficientCapacity {
                        required_msat: target.amount_msat(),
                        available_msat: channel::usable_outbound(channels@) as u64,
                    },
                ),
            )
        } else {
            PayStepView::Send(sending_of(target))
        },
        PayProgress::Sent(Err(failure)) => PayStepView::Return(Err(Error::SendPayment(failure))),
        PayProgress::Sent(Ok(payment_id)) => match wait_secs {
            Some(timeout_secs) => PayStepView::AwaitOutcome { payment_id, timeout_secs },
            None => PayStepView::Return(Ok(text::hex(payment_id@))),
        },
        PayProgress::OutcomeAwaited(_, Err(error)) => PayStepView::Return(Err(error)),
        PayProgress::OutcomeAwaited(payment_id, Ok(_)) => PayStepView::Return(
            Ok(text::hex(payment_id@)),
        ),
    }
}

fn sending(target: &PaymentTarget) -> (res: Sending)
    ensures
        res@ == sending_of(target@),
{
    match target {
        PaymentTarget::Bolt11(invoice, amount_msat) => Sending::Bolt11 {
            bolt11: invoice.bolt11.clone(),
            amount_msat: *amount_msat,
        },
        PaymentTarget::Bolt12(offer, amount_msat) => Sending::Bolt12 {
            offer: offer.clone(),
            amount_msat: *amount_msat,
            payer_note: "A payment by MoneyDevKit".to_string(),
        },
    }
}

/// Decides what is to be done next for a payment.
pub fn execute_payment(
    target: &PaymentTarget,
    wait_secs: Option<u64>,
    progress: PayProgress,
) -> (res: PayStep)
    requires
        progress matches PayProgress::ChannelsAwaited(channels) ==> channel::usable_outbound(
            channels@,
        ) <= u64::MAX,
    ensures
        res@ == pay_step(target@, wait_secs, progress),
{
    match progress {
        PayProgress::Begun => match target {
            PaymentTarget::Bolt11(_, _) => PayStep::AwaitChannels,
            PaymentTarget::Bolt12(_, _) => PayStep::SyncRgs,
        },
        PayProgress::RgsSynced(_) => PayStep::AwaitChannels,
        PayProgress::ChannelsAwaited(channels) => {
            let available_msat = channel::usable_outbound_capacity_msat(&channels);
            let required_msat = target.amount_msat();
            if available_msat < required_msat {
                PayStep::Return(Err(Error::InsufficientCapacity { required_msat, available_msat }))
            } else {
                PayStep::Send(sending(target))
            }
        },
        PayProgress::Sent(sent) => match sent {
            Err(failure) => PayStep::Return(Err(Error::SendPayment(failure))),
            Ok(payment_id) => match wait_secs {
                Some(timeout_secs) => PayStep::AwaitOutcome { payment_id, timeout_secs },
                None => PayStep::Return(Ok(text::bytes_to_hex(&payment_id.0))),
            },
        },
        PayProgress::OutcomeAwaited(payment_id, outcome) => match outcome {
            Err(error) => PayStep::Return(Err(error)),
            Ok(_) => PayStep::Return(Ok(text::bytes_to_hex(&payment_id.0))),
        },
    }
}

/// What everything that is done for a payment would come to.
pub struct PayReplies {
    pub rgs: Result<u32, String>,
    pub channels: Vec<ChannelDetails>,
    pub sent: Result<PaymentId, String>,
    pub outcome: Result<(), Error>,
}

/// What has been done once a step is taken: nothing more where the step was to return.
pub open spec fn progress_after(step: PayStepView, replies: PayReplies) -> Option<PayProgress> {
    match step {
        PayStepView::SyncRgs => Some(PayProgress::RgsSynced(replies.rgs)),
        PayStepView::AwaitChannels => Some(PayProgress::ChannelsAwaited(replies.channels)),
        PayStepView::Send(_) => Some(PayProgress::Sent(replies.sent)),
        PayStepView::AwaitOutcome { payment_id, .. } => Some(
            PayProgress::OutcomeAwaited(payment_id, replies.outcome),
        ),
        PayStepView::Return(_) => None,
    }
}

/// How many steps there can still be after this one.
pub open spec fn steps_left(progress: PayProgress) -> nat {
    match progress {
        PayProgress::Begun => 4,
        PayProgress::RgsSynced(_) => 3,
        PayProgress::ChannelsAwaited(_) => 2,
        PayProgress::Sent(_) => 1,
        PayProgress::OutcomeAwaited(_, _) => 0,
    }
}

/// The steps of a payment from a point on.
pub open spec fn steps_from(
    target: PaymentTargetView,
    wait_secs: Option<u64>,
    replies: PayReplies,
    progress: PayProgress,
) -> Seq<PayStepView>
    decreases steps_left(progress),
{
    let step = pay_step(target, wait_secs, progress);
    match progress_after(step, replies) {
        None => seq![step],
        Some(next) => seq![step] + steps_from(target, wait_secs, replies, next),
    }
}

/// The steps of a payment, in order.
pub open spec fn steps(
    target: PaymentTargetView,
    wait_secs: Option<u64>,
    replies: PayReplies,
) -> Seq<PayStepView> {
    steps_from(target, wait_secs, replies, PayProgress::Begun)
}

/// The steps of a payment are always these: the network graph is fetched where an offer is paid,
/// the channels are awaited, the payment is sent where they suffice, the outcome is awaited
/// where it was sent and the caller wants to know, and then the caller is told.
pub proof fn law_the_steps_of_a_payment(
    target: PaymentTargetView,
    wait_secs: Option<u64>,
    replies: PayReplies,
)
    ensures
        ({
            let suffices = channel::usable_outbound(replies.channels@) >= target.amount_msat();
            let ready = if target is Bolt12 {
                seq![PayStepView::SyncRgs, PayStepView::AwaitChannels]
            } else {
                seq![PayStepView::AwaitChannels]
            };
            let rest = if !suffices {
                seq![pay_step(target, wait_secs, PayProgress::ChannelsAwaited(replies.channels))]
            } else if replies.sent is Ok && wait_secs is Some {
                seq![
                    PayStepView::Send(sending_of(target)),
                    PayStepView::AwaitOutcome {
                        payment_id: replies.sent->Ok_0,
                        timeout_secs: wait_secs->0,
                    },
                    pay_step(
                        target,
                        wait_secs,
                        PayProgress::OutcomeAwaited(replies.sent->Ok_0, replies.outcome),
                    ),
                ]
            } else {
                seq![
                    PayStepView::Send(sending_of(target)),
                    pay_step(target, wait_secs, PayProgress::Sent(replies.sent)),
                ]
            };
            &&& steps(target, wait_secs, replies) == ready + rest
            &&& steps(target, wait_secs, replies).last() is Return
        }),
{
    reveal_with_fuel(steps_from, 6);
    let suffices = channel::usable_outbound(replies.channels@) >= target.amount_msat();
    let awaited = PayProgress::ChannelsAwaited(replies.channels);
    let sent = PayProgress::Sent(replies.sent);
    let rest = steps_from(target, wait_secs, replies, awaited);
    if !suffices {
        assert(rest =~= seq![pay_step(target, wait_secs, awaited)]);
    } else if replies.sent is Ok && wait_secs is Some {
        let outcome = PayProgress::OutcomeAwaited(replies.sent->Ok_0, replies.outcome);
        assert(steps_from(target, wait_secs, replies, outcome) =~= seq![
            pay_step(target, wait_secs, outcome),
        ]);
        assert(rest =~= seq![
            PayStepView::Send(sending_of(target)),
            pay_step(target, wait_secs, sent),
            pay_step(target, wait_secs, outcome),
        ]);
    } else {
        assert(rest =~= seq![
            PayStepView::Send(sending_of(target)),
            pay_step(target, wait_secs, sent),
        ]);
    }
    if target is Bolt12 {
        assert(steps(target, wait_secs, replies) =~= seq![
            PayStepView::SyncRgs,
            PayStepView::AwaitChannels,
        ] + rest);
    } else {
        assert(steps(target, wait_secs, replies) =~= seq![PayStepView::AwaitChannels] + rest);
    }
}

/// Something is sent only once the usable channels are known to be able to send it, and what is
/// sent is the amount of the target.
pub proof fn law_nothing_is_sent_beyond_the_capacity(
    target: PaymentTargetView,
    wait_secs: Option<u64>,
    progress: PayProgress,
)
    requires
        pay_step(target, wait_secs, progress) is Send,
    ensures
        progress matches PayProgress::ChannelsAwaited(channels) && channel::usable_outbound(channels@)
            >= target.amount_msat(),
        pay_step(target, wait_secs, progress)->Send_0.amount_msat() == target.amount_msat(),
{
}

/// The caller is given an identifier only of a payment that the node has sent, and different
/// payments never have the same one.
pub proof fn law_the_identifier_is_that_of_the_payment(
    target: PaymentTargetView,
    wait_secs: Option<u64>,
    replies: PayReplies,
)
    requires
        steps(target, wait_secs, replies).last() matches PayStepView::Return(Ok(_)),
    ensures
        replies.sent is Ok,
        steps(target, wait_secs, replies).last() == PayStepView::Return(
            Ok(text::hex(replies.sent->Ok_0@)),
        ),
        forall|other: PaymentId|
            text::hex(#[trigger] other@) == text::hex(replies.sent->Ok_0@) ==> other@
                == replies.sent->Ok_0@,
{
    law_the_steps_of_a_payment(target, wait_secs, replies);
    assert forall|other: PaymentId|
        text::hex(#[trigger] other@) == text::hex(replies.sent->Ok_0@) implies other@
        == replies.sent->Ok_0@ by {
        text::law_hex_is_injective(other@, replies.sent->Ok_0@);
    }
}

/// What the caller of a payment is told once it has ended, from what carrying it out gave where
/// the node was put to work: nothing is told of an ending that a payment never has.
pub open spec fn told_of(ending: Ending, executed: Option<Result<Seq<char>, Error>>) -> Option<
    Result<Seq<char>, Error>,
> {
    match ending {
        Ending::Completed => executed,
        Ending::Failed(error) => Some(Err(error)),
        Ending::Skipped => None,
        Ending::Panicked(_) => None,
    }
}

/// What carrying out a payment gave, with its text by its characters.
pub open spec fn executed_view(executed: Option<Result<String, Error>>) -> Option<
    Result<Seq<char>, Error>,
> {
    match executed {
        Some(Ok(payment_id)) => Some(Ok(payment_id@)),
        Some(Err(error)) => Some(Err(error)),
        None => None,
    }
}

/// Decides what the caller of a payment is told once it has ended.
pub fn pay_result(ending: Ending, executed: Option<Result<String, Error>>) -> (res: Option<
    Result<String, Error>,
>)
    ensures
        executed_view(res) == told_of(ending, executed_view(executed)),
{
    match ending {
        Ending::Completed => executed,
        Ending::Failed(error) => Some(Err(error)),
        Ending::Skipped => None,
        Ending::Panicked(_) => None,
    }
}

/// What a payment comes to, once its destination was resolved or not: the failure to resolve it,
/// or what the last step returns.
pub open spec fn payment_result(
    resolved: Result<(PaymentTargetView, Option<u64>), Error>,
    replies: PayReplies,
) -> Result<Seq<char>, Error> {
    match resolved {
        Err(error) => Err(error),
        Ok((target, wait_secs)) => steps(target, wait_secs, replies).last()->Return_0,
    }
}

/// Whether a destination was resolved.
pub open spec fn resolution_of(resolved: Result<(PaymentTargetView, Option<u64>), Error>) -> Result<
    (),
    Error,
> {
    match resolved {
        Ok(_) => Ok(()),
        Err(error) => Err(error),
    }
}

/// What the caller of a payment is told, from the destination as it was resolved, how each call
/// of the node goes and what everything that is done for the payment comes to.
pub open spec fn told(
    operation: Operation,
    resolved: Result<(PaymentTargetView, Option<u64>), Error>,
    outcomes: Seq<Result<(), String>>,
    replies: PayReplies,
) -> Option<Result<Seq<char>, Error>> {
    let resolution = resolution_of(resolved);
    let executed = if session::calls(operation, resolution, outcomes).contains(NodeCall::Work) {
        Some(payment_result(resolved, replies))
    } else {
        None
    };
    match session::ending(operation, resolution, outcomes) {
        Some(ending) => told_of(ending, executed),
        None => None,
    }
}

/// Paying with a node that is running already comes to the same as paying with one that starts
/// and can be brought up to date, be it an identifier or a failure, and whether that one can be
/// stopped again or not. A running node is never started, brought up to date or stopped for it.
pub proof fn law_paying_while_running_comes_to_the_same(
    parsed: Result<PaymentInstructions, String>,
    answer: Result<Vec<PaymentMethod>, String>,
    amount_msat: Option<i64>,
    wait_for_payment_secs: Option<i64>,
    outcomes: Seq<Result<(), String>>,
    outcomes_while_running: Seq<Result<(), String>>,
    replies: PayReplies,
)
    requires
        outcomes.len() >= 4,
        outcomes[0] is Ok,
        outcomes[1] is Ok,
        outcomes_while_running.len() >= 1,
    ensures
        ({
            let resolved = resolve::resolved(parsed, answer, amount_msat, wait_for_payment_secs);
            let paid = payment_result(resolved, replies);
            &&& told(Operation::Pay, resolved, outcomes, replies) == Some(paid)
            &&& told(Operation::PayWhileRunning, resolved, outcomes_while_running, replies) == Some(
                paid,
            )
            &&& session::calls(
                Operation::PayWhileRunning,
                resolution_of(resolved),
                outcomes_while_running,
            ) == if resolved is Ok {
                seq![NodeCall::Work]
            } else {
                seq![]
            }
        }),
{
    let resolved = resolve::resolved(parsed, answer, amount_msat, wait_for_payment_secs);
    let resolution = resolution_of(resolved);
    session::law_a_running_node_is_only_put_to_work(
        Operation::PayWhileRunning,
        resolution,
        outcomes_while_running,
    );
    if let Err(error) = resolved {
        session::law_an_unresolved_destination_leaves_the_node_alone(
            Operation::Pay,
            error,
            outcomes,
        );
    } else {
        session::law_work_is_between_start_and_stop(Operation::Pay, resolution, outcomes);
        session::law_a_failed_stop_does_not_lose_the_result(Operation::Pay, resolution, outcomes);
        assert(session::calls(Operation::Pay, resolution, outcomes)[2] == NodeCall::Work);
        assert(session::calls(
            Operation::PayWhileRunning,
            resolution,
            outcomes_while_running,
        )[0] == NodeCall::Work);
    }
}

/// A payment always tells its caller something, whatever the node and the network do.
pub proof fn law_a_payment_is_always_answered(
    operation: Operation,
    resolved: Result<(PaymentTargetView, Option<u64>), Error>,
    outcomes: Seq<Result<(), String>>,
    replies: PayReplies,
)
    requires
        session::has_destination(operation),
        outcomes.len() >= 4,
    ensures
        told(operation, resolved, outcomes, replies) is Some,
{
    let resolution = resolution_of(resolved);
    if let Err(error) = resolved {
        session::law_an_unresolved_destination_leaves_the_node_alone(operation, error, outcomes);
    } else if operation is PayWhileRunning {
        session::law_a_running_node_is_only_put_to_work(operation, resolution, outcomes);
        assert(session::calls(operation, resolution, outcomes)[0] == NodeCall::Work);
    } else {
        session::law_work_is_between_start_and_stop(operation, resolution, outcomes);
        if outcomes[0] is Ok && outcomes[1] is Ok {
            session::law_a_failed_stop_does_not_lose_the_result(operation, resolution, outcomes);
            assert(session::calls(operation, resolution, outcomes)[2] == NodeCall::Work);
        } else {
            reveal_with_fuel(session::ending_from, 5);
            assert(outcomes.drop_first()[0] == outcomes[1]);
        }
    }
}

/// Whether what is sent can be read: as an invoice or as an offer.
pub open spec fn can_be_read(sending: SendingView) -> bool {
    match sending {
        SendingView::Bolt11 { bolt11, .. } => ldk::bolt11_invoice(bolt11) is Some,
        SendingView::Bolt12 { offer, .. } => ldk::is_offer(offer),
    }
}

/// To a destination that names its amount, that amount is sent and no other, with a text that
/// can be read.
pub proof fn law_a_fixed_amount_is_sent(
    ln_amount_msat: Option<u64>,
    methods: Vec<PaymentMethod>,
    asked: Option<i64>,
    secs: Option<i64>,
)
    ensures
        resolve::resolution(
            Ok(PaymentInstructions::FixedAmount { ln_amount_msat, methods }),
            asked,
            secs,
        ) matches Ok(ResolutionView::Resolved(target, _)) ==> {
            &&& ln_amount_msat == Some(sending_of(target).amount_msat())
            &&& can_be_read(sending_of(target))
        },
{
    if let Some(amount_msat) = ln_amount_msat {
        resolve::law_what_is_paid_was_read(methods@, amount_msat);
    }
    resolve::law_a_fixed_amount_is_kept(ln_amount_msat, methods, asked, asked, secs);
}

/// To a destination that was asked for an amount, that amount is sent and no other, whatever the
/// destination answered. The text that is sent can be read, and an invoice reads as one of that
/// amount or of none.
pub proof fn law_the_amount_asked_for_is_sent(
    answer: Result<Vec<PaymentMethod>, String>,
    amount_msat: u64,
)
    ensures
        resolve::configurable_resolution(answer, amount_msat) matches Ok(target) ==> {
            &&& sending_of(target).amount_msat() == amount_msat
            &&& can_be_read(sending_of(target))
            &&& sending_of(target) matches SendingView::Bolt11 { bolt11, .. } ==> (
            ldk::bolt11_invoice(bolt11)->0.amount_msat is None || ldk::bolt11_invoice(
                bolt11,
            )->0.amount_msat == Some(amount_msat))
        },
{
    if let Ok(methods) = answer {
        resolve::law_what_is_paid_was_read(methods@, amount_msat);
    }
    resolve::law_no_other_amount_is_paid(answer, amount_msat);
}

/// What is done for a payment, step by step. An invoice needs no network graph and an offer does,
/// fetched or not. Then the capacity decides: less than the amount is refused with both numbers,
/// and anything else is enough to send the amount with the text of the invoice, or with that of
/// the offer and a note. Then the outcome is awaited for as long as the caller wants, and the
/// identifier of the payment is told, or what went wrong.
pub proof fn law_what_is_done_step_by_step(
    invoice: InvoiceView,
    offer: Seq<char>,
    amount_msat: u64,
    wait_secs: Option<u64>,
    synced: Result<u32, String>,
    channels: Vec<ChannelDetails>,
    failure: String,
    payment_id: PaymentId,
    error: Error,
)
    ensures
        ({
            let to_invoice = PaymentTargetView::Bolt11(invoice, amount_msat);
            let to_offer = PaymentTargetView::Bolt12(offer, amount_msat);
            let available = channel::usable_outbound(channels@);
            let listed = PayProgress::ChannelsAwaited(channels);
            let identifier = PayStepView::Return(Ok(text::hex(payment_id.0@)));
            &&& pay_step(to_invoice, wait_secs, PayProgress::Begun) == PayStepView::AwaitChannels
            &&& pay_step(to_offer, wait_secs, PayProgress::Begun) == PayStepView::SyncRgs
            &&& available >= amount_msat ==> pay_step(to_invoice, wait_secs, listed)
                == PayStepView::Send(SendingView::Bolt11 { bolt11: invoice.bolt11, amount_msat })
            &&& available >= amount_msat ==> pay_step(to_offer, wait_secs, listed)
                == PayStepView::Send(
                SendingView::Bolt12 {
                    offer,
                    amount_msat,
                    payer_note: "A payment by MoneyDevKit"@,
                },
            )
            &&& forall|target: PaymentTargetView|
                target == to_invoice || target == to_offer ==> {
                    &&& #[trigger] pay_step(target, wait_secs, PayProgress::RgsSynced(synced))
                        == PayStepView::AwaitChannels
                    &&& available < amount_msat ==> {
                        &&& pay_step(target, wait_secs, listed) matches PayStepView::Return(
                            Err(Error::InsufficientCapacity { required_msat, available_msat }),
                        )
                        &&& required_msat == amount_msat
                        &&& available_msat == available
                    }
                    &&& pay_step(target, wait_secs, PayProgress::Sent(Err(failure)))
                        == PayStepView::Return(Err(Error::SendPayment(failure)))
                    &&& pay_step(target, wait_secs, PayProgress::Sent(Ok(payment_id))) == (
                    match wait_secs {
                        Some(timeout_secs) => PayStepView::AwaitOutcome { payment_id, timeout_secs },
                        None => identifier,
                    })
                    &&& pay_step(
                        target,
                        wait_secs,
                        PayProgress::OutcomeAwaited(payment_id, Err(error)),
                    ) == PayStepView::Return(Err(error))
                    &&& pay_step(
                        target,
                        wait_secs,
                        PayProgress::OutcomeAwaited(payment_id, Ok(())),
                    ) == identifier
                }
        }),
{
}

/// What the caller of a payment is told: what carrying it out gave where the payment completed,
/// and the failure where it failed.
pub proof fn law_the_caller_is_told_what_came_of_it(
    executed: Option<Result<Seq<char>, Error>>,
    error: Error,
    payment_id: String,
)
    ensures
        told_of(Ending::Completed, executed) == executed,
        told_of(Ending::Failed(error), executed) == Some(Err::<Seq<char>, Error>(error)),
        executed_view(Some(Ok(payment_id))) == Some(Ok::<Seq<char>, Error>(payment_id@)),
        executed_view(Some(Err(error))) == Some(Err::<Seq<char>, Error>(error)),
        executed_view(None) is None,
{
}

/// What is sent and what is done next are seen as they are.
pub proof fn law_steps_are_seen_as_they_are(
    text: String,
    payer_note: String,
    amount_msat: u64,
    sending: Sending,
    payment_id: PaymentId,
    timeout_secs: u64,
    error: Error,
)
    ensures
        (Sending::Bolt11 { bolt11: text, amount_msat })@ == (SendingView::Bolt11 {
            bolt11: text@,
            amount_msat,
        }),
        (Sending::Bolt12 { offer: text, amount_msat, payer_note })@ == (SendingView::Bolt12 {
            offer: text@,
            amount_msat,
            payer_note: payer_note@,
        }),
        (SendingView::Bolt11 { bolt11: text@, amount_msat }).amount_msat() == amount_msat,
        (SendingView::Bolt12 {
            offer: text@,
            amount_msat,
            payer_note: payer_note@,
        }).amount_msat() == amount_msat,
        PayStep::SyncRgs@ == PayStepView::SyncRgs,
        PayStep::AwaitChannels@ == PayStepView::AwaitChannels,
        PayStep::Send(sending)@ == PayStepView::Send(sending@),
        (PayStep::AwaitOutcome { payment_id, timeout_secs })@ == (PayStepView::AwaitOutcome {
            payment_id,
            timeout_secs,
        }),
        PayStep::Return(Ok(text))@ == PayStepView::Return(Ok(text@)),
        PayStep::Return(Err(error))@ == PayStepView::Return(Err(error)),
{
}

} // verus!
