use lightning_js::channel::ChannelDetails;
use lightning_js::error::{Error, Status};
use lightning_js::event::{FailureReason, PaymentId};
use lightning_js::invoice::Invoice;
use lightning_js::pay::{execute_payment, pay_result, PayProgress, PayStep, Sending};
use lightning_js::resolve::PaymentTarget;
use lightning_js::session::{
    after_resolve, begin, next_step, Beginning, Ending, NodeCall, Operation, Panic, SessionStep,
};

fn channel(outbound_capacity_msat: u64, is_usable: bool) -> ChannelDetails {
    ChannelDetails {
        channel_id: [0; 32],
        counterparty_node_id: String::new(),
        short_channel_id: None,
        inbound_capacity_msat: 0,
        outbound_capacity_msat,
        is_channel_ready: true,
        is_usable,
        is_announced: false,
    }
}

fn to_invoice(amount_msat: u64) -> PaymentTarget {
    let invoice = Invoice {
        bolt11: "lnbc".to_string(),
        payment_hash: "00".to_string(),
        amount_msat: None,
        expires_at: None,
        route_hints: vec![],
    };
    PaymentTarget::Bolt11(invoice, amount_msat)
}

fn to_offer(amount_msat: u64) -> PaymentTarget {
    PaymentTarget::Bolt12("lno".to_string(), amount_msat)
}

/// Takes the steps of a payment where everything comes to what is given, and lists them.
fn steps(
    target: &PaymentTarget,
    wait_secs: Option<u64>,
    channels: Vec<ChannelDetails>,
    sent: Result<PaymentId, String>,
    outcome: Result<(), Error>,
) -> Vec<PayStep> {
    let mut taken = Vec::new();
    let mut progress = PayProgress::Begun;
    loop {
        let step = execute_payment(target, wait_secs, progress);
        progress = match &step {
            PayStep::SyncRgs => PayProgress::RgsSynced(Err("offline".to_string())),
            PayStep::AwaitChannels => PayProgress::ChannelsAwaited(channels.clone()),
            PayStep::Send(_) => PayProgress::Sent(sent.clone()),
            PayStep::AwaitOutcome { payment_id, .. } => {
                PayProgress::OutcomeAwaited(*payment_id, outcome.clone())
            }
            PayStep::Return(_) => {
                taken.push(step);
                return taken;
            }
        };
        taken.push(step);
    }
}

#[test]
fn an_invoice_is_paid_over_usable_channels() {
    let taken = steps(
        &to_invoice(1_000),
        None,
        vec![channel(700, true), channel(300, true)],
        Ok(PaymentId([0xee; 32])),
        Ok(()),
    );
    assert_eq!(
        taken,
        vec![
            PayStep::AwaitChannels,
            PayStep::Send(Sending::Bolt11 { bolt11: "lnbc".to_string(), amount_msat: 1_000 }),
            PayStep::Return(Ok("ee".repeat(32))),
        ]
    );
}

#[test]
fn the_network_graph_is_fetched_before_an_offer_is_paid() {
    let taken = steps(
        &to_offer(5),
        Some(20),
        vec![channel(5, true)],
        Ok(PaymentId([1; 32])),
        Ok(()),
    );
    assert_eq!(
        taken,
        vec![
            PayStep::SyncRgs,
            PayStep::AwaitChannels,
            PayStep::Send(Sending::Bolt12 {
                offer: "lno".to_string(),
                amount_msat: 5,
                payer_note: "A payment by MoneyDevKit".to_string(),
            }),
            PayStep::AwaitOutcome { payment_id: PaymentId([1; 32]), timeout_secs: 20 },
            PayStep::Return(Ok("01".repeat(32))),
        ]
    );
}

#[test]
fn nothing_is_sent_beyond_the_capacity_of_usable_channels() {
    let channels = vec![channel(700, true), channel(9_000, false)];
    let mut taken = steps(&to_invoice(701), Some(1), channels, Ok(PaymentId([1; 32])), Ok(()));
    assert_eq!(taken.len(), 2);
    let Some(PayStep::Return(Err(error))) = taken.pop() else { panic!("no failure") };
    assert_eq!(error, Error::InsufficientCapacity { required_msat: 701, available_msat: 700 });
    assert_eq!(error.status(), Status::GenericFailure);
    assert_eq!(
        error.reason(),
        "insufficient outbound capacity: required 701msat, available 700msat"
    );
}

#[test]
fn without_channels_only_nothing_can_be_sent() {
    let taken = steps(&to_invoice(1), None, vec![], Ok(PaymentId([1; 32])), Ok(()));
    assert_eq!(taken.len(), 2);
    let taken = steps(&to_invoice(0), None, vec![], Ok(PaymentId([1; 32])), Ok(()));
    assert_eq!(taken.len(), 3);
}

#[test]
fn a_payment_that_cannot_be_sent_is_not_awaited() {
    let taken =
        steps(&to_invoice(1), Some(9), vec![channel(1, true)], Err("no route".to_string()), Ok(()));
    assert_eq!(taken.len(), 3);
    assert_eq!(
        taken[2],
        PayStep::Return(Err(Error::SendPayment("no route".to_string())))
    );
}

#[test]
fn a_payment_that_fails_is_told() {
    let failure = Error::PaymentFailed(Some(FailureReason::RetriesExhausted));
    let taken = steps(
        &to_invoice(1),
        Some(9),
        vec![channel(1, true)],
        Ok(PaymentId([1; 32])),
        Err(failure.clone()),
    );
    assert_eq!(taken.last(), Some(&PayStep::Return(Err(failure))));
}

/// Pays, with calls of the node that all go well, and gives its calls and what the caller is told.
fn paid(
    operation: Operation,
    resolved: Result<PaymentTarget, Error>,
    capacity_msat: u64,
) -> (Vec<NodeCall>, Option<Result<String, Error>>) {
    let mut calls = Vec::new();
    let mut executed = None;
    let mut target = None;
    let resolution = resolved.map(|found| target = Some(found));
    let mut step = match begin(operation) {
        Beginning::Resolve => after_resolve(operation, resolution),
        Beginning::Call(call, phase) => SessionStep::Call(call, phase),
    };
    loop {
        step = match step {
            SessionStep::Call(call, phase) => {
                calls.push(call);
                if call == NodeCall::Work {
                    let channels = vec![channel(capacity_msat, true)];
                    let id = Ok(PaymentId([5; 32]));
                    let last = steps(target.as_ref().unwrap(), None, channels, id, Ok(())).pop();
                    if let Some(PayStep::Return(result)) = last {
                        executed = Some(result);
                    }
                }
                next_step(operation, phase, Ok(()))
            }
            SessionStep::End(ending) => return (calls, pay_result(ending, executed)),
        };
    }
}

#[test]
fn paying_while_running_comes_to_the_same() {
    let cases: [(fn() -> Result<PaymentTarget, Error>, u64); 4] = [
        (|| Ok(to_invoice(10)), 10),
        (|| Ok(to_invoice(10)), 9),
        (|| Ok(to_offer(10)), 10),
        (|| Err(Error::AmountRequired), 10),
    ];
    for (resolve, capacity_msat) in cases {
        let (calls, told) = paid(Operation::Pay, resolve(), capacity_msat);
        let (calls_running, told_running) = paid(Operation::PayWhileRunning, resolve(), capacity_msat);
        assert_eq!(told, told_running);
        assert!(told.is_some());
        let resolved = resolve().is_ok();
        assert_eq!(calls.len(), if resolved { 4 } else { 0 });
        assert_eq!(calls_running, if resolved { vec![NodeCall::Work] } else { vec![] });
    }
}

#[test]
fn what_was_carried_out_is_told_where_the_payment_completed() {
    let done = || Some(Ok("05".to_string()));
    assert_eq!(pay_result(Ending::Completed, done()), done());
    let failure = Error::PaySync("e".to_string());
    assert_eq!(pay_result(Ending::Failed(failure.clone()), None), Some(Err(failure)));
    assert_eq!(pay_result(Ending::Skipped, done()), None);
    assert_eq!(pay_result(Ending::Panicked(Panic::Stop("e".to_string())), done()), None);
}
