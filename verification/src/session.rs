//! The life of the node around an operation: what has to be settled before it is started, in
//! which order it is started, brought up to date, put to work and stopped, and what becomes of a
//! failure on the way.

use vstd::prelude::*;

use crate::error::Error;

verus! {

/// What the caller asked for.
#[derive(Clone, Copy, PartialEq, Eq, Debug, Structural)]
pub enum Operation {
    Start,
    Stop,
    StartReceiving,
    StopReceiving,
    SyncWallets,
    GetBalance,
    ReceivePayment,
    GetInvoice,
    Pay,
    /// The balance of a node that is running already.
    GetBalanceWhileRunning,
    /// An invoice from a node that is running already.
    GetInvoiceWhileRunning,
    /// A payment by a node that is running already.
    PayWhileRunning,
}

/// What is done with the node.
#[derive(Clone, Copy, PartialEq, Eq, Debug, Structural)]
pub enum NodeCall {
    Start,
    SyncWallets,
    /// The work that the operation is for.
    Work,
    Stop,
}

/// Which call is under way.
#[derive(PartialEq, Eq, Debug)]
pub enum Phase {
    Starting,
    Syncing,
    Working,
    /// The node is at work, and was running before.
    WorkingAlone,
    Stopping,
    /// The node is being stopped because bringing it up to date failed with this.
    StoppingAfter(String),
}

/// A failure that is not returned but ends the process's work at once.
#[derive(PartialEq, Eq, Debug)]
pub enum Panic {
    Start(String),
    StartForInvoice(String),
    Sync(String),
    Stop(String),
}

/// How an operation ends.
#[derive(PartialEq, Eq, Debug)]
pub enum Ending {
    /// What the work gave is returned.
    Completed,
    /// There was no work, and what stands for none is returned.
    Skipped,
    Failed(Error),
    Panicked(Panic),
}

/// How an operation begins.
#[derive(PartialEq, Eq, Debug)]
pub enum Beginning {
    /// The destination of a payment is resolved, and the node left alone meanwhile.
    Resolve,
    Call(NodeCall, Phase),
}

/// What comes next.
#[derive(PartialEq, Eq, Debug)]
pub enum SessionStep {
    Call(NodeCall, Phase),
    End(Ending),
}

/// The text of a panic.
pub open spec fn panic_text(panic: Panic) -> Seq<char> {
    match panic {
        Panic::Start(detail) => "failed to start node: "@ + detail@,
        Panic::StartForInvoice(detail) => "failed to start node for get_invoice: "@ + detail@,
        Panic::Sync(detail) => "failed to sync wallets: "@ + detail@,
        Panic::Stop(detail) => "failed to stop node: "@ + detail@,
    }
}

impl Panic {
    /// The failure in words.
    pub fn message(&self) -> (res: String)
        ensures
            res@ == panic_text(*self),
    {
        let (what, detail) = match self {
            Panic::Start(detail) => ("failed to start node: ", detail),
            Panic::StartForInvoice(detail) => ("failed to start node for get_invoice: ", detail),
            Panic::Sync(detail) => ("failed to sync wallets: ", detail),
            Panic::Stop(detail) => ("failed to stop node: ", detail),
        };
        let mut res = what.to_string();
        res.append(detail);
        res
    }
}

/// How an operation ends whose node does not start.
pub open spec fn start_failure(operation: Operation, detail: String) -> Ending {
    match operation {
        Operation::StartReceiving => Ending::Failed(Error::StartReceiving(detail)),
        Operation::Pay => Ending::Failed(Error::PayStart(detail)),
        Operation::ReceivePayment => Ending::Skipped,
        Operation::GetInvoice => Ending::Panicked(Panic::StartForInvoice(detail)),
        _ => Ending::Panicked(Panic::Start(detail)),
    }
}

/// How an operation ends whose node cannot be brought up to date.
pub open spec fn sync_failure(operation: Operation, detail: String) -> Ending {
    match operation {
        Operation::StartReceiving => Ending::Failed(Error::SyncReceiving(detail)),
        Operation::Pay => Ending::Failed(Error::PaySync(detail)),
        _ => Ending::Panicked(Panic::Sync(detail)),
    }
}

/// How an operation ends whose node does not stop. Where the work is done its result is returned
/// all the same.
pub open spec fn stop_failure(operation: Operation, detail: String) -> Ending {
    match operation {
        Operation::ReceivePayment | Operation::GetInvoice | Operation::Pay => Ending::Completed,
        Operation::StopReceiving => Ending::Failed(Error::StopReceiving(detail)),
        _ => Ending::Panicked(Panic::Stop(detail)),
    }
}

/// Whether a node that cannot be brought up to date is stopped again.
pub open spec fn stops_after_failed_sync(operation: Operation) -> bool {
    operation is StartReceiving || operation is GetBalance || operation is Pay
}

/// Whether an operation is for a node that is running already.
pub open spec fn while_running(operation: Operation) -> bool {
    operation is GetBalanceWhileRunning || operation is GetInvoiceWhileRunning || operation
        is PayWhileRunning
}

/// Whether an operation has a destination.
pub open spec fn has_destination(operation: Operation) -> bool {
    operation is Pay || operation is PayWhileRunning
}

/// How an operation begins: a payment by resolving its destination, stopping by the call itself,
/// with a node that is running already by the work, and everything else by starting the node.
pub open spec fn beginning(operation: Operation) -> Beginning {
    match operation {
        Operation::Pay | Operation::PayWhileRunning => Beginning::Resolve,
        Operation::GetBalanceWhileRunning | Operation::GetInvoiceWhileRunning => Beginning::Call(
            NodeCall::Work,
            Phase::WorkingAlone,
        ),
        Operation::Stop | Operation::StopReceiving => Beginning::Call(
            NodeCall::Stop,
            Phase::Stopping,
        ),
        _ => Beginning::Call(NodeCall::Start, Phase::Starting),
    }
}

/// What follows the resolving of a destination: the node is started, or put to work where it is
/// running already, only for one that could be resolved, and the caller is told why another
/// could not.
pub open spec fn resolved_step(operation: Operation, resolution: Result<(), Error>) -> SessionStep {
    match resolution {
        Ok(_) => if while_running(operation) {
            SessionStep::Call(NodeCall::Work, Phase::WorkingAlone)
        } else {
            SessionStep::Call(NodeCall::Start, Phase::Starting)
        },
        Err(error) => SessionStep::End(Ending::Failed(error)),
    }
}

/// The first step of an operation, given what resolving its destination comes to where it has
/// one.
pub open spec fn first_step(operation: Operation, resolution: Result<(), Error>) -> SessionStep {
    match beginning(operation) {
        Beginning::Resolve => resolved_step(operation, resolution),
        Beginning::Call(call, phase) => SessionStep::Call(call, phase),
    }
}

/// What comes next, given how the call that is under way went. How the work went makes no
/// difference: the node is stopped after it, unless it was running before.
pub open spec fn session_step(
    operation: Operation,
    phase: Phase,
    outcome: Result<(), String>,
) -> SessionStep {
    match (phase, outcome) {
        (Phase::Starting, Err(detail)) => SessionStep::End(start_failure(operation, detail)),
        (Phase::Starting, Ok(_)) => if operation is Start {
            SessionStep::End(Ending::Completed)
        } else {
            SessionStep::Call(NodeCall::SyncWallets, Phase::Syncing)
        },
        (Phase::Syncing, Err(detail)) => if stops_after_failed_sync(operation) {
            SessionStep::Call(NodeCall::Stop, Phase::StoppingAfter(detail))
        } else {
            SessionStep::End(sync_failure(operation, detail))
        },
        (Phase::Syncing, Ok(_)) => if operation is StartReceiving {
            SessionStep::End(Ending::Completed)
        } else {
            SessionStep::Call(NodeCall::Work, Phase::Working)
        },
        (Phase::Working, _) => SessionStep::Call(NodeCall::Stop, Phase::Stopping),
        (Phase::WorkingAlone, _) => SessionStep::End(Ending::Completed),
        (Phase::Stopping, Err(detail)) => SessionStep::End(stop_failure(operation, detail)),
        (Phase::Stopping, Ok(_)) => SessionStep::End(Ending::Completed),
        (Phase::StoppingAfter(detail), _) => SessionStep::End(sync_failure(operation, detail)),
    }
}

fn after_start_failure(operation: Operation, detail: String) -> (res: Ending)
    ensures
        res == start_failure(operation, detail),
{
    match operation {
        Operation::StartReceiving => Ending::Failed(Error::StartReceiving(detail)),
        Operation::Pay => Ending::Failed(Error::PayStart(detail)),
        Operation::ReceivePayment => Ending::Skipped,
        Operation::GetInvoice => Ending::Panicked(Panic::StartForInvoice(detail)),
        _ => Ending::Panicked(Panic::Start(detail)),
    }
}

fn after_sync_failure(operation: Operation, detail: String) -> (res: Ending)
    ensures
        res == sync_failure(operation, detail),
{
    match operation {
        Operation::StartReceiving => Ending::Failed(Error::SyncReceiving(detail)),
        Operation::Pay => Ending::Failed(Error::PaySync(detail)),
        _ => Ending::Panicked(Panic::Sync(detail)),
    }
}

fn after_stop_failure(operation: Operation, detail: String) -> (res: Ending)
    ensures
        res == stop_failure(operation, detail),
{
    match operation {
        Operation::ReceivePayment | Operation::GetInvoice | Operation::Pay => Ending::Completed,
        Operation::StopReceiving => Ending::Failed(Error::StopReceiving(detail)),
        _ => Ending::Panicked(Panic::Stop(detail)),
    }
}

/// How an operation begins.
pub fn begin(operation: Operation) -> (res: Beginning)
    ensures
        res == beginning(operation),
{
    match operation {
        Operation::Pay | Operation::PayWhileRunning => Beginning::Resolve,
        Operation::GetBalanceWhileRunning | Operation::GetInvoiceWhileRunning => Beginning::Call(
            NodeCall::Work,
            Phase::WorkingAlone,
        ),
        Operation::Stop | Operation::StopReceiving => Beginning::Call(
            NodeCall::Stop,
            Phase::Stopping,
        ),
        _ => Beginning::Call(NodeCall::Start, Phase::Starting),
    }
}

/// Decides what follows the resolving of a destination.
pub fn after_resolve(operation: Operation, resolution: Result<(), Error>) -> (res: SessionStep)
    ensures
        res == resolved_step(operation, resolution),
{
    match resolution {
        Ok(_) => match operation {
            Operation::GetBalanceWhileRunning
            | Operation::GetInvoiceWhileRunning
            | Operation::PayWhileRunning => SessionStep::Call(NodeCall::Work, Phase::WorkingAlone),
            _ => SessionStep::Call(NodeCall::Start, Phase::Starting),
        },
        Err(error) => SessionStep::End(Ending::Failed(error)),
    }
}

/// Decides what comes next, given how the call that is under way went.
pub fn next_step(operation: Operation, phase: Phase, outcome: Result<(), String>) -> (res:
    SessionStep)
    ensures
        res == session_step(operation, phase, outcome),
{
    match phase {
        Phase::Starting => match outcome {
            Err(detail) => SessionStep::End(after_start_failure(operation, detail)),
            Ok(_) => match operation {
                Operation::Start => SessionStep::End(Ending::Completed),
                _ => SessionStep::Call(NodeCall::SyncWallets, Phase::Syncing),
            },
        },
        Phase::Syncing => match outcome {
            Err(detail) => match operation {
                Operation::StartReceiving | Operation::GetBalance | Operation::Pay => {
                    SessionStep::Call(NodeCall::Stop, Phase::StoppingAfter(detail))
                },
                _ => SessionStep::End(after_sync_failure(operation, detail)),
            },
            Ok(_) => match operation {
                Operation::StartReceiving => SessionStep::End(Ending::Completed),
                _ => SessionStep::Call(NodeCall::Work, Phase::Working),
            },
        },
        Phase::Working => SessionStep::Call(NodeCall::Stop, Phase::Stopping),
        Phase::WorkingAlone => SessionStep::End(Ending::Completed),
        Phase::Stopping => match outcome {
            Err(detail) => SessionStep::End(after_stop_failure(operation, detail)),
            Ok(_) => SessionStep::End(Ending::Completed),
        },
        Phase::StoppingAfter(detail) => SessionStep::End(after_sync_failure(operation, detail)),
    }
}

/// What is printed, before the failure itself, where a call of the node fails. The failures of a
/// payment, and those that are only returned, are not printed.
pub open spec fn failure_text(operation: Operation, call: NodeCall, phase: Phase) -> Option<
    Seq<char>,
> {
    match (call, operation) {
        (NodeCall::Start, Operation::Start) => Some("Failed to start node via start()"@),
        (NodeCall::Start, Operation::SyncWallets) => Some("Failed to start node via start()"@),
        (NodeCall::Start, Operation::GetBalance) => Some("Failed to start node via get_balance"@),
        (NodeCall::Start, Operation::StartReceiving) => Some("Failed to start node in start_receiving"@),
        (NodeCall::Start, Operation::ReceivePayment) => Some("Failed to start node in receive_payment"@),
        (NodeCall::Start, Operation::GetInvoice) => Some("Failed to start node for get_invoice"@),
        (NodeCall::SyncWallets, Operation::StartReceiving) => Some("Failed to sync wallets in start_receiving"@),
        (NodeCall::SyncWallets, Operation::GetBalance) => Some("Failed to sync wallets in get_balance"@),
        (NodeCall::SyncWallets, Operation::SyncWallets) => Some("Failed to sync wallets"@),
        (NodeCall::SyncWallets, Operation::ReceivePayment) => Some("Failed to sync wallets"@),
        (NodeCall::SyncWallets, Operation::GetInvoice) => Some("Failed to sync wallets"@),
        (NodeCall::Stop, Operation::Stop) => Some("Failed to stop node via stop()"@),
        (NodeCall::Stop, Operation::SyncWallets) => Some("Failed to stop node via stop()"@),
        (NodeCall::Stop, Operation::GetBalance) => if phase is StoppingAfter {
            Some("Failed to stop node after sync_wallets error in get_balance"@)
        } else {
            Some("Failed to stop node via stop() in get_balance"@)
        },
        (NodeCall::Stop, Operation::ReceivePayment) => Some("Failed to stop node after receive_payment"@),
        (NodeCall::Stop, Operation::GetInvoice) => Some("Failed to stop node after get_invoice"@),
        _ => None,
    }
}

/// What is printed, before the failure itself, where a call of the node fails.
pub fn failure_line(operation: Operation, call: NodeCall, phase: &Phase) -> (res: Option<
    &'static str,
>)
    ensures
        res is Some <==> failure_text(operation, call, *phase) is Some,
        res matches Some(text) ==> text@ == failure_text(operation, call, *phase)->0,
{
    match (call, operation) {
        (NodeCall::Start, Operation::Start) => Some("Failed to start node via start()"),
        (NodeCall::Start, Operation::SyncWallets) => Some("Failed to start node via start()"),
        (NodeCall::Start, Operation::GetBalance) => Some("Failed to start node via get_balance"),
        (NodeCall::Start, Operation::StartReceiving) => Some("Failed to start node in start_receiving"),
        (NodeCall::Start, Operation::ReceivePayment) => Some("Failed to start node in receive_payment"),
        (NodeCall::Start, Operation::GetInvoice) => Some("Failed to start node for get_invoice"),
        (NodeCall::SyncWallets, Operation::StartReceiving) => Some("Failed to sync wallets in start_receiving"),
        (NodeCall::SyncWallets, Operation::GetBalance) => Some("Failed to sync wallets in get_balance"),
        (NodeCall::SyncWallets, Operation::SyncWallets) => Some("Failed to sync wallets"),
        (NodeCall::SyncWallets, Operation::ReceivePayment) => Some("Failed to sync wallets"),
        (NodeCall::SyncWallets, Operation::GetInvoice) => Some("Failed to sync wallets"),
        (NodeCall::Stop, Operation::Stop) => Some("Failed to stop node via stop()"),
        (NodeCall::Stop, Operation::SyncWallets) => Some("Failed to stop node via stop()"),
        (NodeCall::Stop, Operation::GetBalance) => if matches!(phase, Phase::StoppingAfter(_)) {
            Some("Failed to stop node after sync_wallets error in get_balance")
        } else {
            Some("Failed to stop node via stop() in get_balance")
        },
        (NodeCall::Stop, Operation::ReceivePayment) => Some("Failed to stop node after receive_payment"),
        (NodeCall::Stop, Operation::GetInvoice) => Some("Failed to stop node after get_invoice"),
        _ => None,
    }
}

/// The calls from a point on, given how each of them goes.
pub open spec fn calls_from(
    operation: Operation,
    call: NodeCall,
    phase: Phase,
    outcomes: Seq<Result<(), String>>,
) -> Seq<NodeCall>
    decreases outcomes.len(),
{
    if outcomes.len() == 0 {
        seq![call]
    } else {
        match session_step(operation, phase, outcomes[0]) {
            SessionStep::Call(next, next_phase) => seq![call] + calls_from(
                operation,
                next,
                next_phase,
                outcomes.drop_first(),
            ),
            SessionStep::End(_) => seq![call],
        }
    }
}

/// The calls of an operation, given what resolving comes to and how each call goes.
pub open spec fn calls(
    operation: Operation,
    resolution: Result<(), Error>,
    outcomes: Seq<Result<(), String>>,
) -> Seq<NodeCall> {
    match first_step(operation, resolution) {
        SessionStep::Call(call, phase) => calls_from(operation, call, phase, outcomes),
        SessionStep::End(_) => Seq::empty(),
    }
}

/// How an operation ends from a point on, given how each call goes.
pub open spec fn ending_from(
    operation: Operation,
    phase: Phase,
    outcomes: Seq<Result<(), String>>,
) -> Option<Ending>
    decreases outcomes.len(),
{
    if outcomes.len() == 0 {
        None
    } else {
        match session_step(operation, phase, outcomes[0]) {
            SessionStep::Call(_, next_phase) => ending_from(
                operation,
                next_phase,
                outcomes.drop_first(),
            ),
            SessionStep::End(ending) => Some(ending),
        }
    }
}

/// How an operation ends, given what resolving comes to and how each call goes: it does not while
/// calls are missing.
pub open spec fn ending(
    operation: Operation,
    resolution: Result<(), Error>,
    outcomes: Seq<Result<(), String>>,
) -> Option<Ending> {
    match first_step(operation, resolution) {
        SessionStep::Call(_, phase) => ending_from(operation, phase, outcomes),
        SessionStep::End(ending) => Some(ending),
    }
}

/// Whether an operation puts the node to work and stops it again.
pub open spec fn does_work(operation: Operation) -> bool {
    operation is SyncWallets || operation is GetBalance || operation is ReceivePayment || operation
        is GetInvoice || operation is Pay
}

/// No operation takes more than four calls.
pub proof fn law_operations_end(
    operation: Operation,
    resolution: Result<(), Error>,
    outcomes: Seq<Result<(), String>>,
)
    requires
        outcomes.len() >= 4,
    ensures
        ending(operation, resolution, outcomes) is Some,
        calls(operation, resolution, outcomes).len() <= 4,
{
    reveal_with_fuel(ending_from, 5);
    reveal_with_fuel(calls_from, 5);
}

/// A payment whose destination cannot be resolved leaves the node alone, whether it was running
/// or not, and the caller is told why it cannot. No other operation depends on a destination.
pub proof fn law_an_unresolved_destination_leaves_the_node_alone(
    operation: Operation,
    error: Error,
    outcomes: Seq<Result<(), String>>,
)
    ensures
        has_destination(operation) ==> {
            &&& calls(operation, Err(error), outcomes) == Seq::<NodeCall>::empty()
            &&& ending(operation, Err(error), outcomes) == Some(Ending::Failed(error))
        },
        !has_destination(operation) ==> {
            &&& calls(operation, Err(error), outcomes) == calls(operation, Ok(()), outcomes)
            &&& ending(operation, Err(error), outcomes) == ending(operation, Ok(()), outcomes)
        },
{
}

/// The node is put to work only once it was started and brought up to date, and after the work
/// it is always stopped.
pub proof fn law_work_is_between_start_and_stop(
    operation: Operation,
    resolution: Result<(), Error>,
    outcomes: Seq<Result<(), String>>,
)
    requires
        does_work(operation),
        operation is Pay ==> resolution is Ok,
        outcomes.len() >= 4,
    ensures
        outcomes[0] is Err ==> calls(operation, resolution, outcomes) == seq![NodeCall::Start],
        outcomes[0] is Ok && outcomes[1] is Err ==> calls(operation, resolution, outcomes)
            == if stops_after_failed_sync(operation) {
            seq![NodeCall::Start, NodeCall::SyncWallets, NodeCall::Stop]
        } else {
            seq![NodeCall::Start, NodeCall::SyncWallets]
        },
        outcomes[0] is Ok && outcomes[1] is Ok ==> calls(operation, resolution, outcomes) == seq![
            NodeCall::Start,
            NodeCall::SyncWallets,
            NodeCall::Work,
            NodeCall::Stop,
        ],
{
    reveal_with_fuel(calls_from, 5);
    let rest = outcomes.drop_first();
    assert(rest[0] == outcomes[1]);
    if outcomes[0] is Ok && outcomes[1] is Ok {
        assert(calls(operation, resolution, outcomes) =~= seq![
            NodeCall::Start,
            NodeCall::SyncWallets,
            NodeCall::Work,
            NodeCall::Stop,
        ]);
    } else if outcomes[0] is Ok && stops_after_failed_sync(operation) {
        assert(calls(operation, resolution, outcomes) =~= seq![
            NodeCall::Start,
            NodeCall::SyncWallets,
            NodeCall::Stop,
        ]);
    } else if outcomes[0] is Ok {
        assert(calls(operation, resolution, outcomes) =~= seq![NodeCall::Start, NodeCall::SyncWallets]);
    }
}

/// A node that is running already is never started, brought up to date or stopped: it is put to
/// work, unless there is a destination that cannot be resolved, and what the work gave is
/// returned.
pub proof fn law_a_running_node_is_only_put_to_work(
    operation: Operation,
    resolution: Result<(), Error>,
    outcomes: Seq<Result<(), String>>,
)
    requires
        while_running(operation),
        outcomes.len() >= 1,
    ensures
        has_destination(operation) && resolution is Err ==> {
            &&& calls(operation, resolution, outcomes) == Seq::<NodeCall>::empty()
            &&& ending(operation, resolution, outcomes) == Some(
                Ending::Failed(resolution->Err_0),
            )
        },
        !has_destination(operation) || resolution is Ok ==> {
            &&& calls(operation, resolution, outcomes) == seq![NodeCall::Work]
            &&& ending(operation, resolution, outcomes) == Some(Ending::Completed)
        },
{
}

/// Starting to receive leaves the node running exactly when it succeeds: a node that was started
/// but cannot be brought up to date is stopped again.
pub proof fn law_receiving_runs_only_if_it_started(
    resolution: Result<(), Error>,
    outcomes: Seq<Result<(), String>>,
)
    requires
        outcomes.len() >= 3,
    ensures
        ending(Operation::StartReceiving, resolution, outcomes) == Some(Ending::Completed) <==> (outcomes[0] is Ok
            && outcomes[1] is Ok),
        outcomes[0] is Ok ==> calls(Operation::StartReceiving, resolution, outcomes) == if outcomes[1] is Ok {
            seq![NodeCall::Start, NodeCall::SyncWallets]
        } else {
            seq![NodeCall::Start, NodeCall::SyncWallets, NodeCall::Stop]
        },
{
    reveal_with_fuel(ending_from, 5);
    reveal_with_fuel(calls_from, 5);
    let rest = outcomes.drop_first();
    assert(rest[0] == outcomes[1]);
    if outcomes[0] is Ok && outcomes[1] is Ok {
        assert(calls(Operation::StartReceiving, resolution, outcomes) =~= seq![
            NodeCall::Start,
            NodeCall::SyncWallets,
        ]);
    } else if outcomes[0] is Ok {
        assert(calls(Operation::StartReceiving, resolution, outcomes) =~= seq![
            NodeCall::Start,
            NodeCall::SyncWallets,
            NodeCall::Stop,
        ]);
    }
}

/// Once a payment was attempted, an invoice asked for or receiving done, a node that does not
/// stop changes nothing of what the caller is told.
pub proof fn law_a_failed_stop_does_not_lose_the_result(
    operation: Operation,
    resolution: Result<(), Error>,
    outcomes: Seq<Result<(), String>>,
)
    requires
        operation is Pay || operation is GetInvoice || operation is ReceivePayment,
        operation is Pay ==> resolution is Ok,
        outcomes.len() >= 4,
        outcomes[0] is Ok,
        outcomes[1] is Ok,
    ensures
        ending(operation, resolution, outcomes) == Some(Ending::Completed),
{
    reveal_with_fuel(ending_from, 5);
    let rest = outcomes.drop_first();
    assert(rest[0] == outcomes[1]);
}

/// A node that does not start is never used, and every operation reports why in its own way: with
/// the whole of what the node said, but for receiving, which has nothing to return.
pub proof fn law_what_a_failed_start_comes_to(operation: Operation, detail: String)
    ensures
        session_step(operation, Phase::Starting, Err(detail)) == SessionStep::End(
            match operation {
                Operation::StartReceiving => Ending::Failed(Error::StartReceiving(detail)),
                Operation::Pay => Ending::Failed(Error::PayStart(detail)),
                Operation::ReceivePayment => Ending::Skipped,
                Operation::GetInvoice => Ending::Panicked(Panic::StartForInvoice(detail)),
                _ => Ending::Panicked(Panic::Start(detail)),
            },
        ),
{
}

/// A node that cannot be brought up to date is not put to work. Starting to receive, the balance
/// and a payment stop it first, whatever comes of that, and the report is the whole of what was
/// said of the failure.
pub proof fn law_what_a_failed_sync_comes_to(
    operation: Operation,
    detail: String,
    stopped: Result<(), String>,
)
    ensures
        ({
            let report = SessionStep::End(
                match operation {
                    Operation::StartReceiving => Ending::Failed(Error::SyncReceiving(detail)),
                    Operation::Pay => Ending::Failed(Error::PaySync(detail)),
                    _ => Ending::Panicked(Panic::Sync(detail)),
                },
            );
            &&& operation is StartReceiving || operation is GetBalance || operation is Pay
                ==> session_step(operation, Phase::Syncing, Err(detail)) == SessionStep::Call(
                NodeCall::Stop,
                Phase::StoppingAfter(detail),
            )
            &&& !(operation is StartReceiving || operation is GetBalance || operation is Pay)
                ==> session_step(operation, Phase::Syncing, Err(detail)) == report
            &&& session_step(operation, Phase::StoppingAfter(detail), stopped) == report
        }),
{
}

/// A node that does not stop is reported with the whole of what it said, unless there is a result
/// of receiving, of an invoice or of a payment to return, which is not lost.
pub proof fn law_what_a_failed_stop_comes_to(operation: Operation, detail: String)
    ensures
        session_step(operation, Phase::Stopping, Err(detail)) == SessionStep::End(
            match operation {
                Operation::ReceivePayment | Operation::GetInvoice | Operation::Pay => {
                    Ending::Completed
                },
                Operation::StopReceiving => Ending::Failed(Error::StopReceiving(detail)),
                _ => Ending::Panicked(Panic::Stop(detail)),
            },
        ),
{
}

/// Where every call goes well, a node that was started is brought up to date unless only that was
/// asked for, put to work unless it was only to receive, and stopped after the work, however that
/// went, unless it was running before.
pub proof fn law_what_comes_after_each_call(operation: Operation, worked: Result<(), String>)
    ensures
        session_step(operation, Phase::Starting, Ok(())) == if operation is Start {
            SessionStep::End(Ending::Completed)
        } else {
            SessionStep::Call(NodeCall::SyncWallets, Phase::Syncing)
        },
        session_step(operation, Phase::Syncing, Ok(())) == if operation is StartReceiving {
            SessionStep::End(Ending::Completed)
        } else {
            SessionStep::Call(NodeCall::Work, Phase::Working)
        },
        session_step(operation, Phase::Working, worked) == SessionStep::Call(
            NodeCall::Stop,
            Phase::Stopping,
        ),
        session_step(operation, Phase::WorkingAlone, worked) == SessionStep::End(Ending::Completed),
        session_step(operation, Phase::Stopping, Ok(())) == SessionStep::End(Ending::Completed),
{
}

/// A panic says what failed and the whole of why.
pub proof fn law_panics_are_told_whole(detail: String)
    ensures
        panic_text(Panic::Start(detail)) == "failed to start node: "@ + detail@,
        panic_text(Panic::StartForInvoice(detail)) == "failed to start node for get_invoice: "@
            + detail@,
        panic_text(Panic::Sync(detail)) == "failed to sync wallets: "@ + detail@,
        panic_text(Panic::Stop(detail)) == "failed to stop node: "@ + detail@,
{
}

/// What is printed goes by the operation and the call that failed. Only for the balance does it
/// matter whether the node was stopped because it could not be brought up to date.
pub proof fn law_what_is_printed_of_a_failure(
    operation: Operation,
    call: NodeCall,
    phase: Phase,
    detail: String,
)
    ensures
        failure_text(Operation::Start, NodeCall::Start, phase) == Some("Failed to start node via start()"@),
        failure_text(Operation::SyncWallets, NodeCall::Start, phase) == Some("Failed to start node via start()"@),
        failure_text(Operation::GetBalance, NodeCall::Start, phase) == Some("Failed to start node via get_balance"@),
        failure_text(Operation::StartReceiving, NodeCall::Start, phase) == Some("Failed to start node in start_receiving"@),
        failure_text(Operation::ReceivePayment, NodeCall::Start, phase) == Some("Failed to start node in receive_payment"@),
        failure_text(Operation::GetInvoice, NodeCall::Start, phase) == Some("Failed to start node for get_invoice"@),
        failure_text(Operation::StartReceiving, NodeCall::SyncWallets, phase) == Some("Failed to sync wallets in start_receiving"@),
        failure_text(Operation::GetBalance, NodeCall::SyncWallets, phase) == Some("Failed to sync wallets in get_balance"@),
        failure_text(Operation::SyncWallets, NodeCall::SyncWallets, phase) == Some("Failed to sync wallets"@),
        failure_text(Operation::ReceivePayment, NodeCall::SyncWallets, phase) == Some("Failed to sync wallets"@),
        failure_text(Operation::GetInvoice, NodeCall::SyncWallets, phase) == Some("Failed to sync wallets"@),
        failure_text(Operation::Stop, NodeCall::Stop, phase) == Some("Failed to stop node via stop()"@),
        failure_text(Operation::SyncWallets, NodeCall::Stop, phase) == Some("Failed to stop node via stop()"@),
        failure_text(Operation::ReceivePayment, NodeCall::Stop, phase) == Some("Failed to stop node after receive_payment"@),
        failure_text(Operation::GetInvoice, NodeCall::Stop, phase) == Some("Failed to stop node after get_invoice"@),
        failure_text(Operation::GetBalance, NodeCall::Stop, Phase::StoppingAfter(detail)) == Some(
            "Failed to stop node after sync_wallets error in get_balance"@,
        ),
        phase !is StoppingAfter ==> failure_text(Operation::GetBalance, NodeCall::Stop, phase)
            == Some("Failed to stop node via stop() in get_balance"@),
        operation is Pay || while_running(operation) || call is Work ==> failure_text(
            operation,
            call,
            phase,
        ) is None,
        failure_text(Operation::StopReceiving, call, phase) is None,
        failure_text(Operation::StartReceiving, NodeCall::Stop, phase) is None,
        call !is Start ==> failure_text(Operation::Start, call, phase) is None,
        call !is Stop ==> failure_text(Operation::Stop, call, phase) is None,
{
}

} // verus!
