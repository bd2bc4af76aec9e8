//! What a call can fail with, and how that is told to the caller.

use vstd::prelude::*;

use crate::event;
use crate::event::FailureReason;
use crate::text;

verus! {

/// The kind of a failure: the caller's argument, or anything else.
#[derive(Clone, Copy, PartialEq, Eq, Debug, Structural)]
pub enum Status {
    InvalidArg,
    GenericFailure,
}

/// A failure that is returned to the caller. The strings hold what the node, the resolver or
/// the runtime said about it.
#[derive(Clone, PartialEq, Eq, Debug)]
pub enum Error {
    UnknownLogLevel(String),
    Build(String),
    StartReceiving(String),
    SyncReceiving(String),
    StopReceiving(String),
    AcknowledgeEvent(String),
    CreateRuntime(String),
    SyncRgs(String),
    GetInvoice(String),
    InitializeRuntime(String),
    ParseDestination(String),
    NoLightningAmount,
    AmountRequired,
    AmountNotPositive,
    AmountTooLarge,
    SetAmount(String),
    NoPaymentMethod,
    InvoiceAmountMismatch { invoice_msat: u64, requested_msat: u64 },
    PayStart(String),
    PaySync(String),
    InsufficientCapacity { required_msat: u64, available_msat: u64 },
    SendPayment(String),
    EventHandled(String),
    PaymentFailed(Option<FailureReason>),
}

/// The kind of each failure.
pub open spec fn status_of(error: Error) -> Status {
    match error {
        Error::UnknownLogLevel(_)
        | Error::ParseDestination(_)
        | Error::NoLightningAmount
        | Error::AmountRequired
        | Error::AmountNotPositive
        | Error::AmountTooLarge
        | Error::InvoiceAmountMismatch { .. } => Status::InvalidArg,
        _ => Status::GenericFailure,
    }
}

/// The text of each failure.
pub open spec fn reason_of(error: Error) -> Seq<char> {
    match error {
        Error::UnknownLogLevel(level) => "Unknown log level '"@ + level@ + "'"@,
        Error::Build(detail) => detail@,
        Error::StartReceiving(detail) => "Failed to start: "@ + detail@,
        Error::SyncReceiving(detail) => "Failed to sync: "@ + detail@,
        Error::StopReceiving(detail) => "Failed to stop: "@ + detail@,
        Error::AcknowledgeEvent(detail) => "Failed to ack event: "@ + detail@,
        Error::CreateRuntime(detail) => "Failed to create runtime: "@ + detail@,
        Error::SyncRgs(detail) => "Failed to sync RGS: "@ + detail@,
        Error::GetInvoice(detail) => "Failed to get invoice: "@ + detail@,
        Error::InitializeRuntime(detail) => "failed to initialize async runtime: "@ + detail@,
        Error::ParseDestination(detail) => "failed to parse destination: "@ + detail@,
        Error::NoLightningAmount => "fixed-amount destination has no lightning amount"@,
        Error::AmountRequired => "amount_msat is required for variable-amount destinations"@,
        Error::AmountNotPositive => "amount_msat must be greater than zero"@,
        Error::AmountTooLarge => "amount exceeds maximum"@,
        Error::SetAmount(detail) => "failed to set amount: "@ + detail@,
        Error::NoPaymentMethod => "no supported payment method found"@,
        Error::InvoiceAmountMismatch { invoice_msat, requested_msat } => "invoice amount ("@
            + text::decimal(invoice_msat as nat) + "msat) does not match requested amount ("@
            + text::decimal(requested_msat as nat) + "msat)"@,
        Error::PayStart(detail) => "failed to start node: "@ + detail@,
        Error::PaySync(detail) => "failed to sync wallets: "@ + detail@,
        Error::InsufficientCapacity { required_msat, available_msat } =>
            "insufficient outbound capacity: required "@ + text::decimal(required_msat as nat)
            + "msat, available "@ + text::decimal(available_msat as nat) + "msat"@,
        Error::SendPayment(detail) => "failed to send payment: "@ + detail@,
        Error::EventHandled(detail) => detail@,
        Error::PaymentFailed(reason) => "lnurl payment failed: "@ + match reason {
            Some(reason) => event::reason_name(reason),
            None => "unknown reason"@,
        },
    }
}

fn with_detail(what: &str, detail: &str) -> (res: String)
    ensures
        res@ == what@ + detail@,
{
    let mut res = what.to_string();
    res.append(detail);
    res
}

fn with_two_amounts(before: &str, first: u64, between: &str, second: u64, after: &str) -> (res:
    String)
    ensures
        res@ == before@ + text::decimal(first as nat) + between@ + text::decimal(second as nat)
            + after@,
{
    let mut res = before.to_string();
    text::push_decimal(&mut res, first);
    res.append(between);
    text::push_decimal(&mut res, second);
    res.append(after);
    res
}

impl Error {
    /// Whether the caller's argument is at fault.
    pub fn status(&self) -> (res: Status)
        ensures
            res == status_of(*self),
    {
        match self {
            Error::UnknownLogLevel(_)
            | Error::ParseDestination(_)
            | Error::NoLightningAmount
            | Error::AmountRequired
            | Error::AmountNotPositive
            | Error::AmountTooLarge
            | Error::InvoiceAmountMismatch { .. } => Status::InvalidArg,
            _ => Status::GenericFailure,
        }
    }

    /// The failure in words.
    pub fn reason(&self) -> (res: String)
        ensures
            res@ == reason_of(*self),
    {
        match self {
            Error::UnknownLogLevel(level) => {
                let mut res = with_detail("Unknown log level '", level);
                res.append("'");
                res
            },
            Error::Build(detail) => detail.clone(),
            Error::StartReceiving(detail) => with_detail("Failed to start: ", detail),
            Error::SyncReceiving(detail) => with_detail("Failed to sync: ", detail),
            Error::StopReceiving(detail) => with_detail("Failed to stop: ", detail),
            Error::AcknowledgeEvent(detail) => with_detail("Failed to ack event: ", detail),
            Error::CreateRuntime(detail) => with_detail("Failed to create runtime: ", detail),
            Error::SyncRgs(detail) => with_detail("Failed to sync RGS: ", detail),
            Error::GetInvoice(detail) => with_detail("Failed to get invoice: ", detail),
            Error::InitializeRuntime(detail) => with_detail(
                "failed to initialize async runtime: ",
                detail,
            ),
            Error::ParseDestination(detail) => with_detail("failed to parse destination: ", detail),
            Error::NoLightningAmount => {
                "fixed-amount destination has no lightning amount".to_string()
            },
            Error::AmountRequired => {
                "amount_msat is required for variable-amount destinations".to_string()
            },
            Error::AmountNotPositive => "amount_msat must be greater than zero".to_string(),
            Error::AmountTooLarge => "amount exceeds maximum".to_string(),
            Error::SetAmount(detail) => with_detail("failed to set amount: ", detail),
            Error::NoPaymentMethod => "no supported payment method found".to_string(),
            Error::InvoiceAmountMismatch { invoice_msat, requested_msat } => with_two_amounts(
                "invoice amount (",
                *invoice_msat,
                "msat) does not match requested amount (",
                *requested_msat,
                "msat)",
            ),
            Error::PayStart(detail) => with_detail("failed to start node: ", detail),
            Error::PaySync(detail) => with_detail("failed to sync wallets: ", detail),
            Error::InsufficientCapacity { required_msat, available_msat } => with_two_amounts(
                "insufficient outbound capacity: required ",
                *required_msat,
                "msat, available ",
                *available_msat,
                "msat",
            ),
            Error::SendPayment(detail) => with_detail("failed to send payment: ", detail),
            Error::EventHandled(detail) => detail.clone(),
            Error::PaymentFailed(reason) => match reason {
                Some(reason) => with_detail("lnurl payment failed: ", event::reason_to_str(*reason)),
                None => with_detail("lnurl payment failed: ", "unknown reason"),
            },
        }
    }
}

/// A failure that the node, the resolver or the runtime explains is told with the whole of that
/// explanation, unchanged, after what failed.
pub proof fn law_explanations_are_told_whole(detail: String)
    ensures
        reason_of(Error::UnknownLogLevel(detail)) == "Unknown log level '"@ + detail@ + "'"@,
        reason_of(Error::Build(detail)) == detail@,
        reason_of(Error::StartReceiving(detail)) == "Failed to start: "@ + detail@,
        reason_of(Error::SyncReceiving(detail)) == "Failed to sync: "@ + detail@,
        reason_of(Error::StopReceiving(detail)) == "Failed to stop: "@ + detail@,
        reason_of(Error::AcknowledgeEvent(detail)) == "Failed to ack event: "@ + detail@,
        reason_of(Error::CreateRuntime(detail)) == "Failed to create runtime: "@ + detail@,
        reason_of(Error::SyncRgs(detail)) == "Failed to sync RGS: "@ + detail@,
        reason_of(Error::GetInvoice(detail)) == "Failed to get invoice: "@ + detail@,
        reason_of(Error::InitializeRuntime(detail)) == "failed to initialize async runtime: "@ + detail@,
        reason_of(Error::ParseDestination(detail)) == "failed to parse destination: "@ + detail@,
        reason_of(Error::SetAmount(detail)) == "failed to set amount: "@ + detail@,
        reason_of(Error::PayStart(detail)) == "failed to start node: "@ + detail@,
        reason_of(Error::PaySync(detail)) == "failed to sync wallets: "@ + detail@,
        reason_of(Error::SendPayment(detail)) == "failed to send payment: "@ + detail@,
        reason_of(Error::EventHandled(detail)) == detail@,
{
}

/// A failure over amounts is told with both of them in decimal, each in its place.
pub proof fn law_amounts_are_told_in_their_places(first: u64, second: u64)
    ensures
        reason_of(Error::InvoiceAmountMismatch { invoice_msat: first, requested_msat: second })
            == "invoice amount ("@ + text::decimal(first as nat)
            + "msat) does not match requested amount ("@ + text::decimal(second as nat) + "msat)"@,
        reason_of(Error::InsufficientCapacity { required_msat: first, available_msat: second })
            == "insufficient outbound capacity: required "@ + text::decimal(first as nat)
            + "msat, available "@ + text::decimal(second as nat) + "msat"@,
{
}

/// A payment that failed is told with the name of the reason, where there is one.
pub proof fn law_a_failed_payment_is_told_with_its_reason(reason: FailureReason)
    ensures
        reason_of(Error::PaymentFailed(Some(reason))) == "lnurl payment failed: "@
            + event::reason_name(reason),
        reason_of(Error::PaymentFailed(None)) == "lnurl payment failed: "@ + "unknown reason"@,
{
}

/// The caller is at fault for a level that is not known, a destination that cannot be read, and an
/// amount that is missing or wrong, and for nothing else.
pub proof fn law_the_caller_is_at_fault_only_for_its_arguments(
    detail: String,
    first: u64,
    second: u64,
    reason: Option<FailureReason>,
)
    ensures
        status_of(Error::UnknownLogLevel(detail)) is InvalidArg,
        status_of(Error::ParseDestination(detail)) is InvalidArg,
        status_of(Error::NoLightningAmount) is InvalidArg,
        status_of(Error::AmountRequired) is InvalidArg,
        status_of(Error::AmountNotPositive) is InvalidArg,
        status_of(Error::AmountTooLarge) is InvalidArg,
        status_of(Error::InvoiceAmountMismatch { invoice_msat: first, requested_msat: second }) is InvalidArg,
        status_of(Error::InsufficientCapacity { required_msat: first, available_msat: second }) is GenericFailure,
        status_of(Error::NoPaymentMethod) is GenericFailure,
        status_of(Error::PaymentFailed(reason)) is GenericFailure,
        status_of(Error::Build(detail)) is GenericFailure,
        status_of(Error::StartReceiving(detail)) is GenericFailure,
        status_of(Error::SyncReceiving(detail)) is GenericFailure,
        status_of(Error::StopReceiving(detail)) is GenericFailure,
        status_of(Error::AcknowledgeEvent(detail)) is GenericFailure,
        status_of(Error::CreateRuntime(detail)) is GenericFailure,
        status_of(Error::SyncRgs(detail)) is GenericFailure,
        status_of(Error::GetInvoice(detail)) is GenericFailure,
        status_of(Error::InitializeRuntime(detail)) is GenericFailure,
        status_of(Error::SetAmount(detail)) is GenericFailure,
        status_of(Error::PayStart(detail)) is GenericFailure,
        status_of(Error::PaySync(detail)) is GenericFailure,
        status_of(Error::SendPayment(detail)) is GenericFailure,
        status_of(Error::EventHandled(detail)) is GenericFailure,
{
}

} // verus!
