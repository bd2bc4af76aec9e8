use lightning_js::error::{Error, Status};
use lightning_js::event::FailureReason;

fn detail() -> String {
    "why".to_string()
}

#[test]
fn failures_are_told_in_words() {
    let invalid = Status::InvalidArg;
    let generic = Status::GenericFailure;
    let all = [
        (Error::UnknownLogLevel(detail()), invalid, "Unknown log level 'why'"),
        (Error::Build(detail()), generic, "why"),
        (Error::StartReceiving(detail()), generic, "Failed to start: why"),
        (Error::SyncReceiving(detail()), generic, "Failed to sync: why"),
        (Error::StopReceiving(detail()), generic, "Failed to stop: why"),
        (Error::AcknowledgeEvent(detail()), generic, "Failed to ack event: why"),
        (Error::CreateRuntime(detail()), generic, "Failed to create runtime: why"),
        (Error::SyncRgs(detail()), generic, "Failed to sync RGS: why"),
        (Error::GetInvoice(detail()), generic, "Failed to get invoice: why"),
        (Error::InitializeRuntime(detail()), generic, "failed to initialize async runtime: why"),
        (Error::ParseDestination(detail()), invalid, "failed to parse destination: why"),
        (Error::NoLightningAmount, invalid, "fixed-amount destination has no lightning amount"),
        (
            Error::AmountRequired,
            invalid,
            "amount_msat is required for variable-amount destinations",
        ),
        (Error::AmountNotPositive, invalid, "amount_msat must be greater than zero"),
        (Error::AmountTooLarge, invalid, "amount exceeds maximum"),
        (Error::SetAmount(detail()), generic, "failed to set amount: why"),
        (Error::NoPaymentMethod, generic, "no supported payment method found"),
        (
            Error::InvoiceAmountMismatch { invoice_msat: 10, requested_msat: 0 },
            invalid,
            "invoice amount (10msat) does not match requested amount (0msat)",
        ),
        (Error::PayStart(detail()), generic, "failed to start node: why"),
        (Error::PaySync(detail()), generic, "failed to sync wallets: why"),
        (
            Error::InsufficientCapacity { required_msat: u64::MAX, available_msat: 12 },
            generic,
            "insufficient outbound capacity: required 18446744073709551615msat, available 12msat",
        ),
        (Error::SendPayment(detail()), generic, "failed to send payment: why"),
        (Error::EventHandled(detail()), generic, "why"),
        (Error::PaymentFailed(None), generic, "lnurl payment failed: unknown reason"),
        (
            Error::PaymentFailed(Some(FailureReason::PaymentExpired)),
            generic,
            "lnurl payment failed: PaymentExpired",
        ),
    ];
    for (error, status, reason) in all {
        assert_eq!(error.status(), status, "{reason}");
        assert_eq!(error.reason(), reason);
    }
}
