use lightning_js::error::{Error, Status};
use lightning_js::invoice::{read_invoice, Invoice};
use lightning_js::resolve::{
    find_target, read_method, read_methods, resolve_answered, resolve_configurable_payment,
    resolve_fixed, resolve_payment_target, PaymentInstructions, PaymentMethod, PaymentTarget,
    ReadMethod, Resolution,
};

/// An invoice of 2500 uBTC.
const COFFEE: &str = "lnbc2500u1pvjluezsp5zyg3zyg3zyg3zyg3zyg3zyg3zyg3zyg3zyg3zyg3zyg3zyg3zygspp5qqqsyqcyq5rqwzqfqqqsyqcyq5rqwzqfqqqsyqcyq5rqwzqfqypqdq5xysxxatsyp3k7enxv4jsxqzpu9qrsgquk0rl77nj30yxdy8j9vdx85fkpmdla2087ne0xh8nhedh8w27kyke0lp53ut353s06fv3qfegext0eh0ymjpf39tuven09sam30g4vgpfna3rh";

/// An invoice that leaves the amount open.
const DONATION: &str = "lnbc1pvjluezsp5zyg3zyg3zyg3zyg3zyg3zyg3zyg3zyg3zyg3zyg3zyg3zyg3zygspp5qqqsyqcyq5rqwzqfqqqsyqcyq5rqwzqfqqqsyqcyq5rqwzqfqypqdpl2pkx2ctnv5sxxmmwwd5kgetjypeh2ursdae8g6twvus8g6rfwvs8qun0dfjkxaq9qrsgq357wnc5r2ueh7ck6q93dj32dlqnls087fxdwk8qakdyafkq3yap9us6v52vjjsrvywa6rt52cm9r9zqt8r2t7mlcwspyetp5h2tztugp9lfyql";

const OFFER: &str = "lno1zcss9mk8y3wkklfvevcrszlmu23kfrxh49px20665dqwmn4p72pksese";

fn bolt11(text: &str) -> PaymentMethod {
    PaymentMethod::LightningBolt11(text.to_string())
}

fn bolt12(text: &str) -> PaymentMethod {
    PaymentMethod::LightningBolt12(text.to_string())
}

fn invoice(amount_msat: Option<u64>) -> Invoice {
    Invoice {
        bolt11: "lnbc".to_string(),
        payment_hash: "00".to_string(),
        amount_msat,
        expires_at: None,
        route_hints: vec![],
    }
}

fn fixed(ln_amount_msat: Option<u64>, methods: Vec<PaymentMethod>) -> Result<PaymentInstructions, String> {
    Ok(PaymentInstructions::FixedAmount { ln_amount_msat, methods })
}

#[test]
fn methods_are_read() {
    assert_eq!(read_method(bolt11(COFFEE)), ReadMethod::Bolt11(read_invoice(COFFEE).unwrap()));
    assert_eq!(read_method(bolt11(OFFER)), ReadMethod::Unusable);
    assert_eq!(read_method(bolt12(OFFER)), ReadMethod::Bolt12(OFFER.to_string()));
    assert_eq!(read_method(bolt12(COFFEE)), ReadMethod::Unusable);
    assert_eq!(read_method(PaymentMethod::Other), ReadMethod::Unusable);
    assert_eq!(
        read_methods(vec![PaymentMethod::Other, bolt12(OFFER)]),
        vec![ReadMethod::Unusable, ReadMethod::Bolt12(OFFER.to_string())]
    );
}

#[test]
fn what_is_paid_has_the_text_of_the_method() {
    let loud = COFFEE.to_uppercase();
    let target = resolve_configurable_payment(Ok(vec![bolt11(&loud)]), 250_000_000, None).unwrap().0;
    let PaymentTarget::Bolt11(paid, _) = target else { panic!("no invoice") };
    assert_eq!(paid.bolt11, loud);
    let read = read_invoice(&paid.bolt11).unwrap();
    assert_eq!(read.amount_msat, paid.amount_msat);
    assert_eq!(read.payment_hash, paid.payment_hash);
    assert_eq!(read.expires_at, paid.expires_at);
}

#[test]
fn the_first_usable_method_is_paid() {
    let read = vec![
        ReadMethod::Unusable,
        ReadMethod::Bolt12("a".to_string()),
        ReadMethod::Bolt11(invoice(None)),
    ];
    let target = find_target(read, 7).unwrap();
    assert_eq!(target, PaymentTarget::Bolt12("a".to_string(), 7));
    assert_eq!(target.amount_msat(), 7);
    assert_eq!(find_target(vec![ReadMethod::Unusable], 7), None);
    assert_eq!(find_target(vec![], 7), None);
}

#[test]
fn a_fixed_amount_is_paid_whatever_was_asked_for() {
    for asked in [None, Some(1), Some(-5)] {
        assert_eq!(
            resolve_payment_target(fixed(Some(250_000_000), vec![bolt11(COFFEE)]), asked, None),
            Ok(Resolution::Resolved(
                PaymentTarget::Bolt11(read_invoice(COFFEE).unwrap(), 250_000_000),
                None
            ))
        );
    }
}

#[test]
fn the_outcome_is_awaited_only_for_a_positive_time() {
    for (secs, wait_secs) in [(None, None), (Some(0), None), (Some(-3), None), (Some(45), Some(45))] {
        assert_eq!(
            resolve_payment_target(fixed(Some(1), vec![bolt12(OFFER)]), None, secs),
            Ok(Resolution::Resolved(PaymentTarget::Bolt12(OFFER.to_string(), 1), wait_secs))
        );
        assert_eq!(
            resolve_payment_target(Ok(PaymentInstructions::ConfigurableAmount), Some(9), secs),
            Ok(Resolution::SetAmount { amount_msat: 9, wait_secs })
        );
    }
}

#[test]
fn destinations_that_cannot_be_read_are_refused() {
    let error = resolve_payment_target(Err("UnknownPaymentInstructions".to_string()), None, None)
        .unwrap_err();
    assert_eq!(error.status(), Status::InvalidArg);
    assert_eq!(error.reason(), "failed to parse destination: UnknownPaymentInstructions");
}

#[test]
fn a_fixed_amount_has_to_be_one_for_lightning() {
    assert_eq!(
        resolve_payment_target(fixed(None, vec![bolt11(COFFEE)]), Some(1), None),
        Err(Error::NoLightningAmount)
    );
    assert_eq!(resolve_fixed(None, vec![]), Err(Error::NoLightningAmount));
}

#[test]
fn a_destination_needs_a_usable_method() {
    assert_eq!(
        resolve_payment_target(fixed(Some(1), vec![PaymentMethod::Other, bolt11("x")]), None, None),
        Err(Error::NoPaymentMethod)
    );
    assert_eq!(resolve_fixed(Some(1), vec![]), Err(Error::NoPaymentMethod));
    assert_eq!(resolve_answered(vec![ReadMethod::Unusable], 1), Err(Error::NoPaymentMethod));
    assert_eq!(
        resolve_configurable_payment(Ok(vec![]), 1, None),
        Err(Error::NoPaymentMethod)
    );
}

#[test]
fn a_variable_amount_has_to_be_given_and_positive() {
    let variable = || Ok(PaymentInstructions::ConfigurableAmount);
    assert_eq!(resolve_payment_target(variable(), None, None), Err(Error::AmountRequired));
    assert_eq!(resolve_payment_target(variable(), Some(0), None), Err(Error::AmountNotPositive));
    assert_eq!(resolve_payment_target(variable(), Some(-1), None), Err(Error::AmountNotPositive));
    assert_eq!(
        resolve_payment_target(variable(), Some(2_100_000_000_000_000_000), None),
        Ok(Resolution::SetAmount { amount_msat: 2_100_000_000_000_000_000, wait_secs: None })
    );
    assert_eq!(
        resolve_payment_target(variable(), Some(2_100_000_000_000_000_001), None),
        Err(Error::AmountTooLarge)
    );
}

#[test]
fn what_was_asked_for_is_paid() {
    assert_eq!(
        resolve_configurable_payment(Ok(vec![bolt11(COFFEE)]), 250_000_000, Some(3)),
        Ok((PaymentTarget::Bolt11(read_invoice(COFFEE).unwrap(), 250_000_000), Some(3)))
    );
    assert_eq!(
        resolve_configurable_payment(Ok(vec![bolt11(DONATION)]), 42, None),
        Ok((PaymentTarget::Bolt11(read_invoice(DONATION).unwrap(), 42), None))
    );
    assert_eq!(
        resolve_configurable_payment(Ok(vec![bolt12(OFFER)]), 42, None),
        Ok((PaymentTarget::Bolt12(OFFER.to_string(), 42), None))
    );
}

#[test]
fn an_invoice_for_another_amount_is_refused() {
    let error = resolve_configurable_payment(Ok(vec![bolt11(COFFEE)]), 250_000_001, None).unwrap_err();
    assert_eq!(
        error,
        Error::InvoiceAmountMismatch { invoice_msat: 250_000_000, requested_msat: 250_000_001 }
    );
    assert_eq!(error.status(), Status::InvalidArg);
    assert_eq!(
        error.reason(),
        "invoice amount (250000000msat) does not match requested amount (250000001msat)"
    );
    // Only the method that would be paid is looked at.
    let read = vec![ReadMethod::Bolt12("a".to_string()), ReadMethod::Bolt11(invoice(Some(5)))];
    assert!(resolve_answered(read, 6).is_ok());
    let read = vec![ReadMethod::Bolt11(invoice(Some(5))), ReadMethod::Bolt12("a".to_string())];
    assert!(resolve_answered(read, 6).is_err());
}

#[test]
fn a_destination_can_refuse_the_amount() {
    assert_eq!(
        resolve_configurable_payment(Err("too little".to_string()), 1, None),
        Err(Error::SetAmount("too little".to_string()))
    );
}
