use lightning_js::error::Error;
use lightning_js::invoice::{
    checked_metadata, conclude, conclude_reply, invoice_request, invoice_request_with_scid,
    invoice_to_payment_metadata, operation_by, payment_metadata, read_invoice, request_by, Invoice,
    InvoiceCall, InvoiceOutcome, InvoiceRequest, MetadataError, PaymentMetadata, RequestError,
};
use lightning_js::session::Operation;

/// An invoice of 20 mBTC with one route hint of two hops.
const HINTED: &str = "lnbc20m1pvjluezsp5zyg3zyg3zyg3zyg3zyg3zyg3zyg3zyg3zyg3zyg3zyg3zyg3zygspp5qqqsyqcyq5rqwzqfqqqsyqcyq5rqwzqfqqqsyqcyq5rqwzqfqypqhp58yjmdan79s6qqdhdzgynm4zwqd5d7xmw5fk98klysy043l2ahrqsfpp3qjmp7lwpagxun9pygexvgpjdc4jdj85fr9yq20q82gphp2nflc7jtzrcazrra7wwgzxqc8u7754cdlpfrmccae92qgzqvzq2ps8pqqqqqqpqqqqq9qqqvpeuqafqxu92d8lr6fvg0r5gv0heeeqgcrqlnm6jhphu9y00rrhy4grqszsvpcgpy9qqqqqqgqqqqq7qqzq9qrsgqdfjcdk6w3ak5pca9hwfwfh63zrrz06wwfya0ydlzpgzxkn5xagsqz7x9j4jwe7yj7vaf2k9lqsdk45kts2fd0fkr28am0u4w95tt2nsq76cqw0";

/// An invoice of 2500 uBTC for a minute, without a route hint.
const COFFEE: &str = "lnbc2500u1pvjluezsp5zyg3zyg3zyg3zyg3zyg3zyg3zyg3zyg3zyg3zyg3zyg3zyg3zygspp5qqqsyqcyq5rqwzqfqqqsyqcyq5rqwzqfqqqsyqcyq5rqwzqfqypqdq5xysxxatsyp3k7enxv4jsxqzpu9qrsgquk0rl77nj30yxdy8j9vdx85fkpmdla2087ne0xh8nhedh8w27kyke0lp53ut353s06fv3qfegext0eh0ymjpf39tuven09sam30g4vgpfna3rh";

/// An invoice that leaves the amount open.
const DONATION: &str = "lnbc1pvjluezsp5zyg3zyg3zyg3zyg3zyg3zyg3zyg3zyg3zyg3zyg3zyg3zyg3zygspp5qqqsyqcyq5rqwzqfqqqsyqcyq5rqwzqfqqqsyqcyq5rqwzqfqypqdpl2pkx2ctnv5sxxmmwwd5kgetjypeh2ursdae8g6twvus8g6rfwvs8qun0dfjkxaq9qrsgq357wnc5r2ueh7ck6q93dj32dlqnls087fxdwk8qakdyafkq3yap9us6v52vjjsrvywa6rt52cm9r9zqt8r2t7mlcwspyetp5h2tztugp9lfyql";

const HASH: &str = "0001020304050607080900010203040506070809000102030405060708090102";

fn invoice() -> Invoice {
    Invoice {
        bolt11: "lnbc".to_string(),
        payment_hash: "00".to_string(),
        amount_msat: Some(5),
        expires_at: Some(1_700_000_000),
        route_hints: vec![vec![(1 << 40) | (2 << 16) | 3, 4], vec![5]],
    }
}

#[test]
fn invoices_are_read() {
    assert_eq!(
        read_invoice(HINTED),
        Some(Invoice {
            bolt11: HINTED.to_string(),
            payment_hash: HASH.to_string(),
            amount_msat: Some(2_000_000_000),
            expires_at: Some(1_496_314_658 + 3_600),
            route_hints: vec![vec![
                (66051 << 40) | (263430 << 16) | 1800,
                (197637 << 40) | (395016 << 16) | 2314,
            ]],
        })
    );
    assert_eq!(
        read_invoice(COFFEE),
        Some(Invoice {
            bolt11: COFFEE.to_string(),
            payment_hash: HASH.to_string(),
            amount_msat: Some(250_000_000),
            expires_at: Some(1_496_314_658 + 60),
            route_hints: vec![],
        })
    );
    assert_eq!(read_invoice(DONATION).unwrap().amount_msat, None);
}

#[test]
fn an_invoice_in_upper_case_is_read_as_the_same() {
    assert_eq!(read_invoice(&COFFEE.to_uppercase()), read_invoice(COFFEE));
}

#[test]
fn texts_that_are_no_invoice_are_not_read() {
    assert_eq!(read_invoice(""), None);
    assert_eq!(read_invoice("lnbc1"), None);
    assert_eq!(read_invoice(&COFFEE[..COFFEE.len() - 1]), None);
}

#[test]
fn the_caller_learns_the_first_hop_of_the_first_hint() {
    let expected = PaymentMetadata {
        bolt11: HINTED.to_string(),
        payment_hash: HASH.to_string(),
        expires_at: 1_496_318_258,
        scid: "66051x263430x1800".to_string(),
    };
    assert_eq!(payment_metadata(HINTED), Ok(expected.clone()));
    assert_eq!(invoice_to_payment_metadata(read_invoice(HINTED).unwrap()), expected);
    assert_eq!(checked_metadata(invoice()).unwrap().scid, "1x2x3");
}

#[test]
fn the_expiry_keeps_its_bits() {
    let mut late = invoice();
    late.expires_at = Some(u64::MAX);
    assert_eq!(invoice_to_payment_metadata(late).expires_at, -1);
}

#[test]
fn what_is_missing_from_an_invoice_is_told() {
    assert_eq!(payment_metadata("nothing"), Err(MetadataError::NotAnInvoice));
    assert_eq!(payment_metadata(COFFEE), Err(MetadataError::NoRouteHint));
    let mut no_hop = invoice();
    no_hop.route_hints[0].clear();
    assert_eq!(checked_metadata(no_hop), Err(MetadataError::NoHop));
    let mut no_expiry = invoice();
    no_expiry.expires_at = None;
    assert_eq!(checked_metadata(no_expiry), Err(MetadataError::NoExpiry));
}

#[test]
fn an_invoice_is_asked_for_with_the_callers_numbers() {
    assert_eq!(
        invoice_request(Some(1_000), "coffee".to_string(), 900),
        Ok(InvoiceRequest {
            scid: None,
            amount_msat: Some(1_000),
            description: "coffee".to_string(),
            expiry_secs: 900,
        })
    );
    let open = invoice_request(None, String::new(), -1).unwrap();
    assert_eq!(open.amount_msat, None);
    assert_eq!(open.expiry_secs, u32::MAX);
    let negative = invoice_request(Some(-1), String::new(), (1 << 32) + 1).unwrap();
    assert_eq!(negative.amount_msat, Some(u64::MAX));
    assert_eq!(negative.expiry_secs, 1);
}

#[test]
fn descriptions_are_measured_in_bytes() {
    assert!(invoice_request(None, "a".repeat(639), 1).is_ok());
    assert_eq!(
        invoice_request(None, "a".repeat(640), 1),
        Err(RequestError::DescriptionTooLong)
    );
    assert!(invoice_request(None, "\u{e9}".repeat(319), 1).is_ok());
    assert_eq!(
        invoice_request(None, "\u{e9}".repeat(320), 1),
        Err(RequestError::DescriptionTooLong)
    );
}

#[test]
fn an_invoice_is_asked_for_with_a_short_channel_id() {
    assert_eq!(
        invoice_request_with_scid("1x2x3", Some(7), "tea".to_string(), 60),
        Ok(InvoiceRequest {
            scid: Some((1 << 40) | (2 << 16) | 3),
            amount_msat: Some(7),
            description: "tea".to_string(),
            expiry_secs: 60,
        })
    );
    assert_eq!(
        invoice_request_with_scid("1x2", None, "tea".to_string(), 60),
        Err(RequestError::InvalidScid)
    );
    assert_eq!(
        invoice_request_with_scid("1x2", None, "a".repeat(640), 60),
        Err(RequestError::DescriptionTooLong)
    );
}

fn calls() -> [InvoiceCall; 6] {
    let human_readable_scid = "1x2x3".to_string();
    [
        InvoiceCall::GetInvoice { amount: 7 },
        InvoiceCall::GetInvoiceWhileRunning { amount: 7 },
        InvoiceCall::GetVariableAmountJitInvoice,
        InvoiceCall::GetVariableAmountJitInvoiceWhileRunning,
        InvoiceCall::GetInvoiceWithScid { human_readable_scid: human_readable_scid.clone(), amount: 7 },
        InvoiceCall::GetVariableAmountJitInvoiceWithScid { human_readable_scid },
    ]
}

#[test]
fn each_call_asks_for_what_it_names() {
    let scid = Some((1 << 40) | (2 << 16) | 3);
    let expected = [
        (None, Some(7)),
        (None, Some(7)),
        (None, None),
        (None, None),
        (scid, Some(7)),
        (scid, None),
    ];
    for (call, (scid, amount_msat)) in calls().iter().zip(expected) {
        assert_eq!(
            request_by(call, "tea".to_string(), 60),
            Ok(InvoiceRequest { scid, amount_msat, description: "tea".to_string(), expiry_secs: 60 })
        );
        assert_eq!(
            request_by(call, "a".repeat(640), 60),
            Err(RequestError::DescriptionTooLong)
        );
    }
    let call =
        InvoiceCall::GetVariableAmountJitInvoiceWithScid { human_readable_scid: "x".to_string() };
    assert_eq!(request_by(&call, String::new(), 1), Err(RequestError::InvalidScid));
}

#[test]
fn only_one_call_starts_and_stops_the_node() {
    for call in calls() {
        let expected = match call {
            InvoiceCall::GetInvoice { .. } => Operation::GetInvoice,
            _ => Operation::GetInvoiceWhileRunning,
        };
        assert_eq!(operation_by(&call), expected);
    }
}

#[test]
fn calls_tell_the_same_of_an_invoice() {
    let metadata = payment_metadata(HINTED).unwrap();
    for call in calls() {
        assert_eq!(
            conclude_reply(&call, Ok(HINTED.to_string())),
            InvoiceOutcome::Metadata(metadata.clone())
        );
        assert_eq!(
            conclude_reply(&call, Ok(COFFEE.to_string())),
            InvoiceOutcome::Incomplete(MetadataError::NoRouteHint)
        );
        assert_eq!(
            conclude(&call, Ok(Err(MetadataError::NoExpiry))),
            InvoiceOutcome::Incomplete(MetadataError::NoExpiry)
        );
    }
}

#[test]
fn a_running_node_s_failure_is_returned_and_another_panics() {
    let error = Error::GetInvoice("offline".to_string());
    assert_eq!(error.reason(), "Failed to get invoice: offline");
    for call in calls() {
        let expected = match call {
            InvoiceCall::GetInvoiceWhileRunning { .. }
            | InvoiceCall::GetVariableAmountJitInvoiceWhileRunning => {
                InvoiceOutcome::Failed(error.clone())
            }
            _ => InvoiceOutcome::NoInvoice(error.clone()),
        };
        assert_eq!(conclude_reply(&call, Err("offline".to_string())), expected);
    }
}
