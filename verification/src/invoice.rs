//! Invoices: what is asked of the node to get one, and what the caller learns of it.

use vstd::prelude::*;

use crate::amount;
use crate::error::Error;
use crate::ldk;
use crate::scid;
use crate::session;
use crate::session::{NodeCall, Operation};

verus! {

/// What a BOLT 11 invoice says, as far as it is read here.
#[derive(Clone, PartialEq, Eq, Debug)]
pub struct Invoice {
    /// The invoice itself.
    pub bolt11: String,
    /// The payment hash in hexadecimal.
    pub payment_hash: String,
    /// The amount in millisatoshi, where the invoice names one.
    pub amount_msat: Option<u64>,
    /// When the invoice expires, in seconds since the Unix epoch, where that can be expressed.
    pub expires_at: Option<u64>,
    /// The short channel ids of the hops of each route hint.
    pub route_hints: Vec<Vec<u64>>,
}

pub struct InvoiceView {
    pub bolt11: Seq<char>,
    pub payment_hash: Seq<char>,
    pub amount_msat: Option<u64>,
    pub expires_at: Option<u64>,
    pub route_hints: Seq<Seq<u64>>,
}

impl View for Invoice {
    type V = InvoiceView;

    open spec fn view(&self) -> InvoiceView {
        InvoiceView {
            bolt11: self.bolt11@,
            payment_hash: self.payment_hash@,
            amount_msat: self.amount_msat,
            expires_at: self.expires_at,
            route_hints: self.route_hints@.map_values(|hint: Vec<u64>| hint@),
        }
    }
}

/// What the caller learns of an invoice.
#[derive(Clone, PartialEq, Eq, Debug)]
pub struct PaymentMetadata {
    pub bolt11: String,
    pub payment_hash: String,
    pub expires_at: i64,
    pub scid: String,
}

pub struct PaymentMetadataView {
    pub bolt11: Seq<char>,
    pub payment_hash: Seq<char>,
    pub expires_at: int,
    pub scid: Seq<char>,
}

impl View for PaymentMetadata {
    type V = PaymentMetadataView;

    open spec fn view(&self) -> PaymentMetadataView {
        PaymentMetadataView {
            bolt11: self.bolt11@,
            payment_hash: self.payment_hash@,
            expires_at: self.expires_at as int,
            scid: self.scid@,
        }
    }
}

/// Whether an invoice has a first route hint with a first hop, and an expiry.
pub open spec fn has_metadata(invoice: InvoiceView) -> bool {
    &&& invoice.route_hints.len() > 0
    &&& invoice.route_hints[0].len() > 0
    &&& invoice.expires_at is Some
}

/// What the caller learns of an invoice: the short channel id is that of the first hop of the
/// first route hint.
pub open spec fn metadata_of(invoice: InvoiceView) -> PaymentMetadataView {
    PaymentMetadataView {
        bolt11: invoice.bolt11,
        payment_hash: invoice.payment_hash,
        expires_at: amount::signed(invoice.expires_at->0 as int),
        scid: scid::scid_text(invoice.route_hints[0][0]),
    }
}

/// Reads a BOLT 11 invoice.
pub fn read_invoice(bolt11: &str) -> (res: Option<Invoice>)
    ensures
        res is Some <==> ldk::bolt11_invoice(bolt11@) is Some,
        res matches Some(invoice) ==> invoice@ == ldk::bolt11_invoice(bolt11@)->0,
{
    ldk::read_bolt11(bolt11)
}

/// What the caller learns of an invoice.
pub fn invoice_to_payment_metadata(invoice: Invoice) -> (res: PaymentMetadata)
    requires
        has_metadata(invoice@),
    ensures
        res@ == metadata_of(invoice@),
{
    assert(invoice@.route_hints[0] == invoice.route_hints@[0]@);
    let human_readable_scid = scid::scid_to_string(invoice.route_hints[0][0]);
    let expires_at: u64 = match invoice.expires_at {
        Some(expires_at) => expires_at,
        None => 0,
    };
    PaymentMetadata {
        bolt11: invoice.bolt11,
        payment_hash: invoice.payment_hash,
        expires_at: amount::same_bits_i64(expires_at),
        scid: human_readable_scid,
    }
}

/// Why the caller learns nothing of an invoice.
#[derive(Clone, Copy, PartialEq, Eq, Debug, Structural)]
pub enum MetadataError {
    /// The text is no invoice.
    NotAnInvoice,
    /// The invoice has no route hint.
    NoRouteHint,
    /// The first route hint has no hop.
    NoHop,
    /// The expiry cannot be expressed.
    NoExpiry,
}

/// What the caller learns of an invoice, or what is missing from it.
pub open spec fn checked_metadata_of(invoice: InvoiceView) -> Result<
    PaymentMetadataView,
    MetadataError,
> {
    if invoice.route_hints.len() == 0 {
        Err(MetadataError::NoRouteHint)
    } else if invoice.route_hints[0].len() == 0 {
        Err(MetadataError::NoHop)
    } else if invoice.expires_at is None {
        Err(MetadataError::NoExpiry)
    } else {
        Ok(metadata_of(invoice))
    }
}

/// What the caller learns of an invoice, or what is missing from it.
pub fn checked_metadata(invoice: Invoice) -> (res: Result<PaymentMetadata, MetadataError>)
    ensures
        match checked_metadata_of(invoice@) {
            Ok(metadata) => res is Ok && res->Ok_0@ == metadata,
            Err(error) => res == Err::<PaymentMetadata, MetadataError>(error),
        },
{
    if invoice.route_hints.len() == 0 {
        return Err(MetadataError::NoRouteHint);
    }
    assert(invoice@.route_hints[0] == invoice.route_hints@[0]@);
    if invoice.route_hints[0].len() == 0 {
        return Err(MetadataError::NoHop);
    }
    if invoice.expires_at.is_none() {
        return Err(MetadataError::NoExpiry);
    }
    Ok(invoice_to_payment_metadata(invoice))
}

/// What the caller learns of an invoice that is given as text, or why it learns nothing.
pub open spec fn text_metadata(bolt11: Seq<char>) -> Result<PaymentMetadataView, MetadataError> {
    match ldk::bolt11_invoice(bolt11) {
        None => Err(MetadataError::NotAnInvoice),
        Some(invoice) => checked_metadata_of(invoice),
    }
}

/// What the caller learns of an invoice that is given as text.
pub fn payment_metadata(bolt11: &str) -> (res: Result<PaymentMetadata, MetadataError>)
    ensures
        match text_metadata(bolt11@) {
            Ok(metadata) => res is Ok && res->Ok_0@ == metadata,
            Err(error) => res == Err::<PaymentMetadata, MetadataError>(error),
        },
{
    match read_invoice(bolt11) {
        None => Err(MetadataError::NotAnInvoice),
        Some(invoice) => checked_metadata(invoice),
    }
}

/// What the node is asked for to get an invoice.
#[derive(Clone, PartialEq, Eq, Debug)]
pub struct InvoiceRequest {
    /// The short channel id to be paid through, where the caller chose one.
    pub scid: Option<u64>,
    /// The amount in millisatoshi, or none for an invoice that leaves it open.
    pub amount_msat: Option<u64>,
    pub description: String,
    pub expiry_secs: u32,
}

pub struct InvoiceRequestView {
    pub scid: Option<u64>,
    pub amount_msat: Option<u64>,
    pub description: Seq<char>,
    pub expiry_secs: int,
}

impl View for InvoiceRequest {
    type V = InvoiceRequestView;

    open spec fn view(&self) -> InvoiceRequestView {
        InvoiceRequestView {
            scid: self.scid,
            amount_msat: self.amount_msat,
            description: self.description@,
            expiry_secs: self.expiry_secs as int,
        }
    }
}

/// Why no invoice is asked for.
#[derive(Clone, Copy, PartialEq, Eq, Debug, Structural)]
pub enum RequestError {
    DescriptionTooLong,
    InvalidScid,
}

/// Whether a description fits in an invoice.
pub open spec fn description_fits(description: Seq<char>) -> bool {
    vstd::utf8::encode_utf8(description).len() <= ldk::MAX_DESCRIPTION_BYTES
}

/// The amount that is asked for: the same 64 bits, read as an unsigned number.
pub open spec fn requested_amount(amount: Option<i64>) -> Option<u64> {
    match amount {
        Some(amount) => Some((amount as int % 0x1_0000_0000_0000_0000) as u64),
        None => None,
    }
}

/// What the node is asked for. A description that does not fit is refused, and so, after that, is
/// a text that is no short channel id. The expiry is cut down to its lowest 32 bits.
pub open spec fn request_for(
    human_readable_scid: Option<Seq<char>>,
    amount: Option<i64>,
    description: Seq<char>,
    expiry_secs: i64,
) -> Result<InvoiceRequestView, RequestError> {
    let scid = match human_readable_scid {
        Some(input) => scid::parsed_scid(input),
        None => None,
    };
    if !description_fits(description) {
        Err(RequestError::DescriptionTooLong)
    } else if human_readable_scid is Some && scid is None {
        Err(RequestError::InvalidScid)
    } else {
        Ok(
            InvoiceRequestView {
                scid,
                amount_msat: requested_amount(amount),
                description,
                expiry_secs: expiry_secs as int % 0x1_0000_0000,
            },
        )
    }
}

/// Puts together what the node is asked for.
pub fn invoice_request(amount: Option<i64>, description: String, expiry_secs: i64) -> (res: Result<
    InvoiceRequest,
    RequestError,
>)
    ensures
        match request_for(None, amount, description@, expiry_secs) {
            Ok(request) => res is Ok && res->Ok_0@ == request,
            Err(error) => res == Err::<InvoiceRequest, RequestError>(error),
        },
{
    match ldk::checked_description(description) {
        None => Err(RequestError::DescriptionTooLong),
        Some(description) => Ok(
            InvoiceRequest {
                scid: None,
                amount_msat: match amount {
                    Some(amount) => Some(amount::same_bits_u64(amount)),
                    None => None,
                },
                description,
                expiry_secs: amount::low_bits_u32(expiry_secs),
            },
        ),
    }
}

/// Puts together what the node is asked for, with a short channel id of the caller's choice.
pub fn invoice_request_with_scid(
    human_readable_scid: &str,
    amount: Option<i64>,
    description: String,
    expiry_secs: i64,
) -> (res: Result<InvoiceRequest, RequestError>)
    ensures
        match request_for(Some(human_readable_scid@), amount, description@, expiry_secs) {
            Ok(request) => res is Ok && res->Ok_0@ == request,
            Err(error) => res == Err::<InvoiceRequest, RequestError>(error),
        },
{
    match invoice_request(amount, description, expiry_secs) {
        Err(error) => Err(error),
        Ok(request) => match scid::scid_from_human_readable_string(human_readable_scid) {
            Err(_) => Err(RequestError::InvalidScid),
            Ok(scid) => Ok(
                InvoiceRequest {
                    scid: Some(scid),
                    amount_msat: request.amount_msat,
                    description: request.description,
                    expiry_secs: request.expiry_secs,
                },
            ),
        },
    }
}

/// The calls by which an invoice can be asked for.
#[derive(Clone, PartialEq, Eq, Debug)]
pub enum InvoiceCall {
    GetInvoice { amount: i64 },
    GetInvoiceWhileRunning { amount: i64 },
    GetVariableAmountJitInvoice,
    GetVariableAmountJitInvoiceWhileRunning,
    GetInvoiceWithScid { human_readable_scid: String, amount: i64 },
    GetVariableAmountJitInvoiceWithScid { human_readable_scid: String },
}

/// The amount that a call names, if it names one.
pub open spec fn amount_of(call: InvoiceCall) -> Option<i64> {
    match call {
        InvoiceCall::GetInvoice { amount } => Some(amount),
        InvoiceCall::GetInvoiceWhileRunning { amount } => Some(amount),
        InvoiceCall::GetInvoiceWithScid { amount, .. } => Some(amount),
        _ => None,
    }
}

/// The short channel id that a call names, if it names one.
pub open spec fn scid_of(call: InvoiceCall) -> Option<Seq<char>> {
    match call {
        InvoiceCall::GetInvoiceWithScid { human_readable_scid, .. } => Some(human_readable_scid@),
        InvoiceCall::GetVariableAmountJitInvoiceWithScid { human_readable_scid } => Some(
            human_readable_scid@,
        ),
        _ => None,
    }
}

/// What the node is asked for by a call.
pub open spec fn request_of(call: InvoiceCall, description: Seq<char>, expiry_secs: i64) -> Result<
    InvoiceRequestView,
    RequestError,
> {
    request_for(scid_of(call), amount_of(call), description, expiry_secs)
}

/// Whether a call returns the failure to get an invoice. The others panic.
pub open spec fn returns_failure(call: InvoiceCall) -> bool {
    call is GetInvoiceWhileRunning || call is GetVariableAmountJitInvoiceWhileRunning
}

/// What a call does with the node: only one starts and stops it, the others are for a node that
/// is running already.
pub open spec fn operation_of(call: InvoiceCall) -> Operation {
    if call is GetInvoice {
        Operation::GetInvoice
    } else {
        Operation::GetInvoiceWhileRunning
    }
}

/// What comes of asking for an invoice.
#[derive(PartialEq, Eq, Debug)]
pub enum InvoiceOutcome {
    /// What the caller learns of the invoice.
    Metadata(PaymentMetadata),
    /// The failure that is returned.
    Failed(Error),
    /// There is no invoice, and the call panics.
    NoInvoice(Error),
    /// The invoice lacks something that the caller has to learn, and the call panics.
    Incomplete(MetadataError),
}

pub enum InvoiceOutcomeView {
    Metadata(PaymentMetadataView),
    Failed(Error),
    NoInvoice(Error),
    Incomplete(MetadataError),
}

impl View for InvoiceOutcome {
    type V = InvoiceOutcomeView;

    open spec fn view(&self) -> InvoiceOutcomeView {
        match self {
            InvoiceOutcome::Metadata(metadata) => InvoiceOutcomeView::Metadata(metadata@),
            InvoiceOutcome::Failed(error) => InvoiceOutcomeView::Failed(*error),
            InvoiceOutcome::NoInvoice(error) => InvoiceOutcomeView::NoInvoice(*error),
            InvoiceOutcome::Incomplete(missing) => InvoiceOutcomeView::Incomplete(*missing),
        }
    }
}

/// What comes of a call, from what was learned of the invoice that the node gave, or from the
/// node's failure to give one.
pub open spec fn outcome_of(
    call: InvoiceCall,
    learned: Result<Result<PaymentMetadataView, MetadataError>, String>,
) -> InvoiceOutcomeView {
    match learned {
        Ok(Ok(metadata)) => InvoiceOutcomeView::Metadata(metadata),
        Ok(Err(missing)) => InvoiceOutcomeView::Incomplete(missing),
        Err(failure) => if returns_failure(call) {
            InvoiceOutcomeView::Failed(Error::GetInvoice(failure))
        } else {
            InvoiceOutcomeView::NoInvoice(Error::GetInvoice(failure))
        },
    }
}

/// What is learned of what the node gave: the text of an invoice, or its failure to give one.
pub open spec fn learned_of(reply: Result<String, String>) -> Result<
    Result<PaymentMetadataView, MetadataError>,
    String,
> {
    match reply {
        Ok(bolt11) => Ok(text_metadata(bolt11@)),
        Err(failure) => Err(failure),
    }
}

/// Puts together what the node is asked for by a call.
pub fn request_by(call: &InvoiceCall, description: String, expiry_secs: i64) -> (res: Result<
    InvoiceRequest,
    RequestError,
>)
    ensures
        match request_of(*call, description@, expiry_secs) {
            Ok(request) => res is Ok && res->Ok_0@ == request,
            Err(error) => res == Err::<InvoiceRequest, RequestError>(error),
        },
{
    match call {
        InvoiceCall::GetInvoice { amount } => {
            invoice_request(Some(*amount), description, expiry_secs)
        },
        InvoiceCall::GetInvoiceWhileRunning { amount } => {
            invoice_request(Some(*amount), description, expiry_secs)
        },
        InvoiceCall::GetVariableAmountJitInvoice => invoice_request(None, description, expiry_secs),
        InvoiceCall::GetVariableAmountJitInvoiceWhileRunning => {
            invoice_request(None, description, expiry_secs)
        },
        InvoiceCall::GetInvoiceWithScid { human_readable_scid, amount } => {
            invoice_request_with_scid(human_readable_scid, Some(*amount), description, expiry_secs)
        },
        InvoiceCall::GetVariableAmountJitInvoiceWithScid { human_readable_scid } => {
            invoice_request_with_scid(human_readable_scid, None, description, expiry_secs)
        },
    }
}

/// What a call does with the node.
pub fn operation_by(call: &InvoiceCall) -> (res: Operation)
    ensures
        res == operation_of(*call),
{
    match call {
        InvoiceCall::GetInvoice { .. } => Operation::GetInvoice,
        _ => Operation::GetInvoiceWhileRunning,
    }
}

/// Decides what comes of a call, from what was learned of the invoice that the node gave, or from
/// the node's failure to give one.
pub fn conclude(
    call: &InvoiceCall,
    learned: Result<Result<PaymentMetadata, MetadataError>, String>,
) -> (res: InvoiceOutcome)
    ensures
        res@ == outcome_of(
            *call,
            match learned {
                Ok(Ok(metadata)) => Ok(Ok(metadata@)),
                Ok(Err(missing)) => Ok(Err(missing)),
                Err(failure) => Err(failure),
            },
        ),
{
    match learned {
        Ok(metadata) => match metadata {
            Ok(metadata) => InvoiceOutcome::Metadata(metadata),
            Err(missing) => InvoiceOutcome::Incomplete(missing),
        },
        Err(failure) => match call {
            InvoiceCall::GetInvoiceWhileRunning { .. }
            | InvoiceCall::GetVariableAmountJitInvoiceWhileRunning => InvoiceOutcome::Failed(
                Error::GetInvoice(failure),
            ),
            _ => InvoiceOutcome::NoInvoice(Error::GetInvoice(failure)),
        },
    }
}

/// Decides what comes of a call, from the text of the invoice that the node gave, or from its
/// failure to give one.
pub fn conclude_reply(call: &InvoiceCall, reply: Result<String, String>) -> (res: InvoiceOutcome)
    ensures
        res@ == outcome_of(*call, learned_of(reply)),
{
    match reply {
        Ok(bolt11) => conclude(call, Ok(payment_metadata(&bolt11))),
        Err(failure) => conclude(call, Err(failure)),
    }
}

/// The two calls for an invoice of open amount agree. Neither starts, brings up to date or stops
/// the node. Both ask it for the same, and for no amount rather than for an amount of zero.
/// Whatever the node replies, one tells the caller the same of the invoice as the other, and where
/// one returns a failure the other panics over it.
pub proof fn law_calls_for_an_open_amount_agree(
    description: Seq<char>,
    expiry_secs: i64,
    reply: Result<String, String>,
    outcomes: Seq<Result<(), String>>,
)
    requires
        outcomes.len() >= 1,
    ensures
        ({
            let call = InvoiceCall::GetVariableAmountJitInvoice;
            let running = InvoiceCall::GetVariableAmountJitInvoiceWhileRunning;
            let told = outcome_of(call, learned_of(reply));
            let told_running = outcome_of(running, learned_of(reply));
            &&& session::calls(operation_of(call), Ok(()), outcomes) == seq![NodeCall::Work]
            &&& session::calls(operation_of(running), Ok(()), outcomes) == seq![NodeCall::Work]
            &&& request_of(call, description, expiry_secs) == request_of(
                running,
                description,
                expiry_secs,
            )
            &&& request_of(running, description, expiry_secs) is Ok <==> description_fits(
                description,
            )
            &&& request_of(running, description, expiry_secs) matches Ok(request) ==> {
                &&& request.amount_msat is None
                &&& request.scid is None
                &&& request.description == description
                &&& request.expiry_secs == expiry_secs as int % 0x1_0000_0000
            }
            &&& match told_running {
                InvoiceOutcomeView::Failed(error) => told == InvoiceOutcomeView::NoInvoice(error),
                InvoiceOutcomeView::NoInvoice(_) => false,
                _ => told == told_running,
            }
        }),
{
    session::law_a_running_node_is_only_put_to_work(
        Operation::GetInvoiceWhileRunning,
        Ok(()),
        outcomes,
    );
}

/// Whether the amount is named makes no difference to what a running node's reply comes to, and
/// starting and stopping the node makes none to what is asked of it or learned of the invoice.
pub proof fn law_the_amount_changes_only_the_request(
    amount: i64,
    description: Seq<char>,
    expiry_secs: i64,
    reply: Result<String, String>,
)
    ensures
        ({
            let open = InvoiceCall::GetVariableAmountJitInvoiceWhileRunning;
            let named = InvoiceCall::GetInvoiceWhileRunning { amount };
            let started = InvoiceCall::GetInvoice { amount };
            &&& outcome_of(open, learned_of(reply)) == outcome_of(named, learned_of(reply))
            &&& request_of(named, description, expiry_secs) == request_of(
                started,
                description,
                expiry_secs,
            )
            &&& request_of(named, description, expiry_secs) matches Ok(request) ==> request_of(
                open,
                description,
                expiry_secs,
            ) == Ok::<InvoiceRequestView, RequestError>(
                InvoiceRequestView { amount_msat: None, ..request },
            )
            &&& match outcome_of(named, learned_of(reply)) {
                InvoiceOutcomeView::Failed(error) => outcome_of(started, learned_of(reply))
                    == InvoiceOutcomeView::NoInvoice(error),
                told => outcome_of(started, learned_of(reply)) == told,
            }
        }),
{
}

/// The node is asked for exactly the amount that the call names, to the millisatoshi, or, where it
/// is negative, the one with the same bits. A call that names none asks for none, which is not the
/// same as asking for zero.
pub proof fn law_the_amount_of_the_call_is_asked_for(
    call: InvoiceCall,
    description: Seq<char>,
    expiry_secs: i64,
)
    ensures
        request_of(call, description, expiry_secs) matches Ok(request) ==> {
            let named = match call {
                InvoiceCall::GetInvoice { amount } => Some(amount),
                InvoiceCall::GetInvoiceWhileRunning { amount } => Some(amount),
                InvoiceCall::GetInvoiceWithScid { amount, .. } => Some(amount),
                InvoiceCall::GetVariableAmountJitInvoice => None,
                InvoiceCall::GetVariableAmountJitInvoiceWhileRunning => None,
                InvoiceCall::GetVariableAmountJitInvoiceWithScid { .. } => None,
            };
            &&& request.amount_msat is Some <==> named is Some
            &&& named matches Some(amount) ==> {
                &&& amount >= 0 ==> request.amount_msat->0 == amount
                &&& amount < 0 ==> request.amount_msat->0 == amount + 0x1_0000_0000_0000_0000
            }
        },
{
}

/// Different amounts are never asked for by the same request.
pub proof fn law_different_amounts_are_asked_for_differently(
    amount: i64,
    other: i64,
    description: Seq<char>,
    expiry_secs: i64,
)
    requires
        amount != other,
        vstd::utf8::encode_utf8(description).len() <= 639,
    ensures
        request_of(InvoiceCall::GetInvoice { amount }, description, expiry_secs) != request_of(
            InvoiceCall::GetInvoice { amount: other },
            description,
            expiry_secs,
        ),
        request_of(InvoiceCall::GetInvoiceWhileRunning { amount }, description, expiry_secs)
            != request_of(
            InvoiceCall::GetInvoiceWhileRunning { amount: other },
            description,
            expiry_secs,
        ),
{
    let first = request_of(InvoiceCall::GetInvoice { amount }, description, expiry_secs);
    let second = request_of(
        InvoiceCall::GetInvoice { amount: other },
        description,
        expiry_secs,
    );
    law_the_amount_of_the_call_is_asked_for(
        InvoiceCall::GetInvoice { amount },
        description,
        expiry_secs,
    );
    law_the_amount_of_the_call_is_asked_for(
        InvoiceCall::GetInvoice { amount: other },
        description,
        expiry_secs,
    );
    assert(first is Ok && second is Ok);
    assert(first->Ok_0.amount_msat->0 != second->Ok_0.amount_msat->0);
}

/// The node is asked for the caller's own description and expiry, and through the short channel
/// id that the call names. An expiry that does not fit in 32 bits differs from what is asked for
/// by a multiple of two to the power of 32.
pub proof fn law_description_and_expiry_are_the_callers(
    call: InvoiceCall,
    description: Seq<char>,
    expiry_secs: i64,
)
    ensures
        request_of(call, description, expiry_secs) matches Ok(request) ==> {
            &&& request.description == description
            &&& 0 <= expiry_secs <= 0xffff_ffff ==> request.expiry_secs == expiry_secs
            &&& (request.expiry_secs - expiry_secs) % 0x1_0000_0000 == 0
            &&& 0 <= request.expiry_secs <= 0xffff_ffff
            &&& match call {
                InvoiceCall::GetInvoiceWithScid { human_readable_scid, .. } => {
                    request.scid == scid::parsed_scid(human_readable_scid@)
                },
                InvoiceCall::GetVariableAmountJitInvoiceWithScid { human_readable_scid } => {
                    request.scid == scid::parsed_scid(human_readable_scid@)
                },
                _ => request.scid is None,
            }
        },
{
}

/// Nothing is asked for exactly where the description takes more than 639 bytes, or, where it does
/// not, the short channel id that the call names is none.
pub proof fn law_what_is_not_asked_for(
    call: InvoiceCall,
    description: Seq<char>,
    expiry_secs: i64,
)
    ensures
        ({
            let too_long = vstd::utf8::encode_utf8(description).len() > 639;
            let no_scid = match call {
                InvoiceCall::GetInvoiceWithScid { human_readable_scid, .. } => {
                    scid::parsed_scid(human_readable_scid@) is None
                },
                InvoiceCall::GetVariableAmountJitInvoiceWithScid { human_readable_scid } => {
                    scid::parsed_scid(human_readable_scid@) is None
                },
                _ => false,
            };
            let request = request_of(call, description, expiry_secs);
            &&& request == Err::<InvoiceRequestView, RequestError>(RequestError::DescriptionTooLong)
                <==> too_long
            &&& request == Err::<InvoiceRequestView, RequestError>(RequestError::InvalidScid)
                <==> !too_long && no_scid
            &&& request is Ok <==> !too_long && !no_scid
        }),
{
}

/// The two ways to put a request together are those of the calls: with and without a short
/// channel id.
pub proof fn law_requests_are_those_of_the_calls(
    human_readable_scid: String,
    amount: i64,
    description: Seq<char>,
    expiry_secs: i64,
)
    ensures
        request_for(None, Some(amount), description, expiry_secs) == request_of(
            InvoiceCall::GetInvoice { amount },
            description,
            expiry_secs,
        ),
        request_for(None, None, description, expiry_secs) == request_of(
            InvoiceCall::GetVariableAmountJitInvoice,
            description,
            expiry_secs,
        ),
        request_for(Some(human_readable_scid@), Some(amount), description, expiry_secs)
            == request_of(
            InvoiceCall::GetInvoiceWithScid { human_readable_scid, amount },
            description,
            expiry_secs,
        ),
        request_for(Some(human_readable_scid@), None, description, expiry_secs) == request_of(
            InvoiceCall::GetVariableAmountJitInvoiceWithScid { human_readable_scid },
            description,
            expiry_secs,
        ),
{
}

/// The caller learns the invoice's own text, payment hash and expiry, and the short channel id of
/// the first hop of the first route hint, whatever else the invoice holds.
pub proof fn law_the_caller_learns_what_the_invoice_says(invoice: InvoiceView)
    ensures
        ({
            let learned = checked_metadata_of(invoice);
            &&& learned == Err::<PaymentMetadataView, MetadataError>(MetadataError::NoRouteHint)
                <==> invoice.route_hints.len() == 0
            &&& learned == Err::<PaymentMetadataView, MetadataError>(MetadataError::NoHop)
                <==> invoice.route_hints.len() > 0 && invoice.route_hints[0].len() == 0
            &&& learned == Err::<PaymentMetadataView, MetadataError>(MetadataError::NoExpiry)
                <==> invoice.route_hints.len() > 0 && invoice.route_hints[0].len() > 0
                && invoice.expires_at is None
            &&& learned is Ok <==> invoice.route_hints.len() > 0 && invoice.route_hints[0].len() > 0
                && invoice.expires_at is Some
            &&& has_metadata(invoice) <==> learned is Ok
            &&& learned matches Ok(metadata) ==> {
                &&& metadata == metadata_of(invoice)
                &&& metadata.bolt11 == invoice.bolt11
                &&& metadata.payment_hash == invoice.payment_hash
                &&& metadata.scid == scid::scid_text(invoice.route_hints[0][0])
                &&& invoice.expires_at->0 <= 0x7fff_ffff_ffff_ffff ==> metadata.expires_at
                    == invoice.expires_at->0
                &&& invoice.expires_at->0 > 0x7fff_ffff_ffff_ffff ==> metadata.expires_at
                    == invoice.expires_at->0 - 0x1_0000_0000_0000_0000
            }
        }),
{
}

/// What the caller is told of the node's reply: what is learned from the text of the invoice, or
/// the whole of the node's failure, which two of the calls return and the others panic over.
pub proof fn law_what_the_caller_is_told_of_the_reply(
    call: InvoiceCall,
    bolt11: String,
    failure: String,
    learned: PaymentMetadataView,
    lacking: MetadataError,
)
    ensures
        outcome_of(call, Ok(Ok(learned))) == InvoiceOutcomeView::Metadata(learned),
        outcome_of(call, Ok(Err(lacking))) == InvoiceOutcomeView::Incomplete(lacking),
        ({
            let returned = call is GetInvoiceWhileRunning
                || call is GetVariableAmountJitInvoiceWhileRunning;
            let told = outcome_of(call, learned_of(Ok(bolt11)));
            &&& outcome_of(call, learned_of(Err(failure))) == if returned {
                InvoiceOutcomeView::Failed(Error::GetInvoice(failure))
            } else {
                InvoiceOutcomeView::NoInvoice(Error::GetInvoice(failure))
            }
            &&& ldk::bolt11_invoice(bolt11@) is None ==> told == InvoiceOutcomeView::Incomplete(
                MetadataError::NotAnInvoice,
            )
            &&& ldk::bolt11_invoice(bolt11@) matches Some(invoice) ==> match checked_metadata_of(
                invoice,
            ) {
                Ok(metadata) => told == InvoiceOutcomeView::Metadata(metadata),
                Err(missing) => told == InvoiceOutcomeView::Incomplete(missing),
            }
            &&& operation_of(call) == if call is GetInvoice {
                Operation::GetInvoice
            } else {
                Operation::GetInvoiceWhileRunning
            }
        }),
{
}

/// Invoices, requests and what the caller learns are seen as they are.
pub proof fn law_invoices_are_seen_as_they_are(
    invoice: Invoice,
    metadata: PaymentMetadata,
    request: InvoiceRequest,
    error: Error,
    missing: MetadataError,
)
    ensures
        invoice@.bolt11 == invoice.bolt11@,
        invoice@.payment_hash == invoice.payment_hash@,
        invoice@.amount_msat == invoice.amount_msat,
        invoice@.expires_at == invoice.expires_at,
        invoice@.route_hints.len() == invoice.route_hints@.len(),
        forall|i: int|
            0 <= i < invoice.route_hints@.len() ==> #[trigger] invoice@.route_hints[i]
                == invoice.route_hints@[i]@,
        metadata@.bolt11 == metadata.bolt11@,
        metadata@.payment_hash == metadata.payment_hash@,
        metadata@.expires_at == metadata.expires_at,
        metadata@.scid == metadata.scid@,
        request@.scid == request.scid,
        request@.amount_msat == request.amount_msat,
        request@.description == request.description@,
        request@.expiry_secs == request.expiry_secs,
        InvoiceOutcome::Metadata(metadata)@ == InvoiceOutcomeView::Metadata(metadata@),
        InvoiceOutcome::Failed(error)@ == InvoiceOutcomeView::Failed(error),
        InvoiceOutcome::NoInvoice(error)@ == InvoiceOutcomeView::NoInvoice(error),
        InvoiceOutcome::Incomplete(missing)@ == InvoiceOutcomeView::Incomplete(missing),
{
}

} // verus!
