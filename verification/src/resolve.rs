//! From a destination to what is paid: which method is used, and for how much.

use vstd::prelude::*;

use crate::error::Error;
use crate::invoice::{Invoice, InvoiceView};
use crate::ldk;

verus! {

/// A way in which a destination can be paid.
#[derive(PartialEq, Eq, Debug)]
pub enum PaymentMethod {
    /// A BOLT 11 invoice.
    LightningBolt11(String),
    /// A BOLT 12 offer.
    LightningBolt12(String),
    /// Anything that is not paid over Lightning.
    Other,
}

/// What a method was read as.
#[derive(PartialEq, Eq, Debug)]
pub enum ReadMethod {
    Bolt11(Invoice),
    Bolt12(String),
    /// The method cannot be used.
    Unusable,
}

pub enum ReadMethodView {
    Bolt11(InvoiceView),
    Bolt12(Seq<char>),
    Unusable,
}

impl View for ReadMethod {
    type V = ReadMethodView;

    open spec fn view(&self) -> ReadMethodView {
        match self {
            ReadMethod::Bolt11(invoice) => ReadMethodView::Bolt11(invoice@),
            ReadMethod::Bolt12(offer) => ReadMethodView::Bolt12(offer@),
            ReadMethod::Unusable => ReadMethodView::Unusable,
        }
    }
}

/// What a destination was read as.
#[derive(PartialEq, Eq, Debug)]
pub enum PaymentInstructions {
    /// The destination names the amount, though perhaps not for a payment over Lightning.
    FixedAmount { ln_amount_msat: Option<u64>, methods: Vec<PaymentMethod> },
    /// The payer names the amount, and only then are the methods known.
    ConfigurableAmount,
}

/// What is paid, and how much in millisatoshi.
#[derive(PartialEq, Eq, Debug)]
pub enum PaymentTarget {
    Bolt11(Invoice, u64),
    Bolt12(String, u64),
}

pub enum PaymentTargetView {
    Bolt11(InvoiceView, u64),
    Bolt12(Seq<char>, u64),
}

impl View for PaymentTarget {
    type V = PaymentTargetView;

    open spec fn view(&self) -> PaymentTargetView {
        match self {
            PaymentTarget::Bolt11(invoice, amount_msat) => PaymentTargetView::Bolt11(
                invoice@,
                *amount_msat,
            ),
            PaymentTarget::Bolt12(offer, amount_msat) => PaymentTargetView::Bolt12(
                offer@,
                *amount_msat,
            ),
        }
    }
}

impl PaymentTargetView {
    pub open spec fn amount_msat(self) -> u64 {
        match self {
            PaymentTargetView::Bolt11(_, amount_msat) => amount_msat,
            PaymentTargetView::Bolt12(_, amount_msat) => amount_msat,
        }
    }
}

impl PaymentTarget {
    pub fn amount_msat(&self) -> (res: u64)
        ensures
            res == self@.amount_msat(),
    {
        match self {
            PaymentTarget::Bolt11(_, amount_msat) => *amount_msat,
            PaymentTarget::Bolt12(_, amount_msat) => *amount_msat,
        }
    }
}

/// What comes of reading a destination.
#[derive(PartialEq, Eq, Debug)]
pub enum Resolution {
    /// This is to be paid, and the outcome awaited for so many seconds where there are any.
    Resolved(PaymentTarget, Option<u64>),
    /// The destination has first to be asked for this amount.
    SetAmount { amount_msat: u64, wait_secs: Option<u64> },
}

pub enum ResolutionView {
    Resolved(PaymentTargetView, Option<u64>),
    SetAmount { amount_msat: u64, wait_secs: Option<u64> },
}

impl View for Resolution {
    type V = ResolutionView;

    open spec fn view(&self) -> ResolutionView {
        match self {
            Resolution::Resolved(target, wait_secs) => ResolutionView::Resolved(target@, *wait_secs),
            Resolution::SetAmount { amount_msat, wait_secs } => ResolutionView::SetAmount {
                amount_msat: *amount_msat,
                wait_secs: *wait_secs,
            },
        }
    }
}

/// How long the outcome is awaited: not at all unless for a positive number of seconds.
pub open spec fn wait_secs_of(wait_for_payment_secs: Option<i64>) -> Option<u64> {
    match wait_for_payment_secs {
        Some(secs) => if secs > 0 {
            Some(secs as u64)
        } else {
            None
        },
        None => None,
    }
}

/// What a method is read as: it can be used if it is an invoice or an offer that can be read. An
/// invoice keeps the text that it was read from.
pub open spec fn method_read(method: PaymentMethod) -> ReadMethodView {
    match method {
        PaymentMethod::LightningBolt11(bolt11) => match ldk::bolt11_invoice(bolt11@) {
            Some(invoice) => ReadMethodView::Bolt11(InvoiceView { bolt11: bolt11@, ..invoice }),
            None => ReadMethodView::Unusable,
        },
        PaymentMethod::LightningBolt12(offer) => if ldk::is_offer(offer@) {
            ReadMethodView::Bolt12(offer@)
        } else {
            ReadMethodView::Unusable
        },
        PaymentMethod::Other => ReadMethodView::Unusable,
    }
}

pub open spec fn methods_read(methods: Seq<PaymentMethod>) -> Seq<ReadMethodView> {
    methods.map_values(|method: PaymentMethod| method_read(method))
}

/// What is paid with a method.
pub open spec fn method_target(read: ReadMethodView, amount_msat: u64) -> Option<
    PaymentTargetView,
> {
    match read {
        ReadMethodView::Bolt11(invoice) => Some(PaymentTargetView::Bolt11(invoice, amount_msat)),
        ReadMethodView::Bolt12(offer) => Some(PaymentTargetView::Bolt12(offer, amount_msat)),
        ReadMethodView::Unusable => None,
    }
}

/// What is paid: that of the first method that can be used.
pub open spec fn first_target(read: Seq<ReadMethodView>, amount_msat: u64) -> Option<
    PaymentTargetView,
>
    decreases read.len(),
{
    if read.len() == 0 {
        None
    } else {
        match method_target(read[0], amount_msat) {
            Some(target) => Some(target),
            None => first_target(read.drop_first(), amount_msat),
        }
    }
}

/// What is paid to a destination that names its amount.
pub open spec fn fixed_resolution(ln_amount_msat: Option<u64>, read: Seq<ReadMethodView>) -> Result<
    PaymentTargetView,
    Error,
> {
    match ln_amount_msat {
        None => Err(Error::NoLightningAmount),
        Some(amount_msat) => match first_target(read, amount_msat) {
            Some(target) => Ok(target),
            None => Err(Error::NoPaymentMethod),
        },
    }
}

/// What is paid to a destination that was asked for an amount. An invoice that names another
/// amount is refused.
pub open spec fn answered_resolution(read: Seq<ReadMethodView>, amount_msat: u64) -> Result<
    PaymentTargetView,
    Error,
> {
    match first_target(read, amount_msat) {
        None => Err(Error::NoPaymentMethod),
        Some(PaymentTargetView::Bolt11(invoice, _)) if invoice.amount_msat is Some
            && invoice.amount_msat->0 != amount_msat => Err(
            Error::InvoiceAmountMismatch {
                invoice_msat: invoice.amount_msat->0,
                requested_msat: amount_msat,
            },
        ),
        Some(target) => Ok(target),
    }
}

/// What comes of reading a destination. A destination that names its amount is paid that amount,
/// whatever the caller asked for. One that does not needs a positive amount from the caller, of
/// no more than there are bitcoin.
pub open spec fn resolution(
    parsed: Result<PaymentInstructions, String>,
    amount_msat: Option<i64>,
    wait_for_payment_secs: Option<i64>,
) -> Result<ResolutionView, Error> {
    let wait_secs = wait_secs_of(wait_for_payment_secs);
    match parsed {
        Err(failure) => Err(Error::ParseDestination(failure)),
        Ok(PaymentInstructions::FixedAmount { ln_amount_msat, methods }) => match fixed_resolution(
            ln_amount_msat,
            methods_read(methods@),
        ) {
            Ok(target) => Ok(ResolutionView::Resolved(target, wait_secs)),
            Err(error) => Err(error),
        },
        Ok(PaymentInstructions::ConfigurableAmount) => match amount_msat {
            None => Err(Error::AmountRequired),
            Some(amount_msat) => if amount_msat <= 0 {
                Err(Error::AmountNotPositive)
            } else if amount_msat > ldk::MAX_MSAT {
                Err(Error::AmountTooLarge)
            } else {
                Ok(ResolutionView::SetAmount { amount_msat: amount_msat as u64, wait_secs })
            },
        },
    }
}

/// What comes of asking a destination for an amount.
pub open spec fn configurable_resolution(
    answer: Result<Vec<PaymentMethod>, String>,
    amount_msat: u64,
) -> Result<PaymentTargetView, Error> {
    match answer {
        Err(failure) => Err(Error::SetAmount(failure)),
        Ok(methods) => answered_resolution(methods_read(methods@), amount_msat),
    }
}

/// What a payment goes to and how long its outcome is awaited, from what reading the destination
/// gave and what the destination answers where it is asked for an amount.
pub open spec fn resolved(
    parsed: Result<PaymentInstructions, String>,
    answer: Result<Vec<PaymentMethod>, String>,
    amount_msat: Option<i64>,
    wait_for_payment_secs: Option<i64>,
) -> Result<(PaymentTargetView, Option<u64>), Error> {
    match resolution(parsed, amount_msat, wait_for_payment_secs) {
        Err(error) => Err(error),
        Ok(ResolutionView::Resolved(target, wait_secs)) => Ok((target, wait_secs)),
        Ok(ResolutionView::SetAmount { amount_msat, wait_secs }) => match configurable_resolution(
            answer,
            amount_msat,
        ) {
            Err(error) => Err(error),
            Ok(target) => Ok((target, wait_secs)),
        },
    }
}

/// Reads a method.
pub fn read_method(method: PaymentMethod) -> (res: ReadMethod)
    ensures
        res@ == method_read(method),
{
    match method {
        PaymentMethod::LightningBolt11(bolt11) => match ldk::read_bolt11(&bolt11) {
            Some(invoice) => ReadMethod::Bolt11(
                Invoice {
                    bolt11,
                    payment_hash: invoice.payment_hash,
                    amount_msat: invoice.amount_msat,
                    expires_at: invoice.expires_at,
                    route_hints: invoice.route_hints,
                },
            ),
            None => ReadMethod::Unusable,
        },
        PaymentMethod::LightningBolt12(offer) => {
            if ldk::reads_as_offer(&offer) {
                ReadMethod::Bolt12(offer)
            } else {
                ReadMethod::Unusable
            }
        },
        PaymentMethod::Other => ReadMethod::Unusable,
    }
}

/// Reads methods.
pub fn read_methods(methods: Vec<PaymentMethod>) -> (res: Vec<ReadMethod>)
    ensures
        res@.map_values(|read: ReadMethod| read@) == methods_read(methods@),
{
    let mut res: Vec<ReadMethod> = Vec::new();
    for method in it: methods
        invariant
            it.seq() == methods@,
            res.len() == it.index(),
            forall|i: int| 0 <= i < res.len() ==> (#[trigger] res[i])@ == method_read(methods@[i]),
    {
        res.push(read_method(method));
    }
    assert(res@.map_values(|read: ReadMethod| read@) =~= methods_read(methods@));
    res
}

/// Finds what is paid: that of the first method that can be used.
pub fn find_target(read: Vec<ReadMethod>, amount_msat: u64) -> (res: Option<PaymentTarget>)
    ensures
        ({
            let views = read@.map_values(|read: ReadMethod| read@);
            &&& res is Some <==> first_target(views, amount_msat) is Some
            &&& res matches Some(target) ==> target@ == first_target(views, amount_msat)->0
        }),
{
    let ghost views = read@.map_values(|read: ReadMethod| read@);
    assert(views.skip(0) =~= views);
    for method in it: read
        invariant
            it.seq() == read@,
            views == read@.map_values(|read: ReadMethod| read@),
            first_target(views, amount_msat) == first_target(
                views.skip(it.index() as int),
                amount_msat,
            ),
    {
        proof {
            assert(views.skip(it.index() as int)[0] == method@);
            assert(views.skip(it.index() as int).drop_first() =~= views.skip(it.index() + 1));
        }
        match method {
            ReadMethod::Bolt11(invoice) => {
                return Some(PaymentTarget::Bolt11(invoice, amount_msat));
            },
            ReadMethod::Bolt12(offer) => {
                return Some(PaymentTarget::Bolt12(offer, amount_msat));
            },
            ReadMethod::Unusable => {},
        }
    }
    None
}

/// Decides what is paid to a destination that names its amount, from the methods as they were
/// read.
pub fn resolve_fixed(ln_amount_msat: Option<u64>, read: Vec<ReadMethod>) -> (res: Result<
    PaymentTarget,
    Error,
>)
    ensures
        match fixed_resolution(ln_amount_msat, read@.map_values(|read: ReadMethod| read@)) {
            Ok(target) => res is Ok && res->Ok_0@ == target,
            Err(error) => res == Err::<PaymentTarget, Error>(error),
        },
{
    match ln_amount_msat {
        None => Err(Error::NoLightningAmount),
        Some(amount_msat) => match find_target(read, amount_msat) {
            Some(target) => Ok(target),
            None => Err(Error::NoPaymentMethod),
        },
    }
}

/// Decides what is paid to a destination that was asked for an amount, from the methods as they
/// were read.
pub fn resolve_answered(read: Vec<ReadMethod>, amount_msat: u64) -> (res: Result<
    PaymentTarget,
    Error,
>)
    ensures
        match answered_resolution(read@.map_values(|read: ReadMethod| read@), amount_msat) {
            Ok(target) => res is Ok && res->Ok_0@ == target,
            Err(error) => res == Err::<PaymentTarget, Error>(error),
        },
{
    let target = match find_target(read, amount_msat) {
        Some(target) => target,
        None => {
            return Err(Error::NoPaymentMethod);
        },
    };
    if let PaymentTarget::Bolt11(invoice, _) = &target {
        if let Some(invoice_msat) = invoice.amount_msat {
            if invoice_msat != amount_msat {
                return Err(
                    Error::InvoiceAmountMismatch { invoice_msat, requested_msat: amount_msat },
                );
            }
        }
    }
    Ok(target)
}

/// Decides what comes of reading a destination.
pub fn resolve_payment_target(
    parsed: Result<PaymentInstructions, String>,
    amount_msat: Option<i64>,
    wait_for_payment_secs: Option<i64>,
) -> (res: Result<Resolution, Error>)
    ensures
        match resolution(parsed, amount_msat, wait_for_payment_secs) {
            Ok(resolved) => res is Ok && res->Ok_0@ == resolved,
            Err(error) => res == Err::<Resolution, Error>(error),
        },
{
    let wait_secs: Option<u64> = match wait_for_payment_secs {
        Some(secs) => if secs > 0 {
            Some(secs as u64)
        } else {
            None
        },
        None => None,
    };
    let instructions = match parsed {
        Ok(instructions) => instructions,
        Err(failure) => {
            return Err(Error::ParseDestination(failure));
        },
    };
    match instructions {
        PaymentInstructions::FixedAmount { ln_amount_msat, methods } => match resolve_fixed(
            ln_amount_msat,
            read_methods(methods),
        ) {
            Ok(target) => Ok(Resolution::Resolved(target, wait_secs)),
            Err(error) => Err(error),
        },
        PaymentInstructions::ConfigurableAmount => match amount_msat {
            None => Err(Error::AmountRequired),
            Some(amount_msat) => {
                if amount_msat <= 0 {
                    return Err(Error::AmountNotPositive);
                }
                match ldk::checked_amount(amount_msat as u64) {
                    Some(amount_msat) => Ok(Resolution::SetAmount { amount_msat, wait_secs }),
                    None => Err(Error::AmountTooLarge),
                }
            },
        },
    }
}

/// Decides what comes of asking a destination for an amount.
pub fn resolve_configurable_payment(
    answer: Result<Vec<PaymentMethod>, String>,
    amount_msat: u64,
    wait_secs: Option<u64>,
) -> (res: Result<(PaymentTarget, Option<u64>), Error>)
    ensures
        match configurable_resolution(answer, amount_msat) {
            Ok(target) => res is Ok && (res->Ok_0).0@ == target && (res->Ok_0).1 == wait_secs,
            Err(error) => res == Err::<(PaymentTarget, Option<u64>), Error>(error),
        },
{
    match answer {
        Err(failure) => Err(Error::SetAmount(failure)),
        Ok(methods) => match resolve_answered(read_methods(methods), amount_msat) {
            Ok(target) => Ok((target, wait_secs)),
            Err(error) => Err(error),
        },
    }
}

/// The first method that can be used is the one that is paid: no earlier one can be used, and
/// nothing is paid only where none can.
pub proof fn law_the_first_usable_method_is_paid(methods: Seq<ReadMethodView>, amount_msat: u64)
    ensures
        first_target(methods, amount_msat) is None <==> forall|i: int|
            0 <= i < methods.len() ==> method_target(#[trigger] methods[i], amount_msat) is None,
        first_target(methods, amount_msat) is Some ==> exists|i: int|
            0 <= i < methods.len() && first_target(methods, amount_msat) == method_target(
                #[trigger] methods[i],
                amount_msat,
            ) && forall|j: int|
                0 <= j < i ==> method_target(#[trigger] methods[j], amount_msat) is None,
        first_target(methods, amount_msat) matches Some(target) ==> target.amount_msat()
            == amount_msat,
    decreases methods.len(),
{
    if methods.len() > 0 {
        let rest = methods.drop_first();
        law_the_first_usable_method_is_paid(rest, amount_msat);
        if method_target(methods[0], amount_msat) is None {
            if first_target(rest, amount_msat) is Some {
                let i = choose|i: int|
                    0 <= i < rest.len() && first_target(rest, amount_msat) == method_target(
                        #[trigger] rest[i],
                        amount_msat,
                    ) && forall|j: int|
                        0 <= j < i ==> method_target(#[trigger] rest[j], amount_msat) is None;
                assert(methods[i + 1] == rest[i]);
                assert forall|j: int| 0 <= j < i + 1 implies method_target(
                    #[trigger] methods[j],
                    amount_msat,
                ) is None by {
                    if j > 0 {
                        assert(rest[j - 1] == methods[j]);
                    }
                }
            } else {
                assert forall|i: int| 0 <= i < methods.len() implies method_target(
                    #[trigger] methods[i],
                    amount_msat,
                ) is None by {
                    if i > 0 {
                        assert(rest[i - 1] == methods[i]);
                    }
                }
            }
        }
    }
}

/// Whether the text of what is paid reads as exactly what is known of it.
pub open spec fn was_read(target: PaymentTargetView) -> bool {
    match target {
        PaymentTargetView::Bolt11(invoice, _) => {
            &&& ldk::bolt11_invoice(invoice.bolt11) is Some
            &&& invoice == (InvoiceView {
                bolt11: invoice.bolt11,
                ..ldk::bolt11_invoice(invoice.bolt11)->0
            })
        },
        PaymentTargetView::Bolt12(offer, _) => ldk::is_offer(offer),
    }
}

/// The text of what is paid is that of one of the methods, and reads as exactly what is known of
/// it: an invoice of the same amount, payment hash, expiry and route hints, or an offer.
pub proof fn law_what_is_paid_was_read(methods: Seq<PaymentMethod>, amount_msat: u64)
    ensures
        first_target(methods_read(methods), amount_msat) matches Some(target) ==> {
            &&& was_read(target)
            &&& exists|i: int|
                0 <= i < methods.len() && match target {
                    PaymentTargetView::Bolt11(invoice, _) => {
                        (#[trigger] methods[i]) matches PaymentMethod::LightningBolt11(bolt11)
                            && bolt11@ == invoice.bolt11
                    },
                    PaymentTargetView::Bolt12(offer, _) => {
                        methods[i] matches PaymentMethod::LightningBolt12(text) && text@ == offer
                    },
                }
        },
{
    law_the_first_usable_method_is_paid(methods_read(methods), amount_msat);
    if first_target(methods_read(methods), amount_msat) is Some {
        let read = methods_read(methods);
        let i = choose|i: int|
            0 <= i < read.len() && first_target(read, amount_msat) == method_target(
                #[trigger] read[i],
                amount_msat,
            );
        assert(read[i] == method_read(methods[i]));
    }
}

/// An invoice that is paid reads, from the very text that is paid, as one of the amount that was
/// looked at.
pub proof fn law_the_amount_looked_at_is_that_of_the_text(
    methods: Seq<PaymentMethod>,
    amount_msat: u64,
)
    ensures
        first_target(methods_read(methods), amount_msat) matches Some(
            PaymentTargetView::Bolt11(invoice, _),
        ) ==> ldk::bolt11_invoice(invoice.bolt11) is Some && ldk::bolt11_invoice(
            invoice.bolt11,
        )->0.amount_msat == invoice.amount_msat,
{
    law_what_is_paid_was_read(methods, amount_msat);
}

/// The amount that the caller asks for makes no difference where the destination names its own,
/// and what is paid is the destination's amount.
pub proof fn law_a_fixed_amount_is_kept(
    ln_amount_msat: Option<u64>,
    methods: Vec<PaymentMethod>,
    asked: Option<i64>,
    asked_otherwise: Option<i64>,
    secs: Option<i64>,
)
    ensures
        ({
            let parsed = Ok(PaymentInstructions::FixedAmount { ln_amount_msat, methods });
            &&& resolution(parsed, asked, secs) == resolution(parsed, asked_otherwise, secs)
            &&& resolution(parsed, asked, secs) matches Ok(resolved) ==> {
                &&& resolved matches ResolutionView::Resolved(target, _)
                &&& ln_amount_msat == Some(target.amount_msat())
            }
        }),
{
    if let Some(amount_msat) = ln_amount_msat {
        law_the_first_usable_method_is_paid(methods_read(methods@), amount_msat);
    }
}

/// Where the caller names the amount, the destination is asked for exactly that, and it is
/// positive and no more than there are bitcoin.
pub proof fn law_the_amount_asked_for_is_the_callers(asked: Option<i64>, secs: Option<i64>)
    ensures
        resolution(Ok(PaymentInstructions::ConfigurableAmount), asked, secs) matches Ok(resolved)
            ==> {
            &&& resolved matches ResolutionView::SetAmount { amount_msat, .. }
            &&& asked is Some
            &&& amount_msat == asked->0
            &&& 0 < amount_msat <= ldk::MAX_MSAT
        },
{
}

/// Whatever a destination answers, no more and no less is paid than it was asked for, and never
/// an invoice that names another amount.
pub proof fn law_no_other_amount_is_paid(
    answer: Result<Vec<PaymentMethod>, String>,
    amount_msat: u64,
)
    ensures
        configurable_resolution(answer, amount_msat) matches Ok(target) ==> {
            &&& target.amount_msat() == amount_msat
            &&& target matches PaymentTargetView::Bolt11(invoice, _) ==> (invoice.amount_msat is None
                || invoice.amount_msat == Some(amount_msat))
        },
{
    if let Ok(methods) = answer {
        law_the_first_usable_method_is_paid(methods_read(methods@), amount_msat);
    }
}

/// A destination can be paid exactly where one of its methods is an invoice whose text reads as
/// one or an offer whose text reads as one. Nothing else about an invoice or an offer matters.
pub proof fn law_a_destination_can_be_paid_if_a_method_reads(
    methods: Vec<PaymentMethod>,
    amount_msat: u64,
    asked: Option<i64>,
    secs: Option<i64>,
)
    ensures
        ({
            let unreadable = forall|i: int|
                0 <= i < methods@.len() ==> match #[trigger] methods@[i] {
                    PaymentMethod::LightningBolt11(text) => ldk::bolt11_invoice(text@) is None,
                    PaymentMethod::LightningBolt12(text) => !ldk::is_offer(text@),
                    PaymentMethod::Other => true,
                };
            let fixed = resolution(
                Ok(PaymentInstructions::FixedAmount { ln_amount_msat: Some(amount_msat), methods }),
                asked,
                secs,
            );
            let answered = configurable_resolution(Ok(methods), amount_msat);
            &&& fixed == Err::<ResolutionView, Error>(Error::NoPaymentMethod) <==> unreadable
            &&& fixed is Ok <==> !unreadable
            &&& answered == Err::<PaymentTargetView, Error>(Error::NoPaymentMethod) <==> unreadable
        }),
{
    let read = methods_read(methods@);
    law_the_first_usable_method_is_paid(read, amount_msat);
    assert(forall|i: int| 0 <= i < methods@.len() ==> read[i] == method_read(#[trigger] methods@[i]));
    if first_target(read, amount_msat) is None {
        assert forall|i: int| 0 <= i < methods@.len() implies match #[trigger] methods@[i] {
                    PaymentMethod::LightningBolt11(text) => ldk::bolt11_invoice(text@) is None,
                    PaymentMethod::LightningBolt12(text) => !ldk::is_offer(text@),
                    PaymentMethod::Other => true,
                } by {
            assert(method_target(read[i], amount_msat) is None);
        }
    } else {
        let i = choose|i: int|
            0 <= i < read.len() && first_target(read, amount_msat) == method_target(
                #[trigger] read[i],
                amount_msat,
            );
        assert(read[i] == method_read(methods@[i]));
    }
}

/// What is paid is the first method that reads: an invoice by its own text with what the text
/// reads as, or an offer by its own text, and the amount is the destination's, or the one that it
/// was asked for. An invoice is refused exactly where it answers for another amount.
pub proof fn law_the_first_method_that_reads_is_paid(
    methods: Vec<PaymentMethod>,
    n: int,
    amount_msat: u64,
    asked: Option<i64>,
    secs: Option<i64>,
)
    requires
        0 <= n < methods@.len(),
        forall|i: int|
            0 <= i < n ==> match #[trigger] methods@[i] {
                    PaymentMethod::LightningBolt11(text) => ldk::bolt11_invoice(text@) is None,
                    PaymentMethod::LightningBolt12(text) => !ldk::is_offer(text@),
                    PaymentMethod::Other => true,
                },
    ensures
        ({
            let fixed = resolution(
                Ok(PaymentInstructions::FixedAmount { ln_amount_msat: Some(amount_msat), methods }),
                asked,
                secs,
            );
            let answered = configurable_resolution(Ok(methods), amount_msat);
            match methods@[n] {
                PaymentMethod::LightningBolt11(text) => ldk::bolt11_invoice(text@) is Some ==> {
                    let invoice = ldk::bolt11_invoice(text@)->0;
                    let paid = InvoiceView {
                        bolt11: text@,
                        payment_hash: invoice.payment_hash,
                        amount_msat: invoice.amount_msat,
                        expires_at: invoice.expires_at,
                        route_hints: invoice.route_hints,
                    };
                    let target = PaymentTargetView::Bolt11(paid, amount_msat);
                    &&& fixed == Ok::<ResolutionView, Error>(
                        ResolutionView::Resolved(target, wait_secs_of(secs)),
                    )
                    &&& invoice.amount_msat is None || invoice.amount_msat == Some(amount_msat)
                        ==> answered == Ok::<PaymentTargetView, Error>(target)
                    &&& invoice.amount_msat matches Some(invoice_msat) ==> (invoice_msat
                        != amount_msat ==> answered == Err::<PaymentTargetView, Error>(
                        Error::InvoiceAmountMismatch { invoice_msat, requested_msat: amount_msat },
                    ))
                },
                PaymentMethod::LightningBolt12(text) => ldk::is_offer(text@) ==> {
                    let target = PaymentTargetView::Bolt12(text@, amount_msat);
                    &&& fixed == Ok::<ResolutionView, Error>(
                        ResolutionView::Resolved(target, wait_secs_of(secs)),
                    )
                    &&& answered == Ok::<PaymentTargetView, Error>(target)
                },
                PaymentMethod::Other => true,
            }
        }),
{
    let read = methods_read(methods@);
    assert forall|i: int| 0 <= i < n implies method_target(#[trigger] read[i], amount_msat) is None by {
        assert(read[i] == method_read(methods@[i]));
    }
    assert(read[n] == method_read(methods@[n]));
    if method_target(read[n], amount_msat) is Some {
        lemma_first_target_at(read, n, amount_msat);
    }
}

proof fn lemma_first_target_at(read: Seq<ReadMethodView>, n: int, amount_msat: u64)
    requires
        0 <= n < read.len(),
        forall|i: int| 0 <= i < n ==> method_target(#[trigger] read[i], amount_msat) is None,
        method_target(read[n], amount_msat) is Some,
    ensures
        first_target(read, amount_msat) == method_target(read[n], amount_msat),
    decreases n,
{
    if n > 0 {
        let rest = read.drop_first();
        assert(method_target(read[0], amount_msat) is None);
        assert forall|i: int| 0 <= i < n - 1 implies method_target(
            #[trigger] rest[i],
            amount_msat,
        ) is None by {
            assert(rest[i] == read[i + 1]);
        }
        assert(rest[n - 1] == read[n]);
        lemma_first_target_at(rest, n - 1, amount_msat);
    }
}

/// The outcome is awaited for exactly as many seconds as the caller gives, and not at all for none
/// or for a number that is not positive.
pub proof fn law_the_outcome_is_awaited_as_long_as_the_caller_says(secs: Option<i64>)
    ensures
        wait_secs_of(secs) is Some <==> secs is Some && secs->0 > 0,
        wait_secs_of(secs) matches Some(wait_secs) ==> wait_secs == secs->0,
{
}

/// What is refused, and why: a destination that could not be read with what was said of it, one
/// that names its amount but none for Lightning, and one that leaves the amount to the caller
/// where that is missing, not positive or more than 21 million bitcoin. Any other amount is asked
/// for as it is.
pub proof fn law_what_is_refused(
    failure: String,
    methods: Vec<PaymentMethod>,
    asked: i64,
    any: Option<i64>,
    secs: Option<i64>,
)
    ensures
        resolution(Err(failure), any, secs) == Err::<ResolutionView, Error>(
            Error::ParseDestination(failure),
        ),
        resolution(
            Ok(PaymentInstructions::FixedAmount { ln_amount_msat: None, methods }),
            any,
            secs,
        ) == Err::<ResolutionView, Error>(Error::NoLightningAmount),
        ({
            let open = Ok(PaymentInstructions::ConfigurableAmount);
            &&& resolution(open, None, secs) == Err::<ResolutionView, Error>(Error::AmountRequired)
            &&& asked <= 0 ==> resolution(open, Some(asked), secs) == Err::<ResolutionView, Error>(
                Error::AmountNotPositive,
            )
            &&& asked > 2_100_000_000_000_000_000 ==> resolution(open, Some(asked), secs) == Err::<
                ResolutionView,
                Error,
            >(Error::AmountTooLarge)
            &&& 0 < asked <= 2_100_000_000_000_000_000 ==> {
                &&& resolution(open, Some(asked), secs) matches Ok(
                    ResolutionView::SetAmount { amount_msat, wait_secs },
                )
                &&& amount_msat == asked
                &&& wait_secs == wait_secs_of(secs)
            }
        }),
        forall|amount_msat: u64| #[trigger] configurable_resolution(Err(failure), amount_msat)
            == Err::<PaymentTargetView, Error>(Error::SetAmount(failure)),
{
}

/// What is paid, and for how much, is seen as it is.
pub proof fn law_targets_are_seen_as_they_are(
    invoice: Invoice,
    offer: String,
    amount_msat: u64,
    target: PaymentTarget,
    wait_secs: Option<u64>,
)
    ensures
        PaymentTarget::Bolt11(invoice, amount_msat)@ == PaymentTargetView::Bolt11(
            invoice@,
            amount_msat,
        ),
        PaymentTarget::Bolt12(offer, amount_msat)@ == PaymentTargetView::Bolt12(offer@, amount_msat),
        PaymentTargetView::Bolt11(invoice@, amount_msat).amount_msat() == amount_msat,
        PaymentTargetView::Bolt12(offer@, amount_msat).amount_msat() == amount_msat,
        Resolution::Resolved(target, wait_secs)@ == ResolutionView::Resolved(target@, wait_secs),
        (Resolution::SetAmount { amount_msat, wait_secs })@ == (ResolutionView::SetAmount {
            amount_msat,
            wait_secs,
        }),
        ReadMethod::Bolt11(invoice)@ == ReadMethodView::Bolt11(invoice@),
        ReadMethod::Bolt12(offer)@ == ReadMethodView::Bolt12(offer@),
        ReadMethod::Unusable@ == ReadMethodView::Unusable,
{
}

} // verus!
