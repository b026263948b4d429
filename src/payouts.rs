//! The payout flow: quote, then initialize, then finalize, each step only
//! after the previous one succeeded, all under one generated reference.

use vstd::prelude::*;
use vstd::string::StringExecFns;
use crate::config::Config;
use crate::outbound::{OutboundBody, OutboundCall};
use crate::reference::new_reference;
use crate::step::{
    is_success_status, json_step, json_str_at, json_valid, lemma_starts_with_concat, quote_step,
    starts_with, StepError, StepEvent, QUOTE_ID_POINTER,
};

verus! {

/// Source of funds of every payout quote.
pub const QUOTE_SOURCE: &'static str = "offchain";
/// Asset that every payout is paid from.
pub const FROM_ASSET: &'static str = "usdt";
/// Currency that every payout is paid in.
pub const TO_CURRENCY: &'static str = "ngn";
/// Amount, in the payout currency, of every payout quote.
pub const SETTLEMENT_AMOUNT: u64 = 200000;
/// Upstream customer on whose behalf payouts are made.
pub const CUSTOMER_ID: &'static str = "e22795d9-23f6-48e6-8b30-be5718abd876";
/// Country of every payout.
pub const COUNTRY: &'static str = "NG";
/// Reason given for every payout.
pub const PAYMENT_REASON: &'static str = "Bitnob Nigeria Faucet";
/// Kind of every beneficiary.
pub const BENEFICIARY_TYPE: &'static str = "BANK";
/// Bank of every beneficiary.
pub const BANK_NAME: &'static str = "OPAY";

/// Upstream path of the quote step.
pub const QUOTES_PATH: &'static str = "/payouts/quotes";
/// Upstream path of the initialize step.
pub const INITIALIZE_PATH: &'static str = "/payouts/initialize";
/// Upstream path of the finalize step.
pub const FINALIZE_PATH: &'static str = "/payouts/finalize";

/// Message of a payout whose three steps all succeeded.
pub const PAYOUT_STARTED: &'static str =
    "Payout process started. Check the webhook site for final confirmation.";

/// What the caller sends: the beneficiary's name and account number.
#[derive(Clone, Debug)]
pub struct PayoutRequest {
    pub name: String,
    pub account_number: String,
}

/// What the caller gets back, on success and on failure alike.
#[derive(Clone, Debug)]
pub struct PayoutResponse {
    pub message: String,
    pub reference: Option<String>,
}

/// Body of the quote call.
#[derive(Clone, Debug)]
pub struct QuoteRequest {
    pub source: String,
    pub from_asset: String,
    pub to_currency: String,
    pub settlement_amount: u64,
}

/// Body of the initialize call.
#[derive(Clone, Debug)]
pub struct InitializeRequest {
    pub quote_id: String,
    pub customer_id: String,
    pub country: String,
    pub reference: String,
    pub payment_reason: String,
    pub beneficiary: Beneficiary,
}

/// The receiving party of a payout.
#[derive(Clone, Debug)]
pub struct Beneficiary {
    pub beneficiary_type: String,
    pub account_name: String,
    pub bank_name: String,
    pub account_number: String,
}

/// Body of the finalize call.
#[derive(Clone, Debug)]
pub struct FinalizeRequest {
    pub quote_id: String,
}

/// Which call a payout flow waits on.
#[derive(Clone, Copy, Debug, PartialEq, Eq, Structural)]
pub enum PayoutStage {
    Quote,
    Initialize,
    Finalize,
    Done,
}

/// The answer for the caller: an HTTP status and the response body.
#[derive(Clone, Debug)]
pub struct PayoutReply {
    pub status: u16,
    pub response: PayoutResponse,
}

/// What the host does next for a payout flow.
#[derive(Debug)]
pub enum PayoutAction {
    Call(OutboundCall),
    Reply(PayoutReply),
}

/// One payout in progress. `quote_id` is meaningful from the initialize
/// stage on.
#[derive(Debug)]
pub struct PayoutFlow {
    pub stage: PayoutStage,
    pub reference: String,
    pub request: PayoutRequest,
    pub quote_id: String,
}

/// The stage after a step of `stage` succeeded (`ok`) or failed.
pub open spec fn payout_next(stage: PayoutStage, ok: bool) -> PayoutStage {
    if !ok {
        PayoutStage::Done
    } else {
        match stage {
            PayoutStage::Quote => PayoutStage::Initialize,
            PayoutStage::Initialize => PayoutStage::Finalize,
            _ => PayoutStage::Done,
        }
    }
}

/// Whether another outbound call follows a step of `stage` that succeeded
/// (`ok`) or failed.
pub open spec fn payout_calls_next(stage: PayoutStage, ok: bool) -> bool {
    ok && (stage == PayoutStage::Quote || stage == PayoutStage::Initialize)
}

/// Opening words of the message for a body that could not be decoded in a
/// step of `stage`.
pub open spec fn payout_decode_prefix(stage: PayoutStage) -> Seq<char> {
    match stage {
        PayoutStage::Quote => "Failed to parse quote: "@,
        PayoutStage::Initialize => "Failed to parse initialize: "@,
        _ => "Failed to parse finalize: "@,
    }
}

/// Opening words of the message for `error` in a step of `stage`.
pub open spec fn payout_failure_prefix(stage: PayoutStage, error: StepError) -> Seq<char> {
    match (stage, error) {
        (_, StepError::Decode { .. }) => payout_decode_prefix(stage),
        (PayoutStage::Quote, StepError::Transport { .. }) => "Payout failed: "@,
        (PayoutStage::Quote, StepError::Rejected { .. }) => "Quote failed: "@,
        (PayoutStage::Initialize, _) => "Initialize failed: "@,
        (_, _) => "Finalize failed: "@,
    }
}

impl QuoteRequest {
    /// The quote asks for the fixed asset, currency and amount.
    pub open spec fn is_fixed(&self) -> bool {
        &&& self.source@ == QUOTE_SOURCE@
        &&& self.from_asset@ == FROM_ASSET@
        &&& self.to_currency@ == TO_CURRENCY@
        &&& self.settlement_amount == SETTLEMENT_AMOUNT
    }

    /// The one quote that payouts ask for.
    pub fn fixed() -> (r: QuoteRequest)
        ensures
            r.is_fixed(),
    {
        QuoteRequest {
            source: String::from_str(QUOTE_SOURCE),
            from_asset: String::from_str(FROM_ASSET),
            to_currency: String::from_str(TO_CURRENCY),
            settlement_amount: SETTLEMENT_AMOUNT,
        }
    }
}

impl InitializeRequest {
    /// The body initializes quote `quote_id` under `reference`, paying the
    /// beneficiary that `request` names, with the fixed constants.
    pub open spec fn describes(
        &self,
        quote_id: Seq<char>,
        reference: Seq<char>,
        request: PayoutRequest,
    ) -> bool {
        &&& self.quote_id@ == quote_id
        &&& self.customer_id@ == CUSTOMER_ID@
        &&& self.country@ == COUNTRY@
        &&& self.reference@ == reference
        &&& self.payment_reason@ == PAYMENT_REASON@
        &&& self.beneficiary.beneficiary_type@ == BENEFICIARY_TYPE@
        &&& self.beneficiary.account_name@ == request.name@
        &&& self.beneficiary.bank_name@ == BANK_NAME@
        &&& self.beneficiary.account_number@ == request.account_number@
    }

    /// Builds the initialize body.
    pub fn new(quote_id: &String, reference: &String, request: &PayoutRequest) -> (r:
        InitializeRequest)
        ensures
            r.describes(quote_id@, reference@, *request),
    {
        InitializeRequest {
            quote_id: quote_id.clone(),
            customer_id: String::from_str(CUSTOMER_ID),
            country: String::from_str(COUNTRY),
            reference: reference.clone(),
            payment_reason: String::from_str(PAYMENT_REASON),
            beneficiary: Beneficiary {
                beneficiary_type: String::from_str(BENEFICIARY_TYPE),
                account_name: request.name.clone(),
                bank_name: String::from_str(BANK_NAME),
                account_number: request.account_number.clone(),
            },
        }
    }
}

impl PayoutFlow {
    /// `call` is the outbound call of stage `stage` of this flow.
    pub open spec fn is_call_of(&self, config: Config, stage: PayoutStage, call: OutboundCall) -> bool {
        match stage {
            PayoutStage::Quote => call.addressed(config, QUOTES_PATH@) && (call.body matches OutboundBody::PayoutQuote(q) && q.is_fixed()),
            PayoutStage::Initialize => call.addressed(config, INITIALIZE_PATH@) && (call.body matches OutboundBody::PayoutInitialize(b) && b.describes(self.quote_id@, self.reference@, self.request)),
            PayoutStage::Finalize => call.addressed(config, FINALIZE_PATH@) && (call.body matches OutboundBody::PayoutFinalize(b) && b.quote_id@ == self.quote_id@),
            PayoutStage::Done => false,
        }
    }

    /// `reply` answers the caller with status 500 and the message for
    /// `error` in `stage`, under this flow's reference.
    pub open spec fn is_failure_reply(&self, stage: PayoutStage, error: StepError, reply: PayoutReply) -> bool {
        &&& reply.status == 500
        &&& reply.response.message@ == payout_failure_prefix(stage, error) + error.detail_view()
        &&& reply.response.reference matches Some(r) && r@ == self.reference@
    }

    /// `reply` answers the caller with status 500 and a message that opens
    /// with the words for an undecodable body in `stage`, under this flow's
    /// reference.
    pub open spec fn is_decode_failure_reply(&self, stage: PayoutStage, reply: PayoutReply) -> bool {
        &&& reply.status == 500
        &&& starts_with(reply.response.message@, payout_decode_prefix(stage))
        &&& reply.response.reference matches Some(r) && r@ == self.reference@
    }

    /// `reply` tells the caller that the payout was started, under this
    /// flow's reference.
    pub open spec fn is_success_reply(&self, reply: PayoutReply) -> bool {
        &&& reply.status == 200
        &&& reply.response.message@ == PAYOUT_STARTED@
        &&& reply.response.reference matches Some(r) && r@ == self.reference@
    }

    /// Starts a payout for `request` under `reference`: the flow waits on
    /// the quote, and the returned call asks for it.
    pub fn start(config: &Config, request: PayoutRequest, reference: String) -> (r: (
        PayoutFlow,
        OutboundCall,
    ))
        ensures
            r.0.stage == PayoutStage::Quote,
            r.0.reference@ == reference@,
            r.0.request == request,
            r.0.is_call_of(*config, PayoutStage::Quote, r.1),
    {
        let call = OutboundCall::new(config, QUOTES_PATH, OutboundBody::PayoutQuote(QuoteRequest::fixed()));
        let flow = PayoutFlow {
            stage: PayoutStage::Quote,
            reference,
            request,
            quote_id: String::new(),
        };
        (flow, call)
    }

    fn failure_reply(&self, error: StepError) -> (r: PayoutReply)
        ensures
            self.is_failure_reply(self.stage, error, r),
            error is Decode ==> self.is_decode_failure_reply(self.stage, r),
    {
        let mut message = String::from_str(
            match (self.stage, &error) {
                (PayoutStage::Quote, StepError::Transport { .. }) => "Payout failed: ",
                (PayoutStage::Quote, StepError::Rejected { .. }) => "Quote failed: ",
                (PayoutStage::Quote, StepError::Decode { .. }) => "Failed to parse quote: ",
                (PayoutStage::Initialize, StepError::Decode { .. }) => "Failed to parse initialize: ",
                (PayoutStage::Initialize, _) => "Initialize failed: ",
                (_, StepError::Decode { .. }) => "Failed to parse finalize: ",
                (_, _) => "Finalize failed: ",
            },
        );
        message.append(error.detail().as_str());
        proof {
            lemma_starts_with_concat(payout_failure_prefix(self.stage, error), error.detail_view());
        }
        PayoutReply {
            status: 500,
            response: PayoutResponse { message, reference: Some(self.reference.clone()) },
        }
    }

    /// Takes the result of the step the flow waits on: the quote identifier
    /// for the quote step, anything for the later steps. A failure ends the
    /// flow with a 500 reply; a success moves on to the next call, or after
    /// the finalize step ends the flow with the success reply.
    pub fn advance(&mut self, config: &Config, result: Result<String, StepError>) -> (a: PayoutAction)
        requires
            old(self).stage != PayoutStage::Done,
        ensures
            final(self).stage == payout_next(old(self).stage, result is Ok),
            final(self).reference == old(self).reference,
            final(self).request == old(self).request,
            old(self).stage == PayoutStage::Quote && result is Ok ==> final(self).quote_id@ == result->Ok_0@,
            old(self).stage != PayoutStage::Quote ==> final(self).quote_id == old(self).quote_id,
            (a is Call) == payout_calls_next(old(self).stage, result is Ok),
            a matches PayoutAction::Call(c) ==> final(self).is_call_of(*config, final(self).stage, c),
            result matches Err(e) ==> (a matches PayoutAction::Reply(rep) && old(self).is_failure_reply(old(self).stage, e, rep)),
            result matches Err(StepError::Decode { .. }) ==> (a matches PayoutAction::Reply(rep) && old(self).is_decode_failure_reply(old(self).stage, rep)),
            old(self).stage == PayoutStage::Finalize && result is Ok ==> (a matches PayoutAction::Reply(rep) && old(self).is_success_reply(rep)),
    {
        match result {
            Err(error) => {
                let reply = self.failure_reply(error);
                self.stage = PayoutStage::Done;
                PayoutAction::Reply(reply)
            },
            Ok(value) => {
                match self.stage {
                    PayoutStage::Quote => {
                        self.quote_id = value;
                        self.stage = PayoutStage::Initialize;
                        let body = InitializeRequest::new(&self.quote_id, &self.reference, &self.request);
                        PayoutAction::Call(OutboundCall::new(config, INITIALIZE_PATH, OutboundBody::PayoutInitialize(body)))
                    },
                    PayoutStage::Initialize => {
                        self.stage = PayoutStage::Finalize;
                        let body = FinalizeRequest { quote_id: self.quote_id.clone() };
                        PayoutAction::Call(OutboundCall::new(config, FINALIZE_PATH, OutboundBody::PayoutFinalize(body)))
                    },
                    _ => {
                        self.stage = PayoutStage::Done;
                        PayoutAction::Reply(PayoutReply {
                            status: 200,
                            response: PayoutResponse {
                                message: String::from_str(PAYOUT_STARTED),
                                reference: Some(self.reference.clone()),
                            },
                        })
                    },
                }
            },
        }
    }
    /// Takes what became of the call the flow waits on: classifies it,
    /// decodes the body (the quote identifier at the quote step, any JSON
    /// document later) and advances as `advance` does.
    pub fn receive(&mut self, config: &Config, event: StepEvent) -> (a: PayoutAction)
        requires
            old(self).stage != PayoutStage::Done,
        ensures
            final(self).reference == old(self).reference,
            final(self).request == old(self).request,
            (a is Reply) == (final(self).stage == PayoutStage::Done),
            final(self).stage == PayoutStage::Done || final(self).stage == payout_next(old(self).stage, true),
            a matches PayoutAction::Call(c) ==> final(self).is_call_of(*config, final(self).stage, c),
            a matches PayoutAction::Reply(rep) ==> (rep.response.reference matches Some(r) && r@ == old(self).reference@),
            old(self).stage != PayoutStage::Finalize ==> (a matches PayoutAction::Reply(rep) ==> rep.status == 500),
            event matches StepEvent::TransportFailed { error } ==> (a matches PayoutAction::Reply(rep)
                && old(self).is_failure_reply(old(self).stage, StepError::Transport { detail: error }, rep)),
            event matches StepEvent::Responded { status, body } ==> {
                if !is_success_status(status) {
                    a matches PayoutAction::Reply(rep)
                        && old(self).is_failure_reply(old(self).stage, StepError::Rejected { body }, rep)
                } else if !json_valid(body@) {
                    a matches PayoutAction::Reply(rep) && old(self).is_decode_failure_reply(old(self).stage, rep)
                } else if old(self).stage != PayoutStage::Quote {
                    &&& final(self).stage == payout_next(old(self).stage, true)
                    &&& final(self).quote_id == old(self).quote_id
                    &&& old(self).stage == PayoutStage::Finalize ==> (a matches PayoutAction::Reply(rep)
                        && old(self).is_success_reply(rep))
                } else {
                    match json_str_at(body@, QUOTE_ID_POINTER@) {
                        Some(q) => final(self).stage == PayoutStage::Initialize && final(self).quote_id@ == q
                            && a is Call,
                        None => a matches PayoutAction::Reply(rep) && old(self).is_decode_failure_reply(
                            old(self).stage,
                            rep,
                        ),
                    }
                }
            },
    {
        let result = if self.stage == PayoutStage::Quote {
            quote_step(event)
        } else {
            json_step(event)
        };
        self.advance(config, result)
    }
}

/// Starts a payout for `request` under a freshly generated reference.
pub fn create_payout(config: &Config, request: PayoutRequest) -> (r: (PayoutFlow, OutboundCall))
    ensures
        r.0.stage == PayoutStage::Quote,
        r.0.reference@.len() == 36,
        r.0.request == request,
        r.0.is_call_of(*config, PayoutStage::Quote, r.1),
{
    let reference = new_reference();
    PayoutFlow::start(config, request, reference)
}

/// The stage of a payout flow after steps with the outcomes `oks`
/// (true for success), counted from the start.
pub open spec fn payout_run_stage(oks: Seq<bool>) -> PayoutStage
    decreases oks.len(),
{
    if oks.len() == 0 {
        PayoutStage::Quote
    } else {
        payout_next(payout_run_stage(oks.drop_last()), oks.last())
    }
}

/// How many outbound calls a payout flow makes, the first one included,
/// when its steps have the outcomes `oks`.
pub open spec fn payout_run_calls(oks: Seq<bool>) -> nat
    decreases oks.len(),
{
    if oks.len() == 0 {
        1
    } else {
        payout_run_calls(oks.drop_last()) + if payout_calls_next(
            payout_run_stage(oks.drop_last()),
            oks.last(),
        ) {
            1nat
        } else {
            0nat
        }
    }
}

/// While every step succeeds, the flow goes quote, initialize, finalize,
/// making one call per stage, and ends after three successful calls.
pub proof fn lemma_payout_successes(oks: Seq<bool>)
    requires
        oks.len() <= 3,
        forall|i: int| 0 <= i < oks.len() ==> oks[i],
    ensures
        oks.len() == 0 ==> payout_run_stage(oks) == PayoutStage::Quote && payout_run_calls(oks) == 1,
        oks.len() == 1 ==> payout_run_stage(oks) == PayoutStage::Initialize && payout_run_calls(oks) == 2,
        oks.len() == 2 ==> payout_run_stage(oks) == PayoutStage::Finalize && payout_run_calls(oks) == 3,
        oks.len() == 3 ==> payout_run_stage(oks) == PayoutStage::Done && payout_run_calls(oks) == 3,
    decreases oks.len(),
{
    if oks.len() > 0 {
        lemma_payout_successes(oks.drop_last());
    }
}

/// When call `n + 1` of a payout fails, after `n` successes, the flow is
/// over and has made exactly `n + 1` calls, whatever outcomes follow.
pub proof fn lemma_payout_failure_stops(oks: Seq<bool>, n: int)
    requires
        0 <= n < 3,
        n < oks.len(),
        forall|i: int| 0 <= i < n ==> oks[i],
        !oks[n],
    ensures
        payout_run_stage(oks) == PayoutStage::Done,
        payout_run_calls(oks) == n + 1,
    decreases oks.len(),
{
    if oks.len() == n + 1 {
        lemma_payout_successes(oks.drop_last());
    } else {
        lemma_payout_failure_stops(oks.drop_last(), n);
    }
}

} // verus!
