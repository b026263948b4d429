//! Trade creation and trade finalization: one upstream call each.

use vstd::prelude::*;
use vstd::string::StringExecFns;
use crate::config::Config;
use crate::outbound::{OutboundBody, OutboundCall};
use crate::reference::new_reference;
use crate::step::{
    is_success_status, json_step, json_str_at, json_valid, lemma_starts_with_concat, quote_step,
    starts_with, StepError, StepEvent, QUOTE_ID_POINTER,
};

verus! {

#[verifier::external_type_specification]
#[verifier::external_body]
pub struct ExNumber(serde_json::Number);

/// What the caller sends to create a trade. The amount is a JSON number,
/// passed on as it is.
#[derive(Debug)]
pub struct TradeRequest {
    pub side: String,
    pub asset: String,
    pub currency: String,
    pub amount: serde_json::Number,
}

/// Body of the trade creation call.
#[derive(Debug)]
pub struct CreateTradeRequest {
    pub side: String,
    pub asset: String,
    pub currency: String,
    pub amount: serde_json::Number,
    pub reference: String,
}

/// Body of the trade finalization call.
#[derive(Clone, Debug)]
pub struct FinalizeTradeRequest {
    pub quote_id: String,
}

/// Upstream path of trade creation.
pub const TRADE_PATH: &'static str = "/trade";
/// Upstream path of trade finalization.
pub const TRADE_FINALIZE_PATH: &'static str = "/trade/finalize";
/// Message of a trade that was created.
pub const TRADE_CREATED: &'static str =
    "Trade created successfully. Use the quoteId to finalize the trade.";
/// Message of a trade that was finalized.
pub const TRADE_FINALIZED: &'static str = "Trade finalized successfully.";

/// What the caller gets back from either trade endpoint.
#[derive(Clone, Debug)]
pub struct TradeResponse {
    pub message: String,
    pub quote_id: Option<String>,
    pub reference: Option<String>,
}

/// The answer for the caller: an HTTP status and the response body.
#[derive(Clone, Debug)]
pub struct TradeReply {
    pub status: u16,
    pub response: TradeResponse,
}

/// What the caller sends to finalize a trade. The quote identifier may be
/// missing; it is then taken as empty rather than refused.
#[derive(Clone, Debug)]
pub struct FinalizeTradeInput {
    pub quote_id: Option<String>,
}

/// Opening words of the message for an undecodable trade creation response.
pub const TRADE_DECODE_PREFIX: &'static str = "Failed to parse trade response: ";
/// Opening words of the message for an undecodable finalization response.
pub const FINALIZE_DECODE_PREFIX: &'static str = "Failed to parse finalize response: ";

/// Opening words of the message for `error` in trade creation.
pub open spec fn trade_create_failure_prefix(error: StepError) -> Seq<char> {
    match error {
        StepError::Decode { .. } => TRADE_DECODE_PREFIX@,
        _ => "Trade creation failed: "@,
    }
}

/// Opening words of the message for `error` in trade finalization.
pub open spec fn trade_finalize_failure_prefix(error: StepError) -> Seq<char> {
    match error {
        StepError::Decode { .. } => FINALIZE_DECODE_PREFIX@,
        _ => "Trade finalization failed: "@,
    }
}

/// The quote identifier that a finalize input stands for: the one given,
/// or the empty text.
pub open spec fn finalize_quote_id(input: FinalizeTradeInput) -> Seq<char> {
    match input.quote_id {
        Some(q) => q@,
        None => Seq::empty(),
    }
}

/// `call` creates the trade that `request` describes under `reference`.
pub open spec fn is_trade_call(
    config: Config,
    side: Seq<char>,
    asset: Seq<char>,
    currency: Seq<char>,
    amount: serde_json::Number,
    reference: Seq<char>,
    call: OutboundCall,
) -> bool {
    &&& call.addressed(config, TRADE_PATH@)
    &&& call.body matches OutboundBody::Trade(b) && b.side@ == side && b.asset@ == asset
        && b.currency@ == currency && b.amount == amount && b.reference@ == reference
}

/// `reply` answers trade creation under `reference` with status 500 and
/// the message for `error`.
pub open spec fn is_trade_failure(reference: Seq<char>, error: StepError, reply: TradeReply) -> bool {
    &&& reply.status == 500
    &&& reply.response.message@ == trade_create_failure_prefix(error) + error.detail_view()
    &&& reply.response.quote_id is None
    &&& reply.response.reference matches Some(r) && r@ == reference
}

/// `reply` answers trade finalization of `quote_id` with status 500 and the
/// message for `error`.
pub open spec fn is_finalize_failure(quote_id: Seq<char>, error: StepError, reply: TradeReply) -> bool {
    &&& reply.status == 500
    &&& reply.response.message@ == trade_finalize_failure_prefix(error) + error.detail_view()
    &&& reply.response.quote_id matches Some(q) && q@ == quote_id
    &&& reply.response.reference is None
}

/// The trade creation call for `request` under `reference`.
pub fn start_trade(config: &Config, request: TradeRequest, reference: String) -> (r: OutboundCall)
    ensures
        is_trade_call(*config, request.side@, request.asset@, request.currency@, request.amount, reference@, r),
{
    let body = CreateTradeRequest {
        side: request.side,
        asset: request.asset,
        currency: request.currency,
        amount: request.amount,
        reference,
    };
    OutboundCall::new(config, TRADE_PATH, OutboundBody::Trade(body))
}

/// Starts a trade for `request` under a freshly generated reference, which
/// is returned beside the call.
pub fn create_trade(config: &Config, request: TradeRequest) -> (r: (String, OutboundCall))
    ensures
        r.0@.len() == 36,
        is_trade_call(*config, request.side@, request.asset@, request.currency@, request.amount, r.0@, r.1),
{
    let reference = new_reference();
    let call = start_trade(config, request, reference.clone());
    (reference, call)
}

/// The reply to trade creation under `reference`, given the result of the
/// call: the quote identifier, or why the step failed.
pub fn trade_created(reference: String, result: Result<String, StepError>) -> (r: TradeReply)
    ensures
        result matches Ok(q) ==> {
            &&& r.status == 200
            &&& r.response.message@ == TRADE_CREATED@
            &&& r.response.quote_id matches Some(x) && x@ == q@
            &&& r.response.reference matches Some(x) && x@ == reference@
        },
        result matches Err(e) ==> is_trade_failure(reference@, e, r),
        result matches Err(StepError::Decode { .. }) ==> starts_with(r.response.message@, TRADE_DECODE_PREFIX@),
{
    match result {
        Ok(quote_id) => TradeReply {
            status: 200,
            response: TradeResponse {
                message: String::from_str(TRADE_CREATED),
                quote_id: Some(quote_id),
                reference: Some(reference),
            },
        },
        Err(error) => {
            let mut message = String::from_str(
                match &error {
                    StepError::Decode { .. } => TRADE_DECODE_PREFIX,
                    _ => "Trade creation failed: ",
                },
            );
            message.append(error.detail().as_str());
            proof {
                lemma_starts_with_concat(trade_create_failure_prefix(error), error.detail_view());
            }
            TradeReply {
                status: 500,
                response: TradeResponse { message, quote_id: None, reference: Some(reference) },
            }
        },
    }
}

/// The reply to trade creation under `reference`, given what became of the
/// call.
pub fn receive_trade(reference: String, event: StepEvent) -> (r: TradeReply)
    ensures
        r.response.reference matches Some(x) && x@ == reference@,
        event matches StepEvent::TransportFailed { error } ==> is_trade_failure(
            reference@,
            StepError::Transport { detail: error },
            r,
        ),
        event matches StepEvent::Responded { status, body } ==> {
            if !is_success_status(status) {
                is_trade_failure(reference@, StepError::Rejected { body }, r)
            } else if !json_valid(body@) {
                r.status == 500 && r.response.quote_id is None && starts_with(
                    r.response.message@,
                    TRADE_DECODE_PREFIX@,
                )
            } else {
                match json_str_at(body@, QUOTE_ID_POINTER@) {
                    Some(q) => r.status == 200 && r.response.message@ == TRADE_CREATED@ && (
                    r.response.quote_id matches Some(x) && x@ == q),
                    None => r.status == 500 && r.response.quote_id is None && starts_with(
                        r.response.message@,
                        TRADE_DECODE_PREFIX@,
                    ),
                }
            }
        },
{
    trade_created(reference, quote_step(event))
}

/// The trade finalization call for `input`, with the quote identifier it
/// stands for (empty where it gives none), which is returned beside it.
pub fn finalize_trade(config: &Config, input: FinalizeTradeInput) -> (r: (String, OutboundCall))
    ensures
        r.0@ == finalize_quote_id(input),
        r.1.addressed(*config, TRADE_FINALIZE_PATH@),
        r.1.body matches OutboundBody::TradeFinalize(b) && b.quote_id@ == r.0@,
{
    let quote_id = match input.quote_id {
        Some(q) => q,
        None => String::new(),
    };
    let body = FinalizeTradeRequest { quote_id: quote_id.clone() };
    (quote_id, OutboundCall::new(config, TRADE_FINALIZE_PATH, OutboundBody::TradeFinalize(body)))
}

/// The reply to trade finalization of `quote_id`, given the result of the
/// call.
pub fn trade_finalized(quote_id: String, result: Result<String, StepError>) -> (r: TradeReply)
    ensures
        result is Ok ==> {
            &&& r.status == 200
            &&& r.response.message@ == TRADE_FINALIZED@
            &&& r.response.quote_id matches Some(x) && x@ == quote_id@
            &&& r.response.reference is None
        },
        result matches Err(e) ==> is_finalize_failure(quote_id@, e, r),
        result matches Err(StepError::Decode { .. }) ==> starts_with(r.response.message@, FINALIZE_DECODE_PREFIX@),
{
    match result {
        Ok(_) => TradeReply {
            status: 200,
            response: TradeResponse {
                message: String::from_str(TRADE_FINALIZED),
                quote_id: Some(quote_id),
                reference: None,
            },
        },
        Err(error) => {
            let mut message = String::from_str(
                match &error {
                    StepError::Decode { .. } => FINALIZE_DECODE_PREFIX,
                    _ => "Trade finalization failed: ",
                },
            );
            message.append(error.detail().as_str());
            proof {
                lemma_starts_with_concat(trade_finalize_failure_prefix(error), error.detail_view());
            }
            TradeReply {
                status: 500,
                response: TradeResponse { message, quote_id: Some(quote_id), reference: None },
            }
        },
    }
}

/// The reply to trade finalization of `quote_id`, given what became of the
/// call.
pub fn receive_trade_finalize(quote_id: String, event: StepEvent) -> (r: TradeReply)
    ensures
        r.response.quote_id matches Some(x) && x@ == quote_id@,
        r.response.reference is None,
        event matches StepEvent::TransportFailed { error } ==> is_finalize_failure(
            quote_id@,
            StepError::Transport { detail: error },
            r,
        ),
        event matches StepEvent::Responded { status, body } ==> {
            if !is_success_status(status) {
                is_finalize_failure(quote_id@, StepError::Rejected { body }, r)
            } else if json_valid(body@) {
                r.status == 200 && r.response.message@ == TRADE_FINALIZED@
            } else {
                r.status == 500 && starts_with(r.response.message@, FINALIZE_DECODE_PREFIX@)
            }
        },
{
    trade_finalized(quote_id, json_step(event))
}

} // verus!
