use bitnob_demo::config::{Config, ConfigError};
use bitnob_demo::outbound::{OutboundBody, OutboundCall};
use bitnob_demo::payouts::{
    create_payout, PayoutAction, PayoutFlow, PayoutReply, PayoutRequest, PayoutStage,
};
use bitnob_demo::step::{json_step, quote_step, StepError, StepEvent};
use bitnob_demo::trading::{
    create_trade, finalize_trade, receive_trade, receive_trade_finalize, FinalizeTradeInput,
    TradeRequest,
};

fn config() -> Config {
    Config::from_env(Some("https://api.test".to_string()), Some("sk-1".to_string())).unwrap()
}

fn request() -> PayoutRequest {
    PayoutRequest { name: "Ada Obi".to_string(), account_number: "0123456789".to_string() }
}

fn ok(body: &str) -> StepEvent {
    StepEvent::Responded { status: 200, body: body.to_string() }
}

fn quote_ok() -> StepEvent {
    ok(r#"{"data":{"quoteId":"q-7","rate":1500}}"#)
}

fn expect_call(a: PayoutAction) -> OutboundCall {
    match a {
        PayoutAction::Call(c) => c,
        PayoutAction::Reply(r) => panic!("unexpected reply: {}", r.response.message),
    }
}

fn expect_reply(a: PayoutAction) -> PayoutReply {
    match a {
        PayoutAction::Reply(r) => r,
        PayoutAction::Call(c) => panic!("unexpected call to {}", c.url),
    }
}

#[test]
fn config_defaults_url_and_requires_secret() {
    let c = Config::from_env(None, Some("k".to_string())).unwrap();
    assert_eq!(c.api_url, "https://sandboxapi.bitnob.co");
    assert_eq!(c.bitnob_secret_key, "k");
    let e = Config::from_env(Some("x".to_string()), None).unwrap_err();
    assert_eq!(e, ConfigError::MissingSecretKey);
    assert_eq!(e.message(), "BITNOB_SECRET_KEY environment variable is required");
}

#[test]
fn config_builds_endpoint_and_bearer_header() {
    let c = config();
    assert_eq!(c.endpoint("/trade"), "https://api.test/trade");
    assert_eq!(c.authorization(), "Bearer sk-1");
}

#[test]
fn step_classifies_each_failure_kind() {
    let t = json_step(StepEvent::TransportFailed { error: "dns".to_string() });
    assert!(matches!(t, Err(StepError::Transport { ref detail }) if detail == "dns"));
    let r = json_step(StepEvent::Responded { status: 404, body: "nope".to_string() });
    assert!(matches!(r, Err(StepError::Rejected { ref body }) if body == "nope"));
    let d = json_step(ok("not json"));
    assert!(matches!(d, Err(StepError::Decode { .. })));
    let s = json_step(ok(r#"{"data":{}}"#));
    assert_eq!(s.unwrap(), r#"{"data":{}}"#);
    let edge = json_step(StepEvent::Responded { status: 299, body: "[]".to_string() });
    assert!(edge.is_ok());
    let above = json_step(StepEvent::Responded { status: 300, body: "[]".to_string() });
    assert!(matches!(above, Err(StepError::Rejected { .. })));
}

#[test]
fn quote_step_reads_the_quote_identifier() {
    assert_eq!(quote_step(quote_ok()).unwrap(), "q-7");
    let missing = quote_step(ok(r#"{"data":{"id":"q-7"}}"#));
    assert!(matches!(missing, Err(StepError::Decode { .. })));
    let not_text = quote_step(ok(r#"{"data":{"quoteId":7}}"#));
    assert!(matches!(not_text, Err(StepError::Decode { .. })));
}

#[test]
fn payout_success_runs_three_calls_under_one_reference() {
    let c = config();
    let (mut flow, first) = create_payout(&c, request());
    let reference = flow.reference.clone();
    assert_eq!(reference.len(), 36);
    assert_eq!(first.url, "https://api.test/payouts/quotes");
    assert_eq!(first.authorization, "Bearer sk-1");
    match first.body {
        OutboundBody::PayoutQuote(q) => {
            assert_eq!(q.source, "offchain");
            assert_eq!(q.from_asset, "usdt");
            assert_eq!(q.to_currency, "ngn");
            assert_eq!(q.settlement_amount, 200000);
        }
        _ => panic!("quote body expected"),
    }
    let second = expect_call(flow.receive(&c, quote_ok()));
    assert_eq!(second.url, "https://api.test/payouts/initialize");
    match second.body {
        OutboundBody::PayoutInitialize(b) => {
            assert_eq!(b.quote_id, "q-7");
            assert_eq!(b.reference, reference);
            assert_eq!(b.customer_id, "e22795d9-23f6-48e6-8b30-be5718abd876");
            assert_eq!(b.country, "NG");
            assert_eq!(b.payment_reason, "Bitnob Nigeria Faucet");
            assert_eq!(b.beneficiary.beneficiary_type, "BANK");
            assert_eq!(b.beneficiary.account_name, "Ada Obi");
            assert_eq!(b.beneficiary.bank_name, "OPAY");
            assert_eq!(b.beneficiary.account_number, "0123456789");
        }
        _ => panic!("initialize body expected"),
    }
    let third = expect_call(flow.receive(&c, ok(r#"{"status":"ok"}"#)));
    assert_eq!(third.url, "https://api.test/payouts/finalize");
    match third.body {
        OutboundBody::PayoutFinalize(b) => assert_eq!(b.quote_id, "q-7"),
        _ => panic!("finalize body expected"),
    }
    let reply = expect_reply(flow.receive(&c, ok("{}")));
    assert_eq!(reply.status, 200);
    assert_eq!(
        reply.response.message,
        "Payout process started. Check the webhook site for final confirmation."
    );
    assert_eq!(reply.response.reference, Some(reference.clone()));
    assert_eq!(flow.stage, PayoutStage::Done);
    assert_eq!(flow.reference, reference);
}

#[test]
fn payout_quote_503_replies_500_with_upstream_text() {
    let c = config();
    let (mut flow, _) = PayoutFlow::start(&c, request(), "ref-1".to_string());
    let event = StepEvent::Responded { status: 503, body: "service unavailable".to_string() };
    let reply = expect_reply(flow.receive(&c, event));
    assert_eq!(reply.status, 500);
    assert!(reply.response.message.contains("service unavailable"));
    assert_eq!(reply.response.message, "Quote failed: service unavailable");
    assert_eq!(reply.response.reference, Some("ref-1".to_string()));
    assert_eq!(flow.stage, PayoutStage::Done);
}

#[test]
fn payout_failure_at_each_step_ends_the_flow() {
    let c = config();
    let (mut f1, _) = PayoutFlow::start(&c, request(), "r".to_string());
    let r1 = expect_reply(f1.receive(&c, StepEvent::TransportFailed { error: "timeout".to_string() }));
    assert_eq!(r1.response.message, "Payout failed: timeout");
    assert_eq!(f1.stage, PayoutStage::Done);

    let (mut f2, _) = PayoutFlow::start(&c, request(), "r".to_string());
    expect_call(f2.receive(&c, quote_ok()));
    let r2 = expect_reply(f2.receive(&c, StepEvent::Responded { status: 400, body: "bad account".to_string() }));
    assert_eq!(r2.status, 500);
    assert_eq!(r2.response.message, "Initialize failed: bad account");
    assert_eq!(f2.stage, PayoutStage::Done);

    let (mut f3, _) = PayoutFlow::start(&c, request(), "r".to_string());
    expect_call(f3.receive(&c, quote_ok()));
    expect_call(f3.receive(&c, ok("{}")));
    let r3 = expect_reply(f3.receive(&c, ok("<html>")));
    assert_eq!(r3.status, 500);
    assert!(r3.response.message.starts_with("Failed to parse finalize: "));
    assert_eq!(f3.stage, PayoutStage::Done);
}

#[test]
fn payout_quote_without_identifier_is_a_decode_failure() {
    let c = config();
    let (mut flow, _) = PayoutFlow::start(&c, request(), "r".to_string());
    let reply = expect_reply(flow.receive(&c, ok(r#"{"data":{}}"#)));
    assert_eq!(reply.status, 500);
    assert!(reply.response.message.starts_with("Failed to parse quote: "));
}

#[test]
fn payout_twice_gives_two_references() {
    let c = config();
    let (a, _) = create_payout(&c, request());
    let (b, _) = create_payout(&c, request());
    assert_ne!(a.reference, b.reference);
}

#[test]
fn trade_creation_returns_quote_and_reference() {
    let c = config();
    let req = TradeRequest {
        side: "buy".to_string(),
        asset: "BTC".to_string(),
        currency: "USD".to_string(),
        amount: serde_json::Number::from(100),
    };
    let (reference, call) = create_trade(&c, req);
    assert_eq!(reference.len(), 36);
    assert_eq!(call.url, "https://api.test/trade");
    match call.body {
        OutboundBody::Trade(b) => {
            assert_eq!(b.side, "buy");
            assert_eq!(b.asset, "BTC");
            assert_eq!(b.currency, "USD");
            assert_eq!(b.amount, serde_json::Number::from(100));
            assert_eq!(b.reference, reference);
        }
        _ => panic!("trade body expected"),
    }
    let reply = receive_trade(reference.clone(), ok(r#"{"data":{"quoteId":"q-1"}}"#));
    assert_eq!(reply.status, 200);
    assert_eq!(
        reply.response.message,
        "Trade created successfully. Use the quoteId to finalize the trade."
    );
    assert_eq!(reply.response.quote_id, Some("q-1".to_string()));
    assert_eq!(reply.response.reference, Some(reference));
}

#[test]
fn trade_creation_failures() {
    let t = receive_trade("r".to_string(), StepEvent::TransportFailed { error: "refused".to_string() });
    assert_eq!(t.status, 500);
    assert_eq!(t.response.message, "Trade creation failed: refused");
    assert_eq!(t.response.quote_id, None);
    assert_eq!(t.response.reference, Some("r".to_string()));
    let d = receive_trade("r".to_string(), ok("oops"));
    assert!(d.response.message.starts_with("Failed to parse trade response: "));
}

#[test]
fn trade_finalize_without_quote_id_sends_empty() {
    let c = config();
    let (quote_id, call) = finalize_trade(&c, FinalizeTradeInput { quote_id: None });
    assert_eq!(quote_id, "");
    assert_eq!(call.url, "https://api.test/trade/finalize");
    match call.body {
        OutboundBody::TradeFinalize(b) => assert_eq!(b.quote_id, ""),
        _ => panic!("finalize body expected"),
    }
}

#[test]
fn trade_finalize_replies() {
    let c = config();
    let (quote_id, _) = finalize_trade(&c, FinalizeTradeInput { quote_id: Some("q-9".to_string()) });
    assert_eq!(quote_id, "q-9");
    let done = receive_trade_finalize(quote_id.clone(), ok(r#"{"data":{}}"#));
    assert_eq!(done.status, 200);
    assert_eq!(done.response.message, "Trade finalized successfully.");
    assert_eq!(done.response.quote_id, Some("q-9".to_string()));
    assert_eq!(done.response.reference, None);
    let bad = receive_trade_finalize(quote_id, StepEvent::Responded { status: 502, body: "gw".to_string() });
    assert_eq!(bad.status, 500);
    assert_eq!(bad.response.message, "Trade finalization failed: gw");
    assert_eq!(bad.response.quote_id, Some("q-9".to_string()));
}

#[test]
fn decode_failures_name_their_step() {
    let c = config();
    let (mut flow, _) = PayoutFlow::start(&c, request(), "r".to_string());
    expect_call(flow.receive(&c, quote_ok()));
    let reply = expect_reply(flow.receive(&c, ok("{broken")));
    assert_eq!(reply.status, 500);
    assert!(reply.response.message.starts_with("Failed to parse initialize: "));
    assert_eq!(reply.response.reference, Some("r".to_string()));

    let fin = receive_trade_finalize("q".to_string(), ok(""));
    assert_eq!(fin.status, 500);
    assert!(fin.response.message.starts_with("Failed to parse finalize response: "));

    let trade = receive_trade("r".to_string(), ok(r#"{"data":{"quoteId":null}}"#));
    assert_eq!(trade.status, 500);
    assert_eq!(trade.response.quote_id, None);
    assert!(trade.response.message.starts_with("Failed to parse trade response: "));
}

#[test]
fn decode_quote_reads_nested_identifier() {
    let envelope = bitnob_demo::step::decode_quote(r#"{"data":{"quoteId":"q~/1"},"x":[1]}"#).unwrap();
    assert_eq!(envelope.data.quote_id, "q~/1");
    assert!(bitnob_demo::step::decode_quote(r#"{"quoteId":"q"}"#).is_err());
}
