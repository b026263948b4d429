//! Descriptors of the outbound calls that the flows ask the host to make.

use vstd::prelude::*;
use crate::config::{Config, BEARER_PREFIX};
use crate::payouts::{FinalizeRequest, InitializeRequest, QuoteRequest};
use crate::trading::{CreateTradeRequest, FinalizeTradeRequest};

verus! {

/// The JSON body of an outbound call, one variant per upstream endpoint.
#[derive(Debug)]
pub enum OutboundBody {
    PayoutQuote(QuoteRequest),
    PayoutInitialize(InitializeRequest),
    PayoutFinalize(FinalizeRequest),
    Trade(CreateTradeRequest),
    TradeFinalize(FinalizeTradeRequest),
}

/// One `POST` to the upstream API: its URL, the `Authorization` header and
/// the body, sent with the JSON content type.
#[derive(Debug)]
pub struct OutboundCall {
    pub url: String,
    pub authorization: String,
    pub body: OutboundBody,
}

impl OutboundCall {
    /// The call goes to `path` under the configured base URL and carries
    /// the configured credential.
    pub open spec fn addressed(&self, config: Config, path: Seq<char>) -> bool {
        &&& self.url@ == config.api_url@ + path
        &&& self.authorization@ == BEARER_PREFIX@ + config.bitnob_secret_key@
    }

    /// Builds a call to `path` under the configured base URL.
    pub fn new(config: &Config, path: &str, body: OutboundBody) -> (r: OutboundCall)
        ensures
            r.addressed(*config, path@),
            r.body == body,
    {
        OutboundCall { url: config.endpoint(path), authorization: config.authorization(), body }
    }
}

} // verus!
