//! The decode client: the two requests that are made for a transaction.

use vstd::prelude::*;
use vstd::string::StringExecFns;
use crate::record::RRTransactionHash;

verus! {

/// The user agent that every request carries.
pub const DEFAULT_USER_AGENT: &'static str =
    "ronin/chain-decoder0.1.0 (+ https://github.com/wehmoen/chain-decoder)";

/// The decoding service in production.
pub const PRODUCTION_HOST: &'static str = "https://ronin.rest";

/// A decoding service on this machine.
pub const LOCAL_HOST: &'static str = "http://localhost:3000";

/// A GET request for the caller to send.
#[derive(Debug, Clone, PartialEq, Eq)]
pub struct Request {
    /// The address to get.
    pub url: String,
    /// The value of the `user-agent` header.
    pub user_agent: String,
}

/// The address that decodes the method call of a transaction.
pub open spec fn spec_method_url(host: Seq<char>, hash: Seq<char>) -> Seq<char> {
    host + "/decodeTransaction/"@ + hash
}

/// The address that decodes the receipt of a transaction.
pub open spec fn spec_receipt_url(host: Seq<char>, hash: Seq<char>) -> Seq<char> {
    host + "/decodeTransactionReceipt/"@ + hash
}

/// The decode client's settings: the host that it calls.
#[derive(Debug, Clone, PartialEq, Eq)]
pub struct Adapter {
    /// The base address of the decoding service, without a trailing slash.
    pub host: String,
}

impl Adapter {
    /// A client of the decoding service in production.
    pub fn new() -> (adapter: Adapter)
        ensures
            adapter.host@ == PRODUCTION_HOST@,
            adapter.host@ == "https://ronin.rest"@,
    {
        Adapter { host: String::from_str(PRODUCTION_HOST) }
    }

    /// A client of a decoding service on this machine.
    pub fn local() -> (adapter: Adapter)
        ensures
            adapter.host@ == LOCAL_HOST@,
            adapter.host@ == "http://localhost:3000"@,
    {
        Adapter { host: String::from_str(LOCAL_HOST) }
    }

    /// A client of the decoding service at `host`.
    pub fn with_host(host: String) -> (adapter: Adapter)
        ensures
            adapter.host == host,
    {
        Adapter { host }
    }

    /// The request that decodes the method call of the transaction `hash`.
    pub fn decode_method(&self, hash: &RRTransactionHash) -> (request: Request)
        ensures
            request.url@ == spec_method_url(self.host@, hash@),
            request.user_agent@ == DEFAULT_USER_AGENT@,
    {
        let mut url = self.host.clone();
        url.append("/decodeTransaction/");
        url.append(hash.as_str());
        Request { url, user_agent: String::from_str(DEFAULT_USER_AGENT) }
    }

    /// The request that decodes the receipt of the transaction `hash`.
    pub fn decode_receipt(&self, hash: &RRTransactionHash) -> (request: Request)
        ensures
            request.url@ == spec_receipt_url(self.host@, hash@),
            request.user_agent@ == DEFAULT_USER_AGENT@,
    {
        let mut url = self.host.clone();
        url.append("/decodeTransactionReceipt/");
        url.append(hash.as_str());
        Request { url, user_agent: String::from_str(DEFAULT_USER_AGENT) }
    }
}

} // verus!
