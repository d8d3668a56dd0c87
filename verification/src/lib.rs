//! Request signing and position reconciliation for the MEXC spot and futures
//! APIs.
//!
//! The crate builds fully formed, authenticated requests and decides which
//! orders move a futures position toward a target. It performs no network
//! traffic: the caller sends what the crate builds and hands back what came
//! in reply.

use vstd::prelude::*;
use vstd::string::*;
use crate::text::{decimal, decimal_string};

pub mod text;
pub mod codec;
pub mod utils;
pub mod signer;
pub mod error;
pub mod request;
pub mod futures;
pub mod orders;
pub mod account;

verus! {

/// The root of the spot API.
pub const PROD_API_URL: &'static str = "https://api.mexc.com";

/// The credentials of a spot client.
pub struct Mexc {
    pub api_key: Option<String>,
    pub api_secret: Option<String>,
}

impl Mexc {
    /// A client with the given credentials. Either may be absent; an
    /// operation that needs an absent one fails when it is called.
    pub fn new(api_key: Option<String>, api_secret: Option<String>) -> (client: Self)
        ensures
            client.api_key == api_key,
            client.api_secret == api_secret,
    {
        Self { api_key, api_secret }
    }

    /// The address of the public server clock. Public endpoints are called
    /// without a signature.
    pub fn server_time_url(&self) -> (url: String)
        ensures
            url@ == "https://api.mexc.com/api/v3/time"@,
    {
        String::from_str("https://api.mexc.com/api/v3/time")
    }

    /// The address of the public ping endpoint.
    pub fn ping_url(&self) -> (url: String)
        ensures
            url@ == "https://api.mexc.com/api/v3/ping"@,
    {
        String::from_str("https://api.mexc.com/api/v3/ping")
    }

    /// The address of the public metadata of every symbol.
    pub fn exchange_info_url(&self) -> (url: String)
        ensures
            url@ == "https://api.mexc.com/api/v3/exchangeInfo"@,
    {
        String::from_str("https://api.mexc.com/api/v3/exchangeInfo")
    }

    /// The address of the public metadata of `symbol`.
    pub fn symbol_info_url(&self, symbol: &str) -> (url: String)
        ensures
            url@ == "https://api.mexc.com/api/v3/exchangeInfo?symbol="@ + symbol@,
    {
        String::from_str("https://api.mexc.com/api/v3/exchangeInfo?symbol=").concat(symbol)
    }

    /// The address of the public order book of `symbol`, cut to `depth`
    /// levels where a depth is given.
    pub fn spot_orderbook_url(&self, symbol: &str, depth: Option<u32>) -> (url: String)
        ensures
            url@ == orderbook_url(symbol@, depth),
    {
        let mut url = String::from_str("https://api.mexc.com/api/v3/depth?symbol=");
        url.append(symbol);
        if let Some(limit) = depth {
            url.append("&limit=");
            url.append(decimal_string(limit as u128).as_str());
        }
        url
    }
}

/// The address of the order book of `symbol`.
pub open spec fn orderbook_url(symbol: Seq<char>, depth: Option<u32>) -> Seq<char> {
    match depth {
        Some(limit) => "https://api.mexc.com/api/v3/depth?symbol="@ + symbol + "&limit="@
            + decimal(limit as nat),
        None => "https://api.mexc.com/api/v3/depth?symbol="@ + symbol,
    }
}

/// The exchange's clock, in milliseconds since the Unix epoch.
#[derive(Debug, Clone, Copy, PartialEq, Eq, Structural)]
pub struct ServerTime {
    pub timestamp: u64,
}

} // verus!
