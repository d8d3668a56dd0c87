//! The spot account.

use vstd::prelude::*;
use vstd::string::*;
use crate::error::MexcError;
use crate::orders::{spot_call_result, window_of, DEFAULT_RECV_WINDOW};
use crate::request::{HttpMethod, SignedRequest};
use crate::text::{decimal, decimal_string};
use crate::utils::get_timestamp;
use crate::Mexc;

verus! {

/// The query of an account call: the receive window and the timestamp.
pub open spec fn account_query(recv_window: Option<u64>, timestamp: u128) -> Seq<char> {
    "recvWindow="@ + decimal(window_of(recv_window) as nat) + "&timestamp="@ + decimal(
        timestamp as nat,
    )
}

impl Mexc {
    /// The request for the account's permissions and balances, made at
    /// `timestamp`.
    pub fn get_account_at(&self, recv_window: Option<u64>, timestamp: u128) -> (r: Result<
        SignedRequest,
        MexcError,
    >)
        ensures
            spot_call_result(
                *self,
                r,
                HttpMethod::Get,
                "/api/v3/account"@,
                account_query(recv_window, timestamp),
            ),
    {
        let window = match recv_window {
            Some(w) => w,
            None => DEFAULT_RECV_WINDOW,
        };
        let mut query = String::from_str("recvWindow=");
        query.append(decimal_string(window as u128).as_str());
        query.append("&timestamp=");
        query.append(decimal_string(timestamp).as_str());
        self.signed_call(HttpMethod::Get, "/api/v3/account", query)
    }

    /// The request for the account's permissions and balances, made now: it
    /// reads the clock once and is what `get_account_at` gives for the time
    /// it read.
    pub fn get_account(&self, recv_window: Option<u64>) -> (r: Result<SignedRequest, MexcError>)
        ensures
            exists|timestamp: u128|
                spot_call_result(
                    *self,
                    r,
                    HttpMethod::Get,
                    "/api/v3/account"@,
                    #[trigger] account_query(recv_window, timestamp),
                ),
    {
        let timestamp = get_timestamp();
        let r = self.get_account_at(recv_window, timestamp);
        proof {
            assert(spot_call_result(
                *self,
                r,
                HttpMethod::Get,
                "/api/v3/account"@,
                account_query(recv_window, timestamp),
            ));
        }
        r
    }
}

} // verus!
