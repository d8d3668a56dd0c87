//! Spot orders: the query-signing scheme and the requests that place and
//! cancel orders.

use vstd::prelude::*;
use vstd::string::*;
use crate::codec::{form_urlencode_pair, form_urlencoded_pair, json_quote, json_string};
use crate::error::MexcError;
use crate::request::{
    header,
    header_views,
    make_header,
    Header,
    HttpMethod,
    SignedRequest,
};
use crate::signer::{hmac_hex, hmac_sha256_hex, same_text, text_of};
use crate::text::{decimal, decimal_string};
use crate::utils::get_timestamp;
use crate::{Mexc, PROD_API_URL};

verus! {

/// The receive window, in milliseconds, of a call that names none.
pub const DEFAULT_RECV_WINDOW: u64 = 5000;

/// How a spot order is to be executed.
#[allow(non_camel_case_types)]
#[derive(Debug, PartialEq, Eq, Structural, Clone, Copy)]
pub enum OrderType {
    LIMIT,
    MARKET,
    LIMIT_MAKER,
    IMMEDIATE_OR_CANCEL,
    FILL_OR_KILL,
}

impl OrderType {
    /// The name the exchange uses for this order type.
    pub open spec fn spec_name(&self) -> Seq<char> {
        match *self {
            OrderType::LIMIT => "LIMIT"@,
            OrderType::MARKET => "MARKET"@,
            OrderType::LIMIT_MAKER => "LIMIT_MAKER"@,
            OrderType::IMMEDIATE_OR_CANCEL => "IMMEDIATE_OR_CANCEL"@,
            OrderType::FILL_OR_KILL => "FILL_OR_KILL"@,
        }
    }

    /// The name the exchange uses for this order type.
    pub fn name(&self) -> (text: &'static str)
        ensures
            text@ == self.spec_name(),
    {
        match self {
            OrderType::LIMIT => "LIMIT",
            OrderType::MARKET => "MARKET",
            OrderType::LIMIT_MAKER => "LIMIT_MAKER",
            OrderType::IMMEDIATE_OR_CANCEL => "IMMEDIATE_OR_CANCEL",
            OrderType::FILL_OR_KILL => "FILL_OR_KILL",
        }
    }
}

/// The side of a spot order.
#[derive(Debug, PartialEq, Eq, Structural, Clone, Copy)]
pub enum OrderSide {
    BUY,
    SELL,
}

impl OrderSide {
    /// The name the exchange uses for this side.
    pub open spec fn spec_name(&self) -> Seq<char> {
        match *self {
            OrderSide::BUY => "BUY"@,
            OrderSide::SELL => "SELL"@,
        }
    }

    /// The name the exchange uses for this side.
    pub fn name(&self) -> (text: &'static str)
        ensures
            text@ == self.spec_name(),
    {
        match self {
            OrderSide::BUY => "BUY",
            OrderSide::SELL => "SELL",
        }
    }
}

/// The state of a spot order at the exchange.
#[allow(non_camel_case_types)]
#[derive(Debug, PartialEq, Eq, Structural, Clone, Copy)]
pub enum OrderStatus {
    NEW,
    FILLED,
    PARTIALLY_FILLED,
    CANCELED,
    PARTIALLY_CANCELED,
}

/// One order of a batch. Price and quantity are decimal text, as the
/// exchange takes them.
#[derive(Debug, Clone)]
pub struct Order {
    pub symbol: String,
    pub price: String,
    pub quantity: String,
    pub side: OrderSide,
    pub order_type: OrderType,
}

/// The signed form of `query` under the query-signing scheme: the query as
/// it stands, followed by its signature.
pub open spec fn signed_query(secret: Seq<char>, query: Seq<char>) -> Seq<char> {
    query_with_signature(query, hmac_hex(secret, query))
}

/// `query` followed by `signature` as its last parameter.
pub open spec fn query_with_signature(query: Seq<char>, signature: Seq<char>) -> Seq<char> {
    query + "&signature="@ + signature
}

/// What query signing comes to for a client: only the secret is needed.
pub open spec fn sign_request_result(
    client: Mexc,
    order_details: Seq<char>,
    r: Result<String, MexcError>,
) -> bool {
    match client.api_secret {
        None => r matches Err(MexcError::MissingSecretKey),
        Some(secret) => r matches Ok(signed) && signed@ == signed_query(secret@, order_details),
    }
}

/// The receive window of a call.
pub open spec fn window_of(recv_window: Option<u64>) -> u64 {
    match recv_window {
        Some(w) => w,
        None => DEFAULT_RECV_WINDOW,
    }
}

/// The two parameters that end every signed spot query.
pub open spec fn window_and_time(
    query: Seq<char>,
    recv_window: Option<u64>,
    timestamp: u128,
) -> Seq<char> {
    query + "&recvWindow="@ + decimal(window_of(recv_window) as nat) + "&timestamp="@ + decimal(
        timestamp as nat,
    )
}

/// The query of an order placement.
pub open spec fn order_query(
    symbol: Seq<char>,
    side: OrderSide,
    order_type: OrderType,
    price: Seq<char>,
    quantity: Seq<char>,
    recv_window: Option<u64>,
    timestamp: u128,
) -> Seq<char> {
    window_and_time(
        "symbol="@ + symbol + "&side="@ + side.spec_name() + "&type="@ + order_type.spec_name()
            + "&quantity="@ + quantity + "&price="@ + price,
        recv_window,
        timestamp,
    )
}

/// The JSON object of one order of a batch.
pub open spec fn order_json(order: Order) -> Seq<char> {
    "{\"symbol\":"@ + json_string(order.symbol@) + ",\"price\":"@ + json_string(order.price@)
        + ",\"quantity\":"@ + json_string(order.quantity@) + ",\"side\":\""@
        + order.side.spec_name() + "\",\"type\":\""@ + order.order_type.spec_name() + "\"}"@
}

/// The opening bracket and the first `n` orders of a batch, with commas
/// between them.
pub open spec fn orders_json_upto(orders: Seq<Order>, n: int) -> Seq<char>
    decreases n,
{
    if n <= 0 {
        "["@
    } else if n == 1 {
        "["@ + order_json(orders[0])
    } else {
        orders_json_upto(orders, n - 1) + ","@ + order_json(orders[n - 1])
    }
}

/// The JSON array of a batch.
pub open spec fn orders_json(orders: Seq<Order>) -> Seq<char> {
    orders_json_upto(orders, orders.len() as int) + "]"@
}

/// The query of a batch placement.
pub open spec fn batch_query(orders: Seq<Order>, recv_window: Option<u64>, timestamp: u128) -> Seq<
    char,
> {
    window_and_time(
        form_urlencoded_pair("batchOrders"@, orders_json(orders)),
        recv_window,
        timestamp,
    )
}

/// The address of the spot endpoint at `path` with the given query.
pub open spec fn spot_url(path: Seq<char>, query: Seq<char>) -> Seq<char> {
    PROD_API_URL@ + path + "?"@ + query
}

/// Whether `request` is the signed spot call of `method` at `path` with
/// `query`.
pub open spec fn is_spot_call(
    request: SignedRequest,
    method: HttpMethod,
    path: Seq<char>,
    query: Seq<char>,
    api_key: Seq<char>,
    api_secret: Seq<char>,
) -> bool {
    &&& request.method == method
    &&& request.url@ == spot_url(path, signed_query(api_secret, query))
    &&& header_views(request.headers@) == seq![header("X-MEXC-APIKEY"@, api_key)]
    &&& request.body is None
}

/// What a spot call comes to for a client: the secret is needed first, to
/// sign, then the key, to send.
pub open spec fn spot_call_result(
    client: Mexc,
    r: Result<SignedRequest, MexcError>,
    method: HttpMethod,
    path: Seq<char>,
    query: Seq<char>,
) -> bool {
    match (client.api_secret, client.api_key) {
        (None, _) => r matches Err(MexcError::MissingSecretKey),
        (Some(_), None) => r matches Err(MexcError::MissingApiKey),
        (Some(secret), Some(key)) => r matches Ok(request) && is_spot_call(
            request,
            method,
            path,
            query,
            key@,
            secret@,
        ),
    }
}

/// Reads the status of a spot reply: the body of a `200`, and a refusal
/// that carries the body of any other status.
pub fn reply_body(status: u16, body: String) -> (r: Result<String, MexcError>)
    ensures
        status == 200 ==> r == Ok::<String, MexcError>(body),
        status != 200 ==> r == Err::<String, MexcError>(
            MexcError::Rejected { message: Some(body) },
        ),
{
    if status == 200 {
        Ok(body)
    } else {
        Err(MexcError::Rejected { message: Some(body) })
    }
}

/// Appends a signature that was already computed to the query it signs.
pub fn append_signature(query: String, signature: &str) -> (signed: String)
    ensures
        signed@ == query_with_signature(query@, signature@),
{
    let mut signed = query;
    signed.append("&signature=");
    signed.append(signature);
    signed
}

fn append_window_and_time(query: &mut String, recv_window: Option<u64>, timestamp: u128)
    ensures
        final(query)@ == window_and_time(old(query)@, recv_window, timestamp),
{
    let window = match recv_window {
        Some(w) => w,
        None => DEFAULT_RECV_WINDOW,
    };
    query.append("&recvWindow=");
    query.append(decimal_string(window as u128).as_str());
    query.append("&timestamp=");
    query.append(decimal_string(timestamp).as_str());
}

/// The JSON array of a batch of orders.
pub fn batch_orders_json(orders: &Vec<Order>) -> (json: String)
    ensures
        json@ == orders_json(orders@),
{
    let mut json = String::from_str("[");
    let mut i: usize = 0;
    while i < orders.len()
        invariant
            i <= orders.len(),
            json@ == orders_json_upto(orders@, i as int),
        decreases orders.len() - i,
    {
        if i > 0 {
            json.append(",");
        }
        let order = &orders[i];
        let mut item = String::from_str("{\"symbol\":");
        item.append(json_quote(order.symbol.as_str()).as_str());
        item.append(",\"price\":");
        item.append(json_quote(order.price.as_str()).as_str());
        item.append(",\"quantity\":");
        item.append(json_quote(order.quantity.as_str()).as_str());
        item.append(",\"side\":\"");
        item.append(order.side.name());
        item.append("\",\"type\":\"");
        item.append(order.order_type.name());
        item.append("\"}");
        json.append(item.as_str());
        i += 1;
    }
    json.append("]");
    json
}

impl Mexc {
    /// Signs `order_details` under the query-signing scheme. The parameters
    /// are signed in the order in which they stand.
    ///
    /// Fails exactly if the secret is absent.
    pub fn sign_request(&self, order_details: String) -> (r: Result<String, MexcError>)
        ensures
            sign_request_result(*self, order_details@, r),
    {
        let secret_key = match &self.api_secret {
            Some(secret) => secret,
            None => { return Err(MexcError::MissingSecretKey); },
        };
        let signature = hmac_sha256_hex(secret_key.as_str(), order_details.as_str());
        Ok(append_signature(order_details, signature.as_str()))
    }

    /// The signed call of `method` at `path` with `query`.
    pub fn signed_call(&self, method: HttpMethod, path: &str, query: String) -> (r: Result<
        SignedRequest,
        MexcError,
    >)
        ensures
            spot_call_result(*self, r, method, path@, query@),
    {
        let signed = match self.sign_request(query) {
            Ok(signed) => signed,
            Err(e) => { return Err(e); },
        };
        let api_key = match &self.api_key {
            Some(key) => key,
            None => { return Err(MexcError::MissingApiKey); },
        };
        let mut url = String::from_str(PROD_API_URL);
        url.append(path);
        url.append("?");
        url.append(signed.as_str());
        let mut headers: Vec<Header> = Vec::new();
        headers.push(make_header("X-MEXC-APIKEY", api_key.as_str()));
        proof {
            assert(header_views(headers@) =~= seq![header("X-MEXC-APIKEY"@, api_key@)]);
        }
        Ok(SignedRequest { method, url, headers, body: None })
    }

    /// The request that places one order, made at `timestamp`. Price and
    /// quantity are decimal text.
    pub fn submit_order_at(
        &self,
        symbol: &str,
        side: OrderSide,
        order_type: OrderType,
        price: &str,
        quantity: &str,
        recv_window: Option<u64>,
        timestamp: u128,
    ) -> (r: Result<SignedRequest, MexcError>)
        ensures
            spot_call_result(
                *self,
                r,
                HttpMethod::Post,
                "/api/v3/order"@,
                order_query(symbol@, side, order_type, price@, quantity@, recv_window, timestamp),
            ),
    {
        let mut query = String::from_str("symbol=");
        query.append(symbol);
        query.append("&side=");
        query.append(side.name());
        query.append("&type=");
        query.append(order_type.name());
        query.append("&quantity=");
        query.append(quantity);
        query.append("&price=");
        query.append(price);
        append_window_and_time(&mut query, recv_window, timestamp);
        self.signed_call(HttpMethod::Post, "/api/v3/order", query)
    }

    /// The request that places a batch of orders, made at `timestamp`.
    ///
    /// Fails with `NoOrders` exactly if the batch is empty; a missing
    /// credential is reported only for a batch that is not.
    pub fn batch_orders_at(
        &self,
        orders: &Vec<Order>,
        recv_window: Option<u64>,
        timestamp: u128,
    ) -> (r: Result<SignedRequest, MexcError>)
        ensures
            orders@.len() == 0 ==> r matches Err(MexcError::NoOrders),
            orders@.len() > 0 ==> spot_call_result(
                *self,
                r,
                HttpMethod::Post,
                "/api/v3/batchOrders"@,
                batch_query(orders@, recv_window, timestamp),
            ),
    {
        if orders.len() == 0 {
            return Err(MexcError::NoOrders);
        }
        let json = batch_orders_json(orders);
        let mut query = form_urlencode_pair("batchOrders", json.as_str());
        append_window_and_time(&mut query, recv_window, timestamp);
        self.signed_call(HttpMethod::Post, "/api/v3/batchOrders", query)
    }

    /// The request that cancels every open order on `symbol`, made at
    /// `timestamp`.
    pub fn cancel_all_orders_at(
        &self,
        symbol: &str,
        recv_window: Option<u64>,
        timestamp: u128,
    ) -> (r: Result<SignedRequest, MexcError>)
        ensures
            spot_call_result(
                *self,
                r,
                HttpMethod::Delete,
                "/api/v3/openOrders"@,
                window_and_time("symbol="@ + symbol@, recv_window, timestamp),
            ),
    {
        let mut query = String::from_str("symbol=");
        query.append(symbol);
        append_window_and_time(&mut query, recv_window, timestamp);
        self.signed_call(HttpMethod::Delete, "/api/v3/openOrders", query)
    }

    /// The request that cancels one order, made at `timestamp`.
    pub fn cancel_order_at(
        &self,
        symbol: &str,
        order_id: &str,
        recv_window: Option<u64>,
        timestamp: u128,
    ) -> (r: Result<SignedRequest, MexcError>)
        ensures
            spot_call_result(
                *self,
                r,
                HttpMethod::Delete,
                "/api/v3/order"@,
                window_and_time(
                    "symbol="@ + symbol@ + "&orderId="@ + order_id@,
                    recv_window,
                    timestamp,
                ),
            ),
    {
        let mut query = String::from_str("symbol=");
        query.append(symbol);
        query.append("&orderId=");
        query.append(order_id);
        append_window_and_time(&mut query, recv_window, timestamp);
        self.signed_call(HttpMethod::Delete, "/api/v3/order", query)
    }
}

/// The same requests, made for the present moment. Each reads the clock
/// once and is what its counterpart gives for the time it read.
impl Mexc {
    /// The request that places one order, made now.
    pub fn submit_order(
        &self,
        symbol: &str,
        side: OrderSide,
        order_type: OrderType,
        price: &str,
        quantity: &str,
        recv_window: Option<u64>,
    ) -> (r: Result<SignedRequest, MexcError>)
        ensures
            exists|timestamp: u128|
                spot_call_result(
                    *self,
                    r,
                    HttpMethod::Post,
                    "/api/v3/order"@,
                    #[trigger] order_query(
                        symbol@,
                        side,
                        order_type,
                        price@,
                        quantity@,
                        recv_window,
                        timestamp,
                    ),
                ),
    {
        let timestamp = get_timestamp();
        let r = self.submit_order_at(
            symbol,
            side,
            order_type,
            price,
            quantity,
            recv_window,
            timestamp,
        );
        proof {
            assert(spot_call_result(
                *self,
                r,
                HttpMethod::Post,
                "/api/v3/order"@,
                order_query(symbol@, side, order_type, price@, quantity@, recv_window, timestamp),
            ));
        }
        r
    }

    /// The request that places a batch of orders, made now.
    pub fn batch_orders(&self, orders: &Vec<Order>, recv_window: Option<u64>) -> (r: Result<
        SignedRequest,
        MexcError,
    >)
        ensures
            orders@.len() == 0 ==> r matches Err(MexcError::NoOrders),
            orders@.len() > 0 ==> exists|timestamp: u128|
                spot_call_result(
                    *self,
                    r,
                    HttpMethod::Post,
                    "/api/v3/batchOrders"@,
                    #[trigger] batch_query(orders@, recv_window, timestamp),
                ),
    {
        let timestamp = get_timestamp();
        let r = self.batch_orders_at(orders, recv_window, timestamp);
        proof {
            if orders@.len() > 0 {
                assert(spot_call_result(
                    *self,
                    r,
                    HttpMethod::Post,
                    "/api/v3/batchOrders"@,
                    batch_query(orders@, recv_window, timestamp),
                ));
            }
        }
        r
    }

    /// The request that cancels every open order on `symbol`, made now.
    pub fn cancel_all_orders(&self, symbol: &str, recv_window: Option<u64>) -> (r: Result<
        SignedRequest,
        MexcError,
    >)
        ensures
            exists|timestamp: u128|
                spot_call_result(
                    *self,
                    r,
                    HttpMethod::Delete,
                    "/api/v3/openOrders"@,
                    #[trigger] window_and_time("symbol="@ + symbol@, recv_window, timestamp),
                ),
    {
        let timestamp = get_timestamp();
        let r = self.cancel_all_orders_at(symbol, recv_window, timestamp);
        proof {
            assert(spot_call_result(
                *self,
                r,
                HttpMethod::Delete,
                "/api/v3/openOrders"@,
                window_and_time("symbol="@ + symbol@, recv_window, timestamp),
            ));
        }
        r
    }

    /// The request that cancels one order, made now.
    pub fn cancel_order(&self, symbol: &str, order_id: &str, recv_window: Option<u64>) -> (r:
        Result<SignedRequest, MexcError>)
        ensures
            exists|timestamp: u128|
                spot_call_result(
                    *self,
                    r,
                    HttpMethod::Delete,
                    "/api/v3/order"@,
                    #[trigger] window_and_time(
                        "symbol="@ + symbol@ + "&orderId="@ + order_id@,
                        recv_window,
                        timestamp,
                    ),
                ),
    {
        let timestamp = get_timestamp();
        let r = self.cancel_order_at(symbol, order_id, recv_window, timestamp);
        proof {
            assert(spot_call_result(
                *self,
                r,
                HttpMethod::Delete,
                "/api/v3/order"@,
                window_and_time(
                    "symbol="@ + symbol@ + "&orderId="@ + order_id@,
                    recv_window,
                    timestamp,
                ),
            ));
        }
        r
    }
}

/// The signed query begins with the query as the caller assembled it, in
/// the caller's order, and ends with the signature of exactly that text.
pub proof fn signed_query_keeps_the_query(secret: Seq<char>, query: Seq<char>)
    ensures
        signed_query(secret, query).subrange(0, query.len() as int) == query,
        signed_query(secret, query).subrange(
            (query.len() + "&signature="@.len()) as int,
            signed_query(secret, query).len() as int,
        ) == hmac_hex(secret, query),
{
    let signed = signed_query(secret, query);
    assert(signed.subrange(0, query.len() as int) =~= query);
    assert(signed.subrange((query.len() + "&signature="@.len()) as int, signed.len() as int)
        =~= hmac_hex(secret, query));
}

/// Query signing is deterministic: two clients that hold the same secret
/// and sign the same query get the same signed query, or fail alike.
pub proof fn sign_request_is_deterministic(
    a: Mexc,
    b: Mexc,
    order_details: Seq<char>,
    first: Result<String, MexcError>,
    second: Result<String, MexcError>,
)
    requires
        text_of(a.api_secret) == text_of(b.api_secret),
        sign_request_result(a, order_details, first),
        sign_request_result(b, order_details, second),
    ensures
        same_text(first, second),
{
}

} // verus!
