//! The futures API: header signing, the web order signature, the websocket
//! control statements and the reconciliation of a position with a target.

use vstd::prelude::*;
use vstd::string::*;
use crate::codec::{json_quote, json_string};
use crate::error::MexcError;
use crate::request::{
    header,
    header_views,
    make_header,
    Header,
    HeaderView,
    HttpMethod,
    SignedRequest,
};
use crate::signer::{get_md5, hmac_hex, hmac_sha256_hex, md5_hex, same_text, str_text, text_of};
use crate::text::{decimal, decimal_string};
use crate::utils::get_timestamp;
use self::structures::{
    FuturesResponse,
    OpenType,
    OrderDirection,
    OrderInstruction,
    OrderType,
};

pub mod structures;
pub mod reconcile;
pub mod submission;

verus! {

/// The root of the futures REST API.
pub const FUTURES_API_URL: &'static str = "https://contract.mexc.com";

/// The credentials of a futures client. They are fixed for the lifetime of
/// the client and never appear in what the client returns, except where a
/// scheme sends them as a header.
pub struct MexcFutures {
    pub api_key: Option<String>,
    pub api_secret: Option<String>,
    pub web_user_token: Option<String>,
}

/// The text that the header scheme signs: API key, timestamp and, if there
/// are any, the parameters, with nothing between them.
pub open spec fn sign_v1_payload(
    api_key: Seq<char>,
    timestamp: u128,
    sign_params: Option<Seq<char>>,
) -> Seq<char> {
    match sign_params {
        Some(params) => api_key + decimal(timestamp as nat) + params,
        None => api_key + decimal(timestamp as nat),
    }
}

/// The signature of the header scheme.
pub open spec fn sign_v1_signature(
    api_key: Seq<char>,
    api_secret: Seq<char>,
    timestamp: u128,
    sign_params: Option<Seq<char>>,
) -> Seq<char> {
    hmac_hex(api_secret, sign_v1_payload(api_key, timestamp, sign_params))
}

/// The four headers of a private futures REST call that carries
/// `signature`.
pub open spec fn headers_with_signature(
    api_key: Seq<char>,
    timestamp: u128,
    signature: Seq<char>,
) -> Seq<HeaderView> {
    seq![
        header("ApiKey"@, api_key),
        header("Request-Time"@, decimal(timestamp as nat)),
        header("Signature"@, signature),
        header("Content-Type"@, "application/json"@),
    ]
}

/// The four headers of a private futures REST call.
pub open spec fn signed_headers(
    api_key: Seq<char>,
    api_secret: Seq<char>,
    timestamp: u128,
    sign_params: Option<Seq<char>>,
) -> Seq<HeaderView> {
    headers_with_signature(
        api_key,
        timestamp,
        sign_v1_signature(api_key, api_secret, timestamp, sign_params),
    )
}

/// What building the four headers comes to for a client: the API key is
/// needed first, then the secret.
pub open spec fn signed_header_result(
    client: MexcFutures,
    timestamp: u128,
    sign_params: Option<Seq<char>>,
    r: Result<Vec<Header>, MexcError>,
) -> bool {
    match (client.api_key, client.api_secret) {
        (None, _) => r matches Err(MexcError::MissingApiKey),
        (Some(_), None) => r matches Err(MexcError::MissingSecretKey),
        (Some(key), Some(secret)) => r matches Ok(headers) && header_views(headers@)
            == signed_headers(key@, secret@, timestamp, sign_params),
    }
}

/// What building a private `GET` comes to for a client: the API key is
/// needed first, then the secret.
pub open spec fn private_get_result(
    client: MexcFutures,
    path: Seq<char>,
    timestamp: u128,
    r: Result<SignedRequest, MexcError>,
) -> bool {
    match (client.api_key, client.api_secret) {
        (None, _) => r matches Err(MexcError::MissingApiKey),
        (Some(_), None) => r matches Err(MexcError::MissingSecretKey),
        (Some(key), Some(secret)) => r matches Ok(request) && is_private_get(
            request,
            path,
            key@,
            secret@,
            timestamp,
        ),
    }
}

/// The nonce of the web order scheme: the MD5 digest of session token and
/// timestamp, in hexadecimal, without its first seven digits.
pub open spec fn partial_hash(token: Seq<char>, timestamp: Seq<char>) -> Seq<char> {
    md5_hex(token + timestamp).skip(7)
}

/// The signature of the web order scheme: the MD5 digest, in hexadecimal,
/// of timestamp, body and nonce.
pub open spec fn web_signature(token: Seq<char>, timestamp: Seq<char>, body: Seq<char>) -> Seq<
    char,
> {
    md5_hex(timestamp + body + partial_hash(token, timestamp))
}

/// The headers of an order-creation call that carries `signature`: the
/// timestamp as nonce, the signature, the raw session token, and the fixed
/// headers of a recognised client.
pub open spec fn web_headers_with_signature(
    token: Seq<char>,
    timestamp: Seq<char>,
    signature: Seq<char>,
) -> Seq<HeaderView> {
    seq![
        header("x-mxc-nonce"@, timestamp),
        header("x-mxc-sign"@, signature),
        header("authorization"@, token),
        header("user-agent"@, "MEXC/7 CFNetwork/1474 Darwin/23.0.0"@),
        header("content-type"@, "application/json"@),
        header("origin"@, "https://futures.mexc.com"@),
        header("referer"@, "https://futures.mexc.com/exchange"@),
    ]
}

/// The headers of an order-creation call.
pub open spec fn web_order_headers(token: Seq<char>, timestamp: Seq<char>, body: Seq<char>) -> Seq<
    HeaderView,
> {
    web_headers_with_signature(token, timestamp, web_signature(token, timestamp, body))
}

/// The order body up to the place of the optional price.
pub open spec fn order_body_head(leverage: u64, open_type: OpenType) -> Seq<char> {
    "{\"leverage\":"@ + decimal(leverage as nat) + ",\"marketCeiling\":false,\"openType\":"@
        + decimal(open_type.spec_code() as nat)
}

/// `head` followed by the price member, where there is a price. The price
/// is sent as a string.
pub open spec fn with_price(head: Seq<char>, price: Option<Seq<char>>) -> Seq<char> {
    match price {
        Some(p) => head + ",\"price\":"@ + json_string(p),
        None => head,
    }
}

/// The JSON body of an order-creation call: one object, its members in
/// alphabetical order of their names, without white space.
pub open spec fn order_body(
    symbol: Seq<char>,
    contract_units: u64,
    price: Option<Seq<char>>,
    leverage: u64,
    side: OrderDirection,
    open_type: OpenType,
    order_type: OrderType,
) -> Seq<char> {
    with_price(order_body_head(leverage, open_type), price)
        + ",\"priceProtect\":\"0\",\"reduceOnly\":false,\"side\":"@ + decimal(
        side.spec_code() as nat,
    ) + ",\"symbol\":"@ + json_string(symbol) + ",\"type\":"@ + decimal(
        order_type.spec_code() as nat,
    ) + ",\"vol\":"@ + decimal(contract_units as nat) + "}"@
}

/// The login statement of the websocket control channel that carries
/// `signature`.
pub open spec fn login_with_signature(
    api_key: Seq<char>,
    timestamp: u128,
    signature: Seq<char>,
) -> Seq<char> {
    "{\"method\":\"login\",\"param\":{\"apiKey\":"@ + json_string(api_key) + ",\"reqTime\":"@
        + json_string(decimal(timestamp as nat)) + ",\"signature\":"@ + json_string(signature)
        + "}}"@
}

/// The login statement of the websocket control channel. It is signed as a
/// header-scheme call without parameters is.
pub open spec fn login_statement(api_key: Seq<char>, api_secret: Seq<char>, timestamp: u128) -> Seq<
    char,
> {
    login_with_signature(
        api_key,
        timestamp,
        sign_v1_signature(api_key, api_secret, timestamp, None),
    )
}

/// What signing with the header scheme comes to for a client: the API key
/// is needed first, then the secret.
pub open spec fn sign_v1_result(
    client: MexcFutures,
    timestamp: u128,
    sign_params: Option<Seq<char>>,
    r: Result<String, MexcError>,
) -> bool {
    match (client.api_key, client.api_secret) {
        (None, _) => r matches Err(MexcError::MissingApiKey),
        (Some(_), None) => r matches Err(MexcError::MissingSecretKey),
        (Some(key), Some(secret)) => r matches Ok(signature) && signature@ == sign_v1_signature(
            key@,
            secret@,
            timestamp,
            sign_params,
        ),
    }
}

/// What the login statement comes to for a client.
pub open spec fn login_result(
    client: MexcFutures,
    timestamp: u128,
    r: Result<String, MexcError>,
) -> bool {
    match (client.api_key, client.api_secret) {
        (None, _) => r matches Err(MexcError::MissingApiKey),
        (Some(_), None) => r matches Err(MexcError::MissingSecretKey),
        (Some(key), Some(secret)) => r matches Ok(statement) && statement@ == login_statement(
            key@,
            secret@,
            timestamp,
        ),
    }
}

/// What building an order-creation request comes to for a client: only the
/// session token is needed.
pub open spec fn submit_order_result(
    client: MexcFutures,
    body: Seq<char>,
    timestamp: u128,
    r: Result<SignedRequest, MexcError>,
) -> bool {
    match client.web_user_token {
        None => r matches Err(MexcError::MissingWebUserToken),
        Some(token) => {
            &&& r matches Ok(request)
            &&& request.method == HttpMethod::Post
            &&& request.url@ == "https://futures.mexc.com/api/v1/private/order/create"@
            &&& request.body matches Some(sent) && sent@ == body
            &&& header_views(request.headers@) == web_order_headers(
                token@,
                decimal(timestamp as nat),
                body,
            )
        },
    }
}

/// Whether two clients hold the same credentials.
pub open spec fn same_credentials(a: MexcFutures, b: MexcFutures) -> bool {
    &&& text_of(a.api_key) == text_of(b.api_key)
    &&& text_of(a.api_secret) == text_of(b.api_secret)
    &&& text_of(a.web_user_token) == text_of(b.web_user_token)
}

/// The address of the private futures REST endpoint at `path`.
pub open spec fn futures_url(path: Seq<char>) -> Seq<char> {
    FUTURES_API_URL@ + path
}

/// Whether `request` is the signed `GET` of the private endpoint at `path`.
pub open spec fn is_private_get(
    request: SignedRequest,
    path: Seq<char>,
    api_key: Seq<char>,
    api_secret: Seq<char>,
    timestamp: u128,
) -> bool {
    &&& request.method == HttpMethod::Get
    &&& request.url@ == futures_url(path)
    &&& header_views(request.headers@) == signed_headers(api_key, api_secret, timestamp, None)
    &&& request.body is None
}

/// The text that the header scheme signs.
pub fn sign_v1_payload_string(api_key: &str, timestamp: u128, sign_params: Option<&str>) -> (sign:
    String)
    ensures
        sign@ == sign_v1_payload(api_key@, timestamp, str_text(sign_params)),
{
    let mut sign = String::from_str(api_key);
    sign.append(decimal_string(timestamp).as_str());
    if let Some(params) = sign_params {
        sign.append(params);
    }
    sign
}

/// The four headers of a private futures REST call, around a signature
/// that was already computed.
pub fn signed_header_list(api_key: &str, timestamp: u128, signature: &str) -> (headers: Vec<Header>)
    ensures
        header_views(headers@) == headers_with_signature(api_key@, timestamp, signature@),
{
    let request_time = decimal_string(timestamp);
    let mut headers: Vec<Header> = Vec::new();
    headers.push(make_header("ApiKey", api_key));
    headers.push(make_header("Request-Time", request_time.as_str()));
    headers.push(make_header("Signature", signature));
    headers.push(make_header("Content-Type", "application/json"));
    proof {
        assert(header_views(headers@) =~= headers_with_signature(
            api_key@,
            timestamp,
            signature@,
        ));
    }
    headers
}

/// The headers of an order-creation call, around a signature that was
/// already computed.
pub fn web_order_header_list(token: &str, timestamp: &str, signature: &str) -> (headers: Vec<
    Header,
>)
    ensures
        header_views(headers@) == web_headers_with_signature(token@, timestamp@, signature@),
{
    let mut headers: Vec<Header> = Vec::new();
    headers.push(make_header("x-mxc-nonce", timestamp));
    headers.push(make_header("x-mxc-sign", signature));
    headers.push(make_header("authorization", token));
    headers.push(make_header("user-agent", "MEXC/7 CFNetwork/1474 Darwin/23.0.0"));
    headers.push(make_header("content-type", "application/json"));
    headers.push(make_header("origin", "https://futures.mexc.com"));
    headers.push(make_header("referer", "https://futures.mexc.com/exchange"));
    proof {
        assert(header_views(headers@) =~= web_headers_with_signature(
            token@,
            timestamp@,
            signature@,
        ));
    }
    headers
}

/// The login statement around a signature that was already computed.
pub fn login_statement_text(api_key: &str, timestamp: u128, signature: &str) -> (statement: String)
    ensures
        statement@ == login_with_signature(api_key@, timestamp, signature@),
{
    let mut cmd = String::from_str("{\"method\":\"login\",\"param\":{\"apiKey\":");
    cmd.append(json_quote(api_key).as_str());
    cmd.append(",\"reqTime\":");
    cmd.append(json_quote(decimal_string(timestamp).as_str()).as_str());
    cmd.append(",\"signature\":");
    cmd.append(json_quote(signature).as_str());
    cmd.append("}}");
    cmd
}

/// What is left of a digest in hexadecimal after its first seven digits.
pub fn nonce_of_digest(digest: &str) -> (nonce: String)
    requires
        digest@.len() >= 7,
    ensures
        nonce@ == digest@.skip(7),
{
    let n = digest.unicode_len();
    digest.substring_char(7, n).to_owned()
}

/// The nonce of the web order scheme.
pub fn web_order_partial_hash(token: &str, timestamp: &str) -> (nonce: String)
    ensures
        nonce@ == partial_hash(token@, timestamp@),
        nonce@.len() == 25,
{
    let concat = String::from_str(token).concat(timestamp);
    let digest = get_md5(concat.as_str());
    nonce_of_digest(digest.as_str())
}

/// The signature of the web order scheme over `body`.
pub fn web_order_signature(token: &str, timestamp: &str, body: &str) -> (signature: String)
    ensures
        signature@ == web_signature(token@, timestamp@, body@),
        signature@.len() == 32,
{
    let nonce = web_order_partial_hash(token, timestamp);
    let mut text = String::from_str(timestamp);
    text.append(body);
    text.append(nonce.as_str());
    get_md5(text.as_str())
}

/// The JSON body of an order-creation call.
pub fn order_body_json(
    symbol: &str,
    contract_units: u64,
    price: Option<&str>,
    leverage: u64,
    side: OrderDirection,
    open_type: OpenType,
    order_type: OrderType,
) -> (body: String)
    ensures
        body@ == order_body(
            symbol@,
            contract_units,
            str_text(price),
            leverage,
            side,
            open_type,
            order_type,
        ),
{
    let mut body = String::from_str("{\"leverage\":");
    body.append(decimal_string(leverage as u128).as_str());
    body.append(",\"marketCeiling\":false,\"openType\":");
    body.append(decimal_string(open_type.code() as u128).as_str());
    if let Some(p) = price {
        body.append(",\"price\":");
        body.append(json_quote(p).as_str());
    }
    body.append(",\"priceProtect\":\"0\",\"reduceOnly\":false,\"side\":");
    body.append(decimal_string(side.code() as u128).as_str());
    body.append(",\"symbol\":");
    body.append(json_quote(symbol).as_str());
    body.append(",\"type\":");
    body.append(decimal_string(order_type.code() as u128).as_str());
    body.append(",\"vol\":");
    body.append(decimal_string(contract_units as u128).as_str());
    body.append("}");
    body
}

impl MexcFutures {
    /// A client with the given credentials. Each may be absent; an
    /// operation that needs an absent one fails when it is called.
    pub fn new(
        api_key: Option<String>,
        api_secret: Option<String>,
        web_user_token: Option<String>,
    ) -> (client: Self)
        ensures
            client.api_key == api_key,
            client.api_secret == api_secret,
            client.web_user_token == web_user_token,
    {
        Self { api_key, api_secret, web_user_token }
    }

    /// The header-scheme signature for `timestamp` and `sign_params`.
    ///
    /// Fails if the API key is absent, or else if the secret is.
    pub fn sign_v1(&self, timestamp: u128, sign_params: Option<&str>) -> (r: Result<
        String,
        MexcError,
    >)
        ensures
            sign_v1_result(*self, timestamp, str_text(sign_params), r),
    {
        let api_key = match &self.api_key {
            Some(key) => key,
            None => { return Err(MexcError::MissingApiKey); },
        };
        let secret_key = match &self.api_secret {
            Some(secret) => secret,
            None => { return Err(MexcError::MissingSecretKey); },
        };
        let sign = sign_v1_payload_string(api_key.as_str(), timestamp, sign_params);
        Ok(hmac_sha256_hex(secret_key.as_str(), sign.as_str()))
    }

    /// The four headers of a private futures REST call made at `timestamp`.
    ///
    /// Fails if the API key is absent, or else if the secret is.
    pub fn generate_signed_header_at(&self, timestamp: u128, sign_params: Option<&str>) -> (r:
        Result<Vec<Header>, MexcError>)
        ensures
            signed_header_result(*self, timestamp, str_text(sign_params), r),
    {
        let api_key = match &self.api_key {
            Some(key) => key,
            None => { return Err(MexcError::MissingApiKey); },
        };
        let signature = match self.sign_v1(timestamp, sign_params) {
            Ok(signature) => signature,
            Err(e) => { return Err(e); },
        };
        Ok(signed_header_list(api_key.as_str(), timestamp, signature.as_str()))
    }

    /// The address of the public ping endpoint. Public endpoints are
    /// called without a signature.
    pub fn ping_url(&self) -> (url: String)
        ensures
            url@ == futures_url("/api/v1/contract/ping"@),
    {
        String::from_str(FUTURES_API_URL).concat("/api/v1/contract/ping")
    }

    /// The address of the public index price of `symbol`.
    pub fn fair_price_url(&self, symbol: &str) -> (url: String)
        ensures
            url@ == futures_url("/api/v1/contract/index_price/"@ + symbol@),
    {
        let path = String::from_str("/api/v1/contract/index_price/").concat(symbol);
        String::from_str(FUTURES_API_URL).concat(path.as_str())
    }

    /// The address of the public contract details of `symbol`.
    pub fn contract_details_url(&self, symbol: &str) -> (url: String)
        ensures
            url@ == futures_url("/api/v1/contract/detail?symbol="@ + symbol@),
    {
        let path = String::from_str("/api/v1/contract/detail?symbol=").concat(symbol);
        String::from_str(FUTURES_API_URL).concat(path.as_str())
    }

    /// The signed `GET` of the private endpoint at `path`.
    fn private_get(&self, path: &str, timestamp: u128) -> (r: Result<SignedRequest, MexcError>)
        ensures
            private_get_result(*self, path@, timestamp, r),
    {
        let headers = match self.generate_signed_header_at(timestamp, None) {
            Ok(headers) => headers,
            Err(e) => { return Err(e); },
        };
        let url = String::from_str(FUTURES_API_URL).concat(path);
        Ok(SignedRequest { method: HttpMethod::Get, url, headers, body: None })
    }

    /// The request for the balances of every asset of the account, made at
    /// `timestamp`.
    pub fn get_futures_account_at(&self, timestamp: u128) -> (r: Result<SignedRequest, MexcError>)
        ensures
            private_get_result(*self, "/api/v1/private/account/assets"@, timestamp, r),
    {
        self.private_get("/api/v1/private/account/assets", timestamp)
    }

    /// The request for the balance of one asset, made at `timestamp`.
    pub fn get_account_asset_at(&self, asset: &str, timestamp: u128) -> (r: Result<
        SignedRequest,
        MexcError,
    >)
        ensures
            private_get_result(*self, "/api/v1/private/account/asset/"@ + asset@, timestamp, r),
    {
        let path = String::from_str("/api/v1/private/account/asset/").concat(asset);
        self.private_get(path.as_str(), timestamp)
    }

    /// The request for the open positions of the account, made at
    /// `timestamp`.
    pub fn get_open_positions_at(&self, timestamp: u128) -> (r: Result<SignedRequest, MexcError>)
        ensures
            private_get_result(*self, "/api/v1/private/position/open_positions"@, timestamp, r),
    {
        self.private_get("/api/v1/private/position/open_positions", timestamp)
    }

    /// The request for the state of one order, made at `timestamp`.
    pub fn query_order_at(&self, order_id: &str, timestamp: u128) -> (r: Result<
        SignedRequest,
        MexcError,
    >)
        ensures
            private_get_result(*self, "/api/v1/private/order/get/"@ + order_id@, timestamp, r),
    {
        let path = String::from_str("/api/v1/private/order/get/").concat(order_id);
        self.private_get(path.as_str(), timestamp)
    }

    /// The order-creation request for one order, signed with the web order
    /// scheme at `timestamp`.
    ///
    /// Fails exactly if the session token is absent.
    pub fn submit_order_at(
        &self,
        symbol: &str,
        contract_units: u64,
        price: Option<&str>,
        leverage: u64,
        side: OrderDirection,
        open_type: OpenType,
        order_type: OrderType,
        timestamp: u128,
    ) -> (r: Result<SignedRequest, MexcError>)
        ensures
            submit_order_result(
                *self,
                order_body(
                    symbol@,
                    contract_units,
                    str_text(price),
                    leverage,
                    side,
                    open_type,
                    order_type,
                ),
                timestamp,
                r,
            ),
    {
        let web_user_token = match &self.web_user_token {
            Some(token) => token,
            None => { return Err(MexcError::MissingWebUserToken); },
        };
        let body = order_body_json(
            symbol,
            contract_units,
            price,
            leverage,
            side,
            open_type,
            order_type,
        );
        let nonce = decimal_string(timestamp);
        let signature = web_order_signature(
            web_user_token.as_str(),
            nonce.as_str(),
            body.as_str(),
        );
        let headers = web_order_header_list(
            web_user_token.as_str(),
            nonce.as_str(),
            signature.as_str(),
        );
        Ok(
            SignedRequest {
                method: HttpMethod::Post,
                url: String::from_str("https://futures.mexc.com/api/v1/private/order/create"),
                headers,
                body: Some(body),
            },
        )
    }

    /// The order-creation request for one instruction of a request, signed
    /// at `timestamp`.
    ///
    /// Fails exactly if the session token is absent.
    pub fn submit_instruction_at(&self, order: &OrderInstruction, timestamp: u128) -> (r: Result<
        SignedRequest,
        MexcError,
    >)
        ensures
            submit_order_result(
                *self,
                order_body(
                    order@.symbol,
                    order@.vol,
                    order@.price,
                    order@.leverage,
                    order@.side,
                    order@.open_type,
                    order@.order_type,
                ),
                timestamp,
                r,
            ),
    {
        let price: Option<&str> = match &order.price {
            Some(p) => Some(p.as_str()),
            None => None,
        };
        self.submit_order_at(
            order.symbol.as_str(),
            order.vol,
            price,
            order.leverage,
            order.side,
            order.open_type,
            order.order_type,
            timestamp,
        )
    }

    /// The login statement of the websocket control channel for
    /// `timestamp`: a JSON message, not a set of headers.
    ///
    /// Fails if the API key is absent, or else if the secret is.
    pub fn create_websocket_login_statement_at(&self, timestamp: u128) -> (r: Result<
        String,
        MexcError,
    >)
        ensures
            login_result(*self, timestamp, r),
    {
        let api_key = match &self.api_key {
            Some(key) => key,
            None => { return Err(MexcError::MissingApiKey); },
        };
        let signature = match self.sign_v1(timestamp, None) {
            Ok(signature) => signature,
            Err(e) => { return Err(e); },
        };
        Ok(login_statement_text(api_key.as_str(), timestamp, signature.as_str()))
    }

    /// The ping statement of the websocket control channel.
    pub fn create_websocket_ping_statement(&self) -> (statement: String)
        ensures
            statement@ == "{\"method\":\"ping\"}"@,
    {
        String::from_str("{\"method\":\"ping\"}")
    }
}

/// The same requests and statements, made for the present moment. Each reads
/// the clock once and is what its counterpart gives for the time it read.
impl MexcFutures {
    /// The four headers of a private futures REST call made now.
    pub fn generate_signed_header(&self, sign_params: Option<&str>) -> (r: Result<
        Vec<Header>,
        MexcError,
    >)
        ensures
            exists|timestamp: u128| #[trigger]
                signed_header_result(*self, timestamp, str_text(sign_params), r),
    {
        let timestamp = get_timestamp();
        let r = self.generate_signed_header_at(timestamp, sign_params);
        proof {
            assert(signed_header_result(*self, timestamp, str_text(sign_params), r));
        }
        r
    }

    /// The request for the balances of every asset of the account, made
    /// now.
    pub fn get_futures_account(&self) -> (r: Result<SignedRequest, MexcError>)
        ensures
            exists|timestamp: u128| #[trigger]
                private_get_result(*self, "/api/v1/private/account/assets"@, timestamp, r),
    {
        let timestamp = get_timestamp();
        let r = self.get_futures_account_at(timestamp);
        proof {
            assert(private_get_result(*self, "/api/v1/private/account/assets"@, timestamp, r));
        }
        r
    }

    /// The request for the balance of one asset, made now.
    pub fn get_account_asset(&self, asset: &str) -> (r: Result<SignedRequest, MexcError>)
        ensures
            exists|timestamp: u128| #[trigger]
                private_get_result(
                    *self,
                    "/api/v1/private/account/asset/"@ + asset@,
                    timestamp,
                    r,
                ),
    {
        let timestamp = get_timestamp();
        let r = self.get_account_asset_at(asset, timestamp);
        proof {
            assert(private_get_result(
                *self,
                "/api/v1/private/account/asset/"@ + asset@,
                timestamp,
                r,
            ));
        }
        r
    }

    /// The request for the open positions of the account, made now.
    pub fn get_open_positions(&self) -> (r: Result<SignedRequest, MexcError>)
        ensures
            exists|timestamp: u128| #[trigger]
                private_get_result(
                    *self,
                    "/api/v1/private/position/open_positions"@,
                    timestamp,
                    r,
                ),
    {
        let timestamp = get_timestamp();
        let r = self.get_open_positions_at(timestamp);
        proof {
            assert(private_get_result(
                *self,
                "/api/v1/private/position/open_positions"@,
                timestamp,
                r,
            ));
        }
        r
    }

    /// The request for the state of one order, made now.
    pub fn query_order(&self, order_id: &str) -> (r: Result<SignedRequest, MexcError>)
        ensures
            exists|timestamp: u128| #[trigger]
                private_get_result(
                    *self,
                    "/api/v1/private/order/get/"@ + order_id@,
                    timestamp,
                    r,
                ),
    {
        let timestamp = get_timestamp();
        let r = self.query_order_at(order_id, timestamp);
        proof {
            assert(private_get_result(
                *self,
                "/api/v1/private/order/get/"@ + order_id@,
                timestamp,
                r,
            ));
        }
        r
    }

    /// The order-creation request for one order, signed now.
    pub fn submit_order(
        &self,
        symbol: &str,
        contract_units: u64,
        price: Option<&str>,
        leverage: u64,
        side: OrderDirection,
        open_type: OpenType,
        order_type: OrderType,
    ) -> (r: Result<SignedRequest, MexcError>)
        ensures
            exists|timestamp: u128| #[trigger]
                submit_order_result(
                    *self,
                    order_body(
                        symbol@,
                        contract_units,
                        str_text(price),
                        leverage,
                        side,
                        open_type,
                        order_type,
                    ),
                    timestamp,
                    r,
                ),
    {
        let timestamp = get_timestamp();
        let r = self.submit_order_at(
            symbol,
            contract_units,
            price,
            leverage,
            side,
            open_type,
            order_type,
            timestamp,
        );
        proof {
            assert(submit_order_result(
                *self,
                order_body(
                    symbol@,
                    contract_units,
                    str_text(price),
                    leverage,
                    side,
                    open_type,
                    order_type,
                ),
                timestamp,
                r,
            ));
        }
        r
    }

    /// The order-creation request for one instruction, signed now.
    pub fn submit_instruction(&self, order: &OrderInstruction) -> (r: Result<
        SignedRequest,
        MexcError,
    >)
        ensures
            exists|timestamp: u128| #[trigger]
                submit_order_result(
                    *self,
                    order_body(
                        order@.symbol,
                        order@.vol,
                        order@.price,
                        order@.leverage,
                        order@.side,
                        order@.open_type,
                        order@.order_type,
                    ),
                    timestamp,
                    r,
                ),
    {
        let timestamp = get_timestamp();
        let r = self.submit_instruction_at(order, timestamp);
        proof {
            assert(submit_order_result(
                *self,
                order_body(
                    order@.symbol,
                    order@.vol,
                    order@.price,
                    order@.leverage,
                    order@.side,
                    order@.open_type,
                    order@.order_type,
                ),
                timestamp,
                r,
            ));
        }
        r
    }

    /// The login statement of the websocket control channel, signed now.
    pub fn create_websocket_login_statement(&self) -> (r: Result<String, MexcError>)
        ensures
            exists|timestamp: u128| #[trigger] login_result(*self, timestamp, r),
    {
        let timestamp = get_timestamp();
        let r = self.create_websocket_login_statement_at(timestamp);
        proof {
            assert(login_result(*self, timestamp, r));
        }
        r
    }
}

impl FuturesResponse {
    /// What the envelope says of a call that expects a payload.
    pub open spec fn outcome(self) -> Result<serde_json::Value, MexcError> {
        if !self.success {
            Err(MexcError::Rejected { message: self.message })
        } else {
            match self.data {
                Some(data) => Ok(data),
                None => Err(MexcError::MissingData),
            }
        }
    }

    /// Opens the envelope: the payload of a success, the exchange's message
    /// of a refusal, and an error of its own where a success carries no
    /// payload.
    pub fn payload(self) -> (r: Result<serde_json::Value, MexcError>)
        ensures
            r == self.outcome(),
    {
        if !self.success {
            Err(MexcError::Rejected { message: self.message })
        } else {
            match self.data {
                Some(data) => Ok(data),
                None => Err(MexcError::MissingData),
            }
        }
    }
}

/// The header scheme is deterministic: two clients that hold the same
/// credentials and sign the same timestamp and parameters get the same
/// signature, or fail alike.
pub proof fn sign_v1_is_deterministic(
    a: MexcFutures,
    b: MexcFutures,
    timestamp: u128,
    sign_params: Option<Seq<char>>,
    first: Result<String, MexcError>,
    second: Result<String, MexcError>,
)
    requires
        same_credentials(a, b),
        sign_v1_result(a, timestamp, sign_params, first),
        sign_v1_result(b, timestamp, sign_params, second),
    ensures
        same_text(first, second),
{
}

/// The web order scheme is deterministic: two clients that hold the same
/// session token and build the request for the same body at the same
/// timestamp either both fail, or send the same body under the same
/// headers, the signature among them.
pub proof fn web_order_signing_is_deterministic(
    a: MexcFutures,
    b: MexcFutures,
    body: Seq<char>,
    timestamp: u128,
    first: Result<SignedRequest, MexcError>,
    second: Result<SignedRequest, MexcError>,
)
    requires
        same_credentials(a, b),
        submit_order_result(a, body, timestamp, first),
        submit_order_result(b, body, timestamp, second),
    ensures
        match (first, second) {
            (Ok(x), Ok(y)) => {
                &&& header_views(x.headers@) == header_views(y.headers@)
                &&& text_of(x.body) == text_of(y.body)
                &&& x.url@ == y.url@
                &&& x.method == y.method
            },
            (Err(e), Err(f)) => e == f,
            _ => false,
        },
{
}

/// The login statement is deterministic: two clients that hold the same
/// credentials get the same statement for the same timestamp, or fail
/// alike.
pub proof fn login_statement_is_deterministic(
    a: MexcFutures,
    b: MexcFutures,
    timestamp: u128,
    first: Result<String, MexcError>,
    second: Result<String, MexcError>,
)
    requires
        same_credentials(a, b),
        login_result(a, timestamp, first),
        login_result(b, timestamp, second),
    ensures
        same_text(first, second),
{
}

} // verus!
