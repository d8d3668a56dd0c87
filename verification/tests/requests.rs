use mexc::error::MexcError;
use mexc::futures::structures::{
    FuturesResponse, OpenType, OrderDirection, OrderInstruction, OrderReceipt, OrderType,
};
use mexc::futures::submission::OrderSubmission;
use mexc::futures::{
    login_statement_text, nonce_of_digest, order_body_json, sign_v1_payload_string,
    signed_header_list, web_order_header_list, MexcFutures,
};
use mexc::request::{Header, HttpMethod};

const TS: u128 = 1717363075282;

fn client() -> MexcFutures {
    MexcFutures::new(
        Some("mx0key".to_string()),
        Some("secret123".to_string()),
        Some("WEB0123456789abcdef".to_string()),
    )
}

fn pairs(headers: &Vec<Header>) -> Vec<(String, String)> {
    headers.iter().map(|h| (h.name.clone(), h.value.clone())).collect()
}

fn pair(name: &str, value: &str) -> (String, String) {
    (name.to_string(), value.to_string())
}

#[test]
fn signed_header_has_the_four_headers() {
    let headers = client().generate_signed_header_at(TS, None).unwrap();
    assert_eq!(
        pairs(&headers),
        vec![
            pair("ApiKey", "mx0key"),
            pair("Request-Time", "1717363075282"),
            pair("Signature", "e10b3db132e928c64605e938c8e384ae1aae5e61497014a111aaa88cdc46b862"),
            pair("Content-Type", "application/json"),
        ]
    );
}

#[test]
fn signed_header_signs_the_parameters() {
    let headers = client().generate_signed_header_at(TS, Some("symbol=BTC_USDT")).unwrap();
    assert_eq!(
        headers[2].value,
        "05d42dab201f40114ab8f45a7e133b2f314782f4eefdf13503a84df54aa80176"
    );
}

#[test]
fn signed_header_needs_key_and_secret() {
    let no_key = MexcFutures::new(None, Some("s".to_string()), None);
    assert!(matches!(no_key.generate_signed_header_at(TS, None), Err(MexcError::MissingApiKey)));
    let no_secret = MexcFutures::new(Some("k".to_string()), None, None);
    assert!(matches!(no_secret.generate_signed_header_at(TS, None), Err(MexcError::MissingSecretKey)));
}

#[test]
fn private_futures_requests() {
    let c = client();
    let r = c.get_futures_account_at(TS).unwrap();
    assert_eq!(r.method, HttpMethod::Get);
    assert_eq!(r.url, "https://contract.mexc.com/api/v1/private/account/assets");
    assert_eq!(r.body, None);
    assert_eq!(pairs(&r.headers), pairs(&c.generate_signed_header_at(TS, None).unwrap()));
    let r = c.get_account_asset_at("USDT", TS).unwrap();
    assert_eq!(r.url, "https://contract.mexc.com/api/v1/private/account/asset/USDT");
    let r = c.get_open_positions_at(TS).unwrap();
    assert_eq!(r.url, "https://contract.mexc.com/api/v1/private/position/open_positions");
    let r = c.query_order_at("575758889245571072", TS).unwrap();
    assert_eq!(r.url, "https://contract.mexc.com/api/v1/private/order/get/575758889245571072");
    assert_eq!(r.method, HttpMethod::Get);
}

#[test]
fn private_futures_requests_need_credentials() {
    let none = MexcFutures::new(None, None, None);
    assert!(matches!(none.get_futures_account_at(TS), Err(MexcError::MissingApiKey)));
    assert!(matches!(none.get_account_asset_at("USDT", TS), Err(MexcError::MissingApiKey)));
    assert!(matches!(none.get_open_positions_at(TS), Err(MexcError::MissingApiKey)));
    assert!(matches!(none.query_order_at("1", TS), Err(MexcError::MissingApiKey)));
    let no_secret = MexcFutures::new(Some("k".to_string()), None, None);
    assert!(matches!(no_secret.get_open_positions_at(TS), Err(MexcError::MissingSecretKey)));
}

#[test]
fn order_body_without_price() {
    let body = order_body_json(
        "ETH_USDT",
        10,
        None,
        4,
        OrderDirection::CloseShort,
        OpenType::Cross,
        OrderType::Market,
    );
    assert_eq!(
        body,
        "{\"leverage\":4,\"marketCeiling\":false,\"openType\":2,\"priceProtect\":\"0\",\"reduceOnly\":false,\"side\":2,\"symbol\":\"ETH_USDT\",\"type\":5,\"vol\":10}"
    );
}

#[test]
fn order_body_with_price() {
    let body = order_body_json(
        "ETH_USDT",
        10,
        Some("3650.13"),
        4,
        OrderDirection::OpenLong,
        OpenType::Cross,
        OrderType::Limit,
    );
    assert_eq!(
        body,
        "{\"leverage\":4,\"marketCeiling\":false,\"openType\":2,\"price\":\"3650.13\",\"priceProtect\":\"0\",\"reduceOnly\":false,\"side\":1,\"symbol\":\"ETH_USDT\",\"type\":1,\"vol\":10}"
    );
}

#[test]
fn order_body_is_what_a_json_object_renders_to() {
    let mut map = serde_json::Map::new();
    map.insert("symbol".to_string(), serde_json::Value::from("ETH\"_USDT"));
    map.insert("side".to_string(), serde_json::Value::from(3u64));
    map.insert("openType".to_string(), serde_json::Value::from(1u64));
    map.insert("type".to_string(), serde_json::Value::from(6u64));
    map.insert("vol".to_string(), serde_json::Value::from(u64::MAX));
    map.insert("leverage".to_string(), serde_json::Value::from(125u64));
    map.insert("marketCeiling".to_string(), serde_json::Value::from(false));
    map.insert("priceProtect".to_string(), serde_json::Value::from("0"));
    map.insert("reduceOnly".to_string(), serde_json::Value::from(false));
    map.insert("price".to_string(), serde_json::Value::from("0.5"));
    let expected = serde_json::Value::Object(map).to_string();
    let body = order_body_json(
        "ETH\"_USDT",
        u64::MAX,
        Some("0.5"),
        125,
        OrderDirection::OpenShort,
        OpenType::Isolated,
        OrderType::ConvertMarketToCurrentPrice,
    );
    assert_eq!(body, expected);
}

#[test]
fn order_request_is_signed_with_the_web_scheme() {
    let r = client()
        .submit_order_at(
            "ETH_USDT",
            10,
            None,
            4,
            OrderDirection::CloseShort,
            OpenType::Cross,
            OrderType::Market,
            TS,
        )
        .unwrap();
    assert_eq!(r.method, HttpMethod::Post);
    assert_eq!(r.url, "https://futures.mexc.com/api/v1/private/order/create");
    assert_eq!(
        r.body.as_deref(),
        Some("{\"leverage\":4,\"marketCeiling\":false,\"openType\":2,\"priceProtect\":\"0\",\"reduceOnly\":false,\"side\":2,\"symbol\":\"ETH_USDT\",\"type\":5,\"vol\":10}")
    );
    assert_eq!(
        pairs(&r.headers),
        vec![
            pair("x-mxc-nonce", "1717363075282"),
            pair("x-mxc-sign", "00be964b95fdffc03f8005f792441b8d"),
            pair("authorization", "WEB0123456789abcdef"),
            pair("user-agent", "MEXC/7 CFNetwork/1474 Darwin/23.0.0"),
            pair("content-type", "application/json"),
            pair("origin", "https://futures.mexc.com"),
            pair("referer", "https://futures.mexc.com/exchange"),
        ]
    );
}

#[test]
fn order_request_with_price_is_signed_over_the_price() {
    let r = client()
        .submit_order_at(
            "ETH_USDT",
            10,
            Some("3650.13"),
            4,
            OrderDirection::OpenLong,
            OpenType::Cross,
            OrderType::Limit,
            TS,
        )
        .unwrap();
    assert_eq!(r.headers[1].value, "dbe4e5240e683b327cb3ab4c8ebbccda");
}

#[test]
fn order_request_needs_the_session_token() {
    let c = MexcFutures::new(Some("k".to_string()), Some("s".to_string()), None);
    let r = c.submit_order_at(
        "ETH_USDT",
        10,
        None,
        4,
        OrderDirection::CloseShort,
        OpenType::Cross,
        OrderType::Market,
        TS,
    );
    assert!(matches!(r, Err(MexcError::MissingWebUserToken)));
}

#[test]
fn order_request_needs_no_api_key() {
    let c = MexcFutures::new(None, None, Some("WEB0123456789abcdef".to_string()));
    let r = c.submit_order_at(
        "ETH_USDT",
        10,
        None,
        4,
        OrderDirection::CloseShort,
        OpenType::Cross,
        OrderType::Market,
        TS,
    );
    assert_eq!(r.unwrap().headers[1].value, "00be964b95fdffc03f8005f792441b8d");
}

fn envelope(success: bool, data: Option<serde_json::Value>, message: Option<&str>) -> FuturesResponse {
    FuturesResponse { success, code: if success { 0 } else { 602 }, data, message: message.map(|m| m.to_string()) }
}

#[test]
fn envelope_of_a_success_gives_the_payload() {
    let data = serde_json::Value::from("575758889245571072");
    let r = envelope(true, Some(data.clone()), None).payload();
    assert_eq!(r.unwrap(), data);
}

#[test]
fn envelope_of_a_refusal_gives_the_message() {
    let r = envelope(false, Some(serde_json::Value::from(1u64)), Some("signature verification failed")).payload();
    match r {
        Err(MexcError::Rejected { message }) => {
            assert_eq!(message.as_deref(), Some("signature verification failed"))
        }
        _ => panic!("a refusal was expected"),
    }
    let r = envelope(false, None, None).payload();
    assert!(matches!(r, Err(MexcError::Rejected { message: None })));
}

#[test]
fn envelope_without_payload_is_an_error() {
    let r = envelope(true, None, Some("ok")).payload();
    assert!(matches!(r, Err(MexcError::MissingData)));
}

fn instruction(side: OrderDirection, vol: u64) -> OrderInstruction {
    OrderInstruction {
        symbol: "ETH_USDT".to_string(),
        side,
        vol,
        price: None,
        leverage: 4,
        open_type: OpenType::Cross,
        order_type: OrderType::Market,
    }
}

fn receipt(id: &str) -> OrderReceipt {
    OrderReceipt { order_id: id.to_string(), timestamp: TS }
}

#[test]
fn submission_places_orders_in_order() {
    let mut run = OrderSubmission::new(vec![
        instruction(OrderDirection::CloseShort, 50),
        instruction(OrderDirection::OpenLong, 50),
    ]);
    assert!(!run.is_finished());
    assert_eq!(run.next_order().unwrap().side, OrderDirection::CloseShort);
    run.record(Ok(receipt("a")));
    assert!(!run.is_finished());
    assert_eq!(run.next_order().unwrap().side, OrderDirection::OpenLong);
    run.record(Ok(receipt("b")));
    assert!(run.is_finished());
    assert!(run.next_order().is_none());
    let (receipts, failure) = run.into_outcome();
    assert_eq!(receipts.len(), 2);
    assert_eq!(receipts[0].order_id, "a");
    assert_eq!(receipts[1].order_id, "b");
    assert!(failure.is_none());
}

#[test]
fn submission_stops_at_the_first_failure() {
    let mut run = OrderSubmission::new(vec![
        instruction(OrderDirection::CloseShort, 50),
        instruction(OrderDirection::OpenLong, 50),
    ]);
    run.record(Ok(receipt("a")));
    run.record(Err(MexcError::Rejected { message: Some("no margin".to_string()) }));
    assert!(run.is_finished());
    assert!(run.next_order().is_none());
    run.record(Ok(receipt("late")));
    let (receipts, failure) = run.into_outcome();
    assert_eq!(receipts.len(), 1);
    assert_eq!(receipts[0].order_id, "a");
    assert!(matches!(failure, Some(MexcError::Rejected { message: Some(m) }) if m == "no margin"));
}

#[test]
fn submission_of_nothing_is_finished() {
    let mut run = OrderSubmission::new(vec![]);
    assert!(run.is_finished());
    assert!(run.next_order().is_none());
    run.record(Ok(receipt("x")));
    let (receipts, failure) = run.into_outcome();
    assert!(receipts.is_empty());
    assert!(failure.is_none());
}

#[test]
fn public_futures_addresses() {
    let c = MexcFutures::new(None, None, None);
    assert_eq!(c.ping_url(), "https://contract.mexc.com/api/v1/contract/ping");
    assert_eq!(
        c.fair_price_url("BTC_USDT"),
        "https://contract.mexc.com/api/v1/contract/index_price/BTC_USDT"
    );
    assert_eq!(
        c.contract_details_url("ETH_USDT"),
        "https://contract.mexc.com/api/v1/contract/detail?symbol=ETH_USDT"
    );
}

#[test]
fn header_scheme_payload_has_no_delimiter() {
    assert_eq!(sign_v1_payload_string("mx0key", TS, None), "mx0key1717363075282");
    assert_eq!(
        sign_v1_payload_string("mx0key", TS, Some("symbol=BTC_USDT")),
        "mx0key1717363075282symbol=BTC_USDT"
    );
    assert_eq!(sign_v1_payload_string("", 0, Some("")), "0");
}

#[test]
fn header_lists_carry_the_given_signature() {
    let headers = signed_header_list("k", 12, "abc");
    assert_eq!(
        pairs(&headers),
        vec![
            pair("ApiKey", "k"),
            pair("Request-Time", "12"),
            pair("Signature", "abc"),
            pair("Content-Type", "application/json"),
        ]
    );
    let headers = web_order_header_list("tok", "12", "abc");
    assert_eq!(headers.len(), 7);
    assert_eq!(headers[0].value, "12");
    assert_eq!(headers[1].value, "abc");
    assert_eq!(headers[2].value, "tok");
}

#[test]
fn nonce_drops_seven_digits() {
    assert_eq!(nonce_of_digest("341da57a53ad8252791985bf8db840f7"), "a53ad8252791985bf8db840f7");
    assert_eq!(nonce_of_digest("0123456"), "");
    assert_eq!(nonce_of_digest("01234567"), "7");
}

#[test]
fn login_text_around_a_signature() {
    assert_eq!(
        login_statement_text("k", 12, "abc"),
        "{\"method\":\"login\",\"param\":{\"apiKey\":\"k\",\"reqTime\":\"12\",\"signature\":\"abc\"}}"
    );
}

#[test]
fn instruction_request_is_the_order_request() {
    let order = OrderInstruction {
        symbol: "ETH_USDT".to_string(),
        side: OrderDirection::OpenLong,
        vol: 10,
        price: Some("3650.13".to_string()),
        leverage: 4,
        open_type: OpenType::Cross,
        order_type: OrderType::Limit,
    };
    let r = client().submit_instruction_at(&order, TS).unwrap();
    assert_eq!(r.headers[1].value, "dbe4e5240e683b327cb3ab4c8ebbccda");
    assert_eq!(
        r.body.as_deref(),
        Some("{\"leverage\":4,\"marketCeiling\":false,\"openType\":2,\"price\":\"3650.13\",\"priceProtect\":\"0\",\"reduceOnly\":false,\"side\":1,\"symbol\":\"ETH_USDT\",\"type\":1,\"vol\":10}")
    );
    let none = MexcFutures::new(None, None, None);
    assert!(matches!(none.submit_instruction_at(&order, TS), Err(MexcError::MissingWebUserToken)));
}

fn header_value(headers: &Vec<Header>, name: &str) -> String {
    headers.iter().find(|h| h.name == name).map(|h| h.value.clone()).unwrap()
}

#[test]
fn headers_made_now_are_signed_for_the_time_they_carry() {
    let c = client();
    let headers = c.generate_signed_header(Some("symbol=BTC_USDT")).unwrap();
    let t: u128 = header_value(&headers, "Request-Time").parse().unwrap();
    assert!(t > 1_600_000_000_000);
    assert_eq!(
        pairs(&headers),
        pairs(&c.generate_signed_header_at(t, Some("symbol=BTC_USDT")).unwrap())
    );
}

#[test]
fn private_requests_made_now_are_signed_for_the_time_they_carry() {
    let c = client();
    let r = c.get_futures_account().unwrap();
    let t: u128 = header_value(&r.headers, "Request-Time").parse().unwrap();
    let at = c.get_futures_account_at(t).unwrap();
    assert_eq!(r.url, at.url);
    assert_eq!(pairs(&r.headers), pairs(&at.headers));
    let r = c.get_account_asset("USDT").unwrap();
    let t: u128 = header_value(&r.headers, "Request-Time").parse().unwrap();
    let at = c.get_account_asset_at("USDT", t).unwrap();
    assert_eq!(r.url, at.url);
    assert_eq!(pairs(&r.headers), pairs(&at.headers));
    let r = c.get_open_positions().unwrap();
    let t: u128 = header_value(&r.headers, "Request-Time").parse().unwrap();
    let at = c.get_open_positions_at(t).unwrap();
    assert_eq!(r.url, at.url);
    assert_eq!(pairs(&r.headers), pairs(&at.headers));
    let r = c.query_order("575758889245571072").unwrap();
    let t: u128 = header_value(&r.headers, "Request-Time").parse().unwrap();
    let at = c.query_order_at("575758889245571072", t).unwrap();
    assert_eq!(r.url, at.url);
    assert_eq!(pairs(&r.headers), pairs(&at.headers));
}

#[test]
fn orders_made_now_are_signed_for_the_nonce_they_carry() {
    let c = client();
    let r = c
        .submit_order(
            "ETH_USDT",
            10,
            Some("3650.13"),
            4,
            OrderDirection::OpenLong,
            OpenType::Cross,
            OrderType::Limit,
        )
        .unwrap();
    let t: u128 = header_value(&r.headers, "x-mxc-nonce").parse().unwrap();
    let at = c
        .submit_order_at(
            "ETH_USDT",
            10,
            Some("3650.13"),
            4,
            OrderDirection::OpenLong,
            OpenType::Cross,
            OrderType::Limit,
            t,
        )
        .unwrap();
    assert_eq!(r.body, at.body);
    assert_eq!(pairs(&r.headers), pairs(&at.headers));
    let order = instruction(OrderDirection::CloseShort, 50);
    let r = c.submit_instruction(&order).unwrap();
    let t: u128 = header_value(&r.headers, "x-mxc-nonce").parse().unwrap();
    let at = c.submit_instruction_at(&order, t).unwrap();
    assert_eq!(r.body, at.body);
    assert_eq!(pairs(&r.headers), pairs(&at.headers));
}

#[test]
fn requests_made_now_need_the_same_credentials() {
    let none = MexcFutures::new(None, None, None);
    assert!(matches!(none.generate_signed_header(None), Err(MexcError::MissingApiKey)));
    assert!(matches!(none.get_futures_account(), Err(MexcError::MissingApiKey)));
    assert!(matches!(none.get_account_asset("USDT"), Err(MexcError::MissingApiKey)));
    assert!(matches!(none.get_open_positions(), Err(MexcError::MissingApiKey)));
    assert!(matches!(none.query_order("1"), Err(MexcError::MissingApiKey)));
    assert!(matches!(none.create_websocket_login_statement(), Err(MexcError::MissingApiKey)));
    let order = instruction(OrderDirection::CloseShort, 50);
    assert!(matches!(none.submit_instruction(&order), Err(MexcError::MissingWebUserToken)));
}

#[test]
fn login_made_now_is_signed_for_the_time_it_carries() {
    let c = client();
    let statement = c.create_websocket_login_statement().unwrap();
    let parsed: serde_json::Value = serde_json::from_str(&statement).unwrap();
    let t: u128 = parsed["param"]["reqTime"].as_str().unwrap().parse().unwrap();
    assert_eq!(statement, c.create_websocket_login_statement_at(t).unwrap());
}
