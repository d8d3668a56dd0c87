use mexc::error::MexcError;
use mexc::orders::{
    append_signature, batch_orders_json, reply_body, Order, OrderSide, OrderStatus, OrderType,
    DEFAULT_RECV_WINDOW,
};
use mexc::request::HttpMethod;
use mexc::{Mexc, ServerTime};

const TS: u128 = 1717363075282;

fn client() -> Mexc {
    Mexc::new(Some("mx0key".to_string()), Some("secret123".to_string()))
}

fn two_orders() -> Vec<Order> {
    vec![
        Order {
            symbol: "PLSUSDT".to_string(),
            price: "0.00009512".to_string(),
            quantity: "599971.13".to_string(),
            side: OrderSide::SELL,
            order_type: OrderType::LIMIT,
        },
        Order {
            symbol: "BTCUSDT".to_string(),
            price: "65000".to_string(),
            quantity: "0.5".to_string(),
            side: OrderSide::BUY,
            order_type: OrderType::MARKET,
        },
    ]
}

#[test]
fn sign_request_appends_the_signature() {
    let signed = client().sign_request("timestamp=1717363075282".to_string()).unwrap();
    assert_eq!(
        signed,
        "timestamp=1717363075282&signature=eca22a7a6c20ae32e86a1ad2505d4a4a9b210ab590b4edeedd05c256ffaaa483"
    );
}

#[test]
fn sign_request_is_deterministic_and_sensitive() {
    let a = client().sign_request("a=1&b=2".to_string()).unwrap();
    let b = client().sign_request("a=1&b=2".to_string()).unwrap();
    let c = client().sign_request("b=2&a=1".to_string()).unwrap();
    let d = client().sign_request("a=1&b=3".to_string()).unwrap();
    assert_eq!(a, b);
    assert_ne!(a[a.len() - 64..], c[c.len() - 64..]);
    assert_ne!(a[a.len() - 64..], d[d.len() - 64..]);
    assert!(c.starts_with("b=2&a=1&signature="));
}

#[test]
fn sign_request_needs_the_secret() {
    let c = Mexc::new(Some("mx0key".to_string()), None);
    assert!(matches!(c.sign_request("a=1".to_string()), Err(MexcError::MissingSecretKey)));
}

#[test]
fn spot_order_request() {
    let r = client()
        .submit_order_at("PLSUSDT", OrderSide::SELL, OrderType::LIMIT, "0.00009512", "599971.13", None, TS)
        .unwrap();
    assert_eq!(r.method, HttpMethod::Post);
    assert_eq!(
        r.url,
        "https://api.mexc.com/api/v3/order?symbol=PLSUSDT&side=SELL&type=LIMIT&quantity=599971.13&price=0.00009512&recvWindow=5000&timestamp=1717363075282&signature=f67b0ddc689ee617e1c904fb5ebffc999a92a737bf1f72420b0c8948d4f20330"
    );
    assert_eq!(r.headers.len(), 1);
    assert_eq!(r.headers[0].name, "X-MEXC-APIKEY");
    assert_eq!(r.headers[0].value, "mx0key");
    assert_eq!(r.body, None);
}

#[test]
fn spot_requests_need_secret_then_key() {
    let none = Mexc::new(None, None);
    assert!(matches!(none.get_account_at(None, TS), Err(MexcError::MissingSecretKey)));
    let no_key = Mexc::new(None, Some("secret123".to_string()));
    assert!(matches!(no_key.get_account_at(None, TS), Err(MexcError::MissingApiKey)));
    assert!(matches!(no_key.cancel_order_at("PLSUSDT", "1", None, TS), Err(MexcError::MissingApiKey)));
    assert!(matches!(no_key.cancel_all_orders_at("PLSUSDT", None, TS), Err(MexcError::MissingApiKey)));
    assert!(matches!(no_key.batch_orders_at(&two_orders(), None, TS), Err(MexcError::MissingApiKey)));
    assert!(matches!(
        no_key.submit_order_at("PLSUSDT", OrderSide::BUY, OrderType::MARKET, "1", "1", None, TS),
        Err(MexcError::MissingApiKey)
    ));
}

#[test]
fn account_request() {
    let r = client().get_account_at(None, TS).unwrap();
    assert_eq!(r.method, HttpMethod::Get);
    assert_eq!(
        r.url,
        "https://api.mexc.com/api/v3/account?recvWindow=5000&timestamp=1717363075282&signature=4074db19a0d869a5657e6c377f83fe09f0248702ddb1e0e4a516743c8aa82741"
    );
    assert_eq!(r.headers.len(), 1);
    assert_eq!(r.headers[0].name, "X-MEXC-APIKEY");
    assert_eq!(r.headers[0].value, "mx0key");
    let r = client().get_account_at(Some(10000), TS).unwrap();
    assert_eq!(
        r.url,
        "https://api.mexc.com/api/v3/account?recvWindow=10000&timestamp=1717363075282&signature=c740714cec75e49dc351cbcc5d1645fef47c21cfb0d2f05ee87e1af4355adda7"
    );
}

#[test]
fn cancel_all_request() {
    let r = client().cancel_all_orders_at("PLSUSDT", None, TS).unwrap();
    assert_eq!(r.method, HttpMethod::Delete);
    assert_eq!(
        r.url,
        "https://api.mexc.com/api/v3/openOrders?symbol=PLSUSDT&recvWindow=5000&timestamp=1717363075282&signature=1234824846bbf60ac853ec5e42ea3830881c6e3aede556c85a1a2b962d58e742"
    );
}

#[test]
fn cancel_request_with_its_own_window() {
    let r = client().cancel_order_at("PLSUSDT", "C02__1", Some(6000), TS).unwrap();
    assert_eq!(r.method, HttpMethod::Delete);
    assert_eq!(
        r.url,
        "https://api.mexc.com/api/v3/order?symbol=PLSUSDT&orderId=C02__1&recvWindow=6000&timestamp=1717363075282&signature=dbdffea1d66028ba6408301a5abac8de44c6aed02a752a5f5f6884adce037aaa"
    );
}

#[test]
fn batch_json_lists_the_orders() {
    assert_eq!(
        batch_orders_json(&two_orders()),
        "[{\"symbol\":\"PLSUSDT\",\"price\":\"0.00009512\",\"quantity\":\"599971.13\",\"side\":\"SELL\",\"type\":\"LIMIT\"},{\"symbol\":\"BTCUSDT\",\"price\":\"65000\",\"quantity\":\"0.5\",\"side\":\"BUY\",\"type\":\"MARKET\"}]"
    );
    assert_eq!(batch_orders_json(&vec![]), "[]");
    let one = vec![two_orders().remove(0)];
    assert_eq!(
        batch_orders_json(&one),
        "[{\"symbol\":\"PLSUSDT\",\"price\":\"0.00009512\",\"quantity\":\"599971.13\",\"side\":\"SELL\",\"type\":\"LIMIT\"}]"
    );
}

#[test]
fn batch_request_is_form_encoded() {
    let r = client().batch_orders_at(&two_orders(), None, TS).unwrap();
    assert_eq!(r.method, HttpMethod::Post);
    assert_eq!(
        r.url,
        "https://api.mexc.com/api/v3/batchOrders?batchOrders=%5B%7B%22symbol%22%3A%22PLSUSDT%22%2C%22price%22%3A%220.00009512%22%2C%22quantity%22%3A%22599971.13%22%2C%22side%22%3A%22SELL%22%2C%22type%22%3A%22LIMIT%22%7D%2C%7B%22symbol%22%3A%22BTCUSDT%22%2C%22price%22%3A%2265000%22%2C%22quantity%22%3A%220.5%22%2C%22side%22%3A%22BUY%22%2C%22type%22%3A%22MARKET%22%7D%5D&recvWindow=5000&timestamp=1717363075282&signature=03a028362e49d0f41d11a46e90c33294dd27382f6940f24e00033ccb4b32daea"
    );
}

#[test]
fn empty_batch_is_refused() {
    assert!(matches!(client().batch_orders_at(&vec![], None, TS), Err(MexcError::NoOrders)));
    assert!(matches!(Mexc::new(None, None).batch_orders_at(&vec![], None, TS), Err(MexcError::NoOrders)));
}

#[test]
fn spot_names_and_defaults() {
    assert_eq!(DEFAULT_RECV_WINDOW, 5000);
    assert_eq!(mexc::PROD_API_URL, "https://api.mexc.com");
    assert_eq!(mexc::futures::FUTURES_API_URL, "https://contract.mexc.com");
    assert_eq!(OrderType::LIMIT.name(), "LIMIT");
    assert_eq!(OrderType::MARKET.name(), "MARKET");
    assert_eq!(OrderType::LIMIT_MAKER.name(), "LIMIT_MAKER");
    assert_eq!(OrderType::IMMEDIATE_OR_CANCEL.name(), "IMMEDIATE_OR_CANCEL");
    assert_eq!(OrderType::FILL_OR_KILL.name(), "FILL_OR_KILL");
    assert_eq!(OrderSide::BUY.name(), "BUY");
    assert_eq!(OrderSide::SELL.name(), "SELL");
    assert_ne!(OrderStatus::NEW, OrderStatus::FILLED);
    assert_eq!(ServerTime { timestamp: 5 }.timestamp, 5);
}

#[test]
fn public_spot_addresses() {
    let c = Mexc::new(None, None);
    assert_eq!(c.server_time_url(), "https://api.mexc.com/api/v3/time");
    assert_eq!(c.ping_url(), "https://api.mexc.com/api/v3/ping");
    assert_eq!(c.exchange_info_url(), "https://api.mexc.com/api/v3/exchangeInfo");
    assert_eq!(
        c.symbol_info_url("PLSUSDT"),
        "https://api.mexc.com/api/v3/exchangeInfo?symbol=PLSUSDT"
    );
    assert_eq!(
        c.spot_orderbook_url("PLSUSDT", Some(5)),
        "https://api.mexc.com/api/v3/depth?symbol=PLSUSDT&limit=5"
    );
    assert_eq!(
        c.spot_orderbook_url("PLSUSDT", None),
        "https://api.mexc.com/api/v3/depth?symbol=PLSUSDT"
    );
}

#[test]
fn signature_is_the_last_parameter() {
    assert_eq!(append_signature("a=1&b=2".to_string(), "ff00"), "a=1&b=2&signature=ff00");
    assert_eq!(append_signature(String::new(), ""), "&signature=");
}

#[test]
fn reply_of_any_other_status_is_a_refusal() {
    assert_eq!(reply_body(200, "{}".to_string()).unwrap(), "{}");
    for status in [199u16, 201, 400, 401, 429, 500] {
        match reply_body(status, "too many requests".to_string()) {
            Err(MexcError::Rejected { message }) => {
                assert_eq!(message.as_deref(), Some("too many requests"))
            }
            _ => panic!("a refusal was expected"),
        }
    }
}

fn timestamp_of(url: &str) -> u128 {
    let from = url.find("&timestamp=").or(url.find("?timestamp=")).unwrap() + "&timestamp=".len();
    let rest = &url[from..];
    let to = rest.find('&').unwrap();
    rest[..to].parse().unwrap()
}

#[test]
fn spot_requests_made_now_are_signed_for_the_time_they_carry() {
    let c = client();
    let r = c.get_account(None).unwrap();
    assert_eq!(r.url, c.get_account_at(None, timestamp_of(&r.url)).unwrap().url);
    let r = c
        .submit_order("PLSUSDT", OrderSide::SELL, OrderType::LIMIT, "0.00009512", "599971.13", None)
        .unwrap();
    let at = c
        .submit_order_at(
            "PLSUSDT",
            OrderSide::SELL,
            OrderType::LIMIT,
            "0.00009512",
            "599971.13",
            None,
            timestamp_of(&r.url),
        )
        .unwrap();
    assert_eq!(r.url, at.url);
    assert_eq!(r.method, at.method);
    let r = c.batch_orders(&two_orders(), Some(7000)).unwrap();
    assert_eq!(
        r.url,
        c.batch_orders_at(&two_orders(), Some(7000), timestamp_of(&r.url)).unwrap().url
    );
    let r = c.cancel_all_orders("PLSUSDT", None).unwrap();
    assert_eq!(r.url, c.cancel_all_orders_at("PLSUSDT", None, timestamp_of(&r.url)).unwrap().url);
    let r = c.cancel_order("PLSUSDT", "C02__1", None).unwrap();
    assert_eq!(
        r.url,
        c.cancel_order_at("PLSUSDT", "C02__1", None, timestamp_of(&r.url)).unwrap().url
    );
    assert!(timestamp_of(&r.url) > 1_600_000_000_000);
}

#[test]
fn spot_requests_made_now_need_the_same_credentials() {
    let none = Mexc::new(None, None);
    assert!(matches!(none.get_account(None), Err(MexcError::MissingSecretKey)));
    assert!(matches!(none.cancel_order("PLSUSDT", "1", None), Err(MexcError::MissingSecretKey)));
    assert!(matches!(none.cancel_all_orders("PLSUSDT", None), Err(MexcError::MissingSecretKey)));
    assert!(matches!(none.batch_orders(&vec![], None), Err(MexcError::NoOrders)));
    assert!(matches!(none.batch_orders(&two_orders(), None), Err(MexcError::MissingSecretKey)));
    assert!(matches!(
        none.submit_order("PLSUSDT", OrderSide::BUY, OrderType::MARKET, "1", "1", None),
        Err(MexcError::MissingSecretKey)
    ));
}
