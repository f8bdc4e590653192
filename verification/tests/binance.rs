use crypto_botters::exchanges::binance::{
    BinanceAuth, BinanceError, BinanceHandlerError, BinanceHttpUrl, BinanceOption, BinanceOptions,
    BinanceRequestHandler, BinanceWebSocketUrl,
};
use crypto_botters::http::RequestConfig;
use crypto_botters::request::{BodyEncoding, EncodedBody, Header, RequestParts};
use crypto_botters::traits::{merged_options, HandlerOptions, HttpOption, WebSocketOption};
use crypto_botters::websocket::{WebSocketConfig, WebSocketMessage};
use std::time::Duration;

const SECRET: &str = "NhqPtmdSJYdKjVHjA7PZj4Mge3R5YNiP1e3UZjInClVN65XAbvqqM6A7H5fATj0j";
const KEY: &str = "vmPUZE6mv9SD5VNHk4HlWFsOr6aKE2zvsw0MuIgwCIPy6utIco14y7Ju91duEh8A";

fn handler(options: BinanceOptions) -> BinanceRequestHandler<'static, serde_json::Value> {
    <BinanceOption as HttpOption<'static, serde_json::Value>>::request_handler(options)
}

fn signing(auth: BinanceAuth) -> BinanceOptions {
    let mut options = BinanceOptions::default();
    options.key = Some(KEY.to_owned());
    options.secret = Some(SECRET.to_owned());
    options.http_auth = auth;
    options
}

fn post(query: Option<&str>) -> RequestParts {
    RequestParts {
        method: "POST".to_owned(),
        origin: "https://api.binance.com".to_owned(),
        path: "/api/v3/order".to_owned(),
        query: query.map(str::to_owned),
        headers: vec![],
        body: None,
    }
}

fn header(name: &str, value: &str) -> Header {
    Header { name: name.to_owned(), value: value.to_owned() }
}

#[test]
fn binance_urls() {
    assert_eq!(BinanceHttpUrl::Spot.as_str(), "https://api.binance.com");
    assert_eq!(BinanceHttpUrl::Spot1.as_str(), "https://api1.binance.com");
    assert_eq!(BinanceHttpUrl::Spot2.as_str(), "https://api2.binance.com");
    assert_eq!(BinanceHttpUrl::Spot3.as_str(), "https://api3.binance.com");
    assert_eq!(BinanceHttpUrl::Spot4.as_str(), "https://api4.binance.com");
    assert_eq!(BinanceHttpUrl::SpotTest.as_str(), "https://testnet.binance.vision");
    assert_eq!(BinanceHttpUrl::SpotData.as_str(), "https://data.binance.com");
    assert_eq!(BinanceHttpUrl::FuturesUsdM.as_str(), "https://fapi.binance.com");
    assert_eq!(BinanceHttpUrl::FuturesCoinM.as_str(), "https://dapi.binance.com");
    assert_eq!(BinanceHttpUrl::FuturesTest.as_str(), "https://testnet.binancefuture.com");
    assert_eq!(BinanceHttpUrl::EuropeanOptions.as_str(), "https://eapi.binance.com");
    assert_eq!(BinanceHttpUrl::Unset.as_str(), "");
    assert_eq!(BinanceWebSocketUrl::Spot9443.as_str(), "wss://stream.binance.com:9443");
    assert_eq!(BinanceWebSocketUrl::Spot443.as_str(), "wss://stream.binance.com:443");
    assert_eq!(BinanceWebSocketUrl::SpotTest.as_str(), "wss://testnet.binance.vision");
    assert_eq!(BinanceWebSocketUrl::SpotData.as_str(), "wss://data-stream.binance.com");
    assert_eq!(BinanceWebSocketUrl::WebSocket443.as_str(), "wss://ws-api.binance.com:443");
    assert_eq!(BinanceWebSocketUrl::WebSocket9443.as_str(), "wss://ws-api.binance.com:9443");
    assert_eq!(BinanceWebSocketUrl::FuturesUsdM.as_str(), "wss://fstream.binance.com");
    assert_eq!(BinanceWebSocketUrl::FuturesUsdMAuth.as_str(), "wss://fstream-auth.binance.com");
    assert_eq!(BinanceWebSocketUrl::FuturesCoinM.as_str(), "wss://dstream.binance.com");
    assert_eq!(BinanceWebSocketUrl::FuturesUsdMTest.as_str(), "wss://stream.binancefuture.com");
    assert_eq!(BinanceWebSocketUrl::FuturesCoinMTest.as_str(), "wss://dstream.binancefuture.com");
    assert_eq!(BinanceWebSocketUrl::EuropeanOptions.as_str(), "wss://nbstream.binance.com");
    assert_eq!(BinanceWebSocketUrl::Unset.as_str(), "");
}

#[test]
fn binance_default_options() {
    let options = BinanceOptions::default();
    assert_eq!(options.key, None);
    assert_eq!(options.secret, None);
    assert_eq!(options.http_url, BinanceHttpUrl::Unset);
    assert_eq!(options.http_auth, BinanceAuth::NoAuth);
    assert_eq!(options.request_config.max_try, 1);
    assert_eq!(options.websocket_url, BinanceWebSocketUrl::Unset);
    assert_eq!(options.websocket_config.refresh_after, Duration::from_secs(60 * 60 * 12));
    assert!(options.websocket_config.ignore_duplicate_during_reconnection);
    assert_eq!(options.websocket_config.connect_cooldown, Duration::from_millis(3000));
    assert_eq!(options.websocket_config.reconnection_wait, Duration::from_millis(300));
    assert!(matches!(BinanceOption::default(), BinanceOption::Default));
}

#[test]
fn binance_options_update() {
    let mut options = BinanceOptions::default();
    options.update(BinanceOption::Default);
    assert_eq!(options.key, None);
    options.update(BinanceOption::Key("k".to_owned()));
    options.update(BinanceOption::Secret("s".to_owned()));
    options.update(BinanceOption::HttpUrl(BinanceHttpUrl::Spot2));
    options.update(BinanceOption::HttpAuth(BinanceAuth::Sign));
    let mut request_config = RequestConfig::new();
    request_config.max_try = 4;
    options.update(BinanceOption::RequestConfig(request_config));
    options.update(BinanceOption::WebSocketUrl(BinanceWebSocketUrl::Spot443));
    let mut websocket_config = WebSocketConfig::new();
    websocket_config.refresh_after = Duration::from_secs(9);
    options.update(BinanceOption::WebSocketConfig(websocket_config));
    assert_eq!(options.key.as_deref(), Some("k"));
    assert_eq!(options.secret.as_deref(), Some("s"));
    assert_eq!(options.http_url, BinanceHttpUrl::Spot2);
    assert_eq!(options.http_auth, BinanceAuth::Sign);
    assert_eq!(options.request_config.max_try, 4);
    assert_eq!(options.websocket_url, BinanceWebSocketUrl::Spot443);
    assert_eq!(options.websocket_config.refresh_after, Duration::from_secs(9));
    assert!(!options.websocket_config.ignore_duplicate_during_reconnection);
    let copy = options.clone();
    assert_eq!(copy.key.as_deref(), Some("k"));
    assert_eq!(copy.secret.as_deref(), Some("s"));
    assert_eq!(copy.http_url, BinanceHttpUrl::Spot2);
    assert_eq!(copy.request_config.max_try, 4);
    assert_eq!(copy.websocket_config.refresh_after, Duration::from_secs(9));
}

#[test]
fn merged_options_apply_in_order_and_leave_the_defaults() {
    let defaults = BinanceOptions::default();
    let merged = merged_options(
        &defaults,
        vec![
            BinanceOption::Key("first".to_owned()),
            BinanceOption::HttpAuth(BinanceAuth::Key),
            BinanceOption::Key("second".to_owned()),
            BinanceOption::Default,
        ],
    );
    assert_eq!(merged.key.as_deref(), Some("second"));
    assert_eq!(merged.http_auth, BinanceAuth::Key);
    assert_eq!(merged.secret, None);
    assert_eq!(defaults.key, None);
    assert_eq!(defaults.http_auth, BinanceAuth::NoAuth);
    let same = merged_options::<BinanceOption>(&merged, vec![]);
    assert_eq!(same.key.as_deref(), Some("second"));
}

#[test]
fn binance_request_config_takes_the_base_url() {
    let mut options = BinanceOptions::default();
    options.request_config.url_prefix = "https://proxy.example".to_owned();
    options.request_config.max_try = 3;
    assert_eq!(handler(options.clone()).request_config().url_prefix, "https://proxy.example");
    options.http_url = BinanceHttpUrl::FuturesUsdM;
    let config = handler(options).request_config();
    assert_eq!(config.url_prefix, "https://fapi.binance.com");
    assert_eq!(config.max_try, 3);
}

#[test]
fn binance_websocket_config_takes_the_base_url() {
    let mut options = BinanceOptions::default();
    options.websocket_config.url_prefix = "wss://proxy.example".to_owned();
    let made = <BinanceOption as WebSocketOption<u8>>::websocket_handler(7, options.clone());
    assert_eq!(made.websocket_config().url_prefix, "wss://proxy.example");
    assert_eq!(made.options().websocket_url, BinanceWebSocketUrl::Unset);
    options.websocket_url = BinanceWebSocketUrl::Spot9443;
    let mut made = <BinanceOption as WebSocketOption<u8>>::websocket_handler(7, options);
    let config = made.websocket_config();
    assert_eq!(config.url_prefix, "wss://stream.binance.com:9443");
    assert_eq!(config.refresh_after, Duration::from_secs(60 * 60 * 12));
    assert!(config.ignore_duplicate_during_reconnection);
    *made.receiver_mut() += 1;
    let (receiver, options) = made.into_parts();
    assert_eq!(receiver, 8);
    assert_eq!(options.websocket_url, BinanceWebSocketUrl::Spot9443);
}

#[test]
fn binance_unauthenticated_request() {
    let handler = handler(BinanceOptions::default());
    assert_eq!(handler.body_encoding(), BodyEncoding::UrlEncoded);
    let built = handler.build_request_at(Some(post(None)), EncodedBody::Absent, 5).unwrap();
    assert_eq!(built, post(None));
    let built = handler
        .build_request_at(Some(post(Some("a=1"))), EncodedBody::Text("symbol=LTCBTC".to_owned()), 5)
        .unwrap();
    let mut expected = post(Some("a=1"));
    expected.headers = vec![header("content-type", "application/x-www-form-urlencoded")];
    expected.body = Some("symbol=LTCBTC".to_owned());
    assert_eq!(built, expected);
}

#[test]
fn binance_key_only_request() {
    let handler = handler(signing(BinanceAuth::Key));
    let built = handler.build_request_at(Some(post(Some("a=1"))), EncodedBody::Absent, 5).unwrap();
    let mut expected = post(Some("a=1"));
    expected.headers = vec![header("x-mbx-apikey", KEY)];
    assert_eq!(built, expected);
}

#[test]
fn binance_signed_request_matches_the_documented_example() {
    let handler = handler(signing(BinanceAuth::Sign));
    let query =
        "symbol=LTCBTC&side=BUY&type=LIMIT&timeInForce=GTC&quantity=1&price=0.1&recvWindow=5000";
    let built =
        handler.build_request_at(Some(post(Some(query))), EncodedBody::Absent, 1499827319559).unwrap();
    assert_eq!(
        built.query.as_deref(),
        Some(
            "symbol=LTCBTC&side=BUY&type=LIMIT&timeInForce=GTC&quantity=1&price=0.1&recvWindow=5000\
             &timestamp=1499827319559\
             &signature=c8db56825ae71d6d79447849e617115f4a920fa2acdcab2b053c4b2838bd6b71"
        )
    );
    assert_eq!(built.headers, vec![header("x-mbx-apikey", KEY)]);
    assert_eq!(built.body, None);
}

#[test]
fn binance_signature_covers_query_and_body() {
    let handler = handler(signing(BinanceAuth::Sign));
    let built = handler
        .build_request_at(
            Some(post(Some("symbol=LTCBTC&side=BUY&type=LIMIT&timeInForce=GTC"))),
            EncodedBody::Text("quantity=1&price=0.1&recvWindow=5000".to_owned()),
            1499827319559,
        )
        .unwrap();
    let signature = crypto_botters::signing::sign(
        SECRET,
        "symbol=LTCBTC&side=BUY&type=LIMIT&timeInForce=GTC&timestamp=1499827319559\
         quantity=1&price=0.1&recvWindow=5000",
    );
    assert_eq!(
        built.query,
        Some(format!(
            "symbol=LTCBTC&side=BUY&type=LIMIT&timeInForce=GTC&timestamp=1499827319559&signature={}",
            signature
        ))
    );
    assert_eq!(
        built.headers,
        vec![header("content-type", "application/x-www-form-urlencoded"), header("x-mbx-apikey", KEY)]
    );
    assert_eq!(built.body.as_deref(), Some("quantity=1&price=0.1&recvWindow=5000"));
    // a request without a query gets one
    let built = handler.build_request_at(Some(post(None)), EncodedBody::Absent, 7).unwrap();
    assert_eq!(
        built.query,
        Some(format!("timestamp=7&signature={}", crypto_botters::signing::sign(SECRET, "timestamp=7")))
    );
}

#[test]
fn binance_build_errors() {
    let failed = || EncodedBody::Failed;
    assert_eq!(
        handler(signing(BinanceAuth::Sign)).build_request_at(None, failed(), 5),
        Err("could not serialize body as application/x-www-form-urlencoded")
    );
    assert_eq!(
        handler(BinanceOptions::default()).build_request_at(None, EncodedBody::Absent, 5),
        Err("failed to build request")
    );
    let mut options = signing(BinanceAuth::Sign);
    options.key = None;
    options.secret = None;
    assert_eq!(
        handler(options.clone()).build_request_at(Some(post(None)), EncodedBody::Absent, 5),
        Err("API key not set")
    );
    options.http_auth = BinanceAuth::Key;
    assert_eq!(
        handler(options.clone()).build_request_at(Some(post(None)), EncodedBody::Absent, 5),
        Err("API key not set")
    );
    options.key = Some("k".to_owned());
    assert!(handler(options.clone()).build_request_at(Some(post(None)), EncodedBody::Absent, 5).is_ok());
    assert_eq!(
        handler(options.clone()).build_request_at(None, EncodedBody::Absent, 5),
        Err("failed to build request")
    );
    options.http_auth = BinanceAuth::Sign;
    assert_eq!(
        handler(options.clone()).build_request_at(Some(post(None)), EncodedBody::Absent, 5),
        Err("API secret not set")
    );
    options.secret = Some("s".to_owned());
    assert_eq!(
        handler(options.clone()).build_request_at(None, EncodedBody::Absent, 5),
        Err("Failed to build request")
    );
    options.key = Some("bad\nkey".to_owned());
    assert_eq!(
        handler(options.clone()).build_request_at(Some(post(None)), EncodedBody::Absent, 5),
        Err("Failed to build request")
    );
    options.http_auth = BinanceAuth::Key;
    assert_eq!(
        handler(options).build_request_at(Some(post(None)), EncodedBody::Absent, 5),
        Err("failed to build request")
    );
}

#[test]
fn binance_build_request_reads_the_clock() {
    let handler = handler(signing(BinanceAuth::Sign));
    let built = handler.build_request(Some(post(None)), EncodedBody::Absent).unwrap();
    let query = built.query.unwrap();
    let (stamped, signature) = query.split_once("&signature=").unwrap();
    let timestamp: u128 = stamped.strip_prefix("timestamp=").unwrap().parse().unwrap();
    assert!(timestamp > 1_577_836_800_000);
    assert_eq!(signature, crypto_botters::signing::sign(SECRET, stamped));
}

fn error() -> Option<BinanceError> {
    Some(BinanceError { code: -1121, msg: "Invalid symbol.".to_owned() })
}

#[test]
fn binance_responses() {
    let handler = handler(BinanceOptions::default());
    let value = serde_json::Value::from(5);
    assert_eq!(handler.handle_response(200, None, Some(value.clone()), None).unwrap(), value);
    assert_eq!(handler.handle_response(201, Some("3"), Some(value.clone()), error()).unwrap(), value);
    assert!(matches!(
        handler.handle_response(200, None, None, error()),
        Err(BinanceHandlerError::ParseError)
    ));
    for status in [429, 418] {
        for (text, expected) in [
            (Some("30"), Some(30)),
            (Some("0"), Some(0)),
            (Some("4294967295"), Some(u32::MAX)),
            (Some("4294967296"), None),
            (Some("soon"), None),
            (Some("-1"), None),
            (Some(""), None),
            (None, None),
        ] {
            match handler.handle_response(status, text, Some(value.clone()), error()) {
                Err(BinanceHandlerError::RateLimitError { retry_after }) => {
                    assert_eq!(retry_after, expected)
                }
                _ => panic!("a rate limit was not reported as one"),
            }
        }
    }
    match handler.handle_response(400, Some("30"), Some(value.clone()), error()) {
        Err(BinanceHandlerError::ApiError(error)) => {
            assert_eq!(error.code, -1121);
            assert_eq!(error.msg, "Invalid symbol.");
        }
        _ => panic!("an error of the exchange was not reported as one"),
    }
    assert!(matches!(
        handler.handle_response(500, None, Some(value), None),
        Err(BinanceHandlerError::ParseError)
    ));
}

#[test]
fn binance_forwards_json_text_only() {
    let made = <BinanceOption as WebSocketOption<u8>>::websocket_handler(0, BinanceOptions::default());
    let document = made.forwarded(&WebSocketMessage::Text("{\"e\":\"trade\",\"p\":\"1.5\"}".to_owned()));
    assert_eq!(document.unwrap().to_string(), "{\"e\":\"trade\",\"p\":\"1.5\"}");
    assert_eq!(made.forwarded(&WebSocketMessage::Text("not json".to_owned())), None);
    assert_eq!(made.forwarded(&WebSocketMessage::Text("{} {}".to_owned())), None);
    assert_eq!(made.forwarded(&WebSocketMessage::Binary(b"{}".to_vec())), None);
    assert_eq!(made.forwarded(&WebSocketMessage::Ping(b"{}".to_vec())), None);
    assert_eq!(made.forwarded(&WebSocketMessage::Pong(vec![])), None);
}
