use crypto_botters::exchanges::bitflyer::{
    BitFlyerChannelMessage, BitFlyerHandlerError, BitFlyerHttpUrl, BitFlyerOption, BitFlyerOptions,
    BitFlyerRequestHandler, BitFlyerRouting, BitFlyerWebSocketHandler, BitFlyerWebSocketUrl,
    JsonRpcMessage,
};
use crypto_botters::request::{BodyEncoding, EncodedBody, Header, RequestParts};
use crypto_botters::signing::sign;
use crypto_botters::traits::{HandlerOptions, HttpOption, WebSocketOption};
use crypto_botters::websocket::WebSocketMessage;
use std::time::Duration;

fn handler(options: BitFlyerOptions) -> BitFlyerRequestHandler<'static, u32> {
    <BitFlyerOption as HttpOption<'static, u32>>::request_handler(options)
}

fn socket(options: BitFlyerOptions) -> BitFlyerWebSocketHandler<()> {
    <BitFlyerOption as WebSocketOption<()>>::websocket_handler((), options)
}

fn authenticated() -> BitFlyerOptions {
    let mut options = BitFlyerOptions::default();
    options.update(BitFlyerOption::Key("key".to_owned()));
    options.update(BitFlyerOption::Secret("secret".to_owned()));
    options.update(BitFlyerOption::HttpAuth(true));
    options.update(BitFlyerOption::WebSocketAuth(true));
    options.update(BitFlyerOption::WebSocketChannels(vec![
        "lightning_ticker_BTC_JPY".to_owned(),
        "child_order_events".to_owned(),
    ]));
    options
}

fn request(method: &str, query: Option<&str>) -> RequestParts {
    RequestParts {
        method: method.to_owned(),
        origin: "https://api.bitflyer.com".to_owned(),
        path: "/v1/me/sendchildorder".to_owned(),
        query: query.map(str::to_owned),
        headers: vec![],
        body: None,
    }
}

fn header(name: &str, value: &str) -> Header {
    Header { name: name.to_owned(), value: value.to_owned() }
}

fn text(s: &str) -> WebSocketMessage {
    WebSocketMessage::Text(s.to_owned())
}

fn subscriptions() -> Vec<WebSocketMessage> {
    vec![
        text("{\"method\":\"subscribe\",\"params\":{\"channel\":\"lightning_ticker_BTC_JPY\"}}"),
        text("{\"method\":\"subscribe\",\"params\":{\"channel\":\"child_order_events\"}}"),
    ]
}

#[test]
fn bitflyer_urls_and_defaults() {
    assert_eq!(BitFlyerHttpUrl::Default.as_str(), "https://api.bitflyer.com");
    assert_eq!(BitFlyerHttpUrl::Unset.as_str(), "");
    assert_eq!(BitFlyerWebSocketUrl::Default.as_str(), "wss://ws.lightstream.bitflyer.com");
    assert_eq!(BitFlyerWebSocketUrl::Unset.as_str(), "");
    let options = BitFlyerOptions::default();
    assert_eq!(options.key, None);
    assert_eq!(options.secret, None);
    assert_eq!(options.http_url, BitFlyerHttpUrl::Default);
    assert!(!options.http_auth);
    assert_eq!(options.websocket_url, BitFlyerWebSocketUrl::Default);
    assert!(!options.websocket_auth);
    assert!(options.websocket_channels.is_empty());
    assert!(options.websocket_config.ignore_duplicate_during_reconnection);
    assert!(matches!(BitFlyerOption::default(), BitFlyerOption::Default));
}

#[test]
fn bitflyer_configs_take_the_base_urls() {
    let mut options = authenticated();
    assert_eq!(handler(options.clone()).request_config().url_prefix, "https://api.bitflyer.com");
    assert_eq!(
        socket(options.clone()).websocket_config().url_prefix,
        "wss://ws.lightstream.bitflyer.com"
    );
    options.update(BitFlyerOption::HttpUrl(BitFlyerHttpUrl::Unset));
    options.update(BitFlyerOption::WebSocketUrl(BitFlyerWebSocketUrl::Unset));
    options.request_config.url_prefix = "http://a".to_owned();
    options.websocket_config.url_prefix = "ws://b".to_owned();
    assert_eq!(handler(options.clone()).request_config().url_prefix, "http://a");
    assert_eq!(socket(options).websocket_config().url_prefix, "ws://b");
}

#[test]
fn bitflyer_authenticated_request() {
    let handler = handler(authenticated());
    assert_eq!(handler.body_encoding(), BodyEncoding::Json);
    let body = "{\"product_code\":\"BTC_JPY\",\"size\":0.1}";
    let built = handler
        .build_request_at(Some(request("POST", None)), EncodedBody::Text(body.to_owned()), 1700000000123)
        .unwrap();
    let signature = sign("secret", &format!("1700000000123POST/v1/me/sendchildorder{}", body));
    assert_eq!(
        built.headers,
        vec![
            header("access-key", "key"),
            header("access-timestamp", "1700000000123"),
            header("access-sign", &signature),
            header("content-type", "application/json"),
        ]
    );
    assert_eq!(built.body.as_deref(), Some(body));
    // a query is signed behind the path
    let built = handler
        .build_request_at(Some(request("GET", Some("count=5&before=9"))), EncodedBody::Absent, 8)
        .unwrap();
    let signature = sign("secret", "8GET/v1/me/sendchildorder?count=5&before=9");
    assert_eq!(built.headers[2], header("access-sign", &signature));
    assert_eq!(built.headers[1], header("access-timestamp", "8"));
    assert_eq!(built.body, None);
}

#[test]
fn bitflyer_unauthenticated_request() {
    let handler = handler(BitFlyerOptions::default());
    assert_eq!(
        handler.build_request_at(Some(request("GET", None)), EncodedBody::Absent, 1),
        Ok(request("GET", None))
    );
    let built = handler
        .build_request_at(Some(request("POST", None)), EncodedBody::Text("{}".to_owned()), 1)
        .unwrap();
    assert_eq!(built.headers, vec![header("content-type", "application/json")]);
    assert_eq!(built.body.as_deref(), Some("{}"));
}

#[test]
fn bitflyer_build_errors() {
    let mut options = authenticated();
    let bare = || Some(request("GET", None));
    assert_eq!(
        handler(options.clone()).build_request_at(None, EncodedBody::Failed, 1),
        Err("could not serialize body as application/json")
    );
    assert_eq!(
        handler(options.clone()).build_request_at(None, EncodedBody::Absent, 1),
        Err("failed to build request")
    );
    options.key = Some("bad\u{7f}key".to_owned());
    assert_eq!(
        handler(options.clone()).build_request_at(bare(), EncodedBody::Absent, 1),
        Err("invalid character in API key")
    );
    options.key = None;
    assert_eq!(
        handler(options.clone()).build_request_at(bare(), EncodedBody::Absent, 1),
        Err("API key not set")
    );
    options.secret = None;
    assert_eq!(
        handler(options).build_request_at(bare(), EncodedBody::Absent, 1),
        Err("API secret not set")
    );
}

#[test]
fn bitflyer_build_request_reads_the_clock() {
    let built =
        handler(authenticated()).build_request(Some(request("GET", None)), EncodedBody::Absent).unwrap();
    let timestamp = &built.headers[1];
    assert_eq!(timestamp.name, "access-timestamp");
    assert!(timestamp.value.parse::<u64>().unwrap() > 1_577_836_800_000);
    let signature = sign("secret", &format!("{}GET/v1/me/sendchildorder", timestamp.value));
    assert_eq!(built.headers[2], header("access-sign", &signature));
}

#[test]
fn bitflyer_responses() {
    let handler = handler(BitFlyerOptions::default());
    assert_eq!(handler.handle_response(200, Some(3), b"3").unwrap(), 3);
    assert!(matches!(handler.handle_response(200, None, b"x"), Err(BitFlyerHandlerError::ParseError)));
    match handler.handle_response(400, Some(3), b"{\"status\":-100}") {
        Err(BitFlyerHandlerError::ApiError(document)) => {
            assert_eq!(document.to_string(), "{\"status\":-100}")
        }
        _ => panic!("an error of the exchange was not reported as one"),
    }
    assert!(matches!(
        handler.handle_response(500, Some(3), b"oops"),
        Err(BitFlyerHandlerError::ParseError)
    ));
}

#[test]
fn bitflyer_subscribes_on_start_without_authentication() {
    let mut options = authenticated();
    options.websocket_auth = false;
    let mut handler = socket(options);
    assert_eq!(handler.handle_start_with(Duration::from_millis(5), "n".to_owned()), subscriptions());
    assert_eq!(handler.handle_start(), subscriptions());
    assert_eq!(handler.message_subscribe(), subscriptions());
    // without key or secret there is nothing to authenticate with
    let mut options = authenticated();
    options.secret = None;
    assert_eq!(socket(options).handle_start(), subscriptions());
    let mut options = authenticated();
    options.key = None;
    assert_eq!(socket(options).handle_start(), subscriptions());
    assert_eq!(socket(BitFlyerOptions::default()).handle_start(), vec![]);
}

#[test]
fn bitflyer_authenticates_on_start() {
    let mut handler = socket(authenticated());
    let time = Duration::new(1_700_000_000, 123_456_789);
    let messages = handler.handle_start_with(time, "0123456789abcdef".to_owned());
    let signature = sign("secret", "17000000001230123456789abcdef");
    assert_eq!(
        messages,
        vec![text(&format!(
            "{{\"id\":\"_auth1700000000123456789\",\"method\":\"auth\",\"params\":{{\
             \"api_key\":\"key\",\"nonce\":\"0123456789abcdef\",\"signature\":\"{}\",\
             \"timestamp\":1700000000123}}}}",
            signature
        ))]
    );
    // the answer with that identifier is followed by the subscriptions
    let answer = JsonRpcMessage {
        method: None,
        result: Some(serde_json::Value::from(true)),
        params: None,
        id: Some("_auth1700000000123456789".to_owned()),
    };
    match handler.route(&text("{}"), Some(answer)) {
        BitFlyerRouting::Reply(messages) => assert_eq!(messages, subscriptions()),
        _ => panic!("a successful authentication was not followed by the subscriptions"),
    }
}

#[test]
fn bitflyer_start_draws_a_nonce_of_sixteen_letters_and_digits() {
    let mut handler = socket(authenticated());
    let messages = handler.handle_start();
    assert_eq!(messages.len(), 1);
    let WebSocketMessage::Text(message) = &messages[0] else {
        panic!("the authentication is no text");
    };
    let document: serde_json::Value = serde_json::from_str(message).unwrap();
    let nonce = document["params"]["nonce"].as_str().unwrap();
    assert_eq!(nonce.chars().count(), 16);
    assert!(nonce.chars().all(|c| c.is_ascii_alphanumeric()));
    let timestamp = document["params"]["timestamp"].as_u64().unwrap();
    assert!(timestamp > 1_577_836_800_000);
    assert_eq!(
        document["params"]["signature"].as_str().unwrap(),
        sign("secret", &format!("{}{}", timestamp, nonce))
    );
    assert!(document["id"].as_str().unwrap().starts_with("_auth"));
}

fn rpc(method: Option<&str>, result: Option<&str>, channel: Option<&str>, id: Option<&str>) -> JsonRpcMessage {
    JsonRpcMessage {
        method: method.map(str::to_owned),
        result: result.map(|text| serde_json::from_str(text).unwrap()),
        params: channel.map(|channel| BitFlyerChannelMessage {
            channel: channel.to_owned(),
            message: serde_json::Value::from(1),
        }),
        id: id.map(str::to_owned),
    }
}

fn awaiting() -> BitFlyerWebSocketHandler<()> {
    let mut handler = socket(authenticated());
    handler.handle_start_with(Duration::from_nanos(77), "n".to_owned());
    handler
}

#[test]
fn bitflyer_failed_authentication_ends_the_waiting() {
    for result in [Some("false"), Some("1"), Some("\"true\""), None] {
        let mut handler = awaiting();
        let answer = rpc(None, result, None, Some("_auth77"));
        assert!(matches!(handler.route(&text("{}"), Some(answer)), BitFlyerRouting::Nothing));
        // the same identifier is awaited no more: a channel message with it is passed on
        let late = rpc(Some("channelMessage"), Some("true"), Some("c"), Some("_auth77"));
        assert!(matches!(handler.route(&text("{}"), Some(late)), BitFlyerRouting::Forward(_)));
    }
}

#[test]
fn bitflyer_successful_authentication_keeps_waiting() {
    let mut handler = awaiting();
    for _ in 0..2 {
        let answer = rpc(None, Some("true"), None, Some("_auth77"));
        assert!(matches!(handler.route(&text("{}"), Some(answer)), BitFlyerRouting::Reply(_)));
    }
}

#[test]
fn bitflyer_channel_messages_go_to_the_receiver() {
    let mut handler = awaiting();
    let message = rpc(Some("channelMessage"), None, Some("lightning_ticker_BTC_JPY"), None);
    match handler.route(&text("{}"), Some(message)) {
        BitFlyerRouting::Forward(message) => {
            assert_eq!(message.channel, "lightning_ticker_BTC_JPY");
            assert_eq!(message.message, serde_json::Value::from(1));
        }
        _ => panic!("a channel message was not passed on"),
    }
    let without_params = rpc(Some("channelMessage"), None, None, None);
    assert!(matches!(handler.route(&text("{}"), Some(without_params)), BitFlyerRouting::Nothing));
    let other_method = rpc(Some("other"), None, Some("c"), None);
    assert!(matches!(handler.route(&text("{}"), Some(other_method)), BitFlyerRouting::Nothing));
    let no_method = rpc(None, None, Some("c"), None);
    assert!(matches!(handler.route(&text("{}"), Some(no_method)), BitFlyerRouting::Nothing));
    assert!(matches!(handler.route(&text("not json"), None), BitFlyerRouting::Nothing));
    let binary = WebSocketMessage::Binary(vec![1]);
    let message = rpc(Some("channelMessage"), None, Some("c"), None);
    assert!(matches!(handler.route(&binary, Some(message)), BitFlyerRouting::Nothing));
}

#[test]
fn bitflyer_message_without_identifier_answers_when_none_is_awaited() {
    // with authentication on and no identifier awaited, a message without one counts as the answer
    let mut options = authenticated();
    options.key = None;
    let mut handler = socket(options);
    let message = rpc(Some("channelMessage"), Some("true"), Some("c"), None);
    assert!(matches!(handler.route(&text("{}"), Some(message)), BitFlyerRouting::Reply(_)));
    let message = rpc(Some("channelMessage"), None, Some("c"), None);
    assert!(matches!(handler.route(&text("{}"), Some(message)), BitFlyerRouting::Nothing));
    // with authentication off it is a channel message like any other
    let mut options = authenticated();
    options.websocket_auth = false;
    let mut handler = socket(options);
    let message = rpc(Some("channelMessage"), Some("true"), Some("c"), None);
    assert!(matches!(handler.route(&text("{}"), Some(message)), BitFlyerRouting::Forward(_)));
}
