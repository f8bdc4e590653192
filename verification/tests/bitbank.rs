use crypto_botters::exchanges::bitbank::{
    BitbankHandlerError, BitbankHttpUrl, BitbankOption, BitbankOptions, BitbankRequestHandler,
};
use crypto_botters::http::RequestConfig;
use crypto_botters::request::{BodyEncoding, EncodedBody, Header, RequestParts};
use crypto_botters::traits::{HandlerOptions, HttpOption};

fn handler(options: BitbankOptions) -> BitbankRequestHandler<'static, u32> {
    <BitbankOption as HttpOption<'static, u32>>::request_handler(options)
}

fn get() -> RequestParts {
    RequestParts {
        method: "GET".to_owned(),
        origin: "https://public.bitbank.cc".to_owned(),
        path: "/btc_jpy/ticker".to_owned(),
        query: None,
        headers: vec![],
        body: None,
    }
}

#[test]
fn bitbank_urls_and_defaults() {
    assert_eq!(BitbankHttpUrl::Default.as_str(), "https://public.bitbank.cc");
    assert_eq!(BitbankHttpUrl::Unset.as_str(), "");
    let options = BitbankOptions::default();
    assert_eq!(options.http_url, BitbankHttpUrl::Default);
    assert_eq!(options.request_config.max_try, 1);
    assert!(matches!(BitbankOption::default(), BitbankOption::Default));
}

#[test]
fn bitbank_options_update_and_config() {
    let mut options = BitbankOptions::default();
    assert_eq!(handler(options.clone()).request_config().url_prefix, "https://public.bitbank.cc");
    options.update(BitbankOption::HttpUrl(BitbankHttpUrl::Unset));
    let mut config = RequestConfig::new();
    config.url_prefix = "http://localhost:8080".to_owned();
    config.max_try = 2;
    options.update(BitbankOption::RequestConfig(config));
    options.update(BitbankOption::Default);
    assert_eq!(options.http_url, BitbankHttpUrl::Unset);
    let handler = handler(options);
    assert_eq!(handler.options().request_config.max_try, 2);
    let config = handler.request_config();
    assert_eq!(config.url_prefix, "http://localhost:8080");
    assert_eq!(config.max_try, 2);
}

#[test]
fn bitbank_requests() {
    let handler = handler(BitbankOptions::default());
    assert_eq!(handler.body_encoding(), BodyEncoding::Json);
    assert_eq!(handler.build_request(Some(get()), EncodedBody::Absent), Ok(get()));
    let built = handler.build_request(Some(get()), EncodedBody::Text("{\"a\":1}".to_owned())).unwrap();
    assert_eq!(
        built.headers,
        vec![Header { name: "content-type".to_owned(), value: "application/json".to_owned() }]
    );
    assert_eq!(built.body.as_deref(), Some("{\"a\":1}"));
    assert_eq!(
        handler.build_request(Some(get()), EncodedBody::Failed),
        Err("could not serialize body as application/json")
    );
    assert_eq!(
        handler.build_request(None, EncodedBody::Failed),
        Err("could not serialize body as application/json")
    );
    assert_eq!(handler.build_request(None, EncodedBody::Absent), Err("failed to build request"));
}

fn code_of(body: &str) -> Option<u64> {
    match handler(BitbankOptions::default()).handle_response(400, Some(1), body.as_bytes()) {
        Err(BitbankHandlerError::ApiError { code }) => code,
        _ => panic!("an error of the exchange was not reported as one"),
    }
}

#[test]
fn bitbank_responses() {
    let handler = handler(BitbankOptions::default());
    assert_eq!(handler.handle_response(200, Some(7), b"7").unwrap(), 7);
    assert!(matches!(handler.handle_response(200, None, b"{}"), Err(BitbankHandlerError::ParseError)));
    assert!(matches!(
        handler.handle_response(404, Some(7), b"<html>"),
        Err(BitbankHandlerError::ParseError)
    ));
    assert_eq!(code_of("{\"success\":0,\"data\":{\"code\":10000}}"), Some(10000));
    assert_eq!(code_of("{\"success\":0,\"data\":{\"code\":\"10000\"}}"), None);
    assert_eq!(code_of("{\"success\":0,\"data\":{\"code\":-5}}"), None);
    assert_eq!(code_of("{\"success\":0,\"data\":{}}"), None);
    assert_eq!(code_of("{\"success\":0,\"data\":[1]}"), None);
    assert_eq!(code_of("{\"code\":10000}"), None);
    assert_eq!(code_of("[]"), None);
}
