//! Communicating with the [Binance API](https://binance-docs.github.io/apidocs/spot/en/).

use crate::clock::unix_time;
use crate::http::{RequestConfig, RequestConfigView};
use crate::json::{document_of, document_of_message};
use crate::request::{
    bare_view, body_text, built_view, headers_appended, header_text, is_header_value, is_success, joined,
    query_with_pair, status_is_success, BodyEncoding, EncodedBody, EncodedBodyView, RequestParts,
    RequestView,
};
use crate::signing::{decimal, decimal_text, sign as sign_text, signature_text};
use crate::text::{clone_optional, optional_text, parse_u32, u32_from_text};
use crate::traits::{HandlerOption, HandlerOptions, HttpOption, WebSocketOption};
use crate::websocket::{WebSocketConfig, WebSocketConfigView, WebSocketMessage};
use std::marker::PhantomData;
use std::time::Duration;
use vstd::prelude::*;
use vstd::utf8::encode_utf8;

verus! {

/// Options that can be set when creating handlers
pub enum BinanceOption {
    /// [`Default`] variant, does nothing
    Default,
    /// API key
    Key(String),
    /// Api secret
    Secret(String),
    /// Base url for HTTP requests
    HttpUrl(BinanceHttpUrl),
    /// Authentication type for HTTP requests
    HttpAuth(BinanceAuth),
    /// [`RequestConfig`] used when sending requests.
    /// `url_prefix` will be overridden by [`HttpUrl`](Self::HttpUrl) unless `HttpUrl` is
    /// [`BinanceHttpUrl::Unset`].
    RequestConfig(RequestConfig),
    /// Base url for WebSocket connections
    WebSocketUrl(BinanceWebSocketUrl),
    /// [`WebSocketConfig`] used for creating connections.
    /// `url_prefix` will be overridden by [`WebSocketUrl`](Self::WebSocketUrl) unless
    /// `WebSocketUrl` is [`BinanceWebSocketUrl::Unset`].
    /// By default, `refresh_after` is set to 12 hours and
    /// `ignore_duplicate_during_reconnection` is set to `true`.
    WebSocketConfig(WebSocketConfig),
}

/// A `struct` that represents a set of [`BinanceOption`]s.
#[derive(Debug)]
pub struct BinanceOptions {
    /// see [`BinanceOption::Key`]
    pub key: Option<String>,
    /// see [`BinanceOption::Secret`]
    pub secret: Option<String>,
    /// see [`BinanceOption::HttpUrl`]
    pub http_url: BinanceHttpUrl,
    /// see [`BinanceOption::HttpAuth`]
    pub http_auth: BinanceAuth,
    /// see [`BinanceOption::RequestConfig`]
    pub request_config: RequestConfig,
    /// see [`BinanceOption::WebSocketUrl`]
    pub websocket_url: BinanceWebSocketUrl,
    /// see [`BinanceOption::WebSocketConfig`]
    pub websocket_config: WebSocketConfig,
}

/// The mathematical content of a [`BinanceOptions`].
pub ghost struct BinanceOptionsView {
    pub key: Option<Seq<char>>,
    pub secret: Option<Seq<char>>,
    pub http_url: BinanceHttpUrl,
    pub http_auth: BinanceAuth,
    pub request_config: RequestConfigView,
    pub websocket_url: BinanceWebSocketUrl,
    pub websocket_config: WebSocketConfigView,
}

/// A `enum` that represents the base url of the Binance REST API.
#[derive(Debug, Eq, PartialEq, Copy, Clone, Structural)]
#[non_exhaustive]
pub enum BinanceHttpUrl {
    /// `https://api.binance.com`
    Spot,
    /// `https://api1.binance.com`
    Spot1,
    /// `https://api2.binance.com`
    Spot2,
    /// `https://api3.binance.com`
    Spot3,
    /// `https://api4.binance.com`
    Spot4,
    /// `https://testnet.binance.vision`
    SpotTest,
    /// `https://data.binance.com`
    SpotData,
    /// `https://fapi.binance.com`
    FuturesUsdM,
    /// `https://dapi.binance.com`
    FuturesCoinM,
    /// `https://testnet.binancefuture.com`
    FuturesTest,
    /// `https://eapi.binance.com`
    EuropeanOptions,
    /// The url will not be modified by [`BinanceRequestHandler`]
    Unset,
}

/// A `enum` that represents the base url of the Binance WebSocket API
#[derive(Debug, Eq, PartialEq, Copy, Clone, Structural)]
#[non_exhaustive]
pub enum BinanceWebSocketUrl {
    /// `wss://stream.binance.com:9443`
    Spot9443,
    /// `wss://stream.binance.com:443`
    Spot443,
    /// `wss://testnet.binance.vision`
    SpotTest,
    /// `wss://data-stream.binance.com`
    SpotData,
    /// `wss://ws-api.binance.com:443`
    WebSocket443,
    /// `wss://ws-api.binance.com:9443`
    WebSocket9443,
    /// `wss://fstream.binance.com`
    FuturesUsdM,
    /// `wss://fstream-auth.binance.com`
    FuturesUsdMAuth,
    /// `wss://dstream.binance.com`
    FuturesCoinM,
    /// `wss://stream.binancefuture.com`
    FuturesUsdMTest,
    /// `wss://dstream.binancefuture.com`
    FuturesCoinMTest,
    /// `wss://nbstream.binance.com`
    EuropeanOptions,
    /// The url will not be modified by [`BinanceWebSocketHandler`]
    Unset,
}

/// How a request is authenticated.
#[derive(Debug, Eq, PartialEq, Copy, Clone, Structural)]
pub enum BinanceAuth {
    /// The key goes along and the request is signed.
    Sign,
    /// The key goes along.
    Key,
    /// Nothing is added.
    NoAuth,
}

/// What a request handler returns for a response that was not a success.
#[derive(Debug)]
pub enum BinanceHandlerError {
    /// The exchange answered with an error of its own.
    ApiError(BinanceError),
    /// The exchange answered that too many requests were made.
    RateLimitError { retry_after: Option<u32> },
    /// The response could not be read.
    ParseError,
}

/// An error as the exchange reports it.
#[derive(Debug)]
pub struct BinanceError {
    pub code: i32,
    pub msg: String,
}

/// A `struct` that builds and reads HTTP requests for Binance.
pub struct BinanceRequestHandler<'a, R> {
    options: BinanceOptions,
    _phantom: PhantomData<&'a R>,
}

/// A `struct` that handles the WebSocket events of Binance.
pub struct BinanceWebSocketHandler<H> {
    message_handler: H,
    options: BinanceOptions,
}

impl View for BinanceOptions {
    type V = BinanceOptionsView;

    open spec fn view(&self) -> BinanceOptionsView {
        BinanceOptionsView {
            key: optional_text(self.key),
            secret: optional_text(self.secret),
            http_url: self.http_url,
            http_auth: self.http_auth,
            request_config: self.request_config@,
            websocket_url: self.websocket_url,
            websocket_config: self.websocket_config@,
        }
    }
}

impl BinanceHttpUrl {
    /// The URL that this variant represents, as a sequence of characters.
    pub open spec fn text(self) -> Seq<char> {
        match self {
            Self::Spot => "https://api.binance.com"@,
            Self::Spot1 => "https://api1.binance.com"@,
            Self::Spot2 => "https://api2.binance.com"@,
            Self::Spot3 => "https://api3.binance.com"@,
            Self::Spot4 => "https://api4.binance.com"@,
            Self::SpotTest => "https://testnet.binance.vision"@,
            Self::SpotData => "https://data.binance.com"@,
            Self::FuturesUsdM => "https://fapi.binance.com"@,
            Self::FuturesCoinM => "https://dapi.binance.com"@,
            Self::FuturesTest => "https://testnet.binancefuture.com"@,
            Self::EuropeanOptions => "https://eapi.binance.com"@,
            Self::Unset => ""@,
        }
    }

    /// The URL that this variant represents.
    #[inline(always)]
    pub fn as_str(&self) -> (url: &'static str)
        ensures
            url@ == self.text(),
    {
        match self {
            Self::Spot => "https://api.binance.com",
            Self::Spot1 => "https://api1.binance.com",
            Self::Spot2 => "https://api2.binance.com",
            Self::Spot3 => "https://api3.binance.com",
            Self::Spot4 => "https://api4.binance.com",
            Self::SpotTest => "https://testnet.binance.vision",
            Self::SpotData => "https://data.binance.com",
            Self::FuturesUsdM => "https://fapi.binance.com",
            Self::FuturesCoinM => "https://dapi.binance.com",
            Self::FuturesTest => "https://testnet.binancefuture.com",
            Self::EuropeanOptions => "https://eapi.binance.com",
            Self::Unset => "",
        }
    }
}

impl BinanceWebSocketUrl {
    /// The URL that this variant represents, as a sequence of characters.
    pub open spec fn text(self) -> Seq<char> {
        match self {
            Self::Spot9443 => "wss://stream.binance.com:9443"@,
            Self::Spot443 => "wss://stream.binance.com:443"@,
            Self::SpotTest => "wss://testnet.binance.vision"@,
            Self::SpotData => "wss://data-stream.binance.com"@,
            Self::WebSocket443 => "wss://ws-api.binance.com:443"@,
            Self::WebSocket9443 => "wss://ws-api.binance.com:9443"@,
            Self::FuturesUsdM => "wss://fstream.binance.com"@,
            Self::FuturesUsdMAuth => "wss://fstream-auth.binance.com"@,
            Self::FuturesCoinM => "wss://dstream.binance.com"@,
            Self::FuturesUsdMTest => "wss://stream.binancefuture.com"@,
            Self::FuturesCoinMTest => "wss://dstream.binancefuture.com"@,
            Self::EuropeanOptions => "wss://nbstream.binance.com"@,
            Self::Unset => ""@,
        }
    }

    /// The URL that this variant represents.
    #[inline(always)]
    pub fn as_str(&self) -> (url: &'static str)
        ensures
            url@ == self.text(),
    {
        match self {
            Self::Spot9443 => "wss://stream.binance.com:9443",
            Self::Spot443 => "wss://stream.binance.com:443",
            Self::SpotTest => "wss://testnet.binance.vision",
            Self::SpotData => "wss://data-stream.binance.com",
            Self::WebSocket443 => "wss://ws-api.binance.com:443",
            Self::WebSocket9443 => "wss://ws-api.binance.com:9443",
            Self::FuturesUsdM => "wss://fstream.binance.com",
            Self::FuturesUsdMAuth => "wss://fstream-auth.binance.com",
            Self::FuturesCoinM => "wss://dstream.binance.com",
            Self::FuturesUsdMTest => "wss://stream.binancefuture.com",
            Self::FuturesCoinMTest => "wss://dstream.binancefuture.com",
            Self::EuropeanOptions => "wss://nbstream.binance.com",
            Self::Unset => "",
        }
    }
}

/// The request configuration of a handler: the one from its options, with
/// the prefix replaced by the base url unless that is `Unset`.
pub open spec fn binance_request_config(options: BinanceOptionsView) -> RequestConfigView {
    if options.http_url != BinanceHttpUrl::Unset {
        RequestConfigView { url_prefix: options.http_url.text(), ..options.request_config }
    } else {
        options.request_config
    }
}

/// The WebSocket configuration of a handler: the one from its options, with
/// the prefix replaced by the base url unless that is `Unset`.
pub open spec fn binance_websocket_config(options: BinanceOptionsView) -> WebSocketConfigView {
    if options.websocket_url != BinanceWebSocketUrl::Unset {
        WebSocketConfigView { url_prefix: options.websocket_url.text(), ..options.websocket_config }
    } else {
        options.websocket_config
    }
}

/// The options of a client that was told nothing: no credentials, no base
/// urls, no authentication, and a WebSocket session that is refreshed every
/// twelve hours and withholds duplicates while it reconnects.
pub open spec fn default_binance_options() -> BinanceOptionsView {
    BinanceOptionsView {
        key: None,
        secret: None,
        http_url: BinanceHttpUrl::Unset,
        http_auth: BinanceAuth::NoAuth,
        request_config: crate::http::default_request_config(),
        websocket_url: BinanceWebSocketUrl::Unset,
        websocket_config: WebSocketConfigView {
            refresh_after: 43_200_000_000_000,
            ignore_duplicate_during_reconnection: true,
            ..crate::websocket::config::default_websocket_config()
        },
    }
}

impl<'a, R> BinanceRequestHandler<'a, R> {
    /// The options that the handler was made with.
    pub closed spec fn held(self) -> BinanceOptions {
        self.options
    }

    /// The options that the handler was made with.
    pub fn options(&self) -> (options: &BinanceOptions)
        ensures
            *options == self.held(),
    {
        &self.options
    }

    /// The configuration of the requests that this handler builds.
    pub fn request_config(&self) -> (config: RequestConfig)
        ensures
            config@ == binance_request_config(self.held()@),
    {
        let mut config = self.options.request_config.clone();
        if self.options.http_url != BinanceHttpUrl::Unset {
            config.url_prefix = self.options.http_url.as_str().to_owned();
        }
        config
    }
}

impl<H> BinanceWebSocketHandler<H> {
    /// The options that the handler was made with.
    pub closed spec fn held(self) -> BinanceOptions {
        self.options
    }

    /// What takes the messages that the handler passes on.
    pub closed spec fn receiver(self) -> H {
        self.message_handler
    }

    /// The options that the handler was made with.
    pub fn options(&self) -> (options: &BinanceOptions)
        ensures
            *options == self.held(),
    {
        &self.options
    }

    /// The handler's parts: what takes the messages, and the options.
    pub fn into_parts(self) -> (parts: (H, BinanceOptions))
        ensures
            parts.0 == self.receiver(),
            parts.1 == self.held(),
    {
        (self.message_handler, self.options)
    }

    /// The configuration of the sessions that this handler serves.
    pub fn websocket_config(&self) -> (config: WebSocketConfig)
        ensures
            config@ == binance_websocket_config(self.held()@),
    {
        let mut config = self.options.websocket_config.clone();
        if self.options.websocket_url != BinanceWebSocketUrl::Unset {
            config.url_prefix = self.options.websocket_url.as_str().to_owned();
        }
        config
    }
}

/// A request with its form-encoded body put in, if it has one.
pub open spec fn binance_with_body(request: RequestView, body: EncodedBodyView) -> RequestView {
    match body {
        EncodedBodyView::Text(encoded) => RequestView {
            headers: headers_appended(
                request.headers,
                "content-type"@,
                "application/x-www-form-urlencoded"@,
            ),
            body: Some(encoded),
            ..request
        },
        _ => request,
    }
}

/// A request with the API key added to its headers.
pub open spec fn binance_with_key(request: RequestView, key: Seq<char>) -> RequestView {
    RequestView { headers: headers_appended(request.headers, "x-mbx-apikey"@, key), ..request }
}

/// The query of a signed request: the query as it was, then the timestamp,
/// then the signature of all that stands before it followed by the body.
pub open spec fn binance_signed_query(request: RequestView, secret: Seq<char>, timestamp: u128) -> Seq<
    char,
> {
    let stamped = query_with_pair(request.query, "timestamp"@, decimal_text(timestamp as nat));
    query_with_pair(
        Some(stamped),
        "signature"@,
        signature_text(encode_utf8(secret), encode_utf8(stamped + body_text(request))),
    )
}

/// The request that goes out, or the reason why none does.
///
/// `bare` is the request as the builder made it, if it could make one;
/// `body` is the body in form encoding; `timestamp` is the time in
/// milliseconds since the Unix epoch. A key that cannot stand in a header
/// makes the request fail to build.
pub open spec fn binance_request(
    options: BinanceOptionsView,
    bare: Option<RequestView>,
    body: EncodedBodyView,
    timestamp: u128,
) -> Result<RequestView, Seq<char>> {
    if body is Failed {
        Err("could not serialize body as application/x-www-form-urlencoded"@)
    } else if options.http_auth == BinanceAuth::NoAuth {
        if bare is None {
            Err("failed to build request"@)
        } else {
            Ok(binance_with_body(bare.unwrap(), body))
        }
    } else if options.key is None {
        Err("API key not set"@)
    } else if options.http_auth == BinanceAuth::Sign {
        if options.secret is None {
            Err("API secret not set"@)
        } else if bare is None || !header_text(options.key.unwrap()) {
            Err("Failed to build request"@)
        } else {
            let request = binance_with_key(binance_with_body(bare.unwrap(), body), options.key.unwrap());
            Ok(
                RequestView {
                    query: Some(binance_signed_query(request, options.secret.unwrap(), timestamp)),
                    ..request
                },
            )
        }
    } else {
        if bare is None || !header_text(options.key.unwrap()) {
            Err("failed to build request"@)
        } else {
            Ok(binance_with_key(binance_with_body(bare.unwrap(), body), options.key.unwrap()))
        }
    }
}

/// Whether a status tells that too many requests were made: 429 warns, 418
/// bans.
pub open spec fn binance_rate_limited(status: u16) -> bool {
    status == 429 || status == 418
}

/// What a response amounts to.
///
/// `parsed` is the body read as the type that the caller expects; it is
/// looked at only when the status reports a success. `retry_after` is the
/// text of the header of that name, if the response has one that is plain
/// text; it is looked at only when the status tells that too many requests
/// were made. `error` is the body read as an error of the exchange; it is
/// looked at for any other status.
pub open spec fn binance_response<R>(
    status: u16,
    retry_after: Option<Seq<char>>,
    parsed: Option<R>,
    error: Option<BinanceError>,
) -> Result<R, BinanceHandlerError> {
    if status_is_success(status) {
        match parsed {
            Some(value) => Ok(value),
            None => Err(BinanceHandlerError::ParseError),
        }
    } else if binance_rate_limited(status) {
        Err(
            BinanceHandlerError::RateLimitError {
                retry_after: match retry_after {
                    Some(text) => u32_from_text(text),
                    None => None,
                },
            },
        )
    } else {
        match error {
            Some(error) => Err(BinanceHandlerError::ApiError(error)),
            None => Err(BinanceHandlerError::ParseError),
        }
    }
}

impl<'a, R> BinanceRequestHandler<'a, R> {
    /// The encoding in which this handler wants the body of a request.
    pub fn body_encoding(&self) -> (encoding: BodyEncoding)
        ensures
            encoding == BodyEncoding::UrlEncoded,
    {
        BodyEncoding::UrlEncoded
    }

    /// Finishes a request: puts the body in and, if the options ask for
    /// it, adds the key and signs the request as of now.
    pub fn build_request(&self, bare: Option<RequestParts>, body: EncodedBody) -> (built: Result<
        RequestParts,
        &'static str,
    >)
        ensures
            exists|timestamp: u128|
                built_view(built) == binance_request(self.held()@, bare_view(bare), body@, timestamp),
    {
        let time = unix_time();
        let timestamp = time.as_millis();
        let built = self.build_request_at(bare, body, timestamp);
        assert(built_view(built) == binance_request(self.held()@, bare_view(bare), body@, timestamp));
        built
    }

    /// Finishes a request as of `timestamp`, in milliseconds since the Unix
    /// epoch.
    pub fn build_request_at(&self, bare: Option<RequestParts>, body: EncodedBody, timestamp: u128) -> (built:
        Result<RequestParts, &'static str>)
        ensures
            built_view(built) == binance_request(self.held()@, bare_view(bare), body@, timestamp),
    {
        let encoded = match body {
            EncodedBody::Failed => {
                return Err("could not serialize body as application/x-www-form-urlencoded");
            },
            EncodedBody::Absent => None,
            EncodedBody::Text(encoded) => Some(encoded),
        };
        let sign = match self.options.http_auth {
            BinanceAuth::NoAuth => {
                return match bare {
                    None => Err("failed to build request"),
                    Some(request) => Ok(Self::with_body(request, encoded)),
                };
            },
            BinanceAuth::Sign => true,
            BinanceAuth::Key => false,
        };
        let key = match &self.options.key {
            None => {
                return Err("API key not set");
            },
            Some(key) => key,
        };
        if !sign {
            return match bare {
                None => Err("failed to build request"),
                Some(request) => {
                    if !is_header_value(key.as_str()) {
                        Err("failed to build request")
                    } else {
                        let mut request = Self::with_body(request, encoded);
                        request.append_header("x-mbx-apikey", key.clone());
                        Ok(request)
                    }
                },
            };
        }
        let secret = match &self.options.secret {
            None => {
                return Err("API secret not set");
            },
            Some(secret) => secret,
        };
        let mut request = match bare {
            None => {
                return Err("Failed to build request");
            },
            Some(request) => request,
        };
        if !is_header_value(key.as_str()) {
            return Err("Failed to build request");
        }
        request = Self::with_body(request, encoded);
        request.append_header("x-mbx-apikey", key.clone());
        let stamped = request.query_with("timestamp", decimal(timestamp).as_str());
        let signed = joined(stamped.as_str(), request.body_or_empty().as_str());
        let signature = sign_text(secret.as_str(), signed.as_str());
        request.query = Some(stamped);
        let query = request.query_with("signature", signature.as_str());
        request.query = Some(query);
        Ok(request)
    }

    /// Puts the encoded body, if there is one, into a request.
    fn with_body(request: RequestParts, encoded: Option<String>) -> (filled: RequestParts)
        ensures
            filled@ == binance_with_body(
                request@,
                match encoded {
                    Some(text) => EncodedBodyView::Text(text@),
                    None => EncodedBodyView::Absent,
                },
            ),
    {
        let mut request = request;
        match encoded {
            Some(encoded) => {
                request.append_header("content-type", "application/x-www-form-urlencoded".to_owned());
                request.body = Some(encoded);
            },
            None => {},
        }
        request
    }

    /// Reads a response.
    ///
    /// `retry_after` is the text of the header of that name, if the
    /// response has one that is plain text. `parsed` is the body read as the
    /// type that the caller expects, `error` the body read as an error of
    /// the exchange; either is `None` where the body cannot be read so.
    pub fn handle_response(
        &self,
        status: u16,
        retry_after: Option<&str>,
        parsed: Option<R>,
        error: Option<BinanceError>,
    ) -> (outcome: Result<R, BinanceHandlerError>)
        ensures
            outcome == binance_response(
                status,
                match retry_after {
                    Some(text) => Some(text@),
                    None => None,
                },
                parsed,
                error,
            ),
    {
        if is_success(status) {
            match parsed {
                Some(value) => Ok(value),
                None => Err(BinanceHandlerError::ParseError),
            }
        } else if status == 429 || status == 418 {
            let retry_after = match retry_after {
                Some(text) => parse_u32(text),
                None => None,
            };
            Err(BinanceHandlerError::RateLimitError { retry_after })
        } else {
            match error {
                Some(error) => Err(BinanceHandlerError::ApiError(error)),
                None => Err(BinanceHandlerError::ParseError),
            }
        }
    }
}

impl<H> BinanceWebSocketHandler<H> {
    /// What takes the messages that the handler passes on.
    pub fn receiver_mut(&mut self) -> (receiver: &mut H)
        ensures
            *receiver == old(self).receiver(),
            final(self).receiver() == *final(receiver),
            final(self).held() == old(self).held(),
    {
        &mut self.message_handler
    }

    /// The document that a message brings and that the receiver is to get:
    /// that of a text message that holds one. Nothing else is passed on,
    /// and nothing is ever answered.
    pub fn forwarded(&self, message: &WebSocketMessage) -> (document: Option<serde_json::Value>)
        ensures
            document == document_of(message@),
    {
        document_of_message(message)
    }
}

impl HandlerOptions for BinanceOptions {
    type OptionItem = BinanceOption;

    open spec fn with_option(self, option: BinanceOption) -> Self {
        match option {
            BinanceOption::Default => self,
            BinanceOption::Key(v) => BinanceOptions { key: Some(v), ..self },
            BinanceOption::Secret(v) => BinanceOptions { secret: Some(v), ..self },
            BinanceOption::HttpUrl(v) => BinanceOptions { http_url: v, ..self },
            BinanceOption::HttpAuth(v) => BinanceOptions { http_auth: v, ..self },
            BinanceOption::RequestConfig(v) => BinanceOptions { request_config: v, ..self },
            BinanceOption::WebSocketUrl(v) => BinanceOptions { websocket_url: v, ..self },
            BinanceOption::WebSocketConfig(v) => BinanceOptions { websocket_config: v, ..self },
        }
    }

    fn update(&mut self, option: Self::OptionItem) {
        match option {
            BinanceOption::Default => (),
            BinanceOption::Key(v) => self.key = Some(v),
            BinanceOption::Secret(v) => self.secret = Some(v),
            BinanceOption::HttpUrl(v) => self.http_url = v,
            BinanceOption::HttpAuth(v) => self.http_auth = v,
            BinanceOption::RequestConfig(v) => self.request_config = v,
            BinanceOption::WebSocketUrl(v) => self.websocket_url = v,
            BinanceOption::WebSocketConfig(v) => self.websocket_config = v,
        }
    }
}

impl Default for BinanceOptions {
    fn default() -> (options: Self)
        ensures
            options@ == default_binance_options(),
    {
        let mut websocket_config = WebSocketConfig::new();
        websocket_config.refresh_after = Duration::from_secs(60 * 60 * 12);
        websocket_config.ignore_duplicate_during_reconnection = true;
        Self {
            key: None,
            secret: None,
            http_url: BinanceHttpUrl::Unset,
            http_auth: BinanceAuth::NoAuth,
            request_config: RequestConfig::default(),
            websocket_url: BinanceWebSocketUrl::Unset,
            websocket_config,
        }
    }
}

impl Clone for BinanceOptions {
    fn clone(&self) -> (copy: Self)
        ensures
            copy@ == self@,
    {
        Self {
            key: clone_optional(&self.key),
            secret: clone_optional(&self.secret),
            http_url: self.http_url,
            http_auth: self.http_auth,
            request_config: self.request_config.clone(),
            websocket_url: self.websocket_url,
            websocket_config: self.websocket_config.clone(),
        }
    }
}

impl<'a, R: 'a> HttpOption<'a, R> for BinanceOption {
    type RequestHandler = BinanceRequestHandler<'a, R>;

    #[inline(always)]
    fn request_handler(options: BinanceOptions) -> (handler: BinanceRequestHandler<'a, R>)
        ensures
            BinanceRequestHandler::<R>::held(handler) == options,
    {
        BinanceRequestHandler::<'a, R> { options, _phantom: PhantomData }
    }
}

impl<H> WebSocketOption<H> for BinanceOption {
    type WebSocketHandler = BinanceWebSocketHandler<H>;

    #[inline(always)]
    fn websocket_handler(handler: H, options: BinanceOptions) -> (made: BinanceWebSocketHandler<H>)
        ensures
            BinanceWebSocketHandler::<H>::receiver(made) == handler,
            BinanceWebSocketHandler::<H>::held(made) == options,
    {
        BinanceWebSocketHandler { message_handler: handler, options }
    }
}

impl HandlerOption for BinanceOption {
    type Options = BinanceOptions;
}

impl Default for BinanceOption {
    fn default() -> (option: Self)
        ensures
            option is Default,
    {
        Self::Default
    }
}

} // verus!
