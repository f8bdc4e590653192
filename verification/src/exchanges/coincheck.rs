//! Communicating with the [coincheck API](https://coincheck.com/ja/documents/exchange/api).

use crate::clock::unix_time;
use crate::http::{RequestConfig, RequestConfigView};
use crate::json::{
    document_of, document_of_message, json_document, json_of_members, json_of_text, json_written,
    members_view, object_value, parse_json, text_value, write_json,
};
use crate::request::{
    bare_view, body_text, built_view, headers_appended, headers_inserted, header_text, is_header_value,
    is_success, status_is_success, url_text, BodyEncoding, EncodedBody, EncodedBodyView, RequestParts,
    RequestView,
};
use crate::signing::{decimal, decimal_text, sign, signature_text};
use crate::text::{clone_optional, clone_strings, optional_text};
use crate::traits::{HandlerOption, HandlerOptions, HttpOption, WebSocketOption};
use crate::websocket::{
    messages_view, MessageView, WebSocketConfig, WebSocketConfigView, WebSocketMessage,
};
use std::marker::PhantomData;
use vstd::prelude::*;
use vstd::utf8::encode_utf8;

verus! {

/// Options that can be set when creating handlers
pub enum CoincheckOption {
    /// [`Default`] variant, does nothing
    Default,
    /// API key
    Key(String),
    /// Api secret
    Secret(String),
    /// Base url for HTTP requests
    HttpUrl(CoincheckHttpUrl),
    /// Whether [`CoincheckRequestHandler`] should perform authentication
    HttpAuth(bool),
    /// [`RequestConfig`] used when sending requests.
    /// `url_prefix` will be overridden by [`HttpUrl`](Self::HttpUrl) unless `HttpUrl` is
    /// [`CoincheckHttpUrl::Unset`].
    RequestConfig(RequestConfig),
    /// Base url for WebSocket connections
    WebSocketUrl(CoincheckWebSocketUrl),
    /// The channels to be subscribed by [`CoincheckWebSocketHandler`].
    WebSocketChannels(Vec<String>),
    /// [`WebSocketConfig`] used for creating connections.
    /// `url_prefix` will be overridden by [`WebSocketUrl`](Self::WebSocketUrl) unless
    /// `WebSocketUrl` is [`CoincheckWebSocketUrl::Unset`].
    /// By default, `ignore_duplicate_during_reconnection` is set to `true`.
    WebSocketConfig(WebSocketConfig),
}

/// A `struct` that represents a set of [`CoincheckOption`]s.
#[derive(Debug)]
pub struct CoincheckOptions {
    /// see [`CoincheckOption::Key`]
    pub key: Option<String>,
    /// see [`CoincheckOption::Secret`]
    pub secret: Option<String>,
    /// see [`CoincheckOption::HttpUrl`]
    pub http_url: CoincheckHttpUrl,
    /// see [`CoincheckOption::HttpAuth`]
    pub http_auth: bool,
    /// see [`CoincheckOption::RequestConfig`]
    pub request_config: RequestConfig,
    /// see [`CoincheckOption::WebSocketUrl`]
    pub websocket_url: CoincheckWebSocketUrl,
    /// see [`CoincheckOption::WebSocketChannels`]
    pub websocket_channels: Vec<String>,
    /// see [`CoincheckOption::WebSocketConfig`]
    pub websocket_config: WebSocketConfig,
}

/// The mathematical content of a [`CoincheckOptions`].
pub ghost struct CoincheckOptionsView {
    pub key: Option<Seq<char>>,
    pub secret: Option<Seq<char>>,
    pub http_url: CoincheckHttpUrl,
    pub http_auth: bool,
    pub request_config: RequestConfigView,
    pub websocket_url: CoincheckWebSocketUrl,
    pub websocket_channels: Seq<Seq<char>>,
    pub websocket_config: WebSocketConfigView,
}

/// A `enum` that represents the base url of the Coincheck HTTP API.
#[derive(Debug, Eq, PartialEq, Copy, Clone, Structural)]
pub enum CoincheckHttpUrl {
    /// `https://coincheck.com`
    Default,
    /// The url will not be modified by [`CoincheckRequestHandler`]
    Unset,
}

/// A `enum` that represents the base url of the Coincheck Realtime API
#[derive(Debug, Eq, PartialEq, Copy, Clone, Structural)]
#[non_exhaustive]
pub enum CoincheckWebSocketUrl {
    /// `wss://ws-api.coincheck.com/`
    Default,
    /// The url will not be modified by [`CoincheckWebSocketHandler`]
    Unset,
}

/// What a request handler returns for a response that was not a success.
#[derive(Debug)]
pub enum CoincheckHandlerError {
    /// The exchange answered with an error of its own.
    ApiError(serde_json::Value),
    /// The exchange answered that too many requests were made.
    RequestLimitExceeded(serde_json::Value),
    /// The response could not be read.
    ParseError,
}

/// A `struct` that builds and reads HTTP requests for Coincheck.
pub struct CoincheckRequestHandler<'a, R> {
    options: CoincheckOptions,
    _phantom: PhantomData<&'a R>,
}

/// A `struct` that handles the WebSocket events of Coincheck.
pub struct CoincheckWebSocketHandler<H> {
    message_handler: H,
    options: CoincheckOptions,
}

impl View for CoincheckOptions {
    type V = CoincheckOptionsView;

    open spec fn view(&self) -> CoincheckOptionsView {
        CoincheckOptionsView {
            key: optional_text(self.key),
            secret: optional_text(self.secret),
            http_url: self.http_url,
            http_auth: self.http_auth,
            request_config: self.request_config@,
            websocket_url: self.websocket_url,
            websocket_channels: self.websocket_channels.deep_view(),
            websocket_config: self.websocket_config@,
        }
    }
}

impl CoincheckHttpUrl {
    /// The base URL that this variant represents, as a sequence of characters.
    pub open spec fn text(self) -> Seq<char> {
        match self {
            Self::Default => "https://coincheck.com"@,
            Self::Unset => ""@,
        }
    }

    /// The base URL that this variant represents.
    #[inline(always)]
    pub fn as_str(&self) -> (url: &'static str)
        ensures
            url@ == self.text(),
    {
        match self {
            Self::Default => "https://coincheck.com",
            Self::Unset => "",
        }
    }
}

impl CoincheckWebSocketUrl {
    /// The base URL that this variant represents, as a sequence of characters.
    pub open spec fn text(self) -> Seq<char> {
        match self {
            Self::Default => "wss://ws-api.coincheck.com/"@,
            Self::Unset => ""@,
        }
    }

    /// The base URL that this variant represents.
    #[inline(always)]
    pub fn as_str(&self) -> (url: &'static str)
        ensures
            url@ == self.text(),
    {
        match self {
            Self::Default => "wss://ws-api.coincheck.com/",
            Self::Unset => "",
        }
    }
}

/// The request configuration of a handler: the one from its options, with
/// the prefix replaced by the base url unless that is `Unset`.
pub open spec fn coincheck_request_config(options: CoincheckOptionsView) -> RequestConfigView {
    if options.http_url != CoincheckHttpUrl::Unset {
        RequestConfigView { url_prefix: options.http_url.text(), ..options.request_config }
    } else {
        options.request_config
    }
}

/// The WebSocket configuration of a handler: the one from its options, with
/// the prefix replaced by the base url unless that is `Unset`.
pub open spec fn coincheck_websocket_config(options: CoincheckOptionsView) -> WebSocketConfigView {
    if options.websocket_url != CoincheckWebSocketUrl::Unset {
        WebSocketConfigView { url_prefix: options.websocket_url.text(), ..options.websocket_config }
    } else {
        options.websocket_config
    }
}

/// The options of a client that was told nothing: no credentials, the
/// public base urls, no authentication, no channels, and a WebSocket session
/// that withholds duplicates while it reconnects.
pub open spec fn default_coincheck_options() -> CoincheckOptionsView {
    CoincheckOptionsView {
        key: None,
        secret: None,
        http_url: CoincheckHttpUrl::Default,
        http_auth: false,
        request_config: crate::http::default_request_config(),
        websocket_url: CoincheckWebSocketUrl::Default,
        websocket_channels: Seq::empty(),
        websocket_config: WebSocketConfigView {
            ignore_duplicate_during_reconnection: true,
            ..crate::websocket::config::default_websocket_config()
        },
    }
}

impl<'a, R> CoincheckRequestHandler<'a, R> {
    /// The options that the handler was made with.
    pub closed spec fn held(self) -> CoincheckOptions {
        self.options
    }

    /// The options that the handler was made with.
    pub fn options(&self) -> (options: &CoincheckOptions)
        ensures
            *options == self.held(),
    {
        &self.options
    }

    /// The configuration of the requests that this handler builds.
    pub fn request_config(&self) -> (config: RequestConfig)
        ensures
            config@ == coincheck_request_config(self.held()@),
    {
        let mut config = self.options.request_config.clone();
        if self.options.http_url != CoincheckHttpUrl::Unset {
            config.url_prefix = self.options.http_url.as_str().to_owned();
        }
        config
    }
}

impl<H> CoincheckWebSocketHandler<H> {
    /// The options that the handler was made with.
    pub closed spec fn held(self) -> CoincheckOptions {
        self.options
    }

    /// What takes the messages that the handler passes on.
    pub closed spec fn receiver(self) -> H {
        self.message_handler
    }

    /// The options that the handler was made with.
    pub fn options(&self) -> (options: &CoincheckOptions)
        ensures
            *options == self.held(),
    {
        &self.options
    }

    /// The handler's parts: what takes the messages, and the options.
    pub fn into_parts(self) -> (parts: (H, CoincheckOptions))
        ensures
            parts.0 == self.receiver(),
            parts.1 == self.held(),
    {
        (self.message_handler, self.options)
    }

    /// The configuration of the sessions that this handler serves.
    pub fn websocket_config(&self) -> (config: WebSocketConfig)
        ensures
            config@ == coincheck_websocket_config(self.held()@),
    {
        let mut config = self.options.websocket_config.clone();
        if self.options.websocket_url != CoincheckWebSocketUrl::Unset {
            config.url_prefix = self.options.websocket_url.as_str().to_owned();
        }
        config
    }
}

/// The text that Coincheck wants signed: the nonce, the whole address, and
/// the body.
pub open spec fn coincheck_sign_text(nonce: u64, request: RequestView) -> Seq<char> {
    decimal_text(nonce as nat) + url_text(request) + body_text(request)
}

/// A request with its form-encoded body put in, if it has one.
pub open spec fn coincheck_with_body(request: RequestView, body: EncodedBodyView) -> RequestView {
    match body {
        EncodedBodyView::Text(encoded) => RequestView {
            headers: headers_appended(
                request.headers,
                "content-type"@,
                "application/x-www-form-urlencoded"@,
            ),
            body: Some(encoded),
            ..request
        },
        _ => request,
    }
}

/// The headers of an authenticated request: the key, the nonce and the
/// signature, each in the place of any header of the same name.
pub open spec fn coincheck_signed_headers(
    headers: Seq<(Seq<char>, Seq<char>)>,
    key: Seq<char>,
    nonce: u64,
    signature: Seq<char>,
) -> Seq<(Seq<char>, Seq<char>)> {
    headers_inserted(
        headers_inserted(
            headers_inserted(headers, "access-key"@, key),
            "access-nonce"@,
            decimal_text(nonce as nat),
        ),
        "access-signature"@,
        signature,
    )
}

/// The request that goes out, or the reason why none does.
///
/// `bare` is the request as the builder made it, if it could make one;
/// `body` is the body in form encoding; `nonce` is the time in milliseconds
/// since the Unix epoch.
pub open spec fn coincheck_request(
    options: CoincheckOptionsView,
    bare: Option<RequestView>,
    body: EncodedBodyView,
    nonce: u64,
) -> Result<RequestView, Seq<char>> {
    if body is Failed {
        Err("could not serialize body as application/x-www-form-urlencoded"@)
    } else if bare is None {
        Err("failed to build request"@)
    } else if !options.http_auth {
        Ok(coincheck_with_body(bare.unwrap(), body))
    } else if options.secret is None {
        Err("API secret not set"@)
    } else if options.key is None {
        Err("API key not set"@)
    } else if !header_text(options.key.unwrap()) {
        Err("invalid character in API key"@)
    } else {
        let request = coincheck_with_body(bare.unwrap(), body);
        Ok(
            RequestView {
                headers: coincheck_signed_headers(
                    request.headers,
                    options.key.unwrap(),
                    nonce,
                    signature_text(
                        encode_utf8(options.secret.unwrap()),
                        encode_utf8(coincheck_sign_text(nonce, request)),
                    ),
                ),
                ..request
            },
        )
    }
}

/// What a response amounts to. `parsed` is the body read as the type that
/// the caller expects; it is looked at only when the status reports a
/// success. Any other response is an error: a parse error if the body is no
/// JSON document, a request limit for status 429, the exchange's own
/// otherwise.
pub open spec fn coincheck_response<R>(status: u16, parsed: Option<R>, body: Seq<u8>) -> Result<
    R,
    CoincheckHandlerError,
> {
    if status_is_success(status) {
        match parsed {
            Some(value) => Ok(value),
            None => Err(CoincheckHandlerError::ParseError),
        }
    } else {
        match json_document(body) {
            Some(document) => if status == 429 {
                Err(CoincheckHandlerError::RequestLimitExceeded(document))
            } else {
                Err(CoincheckHandlerError::ApiError(document))
            },
            None => Err(CoincheckHandlerError::ParseError),
        }
    }
}

impl<'a, R> CoincheckRequestHandler<'a, R> {
    /// The encoding in which this handler wants the body of a request.
    pub fn body_encoding(&self) -> (encoding: BodyEncoding)
        ensures
            encoding == BodyEncoding::UrlEncoded,
    {
        BodyEncoding::UrlEncoded
    }

    /// Finishes a request: puts the body in and, if the options ask for
    /// it, authenticates the request as of now.
    pub fn build_request(&self, bare: Option<RequestParts>, body: EncodedBody) -> (built: Result<
        RequestParts,
        &'static str,
    >)
        ensures
            exists|nonce: u64|
                built_view(built) == coincheck_request(self.held()@, bare_view(bare), body@, nonce),
    {
        let time = unix_time();
        let nonce = #[verifier::truncate] (time.as_millis() as u64);
        let built = self.build_request_at(bare, body, nonce);
        assert(built_view(built) == coincheck_request(self.held()@, bare_view(bare), body@, nonce));
        built
    }

    /// Finishes a request with `nonce`, the time in milliseconds since the
    /// Unix epoch.
    pub fn build_request_at(&self, bare: Option<RequestParts>, body: EncodedBody, nonce: u64) -> (built:
        Result<RequestParts, &'static str>)
        ensures
            built_view(built) == coincheck_request(self.held()@, bare_view(bare), body@, nonce),
    {
        let encoded = match body {
            EncodedBody::Failed => {
                return Err("could not serialize body as application/x-www-form-urlencoded");
            },
            EncodedBody::Absent => None,
            EncodedBody::Text(encoded) => Some(encoded),
        };
        let mut request = match bare {
            None => {
                return Err("failed to build request");
            },
            Some(request) => request,
        };
        match encoded {
            Some(encoded) => {
                request.append_header("content-type", "application/x-www-form-urlencoded".to_owned());
                request.body = Some(encoded);
            },
            None => {},
        }
        if self.options.http_auth {
            let mut sign_contents = decimal(nonce as u128);
            sign_contents.append(request.url().as_str());
            sign_contents.append(request.body_or_empty().as_str());
            let secret = match &self.options.secret {
                None => {
                    return Err("API secret not set");
                },
                Some(secret) => secret,
            };
            let signature = sign(secret.as_str(), sign_contents.as_str());
            let key = match &self.options.key {
                None => {
                    return Err("API key not set");
                },
                Some(key) => key,
            };
            if !is_header_value(key.as_str()) {
                return Err("invalid character in API key");
            }
            request.insert_header("access-key", key.clone());
            request.insert_header("access-nonce", decimal(nonce as u128));
            request.insert_header("access-signature", signature);
        }
        Ok(request)
    }

    /// Reads a response. `parsed` is the body read as the type that the
    /// caller expects, or `None` where it cannot be read so.
    pub fn handle_response(&self, status: u16, parsed: Option<R>, body: &[u8]) -> (outcome: Result<
        R,
        CoincheckHandlerError,
    >)
        ensures
            outcome == coincheck_response(status, parsed, body@),
    {
        if is_success(status) {
            match parsed {
                Some(value) => Ok(value),
                None => Err(CoincheckHandlerError::ParseError),
            }
        } else {
            match parse_json(body) {
                Some(document) => {
                    if status == 429 {
                        Err(CoincheckHandlerError::RequestLimitExceeded(document))
                    } else {
                        Err(CoincheckHandlerError::ApiError(document))
                    }
                },
                None => Err(CoincheckHandlerError::ParseError),
            }
        }
    }
}

/// The message that subscribes to `channel`.
pub open spec fn coincheck_subscribe(channel: Seq<char>) -> MessageView {
    MessageView::Text(
        json_written(
            json_of_members(
                seq![("type"@, json_of_text("subscribe"@)), ("channel"@, json_of_text(channel))],
            ),
        ),
    )
}

/// The messages that a new connection starts with: one subscription for
/// each channel, in the order of the options.
pub open spec fn coincheck_start(channels: Seq<Seq<char>>) -> Seq<MessageView> {
    channels.map_values(|channel: Seq<char>| coincheck_subscribe(channel))
}

impl<H> CoincheckWebSocketHandler<H> {
    /// What takes the messages that the handler passes on.
    pub fn receiver_mut(&mut self) -> (receiver: &mut H)
        ensures
            *receiver == old(self).receiver(),
            final(self).receiver() == *final(receiver),
            final(self).held() == old(self).held(),
    {
        &mut self.message_handler
    }

    /// The messages to send when a connection has been started.
    pub fn handle_start(&self) -> (messages: Vec<WebSocketMessage>)
        ensures
            messages_view(messages) == coincheck_start(self.held()@.websocket_channels),
    {
        let mut messages: Vec<WebSocketMessage> = Vec::new();
        let mut i: usize = 0;
        while i < self.options.websocket_channels.len()
            invariant
                i <= self.options.websocket_channels.len(),
                messages_view(messages) == coincheck_start(
                    self.options.websocket_channels.deep_view().subrange(0, i as int),
                ),
            decreases self.options.websocket_channels.len() - i,
        {
            let channel = &self.options.websocket_channels[i];
            let mut members: Vec<(String, serde_json::Value)> = Vec::new();
            members.push(("type".to_owned(), text_value("subscribe")));
            members.push(("channel".to_owned(), text_value(channel.as_str())));
            proof {
                assert(members_view(members) =~= seq![
                    ("type"@, json_of_text("subscribe"@)),
                    ("channel"@, json_of_text(channel@)),
                ]);
            }
            let ghost before = messages_view(messages);
            let message = WebSocketMessage::Text(write_json(&object_value(members)));
            assert(message@ == coincheck_subscribe(channel@));
            messages.push(message);
            proof {
                let channels = self.options.websocket_channels.deep_view();
                assert(channels[i as int] == channel@);
                assert(messages_view(messages) =~= before.push(coincheck_subscribe(channel@)));
                assert(channels.subrange(0, i + 1) =~= channels.subrange(0, i as int).push(channel@));
                assert(coincheck_start(channels.subrange(0, i + 1)) =~= coincheck_start(
                    channels.subrange(0, i as int),
                ).push(coincheck_subscribe(channel@)));
            }
            i += 1;
        }
        proof {
            let channels = self.options.websocket_channels.deep_view();
            assert(channels.subrange(0, i as int) =~= channels);
        }
        messages
    }

    /// The document that a message brings and that the receiver is to get:
    /// that of a text message that holds one. Nothing else is passed on.
    pub fn forwarded(&self, message: &WebSocketMessage) -> (document: Option<serde_json::Value>)
        ensures
            document == document_of(message@),
    {
        document_of_message(message)
    }
}

impl HandlerOptions for CoincheckOptions {
    type OptionItem = CoincheckOption;

    open spec fn with_option(self, option: CoincheckOption) -> Self {
        match option {
            CoincheckOption::Default => self,
            CoincheckOption::Key(v) => CoincheckOptions { key: Some(v), ..self },
            CoincheckOption::Secret(v) => CoincheckOptions { secret: Some(v), ..self },
            CoincheckOption::HttpUrl(v) => CoincheckOptions { http_url: v, ..self },
            CoincheckOption::HttpAuth(v) => CoincheckOptions { http_auth: v, ..self },
            CoincheckOption::RequestConfig(v) => CoincheckOptions { request_config: v, ..self },
            CoincheckOption::WebSocketUrl(v) => CoincheckOptions { websocket_url: v, ..self },
            CoincheckOption::WebSocketChannels(v) => CoincheckOptions { websocket_channels: v, ..self },
            CoincheckOption::WebSocketConfig(v) => CoincheckOptions { websocket_config: v, ..self },
        }
    }

    fn update(&mut self, option: Self::OptionItem) {
        match option {
            CoincheckOption::Default => (),
            CoincheckOption::Key(v) => self.key = Some(v),
            CoincheckOption::Secret(v) => self.secret = Some(v),
            CoincheckOption::HttpUrl(v) => self.http_url = v,
            CoincheckOption::HttpAuth(v) => self.http_auth = v,
            CoincheckOption::RequestConfig(v) => self.request_config = v,
            CoincheckOption::WebSocketUrl(v) => self.websocket_url = v,
            CoincheckOption::WebSocketChannels(v) => self.websocket_channels = v,
            CoincheckOption::WebSocketConfig(v) => self.websocket_config = v,
        }
    }
}

impl Default for CoincheckOptions {
    fn default() -> (options: Self)
        ensures
            options@ == default_coincheck_options(),
    {
        let mut websocket_config = WebSocketConfig::new();
        websocket_config.ignore_duplicate_during_reconnection = true;
        let options = Self {
            key: None,
            secret: None,
            http_url: CoincheckHttpUrl::Default,
            http_auth: false,
            request_config: RequestConfig::default(),
            websocket_url: CoincheckWebSocketUrl::Default,
            websocket_channels: Vec::new(),
            websocket_config,
        };
        assert(options.websocket_channels.deep_view() =~= Seq::<Seq<char>>::empty());
        options
    }
}

impl Clone for CoincheckOptions {
    fn clone(&self) -> (copy: Self)
        ensures
            copy@ == self@,
    {
        Self {
            key: clone_optional(&self.key),
            secret: clone_optional(&self.secret),
            http_url: self.http_url,
            http_auth: self.http_auth,
            request_config: self.request_config.clone(),
            websocket_url: self.websocket_url,
            websocket_channels: clone_strings(&self.websocket_channels),
            websocket_config: self.websocket_config.clone(),
        }
    }
}

impl<'a, R: 'a> HttpOption<'a, R> for CoincheckOption {
    type RequestHandler = CoincheckRequestHandler<'a, R>;

    #[inline(always)]
    fn request_handler(options: CoincheckOptions) -> (handler: CoincheckRequestHandler<'a, R>)
        ensures
            CoincheckRequestHandler::<R>::held(handler) == options,
    {
        CoincheckRequestHandler::<'a, R> { options, _phantom: PhantomData }
    }
}

impl<H> WebSocketOption<H> for CoincheckOption {
    type WebSocketHandler = CoincheckWebSocketHandler<H>;

    #[inline(always)]
    fn websocket_handler(handler: H, options: CoincheckOptions) -> (made: CoincheckWebSocketHandler<H>)
        ensures
            CoincheckWebSocketHandler::<H>::receiver(made) == handler,
            CoincheckWebSocketHandler::<H>::held(made) == options,
    {
        CoincheckWebSocketHandler { message_handler: handler, options }
    }
}

impl HandlerOption for CoincheckOption {
    type Options = CoincheckOptions;
}

impl Default for CoincheckOption {
    fn default() -> (option: Self)
        ensures
            option is Default,
    {
        Self::Default
    }
}

} // verus!
