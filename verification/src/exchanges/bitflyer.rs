//! Communicating with the [bitFlyer API](https://lightning.bitflyer.com/docs).

use crate::clock::{duration_nanos, unix_time};
use crate::http::{RequestConfig, RequestConfigView};
use crate::json::{
    as_bool, json_bool, json_document, json_of_members, json_of_number, json_of_text, json_written,
    members_view, number_value, object_value, parse_json, text_value, write_json,
};
use crate::random::random_alphanumeric;
use crate::request::{
    bare_view, body_text, built_view, headers_appended, headers_inserted, header_text, is_header_value,
    is_success, joined, status_is_success, target_text, BodyEncoding, EncodedBody, EncodedBodyView, RequestParts,
    RequestView,
};
use crate::signing::{decimal, decimal_text, sign, signature_text};
use crate::text::{clone_optional, clone_strings, optional_text, same_optional, same_text};
use crate::traits::{HandlerOption, HandlerOptions, HttpOption, WebSocketOption};
use crate::websocket::{
    messages_view, MessageView, WebSocketConfig, WebSocketConfigView, WebSocketMessage,
};
use std::marker::PhantomData;
use std::time::Duration;
use vstd::prelude::*;
use vstd::utf8::encode_utf8;

verus! {

/// Options that can be set when creating handlers
pub enum BitFlyerOption {
    /// [`Default`] variant, does nothing
    Default,
    /// API key
    Key(String),
    /// Api secret
    Secret(String),
    /// Base url for HTTP requests
    HttpUrl(BitFlyerHttpUrl),
    /// Whether [`BitFlyerRequestHandler`] should perform authentication
    HttpAuth(bool),
    /// [`RequestConfig`] used when sending requests.
    /// `url_prefix` will be overridden by [`HttpUrl`](Self::HttpUrl) unless `HttpUrl` is
    /// [`BitFlyerHttpUrl::Unset`].
    RequestConfig(RequestConfig),
    /// Base url for WebSocket connections
    WebSocketUrl(BitFlyerWebSocketUrl),
    /// Whether [`BitFlyerWebSocketHandler`] should perform authentication
    WebSocketAuth(bool),
    /// The channels to be subscribed by [`BitFlyerWebSocketHandler`].
    WebSocketChannels(Vec<String>),
    /// [`WebSocketConfig`] used for creating connections.
    /// `url_prefix` will be overridden by [`WebSocketUrl`](Self::WebSocketUrl) unless
    /// `WebSocketUrl` is [`BitFlyerWebSocketUrl::Unset`].
    /// By default, `ignore_duplicate_during_reconnection` is set to `true`.
    WebSocketConfig(WebSocketConfig),
}

/// A `struct` that represents a set of [`BitFlyerOption`]s.
#[derive(Debug)]
pub struct BitFlyerOptions {
    /// see [`BitFlyerOption::Key`]
    pub key: Option<String>,
    /// see [`BitFlyerOption::Secret`]
    pub secret: Option<String>,
    /// see [`BitFlyerOption::HttpUrl`]
    pub http_url: BitFlyerHttpUrl,
    /// see [`BitFlyerOption::HttpAuth`]
    pub http_auth: bool,
    /// see [`BitFlyerOption::RequestConfig`]
    pub request_config: RequestConfig,
    /// see [`BitFlyerOption::WebSocketUrl`]
    pub websocket_url: BitFlyerWebSocketUrl,
    /// see [`BitFlyerOption::WebSocketAuth`]
    pub websocket_auth: bool,
    /// see [`BitFlyerOption::WebSocketChannels`]
    pub websocket_channels: Vec<String>,
    /// see [`BitFlyerOption::WebSocketConfig`]
    pub websocket_config: WebSocketConfig,
}

/// The mathematical content of a [`BitFlyerOptions`].
pub ghost struct BitFlyerOptionsView {
    pub key: Option<Seq<char>>,
    pub secret: Option<Seq<char>>,
    pub http_url: BitFlyerHttpUrl,
    pub http_auth: bool,
    pub request_config: RequestConfigView,
    pub websocket_url: BitFlyerWebSocketUrl,
    pub websocket_auth: bool,
    pub websocket_channels: Seq<Seq<char>>,
    pub websocket_config: WebSocketConfigView,
}

/// A `enum` that represents the base url of the BitFlyer HTTP API.
#[derive(Debug, Eq, PartialEq, Copy, Clone, Structural)]
pub enum BitFlyerHttpUrl {
    /// `https://api.bitflyer.com`
    Default,
    /// The url will not be modified by [`BitFlyerRequestHandler`]
    Unset,
}

/// A `enum` that represents the base url of the BitFlyer Realtime API
#[derive(Debug, Eq, PartialEq, Copy, Clone, Structural)]
#[non_exhaustive]
pub enum BitFlyerWebSocketUrl {
    /// `wss://ws.lightstream.bitflyer.com`
    Default,
    /// The url will not be modified by [`BitFlyerWebSocketHandler`]
    Unset,
}

/// A message that a subscribed channel brought.
#[derive(Debug)]
pub struct BitFlyerChannelMessage {
    pub channel: String,
    pub message: serde_json::Value,
}

/// What a request handler returns for a response that was not a success.
#[derive(Debug)]
pub enum BitFlyerHandlerError {
    /// The exchange answered with an error of its own.
    ApiError(serde_json::Value),
    /// The response could not be read.
    ParseError,
}

/// A `struct` that builds and reads HTTP requests for bitFlyer.
pub struct BitFlyerRequestHandler<'a, R> {
    options: BitFlyerOptions,
    _phantom: PhantomData<&'a R>,
}

/// A `struct` that handles the WebSocket events of bitFlyer.
pub struct BitFlyerWebSocketHandler<H> {
    message_handler: H,
    auth_id: Option<String>,
    options: BitFlyerOptions,
}

impl View for BitFlyerOptions {
    type V = BitFlyerOptionsView;

    open spec fn view(&self) -> BitFlyerOptionsView {
        BitFlyerOptionsView {
            key: optional_text(self.key),
            secret: optional_text(self.secret),
            http_url: self.http_url,
            http_auth: self.http_auth,
            request_config: self.request_config@,
            websocket_url: self.websocket_url,
            websocket_auth: self.websocket_auth,
            websocket_channels: self.websocket_channels.deep_view(),
            websocket_config: self.websocket_config@,
        }
    }
}

impl BitFlyerHttpUrl {
    /// The base URL that this variant represents, as a sequence of characters.
    pub open spec fn text(self) -> Seq<char> {
        match self {
            Self::Default => "https://api.bitflyer.com"@,
            Self::Unset => ""@,
        }
    }

    /// The base URL that this variant represents.
    #[inline(always)]
    pub fn as_str(&self) -> (url: &'static str)
        ensures
            url@ == self.text(),
    {
        match self {
            Self::Default => "https://api.bitflyer.com",
            Self::Unset => "",
        }
    }
}

impl BitFlyerWebSocketUrl {
    /// The base URL that this variant represents, as a sequence of characters.
    pub open spec fn text(self) -> Seq<char> {
        match self {
            Self::Default => "wss://ws.lightstream.bitflyer.com"@,
            Self::Unset => ""@,
        }
    }

    /// The base URL that this variant represents.
    #[inline(always)]
    pub fn as_str(&self) -> (url: &'static str)
        ensures
            url@ == self.text(),
    {
        match self {
            Self::Default => "wss://ws.lightstream.bitflyer.com",
            Self::Unset => "",
        }
    }
}

/// The request configuration of a handler: the one from its options, with
/// the prefix replaced by the base url unless that is `Unset`.
pub open spec fn bitflyer_request_config(options: BitFlyerOptionsView) -> RequestConfigView {
    if options.http_url != BitFlyerHttpUrl::Unset {
        RequestConfigView { url_prefix: options.http_url.text(), ..options.request_config }
    } else {
        options.request_config
    }
}

/// The WebSocket configuration of a handler: the one from its options, with
/// the prefix replaced by the base url unless that is `Unset`.
pub open spec fn bitflyer_websocket_config(options: BitFlyerOptionsView) -> WebSocketConfigView {
    if options.websocket_url != BitFlyerWebSocketUrl::Unset {
        WebSocketConfigView { url_prefix: options.websocket_url.text(), ..options.websocket_config }
    } else {
        options.websocket_config
    }
}

/// The options of a client that was told nothing: no credentials, the
/// public base urls, no authentication, no channels, and a WebSocket session
/// that withholds duplicates while it reconnects.
pub open spec fn default_bitflyer_options() -> BitFlyerOptionsView {
    BitFlyerOptionsView {
        key: None,
        secret: None,
        http_url: BitFlyerHttpUrl::Default,
        http_auth: false,
        request_config: crate::http::default_request_config(),
        websocket_url: BitFlyerWebSocketUrl::Default,
        websocket_auth: false,
        websocket_channels: Seq::empty(),
        websocket_config: WebSocketConfigView {
            ignore_duplicate_during_reconnection: true,
            ..crate::websocket::config::default_websocket_config()
        },
    }
}

impl<'a, R> BitFlyerRequestHandler<'a, R> {
    /// The options that the handler was made with.
    pub closed spec fn held(self) -> BitFlyerOptions {
        self.options
    }

    /// The options that the handler was made with.
    pub fn options(&self) -> (options: &BitFlyerOptions)
        ensures
            *options == self.held(),
    {
        &self.options
    }

    /// The configuration of the requests that this handler builds.
    pub fn request_config(&self) -> (config: RequestConfig)
        ensures
            config@ == bitflyer_request_config(self.held()@),
    {
        let mut config = self.options.request_config.clone();
        if self.options.http_url != BitFlyerHttpUrl::Unset {
            config.url_prefix = self.options.http_url.as_str().to_owned();
        }
        config
    }
}

impl<H> BitFlyerWebSocketHandler<H> {
    /// The options that the handler was made with.
    pub closed spec fn held(self) -> BitFlyerOptions {
        self.options
    }

    /// What takes the messages that the handler passes on.
    pub closed spec fn receiver(self) -> H {
        self.message_handler
    }

    /// The options that the handler was made with.
    pub fn options(&self) -> (options: &BitFlyerOptions)
        ensures
            *options == self.held(),
    {
        &self.options
    }

    /// The handler's parts: what takes the messages, and the options.
    pub fn into_parts(self) -> (parts: (H, BitFlyerOptions))
        ensures
            parts.0 == self.receiver(),
            parts.1 == self.held(),
    {
        (self.message_handler, self.options)
    }

    /// The configuration of the sessions that this handler serves.
    pub fn websocket_config(&self) -> (config: WebSocketConfig)
        ensures
            config@ == bitflyer_websocket_config(self.held()@),
    {
        let mut config = self.options.websocket_config.clone();
        if self.options.websocket_url != BitFlyerWebSocketUrl::Unset {
            config.url_prefix = self.options.websocket_url.as_str().to_owned();
        }
        config
    }
}

/// The text that bitFlyer wants signed: the timestamp, the method, the path
/// with its query, and the body.
pub open spec fn bitflyer_sign_text(timestamp: u64, request: RequestView) -> Seq<char> {
    decimal_text(timestamp as nat) + request.method + target_text(request) + body_text(request)
}

/// A request with its JSON body put in, if it has one.
pub open spec fn bitflyer_with_body(request: RequestView, body: EncodedBodyView) -> RequestView {
    match body {
        EncodedBodyView::Text(json) => RequestView {
            headers: headers_appended(request.headers, "content-type"@, "application/json"@),
            body: Some(json),
            ..request
        },
        _ => request,
    }
}

/// The headers of an authenticated request: the key, the timestamp, the
/// signature and the content type, each in the place of any header of the
/// same name.
pub open spec fn bitflyer_signed_headers(
    headers: Seq<(Seq<char>, Seq<char>)>,
    key: Seq<char>,
    timestamp: u64,
    signature: Seq<char>,
) -> Seq<(Seq<char>, Seq<char>)> {
    headers_inserted(
        headers_inserted(
            headers_inserted(
                headers_inserted(headers, "access-key"@, key),
                "access-timestamp"@,
                decimal_text(timestamp as nat),
            ),
            "access-sign"@,
            signature,
        ),
        "content-type"@,
        "application/json"@,
    )
}

/// The request that goes out, or the reason why none does.
///
/// `bare` is the request as the builder made it, if it could make one;
/// `body` is the body encoded as JSON; `timestamp` is the time in
/// milliseconds since the Unix epoch.
pub open spec fn bitflyer_request(
    options: BitFlyerOptionsView,
    bare: Option<RequestView>,
    body: EncodedBodyView,
    timestamp: u64,
) -> Result<RequestView, Seq<char>> {
    if body is Failed {
        Err("could not serialize body as application/json"@)
    } else if bare is None {
        Err("failed to build request"@)
    } else if !options.http_auth {
        Ok(bitflyer_with_body(bare.unwrap(), body))
    } else if options.secret is None {
        Err("API secret not set"@)
    } else if options.key is None {
        Err("API key not set"@)
    } else if !header_text(options.key.unwrap()) {
        Err("invalid character in API key"@)
    } else {
        let request = bitflyer_with_body(bare.unwrap(), body);
        Ok(
            RequestView {
                headers: bitflyer_signed_headers(
                    request.headers,
                    options.key.unwrap(),
                    timestamp,
                    signature_text(
                        encode_utf8(options.secret.unwrap()),
                        encode_utf8(bitflyer_sign_text(timestamp, request)),
                    ),
                ),
                ..request
            },
        )
    }
}

/// What a response amounts to. `parsed` is the body read as the type that
/// the caller expects; it is looked at only when the status reports a
/// success. Any other response is an error: the exchange's own if the body
/// is a JSON document, a parse error if not.
pub open spec fn bitflyer_response<R>(status: u16, parsed: Option<R>, body: Seq<u8>) -> Result<
    R,
    BitFlyerHandlerError,
> {
    if status_is_success(status) {
        match parsed {
            Some(value) => Ok(value),
            None => Err(BitFlyerHandlerError::ParseError),
        }
    } else {
        match json_document(body) {
            Some(document) => Err(BitFlyerHandlerError::ApiError(document)),
            None => Err(BitFlyerHandlerError::ParseError),
        }
    }
}

impl<'a, R> BitFlyerRequestHandler<'a, R> {
    /// The encoding in which this handler wants the body of a request.
    pub fn body_encoding(&self) -> (encoding: BodyEncoding)
        ensures
            encoding == BodyEncoding::Json,
    {
        BodyEncoding::Json
    }

    /// Finishes a request: puts the body in and, if the options ask for
    /// it, authenticates the request as of now.
    pub fn build_request(&self, bare: Option<RequestParts>, body: EncodedBody) -> (built: Result<
        RequestParts,
        &'static str,
    >)
        ensures
            exists|timestamp: u64|
                built_view(built) == bitflyer_request(self.held()@, bare_view(bare), body@, timestamp),
    {
        let time = unix_time();
        let timestamp = #[verifier::truncate] (time.as_millis() as u64);
        let built = self.build_request_at(bare, body, timestamp);
        assert(built_view(built) == bitflyer_request(self.held()@, bare_view(bare), body@, timestamp));
        built
    }

    /// Finishes a request as of `timestamp`, in milliseconds since the Unix
    /// epoch.
    pub fn build_request_at(&self, bare: Option<RequestParts>, body: EncodedBody, timestamp: u64) -> (built:
        Result<RequestParts, &'static str>)
        ensures
            built_view(built) == bitflyer_request(self.held()@, bare_view(bare), body@, timestamp),
    {
        let json = match body {
            EncodedBody::Failed => {
                return Err("could not serialize body as application/json");
            },
            EncodedBody::Absent => None,
            EncodedBody::Text(json) => Some(json),
        };
        let mut request = match bare {
            None => {
                return Err("failed to build request");
            },
            Some(request) => request,
        };
        match json {
            Some(json) => {
                request.append_header("content-type", "application/json".to_owned());
                request.body = Some(json);
            },
            None => {},
        }
        if self.options.http_auth {
            let mut sign_contents = decimal(timestamp as u128);
            sign_contents.append(request.method.as_str());
            sign_contents.append(request.target().as_str());
            sign_contents.append(request.body_or_empty().as_str());
            let secret = match &self.options.secret {
                None => {
                    return Err("API secret not set");
                },
                Some(secret) => secret,
            };
            let signature = sign(secret.as_str(), sign_contents.as_str());
            let key = match &self.options.key {
                None => {
                    return Err("API key not set");
                },
                Some(key) => key,
            };
            if !is_header_value(key.as_str()) {
                return Err("invalid character in API key");
            }
            request.insert_header("access-key", key.clone());
            request.insert_header("access-timestamp", decimal(timestamp as u128));
            request.insert_header("access-sign", signature);
            request.insert_header("content-type", "application/json".to_owned());
        }
        Ok(request)
    }

    /// Reads a response. `parsed` is the body read as the type that the
    /// caller expects, or `None` where it cannot be read so.
    pub fn handle_response(&self, status: u16, parsed: Option<R>, body: &[u8]) -> (outcome: Result<
        R,
        BitFlyerHandlerError,
    >)
        ensures
            outcome == bitflyer_response(status, parsed, body@),
    {
        if is_success(status) {
            match parsed {
                Some(value) => Ok(value),
                None => Err(BitFlyerHandlerError::ParseError),
            }
        } else {
            match parse_json(body) {
                Some(document) => Err(BitFlyerHandlerError::ApiError(document)),
                None => Err(BitFlyerHandlerError::ParseError),
            }
        }
    }
}

/// A message of the realtime API, read as JSON-RPC.
#[derive(Debug)]
pub struct JsonRpcMessage {
    /// The method that the message calls, if it calls one.
    pub method: Option<String>,
    /// The result that the message reports, if it reports one.
    pub result: Option<serde_json::Value>,
    /// What a channel brought, if the message comes from a channel.
    pub params: Option<BitFlyerChannelMessage>,
    /// The identifier of the call that the message answers, if it answers one.
    pub id: Option<String>,
}

/// The mathematical content of a [`BitFlyerChannelMessage`].
pub ghost struct ChannelMessageView {
    pub channel: Seq<char>,
    pub message: serde_json::Value,
}

/// The mathematical content of a [`JsonRpcMessage`].
pub ghost struct JsonRpcView {
    pub method: Option<Seq<char>>,
    pub result: Option<serde_json::Value>,
    pub params: Option<ChannelMessageView>,
    pub id: Option<Seq<char>>,
}

impl View for BitFlyerChannelMessage {
    type V = ChannelMessageView;

    open spec fn view(&self) -> ChannelMessageView {
        ChannelMessageView { channel: self.channel@, message: self.message }
    }
}

impl View for JsonRpcMessage {
    type V = JsonRpcView;

    open spec fn view(&self) -> JsonRpcView {
        JsonRpcView {
            method: optional_text(self.method),
            result: self.result,
            params: match self.params {
                Some(params) => Some(params@),
                None => None,
            },
            id: optional_text(self.id),
        }
    }
}

/// What becomes of a message that a connection brought.
#[derive(Debug)]
pub enum BitFlyerRouting {
    /// These messages are sent back.
    Reply(Vec<WebSocketMessage>),
    /// The receiver gets this channel message.
    Forward(BitFlyerChannelMessage),
    /// Nothing happens.
    Nothing,
}

/// The mathematical content of a [`BitFlyerRouting`].
pub ghost enum BitFlyerRoutingView {
    Reply(Seq<MessageView>),
    Forward(ChannelMessageView),
    Nothing,
}

impl View for BitFlyerRouting {
    type V = BitFlyerRoutingView;

    open spec fn view(&self) -> BitFlyerRoutingView {
        match self {
            BitFlyerRouting::Reply(messages) => BitFlyerRoutingView::Reply(messages_view(*messages)),
            BitFlyerRouting::Forward(message) => BitFlyerRoutingView::Forward(message@),
            BitFlyerRouting::Nothing => BitFlyerRoutingView::Nothing,
        }
    }
}

/// The message that subscribes to `channel`.
pub open spec fn bitflyer_subscribe(channel: Seq<char>) -> MessageView {
    MessageView::Text(
        json_written(
            json_of_members(
                seq![
                    ("method"@, json_of_text("subscribe"@)),
                    ("params"@, json_of_members(seq![("channel"@, json_of_text(channel))])),
                ],
            ),
        ),
    )
}

/// One subscription for each channel, in the order of the options.
pub open spec fn bitflyer_subscriptions(channels: Seq<Seq<char>>) -> Seq<MessageView> {
    channels.map_values(|channel: Seq<char>| bitflyer_subscribe(channel))
}

/// The identifier of an authentication made at `nanos` nanoseconds since
/// the Unix epoch.
pub open spec fn bitflyer_auth_id(nanos: u128) -> Seq<char> {
    "_auth"@ + decimal_text(nanos as nat)
}

/// The message that authenticates a connection.
pub open spec fn bitflyer_auth(
    key: Seq<char>,
    secret: Seq<char>,
    timestamp: u64,
    nonce: Seq<char>,
    id: Seq<char>,
) -> MessageView {
    MessageView::Text(
        json_written(
            json_of_members(
                seq![
                    ("method"@, json_of_text("auth"@)),
                    (
                        "params"@,
                        json_of_members(
                            seq![
                                ("api_key"@, json_of_text(key)),
                                ("timestamp"@, json_of_number(timestamp)),
                                ("nonce"@, json_of_text(nonce)),
                                (
                                    "signature"@,
                                    json_of_text(
                                        signature_text(
                                            encode_utf8(secret),
                                            encode_utf8(decimal_text(timestamp as nat) + nonce),
                                        ),
                                    ),
                                ),
                            ],
                        ),
                    ),
                    ("id"@, json_of_text(id)),
                ],
            ),
        ),
    )
}

/// Whether a new connection authenticates itself: where that is asked for
/// and key and secret are set.
pub open spec fn bitflyer_authenticates(options: BitFlyerOptionsView) -> bool {
    options.websocket_auth && options.key is Some && options.secret is Some
}

/// The messages that a new connection starts with, `nanos` nanoseconds
/// since the Unix epoch and with `nonce` drawn for it: the authentication
/// where the connection authenticates itself, the subscriptions otherwise.
pub open spec fn bitflyer_start(options: BitFlyerOptionsView, nanos: nat, nonce: Seq<char>) -> Seq<
    MessageView,
> {
    if bitflyer_authenticates(options) {
        seq![
            bitflyer_auth(
                options.key.unwrap(),
                options.secret.unwrap(),
                ((nanos / 1_000_000) as u128) as u64,
                nonce,
                bitflyer_auth_id(nanos as u128),
            ),
        ]
    } else {
        bitflyer_subscriptions(options.websocket_channels)
    }
}

/// Whether a message reports the result `true`.
pub open spec fn reports_success(message: JsonRpcView) -> bool {
    message.result is Some && json_bool(message.result.unwrap()) == Some(true)
}

/// What becomes of a message, and the identifier of the authentication
/// that is still awaited after it.
///
/// `parsed` is the message read as JSON-RPC where it is a text that can be
/// read so. With authentication on, a message whose identifier is the
/// awaited one is the answer to the authentication: a success is followed by
/// the subscriptions, anything else ends the waiting. Any other call of
/// `channelMessage` hands what the channel brought to the receiver.
pub open spec fn bitflyer_route(
    options: BitFlyerOptionsView,
    awaited: Option<Seq<char>>,
    message: MessageView,
    parsed: Option<JsonRpcView>,
) -> (BitFlyerRoutingView, Option<Seq<char>>) {
    if !(message is Text) || parsed is None {
        (BitFlyerRoutingView::Nothing, awaited)
    } else if options.websocket_auth && awaited == parsed.unwrap().id {
        if reports_success(parsed.unwrap()) {
            (BitFlyerRoutingView::Reply(bitflyer_subscriptions(options.websocket_channels)), awaited)
        } else {
            (BitFlyerRoutingView::Nothing, None)
        }
    } else if parsed.unwrap().method == Some("channelMessage"@) && parsed.unwrap().params is Some {
        (BitFlyerRoutingView::Forward(parsed.unwrap().params.unwrap()), awaited)
    } else {
        (BitFlyerRoutingView::Nothing, awaited)
    }
}

impl<H> BitFlyerWebSocketHandler<H> {
    /// The identifier of the authentication whose answer is awaited.
    pub closed spec fn awaited(self) -> Option<Seq<char>> {
        optional_text(self.auth_id)
    }

    /// What takes the messages that the handler passes on.
    pub fn receiver_mut(&mut self) -> (receiver: &mut H)
        ensures
            *receiver == old(self).receiver(),
            final(self).receiver() == *final(receiver),
            final(self).held() == old(self).held(),
            final(self).awaited() == old(self).awaited(),
    {
        &mut self.message_handler
    }

    /// The messages to send when a connection has been started now.
    pub fn handle_start(&mut self) -> (messages: Vec<WebSocketMessage>)
        ensures
            final(self).held() == old(self).held(),
            final(self).receiver() == old(self).receiver(),
            exists|nanos: nat, nonce: Seq<char>|
                nonce.len() == 16 && messages_view(messages) == bitflyer_start(
                    old(self).held()@,
                    nanos,
                    nonce,
                ) && final(self).awaited() == if bitflyer_authenticates(old(self).held()@) {
                    Some(bitflyer_auth_id(nanos as u128))
                } else {
                    old(self).awaited()
                },
    {
        let time = unix_time();
        let nonce = random_alphanumeric(16);
        let ghost nanos = duration_nanos(time);
        let ghost drawn = nonce@;
        let messages = self.handle_start_with(time, nonce);
        assert(drawn.len() == 16 && messages_view(messages) == bitflyer_start(
            old(self).held()@,
            nanos,
            drawn,
        ) && self.awaited() == if bitflyer_authenticates(old(self).held()@) {
            Some(bitflyer_auth_id(nanos as u128))
        } else {
            old(self).awaited()
        });
        messages
    }

    /// The messages to send when a connection has been started at `time`
    /// since the Unix epoch, with `nonce` drawn for it.
    pub fn handle_start_with(&mut self, time: Duration, nonce: String) -> (messages: Vec<
        WebSocketMessage,
    >)
        ensures
            final(self).held() == old(self).held(),
            final(self).receiver() == old(self).receiver(),
            messages_view(messages) == bitflyer_start(old(self).held()@, duration_nanos(time), nonce@),
            final(self).awaited() == if bitflyer_authenticates(old(self).held()@) {
                Some(bitflyer_auth_id(duration_nanos(time) as u128))
            } else {
                old(self).awaited()
            },
    {
        if self.options.websocket_auth {
            match (&self.options.key, &self.options.secret) {
                (Some(key), Some(secret)) => {
                    let timestamp = #[verifier::truncate] (time.as_millis() as u64);
                    let signed = joined(decimal(timestamp as u128).as_str(), nonce.as_str());
                    let signature = sign(secret.as_str(), signed.as_str());
                    let id = joined("_auth", decimal(time.as_nanos()).as_str());
                    let mut params: Vec<(String, serde_json::Value)> = Vec::new();
                    params.push(("api_key".to_owned(), text_value(key.as_str())));
                    params.push(("timestamp".to_owned(), number_value(timestamp)));
                    params.push(("nonce".to_owned(), text_value(nonce.as_str())));
                    params.push(("signature".to_owned(), text_value(signature.as_str())));
                    let mut members: Vec<(String, serde_json::Value)> = Vec::new();
                    members.push(("method".to_owned(), text_value("auth")));
                    proof {
                        assert(members_view(params) =~= seq![
                            ("api_key"@, json_of_text(key@)),
                            ("timestamp"@, json_of_number(timestamp)),
                            ("nonce"@, json_of_text(nonce@)),
                            ("signature"@, json_of_text(signature@)),
                        ]);
                    }
                    let ghost inner = members_view(params);
                    members.push(("params".to_owned(), object_value(params)));
                    members.push(("id".to_owned(), text_value(id.as_str())));
                    proof {
                        assert(members_view(members) =~= seq![
                            ("method"@, json_of_text("auth"@)),
                            ("params"@, json_of_members(inner)),
                            ("id"@, json_of_text(id@)),
                        ]);
                    }
                    let message = WebSocketMessage::Text(write_json(&object_value(members)));
                    let mut messages: Vec<WebSocketMessage> = Vec::new();
                    messages.push(message);
                    proof {
                        assert(messages_view(messages) =~= seq![message@]);
                    }
                    self.auth_id = Some(id);
                    return messages;
                },
                _ => {},
            }
        }
        self.message_subscribe()
    }

    /// One subscription for each channel of the options.
    #[inline]
    pub fn message_subscribe(&self) -> (messages: Vec<WebSocketMessage>)
        ensures
            messages_view(messages) == bitflyer_subscriptions(self.held()@.websocket_channels),
    {
        let mut messages: Vec<WebSocketMessage> = Vec::new();
        let mut i: usize = 0;
        while i < self.options.websocket_channels.len()
            invariant
                i <= self.options.websocket_channels.len(),
                messages_view(messages) == bitflyer_subscriptions(
                    self.options.websocket_channels.deep_view().subrange(0, i as int),
                ),
            decreases self.options.websocket_channels.len() - i,
        {
            let channel = &self.options.websocket_channels[i];
            let mut params: Vec<(String, serde_json::Value)> = Vec::new();
            params.push(("channel".to_owned(), text_value(channel.as_str())));
            let ghost inner = members_view(params);
            let mut members: Vec<(String, serde_json::Value)> = Vec::new();
            members.push(("method".to_owned(), text_value("subscribe")));
            members.push(("params".to_owned(), object_value(params)));
            proof {
                assert(inner =~= seq![("channel"@, json_of_text(channel@))]);
                assert(members_view(members) =~= seq![
                    ("method"@, json_of_text("subscribe"@)),
                    ("params"@, json_of_members(inner)),
                ]);
            }
            let ghost before = messages_view(messages);
            let message = WebSocketMessage::Text(write_json(&object_value(members)));
            assert(message@ == bitflyer_subscribe(channel@));
            messages.push(message);
            proof {
                let channels = self.options.websocket_channels.deep_view();
                assert(channels[i as int] == channel@);
                assert(messages_view(messages) =~= before.push(bitflyer_subscribe(channel@)));
                assert(channels.subrange(0, i + 1) =~= channels.subrange(0, i as int).push(channel@));
                assert(bitflyer_subscriptions(channels.subrange(0, i + 1)) =~= bitflyer_subscriptions(
                    channels.subrange(0, i as int),
                ).push(bitflyer_subscribe(channel@)));
            }
            i += 1;
        }
        proof {
            let channels = self.options.websocket_channels.deep_view();
            assert(channels.subrange(0, i as int) =~= channels);
        }
        messages
    }

    /// Decides what becomes of a message that a connection brought.
    /// `parsed` is the message read as JSON-RPC, or `None` where it is no
    /// text or cannot be read so.
    pub fn route(&mut self, message: &WebSocketMessage, parsed: Option<JsonRpcMessage>) -> (routing:
        BitFlyerRouting)
        ensures
            final(self).held() == old(self).held(),
            final(self).receiver() == old(self).receiver(),
            routing@ == bitflyer_route(
                old(self).held()@,
                old(self).awaited(),
                message@,
                match parsed {
                    Some(parsed) => Some(parsed@),
                    None => None,
                },
            ).0,
            final(self).awaited() == bitflyer_route(
                old(self).held()@,
                old(self).awaited(),
                message@,
                match parsed {
                    Some(parsed) => Some(parsed@),
                    None => None,
                },
            ).1,
    {
        match message {
            WebSocketMessage::Text(_) => {},
            _ => {
                return BitFlyerRouting::Nothing;
            },
        }
        let parsed = match parsed {
            None => {
                return BitFlyerRouting::Nothing;
            },
            Some(parsed) => parsed,
        };
        if self.options.websocket_auth && same_optional(&self.auth_id, &parsed.id) {
            let success = match &parsed.result {
                Some(result) => match as_bool(result) {
                    Some(value) => value,
                    None => false,
                },
                None => false,
            };
            if success {
                return BitFlyerRouting::Reply(self.message_subscribe());
            }
            self.auth_id = None;
            return BitFlyerRouting::Nothing;
        }
        let is_channel_message = match &parsed.method {
            Some(method) => same_text(method.as_str(), "channelMessage"),
            None => false,
        };
        if is_channel_message {
            match parsed.params {
                Some(params) => {
                    return BitFlyerRouting::Forward(params);
                },
                None => {},
            }
        }
        BitFlyerRouting::Nothing
    }
}

impl HandlerOptions for BitFlyerOptions {
    type OptionItem = BitFlyerOption;

    open spec fn with_option(self, option: BitFlyerOption) -> Self {
        match option {
            BitFlyerOption::Default => self,
            BitFlyerOption::Key(v) => BitFlyerOptions { key: Some(v), ..self },
            BitFlyerOption::Secret(v) => BitFlyerOptions { secret: Some(v), ..self },
            BitFlyerOption::HttpUrl(v) => BitFlyerOptions { http_url: v, ..self },
            BitFlyerOption::HttpAuth(v) => BitFlyerOptions { http_auth: v, ..self },
            BitFlyerOption::RequestConfig(v) => BitFlyerOptions { request_config: v, ..self },
            BitFlyerOption::WebSocketUrl(v) => BitFlyerOptions { websocket_url: v, ..self },
            BitFlyerOption::WebSocketAuth(v) => BitFlyerOptions { websocket_auth: v, ..self },
            BitFlyerOption::WebSocketChannels(v) => BitFlyerOptions { websocket_channels: v, ..self },
            BitFlyerOption::WebSocketConfig(v) => BitFlyerOptions { websocket_config: v, ..self },
        }
    }

    fn update(&mut self, option: Self::OptionItem) {
        match option {
            BitFlyerOption::Default => (),
            BitFlyerOption::Key(v) => self.key = Some(v),
            BitFlyerOption::Secret(v) => self.secret = Some(v),
            BitFlyerOption::HttpUrl(v) => self.http_url = v,
            BitFlyerOption::HttpAuth(v) => self.http_auth = v,
            BitFlyerOption::RequestConfig(v) => self.request_config = v,
            BitFlyerOption::WebSocketUrl(v) => self.websocket_url = v,
            BitFlyerOption::WebSocketAuth(v) => self.websocket_auth = v,
            BitFlyerOption::WebSocketChannels(v) => self.websocket_channels = v,
            BitFlyerOption::WebSocketConfig(v) => self.websocket_config = v,
        }
    }
}

impl Default for BitFlyerOptions {
    fn default() -> (options: Self)
        ensures
            options@ == default_bitflyer_options(),
    {
        let mut websocket_config = WebSocketConfig::new();
        websocket_config.ignore_duplicate_during_reconnection = true;
        let options = Self {
            key: None,
            secret: None,
            http_url: BitFlyerHttpUrl::Default,
            http_auth: false,
            request_config: RequestConfig::default(),
            websocket_url: BitFlyerWebSocketUrl::Default,
            websocket_auth: false,
            websocket_channels: Vec::new(),
            websocket_config,
        };
        assert(options.websocket_channels.deep_view() =~= Seq::<Seq<char>>::empty());
        options
    }
}

impl Clone for BitFlyerOptions {
    fn clone(&self) -> (copy: Self)
        ensures
            copy@ == self@,
    {
        Self {
            key: clone_optional(&self.key),
            secret: clone_optional(&self.secret),
            http_url: self.http_url,
            http_auth: self.http_auth,
            request_config: self.request_config.clone(),
            websocket_url: self.websocket_url,
            websocket_auth: self.websocket_auth,
            websocket_channels: clone_strings(&self.websocket_channels),
            websocket_config: self.websocket_config.clone(),
        }
    }
}

impl<'a, R: 'a> HttpOption<'a, R> for BitFlyerOption {
    type RequestHandler = BitFlyerRequestHandler<'a, R>;

    #[inline(always)]
    fn request_handler(options: BitFlyerOptions) -> (handler: BitFlyerRequestHandler<'a, R>)
        ensures
            BitFlyerRequestHandler::<R>::held(handler) == options,
    {
        BitFlyerRequestHandler::<'a, R> { options, _phantom: PhantomData }
    }
}

impl<H> WebSocketOption<H> for BitFlyerOption {
    type WebSocketHandler = BitFlyerWebSocketHandler<H>;

    #[inline(always)]
    fn websocket_handler(handler: H, options: BitFlyerOptions) -> (made: BitFlyerWebSocketHandler<H>)
        ensures
            BitFlyerWebSocketHandler::<H>::receiver(made) == handler,
            BitFlyerWebSocketHandler::<H>::held(made) == options,
    {
        BitFlyerWebSocketHandler { message_handler: handler, auth_id: None, options }
    }
}

impl HandlerOption for BitFlyerOption {
    type Options = BitFlyerOptions;
}

impl Default for BitFlyerOption {
    fn default() -> (option: Self)
        ensures
            option is Default,
    {
        Self::Default
    }
}

} // verus!
