//! Communicating with the [Bybit API](https://bybit-exchange.github.io/docs/spot/v3/#t-introduction).

use crate::http::{RequestConfig, RequestConfigView};
use crate::clock::unix_time;
use crate::json::{
    as_str, document_of, document_of_message, json_document, json_member, json_of_list, json_of_members,
    json_of_number, json_of_text, json_str, json_written, list_value, member, members_view, number_value,
    object_value, parse_json, text_value, write_json,
};
use crate::query::{
    first_of, first_value, form_document, form_document_of, form_pairs, form_pairs_of, pair_order,
    pairs_text, pairs_view, query_pairs, query_pairs_of, sorted, written,
};
use crate::request::{
    bare_view, body_text, built_view, headers_appended, headers_inserted, header_text, is_header_value,
    is_success, joined, status_is_success, BodyEncoding, EncodedBody, EncodedBodyView, RequestParts, RequestView,
};
use crate::signing::{decimal, decimal_text, sign, signature_text, signed_decimal, signed_decimal_text};
use crate::text::{clone_optional, clone_strings, optional_text, same_text};
use crate::traits::{HandlerOption, HandlerOptions, HttpOption, WebSocketOption};
use crate::websocket::{
    messages_view, MessageView, WebSocketConfig, WebSocketConfigView, WebSocketMessage,
};
use std::marker::PhantomData;
use vstd::prelude::*;
use vstd::utf8::encode_utf8;

verus! {

/// Options that can be set when creating handlers
pub enum BybitOption {
    /// [`Default`] variant, does nothing
    Default,
    /// API key
    Key(String),
    /// Api secret
    Secret(String),
    /// Base url for HTTP requests
    HttpUrl(BybitHttpUrl),
    /// Type of authentication used for HTTP requests.
    HttpAuth(BybitHttpAuth),
    /// receive window parameter used for requests
    RecvWindow(i32),
    /// [`RequestConfig`] used when sending requests.
    /// `url_prefix` will be overridden by [`HttpUrl`](Self::HttpUrl) unless `HttpUrl` is
    /// [`BybitHttpUrl::Unset`].
    RequestConfig(RequestConfig),
    /// Base url for WebSocket connections
    WebSocketUrl(BybitWebSocketUrl),
    /// Whether [`BybitWebSocketHandler`] should perform authentication
    WebSocketAuth(bool),
    /// The topics to subscribe to.
    WebSocketTopics(Vec<String>),
    /// [`WebSocketConfig`] used for creating connections.
    /// `url_prefix` will be overridden by [`WebSocketUrl`](Self::WebSocketUrl) unless
    /// `WebSocketUrl` is [`BybitWebSocketUrl::Unset`].
    /// By default, `ignore_duplicate_during_reconnection` is set to `true`.
    WebSocketConfig(WebSocketConfig),
}

/// A `struct` that represents a set of [`BybitOption`]s.
#[derive(Debug)]
pub struct BybitOptions {
    /// see [`BybitOption::Key`]
    pub key: Option<String>,
    /// see [`BybitOption::Secret`]
    pub secret: Option<String>,
    /// see [`BybitOption::HttpUrl`]
    pub http_url: BybitHttpUrl,
    /// see [`BybitOption::HttpAuth`]
    pub http_auth: BybitHttpAuth,
    /// see [`BybitOption::RecvWindow`]
    pub recv_window: Option<i32>,
    /// see [`BybitOption::RequestConfig`]
    pub request_config: RequestConfig,
    /// see [`BybitOption::WebSocketUrl`]
    pub websocket_url: BybitWebSocketUrl,
    /// see [`BybitOption::WebSocketAuth`]
    pub websocket_auth: bool,
    /// see [`BybitOption::WebSocketTopics`]
    pub websocket_topics: Vec<String>,
    /// see [`BybitOption::WebSocketConfig`]
    pub websocket_config: WebSocketConfig,
}

/// The mathematical content of a [`BybitOptions`].
pub ghost struct BybitOptionsView {
    pub key: Option<Seq<char>>,
    pub secret: Option<Seq<char>>,
    pub http_url: BybitHttpUrl,
    pub http_auth: BybitHttpAuth,
    pub recv_window: Option<i32>,
    pub request_config: RequestConfigView,
    pub websocket_url: BybitWebSocketUrl,
    pub websocket_auth: bool,
    pub websocket_topics: Seq<Seq<char>>,
    pub websocket_config: WebSocketConfigView,
}

/// A `enum` that represents the base url of the Bybit REST API.
#[derive(Debug, Eq, PartialEq, Copy, Clone, Structural)]
pub enum BybitHttpUrl {
    /// `https://api.bybit.com`
    Bybit,
    /// `https://api.bytick.com`
    Bytick,
    /// `https://api-testnet.bybit.com`
    Test,
    /// The url will not be modified by [`BybitRequestHandler`]
    Unset,
}

/// A `enum` that represents the base url of the Bybit WebSocket API.
#[derive(Debug, Eq, PartialEq, Copy, Clone, Structural)]
pub enum BybitWebSocketUrl {
    /// `wss://stream.bybit.com`
    Bybit,
    /// `wss://stream.bytick.com`
    Bytick,
    /// `wss://stream-testnet.bybit.com`
    Test,
    /// The url will not be modified by [`BybitWebSocketHandler`]
    Unset,
}

/// Represents the auth type.
#[derive(Debug, Eq, PartialEq, Copy, Clone, Structural)]
pub enum BybitHttpAuth {
    /// [Spot V1](https://bybit-exchange.github.io/docs-legacy/spot/v1/#t-introduction)
    SpotV1,
    /// "Previous Version" APIs except for Spot V1, USDC Option and USDC Perpetual
    BelowV3,
    /// [USDC Option](https://bybit-exchange.github.io/docs-legacy/usdc/option/#t-introduction) and
    /// [USDC Perpetual](https://bybit-exchange.github.io/docs-legacy/usdc/perpetual/#t-introduction)
    UsdcContractV1,
    /// [V3](https://bybit-exchange.github.io/docs/v3/intro) and [V5](https://bybit-exchange.github.io/docs/v5/intro)
    V3AndAbove,
    /// No authentication (for public APIs)
    NoAuth,
}

/// What a request handler returns for a response that was not a success.
#[derive(Debug)]
pub enum BybitHandlerError {
    /// The exchange answered with an error of its own.
    ApiError(serde_json::Value),
    /// The exchange answered that this address is banned.
    IpBan(serde_json::Value),
    /// The response could not be read.
    ParseError,
}

/// A `struct` that builds and reads HTTP requests for Bybit.
pub struct BybitRequestHandler<'a, R> {
    options: BybitOptions,
    _phantom: PhantomData<&'a R>,
}

/// A `struct` that handles the WebSocket events of Bybit.
pub struct BybitWebSocketHandler<H> {
    message_handler: H,
    options: BybitOptions,
}

impl View for BybitOptions {
    type V = BybitOptionsView;

    open spec fn view(&self) -> BybitOptionsView {
        BybitOptionsView {
            key: optional_text(self.key),
            secret: optional_text(self.secret),
            http_url: self.http_url,
            http_auth: self.http_auth,
            recv_window: self.recv_window,
            request_config: self.request_config@,
            websocket_url: self.websocket_url,
            websocket_auth: self.websocket_auth,
            websocket_topics: self.websocket_topics.deep_view(),
            websocket_config: self.websocket_config@,
        }
    }
}

impl BybitHttpUrl {
    /// The URL that this variant represents, as a sequence of characters.
    pub open spec fn text(self) -> Seq<char> {
        match self {
            Self::Bybit => "https://api.bybit.com"@,
            Self::Bytick => "https://api.bytick.com"@,
            Self::Test => "https://api-testnet.bybit.com"@,
            Self::Unset => ""@,
        }
    }

    /// The URL that this variant represents.
    #[inline(always)]
    pub fn as_str(&self) -> (url: &'static str)
        ensures
            url@ == self.text(),
    {
        match self {
            Self::Bybit => "https://api.bybit.com",
            Self::Bytick => "https://api.bytick.com",
            Self::Test => "https://api-testnet.bybit.com",
            Self::Unset => "",
        }
    }
}

impl BybitWebSocketUrl {
    /// The URL that this variant represents, as a sequence of characters.
    pub open spec fn text(self) -> Seq<char> {
        match self {
            Self::Bybit => "wss://stream.bybit.com"@,
            Self::Bytick => "wss://stream.bytick.com"@,
            Self::Test => "wss://stream-testnet.bybit.com"@,
            Self::Unset => ""@,
        }
    }

    /// The URL that this variant represents.
    #[inline(always)]
    pub fn as_str(&self) -> (url: &'static str)
        ensures
            url@ == self.text(),
    {
        match self {
            Self::Bybit => "wss://stream.bybit.com",
            Self::Bytick => "wss://stream.bytick.com",
            Self::Test => "wss://stream-testnet.bybit.com",
            Self::Unset => "",
        }
    }
}

/// The request configuration of a handler: the one from its options, with
/// the prefix replaced by the base url unless that is `Unset`.
pub open spec fn bybit_request_config(options: BybitOptionsView) -> RequestConfigView {
    if options.http_url != BybitHttpUrl::Unset {
        RequestConfigView { url_prefix: options.http_url.text(), ..options.request_config }
    } else {
        options.request_config
    }
}

/// The WebSocket configuration of a handler: the one from its options, with
/// the prefix replaced by the base url unless that is `Unset`.
pub open spec fn bybit_websocket_config(options: BybitOptionsView) -> WebSocketConfigView {
    if options.websocket_url != BybitWebSocketUrl::Unset {
        WebSocketConfigView { url_prefix: options.websocket_url.text(), ..options.websocket_config }
    } else {
        options.websocket_config
    }
}

/// The options of a client that was told nothing: no credentials, the
/// main base urls, no authentication, no receive window, no topics, and a
/// WebSocket session that withholds duplicates while it reconnects.
pub open spec fn default_bybit_options() -> BybitOptionsView {
    BybitOptionsView {
        key: None,
        secret: None,
        http_url: BybitHttpUrl::Bybit,
        http_auth: BybitHttpAuth::NoAuth,
        recv_window: None,
        request_config: crate::http::default_request_config(),
        websocket_url: BybitWebSocketUrl::Bybit,
        websocket_auth: false,
        websocket_topics: Seq::empty(),
        websocket_config: WebSocketConfigView {
            ignore_duplicate_during_reconnection: true,
            ..crate::websocket::config::default_websocket_config()
        },
    }
}

impl<'a, R> BybitRequestHandler<'a, R> {
    /// The options that the handler was made with.
    pub closed spec fn held(self) -> BybitOptions {
        self.options
    }

    /// The options that the handler was made with.
    pub fn options(&self) -> (options: &BybitOptions)
        ensures
            *options == self.held(),
    {
        &self.options
    }

    /// The configuration of the requests that this handler builds.
    pub fn request_config(&self) -> (config: RequestConfig)
        ensures
            config@ == bybit_request_config(self.held()@),
    {
        let mut config = self.options.request_config.clone();
        if self.options.http_url != BybitHttpUrl::Unset {
            config.url_prefix = self.options.http_url.as_str().to_owned();
        }
        config
    }
}

impl<H> BybitWebSocketHandler<H> {
    /// The options that the handler was made with.
    pub closed spec fn held(self) -> BybitOptions {
        self.options
    }

    /// What takes the messages that the handler passes on.
    pub closed spec fn receiver(self) -> H {
        self.message_handler
    }

    /// The options that the handler was made with.
    pub fn options(&self) -> (options: &BybitOptions)
        ensures
            *options == self.held(),
    {
        &self.options
    }

    /// The handler's parts: what takes the messages, and the options.
    pub fn into_parts(self) -> (parts: (H, BybitOptions))
        ensures
            parts.0 == self.receiver(),
            parts.1 == self.held(),
    {
        (self.message_handler, self.options)
    }

    /// The configuration of the sessions that this handler serves.
    pub fn websocket_config(&self) -> (config: WebSocketConfig)
        ensures
            config@ == bybit_websocket_config(self.held()@),
    {
        let mut config = self.options.websocket_config.clone();
        if self.options.websocket_url != BybitWebSocketUrl::Unset {
            config.url_prefix = self.options.websocket_url.as_str().to_owned();
        }
        config
    }
}

/// The low 64 bits of a timestamp, which is all that a header carries.
pub open spec fn low_bits(timestamp: u128) -> u64 {
    timestamp as u64
}

/// The receive window as it is written, or nothing where none is set.
pub open spec fn window_text(window: Option<i32>) -> Seq<char> {
    match window {
        Some(window) => signed_decimal_text(window as int),
        None => Seq::empty(),
    }
}

/// Whether the parameters of a request travel in its query.
pub open spec fn in_query(request: RequestView) -> bool {
    request.method == "GET"@ || request.method == "DELETE"@
}

/// A request with its JSON body put in, if it has one.
pub open spec fn bybit_with_json(request: RequestView, body: EncodedBodyView) -> RequestView {
    match body {
        EncodedBodyView::Text(json) => RequestView {
            headers: headers_appended(request.headers, "content-type"@, "application/json"@),
            body: Some(json),
            ..request
        },
        _ => request,
    }
}

/// The request that the newer authentication signs: the request with its
/// body put in, and with an empty JSON object for a body where parameters
/// travel in the body and there are none.
pub open spec fn v3_filled(bare: RequestView, body: EncodedBodyView) -> RequestView {
    if !in_query(bare) && !(body is Text) {
        RequestView {
            headers: headers_inserted(bare.headers, "content-type"@, "application/json"@),
            body: Some("{}"@),
            ..bare
        }
    } else {
        bybit_with_json(bare, body)
    }
}

/// The text that the newer authentication signs: the timestamp, the key,
/// the receive window if one is set, and the parameters, which are the query
/// or the body.
pub open spec fn v3_sign_text(
    key: Seq<char>,
    timestamp: u128,
    window: Option<i32>,
    request: RequestView,
) -> Seq<char> {
    decimal_text(timestamp as nat) + key + window_text(window) + if in_query(request) {
        match request.query {
            Some(query) => query,
            None => Seq::empty(),
        }
    } else {
        body_text(request)
    }
}

/// The headers of a request under the newer authentication: the signature
/// type where it is asked for, the signature, the key, the timestamp, and
/// the receive window if one is set, each in the place of any header of the
/// same name.
pub open spec fn v3_headers(
    headers: Seq<(Seq<char>, Seq<char>)>,
    key: Seq<char>,
    timestamp: u128,
    signature: Seq<char>,
    version_header: bool,
    window: Option<i32>,
) -> Seq<(Seq<char>, Seq<char>)> {
    let typed = if version_header {
        headers_inserted(headers, "x-bapi-sign-type"@, "2"@)
    } else {
        headers
    };
    let stamped = headers_inserted(
        headers_inserted(headers_inserted(typed, "x-bapi-sign"@, signature), "x-bapi-api-key"@, key),
        "x-bapi-timestamp"@,
        decimal_text(low_bits(timestamp) as nat),
    );
    match window {
        Some(window) => headers_inserted(
            stamped,
            "x-bapi-recv-window"@,
            signed_decimal_text(window as int),
        ),
        None => stamped,
    }
}

/// The request that goes out under the newer authentication, or the reason
/// why none does.
///
/// `bare` is the request as the builder made it, if it could make one;
/// `body` is the body as JSON by way of a JSON document; `timestamp` is the
/// time in milliseconds since the Unix epoch.
pub open spec fn v3_request(
    key: Seq<char>,
    secret: Seq<char>,
    window: Option<i32>,
    version_header: bool,
    bare: Option<RequestView>,
    body: EncodedBodyView,
    timestamp: u128,
) -> Result<RequestView, Seq<char>> {
    if body is Failed {
        Err("could not serialize body as application/json"@)
    } else if bare is None {
        Err("failed to build request"@)
    } else if !header_text(key) {
        Err("invalid character in API key"@)
    } else {
        let request = v3_filled(bare.unwrap(), body);
        Ok(
            RequestView {
                headers: v3_headers(
                    request.headers,
                    key,
                    timestamp,
                    signature_text(
                        encode_utf8(secret),
                        encode_utf8(v3_sign_text(key, timestamp, window, request)),
                    ),
                    version_header,
                    window,
                ),
                ..request
            },
        )
    }
}

/// What a response amounts to. `parsed` is the body read as the type that
/// the caller expects; it is looked at only when the status reports a
/// success. Any other response is an error: a parse error if the body is no
/// JSON document, a ban for status 403, the exchange's own otherwise.
pub open spec fn bybit_response<R>(status: u16, parsed: Option<R>, body: Seq<u8>) -> Result<
    R,
    BybitHandlerError,
> {
    if status_is_success(status) {
        match parsed {
            Some(value) => Ok(value),
            None => Err(BybitHandlerError::ParseError),
        }
    } else {
        match json_document(body) {
            Some(document) => if status == 403 {
                Err(BybitHandlerError::IpBan(document))
            } else {
                Err(BybitHandlerError::ApiError(document))
            },
            None => Err(BybitHandlerError::ParseError),
        }
    }
}

impl<'a, R> BybitRequestHandler<'a, R> {
    /// Authenticates a request in the newer way, as of `timestamp`.
    pub fn v3_auth(
        bare: Option<RequestParts>,
        body: EncodedBody,
        key: &str,
        secret: &str,
        timestamp: u128,
        version_header: bool,
        window: Option<i32>,
    ) -> (built: Result<RequestParts, &'static str>)
        ensures
            built_view(built) == v3_request(
                key@,
                secret@,
                window,
                version_header,
                bare_view(bare),
                body@,
                timestamp,
            ),
    {
        let json = match body {
            EncodedBody::Failed => {
                return Err("could not serialize body as application/json");
            },
            EncodedBody::Absent => None,
            EncodedBody::Text(json) => Some(json),
        };
        let mut request = match bare {
            None => {
                return Err("failed to build request");
            },
            Some(request) => request,
        };
        let in_query = request.is_get_or_delete();
        match json {
            Some(json) => {
                request.append_header("content-type", "application/json".to_owned());
                request.body = Some(json);
            },
            None => {
                if !in_query {
                    request.body = Some("{}".to_owned());
                    request.insert_header("content-type", "application/json".to_owned());
                }
            },
        }
        let mut sign_contents = decimal(timestamp);
        sign_contents.append(key);
        match window {
            Some(window) => {
                sign_contents.append(signed_decimal(window).as_str());
            },
            None => {
                assert(sign_contents@ + Seq::<char>::empty() =~= sign_contents@);
            },
        }
        if in_query {
            match &request.query {
                Some(query) => {
                    sign_contents.append(query.as_str());
                },
                None => {
                    assert(sign_contents@ + Seq::<char>::empty() =~= sign_contents@);
                },
            }
        } else {
            sign_contents.append(request.body_or_empty().as_str());
        }
        let signature = sign(secret, sign_contents.as_str());
        if !is_header_value(key) {
            return Err("invalid character in API key");
        }
        if version_header {
            request.insert_header("x-bapi-sign-type", "2".to_owned());
        }
        request.insert_header("x-bapi-sign", signature);
        request.insert_header("x-bapi-api-key", key.to_owned());
        let low = #[verifier::truncate] (timestamp as u64);
        request.insert_header("x-bapi-timestamp", decimal(low as u128));
        match window {
            Some(window) => {
                request.insert_header("x-bapi-recv-window", signed_decimal(window));
            },
            None => {},
        }
        Ok(request)
    }

    /// Reads a response. `parsed` is the body read as the type that the
    /// caller expects, or `None` where it cannot be read so.
    pub fn handle_response(&self, status: u16, parsed: Option<R>, body: &[u8]) -> (outcome: Result<
        R,
        BybitHandlerError,
    >)
        ensures
            outcome == bybit_response(status, parsed, body@),
    {
        if is_success(status) {
            match parsed {
                Some(value) => Ok(value),
                None => Err(BybitHandlerError::ParseError),
            }
        } else {
            match parse_json(body) {
                Some(document) => {
                    if status == 403 {
                        Err(BybitHandlerError::IpBan(document))
                    } else {
                        Err(BybitHandlerError::ApiError(document))
                    }
                },
                None => Err(BybitHandlerError::ParseError),
            }
        }
    }
}

/// The name under which the receive window travels.
pub open spec fn window_name(spot: bool) -> Seq<char> {
    if spot {
        "recvWindow"@
    } else {
        "recv_window"@
    }
}

/// The parameters that the older authentication signs: the given ones,
/// the key and the timestamp, in ascending order, written out with `&`
/// between them.
pub open spec fn v1_parameters(
    pairs: Seq<(Seq<char>, Seq<char>)>,
    key: Seq<char>,
    timestamp: u128,
) -> Seq<char> {
    pairs_text(
        pairs.push(("api_key"@, key)).push(("timestamp"@, decimal_text(timestamp as nat))).sort_by(
            pair_order(),
        ),
    )
}

/// Signed parameters: the parameters, then their signature under the name
/// `sign`.
pub open spec fn v1_signed(parameters: Seq<char>, secret: Seq<char>) -> Seq<char> {
    parameters + "&sign="@ + signature_text(encode_utf8(secret), encode_utf8(parameters))
}

/// The parameters of a request whose parameters travel in the query: those
/// of the query, unescaped, and the receive window if one is set.
pub open spec fn v1_query_pairs(request: RequestView, window: Option<i32>, spot: bool) -> Seq<
    (Seq<char>, Seq<char>),
> {
    let pairs = query_pairs(
        match request.query {
            Some(query) => query,
            None => Seq::empty(),
        },
    );
    match window {
        Some(window) => pairs.push((window_name(spot), signed_decimal_text(window as int))),
        None => pairs,
    }
}

/// The form-encoded body with the receive window behind it, if one is set.
pub open spec fn v1_form(body: Seq<char>, window: Option<i32>, spot: bool) -> Seq<char> {
    match window {
        Some(window) => (if body.len() == 0 {
            body
        } else {
            body + "&"@
        }) + window_name(spot) + "="@ + signed_decimal_text(window as int),
        None => body,
    }
}

/// The content type that goes with the older authentication.
pub open spec fn v1_content_type(spot: bool) -> Seq<char> {
    if spot {
        "application/x-www-form-urlencoded"@
    } else {
        "application/json"@
    }
}

/// Why a body could not be encoded for the older authentication.
pub open spec fn v1_encoding_error(spot: bool) -> Seq<char> {
    if spot {
        "could not serialize body as application/x-www-form-urlencoded"@
    } else {
        "could not serialize body as application/json"@
    }
}

/// The request that goes out under the older authentication, or the reason
/// why none does.
///
/// `bare` is the request as the builder made it, if it could make one;
/// `body` is the body in the encoding that [`v1_encoding`] names;
/// `timestamp` is the time in milliseconds since the Unix epoch.
///
/// Where the parameters travel in the query, the query is replaced by the
/// signed parameters and the body goes along as it is. Where they travel in
/// the body, the body is replaced by the signed parameters: form-encoded
/// for the spot API, as a JSON object elsewhere.
pub open spec fn v1_request(
    key: Seq<char>,
    secret: Seq<char>,
    window: Option<i32>,
    spot: bool,
    bare: Option<RequestView>,
    body: EncodedBodyView,
    timestamp: u128,
) -> Result<RequestView, Seq<char>> {
    if bare is None {
        Err("failed to build request"@)
    } else if in_query(bare.unwrap()) {
        let request = bare.unwrap();
        let signed = v1_signed(v1_parameters(v1_query_pairs(request, window, spot), key, timestamp), secret);
        match body {
            EncodedBodyView::Failed => Err(v1_encoding_error(spot)),
            EncodedBodyView::Absent => Ok(RequestView { query: Some(signed), ..request }),
            EncodedBodyView::Text(encoded) => Ok(
                RequestView {
                    query: Some(signed),
                    body: Some(encoded),
                    headers: headers_inserted(request.headers, "content-type"@, v1_content_type(spot)),
                    ..request
                },
            ),
        }
    } else if body is Failed {
        Err("could not serialize body as application/x-www-form-urlencoded"@)
    } else {
        let request = bare.unwrap();
        let form = v1_form(
            match body {
                EncodedBodyView::Text(encoded) => encoded,
                _ => Seq::empty(),
            },
            window,
            spot,
        );
        let signed = v1_signed(v1_parameters(form_pairs(form), key, timestamp), secret);
        if spot {
            Ok(
                RequestView {
                    body: Some(signed),
                    headers: headers_inserted(request.headers, "content-type"@, v1_content_type(true)),
                    ..request
                },
            )
        } else {
            match form_document(signed) {
                Some(document) => Ok(
                    RequestView {
                        body: Some(json_written(document)),
                        headers: headers_inserted(
                            request.headers,
                            "content-type"@,
                            v1_content_type(false),
                        ),
                        ..request
                    },
                ),
                None => Err("could not serialize body as application/json"@),
            }
        }
    }
}

/// The encoding in which a request wants its body.
///
/// Without authentication the body is plain JSON. The newer authentication
/// signs the body as a JSON document writes it. The older one signs
/// form-encoded parameters; only where the parameters travel in the query
/// and the API is not the spot API does the body go along as plain JSON.
pub open spec fn bybit_encoding(auth: BybitHttpAuth, query_method: bool) -> BodyEncoding {
    match auth {
        BybitHttpAuth::NoAuth => BodyEncoding::Json,
        BybitHttpAuth::SpotV1 => BodyEncoding::UrlEncoded,
        BybitHttpAuth::BelowV3 => if query_method {
            BodyEncoding::Json
        } else {
            BodyEncoding::UrlEncoded
        },
        BybitHttpAuth::UsdcContractV1 => BodyEncoding::JsonDocument,
        BybitHttpAuth::V3AndAbove => BodyEncoding::JsonDocument,
    }
}

/// The request that goes out, or the reason why none does.
///
/// `bare` is the request as the builder made it, if it could make one;
/// `body` is the body in the encoding that [`bybit_encoding`] names;
/// `timestamp` is the time in milliseconds since the Unix epoch.
pub open spec fn bybit_request(
    options: BybitOptionsView,
    bare: Option<RequestView>,
    body: EncodedBodyView,
    timestamp: u128,
) -> Result<RequestView, Seq<char>> {
    if options.http_auth == BybitHttpAuth::NoAuth {
        if body is Failed {
            Err("could not serialize body as application/json"@)
        } else if bare is None {
            Err("failed to build request"@)
        } else {
            Ok(bybit_with_json(bare.unwrap(), body))
        }
    } else if options.key is None {
        Err("API key not set"@)
    } else if options.secret is None {
        Err("API secret not set"@)
    } else {
        let key = options.key.unwrap();
        let secret = options.secret.unwrap();
        match options.http_auth {
            BybitHttpAuth::SpotV1 => v1_request(
                key,
                secret,
                options.recv_window,
                true,
                bare,
                body,
                timestamp,
            ),
            BybitHttpAuth::BelowV3 => v1_request(
                key,
                secret,
                options.recv_window,
                false,
                bare,
                body,
                timestamp,
            ),
            BybitHttpAuth::UsdcContractV1 => v3_request(
                key,
                secret,
                options.recv_window,
                true,
                bare,
                body,
                timestamp,
            ),
            _ => v3_request(key, secret, options.recv_window, false, bare, body, timestamp),
        }
    }
}

impl<'a, R> BybitRequestHandler<'a, R> {
    /// The encoding in which this handler wants the body of a request
    /// whose method is `method`.
    pub fn body_encoding(&self, method: &str) -> (encoding: BodyEncoding)
        ensures
            encoding == bybit_encoding(
                self.held()@.http_auth,
                method@ == "GET"@ || method@ == "DELETE"@,
            ),
    {
        match self.options.http_auth {
            BybitHttpAuth::NoAuth => BodyEncoding::Json,
            BybitHttpAuth::SpotV1 => BodyEncoding::UrlEncoded,
            BybitHttpAuth::BelowV3 => {
                if same_text(method, "GET") || same_text(method, "DELETE") {
                    BodyEncoding::Json
                } else {
                    BodyEncoding::UrlEncoded
                }
            },
            BybitHttpAuth::UsdcContractV1 => BodyEncoding::JsonDocument,
            BybitHttpAuth::V3AndAbove => BodyEncoding::JsonDocument,
        }
    }

    /// Finishes a request: puts the body in and, if the options ask for
    /// it, authenticates the request as of now.
    pub fn build_request(&self, bare: Option<RequestParts>, body: EncodedBody) -> (built: Result<
        RequestParts,
        &'static str,
    >)
        ensures
            exists|timestamp: u128|
                built_view(built) == bybit_request(self.held()@, bare_view(bare), body@, timestamp),
    {
        let time = unix_time();
        let timestamp = time.as_millis();
        let built = self.build_request_at(bare, body, timestamp);
        assert(built_view(built) == bybit_request(self.held()@, bare_view(bare), body@, timestamp));
        built
    }

    /// Finishes a request as of `timestamp`, in milliseconds since the Unix
    /// epoch.
    pub fn build_request_at(&self, bare: Option<RequestParts>, body: EncodedBody, timestamp: u128) -> (built:
        Result<RequestParts, &'static str>)
        ensures
            built_view(built) == bybit_request(self.held()@, bare_view(bare), body@, timestamp),
    {
        let window = self.options.recv_window;
        let (spot, newer) = match self.options.http_auth {
            BybitHttpAuth::NoAuth => {
                let json = match body {
                    EncodedBody::Failed => {
                        return Err("could not serialize body as application/json");
                    },
                    EncodedBody::Absent => None,
                    EncodedBody::Text(json) => Some(json),
                };
                let mut request = match bare {
                    None => {
                        return Err("failed to build request");
                    },
                    Some(request) => request,
                };
                match json {
                    Some(json) => {
                        request.append_header("content-type", "application/json".to_owned());
                        request.body = Some(json);
                    },
                    None => {},
                }
                return Ok(request);
            },
            BybitHttpAuth::SpotV1 => (true, false),
            BybitHttpAuth::BelowV3 => (false, false),
            BybitHttpAuth::UsdcContractV1 => (true, true),
            BybitHttpAuth::V3AndAbove => (false, true),
        };
        let key = match &self.options.key {
            None => {
                return Err("API key not set");
            },
            Some(key) => key,
        };
        let secret = match &self.options.secret {
            None => {
                return Err("API secret not set");
            },
            Some(secret) => secret,
        };
        if newer {
            Self::v3_auth(bare, body, key.as_str(), secret.as_str(), timestamp, spot, window)
        } else {
            Self::v1_auth(bare, body, key.as_str(), secret.as_str(), timestamp, spot, window)
        }
    }

    /// The given parameters with the key and the timestamp, in ascending
    /// order, written out with `&` between them.
    fn sort_and_add(pairs: Vec<(String, String)>, key: &str, timestamp: u128) -> (text: String)
        ensures
            text@ == v1_parameters(pairs_view(pairs), key@, timestamp),
    {
        let ghost given = pairs_view(pairs);
        let mut pairs = pairs;
        pairs.push(("api_key".to_owned(), key.to_owned()));
        pairs.push(("timestamp".to_owned(), decimal(timestamp)));
        proof {
            assert(pairs_view(pairs) =~= given.push(("api_key"@, key@)).push(
                ("timestamp"@, decimal_text(timestamp as nat)),
            ));
        }
        let ordered = sorted(pairs);
        written(&ordered)
    }

    /// Parameters with their signature behind them.
    fn with_signature(parameters: String, secret: &str) -> (signed: String)
        ensures
            signed@ == v1_signed(parameters@, secret@),
    {
        let signature = sign(secret, parameters.as_str());
        let mut signed = parameters;
        signed.append("&sign=");
        signed.append(signature.as_str());
        signed
    }

    /// Authenticates a request in the older way, as of `timestamp`.
    pub fn v1_auth(
        bare: Option<RequestParts>,
        body: EncodedBody,
        key: &str,
        secret: &str,
        timestamp: u128,
        spot: bool,
        window: Option<i32>,
    ) -> (built: Result<RequestParts, &'static str>)
        ensures
            built_view(built) == v1_request(
                key@,
                secret@,
                window,
                spot,
                bare_view(bare),
                body@,
                timestamp,
            ),
    {
        let mut request = match bare {
            None => {
                return Err("failed to build request");
            },
            Some(request) => request,
        };
        let window_name = if spot {
            "recvWindow"
        } else {
            "recv_window"
        };
        let content_type = if spot {
            "application/x-www-form-urlencoded"
        } else {
            "application/json"
        };
        if request.is_get_or_delete() {
            let mut queries = match &request.query {
                Some(query) => query_pairs_of(query.as_str()),
                None => query_pairs_of(""),
            };
            proof {
                reveal_strlit("");
                assert(""@ =~= Seq::<char>::empty());
            }
            match window {
                Some(window) => {
                    let ghost before = pairs_view(queries);
                    queries.push((window_name.to_owned(), signed_decimal(window)));
                    proof {
                        assert(pairs_view(queries) =~= before.push(
                            (window_name@, signed_decimal_text(window as int)),
                        ));
                    }
                },
                None => {},
            }
            let query = Self::sort_and_add(queries, key, timestamp);
            request.query = Some(Self::with_signature(query, secret));
            match body {
                EncodedBody::Failed => {
                    return Err(
                        if spot {
                            "could not serialize body as application/x-www-form-urlencoded"
                        } else {
                            "could not serialize body as application/json"
                        },
                    );
                },
                EncodedBody::Absent => {},
                EncodedBody::Text(encoded) => {
                    request.body = Some(encoded);
                    request.insert_header("content-type", content_type.to_owned());
                },
            }
        } else {
            let mut form = match body {
                EncodedBody::Failed => {
                    return Err("could not serialize body as application/x-www-form-urlencoded");
                },
                EncodedBody::Absent => String::new(),
                EncodedBody::Text(encoded) => encoded,
            };
            match window {
                Some(window) => {
                    if form.as_str().unicode_len() > 0 {
                        form.append("&");
                    }
                    form.append(window_name);
                    form.append("=");
                    form.append(signed_decimal(window).as_str());
                },
                None => {},
            }
            let pairs = form_pairs_of(form.as_str());
            let signed = Self::with_signature(Self::sort_and_add(pairs, key, timestamp), secret);
            if spot {
                request.body = Some(signed);
                request.insert_header("content-type", content_type.to_owned());
            } else {
                match form_document_of(signed.as_str()) {
                    Some(document) => {
                        request.body = Some(write_json(&document));
                        request.insert_header("content-type", content_type.to_owned());
                    },
                    None => {
                        return Err("could not serialize body as application/json");
                    },
                }
            }
        }
        Ok(request)
    }
}

/// The request that goes out under the first authentication of the previous
/// API generation, or the reason why none does.
///
/// Where the parameters travel in the query, this is the older
/// authentication without a receive window. Where they travel in the body,
/// the body is replaced by the sorted parameters with the signature right
/// behind them; only the spot API can be served that way.
pub open spec fn type1_request(
    key: Seq<char>,
    secret: Seq<char>,
    spot: bool,
    bare: Option<RequestView>,
    body: EncodedBodyView,
    timestamp: u128,
) -> Result<RequestView, Seq<char>> {
    if bare is None {
        Err("failed to build request"@)
    } else if in_query(bare.unwrap()) {
        v1_request(key, secret, None, spot, bare, body, timestamp)
    } else if body is Failed {
        Err("could not serialize body as application/x-www-form-urlencoded"@)
    } else if !spot {
        Err("body must to serializable as a JSON object"@)
    } else {
        let parameters = v1_parameters(
            form_pairs(
                match body {
                    EncodedBodyView::Text(encoded) => encoded,
                    _ => Seq::empty(),
                },
            ),
            key,
            timestamp,
        );
        Ok(
            RequestView {
                body: Some(
                    parameters + "sign="@ + signature_text(encode_utf8(secret), encode_utf8(parameters)),
                ),
                headers: headers_inserted(
                    bare.unwrap().headers,
                    "content-type"@,
                    "application/x-www-form-urlencoded"@,
                ),
                ..bare.unwrap()
            },
        )
    }
}

/// The receive window that a request names itself: in its query where the
/// parameters travel there, unescaped, else in its JSON body, as JSON
/// writes it.
pub open spec fn type2_window(request: RequestView, spot: bool) -> Option<Seq<char>> {
    if in_query(request) {
        first_value(
            query_pairs(
                match request.query {
                    Some(query) => query,
                    None => Seq::empty(),
                },
            ),
            window_name(spot),
        )
    } else {
        match request.body {
            Some(body) => match json_document(encode_utf8(body)) {
                Some(document) => match json_member(document, window_name(spot)) {
                    Some(window) => Some(json_written(window)),
                    None => None,
                },
                None => None,
            },
            None => None,
        }
    }
}

/// The text that the second authentication of the previous API generation
/// signs: the timestamp, the key, the receive window if the request names
/// one, and the parameters, which are the query or the body.
pub open spec fn type2_sign_text(
    key: Seq<char>,
    timestamp: u128,
    window: Option<Seq<char>>,
    request: RequestView,
) -> Seq<char> {
    decimal_text(timestamp as nat) + key + (match window {
        Some(window) => window,
        None => Seq::empty(),
    }) + if in_query(request) {
        match request.query {
            Some(query) => query,
            None => Seq::empty(),
        }
    } else {
        body_text(request)
    }
}

/// The headers of a request under the second authentication of the
/// previous API generation.
pub open spec fn type2_headers(
    headers: Seq<(Seq<char>, Seq<char>)>,
    key: Seq<char>,
    timestamp: u128,
    signature: Seq<char>,
    window: Option<Seq<char>>,
) -> Seq<(Seq<char>, Seq<char>)> {
    let stamped = headers_inserted(
        headers_inserted(
            headers_inserted(
                headers_inserted(headers, "x-bapi-sign-type"@, "2"@),
                "x-bapi-sign"@,
                signature,
            ),
            "x-bapi-api-key"@,
            key,
        ),
        "x-bapi-timestamp"@,
        decimal_text(low_bits(timestamp) as nat),
    );
    match window {
        Some(window) => headers_inserted(stamped, "x-bapi-recv-window"@, window),
        None => stamped,
    }
}

/// The request that goes out under the second authentication of the
/// previous API generation, or the reason why none does.
///
/// `bare` is the request as the builder made it, if it could make one;
/// `body` is the body as JSON by way of a JSON document; `timestamp` is the
/// time in milliseconds since the Unix epoch.
pub open spec fn type2_request(
    key: Seq<char>,
    secret: Seq<char>,
    spot: bool,
    bare: Option<RequestView>,
    body: EncodedBodyView,
    timestamp: u128,
) -> Result<RequestView, Seq<char>> {
    if body is Failed {
        Err("could not serialize body as application/json"@)
    } else if bare is None {
        Err("failed to build reqeust"@)
    } else {
        let request = bybit_with_json(bare.unwrap(), body);
        let window = type2_window(request, spot);
        if !header_text(key) {
            Err("invalid character in API key"@)
        } else if window is Some && !header_text(window.unwrap()) {
            Err("invalid character in recv window"@)
        } else {
            Ok(
                RequestView {
                    headers: type2_headers(
                        request.headers,
                        key,
                        timestamp,
                        signature_text(
                            encode_utf8(secret),
                            encode_utf8(type2_sign_text(key, timestamp, window, request)),
                        ),
                        window,
                    ),
                    ..request
                },
            )
        }
    }
}

impl<'a, R> BybitRequestHandler<'a, R> {
    /// Authenticates a request in the first way of the previous API
    /// generation, as of `timestamp`.
    pub fn type1_auth(
        bare: Option<RequestParts>,
        body: EncodedBody,
        key: &str,
        secret: &str,
        timestamp: u128,
        spot: bool,
    ) -> (built: Result<RequestParts, &'static str>)
        ensures
            built_view(built) == type1_request(key@, secret@, spot, bare_view(bare), body@, timestamp),
    {
        let mut request = match bare {
            None => {
                return Err("failed to build request");
            },
            Some(request) => request,
        };
        if request.is_get_or_delete() {
            return Self::v1_auth(Some(request), body, key, secret, timestamp, spot, None);
        }
        let form = match body {
            EncodedBody::Failed => {
                return Err("could not serialize body as application/x-www-form-urlencoded");
            },
            EncodedBody::Absent => String::new(),
            EncodedBody::Text(encoded) => encoded,
        };
        if !spot {
            return Err("body must to serializable as a JSON object");
        }
        let parameters = Self::sort_and_add(form_pairs_of(form.as_str()), key, timestamp);
        let signature = sign(secret, parameters.as_str());
        let mut signed = parameters;
        signed.append("sign=");
        signed.append(signature.as_str());
        request.body = Some(signed);
        request.insert_header("content-type", "application/x-www-form-urlencoded".to_owned());
        Ok(request)
    }

    /// The receive window that a request names itself.
    fn named_window(request: &RequestParts, spot: bool) -> (window: Option<String>)
        ensures
            optional_text(window) == type2_window(request@, spot),
    {
        let name = if spot {
            "recvWindow"
        } else {
            "recv_window"
        };
        if request.is_get_or_delete() {
            let pairs = match &request.query {
                Some(query) => query_pairs_of(query.as_str()),
                None => query_pairs_of(""),
            };
            proof {
                reveal_strlit("");
                assert(""@ =~= Seq::<char>::empty());
            }
            first_of(&pairs, name)
        } else {
            match &request.body {
                Some(body) => match parse_json(body.as_str().as_bytes()) {
                    Some(document) => match member(&document, name) {
                        Some(window) => Some(write_json(window)),
                        None => None,
                    },
                    None => None,
                },
                None => None,
            }
        }
    }

    /// Authenticates a request in the second way of the previous API
    /// generation, as of `timestamp`.
    pub fn type2_auth(
        bare: Option<RequestParts>,
        body: EncodedBody,
        key: &str,
        secret: &str,
        timestamp: u128,
        spot: bool,
    ) -> (built: Result<RequestParts, &'static str>)
        ensures
            built_view(built) == type2_request(key@, secret@, spot, bare_view(bare), body@, timestamp),
    {
        let json = match body {
            EncodedBody::Failed => {
                return Err("could not serialize body as application/json");
            },
            EncodedBody::Absent => None,
            EncodedBody::Text(json) => Some(json),
        };
        let mut request = match bare {
            None => {
                return Err("failed to build reqeust");
            },
            Some(request) => request,
        };
        match json {
            Some(json) => {
                request.append_header("content-type", "application/json".to_owned());
                request.body = Some(json);
            },
            None => {},
        }
        let window = Self::named_window(&request, spot);
        let mut sign_contents = decimal(timestamp);
        sign_contents.append(key);
        match &window {
            Some(window) => {
                sign_contents.append(window.as_str());
            },
            None => {
                assert(sign_contents@ + Seq::<char>::empty() =~= sign_contents@);
            },
        }
        if request.is_get_or_delete() {
            match &request.query {
                Some(query) => {
                    sign_contents.append(query.as_str());
                },
                None => {
                    assert(sign_contents@ + Seq::<char>::empty() =~= sign_contents@);
                },
            }
        } else {
            sign_contents.append(request.body_or_empty().as_str());
        }
        let signature = sign(secret, sign_contents.as_str());
        if !is_header_value(key) {
            return Err("invalid character in API key");
        }
        match &window {
            Some(window) => {
                if !is_header_value(window.as_str()) {
                    return Err("invalid character in recv window");
                }
            },
            None => {},
        }
        request.insert_header("x-bapi-sign-type", "2".to_owned());
        request.insert_header("x-bapi-sign", signature);
        request.insert_header("x-bapi-api-key", key.to_owned());
        let low = #[verifier::truncate] (timestamp as u64);
        request.insert_header("x-bapi-timestamp", decimal(low as u128));
        match window {
            Some(window) => {
                request.insert_header("x-bapi-recv-window", window);
            },
            None => {},
        }
        Ok(request)
    }
}

/// What becomes of a message that a connection brought.
#[derive(Debug)]
pub enum BybitRouting {
    /// These messages are sent back.
    Reply(Vec<WebSocketMessage>),
    /// The receiver gets this document.
    Forward(serde_json::Value),
    /// Nothing happens.
    Nothing,
}

/// The mathematical content of a [`BybitRouting`].
pub ghost enum BybitRoutingView {
    Reply(Seq<MessageView>),
    Forward(serde_json::Value),
    Nothing,
}

impl View for BybitRouting {
    type V = BybitRoutingView;

    open spec fn view(&self) -> BybitRoutingView {
        match self {
            BybitRouting::Reply(messages) => BybitRoutingView::Reply(messages_view(*messages)),
            BybitRouting::Forward(document) => BybitRoutingView::Forward(*document),
            BybitRouting::Nothing => BybitRoutingView::Nothing,
        }
    }
}

/// The message that subscribes to `topics`.
pub open spec fn bybit_subscribe(topics: Seq<Seq<char>>) -> MessageView {
    MessageView::Text(
        json_written(
            json_of_members(
                seq![
                    ("op"@, json_of_text("subscribe"@)),
                    ("args"@, json_of_list(topics.map_values(|topic: Seq<char>| json_of_text(topic)))),
                ],
            ),
        ),
    )
}

/// The time until which an authentication made at `millis` is good: a
/// second later, in milliseconds since the Unix epoch.
pub open spec fn bybit_expiry(millis: u128) -> u64 {
    (millis as u64).wrapping_add(1000)
}

/// The message that authenticates a connection until `expires`.
pub open spec fn bybit_auth(key: Seq<char>, secret: Seq<char>, expires: u64) -> MessageView {
    MessageView::Text(
        json_written(
            json_of_members(
                seq![
                    ("op"@, json_of_text("auth"@)),
                    (
                        "args"@,
                        json_of_list(
                            seq![
                                json_of_text(key),
                                json_of_number(expires),
                                json_of_text(
                                    signature_text(
                                        encode_utf8(secret),
                                        encode_utf8("GET/realtime"@ + decimal_text(expires as nat)),
                                    ),
                                ),
                            ],
                        ),
                    ),
                ],
            ),
        ),
    )
}

/// The messages that a new connection starts with at `millis` milliseconds
/// since the Unix epoch: the authentication where it is asked for and key
/// and secret are set, the subscription otherwise.
pub open spec fn bybit_start(options: BybitOptionsView, millis: u128) -> Seq<MessageView> {
    if options.websocket_auth && options.key is Some && options.secret is Some {
        seq![bybit_auth(options.key.unwrap(), options.secret.unwrap(), bybit_expiry(millis))]
    } else {
        seq![bybit_subscribe(options.websocket_topics)]
    }
}

/// The operation that a document names, if it names one.
pub open spec fn bybit_operation(document: serde_json::Value) -> Option<Seq<char>> {
    match json_member(document, "op"@) {
        Some(operation) => json_str(operation),
        None => None,
    }
}

/// What becomes of a message: the answer to an authentication is followed
/// by the subscription, the answer to a subscription by nothing, and any
/// other document goes to the receiver. What is no JSON document is
/// dropped.
pub open spec fn bybit_route(options: BybitOptionsView, message: MessageView) -> BybitRoutingView {
    match document_of(message) {
        None => BybitRoutingView::Nothing,
        Some(document) => if bybit_operation(document) == Some("auth"@) {
            BybitRoutingView::Reply(seq![bybit_subscribe(options.websocket_topics)])
        } else if bybit_operation(document) == Some("subscribe"@) {
            BybitRoutingView::Nothing
        } else {
            BybitRoutingView::Forward(document)
        },
    }
}

impl<H> BybitWebSocketHandler<H> {
    /// What takes the messages that the handler passes on.
    pub fn receiver_mut(&mut self) -> (receiver: &mut H)
        ensures
            *receiver == old(self).receiver(),
            final(self).receiver() == *final(receiver),
            final(self).held() == old(self).held(),
    {
        &mut self.message_handler
    }

    /// The messages to send when a connection has been started now.
    pub fn handle_start(&self) -> (messages: Vec<WebSocketMessage>)
        ensures
            exists|millis: u128| messages_view(messages) == bybit_start(self.held()@, millis),
    {
        let time = unix_time();
        let millis = time.as_millis();
        let messages = self.handle_start_at(millis);
        assert(messages_view(messages) == bybit_start(self.held()@, millis));
        messages
    }

    /// The messages to send when a connection has been started at `millis`
    /// milliseconds since the Unix epoch.
    pub fn handle_start_at(&self, millis: u128) -> (messages: Vec<WebSocketMessage>)
        ensures
            messages_view(messages) == bybit_start(self.held()@, millis),
    {
        if self.options.websocket_auth {
            match (&self.options.key, &self.options.secret) {
                (Some(key), Some(secret)) => {
                    let expires = (#[verifier::truncate] (millis as u64)).wrapping_add(1000);
                    let signed = joined("GET/realtime", decimal(expires as u128).as_str());
                    let signature = sign(secret.as_str(), signed.as_str());
                    let mut arguments: Vec<serde_json::Value> = Vec::new();
                    arguments.push(text_value(key.as_str()));
                    arguments.push(number_value(expires));
                    arguments.push(text_value(signature.as_str()));
                    let mut members: Vec<(String, serde_json::Value)> = Vec::new();
                    members.push(("op".to_owned(), text_value("auth")));
                    members.push(("args".to_owned(), list_value(arguments)));
                    proof {
                        assert(arguments@ =~= seq![
                            json_of_text(key@),
                            json_of_number(expires),
                            json_of_text(signature@),
                        ]);
                        assert(members_view(members) =~= seq![
                            ("op"@, json_of_text("auth"@)),
                            ("args"@, json_of_list(arguments@)),
                        ]);
                    }
                    let message = WebSocketMessage::Text(write_json(&object_value(members)));
                    let mut messages: Vec<WebSocketMessage> = Vec::new();
                    messages.push(message);
                    proof {
                        assert(messages_view(messages) =~= seq![message@]);
                    }
                    return messages;
                },
                _ => {},
            }
        }
        self.message_subscribe()
    }

    /// The subscription to the topics of the options, as the one message
    /// that it is.
    #[inline(always)]
    pub fn message_subscribe(&self) -> (messages: Vec<WebSocketMessage>)
        ensures
            messages_view(messages) == seq![bybit_subscribe(self.held()@.websocket_topics)],
    {
        let mut topics: Vec<serde_json::Value> = Vec::new();
        let mut i: usize = 0;
        while i < self.options.websocket_topics.len()
            invariant
                i <= self.options.websocket_topics.len(),
                topics@ == self.options.websocket_topics.deep_view().subrange(0, i as int).map_values(
                    |topic: Seq<char>| json_of_text(topic),
                ),
            decreases self.options.websocket_topics.len() - i,
        {
            let topic = &self.options.websocket_topics[i];
            let ghost before = topics@;
            topics.push(text_value(topic.as_str()));
            proof {
                let all = self.options.websocket_topics.deep_view();
                assert(all[i as int] == topic@);
                assert(all.subrange(0, i + 1) =~= all.subrange(0, i as int).push(topic@));
                assert(topics@ =~= all.subrange(0, i + 1).map_values(
                    |topic: Seq<char>| json_of_text(topic),
                ));
            }
            i += 1;
        }
        proof {
            let all = self.options.websocket_topics.deep_view();
            assert(all.subrange(0, i as int) =~= all);
        }
        let mut members: Vec<(String, serde_json::Value)> = Vec::new();
        members.push(("op".to_owned(), text_value("subscribe")));
        members.push(("args".to_owned(), list_value(topics)));
        proof {
            assert(members_view(members) =~= seq![
                ("op"@, json_of_text("subscribe"@)),
                ("args"@, json_of_list(topics@)),
            ]);
        }
        let message = WebSocketMessage::Text(write_json(&object_value(members)));
        let mut messages: Vec<WebSocketMessage> = Vec::new();
        messages.push(message);
        proof {
            assert(messages_view(messages) =~= seq![message@]);
        }
        messages
    }

    /// Decides what becomes of a message that a connection brought.
    pub fn route(&self, message: &WebSocketMessage) -> (routing: BybitRouting)
        ensures
            routing@ == bybit_route(self.held()@, message@),
    {
        let document = match document_of_message(message) {
            None => {
                return BybitRouting::Nothing;
            },
            Some(document) => document,
        };
        let operation = match member(&document, "op") {
            Some(operation) => as_str(operation),
            None => None,
        };
        match operation {
            Some(operation) => {
                if same_text(operation, "auth") {
                    return BybitRouting::Reply(self.message_subscribe());
                }
                if same_text(operation, "subscribe") {
                    return BybitRouting::Nothing;
                }
            },
            None => {},
        }
        BybitRouting::Forward(document)
    }
}

impl HandlerOptions for BybitOptions {
    type OptionItem = BybitOption;

    open spec fn with_option(self, option: BybitOption) -> Self {
        match option {
            BybitOption::Default => self,
            BybitOption::Key(v) => BybitOptions { key: Some(v), ..self },
            BybitOption::Secret(v) => BybitOptions { secret: Some(v), ..self },
            BybitOption::HttpUrl(v) => BybitOptions { http_url: v, ..self },
            BybitOption::HttpAuth(v) => BybitOptions { http_auth: v, ..self },
            BybitOption::RecvWindow(v) => BybitOptions { recv_window: Some(v), ..self },
            BybitOption::RequestConfig(v) => BybitOptions { request_config: v, ..self },
            BybitOption::WebSocketUrl(v) => BybitOptions { websocket_url: v, ..self },
            BybitOption::WebSocketAuth(v) => BybitOptions { websocket_auth: v, ..self },
            BybitOption::WebSocketTopics(v) => BybitOptions { websocket_topics: v, ..self },
            BybitOption::WebSocketConfig(v) => BybitOptions { websocket_config: v, ..self },
        }
    }

    fn update(&mut self, option: Self::OptionItem) {
        match option {
            BybitOption::Default => (),
            BybitOption::Key(v) => self.key = Some(v),
            BybitOption::Secret(v) => self.secret = Some(v),
            BybitOption::HttpUrl(v) => self.http_url = v,
            BybitOption::HttpAuth(v) => self.http_auth = v,
            BybitOption::RecvWindow(v) => self.recv_window = Some(v),
            BybitOption::RequestConfig(v) => self.request_config = v,
            BybitOption::WebSocketUrl(v) => self.websocket_url = v,
            BybitOption::WebSocketAuth(v) => self.websocket_auth = v,
            BybitOption::WebSocketTopics(v) => self.websocket_topics = v,
            BybitOption::WebSocketConfig(v) => self.websocket_config = v,
        }
    }
}

impl Default for BybitOptions {
    fn default() -> (options: Self)
        ensures
            options@ == default_bybit_options(),
    {
        let mut websocket_config = WebSocketConfig::new();
        websocket_config.ignore_duplicate_during_reconnection = true;
        let options = Self {
            key: None,
            secret: None,
            http_url: BybitHttpUrl::Bybit,
            http_auth: BybitHttpAuth::NoAuth,
            recv_window: None,
            request_config: RequestConfig::default(),
            websocket_url: BybitWebSocketUrl::Bybit,
            websocket_auth: false,
            websocket_topics: Vec::new(),
            websocket_config,
        };
        assert(options.websocket_topics.deep_view() =~= Seq::<Seq<char>>::empty());
        options
    }
}

impl Clone for BybitOptions {
    fn clone(&self) -> (copy: Self)
        ensures
            copy@ == self@,
    {
        Self {
            key: clone_optional(&self.key),
            secret: clone_optional(&self.secret),
            http_url: self.http_url,
            http_auth: self.http_auth,
            recv_window: self.recv_window,
            request_config: self.request_config.clone(),
            websocket_url: self.websocket_url,
            websocket_auth: self.websocket_auth,
            websocket_topics: clone_strings(&self.websocket_topics),
            websocket_config: self.websocket_config.clone(),
        }
    }
}

impl<'a, R: 'a> HttpOption<'a, R> for BybitOption {
    type RequestHandler = BybitRequestHandler<'a, R>;

    #[inline(always)]
    fn request_handler(options: BybitOptions) -> (handler: BybitRequestHandler<'a, R>)
        ensures
            BybitRequestHandler::<R>::held(handler) == options,
    {
        BybitRequestHandler::<'a, R> { options, _phantom: PhantomData }
    }
}

impl<H> WebSocketOption<H> for BybitOption {
    type WebSocketHandler = BybitWebSocketHandler<H>;

    #[inline(always)]
    fn websocket_handler(handler: H, options: BybitOptions) -> (made: BybitWebSocketHandler<H>)
        ensures
            BybitWebSocketHandler::<H>::receiver(made) == handler,
            BybitWebSocketHandler::<H>::held(made) == options,
    {
        BybitWebSocketHandler { message_handler: handler, options }
    }
}

impl HandlerOption for BybitOption {
    type Options = BybitOptions;
}

impl Default for BybitOption {
    fn default() -> (option: Self)
        ensures
            option is Default,
    {
        Self::Default
    }
}

} // verus!
