//! Communicating with the [bitbank API](https://github.com/bitbankinc/bitbank-api-docs).

use crate::http::{RequestConfig, RequestConfigView};
use crate::json::{as_u64, json_document, json_member, json_u64, member, parse_json};
use crate::request::{
    bare_view, built_view, headers_appended, is_success, status_is_success, BodyEncoding, EncodedBody,
    EncodedBodyView, RequestParts, RequestView,
};
use crate::traits::{HandlerOption, HandlerOptions, HttpOption};
use std::marker::PhantomData;
use vstd::prelude::*;

verus! {

/// Options that can be set when creating handlers
pub enum BitbankOption {
    /// [`Default`] variant, does nothing
    Default,
    /// Base url for HTTP requests
    HttpUrl(BitbankHttpUrl),
    /// [`RequestConfig`] used when sending requests.
    /// `url_prefix` will be overridden by [`HttpUrl`](Self::HttpUrl) unless `HttpUrl` is
    /// [`BitbankHttpUrl::Unset`].
    RequestConfig(RequestConfig),
}

/// A `struct` that represents a set of [`BitbankOption`]s.
#[derive(Debug)]
pub struct BitbankOptions {
    /// see [`BitbankOption::HttpUrl`]
    pub http_url: BitbankHttpUrl,
    /// see [`BitbankOption::RequestConfig`]
    pub request_config: RequestConfig,
}

/// The mathematical content of a [`BitbankOptions`].
pub ghost struct BitbankOptionsView {
    pub http_url: BitbankHttpUrl,
    pub request_config: RequestConfigView,
}

/// A `enum` that represents the base url of the bitbank HTTP API.
#[derive(Debug, Eq, PartialEq, Copy, Clone, Structural)]
pub enum BitbankHttpUrl {
    /// `https://public.bitbank.cc`
    Default,
    /// The url will not be modified by [`BitbankRequestHandler`]
    Unset,
}

/// What a request handler returns for a response that was not a success.
#[derive(Debug)]
pub enum BitbankHandlerError {
    /// The exchange answered with an error of its own; see
    /// <https://github.com/bitbankinc/bitbank-api-docs/blob/master/errors.md>.
    ApiError { code: Option<u64> },
    /// The response could not be read.
    ParseError,
}

/// A `struct` that builds and reads HTTP requests for bitbank.
pub struct BitbankRequestHandler<'a, R> {
    options: BitbankOptions,
    _phantom: PhantomData<&'a R>,
}

impl View for BitbankOptions {
    type V = BitbankOptionsView;

    open spec fn view(&self) -> BitbankOptionsView {
        BitbankOptionsView {
            http_url: self.http_url,
            request_config: self.request_config@,
        }
    }
}

impl BitbankHttpUrl {
    /// The base URL that this variant represents, as a sequence of characters.
    pub open spec fn text(self) -> Seq<char> {
        match self {
            Self::Default => "https://public.bitbank.cc"@,
            Self::Unset => ""@,
        }
    }

    /// The base URL that this variant represents.
    #[inline(always)]
    pub fn as_str(&self) -> (url: &'static str)
        ensures
            url@ == self.text(),
    {
        match self {
            Self::Default => "https://public.bitbank.cc",
            Self::Unset => "",
        }
    }
}

/// The request configuration of a handler: the one from its options, with
/// the prefix replaced by the base url unless that is `Unset`.
pub open spec fn bitbank_request_config(options: BitbankOptionsView) -> RequestConfigView {
    if options.http_url != BitbankHttpUrl::Unset {
        RequestConfigView { url_prefix: options.http_url.text(), ..options.request_config }
    } else {
        options.request_config
    }
}

/// The options of a client that was told nothing: the public base url and
/// the default request configuration.
pub open spec fn default_bitbank_options() -> BitbankOptionsView {
    BitbankOptionsView {
        http_url: BitbankHttpUrl::Default,
        request_config: crate::http::default_request_config(),
    }
}

impl<'a, R> BitbankRequestHandler<'a, R> {
    /// The options that the handler was made with.
    pub closed spec fn held(self) -> BitbankOptions {
        self.options
    }

    /// The options that the handler was made with.
    pub fn options(&self) -> (options: &BitbankOptions)
        ensures
            *options == self.held(),
    {
        &self.options
    }

    /// The configuration of the requests that this handler builds.
    pub fn request_config(&self) -> (config: RequestConfig)
        ensures
            config@ == bitbank_request_config(self.held()@),
    {
        let mut config = self.options.request_config.clone();
        if self.options.http_url != BitbankHttpUrl::Unset {
            config.url_prefix = self.options.http_url.as_str().to_owned();
        }
        config
    }
}

/// The request that goes out, or the reason why none does: the request as
/// the builder made it, with its JSON body put in if it has one.
pub open spec fn bitbank_request(bare: Option<RequestView>, body: EncodedBodyView) -> Result<
    RequestView,
    Seq<char>,
> {
    if body is Failed {
        Err("could not serialize body as application/json"@)
    } else if bare is None {
        Err("failed to build request"@)
    } else {
        match body {
            EncodedBodyView::Text(json) => Ok(
                RequestView {
                    headers: headers_appended(bare.unwrap().headers, "content-type"@, "application/json"@),
                    body: Some(json),
                    ..bare.unwrap()
                },
            ),
            _ => Ok(bare.unwrap()),
        }
    }
}

/// The error code of an error document: the unsigned number at `data.code`,
/// if there is one.
pub open spec fn bitbank_error_code(document: serde_json::Value) -> Option<u64> {
    match json_member(document, "data"@) {
        Some(data) => match json_member(data, "code"@) {
            Some(code) => json_u64(code),
            None => None,
        },
        None => None,
    }
}

/// What a response amounts to. `parsed` is the body read as the type that
/// the caller expects; it is looked at only when the status reports a
/// success. Any other response is an error: the exchange's own, with its
/// code, if the body is a JSON document, a parse error if not.
pub open spec fn bitbank_response<R>(status: u16, parsed: Option<R>, body: Seq<u8>) -> Result<
    R,
    BitbankHandlerError,
> {
    if status_is_success(status) {
        match parsed {
            Some(value) => Ok(value),
            None => Err(BitbankHandlerError::ParseError),
        }
    } else {
        match json_document(body) {
            Some(document) => Err(BitbankHandlerError::ApiError { code: bitbank_error_code(document) }),
            None => Err(BitbankHandlerError::ParseError),
        }
    }
}

impl<'a, R> BitbankRequestHandler<'a, R> {
    /// The encoding in which this handler wants the body of a request.
    pub fn body_encoding(&self) -> (encoding: BodyEncoding)
        ensures
            encoding == BodyEncoding::Json,
    {
        BodyEncoding::Json
    }

    /// Finishes a request: puts the body in.
    pub fn build_request(&self, bare: Option<RequestParts>, body: EncodedBody) -> (built: Result<
        RequestParts,
        &'static str,
    >)
        ensures
            built_view(built) == bitbank_request(bare_view(bare), body@),
    {
        let json = match body {
            EncodedBody::Failed => {
                return Err("could not serialize body as application/json");
            },
            EncodedBody::Absent => None,
            EncodedBody::Text(json) => Some(json),
        };
        let mut request = match bare {
            None => {
                return Err("failed to build request");
            },
            Some(request) => request,
        };
        match json {
            Some(json) => {
                request.append_header("content-type", "application/json".to_owned());
                request.body = Some(json);
            },
            None => {},
        }
        Ok(request)
    }

    /// Reads a response. `parsed` is the body read as the type that the
    /// caller expects, or `None` where it cannot be read so.
    pub fn handle_response(&self, status: u16, parsed: Option<R>, body: &[u8]) -> (outcome: Result<
        R,
        BitbankHandlerError,
    >)
        ensures
            outcome == bitbank_response(status, parsed, body@),
    {
        if is_success(status) {
            match parsed {
                Some(value) => Ok(value),
                None => Err(BitbankHandlerError::ParseError),
            }
        } else {
            match parse_json(body) {
                Some(document) => {
                    let code = match member(&document, "data") {
                        Some(data) => match member(data, "code") {
                            Some(code) => as_u64(code),
                            None => None,
                        },
                        None => None,
                    };
                    Err(BitbankHandlerError::ApiError { code })
                },
                None => Err(BitbankHandlerError::ParseError),
            }
        }
    }
}

impl HandlerOptions for BitbankOptions {
    type OptionItem = BitbankOption;

    open spec fn with_option(self, option: BitbankOption) -> Self {
        match option {
            BitbankOption::Default => self,
            BitbankOption::HttpUrl(v) => BitbankOptions { http_url: v, ..self },
            BitbankOption::RequestConfig(v) => BitbankOptions { request_config: v, ..self },
        }
    }

    fn update(&mut self, option: Self::OptionItem) {
        match option {
            BitbankOption::Default => (),
            BitbankOption::HttpUrl(v) => self.http_url = v,
            BitbankOption::RequestConfig(v) => self.request_config = v,
        }
    }
}

impl Default for BitbankOptions {
    fn default() -> (options: Self)
        ensures
            options@ == default_bitbank_options(),
    {
        Self {
            http_url: BitbankHttpUrl::Default,
            request_config: RequestConfig::default(),
        }
    }
}

impl Clone for BitbankOptions {
    fn clone(&self) -> (copy: Self)
        ensures
            copy@ == self@,
    {
        Self {
            http_url: self.http_url,
            request_config: self.request_config.clone(),
        }
    }
}

impl<'a, R: 'a> HttpOption<'a, R> for BitbankOption {
    type RequestHandler = BitbankRequestHandler<'a, R>;

    #[inline(always)]
    fn request_handler(options: BitbankOptions) -> (handler: BitbankRequestHandler<'a, R>)
        ensures
            BitbankRequestHandler::<R>::held(handler) == options,
    {
        BitbankRequestHandler::<'a, R> { options, _phantom: PhantomData }
    }
}

impl HandlerOption for BitbankOption {
    type Options = BitbankOptions;
}

impl Default for BitbankOption {
    fn default() -> (option: Self)
        ensures
            option is Default,
    {
        Self::Default
    }
}

} // verus!
