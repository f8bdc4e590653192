//! The HTTP request pipeline: configuration, errors, and the loop that
//! retries a request whose transport failed.
//!
//! One logical request runs as follows. The handler's [`RequestConfig`] is
//! checked. Then, for each attempt: the request is built against the prefixed
//! URL and finished by the handler; it is sent; a transport failure is
//! retried after the cooldown until the attempts are used up; a response is
//! classified by the handler and the classification returned as it is.
//! Building and classifying are the handler's; sending is the runner's; what
//! happens in between is decided here.

use crate::clock::duration_nanos;
use std::time::Duration;
use vstd::prelude::*;

verus! {

/// The error type of the HTTP transport, carried through as it is.
#[verifier::external_type_specification]
#[verifier::external_body]
pub struct ExTransportError(reqwest::Error);

/// Configuration when sending a request.
///
/// Should be returned by the handler of the request.
#[derive(Debug)]
pub struct RequestConfig {
    /// A request is sent again if it failed to send. `max_try` limits the number of attempts.
    ///
    /// Must not be `0`: such a configuration is refused before anything is sent.
    /// The first attempt is counted. Defaults to `1` (which means no retry).
    pub max_try: u8,
    /// Duration that should elapse before sending a request again.
    ///
    /// Defaults to 500ms. See also: `max_try`.
    pub retry_cooldown: Duration,
    /// The timeout set when sending a request. Defaults to 3s.
    ///
    /// The handler may override this when it builds the request.
    pub timeout: Duration,
    /// The prefix which will be used for requests sent using this configuration.
    /// Defaults to `""`.
    ///
    /// Example usage: `"https://example.com"`
    pub url_prefix: String,
}

/// The mathematical content of a [`RequestConfig`]: durations in
/// nanoseconds, the prefix as a sequence of characters.
pub ghost struct RequestConfigView {
    pub max_try: u8,
    pub retry_cooldown: nat,
    pub timeout: nat,
    pub url_prefix: Seq<char>,
}

impl View for RequestConfig {
    type V = RequestConfigView;

    open spec fn view(&self) -> RequestConfigView {
        RequestConfigView {
            max_try: self.max_try,
            retry_cooldown: duration_nanos(self.retry_cooldown),
            timeout: duration_nanos(self.timeout),
            url_prefix: self.url_prefix@,
        }
    }
}

/// The configuration that a handler gets when it asks for nothing else: one
/// attempt, half a second of cooldown, three seconds of timeout, no prefix.
pub open spec fn default_request_config() -> RequestConfigView {
    RequestConfigView {
        max_try: 1,
        retry_cooldown: 500_000_000,
        timeout: 3_000_000_000,
        url_prefix: Seq::empty(),
    }
}

/// A configuration that cannot be used.
#[derive(Debug, Clone, Copy, PartialEq, Eq, Structural)]
pub enum ConfigurationError {
    /// `max_try` is zero: not even one attempt is allowed.
    ZeroMaxTry,
}

impl ConfigurationError {
    /// The error in words.
    pub fn message(&self) -> (text: &'static str)
        ensures
            text@ == "RequestConfig.max_try must not be equal to 0"@,
    {
        "RequestConfig.max_try must not be equal to 0"
    }
}

impl RequestConfig {
    /// Constructs a new `RequestConfig` with its fields set to their defaults.
    #[inline(always)]
    pub fn new() -> (config: Self)
        ensures
            config@ == default_request_config(),
    {
        Self::default()
    }

    /// Checks that the configuration allows at least one attempt.
    #[inline(always)]
    pub fn verify(&self) -> (checked: Result<(), ConfigurationError>)
        ensures
            checked.is_ok() == (self.max_try != 0),
            checked.is_err() ==> checked == Err::<(), ConfigurationError>(ConfigurationError::ZeroMaxTry),
    {
        if self.max_try == 0 {
            Err(ConfigurationError::ZeroMaxTry)
        } else {
            Ok(())
        }
    }

    /// The address of a request: the configured prefix followed by `url`.
    pub fn full_url(&self, url: &str) -> (full: String)
        ensures
            full@ == self.url_prefix@ + url@,
    {
        let mut full = self.url_prefix.clone();
        full.append(url);
        full
    }
}

impl Default for RequestConfig {
    fn default() -> (config: Self)
        ensures
            config@ == default_request_config(),
    {
        Self {
            max_try: 1,
            retry_cooldown: Duration::from_millis(500),
            timeout: Duration::from_secs(3),
            url_prefix: String::new(),
        }
    }
}

impl Clone for RequestConfig {
    fn clone(&self) -> (copy: Self)
        ensures
            copy@ == self@,
    {
        Self {
            max_try: self.max_try,
            retry_cooldown: self.retry_cooldown,
            timeout: self.timeout,
            url_prefix: self.url_prefix.clone(),
        }
    }
}

/// An `enum` that represents errors that could be returned by a request.
///
/// Type parameter `E` is the handler's build error, `R` what the handler
/// returns for a response that it finds unsuccessful.
#[derive(Debug)]
pub enum RequestError<E, R> {
    /// An error which occurred while sending a HTTP request.
    SendRequest(reqwest::Error),
    /// An error which occurred while receiving a HTTP response.
    ReceiveResponse(reqwest::Error),
    /// Error occurred while the handler built the request.
    BuildRequestError(E),
    /// An error which was returned by the handler for the response.
    ResponseHandleError(R),
}

impl<E, R> RequestError<E, R> {
    /// The error in words.
    pub fn message(&self) -> (text: &'static str)
        ensures
            self is SendRequest ==> text@ == "failed to send reqeust"@,
            self is ReceiveResponse ==> text@ == "failed to receive response"@,
            self is BuildRequestError ==> text@ == "the handler failed to build a request"@,
            self is ResponseHandleError ==> text@ == "the response handler returned an error"@,
    {
        match self {
            RequestError::SendRequest(_) => "failed to send reqeust",
            RequestError::ReceiveResponse(_) => "failed to receive response",
            RequestError::BuildRequestError(_) => "the handler failed to build a request",
            RequestError::ResponseHandleError(_) => "the response handler returned an error",
        }
    }
}

/// What the runner reports of one attempt.
#[derive(Debug)]
pub enum RequestEvent<S, E, R> {
    /// The handler could not build the request.
    BuildFailed(E),
    /// The request was built but could not be sent.
    SendFailed(reqwest::Error),
    /// A response came but its body could not be read.
    ReceiveFailed(reqwest::Error),
    /// A response came and the handler has classified it.
    Handled(Result<S, R>),
}

/// What becomes of the request after one attempt.
pub enum RequestStep<S, E, R> {
    /// Wait for `cooldown`, then make the attempt that `next` counts.
    Retry { next: RequestLoop, cooldown: Duration },
    /// The request is over with this outcome.
    Finish(Result<S, RequestError<E, R>>),
}

/// The mathematical content of a [`RequestLoop`].
pub ghost struct RequestLoopView {
    /// The number of attempts allowed, the first one counted.
    pub max_try: u8,
    /// The time to wait before an attempt is repeated, in nanoseconds.
    pub retry_cooldown: nat,
    /// The number of the attempt that is being made, from one.
    pub count: u8,
}

/// The mathematical content of a [`RequestStep`].
pub ghost enum RequestStepView<S, E, R> {
    Retry { next: RequestLoopView, cooldown: nat },
    Finish(Result<S, RequestError<E, R>>),
}

impl<S, E, R> View for RequestStep<S, E, R> {
    type V = RequestStepView<S, E, R>;

    open spec fn view(&self) -> RequestStepView<S, E, R> {
        match self {
            RequestStep::Retry { next, cooldown } => RequestStepView::Retry {
                next: next@,
                cooldown: duration_nanos(*cooldown),
            },
            RequestStep::Finish(outcome) => RequestStepView::Finish(*outcome),
        }
    }
}

/// What becomes of a request after an attempt that ended in `event`.
///
/// - A build error ends the request at once: what could not be built will
///   not build on a second try.
/// - A transport failure ends the request when the attempts are used up,
///   and otherwise leads to the next attempt after the cooldown.
/// - A response ends the request with the handler's classification, be it
///   a success or not: the loop never looks into it.
pub open spec fn request_step<S, E, R>(state: RequestLoopView, event: RequestEvent<S, E, R>)
    -> RequestStepView<S, E, R> {
    match event {
        RequestEvent::BuildFailed(error) => RequestStepView::Finish(
            Err(RequestError::BuildRequestError(error)),
        ),
        RequestEvent::SendFailed(error) => if state.count >= state.max_try {
            RequestStepView::Finish(Err(RequestError::SendRequest(error)))
        } else {
            RequestStepView::Retry {
                next: RequestLoopView { count: (state.count + 1) as u8, ..state },
                cooldown: state.retry_cooldown,
            }
        },
        RequestEvent::ReceiveFailed(error) => RequestStepView::Finish(
            Err(RequestError::ReceiveResponse(error)),
        ),
        RequestEvent::Handled(Ok(success)) => RequestStepView::Finish(Ok(success)),
        RequestEvent::Handled(Err(failure)) => RequestStepView::Finish(
            Err(RequestError::ResponseHandleError(failure)),
        ),
    }
}

/// The state of one logical request between its attempts.
#[derive(Debug)]
pub struct RequestLoop {
    max_try: u8,
    retry_cooldown: Duration,
    count: u8,
}

impl View for RequestLoop {
    type V = RequestLoopView;

    closed spec fn view(&self) -> RequestLoopView {
        RequestLoopView {
            max_try: self.max_try,
            retry_cooldown: duration_nanos(self.retry_cooldown),
            count: self.count,
        }
    }
}

impl RequestLoop {
    /// Begins a request under `config`, about to make its first attempt.
    /// A configuration that allows no attempt is refused.
    pub fn start(config: &RequestConfig) -> (started: Result<Self, ConfigurationError>)
        ensures
            started.is_ok() == (config.max_try != 0),
            started.is_ok() ==> started.unwrap()@ == (RequestLoopView {
                max_try: config.max_try,
                retry_cooldown: config@.retry_cooldown,
                count: 1,
            }),
            started.is_err() ==> started.unwrap_err() == ConfigurationError::ZeroMaxTry,
    {
        match config.verify() {
            Ok(()) => Ok(
                RequestLoop { max_try: config.max_try, retry_cooldown: config.retry_cooldown, count: 1 },
            ),
            Err(error) => Err(error),
        }
    }

    /// The number of the attempt that is to be made, from one. The handler
    /// gets it when it builds the request.
    pub fn attempt_count(&self) -> (count: u8)
        ensures
            count == self@.count,
    {
        self.count
    }

    /// Takes the end of one attempt and says what becomes of the request.
    pub fn step<S, E, R>(self, event: RequestEvent<S, E, R>) -> (step: RequestStep<S, E, R>)
        ensures
            step@ == request_step(self@, event),
    {
        match event {
            RequestEvent::BuildFailed(error) => RequestStep::Finish(
                Err(RequestError::BuildRequestError(error)),
            ),
            RequestEvent::SendFailed(error) => {
                if self.count >= self.max_try {
                    RequestStep::Finish(Err(RequestError::SendRequest(error)))
                } else {
                    RequestStep::Retry {
                        next: RequestLoop {
                            max_try: self.max_try,
                            retry_cooldown: self.retry_cooldown,
                            count: self.count + 1,
                        },
                        cooldown: self.retry_cooldown,
                    }
                }
            },
            RequestEvent::ReceiveFailed(error) => RequestStep::Finish(
                Err(RequestError::ReceiveResponse(error)),
            ),
            RequestEvent::Handled(Ok(success)) => RequestStep::Finish(Ok(success)),
            RequestEvent::Handled(Err(failure)) => RequestStep::Finish(
                Err(RequestError::ResponseHandleError(failure)),
            ),
        }
    }
}

/// The state of a request whose first `failures` attempts have all failed
/// in transport, or `None` if the request was over by then.
pub open spec fn after_send_failures(state: RequestLoopView, failures: nat) -> Option<RequestLoopView>
    decreases failures,
{
    if failures == 0 {
        Some(state)
    } else {
        match after_send_failures(state, (failures - 1) as nat) {
            None => None,
            Some(before) => if before.count >= before.max_try {
                None
            } else {
                Some(RequestLoopView { count: (before.count + 1) as u8, ..before })
            },
        }
    }
}

/// A request that is allowed `max_try` attempts and whose transport always
/// fails makes exactly `max_try` attempts: after `k < max_try` failures it
/// is about to make attempt `k + 1`, each of those failures but the last is
/// answered by a retry after the configured cooldown, and the failure of
/// attempt `max_try` ends the request with the transport's error.
pub proof fn lemma_transport_failures_use_all_attempts<S, E, R>(
    max_try: u8,
    retry_cooldown: nat,
    failures: nat,
    error: reqwest::Error,
)
    requires
        max_try >= 1,
        failures < max_try,
    ensures
        after_send_failures(RequestLoopView { max_try, retry_cooldown, count: 1 }, failures) == Some(
            RequestLoopView { max_try, retry_cooldown, count: (failures + 1) as u8 },
        ),
        failures + 1 < max_try ==> request_step::<S, E, R>(
            RequestLoopView { max_try, retry_cooldown, count: (failures + 1) as u8 },
            RequestEvent::SendFailed(error),
        ) == (RequestStepView::<S, E, R>::Retry {
            next: RequestLoopView { max_try, retry_cooldown, count: (failures + 2) as u8 },
            cooldown: retry_cooldown,
        }),
        failures + 1 == max_try ==> request_step::<S, E, R>(
            RequestLoopView { max_try, retry_cooldown, count: (failures + 1) as u8 },
            RequestEvent::SendFailed(error),
        ) == RequestStepView::<S, E, R>::Finish(Err(RequestError::SendRequest(error))),
        after_send_failures(RequestLoopView { max_try, retry_cooldown, count: 1 }, max_try as nat)
            is None,
{
    lemma_count_after_failures(max_try, retry_cooldown, failures);
    lemma_last_failure_ends(max_try, retry_cooldown);
}

/// After as many transport failures as attempts are allowed, the request is
/// over.
proof fn lemma_last_failure_ends(max_try: u8, retry_cooldown: nat)
    requires
        max_try >= 1,
    ensures
        after_send_failures(RequestLoopView { max_try, retry_cooldown, count: 1 }, max_try as nat)
            is None,
{
    let start = RequestLoopView { max_try, retry_cooldown, count: 1 };
    lemma_count_after_failures(max_try, retry_cooldown, (max_try - 1) as nat);
    assert(after_send_failures(start, max_try as nat) is None) by {
        reveal_with_fuel(after_send_failures, 2);
    }
}

/// While attempts are left, each transport failure moves the count on by one.
proof fn lemma_count_after_failures(max_try: u8, retry_cooldown: nat, failures: nat)
    requires
        max_try >= 1,
        failures < max_try,
    ensures
        after_send_failures(RequestLoopView { max_try, retry_cooldown, count: 1 }, failures) == Some(
            RequestLoopView { max_try, retry_cooldown, count: (failures + 1) as u8 },
        ),
    decreases failures,
{
    if failures > 0 {
        lemma_count_after_failures(max_try, retry_cooldown, (failures - 1) as nat);
    }
}

/// A build error is never retried: whatever the attempt and however many
/// are allowed, it ends the request with that error.
pub proof fn lemma_build_error_ends_request<S, E, R>(state: RequestLoopView, error: E)
    ensures
        request_step::<S, E, R>(state, RequestEvent::BuildFailed(error)) == RequestStepView::<
            S,
            E,
            R,
        >::Finish(Err(RequestError::BuildRequestError(error))),
{
}

/// A response is never retried: the handler's classification is the outcome
/// of the request, whether it is a success or not.
pub proof fn lemma_response_ends_request<S, E, R>(state: RequestLoopView, classified: Result<S, R>)
    ensures
        request_step::<S, E, R>(state, RequestEvent::Handled(classified)) is Finish,
        classified is Ok ==> request_step::<S, E, R>(state, RequestEvent::Handled(classified))
            == RequestStepView::<S, E, R>::Finish(Ok(classified->Ok_0)),
        classified is Err ==> request_step::<S, E, R>(state, RequestEvent::Handled(classified))
            == RequestStepView::<S, E, R>::Finish(
            Err(RequestError::ResponseHandleError(classified->Err_0)),
        ),
{
}

} // verus!
