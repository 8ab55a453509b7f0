//! The HTTP relay: one outbound request per call, the caller's key attached,
//! the raw answer handed back.
//!
//! A relay call meets the outside world twice: when the request is dispatched
//! and when the payload of the response is read. It is therefore cut into
//! three decisions, each of which ends in a [`RelayStep`] that tells the
//! driver what to do next:
//!
//! 1. [`start`] checks the method and builds the request to send;
//! 2. [`on_dispatch`] takes the status line, or the transport's failure;
//! 3. [`on_body`] takes the payload, or the failure to read it.
//!
//! The relay is a transparent pipe. Any status that arrives is a success of
//! the relay, and nothing here looks at the credential store.

use vstd::prelude::*;
use crate::error::{Error, ErrorKind, ErrorView};
use crate::method::{invalid_method, is_method_token, parse_method};

verus! {

/// Name of the header that states the payload format.
pub const CONTENT_TYPE: &'static str = "Content-Type";

/// The payload format announced on every relayed request.
pub const JSON_MEDIA_TYPE: &'static str = "application/json";

/// Name of the header that carries the API key.
pub const API_KEY_HEADER: &'static str = "ZSESSIONID";

/// A request to relay, as the caller describes it.
#[derive(Clone, Debug, PartialEq, Eq)]
pub struct RelayRequest {
    /// Absolute URI of the target.
    pub url: String,
    /// HTTP method, as a token.
    pub method: String,
    /// Payload to send, if any.
    pub body: Option<String>,
    /// The key to authenticate with, supplied by the caller for this call.
    pub api_key: String,
}

/// The mathematical content of a [`RelayRequest`].
pub ghost struct RelayRequestView {
    pub url: Seq<char>,
    pub method: Seq<char>,
    pub body: Option<Seq<char>>,
    pub api_key: Seq<char>,
}

impl View for RelayRequest {
    type V = RelayRequestView;

    open spec fn view(&self) -> RelayRequestView {
        RelayRequestView {
            url: self.url@,
            method: self.method@,
            body: self.body.deep_view(),
            api_key: self.api_key@,
        }
    }
}

/// The request that goes out on the wire.
#[derive(Clone, Debug, PartialEq, Eq)]
pub struct OutboundRequest {
    /// The method token.
    pub method: String,
    /// The target, as the caller gave it.
    pub url: String,
    /// Header names and values, in the order in which they are set.
    pub headers: Vec<(String, String)>,
    /// The payload. `None` means that the request carries no body at all.
    pub body: Option<String>,
}

/// The mathematical content of an [`OutboundRequest`].
pub ghost struct OutboundRequestView {
    pub method: Seq<char>,
    pub url: Seq<char>,
    pub headers: Seq<(Seq<char>, Seq<char>)>,
    pub body: Option<Seq<char>>,
}

impl View for OutboundRequest {
    type V = OutboundRequestView;

    open spec fn view(&self) -> OutboundRequestView {
        OutboundRequestView {
            method: self.method@,
            url: self.url@,
            headers: self.headers.deep_view(),
            body: self.body.deep_view(),
        }
    }
}

/// What came back: the status code and the payload as text, uninterpreted.
#[derive(Clone, Debug, PartialEq, Eq)]
pub struct RelayResponse {
    pub status: u16,
    pub body: String,
}

/// The mathematical content of a [`RelayResponse`].
pub ghost struct RelayResponseView {
    pub status: u16,
    pub body: Seq<char>,
}

impl View for RelayResponse {
    type V = RelayResponseView;

    open spec fn view(&self) -> RelayResponseView {
        RelayResponseView { status: self.status, body: self.body@ }
    }
}

/// What the driver of a relay call does next.
#[derive(Debug, PartialEq, Eq)]
pub enum RelayStep {
    /// Dispatch this request with the transport's default settings and report
    /// to [`on_dispatch`].
    Send(OutboundRequest),
    /// A response with this status has arrived: read its whole payload as text
    /// and report to [`on_body`].
    ReadBody { status: u16 },
    /// The call is over, with this result.
    Done(Result<RelayResponse, Error>),
}

/// The mathematical content of a [`RelayStep`].
pub ghost enum RelayStepView {
    Send(OutboundRequestView),
    ReadBody { status: u16 },
    Done(Result<RelayResponseView, ErrorView>),
}

impl View for RelayStep {
    type V = RelayStepView;

    open spec fn view(&self) -> RelayStepView {
        match self {
            RelayStep::Send(outbound) => RelayStepView::Send(outbound@),
            RelayStep::ReadBody { status } => RelayStepView::ReadBody { status: *status },
            RelayStep::Done(Ok(response)) => RelayStepView::Done(Ok(response@)),
            RelayStep::Done(Err(error)) => RelayStepView::Done(Err(error@)),
        }
    }
}

/// The two headers of every relayed request: the payload format, then the
/// key under its fixed name.
pub open spec fn relay_headers(api_key: Seq<char>) -> Seq<(Seq<char>, Seq<char>)> {
    seq![(CONTENT_TYPE@, JSON_MEDIA_TYPE@), (API_KEY_HEADER@, api_key)]
}

/// The request that is sent for `request`: same method, same target, the two
/// relay headers, and a body only where the caller gave one.
pub open spec fn outbound(request: RelayRequestView) -> OutboundRequestView {
    OutboundRequestView {
        method: request.method,
        url: request.url,
        headers: relay_headers(request.api_key),
        body: request.body,
    }
}

/// The first step of a relay call: send, or stop at once where the method is
/// no token.
pub open spec fn first_step(request: RelayRequestView) -> RelayStepView {
    if is_method_token(request.method) {
        RelayStepView::Send(outbound(request))
    } else {
        RelayStepView::Done(Err(invalid_method()))
    }
}

/// The step after dispatch: on to the payload whatever the status is, or stop
/// with the transport's diagnostic.
pub open spec fn step_after_dispatch(outcome: Result<u16, Seq<char>>) -> RelayStepView {
    match outcome {
        Ok(status) => RelayStepView::ReadBody { status },
        Err(diagnostic) => RelayStepView::Done(
            Err(ErrorView { kind: ErrorKind::TransportError, message: diagnostic }),
        ),
    }
}

/// The last step: status and payload as they came, or the diagnostic of the
/// failed read.
pub open spec fn step_after_body(
    status: u16,
    payload: Result<Seq<char>, Seq<char>>,
) -> RelayStepView {
    match payload {
        Ok(body) => RelayStepView::Done(Ok(RelayResponseView { status, body })),
        Err(diagnostic) => RelayStepView::Done(
            Err(ErrorView { kind: ErrorKind::BodyReadError, message: diagnostic }),
        ),
    }
}

/// The text of an outcome that is either a status or a diagnostic.
pub open spec fn dispatch_view(outcome: Result<u16, String>) -> Result<u16, Seq<char>> {
    match outcome {
        Ok(status) => Ok(status),
        Err(diagnostic) => Err(diagnostic@),
    }
}

/// The text of an outcome that is either a payload or a diagnostic.
pub open spec fn payload_view(payload: Result<String, String>) -> Result<Seq<char>, Seq<char>> {
    match payload {
        Ok(body) => Ok(body@),
        Err(diagnostic) => Err(diagnostic@),
    }
}

/// Builds the request that goes out for `request`, or refuses the method.
///
/// The key is taken from the request and from nowhere else.
pub fn build_outbound(request: RelayRequest) -> (built: Result<OutboundRequest, Error>)
    ensures
        match built {
            Ok(out) => is_method_token(request@.method) && out@ == outbound(request@),
            Err(error) => !is_method_token(request@.method) && error@ == invalid_method(),
        },
{
    let RelayRequest { url, method, body, api_key } = request;
    match parse_method(method.as_str()) {
        Ok(token) => {
            let mut headers: Vec<(String, String)> = Vec::new();
            headers.push((CONTENT_TYPE.to_owned(), JSON_MEDIA_TYPE.to_owned()));
            headers.push((API_KEY_HEADER.to_owned(), api_key));
            let out = OutboundRequest { method: token, url, headers, body };
            assert(out@.headers =~= relay_headers(request@.api_key));
            Ok(out)
        },
        Err(error) => Err(error),
    }
}

/// Opens a relay call.
///
/// A method that is no token ends the call here, before anything is sent.
pub fn start(request: RelayRequest) -> (step: RelayStep)
    ensures
        step@ == first_step(request@),
{
    match build_outbound(request) {
        Ok(out) => RelayStep::Send(out),
        Err(error) => RelayStep::Done(Err(error)),
    }
}

/// Takes what dispatching the request gave: the status of the response, or
/// the diagnostic of the transport that failed.
///
/// Every status leads on to the payload; a 4xx or 5xx is no failure of the
/// relay. A transport failure ends the call, and nothing is sent again.
pub fn on_dispatch(outcome: Result<u16, String>) -> (step: RelayStep)
    ensures
        step@ == step_after_dispatch(dispatch_view(outcome)),
{
    match outcome {
        Ok(status) => RelayStep::ReadBody { status },
        Err(diagnostic) => RelayStep::Done(
            Err(Error { kind: ErrorKind::TransportError, message: diagnostic }),
        ),
    }
}

/// Takes what reading the payload gave and ends the call.
pub fn on_body(status: u16, payload: Result<String, String>) -> (step: RelayStep)
    ensures
        step@ == step_after_body(status, payload_view(payload)),
{
    match payload {
        Ok(body) => RelayStep::Done(Ok(RelayResponse { status, body })),
        Err(diagnostic) => RelayStep::Done(
            Err(Error { kind: ErrorKind::BodyReadError, message: diagnostic }),
        ),
    }
}

/// What the network makes of a request that is sent.
pub ghost enum Exchange {
    /// No response: the transport failed, with this diagnostic.
    Failed(Seq<char>),
    /// A response with this status, and its payload as text or the
    /// diagnostic of the read that failed.
    Answered(u16, Result<Seq<char>, Seq<char>>),
}

/// The result of a whole relay call, given what the network makes of the
/// request in case it is sent.
pub open spec fn relay_result(request: RelayRequestView, exchange: Exchange) -> Result<
    RelayResponseView,
    ErrorView,
> {
    if !is_method_token(request.method) {
        Err(invalid_method())
    } else {
        match exchange {
            Exchange::Failed(diagnostic) => Err(
                ErrorView { kind: ErrorKind::TransportError, message: diagnostic },
            ),
            Exchange::Answered(_, Err(diagnostic)) => Err(
                ErrorView { kind: ErrorKind::BodyReadError, message: diagnostic },
            ),
            Exchange::Answered(status, Ok(body)) => Ok(RelayResponseView { status, body }),
        }
    }
}

/// A driver that does what each step asks for, and reports what the network
/// made of it, ends with [`relay_result`]: at once where the method is
/// refused, after the dispatch where the transport fails, and after the
/// payload otherwise.
pub proof fn law_steps_end_in_relay_result(request: RelayRequestView, exchange: Exchange)
    ensures
        match first_step(request) {
            RelayStepView::Done(result) => result == relay_result(request, exchange),
            RelayStepView::Send(out) => out == outbound(request) && match exchange {
                Exchange::Failed(diagnostic) => step_after_dispatch(Err(diagnostic))
                    == RelayStepView::Done(relay_result(request, exchange)),
                Exchange::Answered(status, payload) => {
                    &&& step_after_dispatch(Ok(status)) == (RelayStepView::ReadBody { status })
                    &&& step_after_body(status, payload) == RelayStepView::Done(
                        relay_result(request, exchange),
                    )
                },
            },
            RelayStepView::ReadBody { .. } => false,
        },
{
}

/// A request that names no body goes out without one, whatever its method.
pub proof fn law_no_body_unless_given(request: RelayRequestView)
    requires
        is_method_token(request.method),
        request.body is None,
    ensures
        first_step(request) matches RelayStepView::Send(out) && out.body is None,
{
}

/// A method that is no token ends the call with `InvalidMethod`, and no
/// request is ever handed out for sending.
pub proof fn law_invalid_method_sends_nothing(request: RelayRequestView)
    requires
        !is_method_token(request.method),
    ensures
        first_step(request) == RelayStepView::Done(Err(invalid_method())),
        !(first_step(request) is Send),
{
}

/// The key goes out exactly as the request holds it, in the one header that
/// carries it; the only other header announces the payload format.
pub proof fn law_key_sent_as_given(request: RelayRequestView)
    requires
        is_method_token(request.method),
    ensures
        first_step(request) matches RelayStepView::Send(out) && {
            &&& out.headers.len() == 2
            &&& out.headers[0] == (CONTENT_TYPE@, JSON_MEDIA_TYPE@)
            &&& out.headers[1] == (API_KEY_HEADER@, request.api_key)
        },
{
}

/// A transport failure ends the call with `TransportError` and the
/// transport's own words; there is no response, not even in part.
pub proof fn law_transport_failure_ends_call(request: RelayRequestView, diagnostic: Seq<char>)
    requires
        is_method_token(request.method),
    ensures
        step_after_dispatch(Err(diagnostic)) == RelayStepView::Done(
            Err(ErrorView { kind: ErrorKind::TransportError, message: diagnostic }),
        ),
        relay_result(request, Exchange::Failed(diagnostic)) == Err::<RelayResponseView, ErrorView>(
            ErrorView { kind: ErrorKind::TransportError, message: diagnostic },
        ),
{
}

/// Every status is a success of the relay: status and payload come back as
/// they arrived, 4xx and 5xx included.
pub proof fn law_any_status_is_returned(request: RelayRequestView, status: u16, body: Seq<char>)
    requires
        is_method_token(request.method),
    ensures
        step_after_dispatch(Ok(status)) == (RelayStepView::ReadBody { status }),
        step_after_body(status, Ok(body)) == RelayStepView::Done(
            Ok(RelayResponseView { status, body }),
        ),
        relay_result(request, Exchange::Answered(status, Ok(body))) == Ok::<
            RelayResponseView,
            ErrorView,
        >(RelayResponseView { status, body }),
{
}

/// One call sends at most once: after the first step nothing asks for another
/// dispatch, and the step after the payload is always the last.
pub proof fn law_single_dispatch(
    outcome: Result<u16, Seq<char>>,
    status: u16,
    payload: Result<Seq<char>, Seq<char>>,
)
    ensures
        !(step_after_dispatch(outcome) is Send),
        step_after_body(status, payload) is Done,
{
}

} // verus!
