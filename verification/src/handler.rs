//! The course of one request through the proxy: the inbound request is
//! transformed, the host sends it and reports what happened, and the answer or
//! the failure becomes the reply. Every failure ends the course at once.

use vstd::prelude::*;
use crate::config::{backend_url, AppConfig};
use crate::error::{error_body_of, ErrorBody, ErrorBodyView, ErrorView, ProxyError};
use crate::header::{headers_view, Header, HeaderView};
use crate::request::{
    build_proxy_request, built_request, request_result_view, InboundRequest, InboundRequestView,
    OutboundRequest, OutboundRequestView,
};
use crate::response::{
    build_client_response, built_response, response_result_view, OutboundResponse, ResponseView,
    UpstreamResponse,
};
use crate::text::url_parse_failure;

verus! {

/// What became of an outbound request.
#[derive(Debug, Clone)]
pub enum ForwardOutcome {
    /// The upstream answered and its body was read in full.
    Answered(UpstreamResponse),
    /// The request failed in transport; holds the transport's text.
    SendFailed(String),
    /// The body could not be read at the I/O layer; holds that layer's text.
    ReadFailed(String),
}

/// The mathematical content of a [`ForwardOutcome`].
pub enum ForwardOutcomeView {
    Answered(ResponseView),
    SendFailed(Seq<char>),
    ReadFailed(Seq<char>),
}

impl View for ForwardOutcome {
    type V = ForwardOutcomeView;

    open spec fn view(&self) -> ForwardOutcomeView {
        match self {
            ForwardOutcome::Answered(resp) => ForwardOutcomeView::Answered(resp@),
            ForwardOutcome::SendFailed(m) => ForwardOutcomeView::SendFailed(m@),
            ForwardOutcome::ReadFailed(m) => ForwardOutcomeView::ReadFailed(m@),
        }
    }
}

/// The body of a reply: the upstream's bytes, or a JSON error object.
#[derive(Debug, Clone)]
pub enum ReplyBody {
    Bytes(Vec<u8>),
    Error(ErrorBody),
}

/// The mathematical content of a [`ReplyBody`].
pub enum ReplyBodyView {
    Bytes(Seq<u8>),
    Error(ErrorBodyView),
}

impl View for ReplyBody {
    type V = ReplyBodyView;

    open spec fn view(&self) -> ReplyBodyView {
        match self {
            ReplyBody::Bytes(b) => ReplyBodyView::Bytes(b@),
            ReplyBody::Error(body) => ReplyBodyView::Error(body@),
        }
    }
}

/// What the caller receives in the end.
#[derive(Debug, Clone)]
pub struct ClientReply {
    pub status: u16,
    pub headers: Vec<Header>,
    pub body: ReplyBody,
}

/// The mathematical content of a [`ClientReply`].
pub struct ClientReplyView {
    pub status: u16,
    pub headers: Seq<HeaderView>,
    pub body: ReplyBodyView,
}

impl View for ClientReply {
    type V = ClientReplyView;

    open spec fn view(&self) -> ClientReplyView {
        ClientReplyView {
            status: self.status,
            headers: headers_view(self.headers@),
            body: self.body@,
        }
    }
}

/// What the host has to do next for a request.
#[derive(Debug, Clone)]
pub enum NextStep {
    /// Send this request upstream and report the outcome.
    Send(OutboundRequest),
    /// Answer the caller with this reply; nothing is sent upstream.
    Reply(ClientReply),
}

/// The mathematical content of a [`NextStep`].
pub enum NextStepView {
    Send(OutboundRequestView),
    Reply(ClientReplyView),
}

impl View for NextStep {
    type V = NextStepView;

    open spec fn view(&self) -> NextStepView {
        match self {
            NextStep::Send(out) => NextStepView::Send(out@),
            NextStep::Reply(reply) => NextStepView::Reply(reply@),
        }
    }
}

/// The target URL of an inbound request under a configuration.
pub open spec fn target_url_of(config: &AppConfig, req: InboundRequestView) -> Seq<char> {
    backend_url(config.target.protocol@, config.target.host@, config.target.port, req.path_and_query)
}

/// The outbound request for an inbound one under a configuration.
pub open spec fn transformed(config: &AppConfig, req: InboundRequestView, body: Seq<u8>) -> Result<
    OutboundRequestView,
    ErrorView,
> {
    let url = target_url_of(config, req);
    built_request(req, body, url, url_parse_failure(url))
}

/// The reply that tells the caller of a failure: the failure's status, no
/// headers, and the error object.
pub open spec fn failure_reply(e: ErrorView) -> ClientReplyView {
    ClientReplyView {
        status: e.status(),
        headers: Seq::<HeaderView>::empty(),
        body: ReplyBodyView::Error(error_body_of(e)),
    }
}

/// The reply for the end of a request's course: the response as it was built,
/// or the reply that stands for the failure.
pub open spec fn reply_of(result: Result<ResponseView, ErrorView>) -> ClientReplyView {
    match result {
        Ok(resp) => ClientReplyView {
            status: resp.status,
            headers: resp.headers,
            body: ReplyBodyView::Bytes(resp.body),
        },
        Err(e) => failure_reply(e),
    }
}

/// The result of the course after the outbound request was sent.
pub open spec fn concluded(outcome: ForwardOutcomeView) -> Result<ResponseView, ErrorView> {
    match outcome {
        ForwardOutcomeView::Answered(resp) => built_response(resp),
        ForwardOutcomeView::SendFailed(m) => Err(ErrorView::RequestError(m)),
        ForwardOutcomeView::ReadFailed(m) => Err(ErrorView::ResponseReadError(m)),
    }
}

/// The step that follows the transformation of the inbound request.
pub open spec fn step_after(result: Result<OutboundRequestView, ErrorView>) -> NextStepView {
    match result {
        Ok(out) => NextStepView::Send(out),
        Err(e) => NextStepView::Reply(failure_reply(e)),
    }
}

/// Composes the target URL of an inbound request.
pub fn target_url(config: &AppConfig, req: &InboundRequest) -> (url: String)
    ensures
        url@ == target_url_of(config, req@),
{
    match &req.path_and_query {
        Some(p) => config.target.backend_url(Some(p.as_str())),
        None => config.target.backend_url(None),
    }
}

/// Transforms an inbound request into the request for the upstream target.
pub fn transform_request(req: &InboundRequest, body: &Vec<u8>, config: &AppConfig) -> (r: Result<
    OutboundRequest,
    ProxyError,
>)
    ensures
        request_result_view(r) == transformed(config, req@, body@),
{
    let url = target_url(config, req);
    build_proxy_request(req, body, url.as_str())
}

/// Turns what became of the outbound request into the response for the
/// caller, or into the failure that ends the course.
pub fn conclude(outcome: ForwardOutcome) -> (r: Result<OutboundResponse, ProxyError>)
    ensures
        response_result_view(r) == concluded(outcome@),
{
    match outcome {
        ForwardOutcome::Answered(resp) => build_client_response(resp),
        ForwardOutcome::SendFailed(m) => Err(ProxyError::RequestError(m)),
        ForwardOutcome::ReadFailed(m) => Err(ProxyError::ResponseReadError(m)),
    }
}

/// The reply that tells the caller of a failure.
pub fn reply_failure(e: &ProxyError) -> (reply: ClientReply)
    ensures
        reply@ == failure_reply(e@),
{
    let resp = e.error_response();
    let reply = ClientReply {
        status: resp.status,
        headers: Vec::new(),
        body: ReplyBody::Error(resp.body),
    };
    proof {
        assert(headers_view(reply.headers@) =~= Seq::<HeaderView>::empty());
    }
    reply
}

/// The reply at the end of a request's course.
pub fn reply(result: Result<OutboundResponse, ProxyError>) -> (reply: ClientReply)
    ensures
        reply@ == reply_of(response_result_view(result)),
{
    match result {
        Ok(resp) => ClientReply {
            status: resp.status,
            headers: resp.headers,
            body: ReplyBody::Bytes(resp.body),
        },
        Err(e) => reply_failure(&e),
    }
}

/// Takes an inbound request and says what the host does next: send the
/// transformed request, or, where the transformation failed, answer the
/// caller at once without sending anything.
pub fn on_request(req: &InboundRequest, body: &Vec<u8>, config: &AppConfig) -> (step: NextStep)
    ensures
        step@ == step_after(transformed(config, req@, body@)),
        step is Send <==> transformed(config, req@, body@) is Ok,
{
    match transform_request(req, body, config) {
        Ok(out) => NextStep::Send(out),
        Err(e) => NextStep::Reply(reply_failure(&e)),
    }
}

/// Takes what became of the outbound request and gives the reply for the
/// caller.
pub fn on_outcome(outcome: ForwardOutcome) -> (reply: ClientReply)
    ensures
        reply@ == reply_of(concluded(outcome@)),
{
    self::reply(conclude(outcome))
}

} // verus!
