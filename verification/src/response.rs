//! From the upstream's answer to the response that the caller receives.

use vstd::prelude::*;
use vstd::utf8::valid_utf8;
use crate::error::{ErrorView, ProxyError};
use crate::header::{forward_headers, forwarded, headers_view, Direction, Header, HeaderView};
use crate::text::bytes_are_utf8;

verus! {

/// What the upstream target answered, its body read in full.
#[derive(Debug, Clone)]
pub struct UpstreamResponse {
    pub status: u16,
    pub headers: Vec<Header>,
    pub body: Vec<u8>,
}

/// What the caller is sent on success.
#[derive(Debug, Clone)]
pub struct OutboundResponse {
    pub status: u16,
    pub headers: Vec<Header>,
    pub body: Vec<u8>,
}

/// The mathematical content of a response, upstream or outbound.
pub struct ResponseView {
    pub status: u16,
    pub headers: Seq<HeaderView>,
    pub body: Seq<u8>,
}

impl View for UpstreamResponse {
    type V = ResponseView;

    open spec fn view(&self) -> ResponseView {
        ResponseView { status: self.status, headers: headers_view(self.headers@), body: self.body@ }
    }
}

impl View for OutboundResponse {
    type V = ResponseView;

    open spec fn view(&self) -> ResponseView {
        ResponseView { status: self.status, headers: headers_view(self.headers@), body: self.body@ }
    }
}

/// The content of the outcome of building a response.
pub open spec fn response_result_view(r: Result<OutboundResponse, ProxyError>) -> Result<
    ResponseView,
    ErrorView,
> {
    match r {
        Ok(out) => Ok(out@),
        Err(e) => Err(e@),
    }
}

/// The outbound response for an upstream one. A body that is well-formed
/// UTF-8 is passed on byte for byte under the upstream's status, with the
/// headers that cross the proxy. Any other body is a failure, whatever the
/// status was.
pub open spec fn built_response(upstream: ResponseView) -> Result<ResponseView, ErrorView> {
    if valid_utf8(upstream.body) {
        Ok(
            ResponseView {
                status: upstream.status,
                headers: forwarded(Direction::ToClient, upstream.headers),
                body: upstream.body,
            },
        )
    } else {
        Err(ErrorView::ResponseBodyConversionError)
    }
}

/// Builds the response for the caller from the upstream's answer.
pub fn build_client_response(upstream: UpstreamResponse) -> (r: Result<OutboundResponse, ProxyError>)
    ensures
        response_result_view(r) == built_response(upstream@),
{
    let headers = forward_headers(Direction::ToClient, &upstream.headers);
    if bytes_are_utf8(&upstream.body) {
        Ok(OutboundResponse { status: upstream.status, headers, body: upstream.body })
    } else {
        Err(ProxyError::ResponseBodyConversionError)
    }
}

} // verus!
