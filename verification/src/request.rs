//! From an inbound request to the request that is sent upstream.

use vstd::prelude::*;
use vstd::slice::slice_to_vec;
use crate::error::{ErrorView, ProxyError};
use crate::header::{
    find_unsendable, first_unsendable, forward_headers, forwarded, headers_view, Direction,
    Header, HeaderView,
};
use crate::text::{opt_bytes, opt_text, parse_url, url_parse_failure};

verus! {

/// A request as the caller sent it, without its body.
#[derive(Debug, Clone)]
pub struct InboundRequest {
    pub method: String,
    /// The path and query of the request's URI, where it has one.
    pub path_and_query: Option<String>,
    /// The headers in the order in which they arrived, duplicates included.
    pub headers: Vec<Header>,
}

/// The mathematical content of an [`InboundRequest`].
pub struct InboundRequestView {
    pub method: Seq<char>,
    pub path_and_query: Option<Seq<char>>,
    pub headers: Seq<HeaderView>,
}

impl View for InboundRequest {
    type V = InboundRequestView;

    open spec fn view(&self) -> InboundRequestView {
        InboundRequestView {
            method: self.method@,
            path_and_query: opt_text(self.path_and_query),
            headers: headers_view(self.headers@),
        }
    }
}

/// A request that is ready to be sent to the upstream target.
#[derive(Debug, Clone)]
pub struct OutboundRequest {
    pub method: String,
    pub url: String,
    pub headers: Vec<Header>,
    /// The body; `None` where the inbound body was empty.
    pub body: Option<Vec<u8>>,
}

/// The mathematical content of an [`OutboundRequest`].
pub struct OutboundRequestView {
    pub method: Seq<char>,
    pub url: Seq<char>,
    pub headers: Seq<HeaderView>,
    pub body: Option<Seq<u8>>,
}

impl View for OutboundRequest {
    type V = OutboundRequestView;

    open spec fn view(&self) -> OutboundRequestView {
        OutboundRequestView {
            method: self.method@,
            url: self.url@,
            headers: headers_view(self.headers@),
            body: opt_bytes(self.body),
        }
    }
}

/// The content of the outcome of building a request.
pub open spec fn request_result_view(r: Result<OutboundRequest, ProxyError>) -> Result<
    OutboundRequestView,
    ErrorView,
> {
    match r {
        Ok(out) => Ok(out@),
        Err(e) => Err(e@),
    }
}

/// The body that goes out with a request: the inbound bytes, or none at all
/// where there are no bytes.
pub open spec fn outbound_body(body: Seq<u8>) -> Option<Seq<u8>> {
    if body.len() > 0 {
        Some(body)
    } else {
        None
    }
}

/// The outbound request for an inbound one, given the target URL and what the
/// URL parser said of it.
///
/// A URL that does not parse is reported first, with the parser's message.
/// Then the first header that would be sent but whose value is not text is
/// reported by name. Otherwise the method and the URL are taken as they are,
/// the headers that cross the proxy are copied, and a body is attached only
/// where it is not empty.
pub open spec fn built_request(
    req: InboundRequestView,
    body: Seq<u8>,
    url: Seq<char>,
    url_failure: Option<Seq<char>>,
) -> Result<OutboundRequestView, ErrorView> {
    match url_failure {
        Some(m) => Err(ErrorView::RequestBuilderError(m)),
        None => match first_unsendable(req.headers) {
            Some(name) => Err(ErrorView::InvalidHeader(name)),
            None => Ok(
                OutboundRequestView {
                    method: req.method,
                    url,
                    headers: forwarded(Direction::ToUpstream, req.headers),
                    body: outbound_body(body),
                },
            ),
        },
    }
}

/// Builds the outbound request once the URL parser has given its verdict on
/// the target URL: `None` for a URL that parsed, else the parser's message.
pub fn assemble_request(
    req: &InboundRequest,
    body: &Vec<u8>,
    backend_url: &str,
    url_failure: Option<String>,
) -> (r: Result<OutboundRequest, ProxyError>)
    ensures
        request_result_view(r) == built_request(req@, body@, backend_url@, opt_text(url_failure)),
{
    if let Some(message) = url_failure {
        return Err(ProxyError::RequestBuilderError(message));
    }
    if let Some(name) = find_unsendable(&req.headers) {
        return Err(ProxyError::InvalidHeader(name));
    }
    let headers = forward_headers(Direction::ToUpstream, &req.headers);
    let out_body = if body.len() > 0 {
        Some(slice_to_vec(body.as_slice()))
    } else {
        None
    };
    Ok(
        OutboundRequest {
            method: req.method.clone(),
            url: backend_url.to_owned(),
            headers,
            body: out_body,
        },
    )
}

/// Builds the request that is sent to `backend_url` for an inbound request
/// and its body.
pub fn build_proxy_request(req: &InboundRequest, body: &Vec<u8>, backend_url: &str) -> (r: Result<
    OutboundRequest,
    ProxyError,
>)
    ensures
        request_result_view(r) == built_request(
            req@,
            body@,
            backend_url@,
            url_parse_failure(backend_url@),
        ),
{
    let url_failure = parse_url(backend_url);
    assemble_request(req, body, backend_url, url_failure)
}

} // verus!
