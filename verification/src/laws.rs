//! What holds of the proxy for every request and every answer, proved from
//! the definitions that the functions' contracts are stated in.

use vstd::prelude::*;
use vstd::utf8::valid_utf8;
use crate::config::AppConfig;
use crate::error::{ErrorBodyView, ErrorView};
use crate::handler::{
    concluded, failure_reply, reply_of, step_after, target_url_of, transformed, ForwardOutcomeView,
    ReplyBodyView,
};
use crate::header::{
    first_unsendable, forwarded, is_dropped, is_framing_name, is_unsendable, same_name, Direction,
    HeaderView,
};
use crate::request::{built_request, outbound_body, InboundRequestView, OutboundRequestView};
use crate::response::{built_response, ResponseView};
use crate::text::{decimal_text, url_parse_failure};

verus! {

/// The target URL is the protocol, `://`, the host, a colon and the port in
/// decimal, followed by the inbound path and query exactly as it came; where
/// the request has none, nothing follows the port.
pub proof fn lemma_target_url_shape(config: &AppConfig, req: InboundRequestView)
    ensures
        req.path_and_query is Some ==> target_url_of(config, req) == config.target.protocol@
            + "://"@ + config.target.host@ + ":"@ + decimal_text(config.target.port as nat)
            + req.path_and_query->0,
        req.path_and_query is None ==> target_url_of(config, req) == config.target.protocol@
            + "://"@ + config.target.host@ + ":"@ + decimal_text(config.target.port as nat),
{
    let prefix = config.target.protocol@ + "://"@ + config.target.host@ + ":"@ + decimal_text(
        config.target.port as nat,
    );
    assert(prefix + Seq::<char>::empty() =~= prefix);
}

/// A request that is built carries the inbound method and the target URL
/// unchanged, the inbound headers without `host` and the framing headers, and
/// the inbound body where it has bytes.
pub proof fn lemma_built_request_shape(
    req: InboundRequestView,
    body: Seq<u8>,
    url: Seq<char>,
    url_failure: Option<Seq<char>>,
)
    requires
        built_request(req, body, url, url_failure) is Ok,
    ensures
        built_request(req, body, url, url_failure)->Ok_0.method == req.method,
        built_request(req, body, url, url_failure)->Ok_0.url == url,
        built_request(req, body, url, url_failure)->Ok_0.headers == forwarded(
            Direction::ToUpstream,
            req.headers,
        ),
        built_request(req, body, url, url_failure)->Ok_0.body == outbound_body(body),
{
}

/// A header is among the forwarded ones exactly when it is among the given
/// ones and its name is not dropped in that direction.
pub proof fn lemma_forwarded_members(dir: Direction, hs: Seq<HeaderView>, h: HeaderView)
    ensures
        forwarded(dir, hs).contains(h) <==> hs.contains(h) && !is_dropped(dir, h.name),
{
    let keep = |x: HeaderView| !is_dropped(dir, x.name);
    if forwarded(dir, hs).contains(h) {
        hs.lemma_filter_contains_rev(keep, h);
        let i = choose|i: int| 0 <= i < hs.filter(keep).len() && hs.filter(keep)[i] == h;
        hs.lemma_filter_pred(keep, i);
    }
    if hs.contains(h) && !is_dropped(dir, h.name) {
        let i = choose|i: int| 0 <= i < hs.len() && hs[i] == h;
        hs.lemma_filter_contains(keep, i);
    }
}

/// Forwarding goes header by header and keeps the order: the forwarded
/// headers of two lists, one after the other, are those of the first followed
/// by those of the second.
pub proof fn lemma_forwarded_in_order(dir: Direction, a: Seq<HeaderView>, b: Seq<HeaderView>)
    ensures
        forwarded(dir, a + b) == forwarded(dir, a) + forwarded(dir, b),
{
    let keep = |x: HeaderView| !is_dropped(dir, x.name);
    Seq::filter_distributes_over_add(a, b, keep);
}

/// A single header is forwarded unchanged, or not at all where its name is
/// dropped. With the law on order this settles duplicates too: each
/// occurrence is kept or dropped by itself.
pub proof fn lemma_forwarded_single(dir: Direction, h: HeaderView)
    ensures
        forwarded(dir, seq![h]) == if is_dropped(dir, h.name) {
            Seq::<HeaderView>::empty()
        } else {
            seq![h]
        },
{
    reveal_with_fuel(Seq::filter, 2);
    assert(seq![h].drop_last() =~= Seq::<HeaderView>::empty());
    assert(seq![h].last() == h);
    assert(Seq::<HeaderView>::empty().push(h) =~= seq![h]);
}

/// Where no name is dropped, the headers pass as they are.
pub proof fn lemma_forwarded_all(dir: Direction, hs: Seq<HeaderView>)
    requires
        forall|i: int| 0 <= i < hs.len() ==> !is_dropped(dir, #[trigger] hs[i].name),
    ensures
        forwarded(dir, hs) == hs,
    decreases hs.len(),
{
    reveal(Seq::filter);
    if hs.len() > 0 {
        lemma_forwarded_all(dir, hs.drop_last());
        assert(hs.drop_last().push(hs.last()) =~= hs);
    }
}

/// The names dropped on the way upstream are `host` and the two framing
/// headers, in any case of letters; on the way back only the framing headers.
pub proof fn lemma_dropped_names(name: Seq<char>)
    ensures
        is_dropped(Direction::ToUpstream, name) <==> same_name(name, "host"@) || same_name(
            name,
            "content-length"@,
        ) || same_name(name, "transfer-encoding"@),
        is_dropped(Direction::ToClient, name) <==> same_name(name, "content-length"@) || same_name(
            name,
            "transfer-encoding"@,
        ),
{
}

/// No request that is built carries a `host` header taken from the caller,
/// nor a framing header.
pub proof fn lemma_no_host_upstream(
    req: InboundRequestView,
    body: Seq<u8>,
    url: Seq<char>,
    url_failure: Option<Seq<char>>,
    h: HeaderView,
)
    requires
        built_request(req, body, url, url_failure) is Ok,
        built_request(req, body, url, url_failure)->Ok_0.headers.contains(h),
    ensures
        !same_name(h.name, "host"@),
        !is_framing_name(h.name),
        req.headers.contains(h),
{
    lemma_forwarded_members(Direction::ToUpstream, req.headers, h);
}

/// A request is built exactly when the URL parsed and no header that would be
/// sent has a value that is not text.
pub proof fn lemma_built_when(
    req: InboundRequestView,
    body: Seq<u8>,
    url: Seq<char>,
    url_failure: Option<Seq<char>>,
)
    ensures
        built_request(req, body, url, url_failure) is Ok <==> url_failure is None && forall|i: int|
            0 <= i < req.headers.len() ==> !is_unsendable(#[trigger] req.headers[i]),
{
    lemma_first_unsendable(req.headers);
}

/// `first_unsendable` finds nothing exactly when no header is unsendable, and
/// else names the one such header that has none before it.
pub proof fn lemma_first_unsendable(hs: Seq<HeaderView>)
    ensures
        first_unsendable(hs) is None <==> forall|i: int|
            0 <= i < hs.len() ==> !is_unsendable(#[trigger] hs[i]),
        first_unsendable(hs) is Some ==> exists|i: int|
            0 <= i < hs.len() && is_unsendable(#[trigger] hs[i]) && first_unsendable(hs) == Some(
                hs[i].name,
            ) && forall|j: int| 0 <= j < i ==> !is_unsendable(#[trigger] hs[j]),
    decreases hs.len(),
{
    if hs.len() > 0 {
        if is_unsendable(hs[0]) {
            assert(0 <= 0 < hs.len() && is_unsendable(hs[0]));
        } else {
            let rest = hs.skip(1);
            lemma_first_unsendable(rest);
            assert forall|i: int| 0 <= i < rest.len() implies rest[i] == hs[i + 1] by {}
            if first_unsendable(rest) is Some {
                let k = choose|i: int|
                    0 <= i < rest.len() && is_unsendable(#[trigger] rest[i]) && first_unsendable(
                        rest,
                    ) == Some(rest[i].name) && forall|j: int|
                        0 <= j < i ==> !is_unsendable(#[trigger] rest[j]);
                assert(is_unsendable(hs[k + 1]));
                assert forall|j: int| 0 <= j < k + 1 implies !is_unsendable(#[trigger] hs[j]) by {
                    if j > 0 {
                        assert(rest[j - 1] == hs[j]);
                    }
                }
            } else {
                assert forall|i: int| 0 <= i < hs.len() implies !is_unsendable(
                    #[trigger] hs[i],
                ) by {
                    if i > 0 {
                        assert(rest[i - 1] == hs[i]);
                    }
                }
            }
        }
    }
}

/// The same inbound request, built twice, gives the same outcome: nothing is
/// remembered from one request to the next.
pub proof fn lemma_same_request_same_outcome(
    config: &AppConfig,
    first: InboundRequestView,
    first_body: Seq<u8>,
    second: InboundRequestView,
    second_body: Seq<u8>,
)
    requires
        first == second,
        first_body == second_body,
    ensures
        transformed(config, first, first_body) == transformed(config, second, second_body),
        step_after(transformed(config, first, first_body)) == step_after(
            transformed(config, second, second_body),
        ),
{
}

/// A body is attached to the outbound request exactly when the inbound body
/// has bytes, and then it is the inbound body.
pub proof fn lemma_body_attached(body: Seq<u8>)
    ensures
        outbound_body(body) is Some <==> body.len() > 0,
        outbound_body(body) is Some ==> outbound_body(body)->0 == body,
{
}

/// A response is built exactly when the upstream body is well-formed UTF-8.
/// It then has the upstream's status, the upstream's headers without the
/// framing headers, and the upstream's body, byte for byte and of the same
/// length.
pub proof fn lemma_response_passes(upstream: ResponseView)
    ensures
        built_response(upstream) is Ok <==> valid_utf8(upstream.body),
        built_response(upstream) is Ok ==> {
            let out = built_response(upstream)->Ok_0;
            &&& out.status == upstream.status
            &&& out.body == upstream.body
            &&& out.body.len() == upstream.body.len()
            &&& out.headers == forwarded(Direction::ToClient, upstream.headers)
        },
        built_response(upstream) is Err ==> built_response(upstream)->Err_0
            == ErrorView::ResponseBodyConversionError,
{
}

/// An answer whose body is well-formed UTF-8 reaches the caller under the
/// upstream's status with the body unchanged.
pub proof fn lemma_answer_reaches_caller(upstream: ResponseView)
    requires
        valid_utf8(upstream.body),
    ensures
        reply_of(concluded(ForwardOutcomeView::Answered(upstream))).status == upstream.status,
        reply_of(concluded(ForwardOutcomeView::Answered(upstream))).body == ReplyBodyView::Bytes(
            upstream.body,
        ),
{
}

/// An answer whose body is not UTF-8 is replaced by a reply of status 500
/// whose error object has no details, whatever the upstream's status was.
pub proof fn lemma_binary_answer_replaced(upstream: ResponseView)
    requires
        !valid_utf8(upstream.body),
    ensures
        reply_of(concluded(ForwardOutcomeView::Answered(upstream))) == failure_reply(
            ErrorView::ResponseBodyConversionError,
        ),
        reply_of(concluded(ForwardOutcomeView::Answered(upstream))).status == 500,
        reply_of(concluded(ForwardOutcomeView::Answered(upstream))).body == ReplyBodyView::Error(
            ErrorBodyView { error: "响应体转换错误"@, details: None },
        ),
{
}

/// A target URL that does not parse ends the course before anything is sent:
/// the next step is a reply of status 400 that carries the parser's message.
pub proof fn lemma_bad_url_never_sent(config: &AppConfig, req: InboundRequestView, body: Seq<u8>)
    requires
        url_parse_failure(target_url_of(config, req)) is Some,
    ensures
        transformed(config, req, body) == Err::<OutboundRequestView, ErrorView>(
            ErrorView::RequestBuilderError(url_parse_failure(target_url_of(config, req))->0),
        ),
        step_after(transformed(config, req, body)) is Reply,
        step_after(transformed(config, req, body))->Reply_0.status == 400,
{
}

/// Every failure reaches the caller as 400 or 500: 400 for a target URL that
/// does not parse and for a header value that is not text, 500 for all
/// others.
pub proof fn lemma_failure_status(e: ErrorView)
    ensures
        failure_reply(e).status == 400 || failure_reply(e).status == 500,
        failure_reply(e).status == 400 <==> e is RequestBuilderError || e is InvalidHeader,
        failure_reply(e).headers.len() == 0,
{
}

} // verus!
