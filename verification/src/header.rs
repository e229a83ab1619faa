//! Headers as an ordered list of name/value pairs, and the rule that decides
//! which of them cross the proxy.

use vstd::prelude::*;
use vstd::slice::slice_to_vec;
use vstd::utf8::encode_utf8;
use crate::text::opt_text;

verus! {

/// One header line. The name is text; the value is kept as the raw bytes that
/// came over the wire.
#[derive(Debug, Clone)]
pub struct Header {
    pub name: String,
    pub value: Vec<u8>,
}

/// The mathematical content of a [`Header`].
pub struct HeaderView {
    pub name: Seq<char>,
    pub value: Seq<u8>,
}

impl View for Header {
    type V = HeaderView;

    open spec fn view(&self) -> HeaderView {
        HeaderView { name: self.name@, value: self.value@ }
    }
}

/// The content of a list of headers, in order.
pub open spec fn headers_view(hs: Seq<Header>) -> Seq<HeaderView> {
    hs.map_values(|h: Header| h@)
}

/// Which way a message travels through the proxy.
#[derive(Debug, Clone, Copy, PartialEq, Eq, Structural)]
pub enum Direction {
    /// From the caller to the upstream target.
    ToUpstream,
    /// From the upstream target back to the caller.
    ToClient,
}

/// An ASCII upper-case letter becomes its lower-case form; every other byte
/// stays.
pub open spec fn fold_byte(b: u8) -> u8 {
    if 65 <= b && b <= 90 {
        (b + 32) as u8
    } else {
        b
    }
}

/// Two names are the same when their UTF-8 bytes agree up to the case of
/// ASCII letters.
pub open spec fn same_name(a: Seq<char>, b: Seq<char>) -> bool {
    let x = encode_utf8(a);
    let y = encode_utf8(b);
    x.len() == y.len() && forall|i: int| 0 <= i < x.len() ==> fold_byte(#[trigger] x[i]) == fold_byte(y[i])
}

/// A framing header describes how the body was written on one connection.
pub open spec fn is_framing_name(name: Seq<char>) -> bool {
    same_name(name, "content-length"@) || same_name(name, "transfer-encoding"@)
}

/// The headers that never cross the proxy in the given direction: the framing
/// headers both ways, and `host` on the way to the upstream.
pub open spec fn is_dropped(dir: Direction, name: Seq<char>) -> bool {
    is_framing_name(name) || (dir == Direction::ToUpstream && same_name(name, "host"@))
}

/// The headers that cross the proxy: every header whose name is not dropped,
/// unchanged, duplicates included, in the order in which they came.
pub open spec fn forwarded(dir: Direction, hs: Seq<HeaderView>) -> Seq<HeaderView> {
    hs.filter(|h: HeaderView| !is_dropped(dir, h.name))
}

/// A byte that may stand in a header value read as text: a printable ASCII
/// character or a tab.
pub open spec fn is_text_byte(b: u8) -> bool {
    (32 <= b && b < 127) || b == 9
}

/// A header value is text when each of its bytes is.
pub open spec fn is_text(value: Seq<u8>) -> bool {
    forall|i: int| 0 <= i < value.len() ==> is_text_byte(#[trigger] value[i])
}

/// A header that would be sent upstream but whose value is not text.
pub open spec fn is_unsendable(h: HeaderView) -> bool {
    !is_dropped(Direction::ToUpstream, h.name) && !is_text(h.value)
}

/// The name of the first header, in order, that would be sent upstream but
/// whose value is not text.
pub open spec fn first_unsendable(hs: Seq<HeaderView>) -> Option<Seq<char>>
    decreases hs.len(),
{
    if hs.len() == 0 {
        None
    } else if is_unsendable(hs[0]) {
        Some(hs[0].name)
    } else {
        first_unsendable(hs.skip(1))
    }
}

fn fold(b: u8) -> (r: u8)
    ensures
        r == fold_byte(b),
{
    if 65 <= b && b <= 90 {
        b + 32
    } else {
        b
    }
}

/// Compares two header names without regard to the case of ASCII letters.
pub fn name_matches(name: &str, other: &str) -> (r: bool)
    ensures
        r == same_name(name@, other@),
{
    let a = name.as_bytes();
    let b = other.as_bytes();
    if a.len() != b.len() {
        return false;
    }
    let mut i: usize = 0;
    while i < a.len()
        invariant
            a@ == encode_utf8(name@),
            b@ == encode_utf8(other@),
            a@.len() == b@.len(),
            i <= a@.len(),
            forall|j: int| 0 <= j < i ==> fold_byte(#[trigger] a@[j]) == fold_byte(b@[j]),
        decreases a@.len() - i,
    {
        if fold(a[i]) != fold(b[i]) {
            return false;
        }
        i += 1;
    }
    true
}

/// Says whether a header of this name is left out in the given direction.
pub fn drops_header(dir: Direction, name: &str) -> (r: bool)
    ensures
        r == is_dropped(dir, name@),
{
    if name_matches(name, "content-length") || name_matches(name, "transfer-encoding") {
        true
    } else {
        match dir {
            Direction::ToUpstream => name_matches(name, "host"),
            Direction::ToClient => false,
        }
    }
}

/// Says whether a header value can be read as text.
pub fn value_is_text(value: &Vec<u8>) -> (r: bool)
    ensures
        r == is_text(value@),
{
    let mut i: usize = 0;
    while i < value.len()
        invariant
            i <= value.len(),
            forall|j: int| 0 <= j < i ==> is_text_byte(#[trigger] value@[j]),
        decreases value.len() - i,
    {
        let b: u8 = value[i];
        if !((32 <= b && b < 127) || b == 9) {
            return false;
        }
        i += 1;
    }
    true
}

impl Header {
    /// A header with the given name and value.
    pub fn new(name: String, value: Vec<u8>) -> (h: Header)
        ensures
            h@ == (HeaderView { name: name@, value: value@ }),
    {
        Header { name, value }
    }

    /// An independent copy with the same name and value.
    pub fn duplicate(&self) -> (h: Header)
        ensures
            h@ == self@,
    {
        Header { name: self.name.clone(), value: slice_to_vec(self.value.as_slice()) }
    }
}

/// Copies the headers that cross the proxy in the given direction.
pub fn forward_headers(dir: Direction, headers: &Vec<Header>) -> (out: Vec<Header>)
    ensures
        headers_view(out@) == forwarded(dir, headers_view(headers@)),
{
    let ghost all = headers_view(headers@);
    let ghost keep = |h: HeaderView| !is_dropped(dir, h.name);
    let mut out: Vec<Header> = Vec::new();
    let mut i: usize = 0;
    proof {
        reveal(Seq::filter);
        assert(all.take(0).filter(keep) =~= Seq::<HeaderView>::empty());
        assert(headers_view(out@) =~= Seq::<HeaderView>::empty());
    }
    while i < headers.len()
        invariant
            i <= headers.len(),
            all == headers_view(headers@),
            keep == (|h: HeaderView| !is_dropped(dir, h.name)),
            headers_view(out@) == all.take(i as int).filter(keep),
        decreases headers.len() - i,
    {
        let h = &headers[i];
        let ghost before = headers_view(out@);
        proof {
            reveal(Seq::filter);
            assert(all.take(i + 1).drop_last() =~= all.take(i as int));
            assert(all.take(i + 1).last() == h@);
        }
        if !drops_header(dir, h.name.as_str()) {
            out.push(h.duplicate());
            proof {
                assert(headers_view(out@) =~= before.push(h@));
            }
        }
        i += 1;
    }
    proof {
        assert(all.take(i as int) =~= all);
    }
    out
}

/// Looks for the first header that would be sent upstream but whose value is
/// not text, and gives its name.
pub fn find_unsendable(headers: &Vec<Header>) -> (r: Option<String>)
    ensures
        opt_text(r) == first_unsendable(headers_view(headers@)),
{
    let ghost all = headers_view(headers@);
    let mut i: usize = 0;
    proof {
        assert(all.skip(0) =~= all);
    }
    while i < headers.len()
        invariant
            i <= headers.len(),
            all == headers_view(headers@),
            first_unsendable(all) == first_unsendable(all.skip(i as int)),
        decreases headers.len() - i,
    {
        let h = &headers[i];
        proof {
            assert(all.skip(i as int)[0] == h@);
            assert(all.skip(i as int).skip(1) =~= all.skip(i + 1));
        }
        if !drops_header(Direction::ToUpstream, h.name.as_str()) && !value_is_text(&h.value) {
            return Some(h.name.clone());
        }
        i += 1;
    }
    None
}

} // verus!
