//! Turning the byte runs that cross the component boundary into text. The
//! interface carries keys, values, methods and URIs as UTF-8; the bindings stop
//! on any run that is not, so each function here asks for valid UTF-8.
use vstd::prelude::*;
use vstd::utf8::{decode_utf8, valid_utf8};

verus! {

/// The bytes as text, when they are valid UTF-8 (`String::from_utf8`); `None`
/// when they are not.
#[verifier::external_body]
fn string_from_utf8(bytes: Vec<u8>) -> (r: Option<String>)
    ensures
        r is Some <==> valid_utf8(bytes@),
        r is Some ==> r->Some_0@ == decode_utf8(bytes@),
{
    String::from_utf8(bytes).ok()
}

/// The text that a run of UTF-8 bytes stands for.
pub fn lift_string(bytes: Vec<u8>) -> (r: String)
    requires
        valid_utf8(bytes@),
    ensures
        r@ == decode_utf8(bytes@),
{
    match string_from_utf8(bytes) {
        Some(s) => s,
        None => vstd::pervasive::unreached(),
    }
}

/// A copy of a run of bytes.
fn copy_bytes(b: &Vec<u8>) -> (r: Vec<u8>)
    ensures
        r@ == b@,
{
    let mut out: Vec<u8> = Vec::new();
    let mut i: usize = 0;
    while i < b.len()
        invariant
            i <= b.len(),
            out@ == b@.take(i as int),
        decreases b.len() - i,
    {
        out.push(b[i]);
        assert(b@.take(i + 1) == b@.take(i as int).push(b@[i as int]));
        i = i + 1;
    }
    assert(b@.take(b.len() as int) == b@);
    out
}

/// Every run of the list is valid UTF-8.
pub open spec fn all_utf8(items: Seq<Vec<u8>>) -> bool {
    forall|i: int| 0 <= i < items.len() ==> valid_utf8(#[trigger] items[i]@)
}

/// The texts that a list of UTF-8 runs stands for, in order.
pub fn lift_strings(items: &[Vec<u8>]) -> (r: Vec<String>)
    requires
        all_utf8(items@),
    ensures
        r@.len() == items@.len(),
        forall|i: int| 0 <= i < items@.len() ==> #[trigger] r@[i]@ == decode_utf8(items@[i]@),
{
    let mut out: Vec<String> = Vec::new();
    let mut i: usize = 0;
    while i < items.len()
        invariant
            i <= items@.len(),
            all_utf8(items@),
            out@.len() == i,
            forall|k: int| 0 <= k < i ==> #[trigger] out@[k]@ == decode_utf8(items@[k]@),
        decreases items@.len() - i,
    {
        assert(valid_utf8(items@[i as int]@));
        out.push(lift_string(copy_bytes(&items[i])));
        i = i + 1;
    }
    out
}

/// Every key and value of the list is valid UTF-8.
pub open spec fn all_utf8_pairs(pairs: Seq<(Vec<u8>, Vec<u8>)>) -> bool {
    forall|i: int|
        0 <= i < pairs.len() ==> valid_utf8(#[trigger] pairs[i].0@) && valid_utf8(pairs[i].1@)
}

/// The text pairs (headers) that a list of UTF-8 key and value runs stands for.
pub open spec fn pairs_text(pairs: Seq<(Vec<u8>, Vec<u8>)>) -> Seq<(Seq<char>, Seq<char>)> {
    pairs.map_values(|p: (Vec<u8>, Vec<u8>)| (decode_utf8(p.0@), decode_utf8(p.1@)))
}

/// A list of text pairs as character sequences.
pub open spec fn pairs_view(pairs: Seq<(String, String)>) -> Seq<(Seq<char>, Seq<char>)> {
    pairs.map_values(|p: (String, String)| (p.0@, p.1@))
}

/// The headers that a list of UTF-8 key and value runs stands for, in order.
pub fn lift_headers(pairs: &[(Vec<u8>, Vec<u8>)]) -> (r: Vec<(String, String)>)
    requires
        all_utf8_pairs(pairs@),
    ensures
        pairs_view(r@) == pairs_text(pairs@),
{
    let mut out: Vec<(String, String)> = Vec::new();
    let mut i: usize = 0;
    while i < pairs.len()
        invariant
            i <= pairs@.len(),
            all_utf8_pairs(pairs@),
            pairs_view(out@) == pairs_text(pairs@.take(i as int)),
        decreases pairs@.len() - i,
    {
        let p = &pairs[i];
        assert(valid_utf8(pairs@[i as int].0@) && valid_utf8(pairs@[i as int].1@));
        let k = lift_string(copy_bytes(&p.0));
        let v = lift_string(copy_bytes(&p.1));
        let ghost before = out@;
        let ghost kv = (k@, v@);
        out.push((k, v));
        assert(pairs_view(out@) =~= pairs_view(before).push(kv));
        assert(pairs_text(pairs@.take(i + 1)) =~= pairs_text(pairs@.take(i as int)).push(kv));
        i = i + 1;
    }
    assert(pairs@.take(pairs@.len() as int) =~= pairs@);
    out
}

/// A request handed to a component's handler.
#[derive(Debug)]
pub struct HandlerRequest {
    /// The request's number.
    pub request_id: u64,
    /// The HTTP method.
    pub method: String,
    /// The URI.
    pub uri: String,
    /// The headers, in order.
    pub headers: Vec<(String, String)>,
    /// The body, if any.
    pub body: Option<Vec<u8>>,
}

/// The request that the flat arguments of `handle-request` stand for: the id,
/// the method's and the URI's bytes, the header pairs' bytes, and the body's
/// tag (0 none, 1 some) and bytes. The texts must be UTF-8 and the tag 0 or 1:
/// the bindings stop on anything else.
pub fn lift_request(
    request_id: u64,
    method: Vec<u8>,
    uri: Vec<u8>,
    headers: &[(Vec<u8>, Vec<u8>)],
    body_tag: u32,
    body: Vec<u8>,
) -> (r: HandlerRequest)
    requires
        valid_utf8(method@),
        valid_utf8(uri@),
        all_utf8_pairs(headers@),
        body_tag <= 1,
    ensures
        r.request_id == request_id,
        r.method@ == decode_utf8(method@),
        r.uri@ == decode_utf8(uri@),
        pairs_view(r.headers@) == pairs_text(headers@),
        body_tag == 0 ==> r.body is None,
        body_tag == 1 ==> r.body is Some && r.body->Some_0@ == body@,
{
    let b = if body_tag == 0 {
        None
    } else {
        Some(body)
    };
    HandlerRequest {
        request_id,
        method: lift_string(method),
        uri: lift_string(uri),
        headers: lift_headers(headers),
        body: b,
    }
}

} // verus!
