//! Little-endian words and the fixed-size records that the component bindings
//! exchange with the host through linear memory.
use vstd::prelude::*;

verus! {

/// The bytes of `v`, least significant first.
pub open spec fn u32_bytes(v: u32) -> Seq<u8> {
    seq![
        #[verifier::truncate] ((v & 0xff) as u8),
        #[verifier::truncate] (((v >> 8u32) & 0xff) as u8),
        #[verifier::truncate] (((v >> 16u32) & 0xff) as u8),
        #[verifier::truncate] (((v >> 24u32) & 0xff) as u8),
    ]
}

/// The bytes of `v`, least significant first.
pub open spec fn u16_bytes(v: u16) -> Seq<u8> {
    seq![#[verifier::truncate] ((v & 0xff) as u8), #[verifier::truncate] (((v >> 8u16) & 0xff) as u8)]
}

/// The little-endian word stored at `off`.
pub open spec fn spec_read_u32(b: Seq<u8>, off: int) -> u32 {
    (b[off] as u32) | ((b[off + 1] as u32) << 8u32) | ((b[off + 2] as u32) << 16u32) | ((b[off
        + 3] as u32) << 24u32)
}

/// The little-endian half-word stored at `off`.
pub open spec fn spec_read_u16(b: Seq<u8>, off: int) -> u16 {
    (b[off] as u16) | ((b[off + 1] as u16) << 8u16)
}

/// `s` with the bytes `bs` written from `off` on.
pub open spec fn put(s: Seq<u8>, off: int, bs: Seq<u8>) -> Seq<u8> {
    s.take(off) + bs + s.skip(off + bs.len())
}

/// Reading a word back gives the word that was written.
pub proof fn lemma_u32_roundtrip(v: u32)
    ensures
        spec_read_u32(u32_bytes(v), 0) == v,
{
    let b = u32_bytes(v);
    let b0 = b[0];
    let b1 = b[1];
    let b2 = b[2];
    let b3 = b[3];
    assert(b0 == (v & 0xff) as u8);
    assert(b1 == ((v >> 8u32) & 0xff) as u8);
    assert(b2 == ((v >> 16u32) & 0xff) as u8);
    assert(b3 == ((v >> 24u32) & 0xff) as u8);
    assert((b0 as u32) | ((b1 as u32) << 8u32) | ((b2 as u32) << 16u32) | ((b3 as u32) << 24u32)
        == v) by (bit_vector)
        requires
            b0 == (v & 0xff) as u8,
            b1 == ((v >> 8u32) & 0xff) as u8,
            b2 == ((v >> 16u32) & 0xff) as u8,
            b3 == ((v >> 24u32) & 0xff) as u8,
    ;
}

/// Reading a half-word back gives the half-word that was written.
pub proof fn lemma_u16_roundtrip(v: u16)
    ensures
        spec_read_u16(u16_bytes(v), 0) == v,
{
    let b = u16_bytes(v);
    let b0 = b[0];
    let b1 = b[1];
    assert(b0 == (v & 0xff) as u8);
    assert(b1 == ((v >> 8u16) & 0xff) as u8);
    assert((b0 as u16) | ((b1 as u16) << 8u16) == v) by (bit_vector)
        requires
            b0 == (v & 0xff) as u8,
            b1 == ((v >> 8u16) & 0xff) as u8,
    ;
}

/// What a read sees of a write: the written value at the written place, the old
/// contents everywhere else.
pub proof fn lemma_read_after_put(s: Seq<u8>, off: int, bs: Seq<u8>, i: int)
    requires
        0 <= off,
        off + bs.len() <= s.len(),
        0 <= i < s.len(),
    ensures
        put(s, off, bs).len() == s.len(),
        off <= i < off + bs.len() ==> put(s, off, bs)[i] == bs[i - off],
        !(off <= i < off + bs.len()) ==> put(s, off, bs)[i] == s[i],
{
}

/// The word stored at `off`.
pub fn read_u32(b: &[u8], off: usize) -> (r: u32)
    requires
        off + 4 <= b@.len(),
    ensures
        r == spec_read_u32(b@, off as int),
{
    (b[off] as u32) | ((b[off + 1] as u32) << 8u32) | ((b[off + 2] as u32) << 16u32) | ((b[off
        + 3] as u32) << 24u32)
}

/// The half-word stored at `off`.
pub fn read_u16(b: &[u8], off: usize) -> (r: u16)
    requires
        off + 2 <= b@.len(),
    ensures
        r == spec_read_u16(b@, off as int),
{
    (b[off] as u16) | ((b[off + 1] as u16) << 8u16)
}

/// Stores `v` at `off`.
pub fn write_u32(b: &mut Vec<u8>, off: usize, v: u32)
    requires
        off + 4 <= old(b)@.len(),
    ensures
        final(b)@ == put(old(b)@, off as int, u32_bytes(v)),
{
    let _n = b.len();
    let o1 = off + 1;
    let o2 = off + 2;
    let o3 = off + 3;
    b.set(off, #[verifier::truncate] ((v & 0xff) as u8));
    b.set(o1, #[verifier::truncate] (((v >> 8u32) & 0xff) as u8));
    b.set(o2, #[verifier::truncate] (((v >> 16u32) & 0xff) as u8));
    b.set(o3, #[verifier::truncate] (((v >> 24u32) & 0xff) as u8));
    assert(b@ =~= put(old(b)@, off as int, u32_bytes(v)));
}

/// Stores `v` at `off`.
pub fn write_u16(b: &mut Vec<u8>, off: usize, v: u16)
    requires
        off + 2 <= old(b)@.len(),
    ensures
        final(b)@ == put(old(b)@, off as int, u16_bytes(v)),
{
    let _n = b.len();
    let o1 = off + 1;
    b.set(off, #[verifier::truncate] ((v & 0xff) as u8));
    b.set(o1, #[verifier::truncate] (((v >> 8u16) & 0xff) as u8));
    assert(b@ =~= put(old(b)@, off as int, u16_bytes(v)));
}

/// Stores the byte `v` at `off`.
pub fn write_u8(b: &mut Vec<u8>, off: usize, v: u8)
    requires
        off < old(b)@.len(),
    ensures
        final(b)@ == put(old(b)@, off as int, seq![v]),
{
    b.set(off, v);
    assert(b@ =~= put(old(b)@, off as int, seq![v]));
}

/// Where a run of bytes lies in linear memory.
#[derive(Debug, Clone, Copy, PartialEq, Eq, Structural)]
pub struct Slice {
    /// Its address.
    pub ptr: u32,
    /// Its length.
    pub len: u32,
}

/// The slice stored at `off`: address, then length.
pub open spec fn spec_read_slice(b: Seq<u8>, off: int) -> Slice {
    Slice { ptr: spec_read_u32(b, off), len: spec_read_u32(b, off + 4) }
}

/// The slice stored at `off`.
pub fn read_slice(b: &[u8], off: usize) -> (r: Slice)
    requires
        off + 8 <= b@.len(),
    ensures
        r == spec_read_slice(b@, off as int),
{
    let _n = b.len();
    Slice { ptr: read_u32(b, off), len: read_u32(b, off + 4) }
}

/// `s` with the slice `v` stored at `off`.
pub open spec fn spec_put_slice(s: Seq<u8>, off: int, v: Slice) -> Seq<u8> {
    put(put(s, off, u32_bytes(v.ptr)), off + 4, u32_bytes(v.len))
}

/// Stores the slice `v` at `off`.
pub fn write_slice(b: &mut Vec<u8>, off: usize, v: Slice)
    requires
        off + 8 <= old(b)@.len(),
    ensures
        final(b)@ == spec_put_slice(old(b)@, off as int, v),
{
    let _n = b.len();
    write_u32(b, off, v.ptr);
    write_u32(b, off + 4, v.len);
}

/// A word written at `off` reads back at `off`.
pub proof fn lemma_read_u32_put_same(s: Seq<u8>, off: int, v: u32)
    requires
        0 <= off,
        off + 4 <= s.len(),
    ensures
        spec_read_u32(put(s, off, u32_bytes(v)), off) == v,
{
    let t = put(s, off, u32_bytes(v));
    lemma_u32_roundtrip(v);
    assert(t[off] == u32_bytes(v)[0]);
    assert(t[off + 1] == u32_bytes(v)[1]);
    assert(t[off + 2] == u32_bytes(v)[2]);
    assert(t[off + 3] == u32_bytes(v)[3]);
}

/// A half-word written at `off` reads back at `off`.
pub proof fn lemma_read_u16_put_same(s: Seq<u8>, off: int, v: u16)
    requires
        0 <= off,
        off + 2 <= s.len(),
    ensures
        spec_read_u16(put(s, off, u16_bytes(v)), off) == v,
{
    let t = put(s, off, u16_bytes(v));
    lemma_u16_roundtrip(v);
    assert(t[off] == u16_bytes(v)[0]);
    assert(t[off + 1] == u16_bytes(v)[1]);
}

/// A write leaves the bytes outside it, and so a word read there, as they were.
pub proof fn lemma_put_elsewhere(s: Seq<u8>, off: int, bs: Seq<u8>, r: int, n: int)
    requires
        0 <= off,
        off + bs.len() <= s.len(),
        0 <= r,
        r + n <= s.len(),
        r + n <= off || off + bs.len() <= r,
    ensures
        forall|i: int| r <= i < r + n ==> put(s, off, bs)[i] == s[i],
        n >= 4 ==> spec_read_u32(put(s, off, bs), r) == spec_read_u32(s, r),
        n >= 2 ==> spec_read_u16(put(s, off, bs), r) == spec_read_u16(s, r),
        n >= 1 ==> put(s, off, bs)[r] == s[r],
{
}

/// The list of headers that a request or response points to holds one
/// record per header: the key's slice, then the value's slice.
#[derive(Debug, Clone, Copy, PartialEq, Eq, Structural)]
pub struct HeaderRecord {
    /// Where the key lies.
    pub key: Slice,
    /// Where the value lies.
    pub value: Slice,
}

/// The size of a header record.
pub const HEADER_RECORD_SIZE: usize = 16;

/// The header record stored at `off`.
pub open spec fn spec_read_header(b: Seq<u8>, off: int) -> HeaderRecord {
    HeaderRecord { key: spec_read_slice(b, off), value: spec_read_slice(b, off + 8) }
}

/// The `n` header records stored from `off` on.
pub open spec fn spec_read_headers(b: Seq<u8>, off: int, n: nat) -> Seq<HeaderRecord> {
    Seq::new(n, |i: int| spec_read_header(b, off + 16 * i))
}

/// The bytes of a header record.
pub open spec fn header_bytes(h: HeaderRecord) -> Seq<u8> {
    u32_bytes(h.key.ptr) + u32_bytes(h.key.len) + u32_bytes(h.value.ptr) + u32_bytes(h.value.len)
}

/// The bytes of a list of header records, one after the other.
pub open spec fn headers_bytes(hs: Seq<HeaderRecord>) -> Seq<u8>
    decreases hs.len(),
{
    if hs.len() == 0 {
        Seq::empty()
    } else {
        headers_bytes(hs.drop_last()) + header_bytes(hs.last())
    }
}

/// The bytes of a list of header records take 16 bytes per record.
pub proof fn lemma_headers_bytes_len(hs: Seq<HeaderRecord>)
    ensures
        headers_bytes(hs).len() == 16 * hs.len(),
    decreases hs.len(),
{
    if hs.len() > 0 {
        lemma_headers_bytes_len(hs.drop_last());
    }
}

/// A word whose bytes are found at `off` reads as the word.
proof fn lemma_read_u32_of_bytes(b: Seq<u8>, off: int, v: u32)
    requires
        0 <= off,
        off + 4 <= b.len(),
        b.subrange(off, off + 4) == u32_bytes(v),
    ensures
        spec_read_u32(b, off) == v,
{
    lemma_u32_roundtrip(v);
    assert(b[off] == b.subrange(off, off + 4)[0]);
    assert(b[off + 1] == b.subrange(off, off + 4)[1]);
    assert(b[off + 2] == b.subrange(off, off + 4)[2]);
    assert(b[off + 3] == b.subrange(off, off + 4)[3]);
}

/// A record whose bytes are found at `off` reads as the record.
proof fn lemma_read_header_of_bytes(b: Seq<u8>, off: int, h: HeaderRecord)
    requires
        0 <= off,
        off + 16 <= b.len(),
        b.subrange(off, off + 16) == header_bytes(h),
    ensures
        spec_read_header(b, off) == h,
{
    let w = b.subrange(off, off + 16);
    assert(b.subrange(off, off + 4) =~= w.subrange(0, 4));
    assert(b.subrange(off + 4, off + 8) =~= w.subrange(4, 8));
    assert(b.subrange(off + 8, off + 12) =~= w.subrange(8, 12));
    assert(b.subrange(off + 12, off + 16) =~= w.subrange(12, 16));
    assert(header_bytes(h).subrange(0, 4) =~= u32_bytes(h.key.ptr));
    assert(header_bytes(h).subrange(4, 8) =~= u32_bytes(h.key.len));
    assert(header_bytes(h).subrange(8, 12) =~= u32_bytes(h.value.ptr));
    assert(header_bytes(h).subrange(12, 16) =~= u32_bytes(h.value.len));
    lemma_read_u32_of_bytes(b, off, h.key.ptr);
    lemma_read_u32_of_bytes(b, off + 4, h.key.len);
    lemma_read_u32_of_bytes(b, off + 8, h.value.ptr);
    lemma_read_u32_of_bytes(b, off + 12, h.value.len);
}

/// Reading `n` records from the bytes of `n` records gives those records back.
pub proof fn lemma_headers_roundtrip(hs: Seq<HeaderRecord>)
    ensures
        spec_read_headers(headers_bytes(hs), 0, hs.len()) == hs,
    decreases hs.len(),
{
    lemma_headers_bytes_len(hs);
    if hs.len() > 0 {
        let init = hs.drop_last();
        lemma_headers_roundtrip(init);
        lemma_headers_bytes_len(init);
        let b = headers_bytes(hs);
        let bi = headers_bytes(init);
        assert(b =~= bi + header_bytes(hs.last()));
        assert forall|i: int| 0 <= i < hs.len() implies #[trigger] spec_read_headers(b, 0, hs.len())[i]
            == hs[i] by {
            if i < init.len() {
                assert(forall|k: int| 0 <= k < bi.len() ==> b[k] == bi[k]);
                assert(spec_read_headers(bi, 0, init.len())[i] == init[i]);
                assert(spec_read_header(b, 16 * i) == spec_read_header(bi, 16 * i));
            } else {
                assert(b.subrange(16 * i, 16 * i + 16) =~= header_bytes(hs.last()));
                lemma_read_header_of_bytes(b, 16 * i, hs[i]);
            }
        }
        assert(spec_read_headers(b, 0, hs.len()) =~= hs);
    } else {
        assert(spec_read_headers(headers_bytes(hs), 0, 0) =~= hs);
    }
}

/// The layout of a header record: four little-endian words, the key's address
/// at 0 and length at 4, the value's address at 8 and length at 12. Records
/// follow each other every 16 bytes, both as they are read and as they are
/// written.
pub proof fn lemma_header_record_layout(b: Seq<u8>, off: int, n: nat, hs: Seq<HeaderRecord>)
    ensures
        spec_read_headers(b, off, n).len() == n,
        forall|i: int|
            0 <= i < n ==> #[trigger] spec_read_headers(b, off, n)[i] == (HeaderRecord {
                key: Slice {
                    ptr: spec_read_u32(b, off + 16 * i),
                    len: spec_read_u32(b, off + 16 * i + 4),
                },
                value: Slice {
                    ptr: spec_read_u32(b, off + 16 * i + 8),
                    len: spec_read_u32(b, off + 16 * i + 12),
                },
            }),
        headers_bytes(hs).len() == 16 * hs.len(),
        forall|i: int|
            0 <= i < hs.len() ==> {
                &&& spec_read_u32(headers_bytes(hs), 16 * i) == #[trigger] hs[i].key.ptr
                &&& spec_read_u32(headers_bytes(hs), 16 * i + 4) == hs[i].key.len
                &&& spec_read_u32(headers_bytes(hs), 16 * i + 8) == hs[i].value.ptr
                &&& spec_read_u32(headers_bytes(hs), 16 * i + 12) == hs[i].value.len
            },
{
    lemma_headers_bytes_len(hs);
    lemma_headers_roundtrip(hs);
    let e = headers_bytes(hs);
    assert forall|i: int| 0 <= i < hs.len() implies {
        &&& spec_read_u32(e, 16 * i) == #[trigger] hs[i].key.ptr
        &&& spec_read_u32(e, 16 * i + 4) == hs[i].key.len
        &&& spec_read_u32(e, 16 * i + 8) == hs[i].value.ptr
        &&& spec_read_u32(e, 16 * i + 12) == hs[i].value.len
    } by {
        assert(spec_read_headers(e, 0, hs.len())[i] == hs[i]);
        assert(spec_read_headers(e, 0, hs.len())[i] == spec_read_header(e, 16 * i));
    }
}

/// The bytes of the header records, one after the other.
pub fn encode_headers(hs: &[HeaderRecord]) -> (r: Vec<u8>)
    requires
        16 * hs@.len() <= usize::MAX,
    ensures
        r@ == headers_bytes(hs@),
{
    let mut out: Vec<u8> = Vec::new();
    let mut i: usize = 0;
    while i < hs.len()
        invariant
            i <= hs.len(),
            16 * hs@.len() <= usize::MAX,
            out@ == headers_bytes(hs@.take(i as int)),
        decreases hs.len() - i,
    {
        let h = hs[i];
        let mut rec: Vec<u8> = vec![0u8; 16];
        write_slice(&mut rec, 0, h.key);
        write_slice(&mut rec, 8, h.value);
        assert(rec@ =~= header_bytes(h));
        extend_bytes(&mut out, rec.as_slice());
        assert(hs@.take(i + 1).drop_last() =~= hs@.take(i as int));
        i = i + 1;
    }
    assert(hs@.take(hs.len() as int) =~= hs@);
    out
}

/// Appends the bytes `bs` to `out`.
pub fn extend_bytes(out: &mut Vec<u8>, bs: &[u8])
    ensures
        final(out)@ == old(out)@ + bs@,
{
    let mut i: usize = 0;
    while i < bs.len()
        invariant
            i <= bs.len(),
            out@ == old(out)@ + bs@.take(i as int),
        decreases bs.len() - i,
    {
        out.push(bs[i]);
        assert(bs@.take(i + 1) == bs@.take(i as int).push(bs@[i as int]));
        i = i + 1;
    }
    assert(bs@.take(bs.len() as int) == bs@);
}

/// The `n` header records stored from `off` on.
pub fn decode_headers(b: &[u8], off: usize, n: usize) -> (r: Vec<HeaderRecord>)
    requires
        off + 16 * n <= b@.len(),
    ensures
        r@ == spec_read_headers(b@, off as int, n as nat),
{
    let _len = b.len();
    let mut out: Vec<HeaderRecord> = Vec::new();
    let mut i: usize = 0;
    while i < n
        invariant
            i <= n,
            off + 16 * n <= b@.len(),
            _len == b@.len(),
            out@ == spec_read_headers(b@, off as int, i as nat),
        decreases n - i,
    {
        let at = off + 16 * i;
        let h = HeaderRecord { key: read_slice(b, at), value: read_slice(b, at + 8) };
        out.push(h);
        assert(out@ =~= spec_read_headers(b@, off as int, (i + 1) as nat));
        i = i + 1;
    }
    out
}

/// What a response returned through memory holds: its status, where its
/// header records lie, and where its body lies, if it has one.
#[derive(Debug, Clone, Copy, PartialEq, Eq, Structural)]
pub struct ResponseArea {
    /// The HTTP status.
    pub status: u16,
    /// Where the header records lie.
    pub headers: Slice,
    /// Where the body lies.
    pub body: Option<Slice>,
}

/// The size of a response's return area.
pub const RESPONSE_AREA_SIZE: usize = 24;

/// The response stored from `base` on: status at 0, header list at 4 and 8,
/// body tag at 12 (0 none, 1 some), body at 16 and 20.
pub open spec fn spec_read_response_at(b: Seq<u8>, base: int) -> ResponseArea {
    let status = spec_read_u16(b, base);
    let headers = spec_read_slice(b, base + 4);
    if b[base + 12] == 0 {
        ResponseArea { status, headers, body: None }
    } else {
        ResponseArea { status, headers, body: Some(spec_read_slice(b, base + 16)) }
    }
}

/// The response stored from `base` on. The body tag is 0 or 1: the interface
/// defines no other, and the bindings stop on any other.
pub fn read_response_at(b: &[u8], base: usize) -> (r: ResponseArea)
    requires
        base + 24 <= b@.len(),
        b@[base + 12] <= 1,
    ensures
        r == spec_read_response_at(b@, base as int),
{
    let _len = b.len();
    let tag = b[base + 12];
    let status = read_u16(b, base);
    let headers = read_slice(b, base + 4);
    if tag == 0 {
        ResponseArea { status, headers, body: None }
    } else {
        ResponseArea { status, headers, body: Some(read_slice(b, base + 16)) }
    }
}

/// `s` with the response `r` stored in it: the status, the header list, the body
/// tag and, when there is a body, its slice; every other byte is left as it was.
pub open spec fn spec_write_response(s: Seq<u8>, r: ResponseArea) -> Seq<u8> {
    let s2 = spec_put_slice(put(s, 0, u16_bytes(r.status)), 4, r.headers);
    match r.body {
        None => put(s2, 12, seq![0u8]),
        Some(bd) => spec_put_slice(put(s2, 12, seq![1u8]), 16, bd),
    }
}

/// Stores the response `r` in the return area.
pub fn write_response(area: &mut Vec<u8>, r: &ResponseArea)
    requires
        old(area)@.len() >= 24,
    ensures
        final(area)@ == spec_write_response(old(area)@, *r),
{
    write_u16(area, 0, r.status);
    write_slice(area, 4, r.headers);
    match r.body {
        None => {
            write_u8(area, 12, 0u8);
        },
        Some(bd) => {
            write_u8(area, 12, 1u8);
            write_slice(area, 16, bd);
        },
    }
}

/// A response read back from the return area is the response that was stored in it.
pub proof fn lemma_response_roundtrip(s: Seq<u8>, r: ResponseArea)
    requires
        s.len() >= 24,
    ensures
        spec_write_response(s, r).len() == s.len(),
        spec_write_response(s, r)[12] <= 1,
        spec_read_response_at(spec_write_response(s, r), 0) == r,
{
    let s0 = put(s, 0, u16_bytes(r.status));
    let s1 = put(s0, 4, u32_bytes(r.headers.ptr));
    let s2 = put(s1, 8, u32_bytes(r.headers.len));
    lemma_read_u16_put_same(s, 0, r.status);
    lemma_read_u32_put_same(s0, 4, r.headers.ptr);
    lemma_put_elsewhere(s0, 4, u32_bytes(r.headers.ptr), 0, 2);
    lemma_read_u32_put_same(s1, 8, r.headers.len);
    lemma_put_elsewhere(s1, 8, u32_bytes(r.headers.len), 0, 2);
    lemma_put_elsewhere(s1, 8, u32_bytes(r.headers.len), 4, 4);
    let s3 = put(s2, 12, seq![if r.body is Some { 1u8 } else { 0u8 }]);
    lemma_put_elsewhere(s2, 12, seq![if r.body is Some { 1u8 } else { 0u8 }], 0, 2);
    lemma_put_elsewhere(s2, 12, seq![if r.body is Some { 1u8 } else { 0u8 }], 4, 4);
    lemma_put_elsewhere(s2, 12, seq![if r.body is Some { 1u8 } else { 0u8 }], 8, 4);
    match r.body {
        None => {
            assert(seq![0u8] =~= seq![if r.body is Some { 1u8 } else { 0u8 }]);
        },
        Some(bd) => {
            assert(seq![1u8] =~= seq![if r.body is Some { 1u8 } else { 0u8 }]);
            let s4 = put(s3, 16, u32_bytes(bd.ptr));
            let s5 = put(s4, 20, u32_bytes(bd.len));
            lemma_read_u32_put_same(s3, 16, bd.ptr);
            lemma_read_u32_put_same(s4, 20, bd.len);
            lemma_put_elsewhere(s3, 16, u32_bytes(bd.ptr), 0, 2);
            lemma_put_elsewhere(s3, 16, u32_bytes(bd.ptr), 4, 4);
            lemma_put_elsewhere(s3, 16, u32_bytes(bd.ptr), 8, 4);
            lemma_put_elsewhere(s3, 16, u32_bytes(bd.ptr), 12, 1);
            lemma_put_elsewhere(s4, 20, u32_bytes(bd.len), 0, 2);
            lemma_put_elsewhere(s4, 20, u32_bytes(bd.len), 4, 4);
            lemma_put_elsewhere(s4, 20, u32_bytes(bd.len), 8, 4);
            lemma_put_elsewhere(s4, 20, u32_bytes(bd.len), 12, 1);
            lemma_put_elsewhere(s4, 20, u32_bytes(bd.len), 16, 4);
        },
    }
}

/// A block of memory to give back: its address, its size and its alignment.
#[derive(Debug, Clone, Copy, PartialEq, Eq, Structural)]
pub struct Dealloc {
    /// Its address.
    pub ptr: u32,
    /// Its size in bytes.
    pub size: u64,
    /// Its alignment.
    pub align: u32,
}

/// The byte run `v`, given back with alignment 1.
pub open spec fn bytes_dealloc(v: Slice) -> Dealloc {
    Dealloc { ptr: v.ptr, size: v.len as u64, align: 1 }
}

/// The block of a list of `list.len` records of `record_size` bytes each, as it
/// is given back once the records were read: alignment 4. Header lists have
/// 16-byte records, string lists 8-byte ones.
pub open spec fn spec_records_dealloc(list: Slice, record_size: u64) -> Dealloc {
    Dealloc { ptr: list.ptr, size: (list.len * record_size) as u64, align: 4 }
}

/// The block of a list of records, to give back once the records were read.
pub fn records_dealloc(list: Slice, record_size: u64) -> (r: Dealloc)
    requires
        record_size <= 16,
    ensures
        r == spec_records_dealloc(list, record_size),
{
    assert(list.len * record_size <= 0xffff_ffff * 16) by (nonlinear_arith)
        requires
            record_size <= 16,
            list.len <= 0xffff_ffff,
    ;
    Dealloc { ptr: list.ptr, size: (list.len as u64) * record_size, align: 4 }
}

/// The key and the value of each header record, in order: two blocks per record.
pub open spec fn header_deallocs(hs: Seq<HeaderRecord>) -> Seq<Dealloc> {
    Seq::new(
        2 * hs.len(),
        |j: int|
            if j % 2 == 0 {
                bytes_dealloc(hs[j / 2].key)
            } else {
                bytes_dealloc(hs[j / 2].value)
            },
    )
}

/// What the clean-up after a response gives back, in order: each header's key
/// and value, the header list (16 bytes per record, alignment 4) and, when the
/// body tag is not 0, the body. `records` holds the header list's bytes.
pub open spec fn spec_post_return(area: Seq<u8>, records: Seq<u8>) -> Seq<Dealloc> {
    let list = spec_read_slice(area, 4);
    let hs = spec_read_headers(records, 0, list.len as nat);
    let body: Seq<Dealloc> = if area[12] == 0 {
        Seq::empty()
    } else {
        seq![bytes_dealloc(spec_read_slice(area, 16))]
    };
    header_deallocs(hs) + seq![Dealloc { ptr: list.ptr, size: (16 * list.len) as u64, align: 4 }]
        + body
}

/// The blocks that the clean-up after a response gives back, read from the
/// return area and from the bytes of the header list it points to.
pub fn post_return_deallocs(area: &[u8], records: &[u8]) -> (r: Vec<Dealloc>)
    requires
        area@.len() >= 24,
        records@.len() == 16 * spec_read_u32(area@, 8),
    ensures
        r@ == spec_post_return(area@, records@),
{
    let list = read_slice(area, 4);
    let n = list.len as usize;
    let hs = decode_headers(records, 0, n);
    let mut out: Vec<Dealloc> = Vec::new();
    let mut i: usize = 0;
    while i < n
        invariant
            i <= n,
            hs@.len() == n,
            out@ == header_deallocs(hs@.take(i as int)),
        decreases n - i,
    {
        let h = hs[i];
        out.push(Dealloc { ptr: h.key.ptr, size: h.key.len as u64, align: 1 });
        out.push(Dealloc { ptr: h.value.ptr, size: h.value.len as u64, align: 1 });
        assert(out@ =~= header_deallocs(hs@.take(i + 1)));
        i = i + 1;
    }
    assert(hs@.take(n as int) =~= hs@);
    out.push(Dealloc { ptr: list.ptr, size: (list.len as u64) * 16, align: 4 });
    if area[12] != 0 {
        let bd = read_slice(area, 16);
        out.push(Dealloc { ptr: bd.ptr, size: bd.len as u64, align: 1 });
    }
    assert(out@ =~= spec_post_return(area@, records@));
    out
}

/// After a response and its header records were stored, the clean-up gives back
/// exactly each header's key and value, the header list and the body, if any.
pub proof fn lemma_post_return_frees_written(s: Seq<u8>, r: ResponseArea, hs: Seq<HeaderRecord>)
    requires
        s.len() >= 24,
        r.headers.len == hs.len(),
    ensures
        spec_post_return(spec_write_response(s, r), headers_bytes(hs)) == header_deallocs(hs)
            + seq![Dealloc { ptr: r.headers.ptr, size: (16 * r.headers.len) as u64, align: 4 }]
            + match r.body {
            None => Seq::<Dealloc>::empty(),
            Some(bd) => seq![bytes_dealloc(bd)],
        },
{
    lemma_response_roundtrip(s, r);
    lemma_headers_roundtrip(hs);
    let w = spec_write_response(s, r);
    assert(w[12] == 0 <==> r.body is None);
    assert(spec_read_headers(headers_bytes(hs), 0, r.headers.len as nat) == hs);
}

/// An optional run of bytes passed as three flat arguments: a tag (1 when
/// present, 0 when absent), then its address and length (0 and 0 when absent).
pub open spec fn spec_flatten_option(o: Option<Slice>) -> (u32, u32, u32) {
    match o {
        Some(v) => (1, v.ptr, v.len),
        None => (0, 0, 0),
    }
}

/// An optional run of bytes as three flat arguments.
pub fn flatten_option(o: Option<Slice>) -> (r: (u32, u32, u32))
    ensures
        r == spec_flatten_option(o),
{
    match o {
        Some(v) => (1, v.ptr, v.len),
        None => (0, 0, 0),
    }
}

/// The optional run of bytes that three flat arguments stand for: absent for
/// tag 0, present for tag 1.
pub open spec fn spec_lift_option(tag: u32, ptr: u32, len: u32) -> Option<Slice> {
    if tag == 0 {
        None
    } else {
        Some(Slice { ptr, len })
    }
}

/// The optional run of bytes that three flat arguments stand for. The tag is 0
/// or 1: the interface defines no other, and the bindings stop on any other.
pub fn lift_option(tag: u32, ptr: u32, len: u32) -> (r: Option<Slice>)
    requires
        tag <= 1,
    ensures
        r == spec_lift_option(tag, ptr, len),
{
    if tag == 0 {
        None
    } else {
        Some(Slice { ptr, len })
    }
}

/// Lifting the flat arguments of an optional run of bytes gives it back.
pub proof fn lemma_option_roundtrip(o: Option<Slice>)
    ensures
        ({
            let f = spec_flatten_option(o);
            f.0 <= 1 && spec_lift_option(f.0, f.1, f.2) == o
        }),
{
}

/// The `n` string slices stored from `off` on, 8 bytes each.
pub open spec fn spec_read_slices(b: Seq<u8>, off: int, n: nat) -> Seq<Slice> {
    Seq::new(n, |i: int| spec_read_slice(b, off + 8 * i))
}

/// The `n` string slices stored from `off` on.
pub fn decode_slices(b: &[u8], off: usize, n: usize) -> (r: Vec<Slice>)
    requires
        off + 8 * n <= b@.len(),
    ensures
        r@ == spec_read_slices(b@, off as int, n as nat),
{
    let _len = b.len();
    let mut out: Vec<Slice> = Vec::new();
    let mut i: usize = 0;
    while i < n
        invariant
            i <= n,
            off + 8 * n <= b@.len(),
            _len == b@.len(),
            out@ == spec_read_slices(b@, off as int, i as nat),
        decreases n - i,
    {
        out.push(read_slice(b, off + 8 * i));
        assert(out@ =~= spec_read_slices(b@, off as int, (i + 1) as nat));
        i = i + 1;
    }
    out
}

/// The bytes of the run `s` in the linear memory `mem`.
pub open spec fn mem_run(mem: Seq<u8>, s: Slice) -> Seq<u8> {
    mem.subrange(s.ptr as int, s.ptr + s.len)
}

/// The run `s` lies inside the linear memory `mem`.
pub open spec fn run_in(mem: Seq<u8>, s: Slice) -> bool {
    s.ptr + s.len <= mem.len()
}

/// A copy of the bytes of the run `s` in the linear memory `mem`.
pub fn copy_run(mem: &[u8], s: Slice) -> (r: Vec<u8>)
    requires
        run_in(mem@, s),
    ensures
        r@ == mem_run(mem@, s),
{
    let _n = mem.len();
    let start = s.ptr as usize;
    let end = start + s.len as usize;
    let mut out: Vec<u8> = Vec::new();
    let mut i: usize = start;
    while i < end
        invariant
            start <= i <= end,
            end <= mem@.len(),
            start == s.ptr,
            end == s.ptr + s.len,
            out@ == mem@.subrange(start as int, i as int),
        decreases end - i,
    {
        out.push(mem[i]);
        assert(mem@.subrange(start as int, i + 1) =~= mem@.subrange(start as int, i as int).push(
            mem@[i as int],
        ));
        i = i + 1;
    }
    out
}

} // verus!
