//! The wire protocol between a delegating client and the signing daemon.
//!
//! Every message is one frame: a tag byte, the payload length as a
//! big-endian `u32`, then the payload. The explicit length lets either side
//! read a message of any size exactly, with no fixed buffer.
use crate::scheme::SignatureScheme;
use vstd::prelude::*;

verus! {

/// Bytes before the payload: the tag and the length.
pub const FRAME_HEADER_LEN: usize = 5;

/// The longest payload that a frame can announce.
pub const MAX_PAYLOAD_LEN: u64 = 0xffff_ffff;

/// Request: choose a scheme among those offered (two bytes per scheme).
pub const TAG_CHOOSE_SCHEME: u8 = 0x01;

/// Request: sign the payload.
pub const TAG_SIGN: u8 = 0x02;

/// Response: the chosen scheme (two bytes), or none (no byte).
pub const TAG_CHOSEN: u8 = 0x11;

/// Response: the signature.
pub const TAG_SIGNATURE: u8 = 0x12;

/// Response: the daemon could not serve the request; the payload says why.
pub const TAG_FAILURE: u8 = 0x1f;

/// What a client asks of the daemon.
#[derive(Debug, Clone)]
pub enum Request {
    ChooseScheme { offered: Vec<SignatureScheme> },
    Sign { data: Vec<u8> },
}

/// What the daemon answers.
#[derive(Debug, Clone)]
pub enum Response {
    Chosen { scheme: Option<SignatureScheme> },
    Signature { signature: Vec<u8> },
    Failure { reason: Vec<u8> },
}

/// A request, as values.
pub enum RequestView {
    ChooseScheme(Seq<SignatureScheme>),
    Sign(Seq<u8>),
}

/// A response, as values.
pub enum ResponseView {
    Chosen(Option<SignatureScheme>),
    Signature(Seq<u8>),
    Failure(Seq<u8>),
}

impl View for Request {
    type V = RequestView;

    open spec fn view(&self) -> RequestView {
        match self {
            Request::ChooseScheme { offered } => RequestView::ChooseScheme(offered@),
            Request::Sign { data } => RequestView::Sign(data@),
        }
    }
}

impl View for Response {
    type V = ResponseView;

    open spec fn view(&self) -> ResponseView {
        match self {
            Response::Chosen { scheme } => ResponseView::Chosen(*scheme),
            Response::Signature { signature } => ResponseView::Signature(signature@),
            Response::Failure { reason } => ResponseView::Failure(reason@),
        }
    }
}

/// A big-endian `u32`.
pub open spec fn be32(n: u32) -> Seq<u8> {
    seq![(n >> 24u32) as u8, (n >> 16u32) as u8, (n >> 8u32) as u8, n as u8]
}

/// The `u32` that four big-endian bytes hold.
pub open spec fn be32_value(b0: u8, b1: u8, b2: u8, b3: u8) -> u32 {
    ((b0 as u32) << 24u32) | ((b1 as u32) << 16u32) | ((b2 as u32) << 8u32) | (b3 as u32)
}

/// The `u16` that two big-endian bytes hold.
pub open spec fn be16_value(hi: u8, lo: u8) -> u16 {
    ((hi as u16) << 8u16) | (lo as u16)
}

/// A frame: the tag, the payload length, the payload.
pub open spec fn frame(tag: u8, payload: Seq<u8>) -> Seq<u8> {
    seq![tag] + be32(payload.len() as u32) + payload
}

/// The tag and payload of a frame, when the bytes are exactly one frame.
pub open spec fn unframe(b: Seq<u8>) -> Option<(u8, Seq<u8>)> {
    if b.len() >= FRAME_HEADER_LEN && b.len() - FRAME_HEADER_LEN == be32_value(
        b[1],
        b[2],
        b[3],
        b[4],
    ) as int {
        Some((b[0], b.subrange(FRAME_HEADER_LEN as int, b.len() as int)))
    } else {
        None
    }
}

/// Two big-endian bytes for each scheme code.
pub open spec fn schemes_bytes(s: Seq<SignatureScheme>) -> Seq<u8> {
    Seq::new(
        2 * s.len(),
        |j: int|
            if j % 2 == 0 {
                (s[j / 2].code >> 8u16) as u8
            } else {
                s[j / 2].code as u8
            },
    )
}

/// The schemes that a payload of two bytes per code lists.
pub open spec fn schemes_of(p: Seq<u8>) -> Seq<SignatureScheme> {
    Seq::new(p.len() / 2, |i: int| SignatureScheme { code: be16_value(p[2 * i], p[2 * i + 1]) })
}

/// The payload of a chosen scheme: two bytes, or none for no scheme.
pub open spec fn chosen_bytes(c: Option<SignatureScheme>) -> Seq<u8> {
    match c {
        None => Seq::empty(),
        Some(s) => seq![(s.code >> 8u16) as u8, s.code as u8],
    }
}

/// The request's payload fits in one frame.
pub open spec fn request_fits(r: RequestView) -> bool {
    match r {
        RequestView::ChooseScheme(o) => 2 * o.len() <= MAX_PAYLOAD_LEN,
        RequestView::Sign(d) => d.len() <= MAX_PAYLOAD_LEN,
    }
}

/// The response's payload fits in one frame.
pub open spec fn response_fits(r: ResponseView) -> bool {
    match r {
        ResponseView::Chosen(_) => true,
        ResponseView::Signature(s) => s.len() <= MAX_PAYLOAD_LEN,
        ResponseView::Failure(s) => s.len() <= MAX_PAYLOAD_LEN,
    }
}

/// The bytes of a request.
pub open spec fn spec_encode_request(r: RequestView) -> Seq<u8> {
    match r {
        RequestView::ChooseScheme(o) => frame(TAG_CHOOSE_SCHEME, schemes_bytes(o)),
        RequestView::Sign(d) => frame(TAG_SIGN, d),
    }
}

/// The request that the bytes hold, if they are one well-formed request.
pub open spec fn spec_decode_request(b: Seq<u8>) -> Option<RequestView> {
    match unframe(b) {
        Some((tag, p)) => if tag == TAG_CHOOSE_SCHEME && p.len() % 2 == 0 {
            Some(RequestView::ChooseScheme(schemes_of(p)))
        } else if tag == TAG_SIGN {
            Some(RequestView::Sign(p))
        } else {
            None
        },
        None => None,
    }
}

/// The bytes of a response.
pub open spec fn spec_encode_response(r: ResponseView) -> Seq<u8> {
    match r {
        ResponseView::Chosen(c) => frame(TAG_CHOSEN, chosen_bytes(c)),
        ResponseView::Signature(s) => frame(TAG_SIGNATURE, s),
        ResponseView::Failure(s) => frame(TAG_FAILURE, s),
    }
}

/// The response that the bytes hold, if they are one well-formed response.
pub open spec fn spec_decode_response(b: Seq<u8>) -> Option<ResponseView> {
    match unframe(b) {
        Some((tag, p)) => if tag == TAG_CHOSEN && p.len() == 0 {
            Some(ResponseView::Chosen(None))
        } else if tag == TAG_CHOSEN && p.len() == 2 {
            Some(ResponseView::Chosen(Some(SignatureScheme { code: be16_value(p[0], p[1]) })))
        } else if tag == TAG_SIGNATURE {
            Some(ResponseView::Signature(p))
        } else if tag == TAG_FAILURE {
            Some(ResponseView::Failure(p))
        } else {
            None
        },
        None => None,
    }
}

pub open spec fn request_view(r: Option<Request>) -> Option<RequestView> {
    match r {
        Some(x) => Some(x@),
        None => None,
    }
}

pub open spec fn response_view(r: Option<Response>) -> Option<ResponseView> {
    match r {
        Some(x) => Some(x@),
        None => None,
    }
}

proof fn lemma_be32(n: u32)
    ensures
        be32_value((n >> 24u32) as u8, (n >> 16u32) as u8, (n >> 8u32) as u8, n as u8) == n,
{
    assert((((((n >> 24u32) as u8) as u32) << 24u32) | ((((n >> 16u32) as u8) as u32) << 16u32)
        | ((((n >> 8u32) as u8) as u32) << 8u32) | ((n as u8) as u32)) == n) by (bit_vector);
}

proof fn lemma_be16(n: u16)
    ensures
        be16_value((n >> 8u16) as u8, n as u8) == n,
{
    assert((((((n >> 8u16) as u8) as u16) << 8u16) | ((n as u8) as u16)) == n) by (bit_vector);
}

proof fn lemma_unframe(tag: u8, payload: Seq<u8>)
    requires
        payload.len() <= MAX_PAYLOAD_LEN,
    ensures
        unframe(frame(tag, payload)) == Some((tag, payload)),
{
    let b = frame(tag, payload);
    let n = payload.len() as u32;
    lemma_be32(n);
    assert(b[1] == (n >> 24u32) as u8);
    assert(b[2] == (n >> 16u32) as u8);
    assert(b[3] == (n >> 8u32) as u8);
    assert(b[4] == n as u8);
    assert(b.subrange(5, b.len() as int) =~= payload);
}

proof fn lemma_schemes(s: Seq<SignatureScheme>)
    ensures
        schemes_of(schemes_bytes(s)) =~= s,
{
    let b = schemes_bytes(s);
    assert forall|i: int| 0 <= i < s.len() implies schemes_of(b)[i] == s[i] by {
        assert((2 * i) / 2 == i);
        assert((2 * i + 1) / 2 == i);
        assert((2 * i) % 2 == 0);
        assert((2 * i + 1) % 2 == 1);
        lemma_be16(s[i].code);
    }
}

/// Decoding the bytes of a request gives that request back.
pub proof fn lemma_request_round_trip(r: RequestView)
    requires
        request_fits(r),
    ensures
        spec_decode_request(spec_encode_request(r)) == Some(r),
{
    match r {
        RequestView::ChooseScheme(o) => {
            lemma_unframe(TAG_CHOOSE_SCHEME, schemes_bytes(o));
            lemma_schemes(o);
            assert(schemes_bytes(o).len() % 2 == 0);
        },
        RequestView::Sign(d) => {
            lemma_unframe(TAG_SIGN, d);
        },
    }
}

/// Decoding the bytes of a response gives that response back.
pub proof fn lemma_response_round_trip(r: ResponseView)
    requires
        response_fits(r),
    ensures
        spec_decode_response(spec_encode_response(r)) == Some(r),
{
    match r {
        ResponseView::Chosen(c) => {
            lemma_unframe(TAG_CHOSEN, chosen_bytes(c));
            if let Some(s) = c {
                lemma_be16(s.code);
            }
        },
        ResponseView::Signature(s) => {
            lemma_unframe(TAG_SIGNATURE, s);
        },
        ResponseView::Failure(s) => {
            lemma_unframe(TAG_FAILURE, s);
        },
    }
}

fn push_frame_header(out: &mut Vec<u8>, tag: u8, len: u32)
    ensures
        final(out)@ == old(out)@ + seq![tag] + be32(len),
{
    out.push(tag);
    out.push((len >> 24u32) as u8);
    out.push((len >> 16u32) as u8);
    out.push((len >> 8u32) as u8);
    out.push(len as u8);
    assert(final(out)@ =~= old(out)@ + seq![tag] + be32(len));
}

fn push_bytes(out: &mut Vec<u8>, p: &[u8])
    ensures
        final(out)@ == old(out)@ + p@,
{
    let ghost start = out@;
    let mut i: usize = 0;
    while i < p.len()
        invariant
            i <= p@.len(),
            out@ == start + p@.subrange(0, i as int),
        decreases p@.len() - i,
    {
        out.push(p[i]);
        proof {
            assert(p@.subrange(0, i + 1) =~= p@.subrange(0, i as int).push(p@[i as int]));
        }
        i = i + 1;
    }
    assert(p@.subrange(0, p@.len() as int) =~= p@);
}

fn push_schemes(out: &mut Vec<u8>, s: &[SignatureScheme])
    ensures
        final(out)@ == old(out)@ + schemes_bytes(s@),
{
    let ghost start = out@;
    let mut i: usize = 0;
    while i < s.len()
        invariant
            i <= s@.len(),
            out@ == start + schemes_bytes(s@.subrange(0, i as int)),
        decreases s@.len() - i,
    {
        let code = s[i].code;
        out.push((code >> 8u16) as u8);
        out.push(code as u8);
        proof {
            let prev = schemes_bytes(s@.subrange(0, i as int));
            let next = schemes_bytes(s@.subrange(0, i + 1));
            assert forall|j: int| 0 <= j < next.len() implies next[j] == (prev + seq![
                (code >> 8u16) as u8,
                code as u8,
            ])[j] by {
                if j < 2 * i {
                    assert(j / 2 < i);
                } else {
                    assert(j / 2 == i);
                }
            }
            assert(next =~= prev + seq![(code >> 8u16) as u8, code as u8]);
        }
        i = i + 1;
    }
    assert(s@.subrange(0, s@.len() as int) =~= s@);
}

fn copy_from(b: &[u8], from: usize) -> (r: Vec<u8>)
    requires
        from <= b@.len(),
    ensures
        r@ == b@.subrange(from as int, b@.len() as int),
{
    let mut r: Vec<u8> = Vec::new();
    let mut i: usize = from;
    while i < b.len()
        invariant
            from <= i <= b@.len(),
            r@ == b@.subrange(from as int, i as int),
        decreases b@.len() - i,
    {
        r.push(b[i]);
        proof {
            assert(b@.subrange(from as int, i + 1) =~= b@.subrange(from as int, i as int).push(
                b@[i as int],
            ));
        }
        i = i + 1;
    }
    r
}

/// The tag and payload of `b`, when it is exactly one frame.
fn read_frame(b: &[u8]) -> (r: Option<(u8, Vec<u8>)>)
    ensures
        r is Some <==> unframe(b@) is Some,
        r matches Some((tag, p)) ==> unframe(b@) == Some((tag, p@)),
{
    if b.len() < FRAME_HEADER_LEN {
        return None;
    }
    let len = frame_payload_len(b);
    if (b.len() - FRAME_HEADER_LEN) as u64 != len as u64 {
        return None;
    }
    Some((b[0], copy_from(b, FRAME_HEADER_LEN)))
}

/// The payload length that a frame header announces.
pub fn frame_payload_len(header: &[u8]) -> (r: u32)
    requires
        header@.len() >= FRAME_HEADER_LEN,
    ensures
        r == be32_value(header@[1], header@[2], header@[3], header@[4]),
{
    ((header[1] as u32) << 24u32) | ((header[2] as u32) << 16u32) | ((header[3] as u32) << 8u32)
        | (header[4] as u32)
}

/// The bytes of a request.
pub fn encode_request(r: &Request) -> (out: Vec<u8>)
    requires
        request_fits(r@),
    ensures
        out@ == spec_encode_request(r@),
{
    let mut out: Vec<u8> = Vec::new();
    match r {
        Request::ChooseScheme { offered } => {
            push_frame_header(&mut out, TAG_CHOOSE_SCHEME, (2 * offered.len()) as u32);
            push_schemes(&mut out, offered.as_slice());
        },
        Request::Sign { data } => {
            push_frame_header(&mut out, TAG_SIGN, data.len() as u32);
            push_bytes(&mut out, data.as_slice());
        },
    }
    assert(out@ =~= spec_encode_request(r@));
    out
}

/// The request that `b` holds; `None` unless `b` is exactly one well-formed
/// request.
pub fn decode_request(b: &[u8]) -> (r: Option<Request>)
    ensures
        request_view(r) == spec_decode_request(b@),
{
    let (tag, p) = match read_frame(b) {
        Some(f) => f,
        None => return None,
    };
    if tag == TAG_CHOOSE_SCHEME && p.len() % 2 == 0 {
        let mut offered: Vec<SignatureScheme> = Vec::new();
        let mut i: usize = 0;
        while i < p.len() / 2
            invariant
                p@.len() % 2 == 0,
                i <= p@.len() / 2,
                offered@ =~= schemes_of(p@).subrange(0, i as int),
            decreases p@.len() / 2 - i,
        {
            let code: u16 = ((p[2 * i] as u16) << 8u16) | (p[2 * i + 1] as u16);
            offered.push(SignatureScheme { code });
            i = i + 1;
        }
        assert(offered@ =~= schemes_of(p@));
        Some(Request::ChooseScheme { offered })
    } else if tag == TAG_SIGN {
        Some(Request::Sign { data: p })
    } else {
        None
    }
}

/// The bytes of a response.
pub fn encode_response(r: &Response) -> (out: Vec<u8>)
    requires
        response_fits(r@),
    ensures
        out@ == spec_encode_response(r@),
{
    let mut out: Vec<u8> = Vec::new();
    match r {
        Response::Chosen { scheme } => match scheme {
            None => {
                push_frame_header(&mut out, TAG_CHOSEN, 0);
            },
            Some(s) => {
                push_frame_header(&mut out, TAG_CHOSEN, 2);
                out.push((s.code >> 8u16) as u8);
                out.push(s.code as u8);
            },
        },
        Response::Signature { signature } => {
            push_frame_header(&mut out, TAG_SIGNATURE, signature.len() as u32);
            push_bytes(&mut out, signature.as_slice());
        },
        Response::Failure { reason } => {
            push_frame_header(&mut out, TAG_FAILURE, reason.len() as u32);
            push_bytes(&mut out, reason.as_slice());
        },
    }
    assert(out@ =~= spec_encode_response(r@));
    out
}

/// The response that `b` holds; `None` unless `b` is exactly one
/// well-formed response.
pub fn decode_response(b: &[u8]) -> (r: Option<Response>)
    ensures
        response_view(r) == spec_decode_response(b@),
{
    let (tag, p) = match read_frame(b) {
        Some(f) => f,
        None => return None,
    };
    if tag == TAG_CHOSEN && p.len() == 0 {
        Some(Response::Chosen { scheme: None })
    } else if tag == TAG_CHOSEN && p.len() == 2 {
        let code: u16 = ((p[0] as u16) << 8u16) | (p[1] as u16);
        Some(Response::Chosen { scheme: Some(SignatureScheme { code }) })
    } else if tag == TAG_SIGNATURE {
        Some(Response::Signature { signature: p })
    } else if tag == TAG_FAILURE {
        Some(Response::Failure { reason: p })
    } else {
        None
    }
}

} // verus!
