//! The inbound request model and its translation into the backend's request
//! shape: URL assembly, UTF-8 decoding of header values, dropping of
//! gateway-internal headers, `Accept-Encoding` normalization, and range
//! detection.

use vstd::prelude::*;
use crate::error::{HttpGatewayError, HttpGatewayResult};
use crate::headers::{
    ensure_identity, has_identity_token, headers_view, normalize_accept_encoding,
};
use crate::strutil::{eq_ignore_case, eq_ignore_case_str};

verus! {

/// An inbound HTTP request, as the outer server hands it to the gateway.
/// Header values arrive as raw bytes; the URL arrives split into path and
/// raw query.
#[derive(Debug)]
pub struct CanisterRequest {
    pub method: String,
    pub path: String,
    pub query: Option<String>,
    pub headers: Vec<(String, Vec<u8>)>,
    pub body: Vec<u8>,
}

/// A request in the backend's shape: all header values decoded.
#[derive(Clone, Debug, PartialEq, Eq)]
pub struct BackendRequest {
    pub method: String,
    pub url: String,
    pub headers: Vec<(String, String)>,
    pub body: Vec<u8>,
}

/// The mathematical view of a translated request.
pub struct BackendRequestView {
    pub method: Seq<char>,
    pub url: Seq<char>,
    pub headers: Seq<(Seq<char>, Seq<char>)>,
    pub body: Seq<u8>,
}

impl View for BackendRequest {
    type V = BackendRequestView;

    open spec fn view(&self) -> BackendRequestView {
        BackendRequestView {
            method: self.method@,
            url: self.url@,
            headers: headers_view(self.headers@),
            body: self.body@,
        }
    }
}

/// The view of an inbound header list.
pub open spec fn raw_headers_view(hs: Seq<(String, Vec<u8>)>) -> Seq<(Seq<char>, Seq<u8>)> {
    hs.map_values(|p: (String, Vec<u8>)| (p.0@, p.1@))
}

/// The translated URL: path, then `?` and the raw query if one is present.
pub open spec fn url_spec(path: Seq<char>, query: Option<Seq<char>>) -> Seq<char> {
    match query {
        Some(q) => path + "?"@ + q,
        None => path,
    }
}

/// Relies on `String::from_utf8`: it succeeds exactly on valid UTF-8 and
/// decodes it.
#[verifier::external_body]
fn decode_utf8_bytes(b: &Vec<u8>) -> (r: Option<String>)
    ensures
        r is Some <==> vstd::utf8::valid_utf8(b@),
        r matches Some(s) ==> s@ == vstd::utf8::decode_utf8(b@),
{
    String::from_utf8(b.clone()).ok()
}

/// Translates an inbound request into the backend's request shape. Fails
/// with `HeaderDecoding` exactly when some header value is not valid UTF-8,
/// reporting the first such header.
pub fn convert_request(request: &CanisterRequest) -> (r: HttpGatewayResult<BackendRequest>)
    ensures
        r is Ok <==> (forall|i: int|
            0 <= i < request.headers@.len() ==> vstd::utf8::valid_utf8(request.headers@[i].1@)),
        r matches Ok(t) ==> {
            &&& t.method@ == request.method@
            &&& t.url@ == url_spec(
                request.path@,
                match request.query {
                    Some(q) => Some(q@),
                    None => None,
                },
            )
            &&& t.headers@.len() == request.headers@.len()
            &&& forall|i: int|
                0 <= i < t.headers@.len() ==> t.headers@[i].0@ == request.headers@[i].0@
                    && t.headers@[i].1@ == vstd::utf8::decode_utf8(request.headers@[i].1@)
            &&& t.body@ == request.body@
        },
        r matches Ok(t) ==> ((request.path@.len() > 0 && request.path@[0] == '/')
            ==> t.url@.len() > 0 && t.url@[0] == '/'),
        r matches Err(e) ==> exists|i: int|
            {
                &&& 0 <= i < request.headers@.len()
                &&& !vstd::utf8::valid_utf8(request.headers@[i].1@)
                &&& forall|k: int| 0 <= k < i ==> vstd::utf8::valid_utf8(request.headers@[k].1@)
                &&& e matches HttpGatewayError::HeaderDecoding { header_name, header_value }
                    && header_name@ == request.headers@[i].0@ && header_value@
                    == request.headers@[i].1@
            },
{
    let mut url = request.path.clone();
    match &request.query {
        Some(q) => {
            url.append("?");
            url.append(q.as_str());
        },
        None => {},
    }
    let n = request.headers.len();
    let mut headers: Vec<(String, String)> = Vec::new();
    let mut i: usize = 0;
    while i < n
        invariant
            n == request.headers@.len(),
            0 <= i <= n,
            headers@.len() == i,
            forall|k: int| 0 <= k < i ==> vstd::utf8::valid_utf8(request.headers@[k].1@),
            forall|k: int|
                0 <= k < i ==> headers@[k].0@ == request.headers@[k].0@ && headers@[k].1@
                    == vstd::utf8::decode_utf8(request.headers@[k].1@),
        decreases n - i,
    {
        let (name, value) = &request.headers[i];
        match decode_utf8_bytes(value) {
            Some(decoded) => {
                headers.push((name.clone(), decoded));
            },
            None => {
                return Err(
                    HttpGatewayError::HeaderDecoding {
                        header_name: name.clone(),
                        header_value: value.clone(),
                    },
                );
            },
        }
        i += 1;
    }
    Ok(
        BackendRequest {
            method: request.method.clone(),
            url,
            headers,
            body: request.body.clone(),
        },
    )
}

/// The header list sent to the backend: the `x-request-id` header is
/// dropped, and every `Accept-Encoding` value is normalized to contain an
/// `identity` token.
pub open spec fn spec_header_fields(hs: Seq<(Seq<char>, Seq<char>)>) -> Seq<(Seq<char>, Seq<char>)>
    decreases hs.len(),
{
    if hs.len() == 0 {
        Seq::empty()
    } else {
        let rest = spec_header_fields(hs.drop_last());
        let p = hs.last();
        if eq_ignore_case(p.0, "x-request-id"@) {
            rest
        } else if eq_ignore_case(p.0, "accept-encoding"@) {
            rest.push((p.0, normalize_accept_encoding(p.1)))
        } else {
            rest.push(p)
        }
    }
}

/// Whether the client itself asked for a byte range.
pub open spec fn spec_is_range_request(hs: Seq<(Seq<char>, Seq<char>)>) -> bool {
    exists|i: int|
        0 <= i < hs.len() && (eq_ignore_case(hs[i].0, "range"@) || eq_ignore_case(
            hs[i].0,
            "if-range"@,
        ))
}

/// Builds the outbound header list and detects range requests.
pub fn prepare_header_fields(http_request: &BackendRequest) -> (r: (Vec<(String, String)>, bool))
    ensures
        headers_view(r.0@) == spec_header_fields(headers_view(http_request.headers@)),
        r.1 == spec_is_range_request(headers_view(http_request.headers@)),
{
    let ghost hv = headers_view(http_request.headers@);
    let n = http_request.headers.len();
    let mut out: Vec<(String, String)> = Vec::new();
    let mut is_range_request = false;
    let mut i: usize = 0;
    while i < n
        invariant
            n == http_request.headers@.len(),
            hv == headers_view(http_request.headers@),
            hv.len() == n,
            0 <= i <= n,
            headers_view(out@) == spec_header_fields(hv.subrange(0, i as int)),
            is_range_request == spec_is_range_request(hv.subrange(0, i as int)),
        decreases n - i,
    {
        let (name, value) = &http_request.headers[i];
        let ghost prefix = hv.subrange(0, i as int);
        let ghost prefix1 = hv.subrange(0, i as int + 1);
        proof {
            assert(prefix1.drop_last() =~= prefix);
            assert(prefix1.last() == hv[i as int]);
        }
        if eq_ignore_case_str(name.as_str(), "x-request-id") {
            // dropped from the outbound request
        } else if eq_ignore_case_str(name.as_str(), "accept-encoding") {
            let normalized = ensure_identity(value);
            out.push((name.clone(), normalized));
            proof {
                assert(headers_view(out@) =~= spec_header_fields(prefix1));
            }
        } else {
            out.push((name.clone(), value.clone()));
            proof {
                assert(headers_view(out@) =~= spec_header_fields(prefix1));
            }
        }
        if eq_ignore_case_str(name.as_str(), "range") || eq_ignore_case_str(
            name.as_str(),
            "if-range",
        ) {
            is_range_request = true;
        }
        proof {
            if !spec_is_range_request(prefix) && !(eq_ignore_case(hv[i as int].0, "range"@)
                || eq_ignore_case(hv[i as int].0, "if-range"@)) {
                assert(forall|k: int|
                    0 <= k < prefix1.len() ==> prefix1[k] == if k < i as int {
                        prefix[k]
                    } else {
                        hv[i as int]
                    });
                assert(!spec_is_range_request(prefix1));
            }
        }
        i += 1;
    }
    proof {
        assert(hv.subrange(0, n as int) =~= hv);
    }
    (out, is_range_request)
}

/// Clones a translated request; the clone has the same view.
pub fn clone_backend_request(r: &BackendRequest) -> (c: BackendRequest)
    ensures
        c@ == r@,
{
    let c = BackendRequest {
        method: r.method.clone(),
        url: r.url.clone(),
        headers: crate::headers::clone_headers(&r.headers),
        body: r.body.clone(),
    };
    proof {
        assert(c@ == r@);
    }
    c
}

/// A translated request together with what the pipeline needs beside it:
/// the outbound header list and the range-request flag.
pub struct TranslatedRequest {
    pub http_request: BackendRequest,
    pub header_fields: Vec<(String, String)>,
    pub is_range_request: bool,
}

/// Every `Accept-Encoding` header of the inbound request reaches the
/// backend with an `identity` token among its values.
pub proof fn lemma_outbound_accept_encoding_has_identity(
    hs: Seq<(Seq<char>, Seq<char>)>,
    i: int,
)
    requires
        0 <= i < hs.len(),
        eq_ignore_case(hs[i].0, "accept-encoding"@),
    ensures
        exists|j: int|
            {
                &&& 0 <= j < spec_header_fields(hs).len()
                &&& eq_ignore_case(spec_header_fields(hs)[j].0, "accept-encoding"@)
                &&& has_identity_token(spec_header_fields(hs)[j].1)
            },
    decreases hs.len(),
{
    reveal_strlit("accept-encoding");
    reveal_strlit("x-request-id");
    let out = spec_header_fields(hs);
    if i == hs.len() - 1 {
        let p = hs.last();
        assert(p.0.len() == 15);
        assert(!eq_ignore_case(p.0, "x-request-id"@));
        crate::headers::lemma_normalize_has_identity(p.1);
        let j = out.len() - 1;
        assert(out[j] == (p.0, normalize_accept_encoding(p.1)));
    } else {
        lemma_outbound_accept_encoding_has_identity(hs.drop_last(), i);
        let rest = spec_header_fields(hs.drop_last());
        let j = choose|j: int|
            0 <= j < rest.len() && eq_ignore_case(rest[j].0, "accept-encoding"@)
                && has_identity_token(rest[j].1);
        assert(out == if eq_ignore_case(hs.last().0, "x-request-id"@) {
            rest
        } else if eq_ignore_case(hs.last().0, "accept-encoding"@) {
            rest.push((hs.last().0, normalize_accept_encoding(hs.last().1)))
        } else {
            rest.push(hs.last())
        });
        assert(0 <= j < out.len() && out[j] == rest[j]);
    }
}

} // verus!
