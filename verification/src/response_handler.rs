//! Body assembly: the callback-stream collector, `Content-Range` parsing,
//! and the range-stream driver that stitches a 206 reply into one
//! contiguous body.

use vstd::prelude::*;
use crate::headers::{find_header, get_header_value, headers_view};
use crate::request::{clone_backend_request, BackendRequest, BackendRequestView};
use crate::response::{BackendResponse, BackendResponseView, HttpGatewayResponseBody,
    HttpGatewayResponseBodyView};
use crate::strutil::{
    all_digits, count_char, dec_string, dec_value, index_of_char, lemma_count_char_step,
    lemma_index_of_char_found, parse_usize, str_eq, trim, trim_spec, usize_to_string,
};
use crate::validate::validate;

verus! {

/// Ceiling on the number of callback pulls of one streamed response.
pub const MAX_HTTP_REQUEST_STREAM_CALLBACK_CALL_COUNT: usize = 1000;

/// Ceiling on the number of callback pulls whose bytes can still be
/// verified as one certified body.
pub const MAX_VERIFIED_HTTP_REQUEST_STREAM_CALLBACK_CALL_COUNT: usize = 4;

/// How many callback pulls may be in flight at once.
pub const STREAM_CALLBACK_BUFFER: usize = 2;

/// The three fields of a `Content-Range: bytes <begin>-<end>/<total>`
/// header.
#[derive(Debug)]
pub struct ContentRangeValues {
    pub range_begin: usize,
    pub range_end: usize,
    pub total_length: usize,
}

/// The state of the range-stream driver between two chunk requests.
#[derive(Debug)]
pub struct StreamState {
    pub http_request: BackendRequest,
    pub canister_id: candid::Principal,
    pub total_length: usize,
    pub fetched_length: usize,
    pub skip_verification: bool,
}

/// The mathematical view of a driver state.
pub struct StreamStateView {
    pub http_request: BackendRequestView,
    pub canister_id: candid::Principal,
    pub total_length: int,
    pub fetched_length: int,
    pub skip_verification: bool,
}

impl View for StreamState {
    type V = StreamStateView;

    open spec fn view(&self) -> StreamStateView {
        StreamStateView {
            http_request: self.http_request@,
            canister_id: self.canister_id,
            total_length: self.total_length as int,
            fetched_length: self.fetched_length as int,
            skip_verification: self.skip_verification,
        }
    }
}

impl StreamState {
    /// The driver's invariant: something is fetched, and no more than the
    /// whole.
    pub open spec fn wf(&self) -> bool {
        0 < self.fetched_length <= self.total_length
    }
}

pub open spec fn msg_invalid_header(input: Seq<char>) -> Seq<char> {
    "Invalid Content-Range header '"@ + input + "'"@
}

pub open spec fn msg_invalid_bytes_spec(input: Seq<char>) -> Seq<char> {
    "Invalid bytes spec in Content-Range header '"@ + input + "'"@
}

pub open spec fn msg_invalid_begin(input: Seq<char>) -> Seq<char> {
    "Invalid range_begin in '"@ + input + "'"@
}

pub open spec fn msg_invalid_end(input: Seq<char>) -> Seq<char> {
    "Invalid range_end in '"@ + input + "'"@
}

pub open spec fn msg_invalid_total(input: Seq<char>) -> Seq<char> {
    "Invalid total_length in '"@ + input + "'"@
}

pub open spec fn msg_inconsistent(input: Seq<char>) -> Seq<char> {
    "inconsistent Content-Range header "@ + input
}

/// A digit string that a `usize` can hold.
pub open spec fn parseable(s: Seq<char>) -> bool {
    s.len() > 0 && all_digits(s) && dec_value(s) <= usize::MAX
}

/// The grammar of a `Content-Range` header value, decided exactly as the
/// parser decides it: trim, the literal prefix `bytes `, one `-`, one `/`,
/// three decimal fields, and `begin <= end < total`.
pub open spec fn spec_parse_content_range(input: Seq<char>) -> Result<(int, int, int), Seq<char>> {
    let t = trim_spec(input);
    if !(t.len() >= 6 && t.subrange(0, 6) == "bytes "@) {
        Err(msg_invalid_header(input))
    } else {
        let rest = t.subrange(6, t.len() as int);
        if count_char(rest, '-') != 1 {
            Err(msg_invalid_bytes_spec(input))
        } else {
            let i = index_of_char(rest, '-');
            let left = rest.subrange(0, i);
            let right = rest.subrange(i + 1, rest.len() as int);
            if !parseable(left) {
                Err(msg_invalid_begin(input))
            } else if count_char(right, '/') != 1 {
                Err(msg_invalid_bytes_spec(input))
            } else {
                let j = index_of_char(right, '/');
                let mid = right.subrange(0, j);
                let tot = right.subrange(j + 1, right.len() as int);
                if !parseable(mid) {
                    Err(msg_invalid_end(input))
                } else if !parseable(tot) {
                    Err(msg_invalid_total(input))
                } else {
                    let b = dec_value(left);
                    let e = dec_value(mid);
                    let to = dec_value(tot);
                    if b > e || b >= to || e >= to {
                        Err(msg_inconsistent(input))
                    } else {
                        Ok((b, e, to))
                    }
                }
            }
        }
    }
}

/// Counts the occurrences of `c` in `s` and finds the first one.
fn count_and_index(s: &str, c: char) -> (r: (usize, usize))
    ensures
        r.0 == count_char(s@, c),
        count_char(s@, c) > 0 ==> r.1 == index_of_char(s@, c) && 0 <= r.1 < s@.len()
            && s@[r.1 as int] == c,
{
    let n = s.unicode_len();
    let mut count: usize = 0;
    let mut first: usize = 0;
    let mut k: usize = 0;
    while k < n
        invariant
            n == s@.len(),
            0 <= k <= n,
            count == count_char(s@.subrange(0, k as int), c),
            count <= k,
            count > 0 ==> 0 <= first < k && s@[first as int] == c && (forall|m: int|
                0 <= m < first ==> s@[m] != c),
        decreases n - k,
    {
        proof {
            lemma_count_char_step(s@, c, k as int);
        }
        if s.get_char(k) == c {
            if count == 0 {
                first = k;
                proof {
                    assert forall|m: int| 0 <= m < first implies s@[m] != c by {
                        if s@[m] == c {
                            lemma_count_char_nonneg(s@.subrange(0, m), c);
                            lemma_count_char_step(s@, c, m);
                            lemma_count_char_prefix_le(s@, c, m + 1, first as int);
                        }
                    }
                }
            }
            count += 1;
        }
        k += 1;
    }
    proof {
        assert(s@.subrange(0, n as int) =~= s@);
        if count > 0 {
            lemma_index_of_char_found(s@, c, first as int);
        }
    }
    (count, first)
}

/// A count over a prefix never exceeds the count over a longer prefix.
pub proof fn lemma_count_char_prefix_le(s: Seq<char>, c: char, k: int, k2: int)
    requires
        0 <= k <= k2 <= s.len(),
    ensures
        count_char(s.subrange(0, k), c) <= count_char(s.subrange(0, k2), c),
    decreases k2 - k,
{
    if k < k2 {
        lemma_count_char_prefix_le(s, c, k, k2 - 1);
        lemma_count_char_step(s, c, k2 - 1);
    }
}

pub proof fn lemma_count_char_nonneg(s: Seq<char>, c: char)
    ensures
        count_char(s, c) >= 0,
    decreases s.len(),
{
    if s.len() > 0 {
        lemma_count_char_nonneg(s.drop_last(), c);
    }
}

/// Parses a `Content-Range` header value of the shape
/// `bytes <begin>-<end>/<total>`.
pub fn parse_content_range_header_str(content_range_str: &str) -> (r: Result<
    ContentRangeValues,
    String,
>)
    ensures
        match (r, spec_parse_content_range(content_range_str@)) {
            (Ok(v), Ok((b, e, t))) => v.range_begin == b && v.range_end == e && v.total_length
                == t,
            (Err(m), Err(sm)) => m@ == sm,
            _ => false,
        },
        r matches Ok(v) ==> v.range_begin <= v.range_end < v.total_length,
{
    let ghost input = content_range_str@;
    let t = trim(content_range_str);
    let tn = t.unicode_len();
    let prefix_ok = if tn < 6 {
        false
    } else {
        let p = t.substring_char(0, 6);
        str_eq(p, "bytes ")
    };
    if !prefix_ok {
        let m = String::from_str("Invalid Content-Range header '").concat(
            content_range_str,
        ).concat("'");
        proof {
            assert(m@ =~= msg_invalid_header(input));
        }
        return Err(m);
    }
    let rest = t.substring_char(6, tn);
    let ghost rest_v = trim_spec(input).subrange(6, trim_spec(input).len() as int);
    proof {
        assert(rest@ =~= rest_v);
    }
    let (dash_count, dash_idx) = count_and_index(rest, '-');
    if dash_count != 1 {
        let m = String::from_str("Invalid bytes spec in Content-Range header '").concat(
            content_range_str,
        ).concat("'");
        proof {
            assert(m@ =~= msg_invalid_bytes_spec(input));
        }
        return Err(m);
    }
    let rn = rest.unicode_len();
    let left = rest.substring_char(0, dash_idx);
    let right = rest.substring_char(dash_idx + 1, rn);
    let range_begin = match parse_usize(left) {
        Some(v) => v,
        None => {
            let m = String::from_str("Invalid range_begin in '").concat(
                content_range_str,
            ).concat("'");
            proof {
                assert(m@ =~= msg_invalid_begin(input));
            }
            return Err(m);
        },
    };
    let (slash_count, slash_idx) = count_and_index(right, '/');
    if slash_count != 1 {
        let m = String::from_str("Invalid bytes spec in Content-Range header '").concat(
            content_range_str,
        ).concat("'");
        proof {
            assert(m@ =~= msg_invalid_bytes_spec(input));
        }
        return Err(m);
    }
    let rrn = right.unicode_len();
    let mid = right.substring_char(0, slash_idx);
    let tot = right.substring_char(slash_idx + 1, rrn);
    let range_end = match parse_usize(mid) {
        Some(v) => v,
        None => {
            let m = String::from_str("Invalid range_end in '").concat(content_range_str).concat(
                "'",
            );
            proof {
                assert(m@ =~= msg_invalid_end(input));
            }
            return Err(m);
        },
    };
    let total_length = match parse_usize(tot) {
        Some(v) => v,
        None => {
            let m = String::from_str("Invalid total_length in '").concat(
                content_range_str,
            ).concat("'");
            proof {
                assert(m@ =~= msg_invalid_total(input));
            }
            return Err(m);
        },
    };
    if range_begin > range_end || range_begin >= total_length || range_end >= total_length {
        let m = String::from_str("inconsistent Content-Range header ").concat(content_range_str);
        proof {
            assert(m@ =~= msg_inconsistent(input));
        }
        return Err(m);
    }
    Ok(ContentRangeValues { range_begin, range_end, total_length })
}

pub open spec fn msg_missing_content_range() -> Seq<char> {
    "missing Content-Range header in 206 response"@
}

/// The value of the `Content-Range` header, or the missing-header error.
pub fn get_content_range_header_str(response_headers: &Vec<(String, String)>) -> (r: Result<
    String,
    String,
>)
    ensures
        match (r, find_header(headers_view(response_headers@), "content-range"@)) {
            (Ok(v), Some(found)) => v@ == found,
            (Err(m), None) => m@ == msg_missing_content_range(),
            _ => false,
        },
{
    match get_header_value(response_headers, "content-range") {
        Some(v) => Ok(v.clone()),
        None => Err(String::from_str("missing Content-Range header in 206 response")),
    }
}

pub open spec fn msg_chunk_begin_too_large(b: int, fetched: int) -> Seq<char> {
    "chunk out-of-order: range_begin="@ + dec_string(b) + " is larger than expected begin="@
        + dec_string(fetched) + " "@
}

pub open spec fn msg_chunk_end_too_small(b: int, e: int, fetched: int) -> Seq<char> {
    "chunk out-of-order: range_begin="@ + dec_string(b) + ", range_end="@ + dec_string(e)
        + " is smaller than length fetched so far="@ + dec_string(fetched) + " "@
}

/// The `Content-Range` fields of a chunk reply, as far as they pass every
/// check against the bytes fetched so far.
pub open spec fn spec_content_range_values(
    hv: Seq<(Seq<char>, Seq<char>)>,
    fetched: int,
) -> Result<(int, int, int), Seq<char>> {
    match find_header(hv, "content-range"@) {
        None => Err(msg_missing_content_range()),
        Some(v) => match spec_parse_content_range(v) {
            Err(m) => Err(m),
            Ok((b, e, t)) => if b > fetched {
                Err(msg_chunk_begin_too_large(b, fetched))
            } else if e < fetched {
                Err(msg_chunk_end_too_small(b, e, fetched))
            } else {
                Ok((b, e, t))
            },
        },
    }
}

/// Extracts and checks the `Content-Range` fields of a reply: they must
/// parse, and the chunk must neither start past `fetched_length` nor end
/// before it.
pub fn get_content_range_values(
    response_headers: &Vec<(String, String)>,
    fetched_length: usize,
) -> (r: Result<ContentRangeValues, String>)
    ensures
        match (r, spec_content_range_values(
            headers_view(response_headers@),
            fetched_length as int,
        )) {
            (Ok(v), Ok((b, e, t))) => v.range_begin == b && v.range_end == e && v.total_length
                == t,
            (Err(m), Err(sm)) => m@ == sm,
            _ => false,
        },
        r matches Ok(v) ==> v.range_begin <= v.range_end < v.total_length && v.range_begin
            <= fetched_length <= v.range_end,
{
    let str_value = get_content_range_header_str(response_headers)?;
    let range_values = parse_content_range_header_str(str_value.as_str())?;
    if range_values.range_begin > fetched_length {
        let m = String::from_str("chunk out-of-order: range_begin=").concat(
            usize_to_string(range_values.range_begin).as_str(),
        ).concat(" is larger than expected begin=").concat(
            usize_to_string(fetched_length).as_str(),
        ).concat(" ");
        proof {
            assert(m@ =~= msg_chunk_begin_too_large(
                range_values.range_begin as int,
                fetched_length as int,
            ));
        }
        return Err(m);
    }
    if range_values.range_end < fetched_length {
        let m = String::from_str("chunk out-of-order: range_begin=").concat(
            usize_to_string(range_values.range_begin).as_str(),
        ).concat(", range_end=").concat(usize_to_string(range_values.range_end).as_str()).concat(
            " is smaller than length fetched so far=",
        ).concat(usize_to_string(fetched_length).as_str()).concat(" ");
        proof {
            assert(m@ =~= msg_chunk_end_too_small(
                range_values.range_begin as int,
                range_values.range_end as int,
                fetched_length as int,
            ));
        }
        return Err(m);
    }
    Ok(range_values)
}

/// Builds the driver state from the initial 206 reply: the chunk must start
/// at offset zero by the out-of-order checks, and `fetched_length` becomes
/// the length of the initial chunk.
pub fn get_initial_stream_state(
    http_request: BackendRequest,
    canister_id: candid::Principal,
    response_headers: &Vec<(String, String)>,
    skip_verification: bool,
) -> (r: Result<StreamState, String>)
    ensures
        match (r, spec_content_range_values(headers_view(response_headers@), 0)) {
            (Ok(st), Ok((b, e, t))) => {
                &&& st.http_request == http_request
                &&& st.canister_id == canister_id
                &&& st.total_length == t
                &&& st.fetched_length == e - b + 1
                &&& st.skip_verification == skip_verification
                &&& st.wf()
            },
            (Err(m), Err(sm)) => m@ == sm,
            _ => false,
        },
{
    let range_values = get_content_range_values(response_headers, 0)?;
    Ok(
        StreamState {
            http_request,
            canister_id,
            total_length: range_values.total_length,
            fetched_length: range_values.range_end - range_values.range_begin + 1,
            skip_verification,
        },
    )
}

/// Accumulates the certified prefix of a callback stream: up to
/// `MAX_VERIFIED_HTTP_REQUEST_STREAM_CALLBACK_CALL_COUNT` chunks whose
/// concatenation can still be verified as one body.
pub struct CallbackCollector {
    pub collected: Vec<u8>,
    pub calls: usize,
}

impl CallbackCollector {
    /// An empty collector.
    pub fn new() -> (r: Self)
        ensures
            r.collected@ == Seq::<u8>::empty(),
            r.calls == 0,
    {
        CallbackCollector { collected: Vec::new(), calls: 0 }
    }

    /// Whether another callback pull still fits the certified budget.
    pub fn wants_more(&self) -> (r: bool)
        ensures
            r == (self.calls < MAX_VERIFIED_HTTP_REQUEST_STREAM_CALLBACK_CALL_COUNT),
    {
        self.calls < MAX_VERIFIED_HTTP_REQUEST_STREAM_CALLBACK_CALL_COUNT
    }

    /// Appends one chunk's bytes.
    pub fn absorb(&mut self, chunk: Vec<u8>)
        requires
            old(self).calls < MAX_VERIFIED_HTTP_REQUEST_STREAM_CALLBACK_CALL_COUNT,
        ensures
            final(self).collected@ == old(self).collected@ + chunk@,
            final(self).calls == old(self).calls + 1,
    {
        let mut c = chunk;
        self.collected.append(&mut c);
        self.calls = self.calls + 1;
    }

    /// Concludes collection. With no token left, the whole body is in
    /// memory and can be verified; with a token left, the body becomes an
    /// uncertified stream starting from what was collected.
    pub fn finish(self, reply_body: &Vec<u8>, token_remains: bool) -> (r: HttpGatewayResponseBody)
        ensures
            !token_remains ==> r@ == HttpGatewayResponseBodyView::Full(
                reply_body@ + self.collected@,
            ),
            token_remains ==> r@ == (HttpGatewayResponseBodyView::CallbackStream {
                initial: reply_body@ + self.collected@,
            }),
    {
        let mut body = reply_body.clone();
        let mut c = self.collected;
        body.append(&mut c);
        if token_remains {
            HttpGatewayResponseBody::CallbackStream { initial: body }
        } else {
            HttpGatewayResponseBody::Full(body)
        }
    }
}

/// The value of the `Range` header a chunk request carries.
pub open spec fn range_header_value_spec(n: int) -> Seq<char> {
    "bytes="@ + dec_string(n) + "-"@
}

/// The chunk request: the driver's request template with a `Range` header
/// for the bytes from `fetched_length` on appended.
pub fn build_range_request(state: &StreamState) -> (r: BackendRequest)
    ensures
        r.method@ == state.http_request.method@,
        r.url@ == state.http_request.url@,
        r.body@ == state.http_request.body@,
        headers_view(r.headers@) == headers_view(state.http_request.headers@).push(
            ("Range"@, range_header_value_spec(state.fetched_length as int)),
        ),
{
    let mut r = clone_backend_request(&state.http_request);
    let value = String::from_str("bytes=").concat(
        usize_to_string(state.fetched_length).as_str(),
    ).concat("-");
    r.headers.push((String::from_str("Range"), value));
    proof {
        assert(headers_view(r.headers@) =~= headers_view(state.http_request.headers@).push(
            ("Range"@, range_header_value_spec(state.fetched_length as int)),
        ));
    }
    r
}

pub open spec fn msg_unexpected_streaming() -> Seq<char> {
    "unexpected StreamingStrategy"@
}

/// The error reported when a chunk fails certificate verification; clients
/// match on this text together with the chunk's starting offset.
pub open spec fn msg_chunk_verification_failed(fetched: int, detail: Seq<char>) -> Seq<char> {
    "CertificateVerificationFailed for a chunk starting at "@ + dec_string(fetched) + ", error: "@
        + detail
}

pub open spec fn msg_invalid_status(status: u16) -> Seq<char> {
    "Invalid canister response status code: "@ + dec_string(status as int)
}

pub open spec fn msg_body_length_mismatch() -> Seq<char> {
    "chunk body length does not match its Content-Range header"@
}

/// Every check a chunk reply must pass before its bytes may be emitted:
/// a parsed, in-order `Content-Range`, no nested streaming strategy, a
/// valid status code, and a body of exactly the declared length.
pub open spec fn spec_range_checks(response: BackendResponseView, fetched: int) -> Result<
    (int, int, int),
    Seq<char>,
> {
    match spec_content_range_values(response.headers, fetched) {
        Err(m) => Err(m),
        Ok((b, e, t)) => if response.has_streaming_strategy {
            Err(msg_unexpected_streaming())
        } else if !(100 <= response.status_code <= 599) {
            Err(msg_invalid_status(response.status_code))
        } else if response.body.len() != e - b + 1 {
            Err(msg_body_length_mismatch())
        } else {
            Ok((b, e, t))
        },
    }
}

/// One pull of the range driver: checks the chunk reply, verifies it, and
/// emits the bytes past the previously fetched length. The state advances
/// to the chunk's end; the stream ends when the total length is reached.
/// A chunk whose checks fail, or whose verification fails, yields an error
/// and nothing is emitted.
pub fn range_stream_step(
    agent: &ic_agent::Agent,
    state: &StreamState,
    response: &BackendResponse,
) -> (r: Result<(Vec<u8>, Option<StreamState>), String>)
    requires
        state.wf(),
    ensures
        spec_range_checks(response@, state.fetched_length as int) matches Err(m) ==> (r matches
            Err(m2) && m2@ == m),
        r is Ok ==> spec_range_checks(response@, state.fetched_length as int) is Ok,
        r matches Ok(p) ==> (spec_range_checks(response@, state.fetched_length as int) matches Ok(
            bet,
        ) && {
            let (b, e, t) = bet;
            &&& p.0@ == response.body@.subrange(
                state.fetched_length - b,
                response.body@.len() as int,
            )
            &&& p.0@.len() == e + 1 - state.fetched_length
            &&& (e + 1 < state.total_length ==> (p.1 matches Some(st2) && st2@.http_request
                == state@.http_request && st2@.canister_id == state@.canister_id
                && st2@.total_length == state@.total_length && st2@.fetched_length == e + 1
                && st2@.skip_verification == state@.skip_verification && st2.wf()))
            &&& (e + 1 >= state.total_length ==> p.1 is None)
        }),
        state.skip_verification && spec_range_checks(response@, state.fetched_length as int)
            is Ok ==> r is Ok,
        spec_range_checks(response@, state.fetched_length as int) is Ok ==> (r matches Err(m)
            ==> !state.skip_verification && (exists|detail: Seq<char>|
            m@ == msg_chunk_verification_failed(state.fetched_length as int, detail))),
{
    let values = get_content_range_values(&response.headers, state.fetched_length)?;
    if response.has_streaming_strategy {
        return Err(String::from_str("unexpected StreamingStrategy"));
    }
    if !(100 <= response.status_code && response.status_code <= 599) {
        let m = String::from_str("Invalid canister response status code: ").concat(
            usize_to_string(response.status_code as usize).as_str(),
        );
        proof {
            assert(m@ =~= msg_invalid_status(response.status_code));
        }
        return Err(m);
    }
    let expected_len = values.range_end - values.range_begin + 1;
    if response.body.len() != expected_len {
        return Err(String::from_str("chunk body length does not match its Content-Range header"));
    }
    let range_request = build_range_request(state);
    match validate(
        agent,
        &state.canister_id,
        &range_request,
        response.status_code,
        &response.headers,
        &response.body,
        state.skip_verification,
    ) {
        Ok(_) => {},
        Err(e) => {
            let m = String::from_str("CertificateVerificationFailed for a chunk starting at ")
                .concat(usize_to_string(state.fetched_length).as_str()).concat(
                ", error: ",
            ).concat(e.as_str());
            proof {
                assert(m@ =~= msg_chunk_verification_failed(state.fetched_length as int, e@));
            }
            return Err(m);
        },
    }
    let new_bytes_begin = state.fetched_length - values.range_begin;
    let body_len = response.body.len();
    let mut emitted: Vec<u8> = Vec::new();
    let mut idx = new_bytes_begin;
    while idx < body_len
        invariant
            body_len == response.body@.len(),
            new_bytes_begin <= idx <= body_len,
            emitted@ == response.body@.subrange(new_bytes_begin as int, idx as int),
        decreases body_len - idx,
    {
        emitted.push(response.body[idx]);
        proof {
            assert(emitted@ =~= response.body@.subrange(new_bytes_begin as int, idx + 1));
        }
        idx += 1;
    }
    let current_fetched = values.range_end + 1;
    let next = if current_fetched < state.total_length {
        Some(
            StreamState {
                http_request: clone_backend_request(&state.http_request),
                canister_id: state.canister_id.clone(),
                total_length: state.total_length,
                fetched_length: current_fetched,
                skip_verification: state.skip_verification,
            },
        )
    } else {
        None
    };
    Ok((emitted, next))
}

/// Frames leave the range driver in request order: a chunk that passes
/// every check ends past the previously fetched length, so a successful
/// step advances the stream offset strictly.
pub proof fn lemma_range_step_advances(
    response: BackendResponseView,
    fetched: int,
    b: int,
    e: int,
    t: int,
)
    requires
        spec_range_checks(response, fetched) == Ok::<(int, int, int), Seq<char>>((b, e, t)),
    ensures
        e + 1 > fetched,
{
}

/// Every byte offset a range step emits is covered by the span that the
/// chunk's verified `Content-Range` header declared: the step emits the
/// offsets from the previous fetched length up to the chunk's end, and
/// each of them lies in `[begin, end]`.
pub proof fn lemma_range_chunk_bytes_covered(
    response: BackendResponseView,
    fetched: int,
    b: int,
    e: int,
    t: int,
    i: int,
)
    requires
        spec_range_checks(response, fetched) == Ok::<(int, int, int), Seq<char>>((b, e, t)),
        0 <= i < e + 1 - fetched,
    ensures
        b <= fetched + i <= e,
{
}

} // verus!
