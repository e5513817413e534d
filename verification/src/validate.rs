//! The verifier adapter: certificate verification of a request/response
//! pair through the external response-verification crate, plus the trusted
//! declarations of the agent and principal types the gateway carries
//! through.

use vstd::prelude::*;
use crate::request::BackendRequest;

verus! {

/// Maximum clock skew tolerated when verifying a certificate, in
/// nanoseconds (300 s).
pub const MAX_CERT_TIME_OFFSET_NS: u128 = 300_000_000_000;

/// The RPC agent of the backend platform. Opaque to the gateway: values are
/// carried through and handed to trusted calls only.
#[verifier::external_type_specification]
#[verifier::external_body]
pub struct ExAgent(ic_agent::Agent);

/// The principal naming a backend service. Opaque to the gateway.
#[verifier::external_type_specification]
#[verifier::external_body]
pub struct ExPrincipal(candid::Principal);

/// Relies on the derived `Clone` of `candid::Principal`, a `Copy` type: the
/// clone is the same principal.
pub assume_specification[ <candid::Principal as Clone>::clone ](p: &candid::Principal) -> (r:
    candid::Principal)
    ensures
        r == *p,
;

/// A certified response as the verifier reports it: the status, headers and
/// body that were covered by the certificate.
#[derive(Debug)]
pub struct VerifiedResponse {
    pub status_code: Option<u16>,
    pub headers: Vec<(String, String)>,
    pub body: Vec<u8>,
}

/// What the verifier established about a response. A `None` response under
/// version 2 means the backend certifiably declined to constrain the
/// response.
#[derive(Debug)]
pub struct VerificationInfo {
    pub response: Option<VerifiedResponse>,
    pub verification_version: u16,
}

/// The view of a certified response.
pub struct VerifiedResponseView {
    pub status_code: Option<u16>,
    pub headers: Seq<(Seq<char>, Seq<char>)>,
    pub body: Seq<u8>,
}

impl View for VerifiedResponse {
    type V = VerifiedResponseView;

    open spec fn view(&self) -> VerifiedResponseView {
        VerifiedResponseView {
            status_code: self.status_code,
            headers: crate::headers::headers_view(self.headers@),
            body: self.body@,
        }
    }
}

/// The view of a verification outcome.
pub struct VerificationInfoView {
    pub response: Option<VerifiedResponseView>,
    pub verification_version: u16,
}

impl View for VerificationInfo {
    type V = VerificationInfoView;

    open spec fn view(&self) -> VerificationInfoView {
        VerificationInfoView {
            response: match self.response {
                Some(r) => Some(r@),
                None => None,
            },
            verification_version: self.verification_version,
        }
    }
}

/// The view of an optional verification outcome.
pub open spec fn opt_verification_info_view(v: Option<VerificationInfo>) -> Option<
    VerificationInfoView,
> {
    match v {
        Some(i) => Some(i@),
        None => None,
    }
}

/// Relies on `ic_agent::Agent::read_root_key`: the root public key held by
/// the agent.
#[verifier::external_body]
fn read_root_key(agent: &ic_agent::Agent) -> Vec<u8> {
    agent.read_root_key()
}

/// Relies on `std::time::SystemTime::now`: the clock reading, as
/// nanoseconds since the Unix epoch (zero if the clock reads earlier).
#[verifier::external_body]
fn system_time_since_epoch_ns() -> u128 {
    std::time::SystemTime::now()
        .duration_since(std::time::UNIX_EPOCH)
        .map(|d| d.as_nanos())
        .unwrap_or(0)
}

/// The current wall-clock time in nanoseconds since the Unix epoch, as
/// certificate verification consumes it.
pub fn get_current_time_in_ns() -> u128 {
    system_time_since_epoch_ns()
}

/// The verifier's own request type, built from ours and carried through.
#[verifier::external_type_specification]
#[verifier::external_body]
pub struct ExVerifierHttpRequest<'a>(ic_http_certification::HttpRequest<'a>);

/// The verifier's own response type, built from ours and carried through.
#[verifier::external_type_specification]
#[verifier::external_body]
pub struct ExVerifierHttpResponse<'a>(ic_http_certification::HttpResponse<'a>);

/// Relies on `ic_http_certification::HttpRequestBuilder`: it stores the
/// given method, URL, headers and body unchanged. A method name that is no
/// valid HTTP token falls back to `GET`; the translator only ever hands
/// over method names read from a parsed request, which are valid tokens.
#[verifier::external_body]
fn to_verifier_request(request: &BackendRequest) -> ic_http_certification::HttpRequest<'static> {
    ic_http_certification::HttpRequest::builder()
        .with_method(
            http::Method::from_bytes(request.method.as_bytes()).unwrap_or(http::Method::GET),
        )
        .with_url(request.url.clone())
        .with_headers(request.headers.clone())
        .with_body(request.body.clone())
        .build()
}

/// Relies on `ic_http_certification::HttpResponseBuilder`: it stores the
/// given status, headers and body unchanged.
#[verifier::external_body]
fn to_verifier_response(
    status_code: u16,
    headers: &Vec<(String, String)>,
    body: &Vec<u8>,
) -> ic_http_certification::HttpResponse<'static>
    requires
        100 <= status_code <= 599,
{
    let status = ic_http_certification::StatusCode::from_u16(status_code).unwrap();
    ic_http_certification::HttpResponse::builder()
        .with_status_code(status)
        .with_headers(headers.clone())
        .with_body(body.clone())
        .build()
}

/// Relies on `ic_response_verification::verify_request_response_pair`: its
/// source returns, on success, the certificate's verification version, and
/// admits only versions 1 and 2.
#[verifier::external_body]
fn verify_pair(
    request: ic_http_certification::HttpRequest<'static>,
    response: ic_http_certification::HttpResponse<'static>,
    canister_id: &candid::Principal,
    current_time_ns: u128,
    max_cert_time_offset_ns: u128,
    ic_public_key: &Vec<u8>,
) -> (r: Result<VerificationInfo, String>)
    ensures
        r matches Ok(info) ==> info.verification_version == 1 || info.verification_version == 2,
{
    let result = ic_response_verification::verify_request_response_pair(
        request, response, canister_id.as_slice(), current_time_ns,
        max_cert_time_offset_ns, ic_public_key.as_slice(),
        ic_response_verification::MIN_VERIFICATION_VERSION,
    );
    match result {
        Ok(i) => Ok(VerificationInfo {
            verification_version: i.verification_version,
            response: i.response.map(|v| VerifiedResponse {
                status_code: v.status_code, headers: v.headers, body: v.body }),
        }),
        Err(e) => Err(format!("{}", e)),
    }
}

/// Verifies a request/response pair against the backend's certificate.
/// With `skip_verification` set, no verification happens and `Ok(None)` is
/// returned: that is only sound on raw, uncertified domains, and gating the
/// decision is the caller's responsibility.
pub fn validate(
    agent: &ic_agent::Agent,
    canister_id: &candid::Principal,
    request: &BackendRequest,
    response_status: u16,
    response_headers: &Vec<(String, String)>,
    response_body: &Vec<u8>,
    skip_verification: bool,
) -> (r: Result<Option<VerificationInfo>, String>)
    requires
        100 <= response_status <= 599,
    ensures
        skip_verification ==> (r matches Ok(info) && info is None),
        !skip_verification ==> (r matches Ok(info) ==> info matches Some(i)
            && (i.verification_version == 1 || i.verification_version == 2)),
{
    if skip_verification {
        return Ok(None);
    }
    let ic_public_key = read_root_key(agent);
    let req = to_verifier_request(request);
    let resp = to_verifier_response(response_status, response_headers, response_body);
    let now = get_current_time_in_ns();
    match verify_pair(req, resp, canister_id, now, MAX_CERT_TIME_OFFSET_NS, &ic_public_key) {
        Ok(info) => Ok(Some(info)),
        Err(e) => Err(e),
    }
}

} // verus!
