//! The gateway pipeline's decision core: the header and status policy of
//! the two verification protocol versions, the mapping of agent failures
//! to HTTP statuses, and the assembly of the outward response.

use vstd::prelude::*;
use crate::error::{
    agent_call_error_message, gateway_error_message, msg_replica_error, AgentCallError,
    AgentCallErrorView, HttpGatewayError, HttpGatewayErrorView, RejectCode,
};
use crate::headers::{clone_headers, headers_view};
use crate::request::{BackendRequest, BackendRequestView};
use crate::response::{
    create_err_response, spec_err_response, CanisterResponse, CanisterResponseView,
    HttpGatewayResponse, HttpGatewayResponseBody, HttpGatewayResponseBodyView,
    HttpGatewayResponseMetadata, HttpGatewayResponseMetadataView, HttpGatewayResponseView,
};
use crate::response_handler::{
    get_initial_stream_state, msg_invalid_status, spec_content_range_values, StreamState,
    StreamStateView,
};
use crate::strutil::{dec_string, eq_ignore_case, eq_ignore_case_str, usize_to_string};
use crate::validate::{
    opt_verification_info_view, validate, VerificationInfo, VerificationInfoView,
    VerifiedResponseView,
};

verus! {

/// The backend headers with `Cache-Control` removed: under verification
/// version 1 headers are not certified, and the known dangerous one is
/// dropped.
pub open spec fn spec_v1_headers(hs: Seq<(Seq<char>, Seq<char>)>) -> Seq<(Seq<char>, Seq<char>)>
    decreases hs.len(),
{
    if hs.len() == 0 {
        Seq::empty()
    } else {
        let rest = spec_v1_headers(hs.drop_last());
        if eq_ignore_case(hs.last().0, "cache-control"@) {
            rest
        } else {
            rest.push(hs.last())
        }
    }
}

/// Whether the 206 rule drops this header: a client that did not ask for a
/// range obtains the full asset, so `Content-Range` and `Content-Length`
/// of the partial reply must not be copied.
pub open spec fn is_206_dropped(name: Seq<char>) -> bool {
    eq_ignore_case(name, "content-range"@) || eq_ignore_case(name, "content-length"@)
}

/// The headers that survive the 206 rule.
pub open spec fn spec_206_filter(hs: Seq<(Seq<char>, Seq<char>)>) -> Seq<(Seq<char>, Seq<char>)>
    decreases hs.len(),
{
    if hs.len() == 0 {
        Seq::empty()
    } else {
        let rest = spec_206_filter(hs.drop_last());
        if is_206_dropped(hs.last().0) {
            rest
        } else {
            rest.push(hs.last())
        }
    }
}

/// The header policy table. Without verification every backend header
/// passes through. Version 1 rejects redirect statuses and drops
/// `Cache-Control`. Version 2 copies either all backend headers (when the
/// backend certifiably declined to constrain them) or exactly the
/// certified set, applying the 206 rule in both cases.
pub open spec fn spec_policy_headers(
    backend_headers: Seq<(Seq<char>, Seq<char>)>,
    validation: Option<VerificationInfoView>,
    status_code: u16,
    is_range_request: bool,
) -> Result<Seq<(Seq<char>, Seq<char>)>, ()> {
    match validation {
        None => Ok(backend_headers),
        Some(vi) => {
            if vi.verification_version < 2 {
                if 300 <= status_code < 400 {
                    Err(())
                } else {
                    Ok(spec_v1_headers(backend_headers))
                }
            } else {
                let source = match vi.response {
                    None => backend_headers,
                    Some(cr) => cr.headers,
                };
                if status_code == 206 && !is_range_request {
                    Ok(spec_206_filter(source))
                } else {
                    Ok(source)
                }
            }
        },
    }
}

fn filter_v1_headers(hs: &Vec<(String, String)>) -> (r: Vec<(String, String)>)
    ensures
        headers_view(r@) == spec_v1_headers(headers_view(hs@)),
{
    let ghost hv = headers_view(hs@);
    let n = hs.len();
    let mut out: Vec<(String, String)> = Vec::new();
    let mut i: usize = 0;
    while i < n
        invariant
            n == hs@.len(),
            hv == headers_view(hs@),
            hv.len() == n,
            0 <= i <= n,
            headers_view(out@) == spec_v1_headers(hv.subrange(0, i as int)),
        decreases n - i,
    {
        let ghost prefix1 = hv.subrange(0, i as int + 1);
        proof {
            assert(prefix1.drop_last() =~= hv.subrange(0, i as int));
            assert(prefix1.last() == hv[i as int]);
        }
        if !eq_ignore_case_str(hs[i].0.as_str(), "cache-control") {
            out.push((hs[i].0.clone(), hs[i].1.clone()));
            proof {
                assert(headers_view(out@) =~= spec_v1_headers(prefix1));
            }
        }
        i += 1;
    }
    proof {
        assert(hv.subrange(0, n as int) =~= hv);
    }
    out
}

fn filter_206_headers(hs: &Vec<(String, String)>) -> (r: Vec<(String, String)>)
    ensures
        headers_view(r@) == spec_206_filter(headers_view(hs@)),
{
    let ghost hv = headers_view(hs@);
    let n = hs.len();
    let mut out: Vec<(String, String)> = Vec::new();
    let mut i: usize = 0;
    while i < n
        invariant
            n == hs@.len(),
            hv == headers_view(hs@),
            hv.len() == n,
            0 <= i <= n,
            headers_view(out@) == spec_206_filter(hv.subrange(0, i as int)),
        decreases n - i,
    {
        let ghost prefix1 = hv.subrange(0, i as int + 1);
        proof {
            assert(prefix1.drop_last() =~= hv.subrange(0, i as int));
            assert(prefix1.last() == hv[i as int]);
        }
        if !(eq_ignore_case_str(hs[i].0.as_str(), "content-range") || eq_ignore_case_str(
            hs[i].0.as_str(),
            "content-length",
        )) {
            out.push((hs[i].0.clone(), hs[i].1.clone()));
            proof {
                assert(headers_view(out@) =~= spec_206_filter(prefix1));
            }
        }
        i += 1;
    }
    proof {
        assert(hv.subrange(0, n as int) =~= hv);
    }
    out
}

/// Applies the header policy table. `Err` means the response must be
/// rejected because version 1 cannot certify a redirect.
pub fn build_response_headers(
    agent_headers: &Vec<(String, String)>,
    status_code: u16,
    is_range_request: bool,
    validation_info: &Option<VerificationInfo>,
) -> (r: Result<Vec<(String, String)>, ()>)
    ensures
        match (r, spec_policy_headers(
            headers_view(agent_headers@),
            opt_verification_info_view(*validation_info),
            status_code,
            is_range_request,
        )) {
            (Ok(v), Ok(sv)) => headers_view(v@) == sv,
            (Err(_), Err(_)) => true,
            _ => false,
        },
{
    match validation_info {
        None => Ok(clone_headers(agent_headers)),
        Some(vi) => {
            if vi.verification_version < 2 {
                if 300 <= status_code && status_code < 400 {
                    Err(())
                } else {
                    Ok(filter_v1_headers(agent_headers))
                }
            } else {
                let source: &Vec<(String, String)> = match &vi.response {
                    None => agent_headers,
                    Some(cr) => &cr.headers,
                };
                if status_code == 206 && !is_range_request {
                    Ok(filter_206_headers(source))
                } else {
                    Ok(clone_headers(source))
                }
            }
        },
    }
}

/// The error response for each agent failure: `DestinationInvalid`
/// rejections become 404, other rejections 502, an oversized reply 507, a
/// transport-level HTTP error keeps its status when valid, and anything
/// else is a 500.
pub open spec fn spec_handle_agent_error(e: AgentCallErrorView) -> CanisterResponseView {
    match e {
        AgentCallErrorView::CertifiedReject(r) => {
            if r.reject_code == RejectCode::DestinationInvalid {
                spec_err_response(404, r.reject_message)
            } else {
                spec_err_response(502, msg_replica_error(r))
            }
        },
        AgentCallErrorView::UncertifiedReject(r) => {
            if r.reject_code == RejectCode::DestinationInvalid {
                spec_err_response(404, r.reject_message)
            } else {
                spec_err_response(502, msg_replica_error(r))
            }
        },
        AgentCallErrorView::ResponseSizeExceeded => {
            spec_err_response(507, "Response size exceeds limit"@)
        },
        AgentCallErrorView::HttpTransport { status, message } => {
            if 100 <= status <= 599 {
                spec_err_response(status, message)
            } else {
                spec_err_response(500, "Received invalid status code in HTTP transport error: "@
                    + message)
            }
        },
        AgentCallErrorView::Other(m) => spec_err_response(500, "Internal Server Error: "@ + m),
    }
}

/// Maps an agent failure to its error response.
pub fn handle_agent_error(error: &AgentCallError) -> (r: CanisterResponse)
    ensures
        r@ == spec_handle_agent_error(error@),
{
    match error {
        AgentCallError::CertifiedReject(rej) => {
            if rej.reject_code == RejectCode::DestinationInvalid {
                create_err_response(404, rej.reject_message.as_str())
            } else {
                create_err_response(502, rej.replica_error_message().as_str())
            }
        },
        AgentCallError::UncertifiedReject(rej) => {
            if rej.reject_code == RejectCode::DestinationInvalid {
                create_err_response(404, rej.reject_message.as_str())
            } else {
                create_err_response(502, rej.replica_error_message().as_str())
            }
        },
        AgentCallError::ResponseSizeExceeded => {
            create_err_response(507, "Response size exceeds limit")
        },
        AgentCallError::HttpTransport { status, message } => {
            if 100 <= *status && *status <= 599 {
                create_err_response(*status, message.as_str())
            } else {
                let m = String::from_str(
                    "Received invalid status code in HTTP transport error: ",
                ).concat(message.as_str());
                proof {
                    assert(m@ =~= "Received invalid status code in HTTP transport error: "@
                        + message@);
                }
                create_err_response(500, m.as_str())
            }
        },
        AgentCallError::Other(m) => {
            let t = String::from_str("Internal Server Error: ").concat(m.as_str());
            proof {
                assert(t@ =~= "Internal Server Error: "@ + m@);
            }
            create_err_response(500, t.as_str())
        },
    }
}

/// Metadata for a response that carried no internal error.
pub open spec fn spec_clean_metadata(
    upgraded: bool,
    version: Option<u16>,
) -> HttpGatewayResponseMetadataView {
    HttpGatewayResponseMetadataView {
        upgraded_to_update_call: upgraded,
        response_verification_version: version,
        internal_error: None,
    }
}

/// A 500 response with the given diagnostic text and internal error.
pub open spec fn spec_err_500(
    msg: Seq<char>,
    err: HttpGatewayErrorView,
    upgraded: bool,
    version: Option<u16>,
) -> HttpGatewayResponseView {
    HttpGatewayResponseView {
        canister_response: spec_err_response(500, msg),
        metadata: HttpGatewayResponseMetadataView {
            upgraded_to_update_call: upgraded,
            response_verification_version: version,
            internal_error: Some(err),
        },
    }
}

/// The assembly of the outward response from the backend reply, the
/// collected body and the verification outcome: the status check, the
/// header policy table, and the activation of the range driver for a 206
/// reply that the client did not ask for.
pub open spec fn spec_finalize(
    vo: Option<VerificationInfoView>,
    http_request: BackendRequestView,
    is_range_request: bool,
    canister_id: candid::Principal,
    status_code: u16,
    agent_headers: Seq<(Seq<char>, Seq<char>)>,
    collected: HttpGatewayResponseBodyView,
    is_update_call: bool,
    skip_verification: bool,
) -> HttpGatewayResponseView {
    let version = match vo {
        Some(vi) => Some(vi.verification_version),
        None => None,
    };
    if !(100 <= status_code <= 599) {
        spec_err_500(
            msg_invalid_status(status_code),
            HttpGatewayErrorView::InvalidStatus(status_code),
            is_update_call,
            None,
        )
    } else {
        match spec_policy_headers(agent_headers, vo, status_code, is_range_request) {
            Err(_) => HttpGatewayResponseView {
                canister_response: spec_err_response(
                    500,
                    "Response verification v1 does not allow redirects"@,
                ),
                metadata: spec_clean_metadata(is_update_call, version),
            },
            Ok(policy_headers) => {
                if status_code == 206 && !is_range_request {
                    match collected {
                        HttpGatewayResponseBodyView::Full(b) => {
                            match spec_content_range_values(agent_headers, 0) {
                                Ok((b0, e0, t)) => HttpGatewayResponseView {
                                    canister_response: CanisterResponseView {
                                        status_code: 200,
                                        headers: policy_headers.push(
                                            ("content-length"@, dec_string(t)),
                                        ),
                                        body: HttpGatewayResponseBodyView::RangeStream {
                                            initial: b,
                                            state: StreamStateView {
                                                http_request,
                                                canister_id,
                                                total_length: t,
                                                fetched_length: e0 - b0 + 1,
                                                skip_verification,
                                            },
                                        },
                                    },
                                    metadata: spec_clean_metadata(is_update_call, version),
                                },
                                Err(m) => spec_err_500(
                                    "Failed to create streaming response: "@ + m,
                                    HttpGatewayErrorView::RangeSetupFailure(m),
                                    is_update_call,
                                    version,
                                ),
                            }
                        },
                        _ => spec_err_500(
                            "Failed to create streaming response: Expected full 206 response"@,
                            HttpGatewayErrorView::RangeSetupFailure(
                                "Expected full 206 response"@,
                            ),
                            is_update_call,
                            version,
                        ),
                    }
                } else {
                    HttpGatewayResponseView {
                        canister_response: CanisterResponseView {
                            status_code,
                            headers: policy_headers,
                            body: collected,
                        },
                        metadata: spec_clean_metadata(is_update_call, version),
                    }
                }
            },
        }
    }
}

/// Assembles the outward response, the verification outcome being given.
pub fn finalize_with_validation(
    validation_info: &Option<VerificationInfo>,
    http_request: BackendRequest,
    is_range_request: bool,
    canister_id: candid::Principal,
    agent_status: u16,
    agent_headers: &Vec<(String, String)>,
    collected: HttpGatewayResponseBody,
    is_update_call: bool,
    skip_verification: bool,
) -> (r: HttpGatewayResponse)
    ensures
        r@ == spec_finalize(
            opt_verification_info_view(*validation_info),
            http_request@,
            is_range_request,
            canister_id,
            agent_status,
            headers_view(agent_headers@),
            collected@,
            is_update_call,
            skip_verification,
        ),
{
    let response_verification_version: Option<u16> = match validation_info {
        Some(vi) => Some(vi.verification_version),
        None => None,
    };
    if !(100 <= agent_status && agent_status <= 599) {
        let m = String::from_str("Invalid canister response status code: ").concat(
            usize_to_string(agent_status as usize).as_str(),
        );
        proof {
            assert(m@ =~= msg_invalid_status(agent_status));
        }
        return HttpGatewayResponse {
            canister_response: create_err_response(500, m.as_str()),
            metadata: HttpGatewayResponseMetadata {
                upgraded_to_update_call: is_update_call,
                response_verification_version: None,
                internal_error: Some(HttpGatewayError::InvalidStatus(agent_status)),
            },
        };
    }
    let policy_headers = match build_response_headers(
        agent_headers,
        agent_status,
        is_range_request,
        validation_info,
    ) {
        Ok(h) => h,
        Err(_) => {
            return HttpGatewayResponse {
                canister_response: create_err_response(
                    500,
                    "Response verification v1 does not allow redirects",
                ),
                metadata: HttpGatewayResponseMetadata {
                    upgraded_to_update_call: is_update_call,
                    response_verification_version,
                    internal_error: None,
                },
            };
        },
    };
    if agent_status == 206 && !is_range_request {
        match collected {
            HttpGatewayResponseBody::Full(b) => {
                match get_initial_stream_state(
                    http_request,
                    canister_id,
                    agent_headers,
                    skip_verification,
                ) {
                    Ok(state) => {
                        let mut headers = policy_headers;
                        let ghost ph = headers@;
                        let content_length = usize_to_string(state.total_length);
                        headers.push((String::from_str("content-length"), content_length));
                        proof {
                            assert(headers_view(headers@) =~= headers_view(ph).push(
                                ("content-length"@, dec_string(state.total_length as int)),
                            ));
                        }
                        HttpGatewayResponse {
                            canister_response: CanisterResponse {
                                status_code: 200,
                                headers,
                                body: HttpGatewayResponseBody::RangeStream { initial: b, state },
                            },
                            metadata: HttpGatewayResponseMetadata {
                                upgraded_to_update_call: is_update_call,
                                response_verification_version,
                                internal_error: None,
                            },
                        }
                    },
                    Err(m) => {
                        let text = String::from_str("Failed to create streaming response: ")
                            .concat(m.as_str());
                        proof {
                            assert(text@ =~= "Failed to create streaming response: "@ + m@);
                        }
                        HttpGatewayResponse {
                            canister_response: create_err_response(500, text.as_str()),
                            metadata: HttpGatewayResponseMetadata {
                                upgraded_to_update_call: is_update_call,
                                response_verification_version,
                                internal_error: Some(HttpGatewayError::RangeSetupFailure(m)),
                            },
                        }
                    },
                }
            },
            _ => HttpGatewayResponse {
                canister_response: create_err_response(
                    500,
                    "Failed to create streaming response: Expected full 206 response",
                ),
                metadata: HttpGatewayResponseMetadata {
                    upgraded_to_update_call: is_update_call,
                    response_verification_version,
                    internal_error: Some(
                        HttpGatewayError::RangeSetupFailure(
                            String::from_str("Expected full 206 response"),
                        ),
                    ),
                },
            },
        }
    } else {
        HttpGatewayResponse {
            canister_response: CanisterResponse {
                status_code: agent_status,
                headers: policy_headers,
                body: collected,
            },
            metadata: HttpGatewayResponseMetadata {
                upgraded_to_update_call: is_update_call,
                response_verification_version,
                internal_error: None,
            },
        }
    }
}

/// Whether a response is verified at all: only a query answer (not an
/// upgraded update call) whose whole body is in memory.
pub open spec fn spec_verification_eligible(
    is_update_call: bool,
    collected: HttpGatewayResponseBodyView,
) -> bool {
    !is_update_call && collected is Full
}

/// The outward response for each outcome of the verification step: a
/// failure is a 500, a success feeds the assembly.
pub open spec fn spec_finalize_outcome(
    validation: Result<Option<VerificationInfoView>, Seq<char>>,
    http_request: BackendRequestView,
    is_range_request: bool,
    canister_id: candid::Principal,
    status_code: u16,
    agent_headers: Seq<(Seq<char>, Seq<char>)>,
    collected: HttpGatewayResponseBodyView,
    is_update_call: bool,
    skip_verification: bool,
) -> HttpGatewayResponseView {
    match validation {
        Err(m) => spec_err_500(
            "Response verification failed: "@ + m,
            HttpGatewayErrorView::Verification(m),
            is_update_call,
            None,
        ),
        Ok(vo) => spec_finalize(
            vo,
            http_request,
            is_range_request,
            canister_id,
            status_code,
            agent_headers,
            collected,
            is_update_call,
            skip_verification,
        ),
    }
}

/// Assembles the outward response, verifying the reply first when it is
/// eligible: some verification outcome explains the result, it is
/// `Ok(None)` whenever verification was skipped or the reply was not
/// eligible, and a successful verification always carries its version.
pub fn finalize_response(
    agent: &ic_agent::Agent,
    canister_id: candid::Principal,
    http_request: BackendRequest,
    is_range_request: bool,
    agent_status: u16,
    agent_headers: &Vec<(String, String)>,
    collected: HttpGatewayResponseBody,
    is_update_call: bool,
    skip_verification: bool,
) -> (r: HttpGatewayResponse)
    ensures
        exists|validation: Result<Option<VerificationInfoView>, Seq<char>>|
            {
                &&& r@ == spec_finalize_outcome(
                    validation,
                    http_request@,
                    is_range_request,
                    canister_id,
                    agent_status,
                    headers_view(agent_headers@),
                    collected@,
                    is_update_call,
                    skip_verification,
                )
                &&& (!spec_verification_eligible(is_update_call, collected@) || skip_verification
                    || !(100 <= agent_status <= 599) ==> validation == Result::<
                    Option<VerificationInfoView>,
                    Seq<char>,
                >::Ok(None))
                &&& (validation matches Ok(Some(vi)) ==> vi.verification_version == 1
                    || vi.verification_version == 2)
            },
{
    let ghost hr = http_request@;
    let ghost ah = headers_view(agent_headers@);
    let ghost cv = collected@;
    let eligible = !is_update_call && 100 <= agent_status && agent_status <= 599;
    if eligible {
        match collected {
            HttpGatewayResponseBody::Full(b) => {
                match validate(
                    agent,
                    &canister_id,
                    &http_request,
                    agent_status,
                    agent_headers,
                    &b,
                    skip_verification,
                ) {
                    Err(m) => {
                        let text = String::from_str("Response verification failed: ").concat(
                            m.as_str(),
                        );
                        proof {
                            assert(text@ =~= "Response verification failed: "@ + m@);
                        }
                        let r = HttpGatewayResponse {
                            canister_response: create_err_response(500, text.as_str()),
                            metadata: HttpGatewayResponseMetadata {
                                upgraded_to_update_call: is_update_call,
                                response_verification_version: None,
                                internal_error: Some(HttpGatewayError::Verification(m)),
                            },
                        };
                        proof {
                            let w = Result::<Option<VerificationInfoView>, Seq<char>>::Err(m@);
                            assert(r@ == spec_finalize_outcome(
                                w,
                                hr,
                                is_range_request,
                                canister_id,
                                agent_status,
                                ah,
                                cv,
                                is_update_call,
                                skip_verification,
                            ));
                        }
                        r
                    },
                    Ok(vi) => {
                        let r = finalize_with_validation(
                            &vi,
                            http_request,
                            is_range_request,
                            canister_id,
                            agent_status,
                            agent_headers,
                            HttpGatewayResponseBody::Full(b),
                            is_update_call,
                            skip_verification,
                        );
                        proof {
                            let w = Result::<Option<VerificationInfoView>, Seq<char>>::Ok(
                                opt_verification_info_view(vi),
                            );
                            assert(r@ == spec_finalize_outcome(
                                w,
                                hr,
                                is_range_request,
                                canister_id,
                                agent_status,
                                ah,
                                cv,
                                is_update_call,
                                skip_verification,
                            ));
                        }
                        r
                    },
                }
            },
            other => {
                let r = finalize_with_validation(
                    &None,
                    http_request,
                    is_range_request,
                    canister_id,
                    agent_status,
                    agent_headers,
                    other,
                    is_update_call,
                    skip_verification,
                );
                proof {
                    let w = Result::<Option<VerificationInfoView>, Seq<char>>::Ok(None);
                    assert(r@ == spec_finalize_outcome(
                        w,
                        hr,
                        is_range_request,
                        canister_id,
                        agent_status,
                        ah,
                        cv,
                        is_update_call,
                        skip_verification,
                    ));
                }
                r
            },
        }
    } else {
        let r = finalize_with_validation(
            &None,
            http_request,
            is_range_request,
            canister_id,
            agent_status,
            agent_headers,
            collected,
            is_update_call,
            skip_verification,
        );
        proof {
            let ghost w = Result::<Option<VerificationInfoView>, Seq<char>>::Ok(None);
            assert(r@ == spec_finalize_outcome(
                w,
                hr,
                is_range_request,
                canister_id,
                agent_status,
                ah,
                cv,
                is_update_call,
                skip_verification,
            ));
        }
        r
    }
}

/// Every header that survives the 206 rule is one of the input headers.
pub proof fn lemma_206_filter_subset(hs: Seq<(Seq<char>, Seq<char>)>, j: int)
    requires
        0 <= j < spec_206_filter(hs).len(),
    ensures
        hs.contains(spec_206_filter(hs)[j]),
    decreases hs.len(),
{
    let out = spec_206_filter(hs);
    let rest = spec_206_filter(hs.drop_last());
    if is_206_dropped(hs.last().0) || j < rest.len() {
        lemma_206_filter_subset(hs.drop_last(), j);
        let k = choose|k: int|
            0 <= k < hs.drop_last().len() && hs.drop_last()[k] == spec_206_filter(
                hs.drop_last(),
            )[j];
        assert(hs[k] == out[j]);
    } else {
        assert(out[j] == hs.last());
        assert(hs[hs.len() - 1] == out[j]);
    }
}

/// Under verification version 2 with a certified header set, every header
/// of the outward response is in that certified set, except possibly the
/// `Content-Length` that range-stream assembly appends. A certified header
/// may still be absent, because the 206 rule explicitly drops it.
pub proof fn lemma_v2_headers_certified(
    vi: VerificationInfoView,
    cr: VerifiedResponseView,
    http_request: BackendRequestView,
    is_range_request: bool,
    canister_id: candid::Principal,
    status_code: u16,
    agent_headers: Seq<(Seq<char>, Seq<char>)>,
    collected: HttpGatewayResponseBodyView,
    is_update_call: bool,
    skip_verification: bool,
    j: int,
)
    requires
        vi.response == Some(cr),
        vi.verification_version >= 2,
        0 <= j < spec_finalize(
            Some(vi),
            http_request,
            is_range_request,
            canister_id,
            status_code,
            agent_headers,
            collected,
            is_update_call,
            skip_verification,
        ).canister_response.headers.len(),
    ensures
        ({
            let h = spec_finalize(
                Some(vi),
                http_request,
                is_range_request,
                canister_id,
                status_code,
                agent_headers,
                collected,
                is_update_call,
                skip_verification,
            ).canister_response.headers[j];
            cr.headers.contains(h) || eq_ignore_case(h.0, "content-length"@)
        }),
{
    let r = spec_finalize(
        Some(vi),
        http_request,
        is_range_request,
        canister_id,
        status_code,
        agent_headers,
        collected,
        is_update_call,
        skip_verification,
    );
    let h = r.canister_response.headers[j];
    if 100 <= status_code <= 599 {
        let policy = spec_policy_headers(
            agent_headers,
            Some(vi),
            status_code,
            is_range_request,
        );
        let source = cr.headers;
        if status_code == 206 && !is_range_request {
            let ph = spec_206_filter(source);
            assert(policy == Ok::<Seq<(Seq<char>, Seq<char>)>, ()>(ph));
            match collected {
                HttpGatewayResponseBodyView::Full(b) => {
                    match spec_content_range_values(agent_headers, 0) {
                        Ok((b0, e0, t)) => {
                            assert(r.canister_response.headers == ph.push(
                                ("content-length"@, dec_string(t)),
                            ));
                            if j < ph.len() {
                                assert(h == ph[j]);
                                lemma_206_filter_subset(source, j);
                            } else {
                                assert(h == ("content-length"@, dec_string(t)));
                                assert(eq_ignore_case(h.0, "content-length"@));
                            }
                        },
                        Err(m) => {
                            assert(r.canister_response.headers.len() == 0);
                        },
                    }
                },
                _ => {
                    assert(r.canister_response.headers.len() == 0);
                },
            }
        } else {
            assert(policy == Ok::<Seq<(Seq<char>, Seq<char>)>, ()>(source));
            assert(h == source[j]);
            assert(cr.headers.contains(h));
        }
    } else {
        assert(r.canister_response.headers.len() == 0);
    }
}

/// A 206 reply to a client that did not itself ask for a range is
/// rewritten to status 200, its outward `Content-Length` is the `total`
/// field of the reply's `Content-Range` header, and the body becomes the
/// range stream whose target length is that total.
pub proof fn lemma_206_rewritten_to_200(
    vo: Option<VerificationInfoView>,
    http_request: BackendRequestView,
    canister_id: candid::Principal,
    agent_headers: Seq<(Seq<char>, Seq<char>)>,
    b0: int,
    e0: int,
    t: int,
    body: Seq<u8>,
    is_update_call: bool,
    skip_verification: bool,
)
    requires
        spec_content_range_values(agent_headers, 0) == Ok::<(int, int, int), Seq<char>>(
            (b0, e0, t),
        ),
    ensures
        ({
            let r = spec_finalize(
                vo,
                http_request,
                false,
                canister_id,
                206,
                agent_headers,
                HttpGatewayResponseBodyView::Full(body),
                is_update_call,
                skip_verification,
            );
            &&& r.canister_response.status_code == 200
            &&& r.canister_response.headers.len() > 0
            &&& r.canister_response.headers.last() == ("content-length"@, dec_string(t))
            &&& (r.canister_response.body matches HttpGatewayResponseBodyView::RangeStream {
                initial,
                state,
            } && initial == body && state.total_length == t && state.fetched_length == e0 - b0
                + 1)
        }),
{
    let policy = spec_policy_headers(agent_headers, vo, 206, false);
    match vo {
        None => {
            assert(policy is Ok);
        },
        Some(vi) => {
            if vi.verification_version < 2 {
                assert(!(300 <= 206u16 < 400));
                assert(policy is Ok);
            } else {
                assert(policy is Ok);
            }
        },
    }
}

/// The assembly is a function of its inputs: two identical translated
/// requests with identical backend replies, identically collected bodies
/// and identical verification outcomes produce the same outward response,
/// byte for byte. The one run-dependent input is the verification outcome,
/// which reads the wall clock; against a pure backend and with equal
/// outcomes the responses are equal.
pub proof fn lemma_assembly_deterministic(
    validation1: Result<Option<VerificationInfoView>, Seq<char>>,
    http_request1: BackendRequestView,
    is_range_request1: bool,
    canister_id1: candid::Principal,
    status_code1: u16,
    agent_headers1: Seq<(Seq<char>, Seq<char>)>,
    collected1: HttpGatewayResponseBodyView,
    is_update_call1: bool,
    skip_verification1: bool,
    validation2: Result<Option<VerificationInfoView>, Seq<char>>,
    http_request2: BackendRequestView,
    is_range_request2: bool,
    canister_id2: candid::Principal,
    status_code2: u16,
    agent_headers2: Seq<(Seq<char>, Seq<char>)>,
    collected2: HttpGatewayResponseBodyView,
    is_update_call2: bool,
    skip_verification2: bool,
)
    requires
        validation1 == validation2,
        http_request1 == http_request2,
        is_range_request1 == is_range_request2,
        canister_id1 == canister_id2,
        status_code1 == status_code2,
        agent_headers1 == agent_headers2,
        collected1 == collected2,
        is_update_call1 == is_update_call2,
        skip_verification1 == skip_verification2,
    ensures
        spec_finalize_outcome(
            validation1,
            http_request1,
            is_range_request1,
            canister_id1,
            status_code1,
            agent_headers1,
            collected1,
            is_update_call1,
            skip_verification1,
        ) == spec_finalize_outcome(
            validation2,
            http_request2,
            is_range_request2,
            canister_id2,
            status_code2,
            agent_headers2,
            collected2,
            is_update_call2,
            skip_verification2,
        ),
{
}

/// A 206 reply to a client that itself asked for the range passes through:
/// the status stays 206, the body is unchanged and the range driver does
/// not activate; when the certified header set is the reply's own headers,
/// those headers are preserved.
pub proof fn lemma_client_range_passthrough(
    vi: VerificationInfoView,
    cr: VerifiedResponseView,
    http_request: BackendRequestView,
    canister_id: candid::Principal,
    agent_headers: Seq<(Seq<char>, Seq<char>)>,
    body: Seq<u8>,
    is_update_call: bool,
    skip_verification: bool,
)
    requires
        vi.response == Some(cr),
        vi.verification_version >= 2,
        cr.headers == agent_headers,
    ensures
        ({
            let r = spec_finalize(
                Some(vi),
                http_request,
                true,
                canister_id,
                206,
                agent_headers,
                HttpGatewayResponseBodyView::Full(body),
                is_update_call,
                skip_verification,
            );
            &&& r.canister_response.status_code == 206
            &&& r.canister_response.headers == agent_headers
            &&& r.canister_response.body == HttpGatewayResponseBodyView::Full(body)
            &&& r.metadata.response_verification_version == Some(vi.verification_version)
            &&& r.metadata.internal_error is None
        }),
{
}

/// Nothing the 206 rule drops survives the filter: no `Content-Range` or
/// `Content-Length` header of the partial reply reaches the outward
/// response when the range driver assembles the full asset.
pub proof fn lemma_206_filter_excludes(hs: Seq<(Seq<char>, Seq<char>)>, j: int)
    requires
        0 <= j < spec_206_filter(hs).len(),
    ensures
        !is_206_dropped(spec_206_filter(hs)[j].0),
    decreases hs.len(),
{
    let rest = spec_206_filter(hs.drop_last());
    if is_206_dropped(hs.last().0) || j < rest.len() {
        lemma_206_filter_excludes(hs.drop_last(), j);
    }
}

/// The 400 response for an inbound request that could not be translated.
pub fn bad_request_response(error: HttpGatewayError) -> (r: HttpGatewayResponse)
    ensures
        r@.canister_response == spec_err_response(
            400,
            "Failed to parse request: "@ + gateway_error_message(error@),
        ),
        r@.metadata == (HttpGatewayResponseMetadataView {
            upgraded_to_update_call: false,
            response_verification_version: None,
            internal_error: Some(error@),
        }),
{
    let text = String::from_str("Failed to parse request: ").concat(error.message().as_str());
    proof {
        assert(text@ =~= "Failed to parse request: "@ + gateway_error_message(error@));
    }
    HttpGatewayResponse {
        canister_response: create_err_response(400, text.as_str()),
        metadata: HttpGatewayResponseMetadata {
            upgraded_to_update_call: false,
            response_verification_version: None,
            internal_error: Some(error),
        },
    }
}

/// The error response for an agent failure, with its transport
/// classification in the metadata.
pub fn agent_error_response(error: AgentCallError, upgraded_to_update_call: bool) -> (r:
    HttpGatewayResponse)
    ensures
        r@.canister_response == spec_handle_agent_error(error@),
        r@.metadata == (HttpGatewayResponseMetadataView {
            upgraded_to_update_call,
            response_verification_version: None,
            internal_error: Some(HttpGatewayErrorView::Transport(error@)),
        }),
{
    HttpGatewayResponse {
        canister_response: handle_agent_error(&error),
        metadata: HttpGatewayResponseMetadata {
            upgraded_to_update_call,
            response_verification_version: None,
            internal_error: Some(HttpGatewayError::Transport(error)),
        },
    }
}

/// The 500 response when body collection fails mid-assembly.
pub fn body_assembly_error_response(error: AgentCallError, upgraded_to_update_call: bool) -> (r:
    HttpGatewayResponse)
    ensures
        r@.canister_response == spec_err_response(
            500,
            "Failed to parse response body: "@ + agent_call_error_message(error@),
        ),
        r@.metadata == (HttpGatewayResponseMetadataView {
            upgraded_to_update_call,
            response_verification_version: None,
            internal_error: Some(
                HttpGatewayErrorView::BodyAssembly(agent_call_error_message(error@)),
            ),
        }),
{
    let m = error.message();
    let text = String::from_str("Failed to parse response body: ").concat(m.as_str());
    proof {
        assert(text@ =~= "Failed to parse response body: "@ + agent_call_error_message(error@));
    }
    HttpGatewayResponse {
        canister_response: create_err_response(500, text.as_str()),
        metadata: HttpGatewayResponseMetadata {
            upgraded_to_update_call,
            response_verification_version: None,
            internal_error: Some(HttpGatewayError::BodyAssembly(m)),
        },
    }
}

} // verus!
