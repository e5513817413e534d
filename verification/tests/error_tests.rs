use candid::Principal;
use ic_http_gateway::error::{
    AgentCallError, AgentReject, HttpGatewayError, RejectCode,
};
use ic_http_gateway::handler::{
    agent_error_response, body_assembly_error_response, finalize_response, handle_agent_error,
};
use ic_http_gateway::request::BackendRequest;
use ic_http_gateway::response::{CanisterResponse, HttpGatewayResponseBody};
use ic_http_gateway::validate::get_current_time_in_ns;

fn body_text(response: CanisterResponse) -> String {
    match response.body {
        HttpGatewayResponseBody::Full(b) => String::from_utf8(b).unwrap(),
        other => panic!("expected a full body, got {:?}", other),
    }
}

fn reject(code: RejectCode, message: &str, error_code: Option<&str>) -> AgentReject {
    AgentReject {
        reject_code: code,
        reject_message: message.to_string(),
        error_code: error_code.map(|c| c.to_string()),
    }
}

#[test]
fn destination_invalid_certified_reject_maps_to_404() {
    let response = handle_agent_error(&AgentCallError::CertifiedReject(reject(
        RejectCode::DestinationInvalid,
        "canister not found",
        None,
    )));
    assert_eq!(response.status_code, 404);
    assert_eq!(body_text(response), "canister not found");
}

#[test]
fn destination_invalid_uncertified_reject_maps_to_404() {
    let response = handle_agent_error(&AgentCallError::UncertifiedReject(reject(
        RejectCode::DestinationInvalid,
        "no such canister",
        None,
    )));
    assert_eq!(response.status_code, 404);
    assert_eq!(body_text(response), "no such canister");
}

#[test]
fn other_certified_reject_maps_to_502() {
    let response = handle_agent_error(&AgentCallError::CertifiedReject(reject(
        RejectCode::CanisterError,
        "trapped",
        Some("IC0502"),
    )));
    assert_eq!(response.status_code, 502);
    let text = body_text(response);
    assert!(text.contains("Replica Error: reject code CanisterError"));
    assert!(text.contains("message trapped"));
    assert!(text.contains("error code Some(\"IC0502\")"));
}

#[test]
fn response_size_exceeded_maps_to_507() {
    let response = handle_agent_error(&AgentCallError::ResponseSizeExceeded);
    assert_eq!(response.status_code, 507);
    assert_eq!(body_text(response), "Response size exceeds limit");
}

#[test]
fn http_transport_error_keeps_valid_status() {
    let response = handle_agent_error(&AgentCallError::HttpTransport {
        status: 429,
        message: "too many requests".to_string(),
    });
    assert_eq!(response.status_code, 429);
    assert_eq!(body_text(response), "too many requests");
}

#[test]
fn http_transport_error_with_invalid_status_maps_to_500() {
    let response = handle_agent_error(&AgentCallError::HttpTransport {
        status: 999,
        message: "strange".to_string(),
    });
    assert_eq!(response.status_code, 500);
    assert!(body_text(response).contains("Received invalid status code"));
}

#[test]
fn other_agent_error_maps_to_500() {
    let response = handle_agent_error(&AgentCallError::Other("boom".to_string()));
    assert_eq!(response.status_code, 500);
    assert_eq!(body_text(response), "Internal Server Error: boom");
}

#[test]
fn agent_error_response_records_transport_error() {
    let resp = agent_error_response(AgentCallError::ResponseSizeExceeded, true);
    assert_eq!(resp.canister_response.status_code, 507);
    assert!(resp.metadata.upgraded_to_update_call);
    assert_eq!(resp.metadata.response_verification_version, None);
    assert!(matches!(
        resp.metadata.internal_error,
        Some(HttpGatewayError::Transport(
            AgentCallError::ResponseSizeExceeded
        ))
    ));
}

#[test]
fn body_assembly_error_maps_to_500() {
    let resp = body_assembly_error_response(AgentCallError::Other("net down".to_string()), false);
    assert_eq!(resp.canister_response.status_code, 500);
    assert_eq!(
        body_text(resp.canister_response),
        "Failed to parse response body: net down"
    );
    assert!(matches!(
        resp.metadata.internal_error,
        Some(HttpGatewayError::BodyAssembly(_))
    ));
}

#[test]
fn uncertified_response_fails_verification() {
    // a plain reply without any certificate header cannot pass the real
    // verifier: the gateway reports a verification failure
    let agent = ic_agent::Agent::builder()
        .with_url("https://icp0.io")
        .build()
        .expect("failed to build agent");
    let request = BackendRequest {
        method: "GET".to_string(),
        url: "/".to_string(),
        headers: vec![],
        body: vec![],
    };
    let resp = finalize_response(
        &agent,
        Principal::from_slice(&[1, 2, 3, 4]),
        request,
        false,
        200,
        &vec![("Content-Type".to_string(), "text/plain".to_string())],
        HttpGatewayResponseBody::Full(b"hello".to_vec()),
        false,
        false,
    );
    assert_eq!(resp.canister_response.status_code, 500);
    assert!(body_text(resp.canister_response).starts_with("Response verification failed: "));
    assert!(matches!(
        resp.metadata.internal_error,
        Some(HttpGatewayError::Verification(_))
    ));
    assert_eq!(resp.metadata.response_verification_version, None);
}

#[test]
fn skipping_verification_passes_uncertified_response_through() {
    let agent = ic_agent::Agent::builder()
        .with_url("https://icp0.io")
        .build()
        .expect("failed to build agent");
    let request = BackendRequest {
        method: "GET".to_string(),
        url: "/".to_string(),
        headers: vec![],
        body: vec![],
    };
    let headers = vec![("Content-Type".to_string(), "text/plain".to_string())];
    let resp = finalize_response(
        &agent,
        Principal::from_slice(&[1, 2, 3, 4]),
        request,
        false,
        200,
        &headers,
        HttpGatewayResponseBody::Full(b"hello".to_vec()),
        false,
        true,
    );
    assert_eq!(resp.canister_response.status_code, 200);
    assert_eq!(resp.canister_response.headers, headers);
    assert_eq!(body_text(resp.canister_response), "hello");
    assert_eq!(resp.metadata.response_verification_version, None);
    assert!(resp.metadata.internal_error.is_none());
}

#[test]
fn error_messages_surface_their_text() {
    assert_eq!(
        HttpGatewayError::ResponseBuildFailure("bad header name".to_string()).message(),
        "bad header name"
    );
    let decode_error = HttpGatewayError::HeaderDecoding {
        header_name: "x-bin".to_string(),
        header_value: vec![0xff],
    };
    assert_eq!(
        decode_error.message(),
        "Failed to parse the \"x-bin\" header value"
    );
}

#[test]
fn current_time_is_after_the_epoch() {
    // nanoseconds since the Unix epoch: well past the year 2020
    assert!(get_current_time_in_ns() > 1_600_000_000_000_000_000);
}
