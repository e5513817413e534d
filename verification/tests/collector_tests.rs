use candid::Principal;
use ic_http_gateway::handler::{finalize_response, finalize_with_validation};
use ic_http_gateway::request::BackendRequest;
use ic_http_gateway::response::HttpGatewayResponseBody;
use ic_http_gateway::response_handler::{
    CallbackCollector, MAX_HTTP_REQUEST_STREAM_CALLBACK_CALL_COUNT,
    MAX_VERIFIED_HTTP_REQUEST_STREAM_CALLBACK_CALL_COUNT, STREAM_CALLBACK_BUFFER,
};
use ic_http_gateway::validate::{VerificationInfo, VerifiedResponse};

fn get_request(url: &str) -> BackendRequest {
    BackendRequest {
        method: "GET".to_string(),
        url: url.to_string(),
        headers: vec![],
        body: vec![],
    }
}

fn test_agent() -> ic_agent::Agent {
    ic_agent::Agent::builder()
        .with_url("https://icp0.io")
        .build()
        .expect("failed to build agent")
}

#[test]
fn protocol_ceilings_are_fixed() {
    assert_eq!(MAX_HTTP_REQUEST_STREAM_CALLBACK_CALL_COUNT, 1000);
    assert_eq!(MAX_VERIFIED_HTTP_REQUEST_STREAM_CALLBACK_CALL_COUNT, 4);
    assert_eq!(STREAM_CALLBACK_BUFFER, 2);
}

#[test]
fn callback_stream_within_certified_budget_collects_full_body() {
    // tokens t1 -> "B", t2 -> "C", t3 -> "D", then no token
    let chunks: Vec<(Vec<u8>, bool)> = vec![
        (b"B".to_vec(), true),
        (b"C".to_vec(), true),
        (b"D".to_vec(), false),
    ];
    let mut collector = CallbackCollector::new();
    let mut token_present = true;
    let mut pulls = 0usize;
    while token_present && collector.wants_more() {
        let (chunk, next) = chunks[pulls].clone();
        collector.absorb(chunk);
        token_present = next;
        pulls += 1;
    }
    assert_eq!(pulls, 3);
    let body = collector.finish(&b"A".to_vec(), token_present);
    let collected = match &body {
        HttpGatewayResponseBody::Full(b) => b.clone(),
        other => panic!("expected a full body, got {:?}", other),
    };
    assert_eq!(collected, b"ABCD".to_vec());

    // a full body can be verified; with a certified v2 outcome the response
    // carries the assembled bytes
    let validation = Some(VerificationInfo {
        verification_version: 2,
        response: Some(VerifiedResponse {
            status_code: Some(200),
            headers: vec![],
            body: collected.clone(),
        }),
    });
    let resp = finalize_with_validation(
        &validation,
        get_request("/stream"),
        false,
        Principal::from_slice(&[1]),
        200,
        &vec![],
        body,
        false,
        false,
    );
    assert_eq!(resp.canister_response.status_code, 200);
    match resp.canister_response.body {
        HttpGatewayResponseBody::Full(b) => assert_eq!(b, b"ABCD".to_vec()),
        other => panic!("expected a full body, got {:?}", other),
    }
    assert_eq!(resp.metadata.response_verification_version, Some(2));
}

#[test]
fn callback_stream_exceeding_certified_budget_streams_uncertified() {
    // the initial body is 1 byte; six further chunks of 100 bytes each
    let chunks: Vec<Vec<u8>> = (0..6).map(|i| vec![i as u8; 100]).collect();
    let mut collector = CallbackCollector::new();
    let mut token_present = true;
    let mut pulls = 0usize;
    while token_present && collector.wants_more() {
        collector.absorb(chunks[pulls].clone());
        pulls += 1;
        token_present = pulls < 6;
    }
    // the certified budget stops collection after four pulls
    assert_eq!(pulls, 4);
    assert!(token_present);
    let body = collector.finish(&b"A".to_vec(), token_present);
    let initial = match &body {
        HttpGatewayResponseBody::CallbackStream { initial } => initial.clone(),
        other => panic!("expected a callback stream, got {:?}", other),
    };
    assert_eq!(initial.len(), 401);
    let mut expected = b"A".to_vec();
    for chunk in chunks.iter().take(4) {
        expected.extend_from_slice(chunk);
    }
    assert_eq!(initial, expected);

    // a streamed body is not eligible for verification
    let resp = finalize_response(
        &test_agent(),
        Principal::from_slice(&[1]),
        get_request("/stream"),
        false,
        200,
        &vec![("Content-Type".to_string(), "text/plain".to_string())],
        body,
        false,
        false,
    );
    assert_eq!(resp.canister_response.status_code, 200);
    assert_eq!(resp.metadata.response_verification_version, None);
    assert!(resp.metadata.internal_error.is_none());
    match resp.canister_response.body {
        HttpGatewayResponseBody::CallbackStream { initial } => assert_eq!(initial.len(), 401),
        other => panic!("expected a callback stream, got {:?}", other),
    }
}
