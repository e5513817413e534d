use candid::Principal;
use ic_http_gateway::handler::finalize_with_validation;
use ic_http_gateway::request::BackendRequest;
use ic_http_gateway::response::{BackendResponse, HttpGatewayResponseBody};
use ic_http_gateway::response_handler::{
    build_range_request, get_initial_stream_state, range_stream_step, StreamState,
};

fn get_request(url: &str) -> BackendRequest {
    BackendRequest {
        method: "GET".to_string(),
        url: url.to_string(),
        headers: vec![],
        body: vec![],
    }
}

fn test_agent() -> ic_agent::Agent {
    ic_agent::Agent::builder()
        .with_url("https://icp0.io")
        .build()
        .expect("failed to build agent")
}

fn make_blob(n: usize) -> Vec<u8> {
    let mut v = Vec::with_capacity(n);
    let mut x: u64 = 0x1234_5678_9abc_def0;
    for _ in 0..n {
        x = x
            .wrapping_mul(6364136223846793005)
            .wrapping_add(1442695040888963407);
        v.push((x >> 56) as u8);
    }
    v
}

fn chunk_response(content_range: &str, body: Vec<u8>) -> BackendResponse {
    BackendResponse {
        status_code: 206,
        headers: vec![("Content-Range".to_string(), content_range.to_string())],
        body,
        upgrade: None,
        has_streaming_strategy: false,
    }
}

#[test]
fn range_stitching_assembles_full_blob() {
    let total = 4_000_012usize;
    let blob = make_blob(total);
    let agent = test_agent();
    let canister_id = Principal::from_slice(&[1, 2, 3, 4]);

    let initial_headers = vec![(
        "Content-Range".to_string(),
        "bytes 0-1999999/4000012".to_string(),
    )];
    let state = get_initial_stream_state(
        get_request("/six_chunks"),
        canister_id,
        &initial_headers,
        true,
    )
    .expect("initial state should build");
    assert_eq!(state.fetched_length, 2_000_000);
    assert_eq!(state.total_length, total);

    let mut assembled = blob[..2_000_000].to_vec();

    let resp2 = chunk_response(
        "bytes 2000000-3999999/4000012",
        blob[2_000_000..4_000_000].to_vec(),
    );
    let (bytes2, state2) = range_stream_step(&agent, &state, &resp2).expect("second chunk");
    assembled.extend_from_slice(&bytes2);
    let state2 = state2.expect("the stream should continue");
    assert_eq!(state2.fetched_length, 4_000_000);

    let resp3 = chunk_response(
        "bytes 4000000-4000011/4000012",
        blob[4_000_000..].to_vec(),
    );
    let (bytes3, state3) = range_stream_step(&agent, &state2, &resp3).expect("final chunk");
    assembled.extend_from_slice(&bytes3);
    assert!(state3.is_none());

    assert_eq!(assembled.len(), total);
    assert_eq!(assembled, blob);

    // assembling the outward response rewrites the unsolicited 206 to a
    // 200 whose Content-Length is the total length
    let outward = finalize_with_validation(
        &None,
        get_request("/six_chunks"),
        false,
        canister_id,
        206,
        &initial_headers,
        HttpGatewayResponseBody::Full(blob[..2_000_000].to_vec()),
        false,
        true,
    );
    assert_eq!(outward.canister_response.status_code, 200);
    assert!(outward
        .canister_response
        .headers
        .iter()
        .any(|(n, v)| n == "content-length" && v == "4000012"));
    match outward.canister_response.body {
        HttpGatewayResponseBody::RangeStream { initial, state } => {
            assert_eq!(initial.len(), 2_000_000);
            assert_eq!(state.total_length, total);
            assert_eq!(state.fetched_length, 2_000_000);
        }
        other => panic!("expected a range stream, got {:?}", other),
    }
}

#[test]
fn overlapping_chunk_emits_only_new_bytes() {
    let agent = test_agent();
    let state = StreamState {
        http_request: get_request("/file"),
        canister_id: Principal::from_slice(&[1]),
        total_length: 10,
        fetched_length: 4,
        skip_verification: true,
    };
    // the backend resends bytes 2..=9: only bytes 4..=9 are new
    let resp = chunk_response("bytes 2-9/10", vec![2, 3, 4, 5, 6, 7, 8, 9]);
    let (bytes, next) = range_stream_step(&agent, &state, &resp).expect("chunk should pass");
    assert_eq!(bytes, vec![4, 5, 6, 7, 8, 9]);
    assert!(next.is_none());
}

#[test]
fn out_of_order_chunk_terminates_stream() {
    let agent = test_agent();
    let state = StreamState {
        http_request: get_request("/six_chunks"),
        canister_id: Principal::from_slice(&[1]),
        total_length: 6_000_000,
        fetched_length: 2_000_000,
        skip_verification: true,
    };
    let resp = chunk_response("bytes 4000000-5999999/6000000", vec![0u8; 2_000_000]);
    let result = range_stream_step(&agent, &state, &resp);
    assert!(
        matches!(&result, Err(e) if e.contains("chunk out-of-order: range_begin=4000000"))
    );
}

#[test]
fn nested_streaming_strategy_in_chunk_is_rejected() {
    let agent = test_agent();
    let state = StreamState {
        http_request: get_request("/file"),
        canister_id: Principal::from_slice(&[1]),
        total_length: 10,
        fetched_length: 4,
        skip_verification: true,
    };
    let mut resp = chunk_response("bytes 4-9/10", vec![0u8; 6]);
    resp.has_streaming_strategy = true;
    let result = range_stream_step(&agent, &state, &resp);
    assert!(matches!(&result, Err(e) if e.contains("unexpected StreamingStrategy")));
}

#[test]
fn chunk_body_shorter_than_declared_is_rejected() {
    let agent = test_agent();
    let state = StreamState {
        http_request: get_request("/file"),
        canister_id: Principal::from_slice(&[1]),
        total_length: 10,
        fetched_length: 4,
        skip_verification: true,
    };
    let resp = chunk_response("bytes 4-9/10", vec![0u8; 3]);
    let result = range_stream_step(&agent, &state, &resp);
    assert!(
        matches!(&result, Err(e) if e.contains("chunk body length does not match its Content-Range header"))
    );
}

#[test]
fn range_request_carries_range_header() {
    let template = BackendRequest {
        method: "GET".to_string(),
        url: "/six_chunks".to_string(),
        headers: vec![("Accept".to_string(), "*/*".to_string())],
        body: vec![],
    };
    let state = StreamState {
        http_request: template.clone(),
        canister_id: Principal::from_slice(&[1]),
        total_length: 4_000_012,
        fetched_length: 2_000_000,
        skip_verification: false,
    };
    let request = build_range_request(&state);
    assert_eq!(request.method, template.method);
    assert_eq!(request.url, template.url);
    assert_eq!(request.body, template.body);
    assert_eq!(
        request.headers,
        vec![
            ("Accept".to_string(), "*/*".to_string()),
            ("Range".to_string(), "bytes=2000000-".to_string()),
        ]
    );
}
