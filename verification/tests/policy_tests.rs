use candid::Principal;
use ic_http_gateway::error::HttpGatewayError;
use ic_http_gateway::handler::finalize_with_validation;
use ic_http_gateway::request::BackendRequest;
use ic_http_gateway::response::HttpGatewayResponseBody;
use ic_http_gateway::validate::{VerificationInfo, VerifiedResponse};

fn get_request(url: &str) -> BackendRequest {
    BackendRequest {
        method: "GET".to_string(),
        url: url.to_string(),
        headers: vec![],
        body: vec![],
    }
}

fn has_header(headers: &[(String, String)], name: &str, value: &str) -> bool {
    headers.iter().any(|(n, v)| n == name && v == value)
}

#[test]
fn simple_html_certified_v2() {
    let body = b"<html><body>Hello, world!</body></html>".to_vec();
    assert_eq!(body.len(), 39);
    let headers = vec![
        ("Content-Type".to_string(), "text/html".to_string()),
        ("Content-Length".to_string(), "39".to_string()),
        ("IC-Certificate".to_string(), "certificate=:abc:".to_string()),
        (
            "IC-CertificateExpression".to_string(),
            "default_certification()".to_string(),
        ),
    ];
    let validation = Some(VerificationInfo {
        verification_version: 2,
        response: Some(VerifiedResponse {
            status_code: Some(200),
            headers: headers.clone(),
            body: body.clone(),
        }),
    });

    let resp = finalize_with_validation(
        &validation,
        get_request("/"),
        false,
        Principal::from_slice(&[1, 2, 3, 4]),
        200,
        &headers,
        HttpGatewayResponseBody::Full(body.clone()),
        false,
        false,
    );

    assert_eq!(resp.canister_response.status_code, 200);
    assert!(has_header(&resp.canister_response.headers, "Content-Type", "text/html"));
    assert!(has_header(&resp.canister_response.headers, "Content-Length", "39"));
    assert!(resp
        .canister_response
        .headers
        .iter()
        .any(|(n, _)| n == "IC-Certificate"));
    match resp.canister_response.body {
        HttpGatewayResponseBody::Full(b) => assert_eq!(b, body),
        other => panic!("expected a full body, got {:?}", other),
    }
    assert!(!resp.metadata.upgraded_to_update_call);
    assert_eq!(resp.metadata.response_verification_version, Some(2));
    assert!(resp.metadata.internal_error.is_none());
}

#[test]
fn v2_copies_only_certified_headers() {
    let backend_headers = vec![
        ("Content-Type".to_string(), "text/html".to_string()),
        ("X-Uncertified".to_string(), "secret".to_string()),
    ];
    let certified_headers = vec![("Content-Type".to_string(), "text/html".to_string())];
    let validation = Some(VerificationInfo {
        verification_version: 2,
        response: Some(VerifiedResponse {
            status_code: Some(200),
            headers: certified_headers.clone(),
            body: vec![],
        }),
    });
    let resp = finalize_with_validation(
        &validation,
        get_request("/"),
        false,
        Principal::from_slice(&[1]),
        200,
        &backend_headers,
        HttpGatewayResponseBody::Full(vec![]),
        false,
        false,
    );
    assert_eq!(resp.canister_response.headers, certified_headers);
}

#[test]
fn v2_without_certified_response_passes_all_headers() {
    let backend_headers = vec![
        ("Content-Type".to_string(), "text/plain".to_string()),
        ("X-Custom".to_string(), "anything".to_string()),
    ];
    let validation = Some(VerificationInfo {
        verification_version: 2,
        response: None,
    });
    let resp = finalize_with_validation(
        &validation,
        get_request("/"),
        false,
        Principal::from_slice(&[1]),
        200,
        &backend_headers,
        HttpGatewayResponseBody::Full(b"ok".to_vec()),
        false,
        false,
    );
    assert_eq!(resp.canister_response.headers, backend_headers);
    assert_eq!(resp.metadata.response_verification_version, Some(2));
}

#[test]
fn v1_filters_cache_control() {
    let backend_headers = vec![
        ("Cache-Control".to_string(), "no-store".to_string()),
        ("Content-Type".to_string(), "text/plain".to_string()),
    ];
    let validation = Some(VerificationInfo {
        verification_version: 1,
        response: Some(VerifiedResponse {
            status_code: None,
            headers: vec![],
            body: vec![],
        }),
    });
    let resp = finalize_with_validation(
        &validation,
        get_request("/"),
        false,
        Principal::from_slice(&[1]),
        200,
        &backend_headers,
        HttpGatewayResponseBody::Full(vec![]),
        false,
        false,
    );
    assert_eq!(
        resp.canister_response.headers,
        vec![("Content-Type".to_string(), "text/plain".to_string())]
    );
    assert_eq!(resp.metadata.response_verification_version, Some(1));
}

#[test]
fn v1_redirect_rejected() {
    let backend_headers = vec![("Location".to_string(), "/moved".to_string())];
    let validation = Some(VerificationInfo {
        verification_version: 1,
        response: Some(VerifiedResponse {
            status_code: None,
            headers: vec![],
            body: vec![],
        }),
    });
    let resp = finalize_with_validation(
        &validation,
        get_request("/old"),
        false,
        Principal::from_slice(&[1]),
        301,
        &backend_headers,
        HttpGatewayResponseBody::Full(vec![]),
        false,
        false,
    );
    assert_eq!(resp.canister_response.status_code, 500);
    // no Location header survives
    assert!(resp.canister_response.headers.is_empty());
    let body = match resp.canister_response.body {
        HttpGatewayResponseBody::Full(b) => b,
        other => panic!("expected a full body, got {:?}", other),
    };
    let text = String::from_utf8(body).unwrap();
    assert!(text.contains("Response verification v1 does not allow redirects"));
    assert!(resp.metadata.internal_error.is_none());
    assert_eq!(resp.metadata.response_verification_version, Some(1));
}

#[test]
fn client_range_request_passes_206_through() {
    let chunk = vec![7u8; 2_000_000];
    let backend_headers = vec![(
        "Content-Range".to_string(),
        "bytes 2000000-3999999/4000012".to_string(),
    )];
    let validation = Some(VerificationInfo {
        verification_version: 2,
        response: None,
    });
    let resp = finalize_with_validation(
        &validation,
        get_request("/six_chunks"),
        true,
        Principal::from_slice(&[1]),
        206,
        &backend_headers,
        HttpGatewayResponseBody::Full(chunk.clone()),
        false,
        false,
    );
    // the range driver must not activate: the client asked for the range
    assert_eq!(resp.canister_response.status_code, 206);
    assert!(has_header(
        &resp.canister_response.headers,
        "Content-Range",
        "bytes 2000000-3999999/4000012"
    ));
    match resp.canister_response.body {
        HttpGatewayResponseBody::Full(b) => assert_eq!(b.len(), 2_000_000),
        other => panic!("expected a full body, got {:?}", other),
    }
}

#[test]
fn client_range_request_preserves_certified_headers() {
    let chunk = vec![3u8; 16];
    let backend_headers = vec![
        ("Content-Range".to_string(), "bytes 0-15/32".to_string()),
        ("Content-Length".to_string(), "16".to_string()),
    ];
    let validation = Some(VerificationInfo {
        verification_version: 2,
        response: Some(VerifiedResponse {
            status_code: Some(206),
            headers: backend_headers.clone(),
            body: chunk.clone(),
        }),
    });
    let resp = finalize_with_validation(
        &validation,
        get_request("/file"),
        true,
        Principal::from_slice(&[1]),
        206,
        &backend_headers,
        HttpGatewayResponseBody::Full(chunk.clone()),
        false,
        false,
    );
    assert_eq!(resp.canister_response.status_code, 206);
    assert_eq!(resp.canister_response.headers, backend_headers);
    match resp.canister_response.body {
        HttpGatewayResponseBody::Full(b) => assert_eq!(b, chunk),
        other => panic!("expected a full body, got {:?}", other),
    }
    assert_eq!(resp.metadata.response_verification_version, Some(2));
}

#[test]
fn unsolicited_206_activates_range_stream_with_total_content_length() {
    let initial = vec![9u8; 5];
    let backend_headers = vec![
        ("Content-Range".to_string(), "bytes 0-4/10".to_string()),
        ("Content-Length".to_string(), "5".to_string()),
        ("X-Other".to_string(), "v".to_string()),
    ];
    let validation = Some(VerificationInfo {
        verification_version: 2,
        response: None,
    });
    let resp = finalize_with_validation(
        &validation,
        get_request("/file"),
        false,
        Principal::from_slice(&[1]),
        206,
        &backend_headers,
        HttpGatewayResponseBody::Full(initial.clone()),
        false,
        false,
    );
    // rewritten to 200, partial-content headers dropped, total length appended
    assert_eq!(resp.canister_response.status_code, 200);
    assert_eq!(
        resp.canister_response.headers,
        vec![
            ("X-Other".to_string(), "v".to_string()),
            ("content-length".to_string(), "10".to_string()),
        ]
    );
    match resp.canister_response.body {
        HttpGatewayResponseBody::RangeStream { initial: i, state } => {
            assert_eq!(i, initial);
            assert_eq!(state.total_length, 10);
            assert_eq!(state.fetched_length, 5);
            assert!(!state.skip_verification);
        }
        other => panic!("expected a range stream, got {:?}", other),
    }
    assert!(resp.metadata.internal_error.is_none());
}

#[test]
fn missing_content_range_on_206_fails_setup() {
    let resp = finalize_with_validation(
        &None,
        get_request("/file"),
        false,
        Principal::from_slice(&[1]),
        206,
        &vec![("Content-Type".to_string(), "text/plain".to_string())],
        HttpGatewayResponseBody::Full(vec![1, 2, 3]),
        false,
        true,
    );
    assert_eq!(resp.canister_response.status_code, 500);
    let body = match resp.canister_response.body {
        HttpGatewayResponseBody::Full(b) => b,
        other => panic!("expected a full body, got {:?}", other),
    };
    let text = String::from_utf8(body).unwrap();
    assert!(text.contains("Failed to create streaming response: "));
    assert!(text.contains("missing Content-Range header"));
    assert!(matches!(
        resp.metadata.internal_error,
        Some(HttpGatewayError::RangeSetupFailure(_))
    ));
}

#[test]
fn invalid_status_yields_500() {
    let resp = finalize_with_validation(
        &None,
        get_request("/"),
        false,
        Principal::from_slice(&[1]),
        42,
        &vec![],
        HttpGatewayResponseBody::Full(vec![]),
        false,
        true,
    );
    assert_eq!(resp.canister_response.status_code, 500);
    let body = match resp.canister_response.body {
        HttpGatewayResponseBody::Full(b) => b,
        other => panic!("expected a full body, got {:?}", other),
    };
    let text = String::from_utf8(body).unwrap();
    assert_eq!(text, "Invalid canister response status code: 42");
    assert!(matches!(
        resp.metadata.internal_error,
        Some(HttpGatewayError::InvalidStatus(42))
    ));
}

#[test]
fn identical_requests_yield_identical_bodies() {
    let make = || {
        finalize_with_validation(
            &Some(VerificationInfo {
                verification_version: 2,
                response: None,
            }),
            get_request("/same"),
            false,
            Principal::from_slice(&[5, 5]),
            200,
            &vec![("Content-Type".to_string(), "text/plain".to_string())],
            HttpGatewayResponseBody::Full(b"deterministic".to_vec()),
            false,
            false,
        )
    };
    let first = make();
    let second = make();
    let b1 = match first.canister_response.body {
        HttpGatewayResponseBody::Full(b) => b,
        other => panic!("expected a full body, got {:?}", other),
    };
    let b2 = match second.canister_response.body {
        HttpGatewayResponseBody::Full(b) => b,
        other => panic!("expected a full body, got {:?}", other),
    };
    assert_eq!(b1, b2);
    assert_eq!(
        first.canister_response.status_code,
        second.canister_response.status_code
    );
    assert_eq!(first.canister_response.headers, second.canister_response.headers);
}
