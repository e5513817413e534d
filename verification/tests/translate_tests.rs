use ic_http_gateway::error::HttpGatewayError;
use ic_http_gateway::handler::bad_request_response;
use ic_http_gateway::request::{
    convert_request, prepare_header_fields, BackendRequest, CanisterRequest,
};
use ic_http_gateway::response::HttpGatewayResponseBody;

#[test]
fn test_convert_request() {
    let request = CanisterRequest {
        method: "GET".to_string(),
        path: "/foo/bar/baz".to_string(),
        query: Some("q=hello+world&t=1".to_string()),
        headers: vec![
            ("accept".to_string(), b"text/html".to_vec()),
            (
                "accept-encoding".to_string(),
                b"gzip, deflate, br, zstd".to_vec(),
            ),
        ],
        body: b"body".to_vec(),
    };

    let http_request = convert_request(&request).unwrap();

    assert_eq!(
        http_request,
        BackendRequest {
            method: "GET".to_string(),
            url: "/foo/bar/baz?q=hello+world&t=1".to_string(),
            headers: vec![
                ("accept".to_string(), "text/html".to_string()),
                (
                    "accept-encoding".to_string(),
                    "gzip, deflate, br, zstd".to_string()
                ),
            ],
            body: b"body".to_vec(),
        }
    );
}

#[test]
fn convert_request_without_query_keeps_plain_path() {
    let request = CanisterRequest {
        method: "POST".to_string(),
        path: "/".to_string(),
        query: None,
        headers: vec![],
        body: vec![1, 2, 3],
    };
    let http_request = convert_request(&request).unwrap();
    assert_eq!(http_request.url, "/");
    assert_eq!(http_request.method, "POST");
    assert_eq!(http_request.body, vec![1, 2, 3]);
}

#[test]
fn decodes_multibyte_utf8_header_value() {
    let request = CanisterRequest {
        method: "GET".to_string(),
        path: "/".to_string(),
        query: None,
        headers: vec![("x-name".to_string(), "café".as_bytes().to_vec())],
        body: vec![],
    };
    let http_request = convert_request(&request).unwrap();
    assert_eq!(http_request.headers, vec![("x-name".to_string(), "café".to_string())]);
}

#[test]
fn rejects_non_utf8_header_value() {
    let request = CanisterRequest {
        method: "GET".to_string(),
        path: "/".to_string(),
        query: None,
        headers: vec![
            ("accept".to_string(), b"text/html".to_vec()),
            ("x-bin".to_string(), vec![0xff, 0xfe]),
        ],
        body: vec![],
    };
    let err = convert_request(&request).unwrap_err();
    match &err {
        HttpGatewayError::HeaderDecoding {
            header_name,
            header_value,
        } => {
            assert_eq!(header_name, "x-bin");
            assert_eq!(header_value, &vec![0xff, 0xfe]);
        }
        other => panic!("expected a header decoding error, got {:?}", other),
    }

    let resp = bad_request_response(err);
    assert_eq!(resp.canister_response.status_code, 400);
    assert!(resp.canister_response.headers.is_empty());
    let body = match resp.canister_response.body {
        HttpGatewayResponseBody::Full(b) => b,
        other => panic!("expected a full body, got {:?}", other),
    };
    let text = String::from_utf8(body).unwrap();
    assert!(text.contains("Failed to parse request: "));
    assert!(text.contains("x-bin"));
    assert!(matches!(
        resp.metadata.internal_error,
        Some(HttpGatewayError::HeaderDecoding { .. })
    ));
    assert!(!resp.metadata.upgraded_to_update_call);
    assert_eq!(resp.metadata.response_verification_version, None);
}

#[test]
fn appends_identity_to_accept_encoding() {
    let http_request = BackendRequest {
        method: "GET".to_string(),
        url: "/".to_string(),
        headers: vec![
            (
                "Accept-Encoding".to_string(),
                "gzip, deflate, br, zstd".to_string(),
            ),
            ("x-request-id".to_string(), "abc-123".to_string()),
            ("Range".to_string(), "bytes=0-".to_string()),
        ],
        body: vec![],
    };
    let (fields, is_range_request) = prepare_header_fields(&http_request);
    assert!(is_range_request);
    assert_eq!(
        fields,
        vec![
            (
                "Accept-Encoding".to_string(),
                "gzip, deflate, br, zstd, identity".to_string()
            ),
            ("Range".to_string(), "bytes=0-".to_string()),
        ]
    );
}

#[test]
fn keeps_accept_encoding_with_identity_already_present() {
    let http_request = BackendRequest {
        method: "GET".to_string(),
        url: "/".to_string(),
        headers: vec![(
            "accept-encoding".to_string(),
            "gzip,  IDENTITY , br".to_string(),
        )],
        body: vec![],
    };
    let (fields, is_range_request) = prepare_header_fields(&http_request);
    assert!(!is_range_request);
    assert_eq!(
        fields,
        vec![(
            "accept-encoding".to_string(),
            "gzip,  IDENTITY , br".to_string()
        )]
    );
}

#[test]
fn request_id_header_is_dropped_case_insensitively() {
    let http_request = BackendRequest {
        method: "GET".to_string(),
        url: "/".to_string(),
        headers: vec![
            ("X-Request-ID".to_string(), "abc-123".to_string()),
            ("Accept".to_string(), "*/*".to_string()),
        ],
        body: vec![],
    };
    let (fields, _) = prepare_header_fields(&http_request);
    assert_eq!(fields, vec![("Accept".to_string(), "*/*".to_string())]);
}

#[test]
fn if_range_header_marks_range_request() {
    let http_request = BackendRequest {
        method: "GET".to_string(),
        url: "/".to_string(),
        headers: vec![("If-Range".to_string(), "etag".to_string())],
        body: vec![],
    };
    let (_, is_range_request) = prepare_header_fields(&http_request);
    assert!(is_range_request);
}
