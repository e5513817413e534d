use candid::Principal;
use ic_http_gateway::client::HttpGatewayClient;
use ic_http_gateway::request::CanisterRequest;
use ic_http_gateway::request_builder::HttpGatewayRequestArgs;

fn canister_request() -> CanisterRequest {
    CanisterRequest {
        method: "GET".to_string(),
        path: "/".to_string(),
        query: None,
        headers: vec![],
        body: vec![],
    }
}

#[test]
fn client_builder_builds_with_given_agent() {
    let agent = ic_agent::Agent::builder()
        .with_url("https://icp0.io")
        .build()
        .expect("failed to build agent");
    let client = HttpGatewayClient::builder()
        .with_agent(agent)
        .build()
        .expect("failed to build client");

    let canister_id = Principal::from_slice(&[1, 2, 3, 4]);
    let mut builder = client.request(HttpGatewayRequestArgs {
        canister_request: canister_request(),
        canister_id,
    });
    builder.unsafe_set_skip_verification(true);
    let (args, _agent, skip_verification) = builder.into_parts();
    assert!(skip_verification);
    assert_eq!(args.canister_id, canister_id);
    assert_eq!(args.canister_request.method, "GET");
}

#[test]
fn request_builder_defaults_to_verification() {
    let agent = ic_agent::Agent::builder()
        .with_url("https://icp0.io")
        .build()
        .expect("failed to build agent");
    let client = HttpGatewayClient::builder()
        .with_agent(agent)
        .build()
        .expect("failed to build client");
    let builder = client.request(HttpGatewayRequestArgs {
        canister_request: canister_request(),
        canister_id: Principal::from_slice(&[9]),
    });
    let (_, _, skip_verification) = builder.into_parts();
    assert!(!skip_verification);
}
