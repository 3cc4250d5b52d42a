use proprion::exoscale::{
    expect_shape, key_pair, role_from_operation, ApiKey, Client, CreateApiKeyRequest, CreateRoleRequest,
    ExoscaleError, OperationReference, OperationResponse,
};
use proprion::http::{reports_success, ApiError, Response};

fn operation(reference: Option<OperationReference>) -> OperationResponse {
    OperationResponse { id: "op-1".to_string(), state: "success".to_string(), reference }
}

#[test]
fn created_role_takes_the_id_of_the_reference() {
    let op = operation(Some(OperationReference {
        id: "X".to_string(),
        link: Some("/v2/iam-role/X".to_string()),
        command: None,
    }));
    let role = role_from_operation(op, "proprion-svc", "a service").unwrap();
    assert_eq!(role.id, "X");
    assert_eq!(role.name.as_deref(), Some("proprion-svc"));
    assert_eq!(role.description.as_deref(), Some("a service"));
}

#[test]
fn operation_without_reference_is_a_protocol_error() {
    match role_from_operation(operation(None), "n", "d") {
        Err(ExoscaleError::Protocol(m)) => assert_eq!(m, "No reference in operation response"),
        other => panic!("unexpected: {:?}", other),
    }
}

#[test]
fn key_pair_needs_the_secret() {
    let with = ApiKey {
        name: "k".to_string(),
        key: "EXOabc".to_string(),
        secret: Some("shh".to_string()),
        role_id: Some("r".to_string()),
    };
    assert_eq!(key_pair(with).unwrap(), ("EXOabc".to_string(), "shh".to_string()));
    let without = ApiKey {
        name: "k".to_string(),
        key: "EXOabc".to_string(),
        secret: None,
        role_id: Some("r".to_string()),
    };
    match key_pair(without) {
        Err(ExoscaleError::Protocol(m)) => assert_eq!(m, "API key response missing secret"),
        other => panic!("unexpected: {:?}", other),
    }
}

#[test]
fn check_response_passes_success_on() {
    let c = Client::new("k".to_string(), "s".to_string(), "z");
    for status in [200u16, 201, 204, 299] {
        let r = c
            .check_response(Response { status, body: "ok".to_string(), error: None })
            .unwrap();
        assert_eq!(r.status, status);
        assert_eq!(r.body, "ok");
    }
}

#[test]
fn check_response_reports_status_and_message() {
    let c = Client::new("k".to_string(), "s".to_string(), "z");
    let r = c.check_response(Response {
        status: 403,
        body: "{\"message\":\"forbidden\"}".to_string(),
        error: Some(ApiError { message: Some("forbidden".to_string()) }),
    });
    match r {
        Err(ExoscaleError::Api { status, message }) => {
            assert_eq!(status, 403);
            assert_eq!(message, "forbidden");
        }
        other => panic!("unexpected: {:?}", other),
    }
}

#[test]
fn check_response_falls_back_to_the_body() {
    let c = Client::new("k".to_string(), "s".to_string(), "z");
    for status in [199u16, 300, 404, 500] {
        let r = c.check_response(Response {
            status,
            body: "gateway down".to_string(),
            error: None,
        });
        match r {
            Err(ExoscaleError::Api { status: s, message }) => {
                assert_eq!(s, status);
                assert_eq!(message, "gateway down");
            }
            other => panic!("unexpected: {:?}", other),
        }
    }
}

#[test]
fn check_response_takes_a_report_without_message_for_none() {
    let c = Client::new("k".to_string(), "s".to_string(), "z");
    let r = c.check_response(Response {
        status: 400,
        body: "{\"code\":7}".to_string(),
        error: Some(ApiError { message: None }),
    });
    match r {
        Err(ExoscaleError::Api { status, message }) => {
            assert_eq!(status, 400);
            assert_eq!(message, "{\"code\":7}");
        }
        other => panic!("unexpected: {:?}", other),
    }
}

#[test]
fn error_messages() {
    assert_eq!(
        ExoscaleError::Request("timed out".to_string()).message(),
        "HTTP request failed: timed out"
    );
    assert_eq!(
        ExoscaleError::Api { status: 404, message: "not found".to_string() }.message(),
        "API error: not found (status: 404)"
    );
    assert_eq!(
        ExoscaleError::Api { status: 0, message: String::new() }.message(),
        "API error:  (status: 0)"
    );
    assert_eq!(
        ExoscaleError::Api { status: 65535, message: "m".to_string() }.message(),
        "API error: m (status: 65535)"
    );
    assert_eq!(
        ExoscaleError::Protocol("no reference".to_string()).message(),
        "Invalid response: no reference"
    );
    assert_eq!(
        ExoscaleError::Signature("bad key".to_string()).message(),
        "Signature error: bad key"
    );
}

#[test]
fn role_request_is_scoped_to_bucket_and_prefix() {
    let r = CreateRoleRequest::new("proprion-svc-b", "a service", "data", "apps/svc-b/");
    assert_eq!(r.name, "proprion-svc-b");
    assert_eq!(r.description, "a service");
    assert!(!r.editable);
    assert_eq!(r.policy.default_service_strategy, "deny");
    assert_eq!(r.policy.services.sos.policy_type, "rules");
    let rules = r.policy.services.sos.rules.unwrap();
    assert_eq!(rules.len(), 2);
    assert_eq!(rules[0].action, "allow");
    assert_eq!(
        rules[0].expression,
        "operation == 'list-objects' && resources.bucket == 'data'"
    );
    assert_eq!(rules[1].action, "allow");
    assert_eq!(
        rules[1].expression,
        "operation in ['get-object', 'put-object', 'delete-object', 'head-object'] && resources.bucket == 'data' && parameters.key.startsWith('apps/svc-b/')"
    );
}

#[test]
fn role_request_takes_quotes_as_they_are() {
    let r = CreateRoleRequest::new("n", "d", "b'x", "p'");
    let rules = r.policy.services.sos.rules.unwrap();
    assert_eq!(
        rules[0].expression,
        "operation == 'list-objects' && resources.bucket == 'b'x'"
    );
    assert!(rules[1].expression.ends_with("parameters.key.startsWith('p'')"));
}

#[test]
fn api_key_request_binds_the_role() {
    let r = CreateApiKeyRequest::new("proprion-svc-key", "role-1");
    assert_eq!(r.name, "proprion-svc-key");
    assert_eq!(r.role_id, "role-1");
}

#[test]
fn expect_shape_passes_values_and_names_failures() {
    assert_eq!(expect_shape(Ok::<u8, String>(7), "Failed to parse response").unwrap(), 7);
    match expect_shape(Err::<u8, String>("EOF at line 1".to_string()), "Failed to parse response") {
        Err(ExoscaleError::Protocol(m)) => {
            assert_eq!(m, "Failed to parse response: EOF at line 1");
        }
        other => panic!("unexpected: {:?}", other),
    }
    match expect_shape(
        Err::<String, String>("missing field `id`".to_string()),
        "Failed to parse operation response",
    ) {
        Err(e) => assert_eq!(
            e.message(),
            "Invalid response: Failed to parse operation response: missing field `id`"
        ),
        other => panic!("unexpected: {:?}", other),
    }
}

#[test]
fn success_is_a_status_from_200_to_299() {
    assert!(reports_success(200));
    assert!(reports_success(204));
    assert!(reports_success(299));
    assert!(!reports_success(199));
    assert!(!reports_success(300));
    assert!(!reports_success(0));
    assert!(!reports_success(u16::MAX));
}
