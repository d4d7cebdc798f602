use marzban_api::client::MarzbanAPIClient;
use marzban_api::dispatch::{
    classify_status, response_error, validation_failure, EndpointBranches, Method,
    ResourceKind, ResponseDirective,
};
use marzban_api::error::ApiError;
use marzban_api::models::errors::{HTTPValidationError, ValidationError};

fn all_branches(resource: ResourceKind) -> EndpointBranches {
    EndpointBranches {
        unauthorized: true,
        forbidden: true,
        not_found: true,
        conflict: true,
        unprocessable: true,
        resource,
    }
}

fn no_branches(resource: ResourceKind) -> EndpointBranches {
    EndpointBranches {
        unauthorized: false,
        forbidden: false,
        not_found: false,
        conflict: false,
        unprocessable: false,
        resource,
    }
}

#[test]
fn classify_follows_the_table() {
    let b = all_branches(ResourceKind::User);
    assert_eq!(classify_status(&b, 200), ResponseDirective::DecodeSuccess);
    assert_eq!(classify_status(&b, 401), ResponseDirective::DecodeValidation);
    assert_eq!(classify_status(&b, 403), ResponseDirective::Forbidden);
    assert_eq!(classify_status(&b, 404), ResponseDirective::NotFound);
    assert_eq!(classify_status(&b, 409), ResponseDirective::Conflict);
    assert_eq!(classify_status(&b, 422), ResponseDirective::DecodeValidation);
}

#[test]
fn undeclared_branches_fall_to_the_catch_all() {
    let b = no_branches(ResourceKind::User);
    assert_eq!(classify_status(&b, 401), ResponseDirective::Unexpected);
    assert_eq!(classify_status(&b, 403), ResponseDirective::Unexpected);
    assert_eq!(classify_status(&b, 404), ResponseDirective::Unexpected);
    assert_eq!(classify_status(&b, 409), ResponseDirective::Unexpected);
    assert_eq!(classify_status(&b, 422), ResponseDirective::Unexpected);
    assert_eq!(classify_status(&b, 200), ResponseDirective::DecodeSuccess);
}

#[test]
fn unknown_status_is_unexpected() {
    let b = all_branches(ResourceKind::Node);
    assert_eq!(classify_status(&b, 418), ResponseDirective::Unexpected);
    assert_eq!(classify_status(&b, 500), ResponseDirective::Unexpected);
    assert_eq!(classify_status(&b, 201), ResponseDirective::Unexpected);
    assert_eq!(classify_status(&b, 0), ResponseDirective::Unexpected);
    let e = response_error(ResponseDirective::Unexpected, ResourceKind::Node);
    assert!(matches!(e, Some(ApiError::UnexpectedResponse)));
}

#[test]
fn forbidden_error_is_fixed() {
    let e = response_error(ResponseDirective::Forbidden, ResourceKind::User);
    match e {
        Some(ApiError::ApiResponseError(m)) => assert_eq!(m, "You're not allowed"),
        _ => panic!("expected the fixed forbidden error"),
    }
}

#[test]
fn not_found_error_names_the_resource() {
    let cases = [
        (ResourceKind::Admin, "Admin not found"),
        (ResourceKind::User, "User not found"),
        (ResourceKind::Node, "Node not found"),
        (ResourceKind::UserTemplate, "User Template not found"),
    ];
    for (kind, expected) in cases {
        match response_error(ResponseDirective::NotFound, kind) {
            Some(ApiError::ApiResponseError(m)) => assert_eq!(m, expected),
            _ => panic!("expected the fixed not-found error"),
        }
    }
}

#[test]
fn conflict_error_names_the_resource() {
    let cases = [
        (ResourceKind::Admin, "Admin already exists"),
        (ResourceKind::User, "User already exists"),
        (ResourceKind::UserTemplate, "Template by this name already exists"),
    ];
    for (kind, expected) in cases {
        match response_error(ResponseDirective::Conflict, kind) {
            Some(ApiError::ApiResponseError(m)) => assert_eq!(m, expected),
            _ => panic!("expected the fixed conflict error"),
        }
    }
}

#[test]
fn decode_directives_produce_no_error() {
    assert!(response_error(ResponseDirective::DecodeSuccess, ResourceKind::User).is_none());
    assert!(response_error(ResponseDirective::DecodeValidation, ResourceKind::User).is_none());
}

#[test]
fn validation_failure_renders_the_envelope() {
    let env = HTTPValidationError {
        detail: Some(vec![
            ValidationError {
                loc: vec![],
                msg: String::from("field required"),
                error_type: String::from("value_error.missing"),
            },
            ValidationError {
                loc: vec![],
                msg: String::from("not a valid integer"),
                error_type: String::from("type_error.integer"),
            },
        ]),
    };
    match validation_failure(&env) {
        ApiError::ApiResponseError(m) => {
            assert_eq!(
                m,
                "Validation Error: field required (value_error.missing); \
                 not a valid integer (type_error.integer)"
            );
            assert!(m.contains("field required"));
            assert!(m.contains("not a valid integer"));
        },
        _ => panic!("expected a classified API error"),
    }
}

#[test]
fn validation_failure_without_detail() {
    let env = HTTPValidationError { detail: None };
    match validation_failure(&env) {
        ApiError::ApiResponseError(m) => assert_eq!(m, "Validation Error: no detail"),
        _ => panic!("expected a classified API error"),
    }
}

#[test]
fn missing_authorization_scenario() {
    // An unauthenticated client asks for the current admin; the server
    // answers 401 with a validation envelope whose message is "missing".
    let c = MarzbanAPIClient::new("http://localhost:8000");
    let call = c.get_current_admin_request();
    assert_eq!(call.request.url, "http://localhost:8000/api/admin");
    assert_eq!(call.request.method, Method::Get);
    assert!(call.request.bearer.is_none());

    let directive = classify_status(&call.branches, 401);
    assert_eq!(directive, ResponseDirective::DecodeValidation);

    let env = HTTPValidationError {
        detail: Some(vec![ValidationError {
            loc: vec![
                marzban_api::models::errors::ValidationErrorLocation {},
                marzban_api::models::errors::ValidationErrorLocation {},
            ],
            msg: String::from("missing"),
            error_type: String::from("missing"),
        }]),
    };
    let err = validation_failure(&env);
    match err {
        ApiError::ApiResponseError(m) => assert!(m.contains("missing")),
        _ => panic!("expected a classified API error"),
    }
}

#[test]
fn error_messages() {
    assert_eq!(
        ApiError::NetworkError(String::from("timed out")).message(),
        "Network error: timed out"
    );
    assert_eq!(
        ApiError::ApiResponseError(String::from("User not found")).message(),
        "API error: User not found"
    );
    assert_eq!(ApiError::UnexpectedResponse.message(), "Unexpected API response");
}
