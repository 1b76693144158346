use unbound_webhook::client::{
    classify_add_result, classify_delete_result, ApiEndpoint, Opnsense,
};
use unbound_webhook::errors::ClientError;
use unbound_webhook::models::ApiResult;

fn handle(url: &str) -> Opnsense {
    Opnsense::new(
        url,
        Some("KEY".to_string()),
        Some("SECRET".to_string()),
        true,
    )
}

#[test]
fn endpoint_paths() {
    assert_eq!(
        ApiEndpoint::UnboundServiceStatus.path(),
        "/api/unbound/service/status"
    );
    assert_eq!(
        ApiEndpoint::UnboundSearchHostOverrides.path(),
        "/api/unbound/settings/searchHostOverride/"
    );
    assert_eq!(
        ApiEndpoint::UnboundAddHostOverride.path(),
        "/api/unbound/settings/addHostOverride/"
    );
    assert_eq!(
        ApiEndpoint::UnboundDelHostOverride.path(),
        "/api/unbound/settings/delHostOverride/"
    );
    assert_eq!(
        ApiEndpoint::UnboundSearchHostAliases.path(),
        "/api/unbound/settings/searchHostAlias/"
    );
    assert_eq!(
        ApiEndpoint::UnboundAddHostAlias.path(),
        "/api/unbound/settings/addHostAlias/"
    );
    assert_eq!(
        ApiEndpoint::UnboundDelHostAlias.path(),
        "/api/unbound/settings/delHostAlias/"
    );
}

#[test]
fn url_join_has_exactly_one_slash() {
    let plain = handle("http://host:8080");
    assert_eq!(
        plain.url(ApiEndpoint::UnboundServiceStatus.path()),
        "http://host:8080/api/unbound/service/status"
    );
    let trailing = handle("http://host:8080/");
    assert_eq!(
        trailing.url(ApiEndpoint::UnboundServiceStatus.path()),
        "http://host:8080/api/unbound/service/status"
    );
    assert_eq!(trailing.url("api/x"), "http://host:8080/api/x");
}

#[test]
fn delete_urls_append_uuid_directly() {
    let h = handle("http://host");
    assert_eq!(
        h.delete_host_override_url("someuuid"),
        "http://host/api/unbound/settings/delHostOverride/someuuid"
    );
    assert_eq!(
        h.delete_host_alias_url("someuuid"),
        "http://host/api/unbound/settings/delHostAlias/someuuid"
    );
}

#[test]
fn auth_header_encodes_key_and_secret() {
    let h = Opnsense::new(
        "http://host",
        Some("key".to_string()),
        Some("secret".to_string()),
        false,
    );
    // base64("key:secret"), standard alphabet with padding.
    assert_eq!(h.auth_header, "Basic a2V5OnNlY3JldA==");
    assert_eq!(h.url, "http://host");
    assert!(!h.insecure);
}

#[test]
fn auth_header_missing_credentials_default_to_empty() {
    let h = Opnsense::new("http://host", None, None, true);
    // base64(":")
    assert_eq!(h.auth_header, "Basic Og==");
    assert!(h.insecure);
}

#[test]
fn add_saved_with_uuid_is_success() {
    let parsed = ApiResult {
        result: "saved".to_string(),
        uuid: Some("some-uuid".to_string()),
        validations: None,
    };
    assert_eq!(classify_add_result(&parsed).unwrap(), "some-uuid");
}

#[test]
fn add_failed_carries_validations() {
    let parsed = ApiResult {
        result: "failed".to_string(),
        uuid: None,
        validations: Some(vec![("reason".to_string(), "unknown".to_string())]),
    };
    match classify_add_result(&parsed).unwrap_err() {
        ClientError::BackendOperationFailed {
            result,
            validations,
        } => {
            assert_eq!(result, "failed");
            assert_eq!(
                validations,
                vec![("reason".to_string(), "unknown".to_string())]
            );
        }
        other => panic!("unexpected error: {:?}", other),
    }
}

#[test]
fn add_saved_without_uuid_is_contract_violation() {
    let parsed = ApiResult {
        result: "saved".to_string(),
        uuid: None,
        validations: None,
    };
    match classify_add_result(&parsed).unwrap_err() {
        ClientError::ContractViolation => {}
        other => panic!("unexpected error: {:?}", other),
    }
}

#[test]
fn add_unknown_token_is_failure_with_empty_validations() {
    let parsed = ApiResult {
        result: "maybe saved".to_string(),
        uuid: Some("some-uuid".to_string()),
        validations: None,
    };
    match classify_add_result(&parsed).unwrap_err() {
        ClientError::BackendOperationFailed {
            result,
            validations,
        } => {
            assert_eq!(result, "maybe saved");
            assert!(validations.is_empty());
        }
        other => panic!("unexpected error: {:?}", other),
    }
}

#[test]
fn delete_deleted_is_success() {
    let parsed = ApiResult {
        result: "deleted".to_string(),
        uuid: None,
        validations: None,
    };
    assert!(classify_delete_result(&parsed).is_ok());
}

#[test]
fn delete_not_found_is_failure() {
    let parsed = ApiResult {
        result: "not found".to_string(),
        uuid: None,
        validations: None,
    };
    match classify_delete_result(&parsed).unwrap_err() {
        ClientError::BackendOperationFailed {
            result,
            validations,
        } => {
            assert_eq!(result, "not found");
            assert!(validations.is_empty());
        }
        other => panic!("unexpected error: {:?}", other),
    }
}

#[test]
fn error_kind_labels() {
    assert_eq!(ClientError::ContractViolation.kind(), "contract violation");
    assert_eq!(
        ClientError::Transport("boom".to_string()).kind(),
        "transport error"
    );
}
