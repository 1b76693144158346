use unbound_webhook::errors::ClientError;
use unbound_webhook::models::{
    HostAlias, HostAliasRow, HostOverride, HostOverrideRow, HostOverrideType, Uuid,
};
use unbound_webhook::records::{Filters, Record, RecordType, DEFAULT_RECORD_TTL};
use unbound_webhook::text::{dns_name_to_hostname_and_domain, join_hostname_and_domain};
use unbound_webhook::web::{
    adjust_endpoints, batch_succeeded, create_payloads_for_record, healthz, plan_create_batch,
    RECORD_DESCRIPTION_PREFIX,
};

fn override_row(enabled: bool, description: &str) -> HostOverrideRow {
    HostOverrideRow {
        uuid: "some-uuid".to_string(),
        enabled,
        hostname: "hostname".to_string(),
        domain: "some-domain".to_string(),
        rr: HostOverrideType::A,
        server: "127.0.0.1".to_string(),
        description: description.to_string(),
    }
}

fn alias_row(enabled: bool, description: &str) -> HostAliasRow {
    HostAliasRow {
        uuid: "alias-uuid".to_string(),
        enabled,
        host: "some-host".to_string(),
        hostname: "alias-hostname".to_string(),
        domain: "some-domain".to_string(),
        description: description.to_string(),
    }
}

fn a_record(dns_name: &str, targets: &[&str]) -> Record {
    Record {
        dns_name: dns_name.to_string(),
        targets: targets.iter().map(|t| t.to_string()).collect(),
        record_type: RecordType::A,
        record_ttl: 300,
        labels: None,
        provider_specific: None,
    }
}

#[test]
fn healthz_is_ok() {
    assert_eq!(healthz(), "OK");
}

#[test]
fn filters_copy_the_domains() {
    let domains = vec!["example.org".to_string(), "example.net".to_string()];
    let f = Filters::new(&domains);
    assert_eq!(f.filters, domains);
}

#[test]
fn dns_name_splits_on_first_dot() {
    let (hostname, domain) =
        dns_name_to_hostname_and_domain("example.yourdomain.com.").unwrap();
    assert_eq!(hostname, "example");
    assert_eq!(domain, "yourdomain.com.");
    assert_eq!(join_hostname_and_domain(&hostname, &domain), "example.yourdomain.com.");
}

#[test]
fn dns_name_without_dot_does_not_split() {
    assert!(dns_name_to_hostname_and_domain("nodots").is_none());
    assert!(dns_name_to_hostname_and_domain("").is_none());
}

#[test]
fn listing_includes_only_managed_rows() {
    let managed_description = format!("{}managed", RECORD_DESCRIPTION_PREFIX);
    let overrides = HostOverride {
        rows: vec![
            override_row(true, &managed_description),
            override_row(false, &managed_description),
            override_row(true, "some-description"),
        ],
        row_count: 3,
        total: 3,
        current: 1,
    };
    let aliases = HostAlias {
        rows: vec![
            alias_row(true, RECORD_DESCRIPTION_PREFIX),
            alias_row(false, RECORD_DESCRIPTION_PREFIX),
            alias_row(true, "unrelated"),
        ],
        row_count: 3,
        total: 3,
        current: 1,
    };
    let records = unbound_webhook::web::records_get(&overrides, &aliases);
    assert_eq!(records.len(), 2);
    assert_eq!(records[0].dns_name, "hostname.some-domain");
    assert_eq!(records[0].targets, vec!["127.0.0.1".to_string()]);
    assert!(matches!(records[0].record_type, RecordType::A));
    assert_eq!(records[0].record_ttl, DEFAULT_RECORD_TTL);
    assert_eq!(records[0].labels, None);
    assert_eq!(records[0].provider_specific, None);
    assert_eq!(records[1].dns_name, "alias-hostname.some-domain");
    assert_eq!(records[1].targets, vec!["some-host".to_string()]);
    assert!(matches!(records[1].record_type, RecordType::CNAME));
}

#[test]
fn listing_of_unmanaged_rows_is_empty() {
    let overrides = HostOverride {
        rows: vec![
            override_row(false, RECORD_DESCRIPTION_PREFIX),
            override_row(true, "ouw"),
        ],
        row_count: 2,
        total: 2,
        current: 1,
    };
    let aliases = HostAlias { rows: vec![], row_count: 0, total: 0, current: 1 };
    assert!(unbound_webhook::web::records_get(&overrides, &aliases).is_empty());
}

#[test]
fn a_record_with_two_targets_plans_two_calls() {
    let record = a_record("example.yourdomain.com.", &["203.0.113.42", "203.0.113.43"]);
    let payloads = create_payloads_for_record(&record).unwrap();
    assert_eq!(payloads.len(), 2);
    for (payload, target) in payloads.iter().zip(["203.0.113.42", "203.0.113.43"]) {
        assert!(payload.enabled);
        assert_eq!(payload.hostname, "example");
        assert_eq!(payload.domain, "yourdomain.com.");
        assert_eq!(payload.rr, HostOverrideType::A);
        assert_eq!(payload.mxprio, "");
        assert_eq!(payload.mx, "");
        assert_eq!(payload.server, target);
        assert_eq!(payload.description, RECORD_DESCRIPTION_PREFIX);
    }
}

#[test]
fn cname_creation_is_a_noop() {
    let record = Record {
        dns_name: "alias.example.org".to_string(),
        targets: vec!["target.example.org".to_string()],
        record_type: RecordType::CNAME,
        record_ttl: 300,
        labels: None,
        provider_specific: None,
    };
    assert!(create_payloads_for_record(&record).unwrap().is_empty());
}

#[test]
fn unsplittable_dns_name_is_a_mapping_error() {
    let record = a_record("nodots", &["203.0.113.42"]);
    let err = create_payloads_for_record(&record).unwrap_err();
    assert_eq!(err.dns_name, "nodots");
}

#[test]
fn batch_planning_stops_at_first_unmappable_intent() {
    let create = vec![
        a_record("a.example.org", &["203.0.113.1", "203.0.113.2"]),
        a_record("bad-name", &["203.0.113.3"]),
        a_record("c.example.org", &["203.0.113.4"]),
    ];
    let (payloads, err) = plan_create_batch(&create);
    assert_eq!(payloads.len(), 2);
    assert_eq!(payloads[0].server, "203.0.113.1");
    assert_eq!(payloads[1].server, "203.0.113.2");
    assert_eq!(err.unwrap().dns_name, "bad-name");
}

#[test]
fn batch_planning_without_failure_concatenates_in_order() {
    let create = vec![
        a_record("a.example.org", &["203.0.113.1"]),
        a_record("b.example.org", &["203.0.113.2", "203.0.113.3"]),
    ];
    let (payloads, err) = plan_create_batch(&create);
    assert!(err.is_none());
    let servers: Vec<&str> = payloads.iter().map(|p| p.server.as_str()).collect();
    assert_eq!(servers, vec!["203.0.113.1", "203.0.113.2", "203.0.113.3"]);
    assert_eq!(payloads[0].hostname, "a");
    assert_eq!(payloads[1].hostname, "b");
}

#[test]
fn batch_outcomes_are_independent() {
    let ok: Result<Uuid, ClientError> = Ok("uuid-1".to_string());
    let failed: Result<Uuid, ClientError> = Err(ClientError::BackendOperationFailed {
        result: "failed".to_string(),
        validations: vec![],
    });
    let outcomes = vec![ok, failed];
    assert!(outcomes[0].is_ok());
    assert!(outcomes[1].is_err());
    assert!(!batch_succeeded(&outcomes));
    let all_ok: Vec<Result<Uuid, ClientError>> =
        vec![Ok("uuid-1".to_string()), Ok("uuid-2".to_string())];
    assert!(batch_succeeded(&all_ok));
    assert!(batch_succeeded(&vec![]));
}

#[test]
fn adjust_endpoints_returns_records_unchanged() {
    let records = vec![a_record("a.example.org", &["203.0.113.1"])];
    assert_eq!(adjust_endpoints(records.clone()), records);
}
