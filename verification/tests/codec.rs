use unbound_webhook::codec::{
    decode_bool, decode_host_alias, decode_host_alias_row, decode_host_override,
    decode_host_override_row, decode_kind, decode_status, encode_bool, encode_kind,
    encode_new_host_alias, encode_new_host_override, RawHostAlias, RawHostAliasRow,
    RawHostOverride, RawHostOverrideRow,
};
use unbound_webhook::models::{HostOverrideType, NewHostAlias, NewHostOverride, StatusType};

fn raw_override_row(enabled: &str, rr: &str) -> RawHostOverrideRow {
    RawHostOverrideRow {
        uuid: "some-uuid".to_string(),
        enabled: enabled.to_string(),
        hostname: "hostname".to_string(),
        domain: "some-domain".to_string(),
        rr: rr.to_string(),
        server: "127.0.0.1".to_string(),
        description: "some-description".to_string(),
    }
}

#[test]
fn decode_bool_one_is_true() {
    assert_eq!(decode_bool("1"), Ok(true));
}

#[test]
fn decode_bool_zero_is_false() {
    assert_eq!(decode_bool("0"), Ok(false));
}

#[test]
fn decode_bool_rejects_other_literals() {
    let err = decode_bool("true").unwrap_err();
    assert_eq!(err.token, "true");
    assert!(decode_bool("").is_err());
    assert!(decode_bool("yes").is_err());
    assert!(decode_bool("01").is_err());
}

#[test]
fn encode_bool_tokens() {
    assert_eq!(encode_bool(true), "1");
    assert_eq!(encode_bool(false), "0");
}

#[test]
fn decode_kind_accepts_only_long_labels() {
    assert_eq!(decode_kind("A (IPv4 address)"), Ok(HostOverrideType::A));
    assert_eq!(decode_kind("AAAA (IPv6 address)"), Ok(HostOverrideType::AAAA));
    assert_eq!(decode_kind("MX (Mail server)"), Ok(HostOverrideType::MX));
    // The short write-side vocabulary is not accepted on read.
    assert!(decode_kind("A").is_err());
    assert!(decode_kind("AAAA").is_err());
    assert!(decode_kind("MX").is_err());
    let err = decode_kind("TXT (Text record)").unwrap_err();
    assert_eq!(err.token, "TXT (Text record)");
}

#[test]
fn encode_kind_emits_only_short_labels() {
    assert_eq!(encode_kind(HostOverrideType::A), "A");
    assert_eq!(encode_kind(HostOverrideType::AAAA), "AAAA");
    assert_eq!(encode_kind(HostOverrideType::MX), "MX");
}

#[test]
fn kind_round_trip_changes_form() {
    for long in ["A (IPv4 address)", "AAAA (IPv6 address)", "MX (Mail server)"] {
        let kind = decode_kind(long).unwrap();
        assert_ne!(encode_kind(kind), long);
    }
}

#[test]
fn decode_status_running() {
    assert_eq!(decode_status("running").unwrap().status, StatusType::Running);
}

#[test]
fn decode_status_stopped() {
    assert_eq!(decode_status("stopped").unwrap().status, StatusType::Stopped);
}

#[test]
fn decode_status_rejects_unknown_token() {
    let err = decode_status("blahblah").unwrap_err();
    assert_eq!(err.token, "blahblah");
    assert!(decode_status("Running").is_err());
}

#[test]
fn decode_override_row_fields() {
    let row = decode_host_override_row(&raw_override_row("1", "A (IPv4 address)")).unwrap();
    assert_eq!(row.uuid, "some-uuid");
    assert!(row.enabled);
    assert_eq!(row.hostname, "hostname");
    assert_eq!(row.domain, "some-domain");
    assert_eq!(row.rr, HostOverrideType::A);
    assert_eq!(row.server, "127.0.0.1");
    assert_eq!(row.description, "some-description");
}

#[test]
fn decode_override_row_bad_bool() {
    let err = decode_host_override_row(&raw_override_row("2", "A (IPv4 address)")).unwrap_err();
    assert_eq!(err.token, "2");
}

#[test]
fn decode_override_row_bad_kind() {
    let err = decode_host_override_row(&raw_override_row("1", "A")).unwrap_err();
    assert_eq!(err.token, "A");
}

#[test]
fn decode_override_page() {
    let raw = RawHostOverride {
        rows: vec![
            raw_override_row("1", "A (IPv4 address)"),
            raw_override_row("0", "AAAA (IPv6 address)"),
        ],
        row_count: 2,
        total: 2,
        current: 1,
    };
    let page = decode_host_override(&raw).unwrap();
    assert_eq!(page.rows.len(), 2);
    assert!(page.rows[0].enabled);
    assert!(!page.rows[1].enabled);
    assert_eq!(page.rows[1].rr, HostOverrideType::AAAA);
    assert_eq!(page.row_count, 2);
    assert_eq!(page.total, 2);
    assert_eq!(page.current, 1);
}

#[test]
fn decode_override_page_fails_on_first_bad_row() {
    let raw = RawHostOverride {
        rows: vec![
            raw_override_row("1", "A (IPv4 address)"),
            raw_override_row("maybe", "A (IPv4 address)"),
            raw_override_row("1", "nonsense"),
        ],
        row_count: 3,
        total: 3,
        current: 1,
    };
    let err = decode_host_override(&raw).unwrap_err();
    assert_eq!(err.token, "maybe");
}

#[test]
fn decode_alias_row_fields() {
    let raw = RawHostAliasRow {
        uuid: "some-uuid".to_string(),
        enabled: "1".to_string(),
        host: "some-host".to_string(),
        hostname: "some-hostname".to_string(),
        domain: "some-domain".to_string(),
        description: "some-description".to_string(),
    };
    let row = decode_host_alias_row(&raw).unwrap();
    assert_eq!(row.uuid, "some-uuid");
    assert!(row.enabled);
    assert_eq!(row.host, "some-host");
    assert_eq!(row.hostname, "some-hostname");
    assert_eq!(row.domain, "some-domain");
    assert_eq!(row.description, "some-description");
}

#[test]
fn decode_alias_page() {
    let raw = RawHostAlias {
        rows: vec![RawHostAliasRow {
            uuid: "some-uuid".to_string(),
            enabled: "0".to_string(),
            host: "some-host".to_string(),
            hostname: "some-hostname".to_string(),
            domain: "some-domain".to_string(),
            description: "some-description".to_string(),
        }],
        row_count: 1,
        total: 1,
        current: 1,
    };
    let page = decode_host_alias(&raw).unwrap();
    assert_eq!(page.rows.len(), 1);
    assert!(!page.rows[0].enabled);
    assert_eq!(page.row_count, 1);
}

#[test]
fn decode_alias_page_fails_on_bad_bool() {
    let raw = RawHostAlias {
        rows: vec![RawHostAliasRow {
            uuid: "some-uuid".to_string(),
            enabled: "true".to_string(),
            host: "some-host".to_string(),
            hostname: "some-hostname".to_string(),
            domain: "some-domain".to_string(),
            description: "some-description".to_string(),
        }],
        row_count: 1,
        total: 1,
        current: 1,
    };
    let err = decode_host_alias(&raw).unwrap_err();
    assert_eq!(err.token, "true");
}

#[test]
fn encode_new_override_wire_form() {
    let new = NewHostOverride {
        enabled: true,
        hostname: "hostname".to_string(),
        domain: "domain".to_string(),
        rr: HostOverrideType::A,
        mxprio: "".to_string(),
        mx: "".to_string(),
        server: "server".to_string(),
        description: "description".to_string(),
    };
    let wire = encode_new_host_override(&new);
    assert_eq!(wire.enabled, "1");
    assert_eq!(wire.hostname, "hostname");
    assert_eq!(wire.domain, "domain");
    assert_eq!(wire.rr, "A");
    assert_eq!(wire.mxprio, "");
    assert_eq!(wire.mx, "");
    assert_eq!(wire.server, "server");
    assert_eq!(wire.description, "description");
}

#[test]
fn encode_new_alias_wire_form() {
    let new = NewHostAlias {
        description: "some-description".to_string(),
        domain: "some-domain".to_string(),
        enabled: false,
        hostname: "some-hostname".to_string(),
        host: "some-host-uuid".to_string(),
    };
    let wire = encode_new_host_alias(&new);
    assert_eq!(wire.enabled, "0");
    assert_eq!(wire.description, "some-description");
    assert_eq!(wire.domain, "some-domain");
    assert_eq!(wire.hostname, "some-hostname");
    assert_eq!(wire.host, "some-host-uuid");
}
