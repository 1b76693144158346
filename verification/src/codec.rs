//! Wire codec of the backend API: boolean-as-string fields, the asymmetric
//! record-kind vocabulary (long labels on read, short labels on write), the
//! binary service status, and the row and payload shapes built from them.
//!
//! Decoding is strict: a token outside the closed vocabulary of its field
//! fails the decode, it never defaults.

use vstd::prelude::*;

use crate::errors::DecodeError;
use crate::models::{
    HostAlias, HostAliasRow, HostAliasRowV, HostOverride, HostOverrideRow, HostOverrideRowV,
    HostOverrideType, NewHostAlias, NewHostAliasV, NewHostOverride, NewHostOverrideV, Status,
    StatusType,
};
use crate::text::str_eq;

verus! {

/// Wire form of a boolean: `"1"` for true, `"0"` for false.
pub open spec fn bool_token(b: bool) -> Seq<char> {
    if b {
        "1"@
    } else {
        "0"@
    }
}

/// Decoding of a wire boolean; only the two canonical tokens are accepted.
pub open spec fn spec_decode_bool(s: Seq<char>) -> Option<bool> {
    if s == "1"@ {
        Some(true)
    } else if s == "0"@ {
        Some(false)
    } else {
        None
    }
}

/// Decode a backend boolean field.  `"1"` and `"0"` are the whole
/// vocabulary; anything else, `"true"` included, is an error.
pub fn decode_bool(s: &str) -> (r: Result<bool, DecodeError>)
    ensures
        r matches Ok(b) ==> spec_decode_bool(s@) == Some(b),
        r is Ok <==> spec_decode_bool(s@) is Some,
        r matches Err(e) ==> e.token@ == s@,
{
    if str_eq(s, "1") {
        Ok(true)
    } else if str_eq(s, "0") {
        Ok(false)
    } else {
        Err(DecodeError { token: String::from_str(s) })
    }
}

/// Encode a boolean for a write payload.
pub fn encode_bool(b: bool) -> (r: &'static str)
    ensures
        r@ == bool_token(b),
{
    if b {
        "1"
    } else {
        "0"
    }
}

/// Long, human-readable kind label the backend emits when reading.
pub open spec fn kind_long_label(k: HostOverrideType) -> Seq<char> {
    match k {
        HostOverrideType::A => "A (IPv4 address)"@,
        HostOverrideType::AAAA => "AAAA (IPv6 address)"@,
        HostOverrideType::MX => "MX (Mail server)"@,
    }
}

/// Short kind label the backend expects when writing.
pub open spec fn kind_short_label(k: HostOverrideType) -> Seq<char> {
    match k {
        HostOverrideType::A => "A"@,
        HostOverrideType::AAAA => "AAAA"@,
        HostOverrideType::MX => "MX"@,
    }
}

/// Decoding of a record kind from the long read-side vocabulary.
pub open spec fn spec_decode_kind(s: Seq<char>) -> Option<HostOverrideType> {
    if s == kind_long_label(HostOverrideType::A) {
        Some(HostOverrideType::A)
    } else if s == kind_long_label(HostOverrideType::AAAA) {
        Some(HostOverrideType::AAAA)
    } else if s == kind_long_label(HostOverrideType::MX) {
        Some(HostOverrideType::MX)
    } else {
        None
    }
}

/// Decode a record kind from the long labels the backend emits on read.
/// The short write-side labels are deliberately not accepted here: the two
/// directions use different vocabularies by backend design.
pub fn decode_kind(s: &str) -> (r: Result<HostOverrideType, DecodeError>)
    ensures
        r matches Ok(k) ==> spec_decode_kind(s@) == Some(k),
        r is Ok <==> spec_decode_kind(s@) is Some,
        r matches Err(e) ==> e.token@ == s@,
{
    if str_eq(s, "A (IPv4 address)") {
        Ok(HostOverrideType::A)
    } else if str_eq(s, "AAAA (IPv6 address)") {
        Ok(HostOverrideType::AAAA)
    } else if str_eq(s, "MX (Mail server)") {
        Ok(HostOverrideType::MX)
    } else {
        Err(DecodeError { token: String::from_str(s) })
    }
}

/// Encode a record kind for a write payload, in the short vocabulary.
pub fn encode_kind(k: HostOverrideType) -> (r: &'static str)
    ensures
        r@ == kind_short_label(k),
{
    match k {
        HostOverrideType::A => "A",
        HostOverrideType::AAAA => "AAAA",
        HostOverrideType::MX => "MX",
    }
}

/// A decoded kind re-encoded for writing never reproduces the long wire
/// form it was read from.
pub proof fn lemma_kind_decode_encode_changes_form(token: Seq<char>, k: HostOverrideType)
    requires
        spec_decode_kind(token) == Some(k),
    ensures
        kind_short_label(k) != token,
{
    reveal_strlit("A (IPv4 address)");
    reveal_strlit("AAAA (IPv6 address)");
    reveal_strlit("MX (Mail server)");
    reveal_strlit("A");
    reveal_strlit("AAAA");
    reveal_strlit("MX");
    assert(token == kind_long_label(k));
    assert(kind_short_label(k).len() != kind_long_label(k).len());
}

/// Wire form of a service status.
pub open spec fn status_token(st: StatusType) -> Seq<char> {
    match st {
        StatusType::Running => "running"@,
        StatusType::Stopped => "stopped"@,
    }
}

/// Decoding of a status token; the status is binary by contract.
pub open spec fn spec_decode_status(s: Seq<char>) -> Option<StatusType> {
    if s == status_token(StatusType::Running) {
        Some(StatusType::Running)
    } else if s == status_token(StatusType::Stopped) {
        Some(StatusType::Stopped)
    } else {
        None
    }
}

/// Decode the service status.  Exactly `"running"` and `"stopped"` are
/// accepted; an unknown token fails rather than degrade to either state.
pub fn decode_status(s: &str) -> (r: Result<Status, DecodeError>)
    ensures
        r matches Ok(st) ==> spec_decode_status(s@) == Some(st.status),
        r is Ok <==> spec_decode_status(s@) is Some,
        r matches Err(e) ==> e.token@ == s@,
{
    if str_eq(s, "running") {
        Ok(Status { status: StatusType::Running })
    } else if str_eq(s, "stopped") {
        Ok(Status { status: StatusType::Stopped })
    } else {
        Err(DecodeError { token: String::from_str(s) })
    }
}

/// A host override row as it stands on the wire, before its enumerated
/// fields are decoded.  Unknown wire fields are ignored upstream, not
/// rejected.
#[derive(Debug, Clone, PartialEq, Eq)]
pub struct RawHostOverrideRow {
    pub uuid: String,
    pub enabled: String,
    pub hostname: String,
    pub domain: String,
    pub rr: String,
    pub server: String,
    pub description: String,
}

/// Mathematical image of a [`RawHostOverrideRow`].
pub ghost struct RawHostOverrideRowV {
    pub uuid: Seq<char>,
    pub enabled: Seq<char>,
    pub hostname: Seq<char>,
    pub domain: Seq<char>,
    pub rr: Seq<char>,
    pub server: Seq<char>,
    pub description: Seq<char>,
}

impl View for RawHostOverrideRow {
    type V = RawHostOverrideRowV;

    open spec fn view(&self) -> RawHostOverrideRowV {
        RawHostOverrideRowV {
            uuid: self.uuid@,
            enabled: self.enabled@,
            hostname: self.hostname@,
            domain: self.domain@,
            rr: self.rr@,
            server: self.server@,
            description: self.description@,
        }
    }
}

/// A wire page of host override rows.
#[derive(Debug, Clone, PartialEq, Eq)]
pub struct RawHostOverride {
    pub rows: Vec<RawHostOverrideRow>,
    pub row_count: u64,
    pub total: u64,
    pub current: u64,
}

/// Decoding of one wire override row: both enumerated fields must decode,
/// every plain field is carried over unchanged.
pub open spec fn spec_decode_override_row(raw: RawHostOverrideRowV) -> Option<HostOverrideRowV> {
    match (spec_decode_bool(raw.enabled), spec_decode_kind(raw.rr)) {
        (Some(enabled), Some(rr)) => Some(
            HostOverrideRowV {
                uuid: raw.uuid,
                enabled,
                hostname: raw.hostname,
                domain: raw.domain,
                rr,
                server: raw.server,
                description: raw.description,
            },
        ),
        _ => None,
    }
}

/// The token a failing override row decode reports: the boolean field is
/// examined before the kind field.
pub open spec fn spec_override_row_error_token(raw: RawHostOverrideRowV) -> Seq<char> {
    if spec_decode_bool(raw.enabled) is None {
        raw.enabled
    } else {
        raw.rr
    }
}

/// Decode one host override row.
pub fn decode_host_override_row(raw: &RawHostOverrideRow) -> (r: Result<
    HostOverrideRow,
    DecodeError,
>)
    ensures
        r matches Ok(row) ==> spec_decode_override_row(raw@) == Some(row@),
        r is Ok <==> spec_decode_override_row(raw@) is Some,
        r matches Err(e) ==> e.token@ == spec_override_row_error_token(raw@),
{
    let enabled = match decode_bool(raw.enabled.as_str()) {
        Ok(b) => b,
        Err(e) => {
            return Err(e);
        },
    };
    let rr = match decode_kind(raw.rr.as_str()) {
        Ok(k) => k,
        Err(e) => {
            return Err(e);
        },
    };
    Ok(
        HostOverrideRow {
            uuid: raw.uuid.clone(),
            enabled,
            hostname: raw.hostname.clone(),
            domain: raw.domain.clone(),
            rr,
            server: raw.server.clone(),
            description: raw.description.clone(),
        },
    )
}

/// Decode a page of host override rows.  The first row whose enumerated
/// fields do not decode fails the whole page; the counters are carried
/// over unchanged.
pub fn decode_host_override(raw: &RawHostOverride) -> (r: Result<HostOverride, DecodeError>)
    ensures
        r matches Ok(page) ==> {
            &&& page.rows@.len() == raw.rows@.len()
            &&& forall|j: int|
                0 <= j < raw.rows@.len() ==> spec_decode_override_row(#[trigger] raw.rows@[j]@)
                    == Some(page.rows@[j]@)
            &&& page.row_count == raw.row_count
            &&& page.total == raw.total
            &&& page.current == raw.current
        },
        r is Ok <==> forall|j: int|
            0 <= j < raw.rows@.len() ==> spec_decode_override_row(#[trigger] raw.rows@[j]@) is Some,
        r matches Err(e) ==> exists|j: int|
            {
                &&& 0 <= j < raw.rows@.len()
                &&& spec_decode_override_row(#[trigger] raw.rows@[j]@) is None
                &&& forall|l: int|
                    0 <= l < j ==> spec_decode_override_row(#[trigger] raw.rows@[l]@) is Some
                &&& e.token@ == spec_override_row_error_token(raw.rows@[j]@)
            },
{
    let mut rows: Vec<HostOverrideRow> = Vec::new();
    let mut i: usize = 0;
    while i < raw.rows.len()
        invariant
            i <= raw.rows@.len(),
            rows@.len() == i,
            forall|j: int|
                0 <= j < i ==> spec_decode_override_row(#[trigger] raw.rows@[j]@) == Some(
                    rows@[j]@,
                ),
        decreases raw.rows@.len() - i,
    {
        match decode_host_override_row(&raw.rows[i]) {
            Ok(row) => rows.push(row),
            Err(e) => {
                return Err(e);
            },
        }
        i = i + 1;
    }
    Ok(
        HostOverride {
            rows,
            row_count: raw.row_count,
            total: raw.total,
            current: raw.current,
        },
    )
}

/// A host alias row as it stands on the wire.
#[derive(Debug, Clone, PartialEq, Eq)]
pub struct RawHostAliasRow {
    pub uuid: String,
    pub enabled: String,
    pub host: String,
    pub hostname: String,
    pub domain: String,
    pub description: String,
}

/// Mathematical image of a [`RawHostAliasRow`].
pub ghost struct RawHostAliasRowV {
    pub uuid: Seq<char>,
    pub enabled: Seq<char>,
    pub host: Seq<char>,
    pub hostname: Seq<char>,
    pub domain: Seq<char>,
    pub description: Seq<char>,
}

impl View for RawHostAliasRow {
    type V = RawHostAliasRowV;

    open spec fn view(&self) -> RawHostAliasRowV {
        RawHostAliasRowV {
            uuid: self.uuid@,
            enabled: self.enabled@,
            host: self.host@,
            hostname: self.hostname@,
            domain: self.domain@,
            description: self.description@,
        }
    }
}

/// A wire page of host alias rows.
#[derive(Debug, Clone, PartialEq, Eq)]
pub struct RawHostAlias {
    pub rows: Vec<RawHostAliasRow>,
    pub row_count: u64,
    pub total: u64,
    pub current: u64,
}

/// Decoding of one wire alias row: only the boolean field is enumerated.
pub open spec fn spec_decode_alias_row(raw: RawHostAliasRowV) -> Option<HostAliasRowV> {
    match spec_decode_bool(raw.enabled) {
        Some(enabled) => Some(
            HostAliasRowV {
                uuid: raw.uuid,
                enabled,
                host: raw.host,
                hostname: raw.hostname,
                domain: raw.domain,
                description: raw.description,
            },
        ),
        None => None,
    }
}

/// Decode one host alias row.
pub fn decode_host_alias_row(raw: &RawHostAliasRow) -> (r: Result<HostAliasRow, DecodeError>)
    ensures
        r matches Ok(row) ==> spec_decode_alias_row(raw@) == Some(row@),
        r is Ok <==> spec_decode_alias_row(raw@) is Some,
        r matches Err(e) ==> e.token@ == raw.enabled@,
{
    let enabled = match decode_bool(raw.enabled.as_str()) {
        Ok(b) => b,
        Err(e) => {
            return Err(e);
        },
    };
    Ok(
        HostAliasRow {
            uuid: raw.uuid.clone(),
            enabled,
            host: raw.host.clone(),
            hostname: raw.hostname.clone(),
            domain: raw.domain.clone(),
            description: raw.description.clone(),
        },
    )
}

/// Decode a page of host alias rows.
pub fn decode_host_alias(raw: &RawHostAlias) -> (r: Result<HostAlias, DecodeError>)
    ensures
        r matches Ok(page) ==> {
            &&& page.rows@.len() == raw.rows@.len()
            &&& forall|j: int|
                0 <= j < raw.rows@.len() ==> spec_decode_alias_row(#[trigger] raw.rows@[j]@)
                    == Some(page.rows@[j]@)
            &&& page.row_count == raw.row_count
            &&& page.total == raw.total
            &&& page.current == raw.current
        },
        r is Ok <==> forall|j: int|
            0 <= j < raw.rows@.len() ==> spec_decode_alias_row(#[trigger] raw.rows@[j]@) is Some,
        r matches Err(e) ==> exists|j: int|
            {
                &&& 0 <= j < raw.rows@.len()
                &&& spec_decode_alias_row(#[trigger] raw.rows@[j]@) is None
                &&& forall|l: int|
                    0 <= l < j ==> spec_decode_alias_row(#[trigger] raw.rows@[l]@) is Some
                &&& e.token@ == raw.rows@[j]@.enabled
            },
{
    let mut rows: Vec<HostAliasRow> = Vec::new();
    let mut i: usize = 0;
    while i < raw.rows.len()
        invariant
            i <= raw.rows@.len(),
            rows@.len() == i,
            forall|j: int|
                0 <= j < i ==> spec_decode_alias_row(#[trigger] raw.rows@[j]@) == Some(rows@[j]@),
        decreases raw.rows@.len() - i,
    {
        match decode_host_alias_row(&raw.rows[i]) {
            Ok(row) => rows.push(row),
            Err(e) => {
                return Err(e);
            },
        }
        i = i + 1;
    }
    Ok(
        HostAlias {
            rows,
            row_count: raw.row_count,
            total: raw.total,
            current: raw.current,
        },
    )
}

/// Write-side wire form of a new host override: every field a string, the
/// boolean and the kind already encoded.
#[derive(Debug, Clone, PartialEq, Eq)]
pub struct WireNewHostOverride {
    pub enabled: String,
    pub hostname: String,
    pub domain: String,
    pub rr: String,
    pub mxprio: String,
    pub mx: String,
    pub server: String,
    pub description: String,
}

/// Mathematical image of a [`WireNewHostOverride`].
pub ghost struct WireNewHostOverrideV {
    pub enabled: Seq<char>,
    pub hostname: Seq<char>,
    pub domain: Seq<char>,
    pub rr: Seq<char>,
    pub mxprio: Seq<char>,
    pub mx: Seq<char>,
    pub server: Seq<char>,
    pub description: Seq<char>,
}

impl View for WireNewHostOverride {
    type V = WireNewHostOverrideV;

    open spec fn view(&self) -> WireNewHostOverrideV {
        WireNewHostOverrideV {
            enabled: self.enabled@,
            hostname: self.hostname@,
            domain: self.domain@,
            rr: self.rr@,
            mxprio: self.mxprio@,
            mx: self.mx@,
            server: self.server@,
            description: self.description@,
        }
    }
}

/// Encoding of a new host override: the boolean to its token, the kind to
/// its short label, every other field verbatim.
pub open spec fn spec_encode_new_override(n: NewHostOverrideV) -> WireNewHostOverrideV {
    WireNewHostOverrideV {
        enabled: bool_token(n.enabled),
        hostname: n.hostname,
        domain: n.domain,
        rr: kind_short_label(n.rr),
        mxprio: n.mxprio,
        mx: n.mx,
        server: n.server,
        description: n.description,
    }
}

/// Encode a new host override for writing.
pub fn encode_new_host_override(n: &NewHostOverride) -> (w: WireNewHostOverride)
    ensures
        w@ == spec_encode_new_override(n@),
{
    WireNewHostOverride {
        enabled: String::from_str(encode_bool(n.enabled)),
        hostname: n.hostname.clone(),
        domain: n.domain.clone(),
        rr: String::from_str(encode_kind(n.rr)),
        mxprio: n.mxprio.clone(),
        mx: n.mx.clone(),
        server: n.server.clone(),
        description: n.description.clone(),
    }
}

/// Write-side wire form of a new host alias.
#[derive(Debug, Clone, PartialEq, Eq)]
pub struct WireNewHostAlias {
    pub description: String,
    pub domain: String,
    pub enabled: String,
    pub hostname: String,
    pub host: String,
}

/// Mathematical image of a [`WireNewHostAlias`].
pub ghost struct WireNewHostAliasV {
    pub description: Seq<char>,
    pub domain: Seq<char>,
    pub enabled: Seq<char>,
    pub hostname: Seq<char>,
    pub host: Seq<char>,
}

impl View for WireNewHostAlias {
    type V = WireNewHostAliasV;

    open spec fn view(&self) -> WireNewHostAliasV {
        WireNewHostAliasV {
            description: self.description@,
            domain: self.domain@,
            enabled: self.enabled@,
            hostname: self.hostname@,
            host: self.host@,
        }
    }
}

/// Encoding of a new host alias: the boolean to its token, every other
/// field verbatim.
pub open spec fn spec_encode_new_alias(n: NewHostAliasV) -> WireNewHostAliasV {
    WireNewHostAliasV {
        description: n.description,
        domain: n.domain,
        enabled: bool_token(n.enabled),
        hostname: n.hostname,
        host: n.host,
    }
}

/// Encode a new host alias for writing.
pub fn encode_new_host_alias(n: &NewHostAlias) -> (w: WireNewHostAlias)
    ensures
        w@ == spec_encode_new_alias(n@),
{
    WireNewHostAlias {
        description: n.description.clone(),
        domain: n.domain.clone(),
        enabled: String::from_str(encode_bool(n.enabled)),
        hostname: n.hostname.clone(),
        host: n.host.clone(),
    }
}

} // verus!
