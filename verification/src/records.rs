//! The generic DNS record model spoken at the system boundary, and the
//! conversion of backend rows into it.  A record carries no backend uuid:
//! the boundary protocol is state-desired, not identifier-addressed.

use vstd::prelude::*;

use crate::models::{HostAliasRow, HostAliasRowV, HostOverrideRow, HostOverrideRowV};
use crate::text::{clone_strings, join_dns, join_hostname_and_domain};

verus! {

/// Domain filters announced to the consumer during negotiation.
#[derive(Debug, Clone)]
pub struct Filters {
    pub filters: Vec<String>,
}

impl Filters {
    /// Announce exactly the configured domains.
    pub fn new(domain: &Vec<String>) -> (r: Filters)
        ensures
            r.filters@ == domain@,
    {
        Filters { filters: clone_strings(domain) }
    }
}

/// Kind of a generic record.  Only these two are manageable: AAAA and MX
/// overrides exist in the backend but are read-through only.
#[derive(Debug, Clone, Copy, PartialEq, Eq, Structural)]
pub enum RecordType {
    CNAME,
    A,
}

/// Provider-specific metadata attached to an endpoint.
#[derive(Debug, Clone, PartialEq, Eq)]
pub struct ProviderSpecific {
    pub name: String,
    pub value: String,
}

/// An endpoint as the consumer's negotiation protocol shapes it.
#[derive(Debug, Clone, PartialEq, Eq)]
pub struct Endpoint {
    pub dns_name: String,
    pub targets: Vec<String>,
    pub record_type: RecordType,
    pub record_ttl: i64,
    pub labels: Vec<(String, String)>,
    pub provider_specifc: Vec<ProviderSpecific>,
}

/// Time-to-live every surfaced record carries; the backend stores no
/// equivalent, so the value is fixed.
pub const DEFAULT_RECORD_TTL: i64 = 60;

/// A generic DNS record: the interchange shape at the system boundary.
#[derive(Debug, Clone, PartialEq, Eq)]
pub struct Record {
    pub dns_name: String,
    pub targets: Vec<String>,
    pub record_type: RecordType,
    pub record_ttl: i64,
    pub labels: Option<Vec<(String, String)>>,
    pub provider_specific: Option<Vec<(String, String)>>,
}

/// Mathematical image of a [`Record`].
pub ghost struct RecordV {
    pub dns_name: Seq<char>,
    pub targets: Seq<Seq<char>>,
    pub record_type: RecordType,
    pub record_ttl: int,
    pub labels: Option<Seq<(Seq<char>, Seq<char>)>>,
    pub provider_specific: Option<Seq<(Seq<char>, Seq<char>)>>,
}

impl View for Record {
    type V = RecordV;

    open spec fn view(&self) -> RecordV {
        RecordV {
            dns_name: self.dns_name@,
            targets: self.targets.deep_view(),
            record_type: self.record_type,
            record_ttl: self.record_ttl as int,
            labels: self.labels.deep_view(),
            provider_specific: self.provider_specific.deep_view(),
        }
    }
}

impl DeepView for Record {
    type V = RecordV;

    open spec fn deep_view(&self) -> RecordV {
        self.view()
    }
}

/// One batch of record intents: four disjoint lists of creations, update
/// pairs and deletions.
#[derive(Debug, Clone)]
pub struct UpdateRecords {
    pub create: Vec<Record>,
    pub update_old: Vec<Record>,
    pub update_new: Vec<Record>,
    pub delete: Vec<Record>,
}

/// The generic record a host override row surfaces as: the joined DNS
/// name, the override's server as the single target, the fixed TTL, and no
/// metadata, the backend carrying none.
pub open spec fn override_record(row: HostOverrideRowV) -> RecordV {
    RecordV {
        dns_name: join_dns(row.hostname, row.domain),
        targets: seq![row.server],
        record_type: RecordType::A,
        record_ttl: DEFAULT_RECORD_TTL as int,
        labels: None,
        provider_specific: None,
    }
}

/// The generic record a host alias row surfaces as: the aliased override's
/// uuid stands as the target, unresolved by this layer.
pub open spec fn alias_record(row: HostAliasRowV) -> RecordV {
    RecordV {
        dns_name: join_dns(row.hostname, row.domain),
        targets: seq![row.host],
        record_type: RecordType::CNAME,
        record_ttl: DEFAULT_RECORD_TTL as int,
        labels: None,
        provider_specific: None,
    }
}

impl Record {
    /// Surface a host override row as a generic A record.
    pub fn from_host_override_row(row: &HostOverrideRow) -> (r: Record)
        ensures
            r@ == override_record(row@),
    {
        let mut targets: Vec<String> = Vec::new();
        targets.push(row.server.clone());
        let r = Record {
            dns_name: join_hostname_and_domain(row.hostname.as_str(), row.domain.as_str()),
            targets,
            record_type: RecordType::A,
            record_ttl: DEFAULT_RECORD_TTL,
            labels: None,
            provider_specific: None,
        };
        proof {
            assert(r@.targets =~= seq![row.server@]);
        }
        r
    }

    /// Surface a host alias row as a generic CNAME record.
    pub fn from_host_alias_row(row: &HostAliasRow) -> (r: Record)
        ensures
            r@ == alias_record(row@),
    {
        let mut targets: Vec<String> = Vec::new();
        targets.push(row.host.clone());
        let r = Record {
            dns_name: join_hostname_and_domain(row.hostname.as_str(), row.domain.as_str()),
            targets,
            record_type: RecordType::CNAME,
            record_ttl: DEFAULT_RECORD_TTL,
            labels: None,
            provider_specific: None,
        };
        proof {
            assert(r@.targets =~= seq![row.host@]);
        }
        r
    }
}

} // verus!
