//! Typed entities of the backend's Unbound configuration API: host override
//! and host alias rows as read from searches, the write-side payload shapes,
//! the service status, and the generic result envelope of write operations.

use vstd::prelude::*;

verus! {

/// State of the Unbound service; the backend reports nothing besides these
/// two.
#[derive(Debug, Clone, Copy, PartialEq, Eq, Structural)]
pub enum StatusType {
    Running,
    Stopped,
}

/// Response body of the service status operation.
#[derive(Debug, Clone, Copy, PartialEq, Eq, Structural)]
pub struct Status {
    pub status: StatusType,
}

/// Kind of a host override record.
#[derive(Debug, Clone, Copy, PartialEq, Eq, Structural)]
pub enum HostOverrideType {
    A,
    AAAA,
    MX,
}

/// A host override row as the backend returns it from a search.
#[derive(Debug, Clone, PartialEq, Eq)]
pub struct HostOverrideRow {
    pub uuid: String,
    pub enabled: bool,
    pub hostname: String,
    pub domain: String,
    pub rr: HostOverrideType,
    pub server: String,
    pub description: String,
}

/// Mathematical image of a [`HostOverrideRow`].
pub ghost struct HostOverrideRowV {
    pub uuid: Seq<char>,
    pub enabled: bool,
    pub hostname: Seq<char>,
    pub domain: Seq<char>,
    pub rr: HostOverrideType,
    pub server: Seq<char>,
    pub description: Seq<char>,
}

impl View for HostOverrideRow {
    type V = HostOverrideRowV;

    open spec fn view(&self) -> HostOverrideRowV {
        HostOverrideRowV {
            uuid: self.uuid@,
            enabled: self.enabled,
            hostname: self.hostname@,
            domain: self.domain@,
            rr: self.rr,
            server: self.server@,
            description: self.description@,
        }
    }
}

impl DeepView for HostOverrideRow {
    type V = HostOverrideRowV;

    open spec fn deep_view(&self) -> HostOverrideRowV {
        self.view()
    }
}

/// A page of host override rows, with the paging counters the search
/// endpoint reports.
#[derive(Debug, Clone, PartialEq, Eq)]
pub struct HostOverride {
    pub rows: Vec<HostOverrideRow>,
    pub row_count: u64,
    pub total: u64,
    pub current: u64,
}

/// Payload for creating a host override.  The backend requires the mail
/// fields to be present, possibly empty, whatever the record kind.
#[derive(Debug, Clone)]
pub struct NewHostOverride {
    pub enabled: bool,
    pub hostname: String,
    pub domain: String,
    pub rr: HostOverrideType,
    pub mxprio: String,
    pub mx: String,
    pub server: String,
    pub description: String,
}

/// Mathematical image of a [`NewHostOverride`].
pub ghost struct NewHostOverrideV {
    pub enabled: bool,
    pub hostname: Seq<char>,
    pub domain: Seq<char>,
    pub rr: HostOverrideType,
    pub mxprio: Seq<char>,
    pub mx: Seq<char>,
    pub server: Seq<char>,
    pub description: Seq<char>,
}

impl View for NewHostOverride {
    type V = NewHostOverrideV;

    open spec fn view(&self) -> NewHostOverrideV {
        NewHostOverrideV {
            enabled: self.enabled,
            hostname: self.hostname@,
            domain: self.domain@,
            rr: self.rr,
            mxprio: self.mxprio@,
            mx: self.mx@,
            server: self.server@,
            description: self.description@,
        }
    }
}

impl DeepView for NewHostOverride {
    type V = NewHostOverrideV;

    open spec fn deep_view(&self) -> NewHostOverrideV {
        self.view()
    }
}

/// A host alias row as the backend returns it from a search.  `host` refers
/// to the uuid of the overridden host this alias points at.
#[derive(Debug, Clone, PartialEq, Eq)]
pub struct HostAliasRow {
    pub uuid: String,
    pub enabled: bool,
    pub host: String,
    pub hostname: String,
    pub domain: String,
    pub description: String,
}

/// Mathematical image of a [`HostAliasRow`].
pub ghost struct HostAliasRowV {
    pub uuid: Seq<char>,
    pub enabled: bool,
    pub host: Seq<char>,
    pub hostname: Seq<char>,
    pub domain: Seq<char>,
    pub description: Seq<char>,
}

impl View for HostAliasRow {
    type V = HostAliasRowV;

    open spec fn view(&self) -> HostAliasRowV {
        HostAliasRowV {
            uuid: self.uuid@,
            enabled: self.enabled,
            host: self.host@,
            hostname: self.hostname@,
            domain: self.domain@,
            description: self.description@,
        }
    }
}

impl DeepView for HostAliasRow {
    type V = HostAliasRowV;

    open spec fn deep_view(&self) -> HostAliasRowV {
        self.view()
    }
}

/// A page of host alias rows.
#[derive(Debug, Clone, PartialEq, Eq)]
pub struct HostAlias {
    pub rows: Vec<HostAliasRow>,
    pub row_count: u64,
    pub total: u64,
    pub current: u64,
}

/// Payload for creating a host alias.
#[derive(Debug, Clone)]
pub struct NewHostAlias {
    pub description: String,
    pub domain: String,
    pub enabled: bool,
    pub hostname: String,
    pub host: String,
}

/// Mathematical image of a [`NewHostAlias`].
pub ghost struct NewHostAliasV {
    pub description: Seq<char>,
    pub domain: Seq<char>,
    pub enabled: bool,
    pub hostname: Seq<char>,
    pub host: Seq<char>,
}

impl View for NewHostAlias {
    type V = NewHostAliasV;

    open spec fn view(&self) -> NewHostAliasV {
        NewHostAliasV {
            description: self.description@,
            domain: self.domain@,
            enabled: self.enabled,
            hostname: self.hostname@,
            host: self.host@,
        }
    }
}

impl DeepView for NewHostAlias {
    type V = NewHostAliasV;

    open spec fn deep_view(&self) -> NewHostAliasV {
        self.view()
    }
}

/// Identifier the backend assigns to a stored entity.
pub type Uuid = String;

/// Generic response of the backend's write operations: a free-text result
/// token, a uuid on successful creates, and a mapping of field path to
/// reason on validation failures.
#[derive(Debug, Clone)]
pub struct ApiResult {
    pub result: String,
    pub uuid: Option<Uuid>,
    pub validations: Option<Vec<(String, String)>>,
}

} // verus!
