//! Client-side contract of the backend API: the fixed operation paths, the
//! Basic-Authentication header, URL composition with slash normalization,
//! and the classification of the backend's free-text write results into the
//! closed outcome taxonomy.
//!
//! The HTTP transport is a collaborator, not part of this layer: callers
//! send the composed requests and hand the parsed response envelopes back.

use vstd::prelude::*;

use crate::errors::ClientError;
use crate::models::{ApiResult, Uuid};
use crate::text::{str_eq, strip_leading, strip_trailing, trim_leading, trim_trailing};

verus! {

/// The named operations of the backend API.
#[derive(Debug, Clone, Copy, PartialEq, Eq, Structural)]
pub enum ApiEndpoint {
    UnboundServiceStatus,
    UnboundSearchHostOverrides,
    UnboundAddHostOverride,
    UnboundDelHostOverride,
    UnboundSearchHostAliases,
    UnboundAddHostAlias,
    UnboundDelHostAlias,
}

/// Fixed path of each operation under the backend's API root.
pub open spec fn endpoint_path(e: ApiEndpoint) -> Seq<char> {
    match e {
        ApiEndpoint::UnboundServiceStatus => "/api/unbound/service/status"@,
        ApiEndpoint::UnboundSearchHostOverrides => "/api/unbound/settings/searchHostOverride/"@,
        ApiEndpoint::UnboundAddHostOverride => "/api/unbound/settings/addHostOverride/"@,
        ApiEndpoint::UnboundDelHostOverride => "/api/unbound/settings/delHostOverride/"@,
        ApiEndpoint::UnboundSearchHostAliases => "/api/unbound/settings/searchHostAlias/"@,
        ApiEndpoint::UnboundAddHostAlias => "/api/unbound/settings/addHostAlias/"@,
        ApiEndpoint::UnboundDelHostAlias => "/api/unbound/settings/delHostAlias/"@,
    }
}

impl ApiEndpoint {
    /// The operation's path.
    pub fn path(self) -> (r: &'static str)
        ensures
            r@ == endpoint_path(self),
    {
        match self {
            ApiEndpoint::UnboundServiceStatus => "/api/unbound/service/status",
            ApiEndpoint::UnboundSearchHostOverrides => "/api/unbound/settings/searchHostOverride/",
            ApiEndpoint::UnboundAddHostOverride => "/api/unbound/settings/addHostOverride/",
            ApiEndpoint::UnboundDelHostOverride => "/api/unbound/settings/delHostOverride/",
            ApiEndpoint::UnboundSearchHostAliases => "/api/unbound/settings/searchHostAlias/",
            ApiEndpoint::UnboundAddHostAlias => "/api/unbound/settings/addHostAlias/",
            ApiEndpoint::UnboundDelHostAlias => "/api/unbound/settings/delHostAlias/",
        }
    }
}

/// The base64 encoding, standard alphabet with padding, of a string's UTF-8
/// bytes; a function of the characters alone.
pub uninterp spec fn base64_standard_of(s: Seq<char>) -> Seq<char>;

/// Relies on the `base64` crate: `Engine::encode` with the `STANDARD`
/// engine deterministically encodes the argument's bytes.  The length bound
/// keeps the encoded size within `usize`, where the call would panic.
#[verifier::external_body]
fn base64_encode(s: &str) -> (r: String)
    requires
        s@.len() <= usize::MAX as nat / 8,
    ensures
        r@ == base64_standard_of(s@),
{
    base64::Engine::encode(&base64::engine::general_purpose::STANDARD, s)
}

/// The key and secret of a credential pair, joined by a colon; a missing
/// half deliberately defaults to the empty string rather than failing.
pub open spec fn credential_pair(key: Option<Seq<char>>, secret: Option<Seq<char>>) -> Seq<char> {
    (match key {
        Some(k) => k,
        None => Seq::empty(),
    }) + seq![':'] + (match secret {
        Some(s) => s,
        None => Seq::empty(),
    })
}

/// Value of the Basic-Authentication header for a credential pair.
pub open spec fn basic_auth_header(key: Option<Seq<char>>, secret: Option<Seq<char>>) -> Seq<
    char,
> {
    "Basic "@ + base64_standard_of(credential_pair(key, secret))
}

/// An authenticated handle on one backend instance: its base URL, the
/// ready-made authentication header every request carries, and whether
/// certificate validation is to be bypassed.  All three are fixed at
/// construction.  The header value is sensitive and must never be logged.
#[derive(Debug, Clone)]
pub struct Opnsense {
    pub url: String,
    pub auth_header: String,
    pub insecure: bool,
}

impl Opnsense {
    /// Build a handle from the base URL, an optional key/secret pair and
    /// the certificate-trust flag.  The length bounds keep the encoded
    /// header within machine limits.
    pub fn new(
        url: &str,
        key: Option<String>,
        secret: Option<String>,
        danger_accept_invalid_certs: bool,
    ) -> (r: Opnsense)
        requires
            key matches Some(k) ==> k@.len() <= usize::MAX as nat / 32,
            secret matches Some(s) ==> s@.len() <= usize::MAX as nat / 32,
        ensures
            r.url@ == url@,
            r.auth_header@ == basic_auth_header(key.deep_view(), secret.deep_view()),
            r.insecure == danger_accept_invalid_certs,
    {
        let mut pair = String::new();
        match &key {
            Some(k) => pair.append(k.as_str()),
            None => {},
        }
        pair.append(":");
        match &secret {
            Some(s) => pair.append(s.as_str()),
            None => {},
        }
        proof {
            reveal_strlit(":");
            assert(pair@ =~= credential_pair(key.deep_view(), secret.deep_view()));
        }
        let encoded = base64_encode(pair.as_str());
        let mut auth_header = String::from_str("Basic ");
        auth_header.append(encoded.as_str());
        proof {
            assert(auth_header@ =~= basic_auth_header(key.deep_view(), secret.deep_view()));
        }
        Opnsense { url: String::from_str(url), auth_header, insecure: danger_accept_invalid_certs }
    }

    /// Join the base URL and an operation path with exactly one slash
    /// between them, whatever slashes either side carries.
    pub fn url(&self, endpoint: &str) -> (r: String)
        ensures
            r@ == composed_url(self.url@, endpoint@),
    {
        let base = strip_trailing(self.url.as_str(), '/');
        let path = strip_leading(endpoint, '/');
        let mut r = String::from_str(base);
        r.append("/");
        r.append(path);
        proof {
            reveal_strlit("/");
            assert(r@ =~= composed_url(self.url@, endpoint@));
        }
        r
    }

    /// URL of the delete-override operation for one uuid: the operation
    /// path with the uuid appended directly, no separator inserted.
    pub fn delete_host_override_url(&self, uuid: &str) -> (r: String)
        ensures
            r@ == composed_url(self.url@, endpoint_path(ApiEndpoint::UnboundDelHostOverride))
                + uuid@,
    {
        let mut r = self.url(ApiEndpoint::UnboundDelHostOverride.path());
        r.append(uuid);
        r
    }

    /// URL of the delete-alias operation for one uuid.
    pub fn delete_host_alias_url(&self, uuid: &str) -> (r: String)
        ensures
            r@ == composed_url(self.url@, endpoint_path(ApiEndpoint::UnboundDelHostAlias))
                + uuid@,
    {
        let mut r = self.url(ApiEndpoint::UnboundDelHostAlias.path());
        r.append(uuid);
        r
    }
}

/// A base URL and a path joined with exactly one slash.
pub open spec fn composed_url(base: Seq<char>, path: Seq<char>) -> Seq<char> {
    trim_trailing(base, '/') + seq!['/'] + trim_leading(path, '/')
}

/// The validation map of a result envelope, empty when the backend sent
/// none.
pub open spec fn spec_validations(v: Option<Vec<(String, String)>>) -> Seq<(String, String)> {
    match v {
        Some(m) => m@,
        None => Seq::empty(),
    }
}

/// Classify the result of an add operation.  Exactly the token `"saved"`
/// is success and must come with a uuid; a saved result without one is a
/// contract violation, and any other token is an operation failure that
/// carries the token and the validation map.
pub fn classify_add_result(parsed: &ApiResult) -> (r: Result<Uuid, ClientError>)
    ensures
        parsed.result@ == "saved"@ && parsed.uuid is Some ==> (r matches Ok(u) && u@
            == parsed.uuid->0@),
        parsed.result@ == "saved"@ && parsed.uuid is None ==> (r matches Err(e) && e
            is ContractViolation),
        parsed.result@ != "saved"@ ==> (r matches Err(e)
            && e matches ClientError::BackendOperationFailed { result, validations }
            && result@ == parsed.result@ && validations@ == spec_validations(parsed.validations)),
{
    if str_eq(parsed.result.as_str(), "saved") {
        match &parsed.uuid {
            Some(u) => Ok(u.clone()),
            None => Err(ClientError::ContractViolation),
        }
    } else {
        Err(failed_operation(parsed))
    }
}

/// Classify the result of a delete operation.  Exactly the token
/// `"deleted"` is success; anything else, `"not found"` included, is an
/// operation failure that carries the token and the validation map.
pub fn classify_delete_result(parsed: &ApiResult) -> (r: Result<(), ClientError>)
    ensures
        r is Ok <==> parsed.result@ == "deleted"@,
        r matches Err(e) ==> e matches ClientError::BackendOperationFailed { result, validations }
            && result@ == parsed.result@ && validations@ == spec_validations(parsed.validations),
{
    if str_eq(parsed.result.as_str(), "deleted") {
        Ok(())
    } else {
        Err(failed_operation(parsed))
    }
}

/// The failure outcome carrying a non-success result token and the
/// envelope's validation map.
fn failed_operation(parsed: &ApiResult) -> (r: ClientError)
    ensures
        r matches ClientError::BackendOperationFailed { result, validations } && result@
            == parsed.result@ && validations@ == spec_validations(parsed.validations),
{
    let validations: Vec<(String, String)> = match &parsed.validations {
        Some(m) => crate::text::clone_string_pairs(m),
        None => Vec::new(),
    };
    ClientError::BackendOperationFailed { result: parsed.result.clone(), validations }
}

} // verus!
