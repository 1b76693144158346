//! Error taxonomy of the translation layer.  Every failure surfaces to the
//! immediate caller; nothing is suppressed or silently defaulted.

use vstd::prelude::*;

verus! {

/// A response field held a token outside its closed vocabulary, or a wire
/// value did not match the expected shape.  Carries the offending token.
#[derive(Debug, Clone, PartialEq, Eq)]
pub struct DecodeError {
    pub token: String,
}

/// A generic record's DNS name could not be split into hostname and domain.
#[derive(Debug, Clone, PartialEq, Eq)]
pub struct MappingError {
    pub dns_name: String,
}

/// What can go wrong in one backend interaction.
#[derive(Debug, Clone)]
pub enum ClientError {
    /// The transport failed before a response could be interpreted; carries
    /// the transport's own message verbatim.
    Transport(String),
    /// The response could not be decoded.
    Decode(DecodeError),
    /// A write returned a result token other than the operation's success
    /// token; carries that token and the validation map, empty when the
    /// backend sent none.
    BackendOperationFailed { result: String, validations: Vec<(String, String)> },
    /// The backend reported success but omitted data the contract requires,
    /// such as a create saved without a uuid.
    ContractViolation,
    /// A record intent could not be mapped onto a backend payload.
    Mapping(MappingError),
}

impl ClientError {
    /// Short label of the variant, for diagnostics.
    pub fn kind(&self) -> (r: &'static str)
        ensures
            r@ == match self {
                ClientError::Transport(_) => "transport error"@,
                ClientError::Decode(_) => "decode error"@,
                ClientError::BackendOperationFailed { .. } => "backend operation failed"@,
                ClientError::ContractViolation => "contract violation"@,
                ClientError::Mapping(_) => "mapping error"@,
            },
    {
        match self {
            ClientError::Transport(_) => "transport error",
            ClientError::Decode(_) => "decode error",
            ClientError::BackendOperationFailed { .. } => "backend operation failed",
            ClientError::ContractViolation => "contract violation",
            ClientError::Mapping(_) => "mapping error",
        }
    }
}

} // verus!
