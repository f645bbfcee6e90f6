//! The single error type of the publish pipeline and its response statuses.
use vstd::prelude::*;

use crate::wire::DecodeError;

verus! {

/// Why a publish was refused.
#[derive(Debug)]
pub enum PublishError {
    /// Fewer than four bytes were sent; carries the number that were.
    TooShort(usize),
    /// The declared metadata length is zero, too large, or longer than the body.
    BadMetadataLength(usize),
    /// The declared content length does not match what follows it.
    InvalidBodyLength { need: usize, had: usize },
    /// The metadata block is not valid metadata; carries the field path and reason.
    Deserialize(String),
    /// Some non-development dependencies cannot be resolved; carries their names.
    UnmetDeps(Vec<String>),
    /// A dependency's version requirement does not parse; carries the requirement.
    BadRequirement(String),
    /// The package name is empty, so no storage location exists for it.
    EmptyName,
    /// Writing the content failed; carries the reason.
    StorageIO(String),
    /// The catalog failed; carries the reason.
    Database(String),
}

/// The HTTP status with which each error is reported.
pub open spec fn status_spec(e: PublishError) -> u16 {
    match e {
        PublishError::StorageIO(_) | PublishError::Database(_) | PublishError::BadRequirement(_)
        | PublishError::EmptyName => 500,
        _ => 400,
    }
}

impl PublishError {
    /// The HTTP status with which this error is reported.
    pub fn status_code(&self) -> (r: u16)
        ensures
            r == status_spec(*self),
    {
        match self {
            PublishError::StorageIO(_) => 500,
            PublishError::Database(_) => 500,
            PublishError::BadRequirement(_) => 500,
            PublishError::EmptyName => 500,
            _ => 400,
        }
    }
}

/// The publish error for a framing error.
pub open spec fn from_decode_spec(e: DecodeError) -> PublishError {
    match e {
        DecodeError::TooShort(n) => PublishError::TooShort(n),
        DecodeError::BadMetadataLength(n) => PublishError::BadMetadataLength(n),
        DecodeError::InvalidBodyLength { need, had } => PublishError::InvalidBodyLength {
            need,
            had,
        },
    }
}

impl From<DecodeError> for PublishError {
    fn from(e: DecodeError) -> PublishError {
        match e {
            DecodeError::TooShort(n) => PublishError::TooShort(n),
            DecodeError::BadMetadataLength(n) => PublishError::BadMetadataLength(n),
            DecodeError::InvalidBodyLength { need, had } => PublishError::InvalidBodyLength {
                need,
                had,
            },
        }
    }
}

impl vstd::std_specs::convert::FromSpecImpl<DecodeError> for PublishError {
    open spec fn obeys_from_spec() -> bool {
        true
    }

    open spec fn from_spec(v: DecodeError) -> PublishError {
        from_decode_spec(v)
    }
}

} // verus!
