use vstd::prelude::*;

verus! {

/// The error of a filesystem operation (`std::io::Error`), carried through opaquely.
#[verifier::external_type_specification]
#[verifier::external_body]
pub struct ExIoError(std::io::Error);

/// The error of an encode or decode by `serde_json`, carried through opaquely.
#[verifier::external_type_specification]
#[verifier::external_body]
pub struct ExJsonError(serde_json::Error);

/// Why a persistence operation (`init`, `init_with`, the `save` family) failed.
pub enum PersistError {
    /// Opening, reading or writing the backing location failed.
    Io(std::io::Error),
    /// Encoding or decoding the protected value failed.
    Serde(serde_json::Error),
}

impl PersistError {
    /// Whether the failure came from the filesystem.
    pub fn is_io(&self) -> (r: bool)
        ensures
            r == (self is Io),
    {
        match self {
            PersistError::Io(_) => true,
            PersistError::Serde(_) => false,
        }
    }

    /// Whether the failure came from the codec.
    pub fn is_serde(&self) -> (r: bool)
        ensures
            r == (self is Serde),
    {
        match self {
            PersistError::Io(_) => false,
            PersistError::Serde(_) => true,
        }
    }
}

impl From<std::io::Error> for PersistError {
    fn from(e: std::io::Error) -> (r: PersistError)
        ensures
            r == PersistError::Io(e),
    {
        PersistError::Io(e)
    }
}

impl vstd::std_specs::convert::FromSpecImpl<std::io::Error> for PersistError {
    open spec fn obeys_from_spec() -> bool {
        true
    }

    open spec fn from_spec(e: std::io::Error) -> PersistError {
        PersistError::Io(e)
    }
}

impl From<serde_json::Error> for PersistError {
    fn from(e: serde_json::Error) -> (r: PersistError)
        ensures
            r == PersistError::Serde(e),
    {
        PersistError::Serde(e)
    }
}

impl vstd::std_specs::convert::FromSpecImpl<serde_json::Error> for PersistError {
    open spec fn obeys_from_spec() -> bool {
        true
    }

    open spec fn from_spec(e: serde_json::Error) -> PersistError {
        PersistError::Serde(e)
    }
}

} // verus!
