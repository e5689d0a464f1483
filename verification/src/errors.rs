//! Classified, descriptive error values.  The engine performs no recovery:
//! every error is fatal to the run, and carries the offending raw value or
//! the attempted identity so that a live-system mismatch can be diagnosed.

use vstd::prelude::*;

use crate::taxonomy::StatusOptType;

verus! {

/// A malformed unit name or an unrecognized status or type value.  Always
/// fatal: it signals that the service manager's vocabulary has drifted from
/// what this engine understands.
#[derive(Debug, Clone)]
pub enum ParseError {
    /// The unit name holds no `.` separator; carries the whole name.
    InvalidUnitName(String),
    /// The suffix after the last `.` is not a known unit type; carries the
    /// suffix.
    InvalidUnitType(String),
    /// A raw status value is not permitted at its tuple position; carries
    /// the axis of the position and the raw value.
    InvalidStatusValue { position: StatusOptType, value: String },
}

impl ParseError {
    /// A human-readable diagnostic naming the offending raw value.
    pub fn describe(&self) -> (r: String)
        ensures
            match self {
                ParseError::InvalidUnitName(n) => r@ == "error extracting unit type "@ + n@,
                ParseError::InvalidUnitType(t) => r@ == "invalid unit type "@ + t@,
                ParseError::InvalidStatusValue { position, value } => match position {
                    StatusOptType::Loaded => r@ == "invalid unit loaded state "@ + value@,
                    StatusOptType::Active => r@ == "invalid unit active state "@ + value@,
                    StatusOptType::Status => r@ == "invalid unit status "@ + value@,
                },
            },
    {
        match self {
            ParseError::InvalidUnitName(n) => String::from_str("error extracting unit type ").concat(
                n.as_str(),
            ),
            ParseError::InvalidUnitType(t) => String::from_str("invalid unit type ").concat(
                t.as_str(),
            ),
            ParseError::InvalidStatusValue { position, value } => match position {
                StatusOptType::Loaded => String::from_str("invalid unit loaded state ").concat(
                    value.as_str(),
                ),
                StatusOptType::Active => String::from_str("invalid unit active state ").concat(
                    value.as_str(),
                ),
                StatusOptType::Status => String::from_str("invalid unit status ").concat(
                    value.as_str(),
                ),
            },
        }
    }
}

/// Failure to resolve which identity should own the user-scope session when
/// the caller runs with the superuser's effective identity.
#[derive(Debug, Clone)]
pub enum ResolveError {
    /// No usable "original invoking identity" signal was present.
    CannotDetermineUid,
}

impl ResolveError {
    /// A human-readable diagnostic.
    pub fn describe(&self) -> (r: String)
        ensures
            r@ == "could not determine user uid"@,
    {
        String::from_str("could not determine user uid")
    }
}

} // verus!
