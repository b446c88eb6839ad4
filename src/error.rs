use vstd::prelude::*;

verus! {

/// The ways a mission operation can be refused.
#[derive(Debug, Clone, Copy, PartialEq, Eq, Structural)]
pub enum MissionError {
    /// Malformed input, such as a mission name that is too short.
    ValidationError,
    /// A business rule refused the change: crew present, duplicate join.
    Conflict,
    /// A state machine guard failed.
    InvalidTransition,
    /// The mission does not exist, is soft-deleted, or a conditional write matched no row.
    NotFound,
    /// The store or the capacity configuration could not be used.
    Unavailable,
}

/// The message shown for each error.
pub open spec fn message_text(e: MissionError) -> Seq<char> {
    match e {
        MissionError::ValidationError => "name must be at least 4 characters"@,
        MissionError::Conflict => "mission already has crew, cannot edit"@,
        MissionError::InvalidTransition => "invalid condition to change stages"@,
        MissionError::NotFound => "mission not found"@,
        MissionError::Unavailable => "mission store unavailable"@,
    }
}

impl MissionError {
    /// Human readable message for the error.
    pub fn message(&self) -> (r: String)
        ensures
            r@ == message_text(*self),
    {
        match self {
            MissionError::ValidationError => String::from_str("name must be at least 4 characters"),
            MissionError::Conflict => String::from_str("mission already has crew, cannot edit"),
            MissionError::InvalidTransition => String::from_str("invalid condition to change stages"),
            MissionError::NotFound => String::from_str("mission not found"),
            MissionError::Unavailable => String::from_str("mission store unavailable"),
        }
    }
}

} // verus!
