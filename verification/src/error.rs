//! The error type shared by domain operations.

use crate::text::{append_str, int_text, u32_text};
use vstd::prelude::*;

verus! {

/// Error raised while parsing a dice formula.
#[derive(Debug, Clone, Copy, PartialEq, Eq, Structural)]
pub enum DiceParseError {
    /// The formula was empty.
    Empty,
}

impl DiceParseError {
    /// The message that describes this error.
    pub open spec fn spec_message(&self) -> Seq<char> {
        match self {
            DiceParseError::Empty => "Empty dice formula"@,
        }
    }

    /// The message that describes this error.
    pub fn message(&self) -> (s: String)
        ensures
            s@ == self.spec_message(),
    {
        match self {
            DiceParseError::Empty => "Empty dice formula".to_owned(),
        }
    }
}

/// Unified error type for domain operations.
#[derive(Debug, Clone, PartialEq, Eq)]
pub enum DomainError {
    /// Validation failed (e.g., invalid field values).
    Validation(String),
    /// Invalid ID format.
    InvalidId(String),
    /// Entity not found.
    NotFound { entity_type: &'static str, id: String },
    /// Business rule violation.
    Constraint(String),
    /// Parse error (for value objects).
    Parse(String),
    /// State transition not allowed.
    InvalidStateTransition(String),
    /// Container is at capacity.
    ContainerFull { current: u32, max: u32 },
}

impl DomainError {
    /// The human-readable text of this error.
    pub open spec fn spec_text(&self) -> Seq<char> {
        match self {
            DomainError::Validation(m) => "Validation failed: "@ + m@,
            DomainError::InvalidId(m) => "Invalid ID format: "@ + m@,
            DomainError::NotFound { entity_type, id } => "Entity not found: "@ + entity_type@
                + " with id "@ + id@,
            DomainError::Constraint(m) => "Constraint violation: "@ + m@,
            DomainError::Parse(m) => "Parse error: "@ + m@,
            DomainError::InvalidStateTransition(m) => "Invalid state transition: "@ + m@,
            DomainError::ContainerFull { current, max } => "Container full: "@ + int_text(
                *current as int,
            ) + "/"@ + int_text(*max as int) + " items"@,
        }
    }

    /// The human-readable text of this error.
    pub fn to_text(&self) -> (s: String)
        ensures
            s@ == self.spec_text(),
    {
        let mut s = String::new();
        match self {
            DomainError::Validation(m) => {
                append_str(&mut s, "Validation failed: ");
                append_str(&mut s, m.as_str());
            },
            DomainError::InvalidId(m) => {
                append_str(&mut s, "Invalid ID format: ");
                append_str(&mut s, m.as_str());
            },
            DomainError::NotFound { entity_type, id } => {
                append_str(&mut s, "Entity not found: ");
                append_str(&mut s, entity_type);
                append_str(&mut s, " with id ");
                append_str(&mut s, id.as_str());
            },
            DomainError::Constraint(m) => {
                append_str(&mut s, "Constraint violation: ");
                append_str(&mut s, m.as_str());
            },
            DomainError::Parse(m) => {
                append_str(&mut s, "Parse error: ");
                append_str(&mut s, m.as_str());
            },
            DomainError::InvalidStateTransition(m) => {
                append_str(&mut s, "Invalid state transition: ");
                append_str(&mut s, m.as_str());
            },
            DomainError::ContainerFull { current, max } => {
                append_str(&mut s, "Container full: ");
                let c = u32_text(*current);
                append_str(&mut s, c.as_str());
                append_str(&mut s, "/");
                let m = u32_text(*max);
                append_str(&mut s, m.as_str());
                append_str(&mut s, " items");
            },
        }
        assert(s@ =~= self.spec_text());
        s
    }

    /// A validation error.
    pub fn validation(msg: &str) -> (e: Self)
        ensures
            e matches DomainError::Validation(m) && m@ == msg@,
    {
        DomainError::Validation(msg.to_owned())
    }

    /// A not-found error for an entity of the given type.
    pub fn not_found(entity_type: &'static str, id: &str) -> (e: Self)
        ensures
            e matches DomainError::NotFound { entity_type: t, id: i } && t == entity_type && i@
                == id@,
    {
        DomainError::NotFound { entity_type, id: id.to_owned() }
    }

    /// A constraint-violation error.
    pub fn constraint(msg: &str) -> (e: Self)
        ensures
            e matches DomainError::Constraint(m) && m@ == msg@,
    {
        DomainError::Constraint(msg.to_owned())
    }

    /// An invalid-ID error.
    pub fn invalid_id(msg: &str) -> (e: Self)
        ensures
            e matches DomainError::InvalidId(m) && m@ == msg@,
    {
        DomainError::InvalidId(msg.to_owned())
    }

    /// A parse error.
    pub fn parse(msg: &str) -> (e: Self)
        ensures
            e matches DomainError::Parse(m) && m@ == msg@,
    {
        DomainError::Parse(msg.to_owned())
    }

    /// An invalid-state-transition error.
    pub fn invalid_state_transition(msg: &str) -> (e: Self)
        ensures
            e matches DomainError::InvalidStateTransition(m) && m@ == msg@,
    {
        DomainError::InvalidStateTransition(msg.to_owned())
    }

    /// A container-full error.
    pub fn container_full(current: u32, max: u32) -> (e: Self)
        ensures
            e == (DomainError::ContainerFull { current, max }),
    {
        DomainError::ContainerFull { current, max }
    }
}

impl From<DiceParseError> for DomainError {
    fn from(err: DiceParseError) -> (e: Self)
        ensures
            e matches DomainError::Parse(m) && m@ == err.spec_message(),
    {
        DomainError::Parse(err.message())
    }
}

impl vstd::std_specs::convert::FromSpecImpl<DiceParseError> for DomainError {
    open spec fn obeys_from_spec() -> bool {
        false
    }

    open spec fn from_spec(v: DiceParseError) -> DomainError {
        arbitrary()
    }
}

} // verus!
