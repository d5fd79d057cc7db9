//! Shared domain vocabulary: the voice's emotional tint and the domain's
//! error kinds.
use vstd::prelude::*;

verus! {

#[derive(Clone, Copy, Debug, PartialEq, Eq, Structural)]
pub enum EmotionTint {
    Neutral,
    Happy,
    Sad,
    Angry,
    Thinking,
}

#[derive(Debug)]
pub enum DomainError {
    Inference(String),
    InternalState(String),
    Timeout,
}

/// The human-readable text of an error.
pub open spec fn error_text(e: DomainError) -> Seq<char> {
    match e {
        DomainError::Inference(s) => "Inference failure: "@ + s@,
        DomainError::InternalState(s) => "State inconsistency: "@ + s@,
        DomainError::Timeout => "Command timeout"@,
    }
}

impl DomainError {
    /// The error's message, as it is shown to a user.
    pub fn message(&self) -> (m: String)
        ensures
            m@ == error_text(*self),
    {
        match self {
            DomainError::Inference(s) => {
                let mut m = String::from_str("Inference failure: ");
                m.append(s.as_str());
                m
            },
            DomainError::InternalState(s) => {
                let mut m = String::from_str("State inconsistency: ");
                m.append(s.as_str());
                m
            },
            DomainError::Timeout => String::from_str("Command timeout"),
        }
    }
}

} // verus!
