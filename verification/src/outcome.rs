//! How an invocation ends: committed, or rejected at one of three stages.
//!
//! A rejection aborts the instruction and with it the enclosing transaction;
//! nothing is applied in part. A rejected invocation has no diagnostic line.

use vstd::prelude::*;
use crate::handlers::HandlerError;
use crate::instruction::DecodeError;
use crate::validator::ValidationError;

verus! {

/// The stages at which an invocation can fail.
#[derive(Clone, Copy, Debug, PartialEq, Eq, Structural)]
pub enum Stage {
    /// Turning the instruction bytes into an instruction.
    Decoding,
    /// Checking the supplied accounts against the instruction's schema.
    Validating,
    /// Running the handler.
    Executing,
}

/// Why an invocation was rejected. The variant says at which stage.
#[derive(Clone, Copy, Debug, PartialEq, Eq, Structural)]
pub enum Failure {
    /// The instruction bytes were malformed.
    Decode(DecodeError),
    /// The accounts did not fit the schema.
    Validate(ValidationError),
    /// The handler raised a failure.
    Execute(HandlerError),
}

/// The stage at which `failure` arose.
pub open spec fn stage_of(failure: Failure) -> Stage {
    match failure {
        Failure::Decode(_) => Stage::Decoding,
        Failure::Validate(_) => Stage::Validating,
        Failure::Execute(_) => Stage::Executing,
    }
}

impl Failure {
    /// The stage at which the failure arose.
    pub fn stage(&self) -> (stage: Stage)
        ensures
            stage == stage_of(*self),
    {
        match self {
            Failure::Decode(_) => Stage::Decoding,
            Failure::Validate(_) => Stage::Validating,
            Failure::Execute(_) => Stage::Executing,
        }
    }
}

/// The result of one invocation.
#[derive(Debug, PartialEq, Eq)]
pub enum Outcome {
    /// Every stage succeeded. `diagnostic` is the handler's line for the
    /// runtime's log.
    Committed { diagnostic: String },
    /// A stage failed; no handler effect took place.
    Rejected { failure: Failure },
}

/// An outcome as a mathematical value.
pub enum OutcomeView {
    Committed { diagnostic: Seq<char> },
    Rejected { failure: Failure },
}

impl View for Outcome {
    type V = OutcomeView;

    open spec fn view(&self) -> OutcomeView {
        match self {
            Outcome::Committed { diagnostic } => OutcomeView::Committed {
                diagnostic: diagnostic@,
            },
            Outcome::Rejected { failure } => OutcomeView::Rejected { failure: *failure },
        }
    }
}

impl Outcome {
    /// Whether the invocation was committed.
    pub fn is_committed(&self) -> (committed: bool)
        ensures
            committed == (self@ is Committed),
    {
        match self {
            Outcome::Committed { .. } => true,
            Outcome::Rejected { .. } => false,
        }
    }

    /// The diagnostic line, which only a committed invocation has.
    pub fn diagnostic(&self) -> (line: Option<&String>)
        ensures
            match self@ {
                OutcomeView::Committed { diagnostic } => line matches Some(text) && text@
                    == diagnostic,
                OutcomeView::Rejected { .. } => line is None,
            },
    {
        match self {
            Outcome::Committed { diagnostic } => Some(diagnostic),
            Outcome::Rejected { .. } => None,
        }
    }

    /// The failure, which only a rejected invocation has.
    pub fn failure(&self) -> (failure: Option<Failure>)
        ensures
            match self@ {
                OutcomeView::Committed { .. } => failure is None,
                OutcomeView::Rejected { failure: reason } => failure == Some(reason),
            },
    {
        match self {
            Outcome::Committed { .. } => None,
            Outcome::Rejected { failure } => Some(*failure),
        }
    }
}

} // verus!
