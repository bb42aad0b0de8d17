//! The failures of the harness, and the class each backend report falls in.

use vstd::prelude::*;
use crate::backend::{BackendError, ColumnKind};

verus! {

/// A failure while the shape of a circuit is declared.
#[derive(Clone, Copy, Debug, PartialEq, Eq, Structural)]
pub enum StructuralError {
    /// The registry cannot count another column of this kind.
    ColumnLimit { kind: ColumnKind },
    /// The registry has declared no column of this kind at this position.
    ColumnMismatch { kind: ColumnKind, index: usize },
    /// The state width, the absorption rate and the message length of a
    /// circuit do not fit together.
    ShapeMismatch { width: usize, rate: usize, arity: usize },
}

/// A failure while witness values are placed into a region.
#[derive(Clone, Copy, Debug, PartialEq, Eq, Structural)]
pub enum AssignmentError {
    /// The cell already holds a value from this pass over the region.
    CellOccupied { column: usize, offset: usize },
    /// The offset lies beyond the rows the region may address.
    CapacityExceeded { offset: usize, capacity: usize },
    /// The circuit carries another number of inputs than its chip absorbs.
    ArityMismatch { expected: usize, found: usize },
    /// The backend turned the assignment down.
    Backend { report: BackendError },
}

/// The four classes of failure a proof session can end in.
#[derive(Clone, Copy, Debug, PartialEq, Eq, Structural)]
pub enum ErrorClass {
    /// Columns and registry do not match, during configuration or key
    /// generation.
    StructuralError,
    /// A cell was occupied, the table too small, or a value missing.
    AssignmentError,
    /// A gate does not vanish on the witness.
    ConstraintViolation,
    /// A commitment or the transcript did not check at verification.
    ProofVerificationError,
}

/// The operations of a proof session in which the backend can fail.
#[derive(Clone, Copy, Debug, PartialEq, Eq, Structural)]
pub enum Phase {
    /// Declaring columns and gates.
    Configure,
    /// Deriving the key pair.
    Keygen,
    /// Placing the witness.
    Synthesize,
    /// Creating the proof.
    Prove,
    /// Checking the proof.
    Verify,
}

/// The class of a backend report, by the phase it came up in.
///
/// Whatever the verifier reports is a failed verification. Before that, an
/// unsatisfied gate is a constraint violation; a missing witness, a table
/// that is too small and an index out of bounds are assignment failures;
/// every other report concerns the circuit's shape.
pub open spec fn class_of(phase: Phase, report: BackendError) -> ErrorClass {
    if phase == Phase::Verify {
        ErrorClass::ProofVerificationError
    } else {
        match report {
            BackendError::ConstraintSystemFailure => ErrorClass::ConstraintViolation,
            BackendError::Synthesis => ErrorClass::AssignmentError,
            BackendError::BoundsFailure => ErrorClass::AssignmentError,
            BackendError::NotEnoughRowsAvailable { .. } => ErrorClass::AssignmentError,
            BackendError::Opening => ErrorClass::ProofVerificationError,
            BackendError::Transcript => ErrorClass::ProofVerificationError,
            _ => ErrorClass::StructuralError,
        }
    }
}

/// Computes [`class_of`].
pub fn classify(phase: Phase, report: BackendError) -> (r: ErrorClass)
    ensures
        r == class_of(phase, report),
{
    match phase {
        Phase::Verify => ErrorClass::ProofVerificationError,
        _ => match report {
            BackendError::ConstraintSystemFailure => ErrorClass::ConstraintViolation,
            BackendError::Synthesis => ErrorClass::AssignmentError,
            BackendError::BoundsFailure => ErrorClass::AssignmentError,
            BackendError::NotEnoughRowsAvailable { .. } => ErrorClass::AssignmentError,
            BackendError::Opening => ErrorClass::ProofVerificationError,
            BackendError::Transcript => ErrorClass::ProofVerificationError,
            _ => ErrorClass::StructuralError,
        },
    }
}

impl AssignmentError {
    /// The class of this failure: an assignment failure, unless the backend
    /// reported something that [`class_of`] files elsewhere.
    pub open spec fn class(self) -> ErrorClass {
        match self {
            AssignmentError::Backend { report } => class_of(Phase::Synthesize, report),
            _ => ErrorClass::AssignmentError,
        }
    }

    /// Computes [`AssignmentError::class`].
    pub fn error_class(&self) -> (r: ErrorClass)
        ensures
            r == self.class(),
    {
        match self {
            AssignmentError::Backend { report } => classify(Phase::Synthesize, *report),
            _ => ErrorClass::AssignmentError,
        }
    }
}

} // verus!
