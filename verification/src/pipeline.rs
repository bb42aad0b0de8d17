//! The proving pipeline as a session: which operation comes next, and what
//! each outcome of the backend does to the session.
//!
//! The operations themselves (key generation, proof creation, proof
//! verification, the local satisfiability check) are the backend's and are
//! run by the caller; the session keeps their order and their bookkeeping.

use vstd::prelude::*;
use crate::backend::BackendError;
use crate::error::{class_of, classify, ErrorClass, Phase};

verus! {

/// What a session does with each instance.
#[derive(Clone, Copy, Debug, PartialEq, Eq, Structural)]
pub enum Mode {
    /// Checks locally that the witness satisfies every gate.
    Check,
    /// Derives a key pair once, then creates and verifies a proof.
    Prove,
}

/// Where a session stands.
#[derive(Clone, Copy, Debug, PartialEq, Eq, Structural)]
pub enum Stage {
    /// Nothing was derived yet.
    Fresh,
    /// The key pair is there, and no proof is outstanding.
    Keyed,
    /// A proof was created and awaits its verification.
    Proved,
    /// An operation failed; the session is over.
    Aborted,
}

/// The operation that a session asks for.
#[derive(Clone, Copy, Debug, PartialEq, Eq, Structural)]
pub enum Action {
    /// Check the next instance's witness against every gate.
    CheckWitness,
    /// Derive the key pair from a circuit without witnesses.
    Keygen,
    /// Create a proof for the next instance.
    CreateProof,
    /// Verify the outstanding proof.
    VerifyProof,
    /// Nothing: the session is over.
    Halt,
}

/// Why a session was aborted.
#[derive(Clone, Copy, Debug, PartialEq, Eq, Structural)]
pub struct Failure {
    /// The operation that failed.
    pub phase: Phase,
    /// The class of the failure.
    pub class: ErrorClass,
    /// What the backend reported.
    pub report: BackendError,
    /// How many gates and rows the local check found violated; zero for any
    /// other failure.
    pub violations: usize,
}

/// What the backend made of the operation that was asked for.
#[derive(Debug)]
pub enum Event {
    /// The local check found every gate satisfied.
    WitnessSatisfied,
    /// The local check found this many violations.
    WitnessViolated { violations: usize },
    /// The key pair was derived.
    KeysDerived,
    /// Key generation failed.
    KeygenFailed { report: BackendError },
    /// A proof was created; these are its bytes.
    ProofCreated { proof: Vec<u8> },
    /// Proof creation failed.
    ProvingFailed { report: BackendError },
    /// The outstanding proof was verified.
    ProofAccepted,
    /// The outstanding proof was turned down.
    ProofRejected { report: BackendError },
}

/// An event that the session did not ask for; the session ignores it.
#[derive(Clone, Copy, Debug, PartialEq, Eq, Structural)]
pub struct OutOfOrder {
    /// Where the session stood, and still stands.
    pub stage: Stage,
    /// What it had asked for.
    pub expected: Action,
}

/// A session as a value: its mode and stage, the bytes of the outstanding
/// proof (empty when none is outstanding), the number of instances that went
/// through, and the failure it ended in, if it did.
pub struct SessionView {
    pub mode: Mode,
    pub stage: Stage,
    pub proof: Seq<u8>,
    pub completed: nat,
    pub failure: Option<Failure>,
}

/// The operation that a session in the given mode and stage asks for.
pub open spec fn action_of(mode: Mode, stage: Stage) -> Action {
    match stage {
        Stage::Fresh => match mode {
            Mode::Check => Action::CheckWitness,
            Mode::Prove => Action::Keygen,
        },
        Stage::Keyed => Action::CreateProof,
        Stage::Proved => Action::VerifyProof,
        Stage::Aborted => Action::Halt,
    }
}

/// The operation that an event is the outcome of.
pub open spec fn answers(event: Event) -> Action {
    match event {
        Event::WitnessSatisfied => Action::CheckWitness,
        Event::WitnessViolated { .. } => Action::CheckWitness,
        Event::KeysDerived => Action::Keygen,
        Event::KeygenFailed { .. } => Action::Keygen,
        Event::ProofCreated { .. } => Action::CreateProof,
        Event::ProvingFailed { .. } => Action::CreateProof,
        Event::ProofAccepted => Action::VerifyProof,
        Event::ProofRejected { .. } => Action::VerifyProof,
    }
}

/// The failure that a backend report in a phase amounts to.
pub open spec fn failure_of(phase: Phase, report: BackendError) -> Failure {
    Failure { phase, class: class_of(phase, report), report, violations: 0 }
}

/// The session after it was aborted with `failure`: no proof stays
/// outstanding, and what went through before stays counted.
pub open spec fn aborted(s: SessionView, failure: Failure) -> SessionView {
    SessionView {
        mode: s.mode,
        stage: Stage::Aborted,
        proof: Seq::empty(),
        completed: s.completed,
        failure: Some(failure),
    }
}

/// One more instance than `n` went through; the count stops at the largest
/// `u64`.
pub open spec fn one_more(n: nat) -> nat {
    if n < u64::MAX {
        n + 1
    } else {
        n
    }
}

/// The session after an event that answers what it asked for.
///
/// A satisfied check counts the instance and leaves the session ready for the
/// next. Derived keys make the session keyed, once and for all. A created
/// proof is outstanding until it is verified; its acceptance counts the
/// instance, consumes the proof and leaves the keys for the next instance.
/// Every failure aborts the session.
pub open spec fn step(s: SessionView, event: Event) -> SessionView
    recommends
        answers(event) == action_of(s.mode, s.stage),
{
    match event {
        Event::WitnessSatisfied => SessionView { completed: one_more(s.completed), ..s },
        Event::WitnessViolated { violations } => aborted(
            s,
            Failure {
                phase: Phase::Synthesize,
                class: ErrorClass::ConstraintViolation,
                report: BackendError::ConstraintSystemFailure,
                violations,
            },
        ),
        Event::KeysDerived => SessionView { stage: Stage::Keyed, ..s },
        Event::KeygenFailed { report } => aborted(s, failure_of(Phase::Keygen, report)),
        Event::ProofCreated { proof } => SessionView { stage: Stage::Proved, proof: proof@, ..s },
        Event::ProvingFailed { report } => aborted(s, failure_of(Phase::Prove, report)),
        Event::ProofAccepted => SessionView {
            stage: Stage::Keyed,
            proof: Seq::empty(),
            completed: one_more(s.completed),
            ..s
        },
        Event::ProofRejected { report } => aborted(s, failure_of(Phase::Verify, report)),
    }
}

/// A proof session.
pub struct Session {
    mode: Mode,
    stage: Stage,
    proof: Vec<u8>,
    completed: u64,
    failure: Option<Failure>,
}

impl View for Session {
    type V = SessionView;

    closed spec fn view(&self) -> SessionView {
        SessionView {
            mode: self.mode,
            stage: self.stage,
            proof: self.proof@,
            completed: self.completed as nat,
            failure: self.failure,
        }
    }
}

impl Session {
    /// A session that has done nothing yet.
    pub fn new(mode: Mode) -> (r: Session)
        ensures
            r@ == (SessionView {
                mode,
                stage: Stage::Fresh,
                proof: Seq::empty(),
                completed: 0,
                failure: None,
            }),
    {
        Session { mode, stage: Stage::Fresh, proof: Vec::new(), completed: 0, failure: None }
    }

    /// What the session does with each instance.
    pub fn mode(&self) -> (r: Mode)
        ensures
            r == self@.mode,
    {
        self.mode
    }

    /// Where the session stands.
    pub fn stage(&self) -> (r: Stage)
        ensures
            r == self@.stage,
    {
        self.stage
    }

    /// The bytes of the outstanding proof; empty when none is outstanding.
    pub fn proof_bytes(&self) -> (r: &Vec<u8>)
        ensures
            r@ == self@.proof,
    {
        &self.proof
    }

    /// How many instances went through: witnesses checked, or proofs
    /// verified.
    pub fn completed(&self) -> (r: u64)
        ensures
            r == self@.completed,
    {
        self.completed
    }

    /// The failure the session ended in, if it did.
    pub fn failure(&self) -> (r: Option<Failure>)
        ensures
            r == self@.failure,
    {
        self.failure
    }

    /// The operation that the session asks for.
    pub fn next_action(&self) -> (r: Action)
        ensures
            r == action_of(self@.mode, self@.stage),
    {
        match self.stage {
            Stage::Fresh => match self.mode {
                Mode::Check => Action::CheckWitness,
                Mode::Prove => Action::Keygen,
            },
            Stage::Keyed => Action::CreateProof,
            Stage::Proved => Action::VerifyProof,
            Stage::Aborted => Action::Halt,
        }
    }

    /// Takes the outcome of an operation.
    ///
    /// An event that answers the operation the session asked for moves the
    /// session as [`step`] says, and the result is what it asks for next.
    /// Any other event is an error and leaves the session as it was.
    pub fn advance(&mut self, event: Event) -> (r: Result<Action, OutOfOrder>)
        ensures
            answers(event) == action_of(old(self)@.mode, old(self)@.stage) ==> {
                &&& final(self)@ == step(old(self)@, event)
                &&& r == Ok::<Action, OutOfOrder>(
                    action_of(final(self)@.mode, final(self)@.stage),
                )
            },
            answers(event) != action_of(old(self)@.mode, old(self)@.stage) ==> {
                &&& final(self)@ == old(self)@
                &&& r == Err::<Action, OutOfOrder>(
                    OutOfOrder {
                        stage: old(self)@.stage,
                        expected: action_of(old(self)@.mode, old(self)@.stage),
                    },
                )
            },
    {
        let expected = self.next_action();
        let refused = Err(OutOfOrder { stage: self.stage, expected });
        match event {
            Event::WitnessSatisfied => {
                if expected != Action::CheckWitness {
                    return refused;
                }
                self.count();
            },
            Event::WitnessViolated { violations } => {
                if expected != Action::CheckWitness {
                    return refused;
                }
                self.abort(
                    Failure {
                        phase: Phase::Synthesize,
                        class: ErrorClass::ConstraintViolation,
                        report: BackendError::ConstraintSystemFailure,
                        violations,
                    },
                );
            },
            Event::KeysDerived => {
                if expected != Action::Keygen {
                    return refused;
                }
                self.stage = Stage::Keyed;
            },
            Event::KeygenFailed { report } => {
                if expected != Action::Keygen {
                    return refused;
                }
                self.abort(Self::failure_in(Phase::Keygen, report));
            },
            Event::ProofCreated { proof } => {
                if expected != Action::CreateProof {
                    return refused;
                }
                self.proof = proof;
                self.stage = Stage::Proved;
            },
            Event::ProvingFailed { report } => {
                if expected != Action::CreateProof {
                    return refused;
                }
                self.abort(Self::failure_in(Phase::Prove, report));
            },
            Event::ProofAccepted => {
                if expected != Action::VerifyProof {
                    return refused;
                }
                self.proof = Vec::new();
                self.stage = Stage::Keyed;
                self.count();
            },
            Event::ProofRejected { report } => {
                if expected != Action::VerifyProof {
                    return refused;
                }
                self.abort(Self::failure_in(Phase::Verify, report));
            },
        }
        Ok(self.next_action())
    }

    /// The failure that a backend report in a phase amounts to.
    pub fn failure_in(phase: Phase, report: BackendError) -> (r: Failure)
        ensures
            r == failure_of(phase, report),
    {
        Failure { phase, class: classify(phase, report), report, violations: 0 }
    }

    fn count(&mut self)
        ensures
            final(self)@ == (SessionView { completed: one_more(old(self)@.completed), ..old(self)@ }),
    {
        if self.completed < u64::MAX {
            self.completed = self.completed + 1;
        }
    }

    fn abort(&mut self, failure: Failure)
        ensures
            final(self)@ == aborted(old(self)@, failure),
    {
        self.stage = Stage::Aborted;
        self.proof = Vec::new();
        self.failure = Some(failure);
    }
}

/// One key pair serves any number of instances: a keyed session that gets a
/// proof created and accepted is keyed again, with the same mode, one more
/// instance counted and no proof outstanding. So a second instance, and every
/// further one, is proved and verified without another key generation.
pub proof fn lemma_keys_are_reused(s: SessionView, first: Event, second: Event)
    requires
        s.stage == Stage::Keyed,
        first is ProofCreated,
        second is ProofAccepted,
    ensures
        action_of(s.mode, s.stage) == answers(first),
        action_of(step(s, first).mode, step(s, first).stage) == answers(second),
        step(step(s, first), second) == (SessionView {
            proof: Seq::empty(),
            completed: one_more(s.completed),
            ..s
        }),
        action_of(s.mode, step(step(s, first), second).stage) == Action::CreateProof,
{
}

/// A proof is consumed by its own verification and by nothing else: while it
/// is outstanding the session asks for its verification only, and whatever
/// the verifier answers, no proof is outstanding afterwards.
pub proof fn lemma_proof_is_consumed_once(s: SessionView, event: Event)
    requires
        s.stage == Stage::Proved,
        answers(event) == action_of(s.mode, s.stage),
    ensures
        event is ProofAccepted || event is ProofRejected,
        step(s, event).proof == Seq::<u8>::empty(),
        step(s, event).stage != Stage::Proved,
{
}

/// Every failure is terminal: a failed operation aborts the session with a
/// failure on record, and an aborted session asks for nothing more, so no
/// event moves it.
pub proof fn lemma_failure_is_terminal(s: SessionView, event: Event)
    requires
        answers(event) == action_of(s.mode, s.stage),
        event is WitnessViolated || event is KeygenFailed || event is ProvingFailed
            || event is ProofRejected,
    ensures
        step(s, event).stage == Stage::Aborted,
        step(s, event).failure is Some,
        step(s, event).completed == s.completed,
        action_of(step(s, event).mode, step(s, event).stage) == Action::Halt,
        forall|next: Event| answers(next) != Action::Halt,
{
    assert forall|next: Event| answers(next) != Action::Halt by {
        match next {
            Event::WitnessSatisfied => {},
            Event::WitnessViolated { .. } => {},
            Event::KeysDerived => {},
            Event::KeygenFailed { .. } => {},
            Event::ProofCreated { .. } => {},
            Event::ProvingFailed { .. } => {},
            Event::ProofAccepted => {},
            Event::ProofRejected { .. } => {},
        }
    }
}

/// Whatever the verifier reports against a proof is a failed verification,
/// never a partial acceptance: the instance is not counted.
pub proof fn lemma_rejection_is_verification_failure(s: SessionView, report: BackendError)
    requires
        s.stage == Stage::Proved,
    ensures
        step(s, Event::ProofRejected { report }).failure == Some(
            Failure {
                phase: Phase::Verify,
                class: ErrorClass::ProofVerificationError,
                report,
                violations: 0,
            },
        ),
        step(s, Event::ProofRejected { report }).completed == s.completed,
{
}

} // verus!
