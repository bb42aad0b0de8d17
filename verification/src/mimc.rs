//! A circuit for a single-column iterated permutation in the style of MiMC:
//! one private message and the hash it is claimed to have.

use vstd::prelude::*;
use crate::backend::{ColumnKind, RawCell};
use crate::error::{AssignmentError, StructuralError};
use crate::felt::Felt;
use crate::region::{offer, refusal_of, Cell, Limb, WitnessRegion};
use crate::registry::{AdviceColumn, FixedColumn, Registry};

verus! {

/// The table size of the circuit: `2^LOG2_NUM_ROWS` rows.
pub const LOG2_NUM_ROWS: u32 = 7;

/// The columns of the circuit: one for the message and the expected hash, and
/// the permutation chip's state and round-constant columns.
#[derive(Clone, Copy, Debug)]
pub struct MiMC5HashCircuitConfig {
    pub input: AdviceColumn,
    pub state: AdviceColumn,
    pub round_constants: FixedColumn,
}

/// An instance of the circuit.
#[derive(Clone, Copy, Debug)]
pub struct MiMC5HashPallasCircuit {
    pub message: Felt,
    pub message_hash: Felt,
}

impl Default for MiMC5HashPallasCircuit {
    /// The instance whose message and hash are both zero.
    fn default() -> (r: MiMC5HashPallasCircuit)
        ensures
            r.message.limbs@ == seq![0u64, 0u64, 0u64, 0u64],
            r.message_hash.limbs@ == seq![0u64, 0u64, 0u64, 0u64],
    {
        MiMC5HashPallasCircuit { message: Felt::zero(), message_hash: Felt::zero() }
    }
}

impl MiMC5HashPallasCircuit {
    /// An instance of the same shape that holds no secret: message and hash
    /// are both zero.
    pub fn without_witnesses(&self) -> (r: MiMC5HashPallasCircuit)
        ensures
            r.message.limbs@ == seq![0u64, 0u64, 0u64, 0u64],
            r.message_hash.limbs@ == seq![0u64, 0u64, 0u64, 0u64],
    {
        MiMC5HashPallasCircuit { message: Felt::zero(), message_hash: Felt::zero() }
    }

    /// Declares the circuit's columns: the input column, with equality
    /// enabled on it, then the chip's state column, which take the next two
    /// advice positions, and the round-constant column, which takes the next
    /// fixed position.
    ///
    /// Fails, and leaves the registry as it was, only when the count of
    /// advice columns has no room for two more, or else the count of fixed
    /// columns for one more.
    pub fn configure(registry: &mut Registry) -> (r: Result<
        MiMC5HashCircuitConfig,
        StructuralError,
    >)
        requires
            old(registry).wf(),
        ensures
            final(registry).wf(),
            final(registry).count(ColumnKind::Instance) == old(registry).count(
                ColumnKind::Instance,
            ),
            match r {
                Ok(config) => {
                    &&& old(registry).count(ColumnKind::Advice) + 2 <= usize::MAX
                    &&& old(registry).count(ColumnKind::Fixed) + 1 <= usize::MAX
                    &&& config.input.position() == old(registry).count(ColumnKind::Advice)
                    &&& config.state.position() == old(registry).count(ColumnKind::Advice) + 1
                    &&& config.round_constants.position() == old(registry).count(ColumnKind::Fixed)
                    &&& final(registry).count(ColumnKind::Advice) == old(registry).count(
                        ColumnKind::Advice,
                    ) + 2
                    &&& final(registry).count(ColumnKind::Fixed) == old(registry).count(
                        ColumnKind::Fixed,
                    ) + 1
                    &&& final(registry).equality() == old(registry).equality().insert(
                        config.input.id(),
                    )
                },
                Err(e) => {
                    &&& e == (StructuralError::ColumnLimit {
                        kind: if old(registry).count(ColumnKind::Advice) + 2 > usize::MAX {
                            ColumnKind::Advice
                        } else {
                            ColumnKind::Fixed
                        },
                    })
                    &&& old(registry).count(ColumnKind::Advice) + 2 > usize::MAX
                        || old(registry).count(ColumnKind::Fixed) + 1 > usize::MAX
                    &&& final(registry).count(ColumnKind::Advice) == old(registry).count(
                        ColumnKind::Advice,
                    )
                    &&& final(registry).count(ColumnKind::Fixed) == old(registry).count(
                        ColumnKind::Fixed,
                    )
                    &&& final(registry).equality() == old(registry).equality()
                },
            },
    {
        if registry.columns(ColumnKind::Advice) > usize::MAX - 2 {
            return Err(StructuralError::ColumnLimit { kind: ColumnKind::Advice });
        }
        if registry.columns(ColumnKind::Fixed) > usize::MAX - 1 {
            return Err(StructuralError::ColumnLimit { kind: ColumnKind::Fixed });
        }
        let input = match registry.advice_column() {
            Ok(column) => column,
            Err(e) => {
                return Err(e);
            },
        };
        match registry.enable_equality_advice(&input) {
            Ok(()) => {},
            Err(e) => {
                return Err(e);
            },
        }
        let state = match registry.advice_column() {
            Ok(column) => column,
            Err(e) => {
                return Err(e);
            },
        };
        let round_constants = match registry.fixed_column() {
            Ok(column) => column,
            Err(e) => {
                return Err(e);
            },
        };
        Ok(MiMC5HashCircuitConfig { input, state, round_constants })
    }

    /// Places the message at row 0 of the input column, for the permutation
    /// chip to hash.
    ///
    /// Fails, and places nothing, with the region's refusal of that cell if
    /// there is one, or else with the backend's report. The backend is
    /// offered the cell with the message unless the region refuses it, and
    /// the handle carries the cell that the backend handed out for the offer.
    /// No constraint is asked for.
    pub fn load_message(&self, config: &MiMC5HashCircuitConfig, region: &mut WitnessRegion<'_>) -> (r:
        Result<Limb, AssignmentError>)
        requires
            old(region).wf(),
        ensures
            final(region).wf(),
            final(region).capacity() == old(region).capacity(),
            final(region).grew_from(old(region)),
            final(region).offers() == match refusal_of(
                old(region).ledger(),
                old(region).capacity(),
                Cell { column: config.input.position(), offset: 0 },
            ) {
                Some(_) => old(region).offers(),
                None => old(region).offers().push(
                    offer(Cell { column: config.input.position(), offset: 0 }, Some(self.message)),
                ),
            },
            match r {
                Ok(limb) => {
                    &&& limb.value == Some(self.message)
                    &&& limb.cell == final(region).cells_out().last()
                    &&& limb.at == (Cell { column: config.input.position(), offset: 0 })
                    &&& final(region).ledger() == old(region).ledger().push(limb.at)
                    &&& refusal_of(old(region).ledger(), old(region).capacity(), limb.at) is None
                },
                Err(e) => {
                    &&& final(region).ledger() == old(region).ledger()
                    &&& match refusal_of(
                        old(region).ledger(),
                        old(region).capacity(),
                        Cell { column: config.input.position(), offset: 0 },
                    ) {
                        Some(refusal) => e == refusal,
                        None => e is Backend,
                    }
                },
            },
    {
        region.assign(&config.input, 0, Some(self.message))
    }

    /// Places the expected hash at row 0 of the input column and asks the
    /// backend to constrain the cell that the permutation chip computed equal
    /// to it.
    ///
    /// A cell that the region refuses fails with that refusal, and the
    /// backend's region is not touched. Otherwise the backend is offered the
    /// cell with the expected hash. If it takes the cell, it is asked, once,
    /// to tie `computed` to the cell it handed out, and to nothing else; if
    /// it turns the cell down, no tie is asked for. The call succeeds when
    /// the backend grants both, and fails with its report otherwise.
    ///
    /// The layouter behind the region must know the region of `computed`.
    pub fn constrain_output(
        &self,
        config: &MiMC5HashCircuitConfig,
        region: &mut WitnessRegion<'_>,
        computed: &RawCell,
    ) -> (r: Result<Limb, AssignmentError>)
        requires
            old(region).wf(),
            old(region).knows(*computed),
        ensures
            final(region).wf(),
            final(region).capacity() == old(region).capacity(),
            final(region).regions() == old(region).regions(),
            match refusal_of(
                old(region).ledger(),
                old(region).capacity(),
                Cell { column: config.input.position(), offset: 0 },
            ) {
                Some(refusal) => {
                    &&& r is Err
                    &&& r->Err_0 == refusal
                    &&& final(region).ledger() == old(region).ledger()
                    &&& final(region).backend() == old(region).backend()
                },
                None => {
                    &&& final(region).offers() == old(region).offers().push(
                        offer(
                            Cell { column: config.input.position(), offset: 0 },
                            Some(self.message_hash),
                        ),
                    )
                    &&& final(region).ledger().len() == old(region).ledger().len() ==> {
                        &&& r is Err
                        &&& r->Err_0 is Backend
                        &&& final(region).ledger() == old(region).ledger()
                        &&& final(region).cells_out() == old(region).cells_out()
                        &&& final(region).ties() == old(region).ties()
                    }
                    &&& final(region).ledger().len() != old(region).ledger().len() ==> {
                        &&& final(region).ledger() == old(region).ledger().push(
                            Cell { column: config.input.position(), offset: 0 },
                        )
                        &&& final(region).cells_out().len() == old(region).cells_out().len() + 1
                        &&& final(region).cells_out().drop_last() == old(region).cells_out()
                        &&& final(region).ties() == old(region).ties().push(
                            (*computed, final(region).cells_out().last()),
                        )
                        &&& match r {
                            Ok(limb) => {
                                &&& limb.value == Some(self.message_hash)
                                &&& limb.at == (Cell { column: config.input.position(), offset: 0 })
                                &&& limb.cell == final(region).cells_out().last()
                            },
                            Err(e) => e is Backend,
                        }
                    }
                },
            },
    {
        let ghost out = region.cells_out();
        let expected = match region.assign(&config.input, 0, Some(self.message_hash)) {
            Ok(limb) => limb,
            Err(e) => {
                return Err(e);
            },
        };
        proof {
            assert(region.cells_out().drop_last() =~= out);
        }
        match region.constrain_equal(computed, &expected.cell) {
            Ok(()) => Ok(expected),
            Err(report) => Err(AssignmentError::Backend { report }),
        }
    }
}

} // verus!
