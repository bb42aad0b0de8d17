//! A circuit for a two-branch, many-round permutation in the style of Anemoi:
//! two private inputs and the claimed output, laid out by the witness
//! assigner in front of the permutation chip's trace.

use vstd::prelude::*;
use crate::assigner::{run_cells, run_offers, HelperChip, HelperChipConfig};
use crate::backend::ColumnKind;
use crate::error::{AssignmentError, StructuralError};
use crate::felt::Felt;
use crate::region::{lemma_not_in_run, offer, refusal_of, Cell, Limb, WitnessRegion};
use crate::registry::{AdviceColumn, Registry};

verus! {

/// How many field elements the permutation absorbs at once.
pub const RATE: usize = 2;

/// How many advice columns the permutation chip works on.
pub const WITNESS_COLUMNS: usize = 5;

/// The table size of the circuit's satisfiability check: `2^K` rows.
pub const K: u32 = 16;

/// The limbs of the output that a circuit without witnesses carries.
pub open spec fn placeholder_result() -> Seq<u64> {
    seq![
        0x94672c47f345700au64,
        0xe5168077fd5eeb90u64,
        0xae14f132fcc041ecu64,
        0x2ac427786f4818bfu64,
    ]
}

/// The offers that a witness makes to the backend: the claimed output for
/// row 0 of the assigner's column, then the inputs, in order, from row 1 on.
pub open spec fn witness_offers(column: usize, result: Felt, inputs: Seq<Felt>) -> Seq<
    (nat, nat, Option<Felt>),
> {
    seq![offer(Cell { column, offset: 0 }, Some(result))] + run_offers(
        column,
        1,
        inputs,
        inputs.len(),
    )
}

/// An instance of the circuit: the private inputs and the output they are
/// claimed to hash to.
#[derive(Clone, Debug)]
pub struct TestCircuit {
    pub inputs: Vec<Felt>,
    pub result: Felt,
}

/// The columns of the circuit: those the permutation chip works on, and the
/// witness assigner's.
#[derive(Clone, Debug)]
pub struct TestConfig {
    pub witness: Vec<AdviceColumn>,
    pub helperconfig: HelperChipConfig,
}

/// The handles that synthesis hands to the permutation chip.
#[derive(Debug)]
pub struct TestWitness {
    pub result: Limb,
    pub inputs: Vec<Limb>,
}

impl Default for TestCircuit {
    /// The instance without inputs whose output is zero.
    fn default() -> (r: TestCircuit)
        ensures
            r.inputs@.len() == 0,
            r.result.limbs@ == seq![0u64, 0u64, 0u64, 0u64],
    {
        TestCircuit { inputs: Vec::new(), result: Felt::zero() }
    }
}

impl TestCircuit {
    /// An instance of the same shape that holds no secret: both inputs are
    /// zero, and the output is [`placeholder_result`].
    pub fn without_witnesses(&self) -> (r: TestCircuit)
        ensures
            r.inputs@.len() == RATE,
            forall|i: int| 0 <= i < RATE ==> (#[trigger] r.inputs@[i]).limbs@ == seq![0u64, 0u64, 0u64, 0u64],
            r.result.limbs@ == placeholder_result(),
    {
        let mut inputs: Vec<Felt> = Vec::new();
        inputs.push(Felt::zero());
        inputs.push(Felt::zero());
        let result = Felt::from_raw(
            [0x94672c47f345700au64, 0xe5168077fd5eeb90u64, 0xae14f132fcc041ecu64, 0x2ac427786f4818bfu64],
        );
        TestCircuit { inputs, result }
    }

    /// Declares the circuit's columns: [`WITNESS_COLUMNS`] advice columns for
    /// the permutation chip, then the witness assigner's column, with
    /// equality enabled on it. They take the next advice positions in that
    /// order; no other column is declared.
    ///
    /// Fails, and leaves the registry as it was, only when the count of
    /// advice columns has no room for them.
    pub fn configure(registry: &mut Registry) -> (r: Result<TestConfig, StructuralError>)
        requires
            old(registry).wf(),
        ensures
            final(registry).wf(),
            final(registry).count(ColumnKind::Fixed) == old(registry).count(ColumnKind::Fixed),
            final(registry).count(ColumnKind::Instance) == old(registry).count(
                ColumnKind::Instance,
            ),
            old(registry).count(ColumnKind::Advice) + WITNESS_COLUMNS + 1 <= usize::MAX ==> {
                &&& r is Ok
                &&& r->Ok_0.witness@.len() == WITNESS_COLUMNS
                &&& forall|i: int|
                    0 <= i < WITNESS_COLUMNS ==> (#[trigger] r->Ok_0.witness@[i]).position()
                        == old(registry).count(ColumnKind::Advice) + i
                &&& r->Ok_0.helperconfig.limb.position() == old(registry).count(ColumnKind::Advice)
                    + WITNESS_COLUMNS
                &&& final(registry).count(ColumnKind::Advice) == old(registry).count(
                    ColumnKind::Advice,
                ) + WITNESS_COLUMNS + 1
                &&& final(registry).equality() == old(registry).equality().insert(
                    r->Ok_0.helperconfig.limb.id(),
                )
            },
            old(registry).count(ColumnKind::Advice) + WITNESS_COLUMNS + 1 > usize::MAX ==> {
                &&& r is Err
                &&& r->Err_0 == (StructuralError::ColumnLimit { kind: ColumnKind::Advice })
                &&& final(registry).count(ColumnKind::Advice) == old(registry).count(
                    ColumnKind::Advice,
                )
                &&& final(registry).equality() == old(registry).equality()
            },
    {
        if registry.columns(ColumnKind::Advice) > usize::MAX - (WITNESS_COLUMNS + 1) {
            return Err(StructuralError::ColumnLimit { kind: ColumnKind::Advice });
        }
        let witness = match registry.advice_columns(WITNESS_COLUMNS) {
            Ok(columns) => columns,
            Err(e) => {
                return Err(e);
            },
        };
        let helperconfig = match HelperChip::configure(registry) {
            Ok(config) => config,
            Err(e) => {
                return Err(e);
            },
        };
        Ok(TestConfig { witness, helperconfig })
    }

    /// Places the witness into a region: the claimed output at row 0 of the
    /// assigner's column, then the inputs in order from row 1 on.
    ///
    /// An instance that does not carry [`RATE`] inputs is turned down before
    /// anything is placed. Otherwise the pass stops at the first cell that
    /// cannot be assigned, with the region's refusal of that cell or else the
    /// backend's report; the cells before it stay placed. The backend is
    /// offered the cells in that order, each with its value, up to and with
    /// the one it turns down, and each handle carries the cell that the
    /// backend handed out for it. No constraint is asked for. The permutation
    /// chip then starts its trace again at row 0, in its own columns.
    pub fn synthesize(&self, config: &TestConfig, region: &mut WitnessRegion<'_>) -> (r: Result<
        TestWitness,
        AssignmentError,
    >)
        requires
            old(region).wf(),
        ensures
            final(region).wf(),
            final(region).capacity() == old(region).capacity(),
            final(region).grew_from(old(region)),
            self.inputs@.len() != RATE ==> {
                &&& r is Err
                &&& r->Err_0 == (AssignmentError::ArityMismatch {
                    expected: RATE,
                    found: self.inputs@.len() as usize,
                })
                &&& final(region).ledger() == old(region).ledger()
                &&& final(region).backend() == old(region).backend()
            },
            self.inputs@.len() == RATE ==> {
                let column = config.helperconfig.limb.position();
                let placed = final(region).ledger().len() - old(region).ledger().len();
                &&& 0 <= placed <= RATE + 1
                &&& final(region).ledger() == old(region).ledger() + run_cells(
                    column,
                    0,
                    placed as nat,
                )
                &&& final(region).offers() == old(region).offers() + witness_offers(
                    column,
                    self.result,
                    self.inputs@,
                ).take(
                    placed + if r is Err && r->Err_0 is Backend {
                        1int
                    } else {
                        0int
                    },
                )
                &&& match r {
                    Ok(witness) => {
                        &&& placed == RATE + 1
                        &&& witness.result.value == Some(self.result)
                        &&& witness.result.at == (Cell { column, offset: 0 })
                        &&& witness.result.cell == final(region).cells_out()[old(
                            region,
                        ).cells_out().len() as int]
                        &&& witness.inputs@.len() == RATE
                        &&& forall|j: int|
                            0 <= j < RATE ==> (#[trigger] witness.inputs@[j]).value == Some(
                                self.inputs@[j],
                            ) && witness.inputs@[j].at == (Cell {
                                column,
                                offset: (j + 1) as usize,
                            }) && witness.inputs@[j].cell == final(region).cells_out()[old(
                                region,
                            ).cells_out().len() + 1 + j]
                    },
                    Err(e) => {
                        &&& placed <= RATE
                        &&& match refusal_of(
                            old(region).ledger(),
                            old(region).capacity(),
                            Cell { column, offset: placed as usize },
                        ) {
                            Some(refusal) => e == refusal,
                            None => e is Backend,
                        }
                    },
                }
            },
    {
        let ghost out = region.cells_out();
        proof {
            assert(out.subrange(0, out.len() as int) =~= out);
        }
        if self.inputs.len() != RATE {
            return Err(
                AssignmentError::ArityMismatch { expected: RATE, found: self.inputs.len() },
            );
        }
        let helperchip = HelperChip::new(config.helperconfig);
        let ghost column = config.helperconfig.limb.position();
        let ghost before = region.ledger();
        let ghost offers = region.offers();
        let ghost all = witness_offers(column, self.result, self.inputs@);
        let mut offset: usize = 0;
        proof {
            assert(before + run_cells(column, 0, 0) =~= before);
            assert(offers + all.take(0) =~= offers);
            assert(offers.push(all[0]) =~= offers + all.take(1));
        }
        let result = match helperchip.assign_result(region, &mut offset, &self.result) {
            Ok(limb) => limb,
            Err(e) => {
                return Err(e);
            },
        };
        proof {
            assert(before.push(result.at) =~= before + run_cells(column, 0, 1));
        }
        let ghost middle = region.ledger();
        let ghost halfway = *region;
        let outcome = helperchip.assign_inputs(region, &mut offset, &self.inputs);
        proof {
            region.lemma_grew_on(&halfway, old(region));
            assert(region.cells_out().subrange(0, halfway.cells_out().len() as int)[out.len() as int]
                == region.cells_out()[out.len() as int]);
        }
        let inputs = match outcome {
            Ok(limbs) => limbs,
            Err(e) => {
                proof {
                    let k = (offset - 1) as nat;
                    let cell = Cell { column, offset };
                    assert(middle + run_cells(column, 1, k) =~= before + run_cells(
                        column,
                        0,
                        k + 1,
                    ));
                    assert(run_cells(column, 0, 1)[0] == result.at);
                    let made = k + if e is Backend {
                        1nat
                    } else {
                        0nat
                    };
                    assert(offers.push(all[0]) + run_offers(column, 1, self.inputs@, made)
                        =~= offers + all.take((1 + made) as int));
                    assert(middle == before + run_cells(column, 0, 1));
                    assert(!run_cells(column, 0, 1).contains(cell)) by {
                        if run_cells(column, 0, 1).contains(cell) {
                            let i = choose|i: int|
                                0 <= i < run_cells(column, 0, 1).len() && run_cells(column, 0, 1)[i]
                                    == cell;
                            assert(run_cells(column, 0, 1)[i].offset == 0);
                        }
                    }
                    lemma_not_in_run(before, run_cells(column, 0, 1), cell);
                }
                return Err(e);
            },
        };
        proof {
            assert(middle + run_cells(column, 1, RATE as nat) =~= before + run_cells(
                column,
                0,
                (RATE + 1) as nat,
            ));
            assert(offers.push(all[0]) + run_offers(column, 1, self.inputs@, RATE as nat)
                =~= offers + all.take((RATE + 1) as int));
            assert forall|j: int| 0 <= j < RATE implies (#[trigger] inputs@[j]).at == (Cell {
                column,
                offset: (j + 1) as usize,
            }) by {
                assert(inputs@[j].at == run_cells(column, 1, RATE as nat)[j]);
            }
        }
        Ok(TestWitness { result, inputs })
    }
}

} // verus!
