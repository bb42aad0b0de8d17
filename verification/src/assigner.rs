//! The witness assigner: a chip of one advice column that places values into
//! successive rows of a region.

use vstd::prelude::*;
use crate::error::{AssignmentError, StructuralError};
use crate::felt::Felt;
use crate::region::{lemma_not_in_run, offer, refusal_of, Cell, Limb, WitnessRegion};
use crate::registry::{AdviceColumn, Registry};
use crate::backend::ColumnKind;

verus! {

/// The cells of a run: `n` successive rows of one column, from `start` on.
pub open spec fn run_cells(column: usize, start: usize, n: nat) -> Seq<Cell> {
    Seq::new(n, |i: int| Cell { column, offset: (start + i) as usize })
}

/// The offers of a run: the first `n` of `values`, each for its cell of the
/// run that begins at `start`.
pub open spec fn run_offers(column: usize, start: usize, values: Seq<Felt>, n: nat) -> Seq<
    (nat, nat, Option<Felt>),
> {
    Seq::new(n, |i: int| (column as nat, (start + i) as nat, Some(values[i])))
}

/// The column the assigner writes to.
#[derive(Clone, Copy, Debug)]
pub struct HelperChipConfig {
    pub limb: AdviceColumn,
}

/// The witness assigner.
#[derive(Clone, Copy, Debug)]
pub struct HelperChip {
    config: HelperChipConfig,
}

impl HelperChip {
    /// The configuration this chip was made with.
    pub closed spec fn spec_config(&self) -> HelperChipConfig {
        self.config
    }

    /// The position of the column the chip writes to.
    pub open spec fn column(&self) -> usize {
        self.spec_config().limb.position()
    }

    /// A chip for the given configuration.
    pub fn new(config: HelperChipConfig) -> (r: HelperChip)
        ensures
            r.spec_config() == config,
    {
        HelperChip { config }
    }

    /// The configuration this chip was made with.
    pub fn config(&self) -> (r: &HelperChipConfig)
        ensures
            *r == self.spec_config(),
    {
        &self.config
    }

    /// The state the chip loads before synthesis: none.
    pub fn loaded(&self) -> (r: ()) {
        ()
    }

    /// Declares the chip's advice column and enables equality on it, so that
    /// its cells can be tied to cells of other regions.
    ///
    /// Fails, and leaves the registry as it was, only when the registry
    /// cannot count another advice column.
    pub fn configure(registry: &mut Registry) -> (r: Result<HelperChipConfig, StructuralError>)
        requires
            old(registry).wf(),
        ensures
            final(registry).wf(),
            final(registry).count(ColumnKind::Fixed) == old(registry).count(ColumnKind::Fixed),
            final(registry).count(ColumnKind::Instance) == old(registry).count(
                ColumnKind::Instance,
            ),
            match r {
                Ok(config) => {
                    &&& old(registry).count(ColumnKind::Advice) < usize::MAX
                    &&& config.limb.position() == old(registry).count(ColumnKind::Advice)
                    &&& final(registry).count(ColumnKind::Advice) == old(registry).count(
                        ColumnKind::Advice,
                    ) + 1
                    &&& final(registry).equality() == old(registry).equality().insert(
                        config.limb.id(),
                    )
                },
                Err(e) => {
                    &&& old(registry).count(ColumnKind::Advice) >= usize::MAX
                    &&& e == (StructuralError::ColumnLimit { kind: ColumnKind::Advice })
                    &&& final(registry).count(ColumnKind::Advice) == old(registry).count(
                        ColumnKind::Advice,
                    )
                    &&& final(registry).equality() == old(registry).equality()
                },
            },
    {
        match registry.advice_column() {
            Ok(limb) => match registry.enable_equality_advice(&limb) {
                Ok(()) => Ok(HelperChipConfig { limb }),
                Err(e) => Err(e),
            },
            Err(e) => Err(e),
        }
    }

    /// Places each of `inputs`, in order, into the chip's column, the first
    /// at row `*offset`, and advances `*offset` once per value placed.
    ///
    /// On success there is one handle per input, in the order of the inputs;
    /// each carries its input unchanged and the cell it went to. The pass
    /// stops at the first cell that cannot be assigned: the values before it
    /// stay placed, `*offset` names the cell that failed, and the error is
    /// the region's refusal of that cell, or else the backend's report.
    ///
    /// The backend is offered the inputs in order, each with its own value,
    /// up to and with the one it turns down; a cell that the region refuses
    /// is not offered. Handle `i` carries the cell that the backend handed
    /// out for input `i`. No constraint is asked for.
    pub fn assign_inputs(
        &self,
        region: &mut WitnessRegion<'_>,
        offset: &mut usize,
        inputs: &Vec<Felt>,
    ) -> (r: Result<Vec<Limb>, AssignmentError>)
        requires
            old(region).wf(),
        ensures
            final(region).wf(),
            final(region).capacity() == old(region).capacity(),
            final(region).grew_from(old(region)),
            *old(offset) <= *final(offset) <= *old(offset) + inputs@.len(),
            final(region).ledger() == old(region).ledger() + run_cells(
                self.column(),
                *old(offset),
                (*final(offset) - *old(offset)) as nat,
            ),
            final(region).offers() == old(region).offers() + run_offers(
                self.column(),
                *old(offset),
                inputs@,
                (*final(offset) - *old(offset) + if r is Err && r->Err_0 is Backend {
                    1int
                } else {
                    0int
                }) as nat,
            ),
            forall|j: int|
                0 <= j < *final(offset) - *old(offset) ==> refusal_of(
                    old(region).ledger(),
                    old(region).capacity(),
                    #[trigger] run_cells(self.column(), *old(offset), inputs@.len())[j],
                ) is None,
            match r {
                Ok(limbs) => {
                    &&& *final(offset) == *old(offset) + inputs@.len()
                    &&& limbs@.len() == inputs@.len()
                    &&& forall|j: int|
                        0 <= j < inputs@.len() ==> (#[trigger] limbs@[j]).value == Some(inputs@[j])
                            && limbs@[j].at == run_cells(
                            self.column(),
                            *old(offset),
                            inputs@.len(),
                        )[j] && limbs@[j].cell == final(region).cells_out()[old(
                            region,
                        ).cells_out().len() + j]
                },
                Err(e) => {
                    &&& *final(offset) < *old(offset) + inputs@.len()
                    &&& match refusal_of(
                        old(region).ledger(),
                        old(region).capacity(),
                        Cell { column: self.column(), offset: *final(offset) },
                    ) {
                        Some(refusal) => e == refusal,
                        None => e is Backend,
                    }
                },
            },
    {
        let start: usize = *offset;
        let ghost before = region.ledger();
        let ghost offers = region.offers();
        let ghost capacity = region.capacity();
        let ghost column = self.column();
        let mut limbs: Vec<Limb> = Vec::new();
        let mut i: usize = 0;
        let ghost out = region.cells_out();
        proof {
            region.lemma_wf();
            assert(before + run_cells(column, start, 0) =~= before);
            assert(offers + run_offers(column, start, inputs@, 0) =~= offers);
            assert(out.subrange(0, out.len() as int) =~= out);
        }
        while i < inputs.len()
            invariant
                region.wf(),
                region.capacity() == capacity,
                capacity == old(region).capacity(),
                before == old(region).ledger(),
                out == old(region).cells_out(),
                region.grew_from(old(region)),
                forall|j: int|
                    0 <= j < i ==> (#[trigger] limbs@[j]).cell == region.cells_out()[out.len() + j],
                offers == old(region).offers(),
                region.offers() == offers + run_offers(column, start, inputs@, i as nat),
                start == *old(offset),
                capacity <= crate::backend::MAX_ROWS,
                column == self.column(),
                i <= inputs.len(),
                *offset == start + i,
                i > 0 ==> start + i <= capacity,
                limbs@.len() == i,
                region.ledger() == before + run_cells(column, start, i as nat),
                forall|j: int|
                    0 <= j < i ==> refusal_of(
                        before,
                        capacity,
                        #[trigger] run_cells(column, start, inputs@.len())[j],
                    ) is None,
                forall|j: int|
                    0 <= j < i ==> (#[trigger] limbs@[j]).value == Some(inputs@[j]) && limbs@[j].at
                        == run_cells(column, start, inputs@.len())[j],
            decreases inputs.len() - i,
        {
            let at: usize = *offset;
            let ghost cell = Cell { column, offset: at };
            proof {
                let run = run_cells(column, start, i as nat);
                assert(!run.contains(cell)) by {
                    if run.contains(cell) {
                        let k = choose|k: int| 0 <= k < run.len() && run[k] == cell;
                        assert(run[k].offset == (start + k) as usize);
                    }
                }
                lemma_not_in_run(before, run, cell);
                assert(refusal_of(region.ledger(), capacity, cell) == refusal_of(
                    before,
                    capacity,
                    cell,
                ));
            }
            let ghost earlier = *region;
            let outcome = region.assign(&self.config.limb, at, Some(inputs[i]));
            proof {
                region.lemma_grew_on(&earlier, old(region));
                assert(region.cells_out().subrange(0, earlier.cells_out().len() as int)
                    == earlier.cells_out());
                assert forall|j: int| 0 <= j < i implies (#[trigger] limbs@[j]).cell
                    == region.cells_out()[out.len() + j] by {
                    assert(region.cells_out().subrange(0, earlier.cells_out().len() as int)[out.len()
                        + j] == region.cells_out()[out.len() + j]);
                }
            }
            match outcome {
                Ok(limb) => {
                    proof {
                        assert(at < capacity);
                        assert(run_cells(column, start, inputs@.len())[i as int] == cell);
                        assert((before + run_cells(column, start, i as nat)).push(cell) =~= before
                            + run_cells(column, start, (i + 1) as nat));
                        assert((offers + run_offers(column, start, inputs@, i as nat)).push(
                            offer(cell, Some(inputs@[i as int])),
                        ) =~= offers + run_offers(column, start, inputs@, (i + 1) as nat));
                    }
                    limbs.push(limb);
                    *offset = at + 1;
                    i += 1;
                },
                Err(e) => {
                    proof {
                        if e is Backend {
                            assert((offers + run_offers(column, start, inputs@, i as nat)).push(
                                offer(cell, Some(inputs@[i as int])),
                            ) =~= offers + run_offers(column, start, inputs@, (i + 1) as nat));
                        }
                    }
                    return Err(e);
                },
            }
        }
        Ok(limbs)
    }

    /// Places `result` into the chip's column at row `*offset` and advances
    /// `*offset` by one.
    ///
    /// On success the handle carries `result` unchanged and the cell it went
    /// to. On failure nothing is placed and `*offset` stays; the error is the
    /// region's refusal of the cell, or else the backend's report. The
    /// backend is offered the cell with `result` unless the region refuses
    /// it, and the handle carries the cell that the backend handed out for
    /// the offer. No constraint is asked for.
    pub fn assign_result(
        &self,
        region: &mut WitnessRegion<'_>,
        offset: &mut usize,
        result: &Felt,
    ) -> (r: Result<Limb, AssignmentError>)
        requires
            old(region).wf(),
        ensures
            final(region).wf(),
            final(region).capacity() == old(region).capacity(),
            final(region).grew_from(old(region)),
            final(region).offers() == match refusal_of(
                old(region).ledger(),
                old(region).capacity(),
                Cell { column: self.column(), offset: *old(offset) },
            ) {
                Some(_) => old(region).offers(),
                None => old(region).offers().push(
                    offer(Cell { column: self.column(), offset: *old(offset) }, Some(*result)),
                ),
            },
            match r {
                Ok(limb) => {
                    &&& limb.value == Some(*result)
                    &&& limb.cell == final(region).cells_out().last()
                    &&& limb.at == (Cell { column: self.column(), offset: *old(offset) })
                    &&& *final(offset) == *old(offset) + 1
                    &&& final(region).ledger() == old(region).ledger().push(limb.at)
                    &&& refusal_of(old(region).ledger(), old(region).capacity(), limb.at) is None
                },
                Err(e) => {
                    &&& *final(offset) == *old(offset)
                    &&& final(region).ledger() == old(region).ledger()
                    &&& match refusal_of(
                        old(region).ledger(),
                        old(region).capacity(),
                        Cell { column: self.column(), offset: *old(offset) },
                    ) {
                        Some(refusal) => e == refusal,
                        None => e is Backend,
                    }
                },
            },
    {
        let at: usize = *offset;
        proof {
            region.lemma_wf();
        }
        match region.assign(&self.config.limb, at, Some(*result)) {
            Ok(limb) => {
                *offset = at + 1;
                Ok(limb)
            },
            Err(e) => Err(e),
        }
    }
}

/// A run of cells lies in one column, at offsets that grow by one from cell
/// to cell; so its cells are pairwise distinct.
pub proof fn lemma_run_cells_increase(column: usize, start: usize, n: nat)
    requires
        start + n <= usize::MAX + 1,
    ensures
        run_cells(column, start, n).len() == n,
        forall|i: int|
            0 <= i < n ==> (#[trigger] run_cells(column, start, n)[i]).column == column
                && run_cells(column, start, n)[i].offset == start + i,
        forall|i: int, j: int|
            0 <= i < j < n ==> (#[trigger] run_cells(column, start, n)[i]).offset < (
            #[trigger] run_cells(column, start, n)[j]).offset,
        run_cells(column, start, n).no_duplicates(),
{
}

/// Assigning `n` inputs and then one result, with one cursor that stood at
/// `start`, fills exactly `n + 1` cells of the chip's column: the ledger grows
/// from `before` by the run of `n + 1` rows that begins at `start`. The cells
/// come in the order of the calls, at offsets that are pairwise distinct and
/// strictly increasing.
pub proof fn lemma_inputs_then_result(before: Seq<Cell>, column: usize, start: usize, n: nat)
    requires
        start + n <= usize::MAX,
    ensures
        ({
            let after_inputs = before + run_cells(column, start, n);
            let after_result = after_inputs.push(Cell { column, offset: (start + n) as usize });
            let filled = after_result.subrange(before.len() as int, after_result.len() as int);
            &&& after_result == before + run_cells(column, start, n + 1)
            &&& filled == run_cells(column, start, n + 1)
            &&& filled.len() == n + 1
            &&& filled.no_duplicates()
            &&& forall|i: int|
                0 <= i <= n ==> (#[trigger] filled[i]) == (Cell {
                    column,
                    offset: (start + i) as usize,
                })
            &&& forall|i: int, j: int|
                0 <= i < j <= n ==> (#[trigger] filled[i]).offset < (#[trigger] filled[j]).offset
        }),
{
    let after_inputs = before + run_cells(column, start, n);
    let after_result = after_inputs.push(Cell { column, offset: (start + n) as usize });
    let filled = after_result.subrange(before.len() as int, after_result.len() as int);
    lemma_run_cells_increase(column, start, n + 1);
    assert(after_result =~= before + run_cells(column, start, n + 1));
    assert(filled =~= run_cells(column, start, n + 1));
}

} // verus!
