//! One pass over a region: which cells it has filled, and how far it may go.

use vstd::prelude::*;
use crate::backend::{
    error_kind, granted, offered, region_assign_advice, region_constrain_equal, region_index,
    regions_known, tied, BackendError, RawCell, RawRegion, MAX_ROWS,
};
use crate::error::AssignmentError;
use crate::felt::Felt;
use crate::registry::AdviceColumn;

verus! {

/// A cell of a region: the position of its advice column, and its row offset
/// from the region's first row.
#[derive(Clone, Copy, Debug, PartialEq, Eq, Structural)]
pub struct Cell {
    pub column: usize,
    pub offset: usize,
}

/// A handle on an assigned cell: the value that was offered (`None` for a
/// witness that is not known), where it went, and the backend's own handle.
#[derive(Debug)]
pub struct Limb {
    pub cell: RawCell,
    pub value: Option<Felt>,
    pub at: Cell,
}

/// The offer of a witness for a cell, as the backend's record of offers has
/// it.
pub open spec fn offer(cell: Cell, value: Option<Felt>) -> (nat, nat, Option<Felt>) {
    (cell.column as nat, cell.offset as nat, value)
}

/// Why a cell cannot be offered to the backend, if it cannot: it is already
/// in the ledger, or its offset is no row of the region.
pub open spec fn refusal_of(ledger: Seq<Cell>, capacity: nat, cell: Cell) -> Option<
    AssignmentError,
> {
    if ledger.contains(cell) {
        Some(AssignmentError::CellOccupied { column: cell.column, offset: cell.offset })
    } else if cell.offset >= capacity {
        Some(
            AssignmentError::CapacityExceeded {
                offset: cell.offset,
                capacity: capacity as usize,
            },
        )
    } else {
        None
    }
}

/// A cell that is not in `run` is in `before + run` exactly when it is in
/// `before`.
pub proof fn lemma_not_in_run(before: Seq<Cell>, run: Seq<Cell>, cell: Cell)
    requires
        !run.contains(cell),
    ensures
        (before + run).contains(cell) <==> before.contains(cell),
{
    if (before + run).contains(cell) {
        let k = choose|k: int| 0 <= k < (before + run).len() && (before + run)[k] == cell;
        if k < before.len() {
            assert(before[k] == cell);
        } else {
            assert(run[k - before.len()] == cell);
        }
    }
    if before.contains(cell) {
        let k = choose|k: int| 0 <= k < before.len() && before[k] == cell;
        assert((before + run)[k] == cell);
    }
}

/// A region of the table during one pass of witness assignment.
///
/// It owns the backend's region, the number of rows that may be addressed,
/// and the ledger of the cells assigned so far. No cell enters the ledger
/// twice.
pub struct WitnessRegion<'r> {
    raw: RawRegion<'r>,
    rows: usize,
    cells: Vec<Cell>,
}

impl<'r> WitnessRegion<'r> {
    /// The number of rows of the region.
    pub closed spec fn capacity(&self) -> nat {
        self.rows as nat
    }

    /// The cells assigned in this pass, in the order of assignment.
    pub closed spec fn ledger(&self) -> Seq<Cell> {
        self.cells@
    }

    /// The backend's region, as the pass has left it so far.
    pub closed spec fn backend(&self) -> RawRegion<'r> {
        self.raw
    }

    /// Every offer made to the backend's region so far, taken or not, in
    /// order.
    pub open spec fn offers(&self) -> Seq<(nat, nat, Option<Felt>)> {
        offered(self.backend())
    }

    /// The cells that the backend's region has handed out so far, one for
    /// each offer it took, in order.
    pub open spec fn cells_out(&self) -> Seq<RawCell> {
        granted(self.backend())
    }

    /// How many regions the layouter behind the backend's region knows.
    pub open spec fn regions(&self) -> nat {
        regions_known(self.backend())
    }

    /// Whether the layouter behind the backend's region knows the region that
    /// the cell lies in, so that the cell can be constrained here.
    pub open spec fn knows(&self, cell: RawCell) -> bool {
        region_index(cell) < self.regions()
    }

    /// The pass has gone on from `before` by assignments alone: the rows and
    /// the regions known are the same, no constraint was asked for, and the
    /// backend has handed out one cell for each cell that entered the
    /// ledger, after those it had handed out before, each of them in a
    /// region that the layouter knows.
    pub open spec fn grew_from(&self, before: &WitnessRegion<'r>) -> bool {
        &&& self.capacity() == before.capacity()
        &&& self.regions() == before.regions()
        &&& self.ties() == before.ties()
        &&& self.ledger().len() >= before.ledger().len()
        &&& self.cells_out().len() - before.cells_out().len() == self.ledger().len()
            - before.ledger().len()
        &&& self.cells_out().subrange(0, before.cells_out().len() as int) == before.cells_out()
        &&& forall|i: int|
            before.cells_out().len() <= i < self.cells_out().len() ==> self.knows(
                #[trigger] self.cells_out()[i],
            )
    }

    /// A pass that goes on by assignments alone from one that did so before
    /// has gone on by assignments alone from the start.
    pub proof fn lemma_grew_on(&self, middle: &WitnessRegion<'r>, before: &WitnessRegion<'r>)
        requires
            middle.grew_from(before),
            self.grew_from(middle),
        ensures
            self.grew_from(before),
    {
        assert(self.cells_out().subrange(0, before.cells_out().len() as int)
            =~= self.cells_out().subrange(0, middle.cells_out().len() as int).subrange(
            0,
            before.cells_out().len() as int,
        ));
        assert forall|i: int|
            before.cells_out().len() <= i < self.cells_out().len() implies self.knows(
            #[trigger] self.cells_out()[i],
        ) by {
            if i < middle.cells_out().len() {
                assert(self.cells_out().subrange(0, middle.cells_out().len() as int)[i]
                    == self.cells_out()[i]);
                assert(middle.knows(middle.cells_out()[i]));
            }
        }
    }

    /// No cell was assigned twice, and every assigned cell is in a row of the
    /// region.
    pub closed spec fn wf(&self) -> bool {
        &&& self.rows <= MAX_ROWS
        &&& self.cells@.no_duplicates()
        &&& forall|i: int| 0 <= i < self.cells@.len() ==> (#[trigger] self.cells@[i]).offset < self.rows
    }

    /// Whether the cell was assigned in this pass.
    pub open spec fn occupied(&self, cell: Cell) -> bool {
        self.ledger().contains(cell)
    }

    /// What [`WitnessRegion::wf`] means for the ledger.
    pub proof fn lemma_wf(&self)
        requires
            self.wf(),
        ensures
            self.capacity() <= MAX_ROWS,
            self.ledger().no_duplicates(),
            forall|i: int|
                0 <= i < self.ledger().len() ==> (#[trigger] self.ledger()[i]).offset
                    < self.capacity(),
    {
    }

    /// Starts a pass over a region of `rows` rows, or of [`MAX_ROWS`] rows if
    /// that is fewer. No cell is assigned yet.
    pub fn open(raw: RawRegion<'r>, rows: usize) -> (r: WitnessRegion<'r>)
        ensures
            r.wf(),
            r.capacity() == if rows <= MAX_ROWS {
                rows
            } else {
                MAX_ROWS
            },
            r.ledger() == Seq::<Cell>::empty(),
            r.backend() == raw,
    {
        let rows: usize = if rows <= MAX_ROWS {
            rows
        } else {
            MAX_ROWS
        };
        WitnessRegion { raw, rows, cells: Vec::new() }
    }

    /// The number of rows of the region.
    pub fn rows(&self) -> (r: usize)
        ensures
            r == self.capacity(),
    {
        self.rows
    }

    /// The number of cells assigned in this pass.
    pub fn assigned(&self) -> (r: usize)
        ensures
            r == self.ledger().len(),
    {
        self.cells.len()
    }

    /// The `i`-th cell assigned in this pass.
    pub fn cell(&self, i: usize) -> (r: Cell)
        requires
            i < self.ledger().len(),
        ensures
            r == self.ledger()[i as int],
    {
        self.cells[i]
    }

    /// Whether the cell was assigned in this pass.
    pub fn is_occupied(&self, cell: Cell) -> (r: bool)
        ensures
            r == self.occupied(cell),
    {
        let mut i: usize = 0;
        while i < self.cells.len()
            invariant
                i <= self.cells.len(),
                forall|j: int| 0 <= j < i ==> self.cells@[j] != cell,
            decreases self.cells.len() - i,
        {
            if self.cells[i] == cell {
                return true;
            }
            i += 1;
        }
        false
    }

    /// Why the cell cannot be offered to the backend, if it cannot.
    pub fn refusal(&self, cell: Cell) -> (r: Option<AssignmentError>)
        ensures
            r == refusal_of(self.ledger(), self.capacity(), cell),
    {
        if self.is_occupied(cell) {
            Some(AssignmentError::CellOccupied { column: cell.column, offset: cell.offset })
        } else if cell.offset >= self.rows {
            Some(AssignmentError::CapacityExceeded { offset: cell.offset, capacity: self.rows })
        } else {
            None
        }
    }

    /// Books the backend's answer to the offer of a free cell: a cell that it
    /// took enters the ledger and comes back as a handle with the value that
    /// was offered; a report leaves the ledger as it was.
    pub fn settle(
        &mut self,
        outcome: Result<RawCell, BackendError>,
        at: Cell,
        value: Option<Felt>,
    ) -> (r: Result<Limb, AssignmentError>)
        requires
            old(self).wf(),
            refusal_of(old(self).ledger(), old(self).capacity(), at) is None,
        ensures
            final(self).wf(),
            final(self).capacity() == old(self).capacity(),
            final(self).backend() == old(self).backend(),
            match outcome {
                Ok(cell) => r is Ok && r->Ok_0.cell == cell && r->Ok_0.value == value
                    && r->Ok_0.at == at && final(self).ledger() == old(self).ledger().push(at),
                Err(report) => r is Err && r->Err_0 == (AssignmentError::Backend { report })
                    && final(self).ledger() == old(self).ledger(),
            },
    {
        match outcome {
            Ok(cell) => {
                self.cells.push(at);
                Ok(Limb { cell, value, at })
            },
            Err(report) => Err(AssignmentError::Backend { report }),
        }
    }

    /// Assigns `value` to the cell at `offset` in `column`.
    ///
    /// A cell that this pass has assigned before, or an offset that is no row
    /// of the region, fails at once, and the backend's region is not touched.
    /// Any other cell is offered to the backend, with exactly this column,
    /// offset and value; if the backend takes the cell, the cell enters the
    /// ledger, and the handle carries `value` unchanged and the cell that the
    /// backend handed out for this offer. No constraint is asked for.
    pub fn assign(&mut self, column: &AdviceColumn, offset: usize, value: Option<Felt>) -> (r:
        Result<Limb, AssignmentError>)
        requires
            old(self).wf(),
        ensures
            final(self).wf(),
            final(self).capacity() == old(self).capacity(),
            final(self).grew_from(old(self)),
            match refusal_of(
                old(self).ledger(),
                old(self).capacity(),
                Cell { column: column.position(), offset },
            ) {
                Some(e) => {
                    &&& r is Err
                    &&& r->Err_0 == e
                    &&& final(self).ledger() == old(self).ledger()
                    &&& final(self).backend() == old(self).backend()
                },
                None => {
                    &&& final(self).offers() == old(self).offers().push(
                        offer(Cell { column: column.position(), offset }, value),
                    )
                    &&& match r {
                        Ok(limb) => {
                            &&& limb.value == value
                            &&& limb.at == (Cell { column: column.position(), offset })
                            &&& limb.cell == final(self).cells_out().last()
                            &&& final(self).ledger() == old(self).ledger().push(limb.at)
                        },
                        Err(e) => e is Backend && final(self).ledger() == old(self).ledger(),
                    }
                },
            },
    {
        let ghost before = self.cells_out();
        assert(before.subrange(0, before.len() as int) =~= before);
        let at = Cell { column: column.index(), offset };
        match self.refusal(at) {
            Some(e) => Err(e),
            None => {
                let outcome = match region_assign_advice(&mut self.raw, &column.raw(), offset, value) {
                    Ok(cell) => Ok(cell),
                    Err(e) => Err(error_kind(&e)),
                };
                let r = self.settle(outcome, at, value);
                assert(self.cells_out().subrange(0, before.len() as int) =~= before);
                r
            },
        }
    }

    /// Asks the backend, once, to constrain exactly these two cells to hold
    /// the same value; nothing else changes. The backend decides the result.
    /// The layouter must know the regions of both cells, as it does of every
    /// cell that this region has handed out.
    pub fn constrain_equal(&mut self, left: &RawCell, right: &RawCell) -> (r: Result<
        (),
        BackendError,
    >)
        requires
            old(self).wf(),
            old(self).knows(*left),
            old(self).knows(*right),
        ensures
            final(self).wf(),
            final(self).capacity() == old(self).capacity(),
            final(self).ledger() == old(self).ledger(),
            final(self).offers() == old(self).offers(),
            final(self).cells_out() == old(self).cells_out(),
            final(self).regions() == old(self).regions(),
            final(self).ties() == old(self).ties().push((*left, *right)),
    {
        match region_constrain_equal(&mut self.raw, left, right) {
            Ok(()) => Ok(()),
            Err(e) => Err(error_kind(&e)),
        }
    }

    /// Every pair of cells that the backend's region was asked to constrain
    /// equal so far, whatever it answered, in order.
    pub open spec fn ties(&self) -> Seq<(RawCell, RawCell)> {
        tied(self.backend())
    }

    /// Ends the pass and gives the backend's region back.
    pub fn close(self) -> (r: RawRegion<'r>)
        ensures
            r == self.backend(),
    {
        self.raw
    }
}

} // verus!
