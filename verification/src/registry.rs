//! The constraint registry: the columns a circuit declares, in the order it
//! declares them.

use vstd::prelude::*;
use crate::backend::{
    advice_position, declared, equality_of, fixed_position, instance_position, registry_advice_column,
    registry_enable_constant, registry_equality_advice, registry_equality_instance,
    registry_fixed_column, registry_instance_column, registry_new, ColumnKind, RawAdvice,
    RawFixed, RawInstance, RawRegistry,
};
use crate::error::StructuralError;

verus! {

/// A column by kind and position: the `index`-th column of its kind, counted
/// from zero in the order of declaration.
#[derive(Clone, Copy, Debug, PartialEq, Eq, Structural)]
pub struct ColumnId {
    pub kind: ColumnKind,
    pub index: usize,
}

/// An advice column: the backend's handle for it, and its position among
/// the advice columns, which the registry that declared it vouches for.
#[derive(Clone, Copy, Debug)]
pub struct AdviceColumn {
    index: usize,
    raw: RawAdvice,
}

/// A fixed column: the backend's handle for it, and its position among the
/// fixed columns, which the registry that declared it vouches for.
#[derive(Clone, Copy, Debug)]
pub struct FixedColumn {
    index: usize,
    raw: RawFixed,
}

/// An instance column: the backend's handle for it, and its position among
/// the instance columns, which the registry that declared it vouches for.
#[derive(Clone, Copy, Debug)]
pub struct InstanceColumn {
    index: usize,
    raw: RawInstance,
}

impl AdviceColumn {
    #[verifier::type_invariant]
    spec fn bound(self) -> bool {
        self.index == advice_position(self.raw)
    }

    /// The position of this column among the advice columns.
    pub closed spec fn position(self) -> usize {
        self.index
    }

    /// The backend's handle for this column.
    pub closed spec fn handle(self) -> RawAdvice {
        self.raw
    }

    /// Kind and position of this column.
    pub open spec fn id(self) -> ColumnId {
        ColumnId { kind: ColumnKind::Advice, index: self.position() }
    }

    /// The position of this column among the advice columns.
    pub fn index(&self) -> (r: usize)
        ensures
            r == self.position(),
            r == advice_position(self.handle()),
    {
        proof {
            use_type_invariant(self);
        }
        self.index
    }

    /// The backend's handle for this column.
    pub fn raw(&self) -> (r: RawAdvice)
        ensures
            r == self.handle(),
    {
        self.raw
    }
}

impl FixedColumn {
    #[verifier::type_invariant]
    spec fn bound(self) -> bool {
        self.index == fixed_position(self.raw)
    }

    /// The position of this column among the fixed columns.
    pub closed spec fn position(self) -> usize {
        self.index
    }

    /// The backend's handle for this column.
    pub closed spec fn handle(self) -> RawFixed {
        self.raw
    }

    /// Kind and position of this column.
    pub open spec fn id(self) -> ColumnId {
        ColumnId { kind: ColumnKind::Fixed, index: self.position() }
    }

    /// The position of this column among the fixed columns.
    pub fn index(&self) -> (r: usize)
        ensures
            r == self.position(),
            r == fixed_position(self.handle()),
    {
        proof {
            use_type_invariant(self);
        }
        self.index
    }

    /// The backend's handle for this column.
    pub fn raw(&self) -> (r: RawFixed)
        ensures
            r == self.handle(),
    {
        self.raw
    }
}

impl InstanceColumn {
    #[verifier::type_invariant]
    spec fn bound(self) -> bool {
        self.index == instance_position(self.raw)
    }

    /// The position of this column among the instance columns.
    pub closed spec fn position(self) -> usize {
        self.index
    }

    /// The backend's handle for this column.
    pub closed spec fn handle(self) -> RawInstance {
        self.raw
    }

    /// Kind and position of this column.
    pub open spec fn id(self) -> ColumnId {
        ColumnId { kind: ColumnKind::Instance, index: self.position() }
    }

    /// The position of this column among the instance columns.
    pub fn index(&self) -> (r: usize)
        ensures
            r == self.position(),
            r == instance_position(self.handle()),
    {
        proof {
            use_type_invariant(self);
        }
        self.index
    }

    /// The backend's handle for this column.
    pub fn raw(&self) -> (r: RawInstance)
        ensures
            r == self.handle(),
    {
        self.raw
    }
}

/// A list of columns that agrees with a set of columns still agrees with it
/// after the same column was added to both.
proof fn lemma_noted(
    list: Seq<ColumnId>,
    set: Set<(ColumnKind, nat)>,
    id: ColumnId,
)
    requires
        forall|x: ColumnId| list.contains(x) <==> #[trigger] set.contains((x.kind, x.index as nat)),
    ensures
        forall|x: ColumnId|
            list.push(id).contains(x) <==> #[trigger] set.insert(
                (id.kind, id.index as nat),
            ).contains((x.kind, x.index as nat)),
{
    assert forall|x: ColumnId|
        list.push(id).contains(x) <==> #[trigger] set.insert((id.kind, id.index as nat)).contains(
            (x.kind, x.index as nat),
        ) by {
        let grown = list.push(id);
        if grown.contains(x) {
            let k = choose|k: int| 0 <= k < grown.len() && grown[k] == x;
            if k < list.len() {
                assert(list[k] == x);
                assert(list.contains(x));
            }
        }
        if list.contains(x) {
            let k = choose|k: int| 0 <= k < list.len() && list[k] == x;
            assert(grown[k] == x);
        }
        if x == id {
            assert(grown[list.len() as int] == x);
        }
        assert(list.contains(x) <==> set.contains((x.kind, x.index as nat)));
    }
}

/// The structural declaration of a circuit: how many columns of each kind it
/// has, and on which of them cells may be constrained equal.
///
/// The registry counts along with the backend's constraint system, which it
/// owns, so that the position of every column it hands out is known.
pub struct Registry {
    raw: RawRegistry,
    advice: usize,
    fixed: usize,
    instance: usize,
    equality: Vec<ColumnId>,
}

impl Registry {
    /// The registry's counts are those of the backend, and it has noted
    /// equality on the columns on which the backend has enabled it.
    pub closed spec fn wf(&self) -> bool {
        &&& self.advice == declared(self.raw, ColumnKind::Advice)
        &&& self.fixed == declared(self.raw, ColumnKind::Fixed)
        &&& self.instance == declared(self.raw, ColumnKind::Instance)
        &&& forall|id: ColumnId|
            self.equality@.contains(id) <==> #[trigger] equality_of(self.raw).contains(
                (id.kind, id.index as nat),
            )
    }

    /// How many columns of a kind have been declared.
    pub closed spec fn count(&self, kind: ColumnKind) -> nat {
        match kind {
            ColumnKind::Advice => self.advice as nat,
            ColumnKind::Fixed => self.fixed as nat,
            ColumnKind::Instance => self.instance as nat,
        }
    }

    /// The columns on which equality is enabled.
    pub closed spec fn equality(&self) -> Set<ColumnId> {
        Set::new(|id: ColumnId| equality_of(self.raw).contains((id.kind, id.index as nat)))
    }

    /// A registry without columns.
    pub fn new() -> (r: Registry)
        ensures
            r.wf(),
            forall|kind: ColumnKind| r.count(kind) == 0,
            r.equality() == Set::<ColumnId>::empty(),
    {
        Registry { raw: registry_new(), advice: 0, fixed: 0, instance: 0, equality: Vec::new() }
    }

    /// The number of columns of a kind.
    pub fn columns(&self, kind: ColumnKind) -> (r: usize)
        ensures
            r == self.count(kind),
    {
        match kind {
            ColumnKind::Advice => self.advice,
            ColumnKind::Fixed => self.fixed,
            ColumnKind::Instance => self.instance,
        }
    }

    /// Whether equality is enabled on the column.
    pub fn equality_enabled(&self, column: ColumnId) -> (r: bool)
        requires
            self.wf(),
        ensures
            r == self.equality().contains(column),
    {
        let ghost noted = equality_of(self.raw).contains((column.kind, column.index as nat));
        let mut i: usize = 0;
        while i < self.equality.len()
            invariant
                self.wf(),
                noted == equality_of(self.raw).contains((column.kind, column.index as nat)),
                i <= self.equality.len(),
                forall|j: int| 0 <= j < i ==> self.equality@[j] != column,
            decreases self.equality.len() - i,
        {
            if self.equality[i] == column {
                assert(self.equality@.contains(column));
                assert(noted);
                return true;
            }
            i += 1;
        }
        assert(!self.equality@.contains(column));
        assert(!noted);
        false
    }

    /// Declares an advice column. Its position is the number of advice
    /// columns declared before it. Fails, and changes nothing, only when that
    /// number has reached the largest `usize`.
    pub fn advice_column(&mut self) -> (r: Result<AdviceColumn, StructuralError>)
        requires
            old(self).wf(),
        ensures
            final(self).wf(),
            final(self).equality() == old(self).equality(),
            final(self).count(ColumnKind::Fixed) == old(self).count(ColumnKind::Fixed),
            final(self).count(ColumnKind::Instance) == old(self).count(ColumnKind::Instance),
            match r {
                Ok(column) => {
                    &&& old(self).count(ColumnKind::Advice) < usize::MAX
                    &&& column.position() == old(self).count(ColumnKind::Advice)
                    &&& final(self).count(ColumnKind::Advice) == old(self).count(ColumnKind::Advice)
                        + 1
                },
                Err(e) => {
                    &&& old(self).count(ColumnKind::Advice) >= usize::MAX
                    &&& e == (StructuralError::ColumnLimit { kind: ColumnKind::Advice })
                    &&& final(self).count(ColumnKind::Advice) == old(self).count(ColumnKind::Advice)
                },
            },
    {
        if self.advice == usize::MAX {
            return Err(StructuralError::ColumnLimit { kind: ColumnKind::Advice });
        }
        let index: usize = self.advice;
        let raw = registry_advice_column(&mut self.raw);
        self.advice = index + 1;
        Ok(AdviceColumn { index, raw })
    }

    /// Declares a fixed column. Its position is the number of fixed columns
    /// declared before it. Fails, and changes nothing, only when that number
    /// has reached the largest `usize`.
    pub fn fixed_column(&mut self) -> (r: Result<FixedColumn, StructuralError>)
        requires
            old(self).wf(),
        ensures
            final(self).wf(),
            final(self).equality() == old(self).equality(),
            final(self).count(ColumnKind::Advice) == old(self).count(ColumnKind::Advice),
            final(self).count(ColumnKind::Instance) == old(self).count(ColumnKind::Instance),
            match r {
                Ok(column) => {
                    &&& old(self).count(ColumnKind::Fixed) < usize::MAX
                    &&& column.position() == old(self).count(ColumnKind::Fixed)
                    &&& final(self).count(ColumnKind::Fixed) == old(self).count(ColumnKind::Fixed)
                        + 1
                },
                Err(e) => {
                    &&& old(self).count(ColumnKind::Fixed) >= usize::MAX
                    &&& e == (StructuralError::ColumnLimit { kind: ColumnKind::Fixed })
                    &&& final(self).count(ColumnKind::Fixed) == old(self).count(ColumnKind::Fixed)
                },
            },
    {
        if self.fixed == usize::MAX {
            return Err(StructuralError::ColumnLimit { kind: ColumnKind::Fixed });
        }
        let index: usize = self.fixed;
        let raw = registry_fixed_column(&mut self.raw);
        self.fixed = index + 1;
        Ok(FixedColumn { index, raw })
    }

    /// Declares an instance column. Its position is the number of instance
    /// columns declared before it. Fails, and changes nothing, only when that
    /// number has reached the largest `usize`.
    pub fn instance_column(&mut self) -> (r: Result<InstanceColumn, StructuralError>)
        requires
            old(self).wf(),
        ensures
            final(self).wf(),
            final(self).equality() == old(self).equality(),
            final(self).count(ColumnKind::Advice) == old(self).count(ColumnKind::Advice),
            final(self).count(ColumnKind::Fixed) == old(self).count(ColumnKind::Fixed),
            match r {
                Ok(column) => {
                    &&& old(self).count(ColumnKind::Instance) < usize::MAX
                    &&& column.position() == old(self).count(ColumnKind::Instance)
                    &&& final(self).count(ColumnKind::Instance) == old(self).count(ColumnKind::Instance)
                        + 1
                },
                Err(e) => {
                    &&& old(self).count(ColumnKind::Instance) >= usize::MAX
                    &&& e == (StructuralError::ColumnLimit { kind: ColumnKind::Instance })
                    &&& final(self).count(ColumnKind::Instance) == old(self).count(ColumnKind::Instance)
                },
            },
    {
        if self.instance == usize::MAX {
            return Err(StructuralError::ColumnLimit { kind: ColumnKind::Instance });
        }
        let index: usize = self.instance;
        let raw = registry_instance_column(&mut self.raw);
        self.instance = index + 1;
        Ok(InstanceColumn { index, raw })
    }

    /// Declares `n` advice columns, which take the next `n` positions in
    /// order. Fails, and changes nothing, only when the count of advice
    /// columns has no room for `n` more.
    pub fn advice_columns(&mut self, n: usize) -> (r: Result<Vec<AdviceColumn>, StructuralError>)
        requires
            old(self).wf(),
        ensures
            final(self).wf(),
            final(self).equality() == old(self).equality(),
            final(self).count(ColumnKind::Fixed) == old(self).count(ColumnKind::Fixed),
            final(self).count(ColumnKind::Instance) == old(self).count(ColumnKind::Instance),
            match r {
                Ok(columns) => {
                    &&& old(self).count(ColumnKind::Advice) + n <= usize::MAX
                    &&& columns@.len() == n
                    &&& forall|i: int|
                        0 <= i < n ==> (#[trigger] columns@[i]).position() == old(self).count(
                            ColumnKind::Advice,
                        ) + i
                    &&& final(self).count(ColumnKind::Advice) == old(self).count(ColumnKind::Advice)
                        + n
                },
                Err(e) => {
                    &&& old(self).count(ColumnKind::Advice) + n > usize::MAX
                    &&& e == (StructuralError::ColumnLimit { kind: ColumnKind::Advice })
                    &&& final(self).count(ColumnKind::Advice) == old(self).count(ColumnKind::Advice)
                },
            },
    {
        if n > usize::MAX - self.advice {
            return Err(StructuralError::ColumnLimit { kind: ColumnKind::Advice });
        }
        let ghost first = self.advice;
        let mut columns: Vec<AdviceColumn> = Vec::new();
        let mut i: usize = 0;
        while i < n
            invariant
                self.wf(),
                first == old(self).count(ColumnKind::Advice),
                first + n <= usize::MAX,
                i <= n,
                self.count(ColumnKind::Advice) == first + i,
                self.count(ColumnKind::Fixed) == old(self).count(ColumnKind::Fixed),
                self.count(ColumnKind::Instance) == old(self).count(ColumnKind::Instance),
                self.equality() == old(self).equality(),
                columns@.len() == i,
                forall|j: int| 0 <= j < i ==> (#[trigger] columns@[j]).position() == first + j,
            decreases n - i,
        {
            match self.advice_column() {
                Ok(column) => {
                    columns.push(column);
                },
                Err(e) => {
                    return Err(e);
                },
            }
            i += 1;
        }
        Ok(columns)
    }

    /// Declares `n` fixed columns, which take the next `n` positions in
    /// order. Fails, and changes nothing, only when the count of fixed
    /// columns has no room for `n` more.
    pub fn fixed_columns(&mut self, n: usize) -> (r: Result<Vec<FixedColumn>, StructuralError>)
        requires
            old(self).wf(),
        ensures
            final(self).wf(),
            final(self).equality() == old(self).equality(),
            final(self).count(ColumnKind::Advice) == old(self).count(ColumnKind::Advice),
            final(self).count(ColumnKind::Instance) == old(self).count(ColumnKind::Instance),
            match r {
                Ok(columns) => {
                    &&& old(self).count(ColumnKind::Fixed) + n <= usize::MAX
                    &&& columns@.len() == n
                    &&& forall|i: int|
                        0 <= i < n ==> (#[trigger] columns@[i]).position() == old(self).count(
                            ColumnKind::Fixed,
                        ) + i
                    &&& final(self).count(ColumnKind::Fixed) == old(self).count(ColumnKind::Fixed)
                        + n
                },
                Err(e) => {
                    &&& old(self).count(ColumnKind::Fixed) + n > usize::MAX
                    &&& e == (StructuralError::ColumnLimit { kind: ColumnKind::Fixed })
                    &&& final(self).count(ColumnKind::Fixed) == old(self).count(ColumnKind::Fixed)
                },
            },
    {
        if n > usize::MAX - self.fixed {
            return Err(StructuralError::ColumnLimit { kind: ColumnKind::Fixed });
        }
        let ghost first = self.fixed;
        let mut columns: Vec<FixedColumn> = Vec::new();
        let mut i: usize = 0;
        while i < n
            invariant
                self.wf(),
                first == old(self).count(ColumnKind::Fixed),
                first + n <= usize::MAX,
                i <= n,
                self.count(ColumnKind::Fixed) == first + i,
                self.count(ColumnKind::Advice) == old(self).count(ColumnKind::Advice),
                self.count(ColumnKind::Instance) == old(self).count(ColumnKind::Instance),
                self.equality() == old(self).equality(),
                columns@.len() == i,
                forall|j: int| 0 <= j < i ==> (#[trigger] columns@[j]).position() == first + j,
            decreases n - i,
        {
            match self.fixed_column() {
                Ok(column) => {
                    columns.push(column);
                },
                Err(e) => {
                    return Err(e);
                },
            }
            i += 1;
        }
        Ok(columns)
    }

    /// Lets cells of an advice column be constrained equal to other cells.
    ///
    /// Fails with `ColumnMismatch`, and changes nothing, exactly when the
    /// registry has declared no advice column at the column's position.
    pub fn enable_equality_advice(&mut self, column: &AdviceColumn) -> (r: Result<(), StructuralError>)
        requires
            old(self).wf(),
        ensures
            final(self).wf(),
            forall|kind: ColumnKind| final(self).count(kind) == old(self).count(kind),
            match r {
                Ok(()) => {
                    &&& column.position() < old(self).count(ColumnKind::Advice)
                    &&& final(self).equality() == old(self).equality().insert(column.id())
                },
                Err(e) => {
                    &&& column.position() >= old(self).count(ColumnKind::Advice)
                    &&& e == (StructuralError::ColumnMismatch {
                        kind: ColumnKind::Advice,
                        index: column.position(),
                    })
                    &&& final(self).equality() == old(self).equality()
                },
            },
    {
        let index: usize = column.index();
        if index >= self.columns(ColumnKind::Advice) {
            return Err(StructuralError::ColumnMismatch { kind: ColumnKind::Advice, index });
        }
        let id = ColumnId { kind: ColumnKind::Advice, index };
        proof {
            lemma_noted(self.equality@, equality_of(self.raw), id);
        }
        registry_equality_advice(&mut self.raw, &column.raw());
        self.equality.push(id);
        assert(final(self).equality() =~= old(self).equality().insert(column.id()));
        Ok(())
    }

    /// Lets cells of an instance column be constrained equal to other cells.
    ///
    /// Fails with `ColumnMismatch`, and changes nothing, exactly when the
    /// registry has declared no instance column at the column's position.
    pub fn enable_equality_instance(&mut self, column: &InstanceColumn) -> (r: Result<(), StructuralError>)
        requires
            old(self).wf(),
        ensures
            final(self).wf(),
            forall|kind: ColumnKind| final(self).count(kind) == old(self).count(kind),
            match r {
                Ok(()) => {
                    &&& column.position() < old(self).count(ColumnKind::Instance)
                    &&& final(self).equality() == old(self).equality().insert(column.id())
                },
                Err(e) => {
                    &&& column.position() >= old(self).count(ColumnKind::Instance)
                    &&& e == (StructuralError::ColumnMismatch {
                        kind: ColumnKind::Instance,
                        index: column.position(),
                    })
                    &&& final(self).equality() == old(self).equality()
                },
            },
    {
        let index: usize = column.index();
        if index >= self.columns(ColumnKind::Instance) {
            return Err(StructuralError::ColumnMismatch { kind: ColumnKind::Instance, index });
        }
        let id = ColumnId { kind: ColumnKind::Instance, index };
        proof {
            lemma_noted(self.equality@, equality_of(self.raw), id);
        }
        registry_equality_instance(&mut self.raw, &column.raw());
        self.equality.push(id);
        assert(final(self).equality() =~= old(self).equality().insert(column.id()));
        Ok(())
    }

    /// Lets a fixed column hold the circuit's global constants, which also
    /// enables equality on it.
    ///
    /// Fails with `ColumnMismatch`, and changes nothing, exactly when the
    /// registry has declared no fixed column at the column's position.
    pub fn enable_constant(&mut self, column: &FixedColumn) -> (r: Result<(), StructuralError>)
        requires
            old(self).wf(),
        ensures
            final(self).wf(),
            forall|kind: ColumnKind| final(self).count(kind) == old(self).count(kind),
            match r {
                Ok(()) => {
                    &&& column.position() < old(self).count(ColumnKind::Fixed)
                    &&& final(self).equality() == old(self).equality().insert(column.id())
                },
                Err(e) => {
                    &&& column.position() >= old(self).count(ColumnKind::Fixed)
                    &&& e == (StructuralError::ColumnMismatch {
                        kind: ColumnKind::Fixed,
                        index: column.position(),
                    })
                    &&& final(self).equality() == old(self).equality()
                },
            },
    {
        let index: usize = column.index();
        if index >= self.columns(ColumnKind::Fixed) {
            return Err(StructuralError::ColumnMismatch { kind: ColumnKind::Fixed, index });
        }
        let id = ColumnId { kind: ColumnKind::Fixed, index };
        proof {
            lemma_noted(self.equality@, equality_of(self.raw), id);
        }
        registry_enable_constant(&mut self.raw, &column.raw());
        self.equality.push(id);
        assert(final(self).equality() =~= old(self).equality().insert(column.id()));
        Ok(())
    }

    /// Gives up the backend's constraint system, for the permutation chip to
    /// add its gates to.
    pub fn into_raw(self) -> (r: RawRegistry)
        requires
            self.wf(),
        ensures
            forall|kind: ColumnKind| declared(r, kind) == self.count(kind),
            forall|id: ColumnId|
                self.equality().contains(id) <==> #[trigger] equality_of(r).contains(
                    (id.kind, id.index as nat),
                ),
    {
        self.raw
    }
}

} // verus!
