//! The boundary to the proving backend.
//!
//! Everything in this file is believed, not proved. The `Raw` types hold
//! values of `halo2_proofs` whose own declarations are bound by traits of
//! that crate, which the verifier cannot take; nothing is known of such a
//! value but what the functions here state. Each function makes one call into
//! the backend, and its contract says what the backend's source shows.

use vstd::prelude::*;
use ff::{Field, PrimeField};
use halo2_poseidon::{ConstantLength, P128Pow5T3};
use halo2_proofs::circuit::{AssignedCell, Region, Value};
use halo2_proofs::pasta::Fp;
use halo2_proofs::plonk::{Advice, Column, ConstraintSystem, Error, Fixed, Instance};
use crate::felt::{pow5_mod, Felt};

verus! {

/// The kinds of table column a circuit can declare.
#[derive(Clone, Copy, Debug, PartialEq, Eq, Structural)]
pub enum ColumnKind {
    /// Values supplied anew for every proof.
    Advice,
    /// Values fixed by the circuit's shape.
    Fixed,
    /// Values known to prover and verifier alike.
    Instance,
}

/// Most rows a region may address: `2^31`. The backend's layouters add the
/// row at which a region starts to a row offset, in `usize`; with offsets
/// below this bound the sum fits for every table the backend can commit to.
pub const MAX_ROWS: usize = 0x8000_0000;

/// A `halo2_proofs::plonk::ConstraintSystem` over the Pallas base field.
#[verifier::external_body]
pub struct RawRegistry {
    pub inner: ConstraintSystem<Fp>,
}

/// A `halo2_proofs::plonk::Column<Advice>`.
#[verifier::external_body]
#[derive(Debug)]
pub struct RawAdvice {
    pub inner: Column<Advice>,
}

/// A `halo2_proofs::plonk::Column<Fixed>`.
#[verifier::external_body]
#[derive(Debug)]
pub struct RawFixed {
    pub inner: Column<Fixed>,
}

/// A `halo2_proofs::plonk::Column<Instance>`.
#[verifier::external_body]
#[derive(Debug)]
pub struct RawInstance {
    pub inner: Column<Instance>,
}

impl Clone for RawAdvice {
    /// `Column::clone`: the same column again.
    #[verifier::external_body]
    fn clone(&self) -> (r: Self)
        ensures
            r == *self,
    {
        RawAdvice { inner: self.inner }
    }
}

impl Copy for RawAdvice {

}

impl Clone for RawFixed {
    /// `Column::clone`: the same column again.
    #[verifier::external_body]
    fn clone(&self) -> (r: Self)
        ensures
            r == *self,
    {
        RawFixed { inner: self.inner }
    }
}

impl Copy for RawFixed {

}

impl Clone for RawInstance {
    /// `Column::clone`: the same column again.
    #[verifier::external_body]
    fn clone(&self) -> (r: Self)
        ensures
            r == *self,
    {
        RawInstance { inner: self.inner }
    }
}

impl Copy for RawInstance {

}

/// A `halo2_proofs::circuit::Region` over the Pallas base field.
#[verifier::external_body]
pub struct RawRegion<'r> {
    pub inner: Region<'r, Fp>,
}

/// A `halo2_proofs::circuit::AssignedCell` that holds a Pallas base field
/// element.
#[verifier::external_body]
#[derive(Debug)]
pub struct RawCell {
    pub inner: AssignedCell<Fp, Fp>,
}

/// `halo2_proofs::plonk::Error`, carried through unopened.
#[verifier::external_type_specification]
#[verifier::external_body]
pub struct ExError(Error);

/// What `halo2_proofs::plonk::Error` reports, as a value of this crate.
#[derive(Clone, Copy, Debug, PartialEq, Eq, Structural)]
pub enum BackendError {
    /// A witness value was needed and not present.
    Synthesis,
    /// The public inputs do not match the circuit.
    InvalidInstances,
    /// A gate does not vanish on the witness.
    ConstraintSystemFailure,
    /// An index beyond the backend's tables.
    BoundsFailure,
    /// A commitment opening did not check.
    Opening,
    /// The transcript could not be read or written.
    Transcript,
    /// The table of `2^current_k` rows is too small for the circuit.
    NotEnoughRowsAvailable { current_k: u32 },
    /// More public inputs than rows.
    InstanceTooLarge,
    /// No fixed column has room for the global constants.
    NotEnoughColumnsForConstants,
    /// A copy constraint on a column without equality.
    ColumnNotInPermutation,
    /// A lookup table was laid out wrongly.
    TableError,
    /// Any report this crate has no name for.
    Other,
}

/// How many columns of a kind the backend's constraint system has declared.
pub uninterp spec fn declared(registry: RawRegistry, kind: ColumnKind) -> nat;

/// The columns, by kind and position, on which the backend's constraint
/// system has enabled equality.
pub uninterp spec fn equality_of(registry: RawRegistry) -> Set<(ColumnKind, nat)>;

/// The position of an advice column among the advice columns of its
/// constraint system, counted from zero.
pub uninterp spec fn advice_position(column: RawAdvice) -> nat;

/// The position of a fixed column among the fixed columns of its constraint
/// system, counted from zero.
pub uninterp spec fn fixed_position(column: RawFixed) -> nat;

/// The position of an instance column among the instance columns of its
/// constraint system, counted from zero.
pub uninterp spec fn instance_position(column: RawInstance) -> nat;

/// `ConstraintSystem::default`: a constraint system without any column, and
/// so without equality on any.
#[verifier::external_body]
pub(crate) fn registry_new() -> (r: RawRegistry)
    ensures
        declared(r, ColumnKind::Advice) == 0,
        declared(r, ColumnKind::Fixed) == 0,
        declared(r, ColumnKind::Instance) == 0,
        equality_of(r) == Set::<(ColumnKind, nat)>::empty(),
{
    RawRegistry { inner: ConstraintSystem::default() }
}

/// `ConstraintSystem::advice_column`: declares one more advice column, at the
/// position that the count of advice columns stood at, and touches no other
/// count. The backend counts in `usize`, so the count must have room for one
/// more.
#[verifier::external_body]
pub(crate) fn registry_advice_column(registry: &mut RawRegistry) -> (r: RawAdvice)
    requires
        declared(*old(registry), ColumnKind::Advice) < usize::MAX,
    ensures
        advice_position(r) == declared(*old(registry), ColumnKind::Advice),
        equality_of(*final(registry)) == equality_of(*old(registry)),
        declared(*final(registry), ColumnKind::Advice) == declared(
            *old(registry),
            ColumnKind::Advice,
        ) + 1,
        declared(*final(registry), ColumnKind::Fixed) == declared(
            *old(registry),
            ColumnKind::Fixed,
        ),
        declared(*final(registry), ColumnKind::Instance) == declared(
            *old(registry),
            ColumnKind::Instance,
        ),
{
    RawAdvice { inner: registry.inner.advice_column() }
}

/// `ConstraintSystem::fixed_column`: declares one more fixed column, at the
/// position that the count of fixed columns stood at, and touches no other
/// count.
#[verifier::external_body]
pub(crate) fn registry_fixed_column(registry: &mut RawRegistry) -> (r: RawFixed)
    requires
        declared(*old(registry), ColumnKind::Fixed) < usize::MAX,
    ensures
        fixed_position(r) == declared(*old(registry), ColumnKind::Fixed),
        equality_of(*final(registry)) == equality_of(*old(registry)),
        declared(*final(registry), ColumnKind::Fixed) == declared(
            *old(registry),
            ColumnKind::Fixed,
        ) + 1,
        declared(*final(registry), ColumnKind::Advice) == declared(
            *old(registry),
            ColumnKind::Advice,
        ),
        declared(*final(registry), ColumnKind::Instance) == declared(
            *old(registry),
            ColumnKind::Instance,
        ),
{
    RawFixed { inner: registry.inner.fixed_column() }
}

/// `ConstraintSystem::instance_column`: declares one more instance column, at
/// the position that the count of instance columns stood at, and touches no
/// other count.
#[verifier::external_body]
pub(crate) fn registry_instance_column(registry: &mut RawRegistry) -> (r: RawInstance)
    requires
        declared(*old(registry), ColumnKind::Instance) < usize::MAX,
    ensures
        instance_position(r) == declared(*old(registry), ColumnKind::Instance),
        equality_of(*final(registry)) == equality_of(*old(registry)),
        declared(*final(registry), ColumnKind::Instance) == declared(
            *old(registry),
            ColumnKind::Instance,
        ) + 1,
        declared(*final(registry), ColumnKind::Advice) == declared(
            *old(registry),
            ColumnKind::Advice,
        ),
        declared(*final(registry), ColumnKind::Fixed) == declared(
            *old(registry),
            ColumnKind::Fixed,
        ),
{
    RawInstance { inner: registry.inner.instance_column() }
}

/// `ConstraintSystem::enable_equality` on an advice column: adds the column to
/// the permutation argument, if it is not in it yet, and declares no column.
/// The backend counts the queries of each advice column it has declared, by
/// the column's position, so the column must be one of them.
#[verifier::external_body]
pub(crate) fn registry_equality_advice(registry: &mut RawRegistry, column: &RawAdvice)
    requires
        advice_position(*column) < declared(*old(registry), ColumnKind::Advice),
    ensures
        equality_of(*final(registry)) == equality_of(*old(registry)).insert(
            (ColumnKind::Advice, advice_position(*column)),
        ),
        forall|kind: ColumnKind| #[trigger]
            declared(*final(registry), kind) == declared(*old(registry), kind),
{
    registry.inner.enable_equality(column.inner)
}

/// `ConstraintSystem::enable_equality` on an instance column: adds the column
/// to the permutation argument, if it is not in it yet, and declares no
/// column.
#[verifier::external_body]
pub(crate) fn registry_equality_instance(registry: &mut RawRegistry, column: &RawInstance)
    ensures
        equality_of(*final(registry)) == equality_of(*old(registry)).insert(
            (ColumnKind::Instance, instance_position(*column)),
        ),
        forall|kind: ColumnKind| #[trigger]
            declared(*final(registry), kind) == declared(*old(registry), kind),
{
    registry.inner.enable_equality(column.inner)
}

/// `ConstraintSystem::enable_constant`: lets the fixed column hold global
/// constants, enables equality on it, and declares no column.
#[verifier::external_body]
pub(crate) fn registry_enable_constant(registry: &mut RawRegistry, column: &RawFixed)
    ensures
        equality_of(*final(registry)) == equality_of(*old(registry)).insert(
            (ColumnKind::Fixed, fixed_position(*column)),
        ),
        forall|kind: ColumnKind| #[trigger]
            declared(*final(registry), kind) == declared(*old(registry), kind),
{
    registry.inner.enable_constant(column.inner)
}

/// What a region has been offered so far, in the order of the offers: for
/// each, the position of the advice column, the row offset, and the witness
/// (`None` for a witness that is not known).
pub uninterp spec fn offered(region: RawRegion<'_>) -> Seq<(nat, nat, Option<Felt>)>;

/// The cells that a region has handed out so far, one for each offer it took,
/// in that order.
pub uninterp spec fn granted(region: RawRegion<'_>) -> Seq<RawCell>;

/// The pairs of cells that a region has been asked to constrain equal so
/// far, in the order of the requests, each pair as it was handed over.
pub uninterp spec fn tied(region: RawRegion<'_>) -> Seq<(RawCell, RawCell)>;

/// How many regions the layouter behind a region can look up by index: those
/// it has laid out, the region itself among them.
pub uninterp spec fn regions_known(region: RawRegion<'_>) -> nat;

/// The index, with its layouter, of the region that a cell lies in.
pub uninterp spec fn region_index(cell: RawCell) -> nat;

/// `Region::assign_advice`: offers the backend a witness for the cell at
/// `offset` in `column`; `None` offers `Value::unknown()`, any other value the
/// field element that `Fp::from_raw` makes of its limbs. The offer is made
/// whatever becomes of it: whether the cell is taken is the layouter's
/// decision, so nothing is promised of the result. A cell that comes back
/// lies in this region, which its layouter knows. No constraint is asked
/// for, and the layouter lays out no region meanwhile.
#[verifier::external_body]
pub(crate) fn region_assign_advice(
    region: &mut RawRegion<'_>,
    column: &RawAdvice,
    offset: usize,
    value: Option<Felt>,
) -> (r: Result<RawCell, Error>)
    requires
        offset < MAX_ROWS,
    ensures
        offered(*final(region)) == offered(*old(region)).push(
            (advice_position(*column), offset as nat, value),
        ),
        tied(*final(region)) == tied(*old(region)),
        regions_known(*final(region)) == regions_known(*old(region)),
        match r {
            Ok(cell) => granted(*final(region)) == granted(*old(region)).push(cell)
                && region_index(cell) < regions_known(*final(region)),
            Err(_) => granted(*final(region)) == granted(*old(region)),
        },
{
    let witness = match value {
        Some(v) => Value::known(Fp::from_raw(v.limbs)),
        None => Value::unknown(),
    };
    match region.inner.assign_advice(|| "witness", column.inner, offset, || witness) {
        Ok(inner) => Ok(RawCell { inner }),
        Err(e) => Err(e),
    }
}

/// `Region::constrain_equal`: asks the backend to tie two cells together,
/// `left` first. The request is made whatever becomes of it: whether the
/// cells are tied is the layouter's decision, so nothing is promised of the
/// result. The layouter looks the regions of both cells up by their index,
/// so it must know them. No cell is offered or handed out.
#[verifier::external_body]
pub(crate) fn region_constrain_equal(
    region: &mut RawRegion<'_>,
    left: &RawCell,
    right: &RawCell,
) -> (r: Result<(), Error>)
    requires
        region_index(*left) < regions_known(*old(region)),
        region_index(*right) < regions_known(*old(region)),
    ensures
        offered(*final(region)) == offered(*old(region)),
        granted(*final(region)) == granted(*old(region)),
        regions_known(*final(region)) == regions_known(*old(region)),
        tied(*final(region)) == tied(*old(region)).push((*left, *right)),
{
    region.inner.constrain_equal(left.inner.cell(), right.inner.cell())
}

/// `Field::pow_vartime` with the exponent 5, on the Pallas base field: the
/// limbs are read as an integer and reduced (`Fp::from_raw`), raised to the
/// fifth power, and written out as the least residue (`PrimeField::to_repr`).
#[verifier::external_body]
pub(crate) fn field_pow5(val: &Felt) -> (r: Felt)
    ensures
        r.value() == pow5_mod(val.value()),
{
    let out = Fp::from_raw(val.limbs).pow_vartime([5u64]).to_repr();
    Felt {
        limbs: [
            u64::from_le_bytes(out[0..8].try_into().unwrap()),
            u64::from_le_bytes(out[8..16].try_into().unwrap()),
            u64::from_le_bytes(out[16..24].try_into().unwrap()),
            u64::from_le_bytes(out[24..32].try_into().unwrap()),
        ],
    }
}

/// What the Poseidon hash over the Pallas base field makes of a message of
/// fixed length: width 3, rate 2, an `x^5` S-box, 8 full and 56 partial
/// rounds, the message length in the capacity element.
pub uninterp spec fn poseidon_image(message: Seq<Felt>) -> Felt;

/// `halo2_poseidon::Hash::hash` with the `P128Pow5T3` parameters and the
/// `ConstantLength` domain. The digest depends on the message alone. The
/// sponge squeezes only after it has absorbed, so the message must not be
/// empty.
#[verifier::external_body]
pub(crate) fn poseidon_hash<const L: usize>(message: &[Felt; L]) -> (r: Felt)
    requires
        L > 0,
    ensures
        r == poseidon_image(message@),
{
    let words = message.map(|m| Fp::from_raw(m.limbs));
    let out = halo2_poseidon::Hash::<Fp, P128Pow5T3, ConstantLength<L>, 3, 2>::init().hash(words).to_repr();
    Felt {
        limbs: [
            u64::from_le_bytes(out[0..8].try_into().unwrap()),
            u64::from_le_bytes(out[8..16].try_into().unwrap()),
            u64::from_le_bytes(out[16..24].try_into().unwrap()),
            u64::from_le_bytes(out[24..32].try_into().unwrap()),
        ],
    }
}

/// Tells the variants of `halo2_proofs::plonk::Error` apart.
#[verifier::external_body]
pub(crate) fn error_kind(error: &Error) -> (r: BackendError)
{
    match error {
        Error::Synthesis => BackendError::Synthesis,
        Error::InvalidInstances => BackendError::InvalidInstances,
        Error::ConstraintSystemFailure => BackendError::ConstraintSystemFailure,
        Error::BoundsFailure => BackendError::BoundsFailure,
        Error::Opening => BackendError::Opening,
        Error::Transcript(_) => BackendError::Transcript,
        Error::NotEnoughRowsAvailable { current_k: k } => BackendError::NotEnoughRowsAvailable { current_k: *k },
        Error::InstanceTooLarge => BackendError::InstanceTooLarge,
        Error::NotEnoughColumnsForConstants => BackendError::NotEnoughColumnsForConstants,
        Error::ColumnNotInPermutation(_) => BackendError::ColumnNotInPermutation,
        Error::TableError(_) => BackendError::TableError,
        _ => BackendError::Other,
    }
}

} // verus!
