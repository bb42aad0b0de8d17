use circuit_harness::assigner::HelperChip;
use circuit_harness::backend::{BackendError, RawRegion};
use circuit_harness::error::{AssignmentError, ErrorClass};
use circuit_harness::felt::Felt;
use circuit_harness::mimc::MiMC5HashPallasCircuit;
use circuit_harness::region::{Cell, WitnessRegion};
use circuit_harness::registry::Registry;
use halo2_proofs::circuit::layouter::{RegionLayouter, RegionShape};
use halo2_proofs::circuit::{Cell as BackendCell, Region, Value};
use halo2_proofs::pasta::Fp;
use halo2_proofs::plonk::{Advice, Any, Assigned, Column, Error, Fixed, Instance, Selector};

/// A region that takes the first `room` advice cells offered to it, keeps
/// the values it was given, and turns every later offer down.
#[derive(Debug)]
struct Stingy {
    shape: RegionShape,
    room: usize,
    taken: Vec<(Column<Advice>, usize, Option<Fp>)>,
    tied: Vec<(String, String)>,
    refuse_equality: Option<Column<Any>>,
}

impl Stingy {
    fn new(room: usize) -> Self {
        Stingy {
            shape: RegionShape::new(0.into()),
            room,
            taken: Vec::new(),
            tied: Vec::new(),
            refuse_equality: None,
        }
    }
}

impl RegionLayouter<Fp> for Stingy {
    fn enable_selector<'v>(
        &'v mut self,
        annotation: &'v (dyn Fn() -> String + 'v),
        selector: &Selector,
        offset: usize,
    ) -> Result<(), Error> {
        RegionLayouter::<Fp>::enable_selector(&mut self.shape, annotation, selector, offset)
    }

    fn assign_advice<'v>(
        &'v mut self,
        annotation: &'v (dyn Fn() -> String + 'v),
        column: Column<Advice>,
        offset: usize,
        to: &'v mut (dyn FnMut() -> Value<Assigned<Fp>> + 'v),
    ) -> Result<BackendCell, Error> {
        if self.taken.len() >= self.room {
            return Err(Error::NotEnoughRowsAvailable { current_k: 3 });
        }
        let mut seen = None;
        to().map(|v| seen = Some(v.evaluate()));
        self.taken.push((column, offset, seen));
        RegionLayouter::<Fp>::assign_advice(&mut self.shape, annotation, column, offset, to)
    }

    fn assign_advice_from_constant<'v>(
        &'v mut self,
        annotation: &'v (dyn Fn() -> String + 'v),
        column: Column<Advice>,
        offset: usize,
        constant: Assigned<Fp>,
    ) -> Result<BackendCell, Error> {
        self.shape.assign_advice_from_constant(annotation, column, offset, constant)
    }

    fn assign_advice_from_instance<'v>(
        &mut self,
        annotation: &'v (dyn Fn() -> String + 'v),
        instance: Column<Instance>,
        row: usize,
        advice: Column<Advice>,
        offset: usize,
    ) -> Result<(BackendCell, Value<Fp>), Error> {
        self.shape.assign_advice_from_instance(annotation, instance, row, advice, offset)
    }

    fn instance_value(&mut self, instance: Column<Instance>, row: usize) -> Result<Value<Fp>, Error> {
        self.shape.instance_value(instance, row)
    }

    fn assign_fixed<'v>(
        &'v mut self,
        annotation: &'v (dyn Fn() -> String + 'v),
        column: Column<Fixed>,
        offset: usize,
        to: &'v mut (dyn FnMut() -> Value<Assigned<Fp>> + 'v),
    ) -> Result<BackendCell, Error> {
        RegionLayouter::<Fp>::assign_fixed(&mut self.shape, annotation, column, offset, to)
    }

    fn constrain_constant(&mut self, cell: BackendCell, constant: Assigned<Fp>) -> Result<(), Error> {
        self.shape.constrain_constant(cell, constant)
    }

    fn constrain_equal(&mut self, left: BackendCell, right: BackendCell) -> Result<(), Error> {
        self.tied.push((format!("{:?}", left), format!("{:?}", right)));
        match self.refuse_equality {
            Some(column) => Err(Error::ColumnNotInPermutation(column)),
            None => Ok(()),
        }
    }
}

fn felt(n: u64) -> Felt {
    Felt::from_raw([n, 0, 0, 0])
}

#[test]
fn backend_report_stops_the_inputs_and_keeps_what_was_placed() {
    let mut registry = Registry::new();
    let chip = HelperChip::new(HelperChip::configure(&mut registry).unwrap());
    let mut backend = Stingy::new(2);
    {
        let layouter: &mut dyn RegionLayouter<Fp> = &mut backend;
        let region: Region<'_, Fp> = layouter.into();
        let mut pass = WitnessRegion::open(RawRegion { inner: region }, 16);
        let mut offset = 0usize;
        let err = chip
            .assign_inputs(&mut pass, &mut offset, &vec![felt(4), felt(5), felt(6)])
            .unwrap_err();
        assert_eq!(
            err,
            AssignmentError::Backend {
                report: BackendError::NotEnoughRowsAvailable { current_k: 3 }
            }
        );
        assert_eq!(err.error_class(), ErrorClass::AssignmentError);
        assert_eq!(offset, 2);
        assert_eq!(pass.assigned(), 2);
        assert!(!pass.is_occupied(Cell { column: 0, offset: 2 }));
        let err = chip.assign_result(&mut pass, &mut offset, &felt(7)).unwrap_err();
        assert_eq!(
            err,
            AssignmentError::Backend {
                report: BackendError::NotEnoughRowsAvailable { current_k: 3 }
            }
        );
        assert_eq!(offset, 2);
        assert_eq!(pass.assigned(), 2);
    }
    let column = chip.config().limb.raw().inner;
    assert_eq!(backend.taken, vec![(column, 0, Some(Fp::from(4))), (column, 1, Some(Fp::from(5)))]);
}

#[test]
fn backend_sees_the_value_and_the_row_that_were_asked_for() {
    let mut registry = Registry::new();
    registry.advice_column().unwrap();
    let config = HelperChip::configure(&mut registry).unwrap();
    let mut backend = Stingy::new(8);
    {
        let layouter: &mut dyn RegionLayouter<Fp> = &mut backend;
        let region: Region<'_, Fp> = layouter.into();
        let mut pass = WitnessRegion::open(RawRegion { inner: region }, 16);
        let value = Felt::from_raw([3, 2, 1, 0]);
        pass.assign(&config.limb, 5, Some(value)).unwrap();
        pass.assign(&config.limb, 3, None).unwrap();
        assert_eq!(pass.cell(0), Cell { column: 1, offset: 5 });
        assert_eq!(pass.cell(1), Cell { column: 1, offset: 3 });
    }
    let column = config.limb.raw().inner;
    assert_eq!(format!("{:?}", column), "Column { index: 1, column_type: Advice }");
    assert_eq!(
        backend.taken,
        vec![(column, 5, Some(Fp::from_raw([3, 2, 1, 0]))), (column, 3, None)]
    );
    assert_eq!(backend.shape.row_count(), 6);
}

#[test]
fn refused_equality_is_reported_as_a_structural_failure() {
    let mut registry = Registry::new();
    let config = MiMC5HashPallasCircuit::configure(&mut registry).unwrap();
    let circuit = MiMC5HashPallasCircuit { message: felt(1), message_hash: felt(1) };
    let mut first = Stingy::new(8);
    let layouter: &mut dyn RegionLayouter<Fp> = &mut first;
    let region: Region<'_, Fp> = layouter.into();
    let mut pass = WitnessRegion::open(RawRegion { inner: region }, 16);
    let message = circuit.load_message(&config, &mut pass).unwrap();

    let mut second = Stingy::new(8);
    second.refuse_equality = Some(config.state.raw().inner.into());
    let layouter: &mut dyn RegionLayouter<Fp> = &mut second;
    let region: Region<'_, Fp> = layouter.into();
    let mut pass = WitnessRegion::open(RawRegion { inner: region }, 16);
    let err = circuit.constrain_output(&config, &mut pass, &message.cell).unwrap_err();
    assert_eq!(err, AssignmentError::Backend { report: BackendError::ColumnNotInPermutation });
    assert_eq!(err.error_class(), ErrorClass::StructuralError);
    assert_eq!(pass.assigned(), 1);
    assert_eq!(
        pass.constrain_equal(&message.cell, &message.cell),
        Err(BackendError::ColumnNotInPermutation)
    );

    let mut third = Stingy::new(8);
    let layouter: &mut dyn RegionLayouter<Fp> = &mut third;
    let region: Region<'_, Fp> = layouter.into();
    let mut pass = WitnessRegion::open(RawRegion { inner: region }, 16);
    let expected = circuit.constrain_output(&config, &mut pass, &message.cell).unwrap();
    assert_eq!(expected.value, Some(felt(1)));
    assert_eq!(expected.at, Cell { column: 0, offset: 0 });
    assert_eq!(pass.constrain_equal(&message.cell, &expected.cell), Ok(()));
}

#[test]
fn backend_is_asked_to_tie_exactly_the_two_cells_in_order() {
    let mut registry = Registry::new();
    registry.advice_column().unwrap();
    let config = HelperChip::configure(&mut registry).unwrap();
    let mut backend = Stingy::new(8);
    {
        let layouter: &mut dyn RegionLayouter<Fp> = &mut backend;
        let region: Region<'_, Fp> = layouter.into();
        let mut pass = WitnessRegion::open(RawRegion { inner: region }, 16);
        let low = pass.assign(&config.limb, 2, Some(felt(9))).unwrap();
        let high = pass.assign(&config.limb, 7, Some(felt(9))).unwrap();
        assert_eq!(pass.constrain_equal(&high.cell, &low.cell), Ok(()));
        assert_eq!(pass.constrain_equal(&low.cell, &low.cell), Ok(()));
        assert_eq!(pass.assigned(), 2);
    }
    let low = "Cell { region_index: RegionIndex(0), row_offset: 2, \
               column: Column { index: 1, column_type: Advice } }";
    let high = "Cell { region_index: RegionIndex(0), row_offset: 7, \
                column: Column { index: 1, column_type: Advice } }";
    assert_eq!(
        backend.tied,
        vec![(high.to_string(), low.to_string()), (low.to_string(), low.to_string())]
    );
    assert_eq!(backend.taken.len(), 2);
}

#[test]
fn refused_tie_was_still_asked_for_once() {
    let mut registry = Registry::new();
    let config = HelperChip::configure(&mut registry).unwrap();
    let mut backend = Stingy::new(8);
    backend.refuse_equality = Some(config.limb.raw().inner.into());
    {
        let layouter: &mut dyn RegionLayouter<Fp> = &mut backend;
        let region: Region<'_, Fp> = layouter.into();
        let mut pass = WitnessRegion::open(RawRegion { inner: region }, 16);
        let a = pass.assign(&config.limb, 0, Some(felt(1))).unwrap();
        let b = pass.assign(&config.limb, 1, Some(felt(2))).unwrap();
        assert_eq!(
            pass.constrain_equal(&a.cell, &b.cell),
            Err(BackendError::ColumnNotInPermutation)
        );
        assert_eq!(pass.assigned(), 2);
    }
    assert_eq!(backend.tied.len(), 1);
    assert!(backend.tied[0].0.contains("row_offset: 0"));
    assert!(backend.tied[0].1.contains("row_offset: 1"));
}
