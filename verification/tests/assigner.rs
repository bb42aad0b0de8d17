use circuit_harness::assigner::{HelperChip, HelperChipConfig};
use circuit_harness::backend::{BackendError, ColumnKind, RawRegion, MAX_ROWS};
use circuit_harness::error::{AssignmentError, ErrorClass, StructuralError};
use circuit_harness::felt::Felt;
use circuit_harness::region::{Cell, WitnessRegion};
use circuit_harness::registry::{ColumnId, Registry};
use halo2_proofs::circuit::layouter::{RegionLayouter, RegionShape};
use halo2_proofs::circuit::Region;
use halo2_proofs::pasta::Fp;

fn felt(n: u64) -> Felt {
    Felt::from_raw([n, 0, 0, 0])
}

fn chip(registry: &mut Registry) -> HelperChip {
    HelperChip::new(HelperChip::configure(registry).unwrap())
}

#[test]
fn helper_chip_configure_declares_one_equality_column() {
    let mut registry = Registry::new();
    let first: HelperChipConfig = HelperChip::configure(&mut registry).unwrap();
    let second: HelperChipConfig = HelperChip::configure(&mut registry).unwrap();
    assert_eq!(first.limb.index(), 0);
    assert_eq!(second.limb.index(), 1);
    assert_eq!(registry.columns(ColumnKind::Advice), 2);
    assert_eq!(registry.columns(ColumnKind::Fixed), 0);
    assert_eq!(registry.columns(ColumnKind::Instance), 0);
    assert!(registry.equality_enabled(ColumnId { kind: ColumnKind::Advice, index: 0 }));
    assert!(registry.equality_enabled(ColumnId { kind: ColumnKind::Advice, index: 1 }));
    assert!(!registry.equality_enabled(ColumnId { kind: ColumnKind::Advice, index: 2 }));
    assert!(!registry.equality_enabled(ColumnId { kind: ColumnKind::Fixed, index: 0 }));
    let chip = HelperChip::new(first);
    assert_eq!(chip.config().limb.index(), 0);
    assert_eq!(chip.loaded(), ());
}

#[test]
fn inputs_then_result_fill_strictly_increasing_rows() {
    let mut registry = Registry::new();
    let chip = chip(&mut registry);
    let mut shape = RegionShape::new(0.into());
    {
        let layouter: &mut dyn RegionLayouter<Fp> = &mut shape;
        let region: Region<'_, Fp> = layouter.into();
        let mut pass = WitnessRegion::open(RawRegion { inner: region }, 16);
        let mut offset = 0usize;
        let inputs = vec![felt(7), felt(8), felt(9)];
        let limbs = chip.assign_inputs(&mut pass, &mut offset, &inputs).unwrap();
        assert_eq!(offset, 3);
        let result = chip.assign_result(&mut pass, &mut offset, &felt(10)).unwrap();
        assert_eq!(offset, 4);
        assert_eq!(limbs.len(), 3);
        for (i, limb) in limbs.iter().enumerate() {
            assert_eq!(limb.value, Some(inputs[i]));
            assert_eq!(limb.at, Cell { column: 0, offset: i });
        }
        assert_eq!(result.value, Some(felt(10)));
        assert_eq!(result.at, Cell { column: 0, offset: 3 });
        assert_eq!(pass.assigned(), 4);
        for i in 0..4 {
            assert_eq!(pass.cell(i), Cell { column: 0, offset: i });
            assert!(pass.is_occupied(Cell { column: 0, offset: i }));
        }
        for i in 1..4 {
            assert!(pass.cell(i - 1).offset < pass.cell(i).offset);
        }
        assert!(!pass.is_occupied(Cell { column: 0, offset: 4 }));
        assert!(!pass.is_occupied(Cell { column: 1, offset: 0 }));
        let _ = pass.close();
    }
    assert_eq!(shape.row_count(), 4);
    assert_eq!(shape.columns().len(), 1);
}

#[test]
fn handle_carries_the_value_bit_for_bit() {
    let mut registry = Registry::new();
    let chip = chip(&mut registry);
    let mut shape = RegionShape::new(0.into());
    let layouter: &mut dyn RegionLayouter<Fp> = &mut shape;
    let region: Region<'_, Fp> = layouter.into();
    let mut pass = WitnessRegion::open(RawRegion { inner: region }, 4);
    let mut offset = 0usize;
    let value = Felt::from_raw([
        0x9f72277137a37266,
        0x17bdddc79f44f08b,
        0x76008edf3b0d7d10,
        0x11f013adb9e0ff65,
    ]);
    let limb = chip.assign_result(&mut pass, &mut offset, &value).unwrap();
    assert_eq!(limb.value.unwrap().limbs, value.limbs);
}

#[test]
fn occupied_cell_fails_at_once() {
    let mut registry = Registry::new();
    let chip = chip(&mut registry);
    let mut shape = RegionShape::new(0.into());
    {
        let layouter: &mut dyn RegionLayouter<Fp> = &mut shape;
        let region: Region<'_, Fp> = layouter.into();
        let mut pass = WitnessRegion::open(RawRegion { inner: region }, 16);
        let mut offset = 0usize;
        chip.assign_result(&mut pass, &mut offset, &felt(1)).unwrap();
        let mut again = 0usize;
        let err = chip.assign_result(&mut pass, &mut again, &felt(2)).unwrap_err();
        assert_eq!(err, AssignmentError::CellOccupied { column: 0, offset: 0 });
        assert_eq!(err.error_class(), ErrorClass::AssignmentError);
        assert_eq!(again, 0);
        assert_eq!(pass.assigned(), 1);
        assert_eq!(
            pass.refusal(Cell { column: 0, offset: 0 }),
            Some(AssignmentError::CellOccupied { column: 0, offset: 0 })
        );
        assert_eq!(pass.refusal(Cell { column: 0, offset: 1 }), None);
    }
    assert_eq!(shape.row_count(), 1);
}

#[test]
fn inputs_stop_at_the_first_occupied_cell() {
    let mut registry = Registry::new();
    let config = HelperChip::configure(&mut registry).unwrap();
    let chip = HelperChip::new(config);
    let mut shape = RegionShape::new(0.into());
    let layouter: &mut dyn RegionLayouter<Fp> = &mut shape;
    let region: Region<'_, Fp> = layouter.into();
    let mut pass = WitnessRegion::open(RawRegion { inner: region }, 16);
    pass.assign(&config.limb, 2, Some(felt(5))).unwrap();
    let mut offset = 0usize;
    let err = chip
        .assign_inputs(&mut pass, &mut offset, &vec![felt(1), felt(2), felt(3), felt(4)])
        .unwrap_err();
    assert_eq!(err, AssignmentError::CellOccupied { column: 0, offset: 2 });
    assert_eq!(offset, 2);
    assert_eq!(pass.assigned(), 3);
    assert_eq!(pass.cell(0), Cell { column: 0, offset: 2 });
    assert_eq!(pass.cell(1), Cell { column: 0, offset: 0 });
    assert_eq!(pass.cell(2), Cell { column: 0, offset: 1 });
}

#[test]
fn capacity_is_the_number_of_rows() {
    let mut registry = Registry::new();
    let chip = chip(&mut registry);
    let mut shape = RegionShape::new(0.into());
    {
        let layouter: &mut dyn RegionLayouter<Fp> = &mut shape;
        let region: Region<'_, Fp> = layouter.into();
        let mut pass = WitnessRegion::open(RawRegion { inner: region }, 2);
        assert_eq!(pass.rows(), 2);
        let mut offset = 0usize;
        let err = chip
            .assign_inputs(&mut pass, &mut offset, &vec![felt(1), felt(2), felt(3)])
            .unwrap_err();
        assert_eq!(err, AssignmentError::CapacityExceeded { offset: 2, capacity: 2 });
        assert_eq!(err.error_class(), ErrorClass::AssignmentError);
        assert_eq!(offset, 2);
        assert_eq!(pass.assigned(), 2);
        let err = chip.assign_result(&mut pass, &mut offset, &felt(4)).unwrap_err();
        assert_eq!(err, AssignmentError::CapacityExceeded { offset: 2, capacity: 2 });
        assert_eq!(offset, 2);
    }
    assert_eq!(shape.row_count(), 2);
}

#[test]
fn region_never_has_more_than_max_rows() {
    let mut shape = RegionShape::new(0.into());
    let layouter: &mut dyn RegionLayouter<Fp> = &mut shape;
    let region: Region<'_, Fp> = layouter.into();
    let pass = WitnessRegion::open(RawRegion { inner: region }, usize::MAX);
    assert_eq!(pass.rows(), MAX_ROWS);
    assert_eq!(MAX_ROWS, 1usize << 31);
    assert_eq!(
        pass.refusal(Cell { column: 0, offset: MAX_ROWS }),
        Some(AssignmentError::CapacityExceeded { offset: MAX_ROWS, capacity: MAX_ROWS })
    );
    assert_eq!(pass.refusal(Cell { column: 0, offset: MAX_ROWS - 1 }), None);
}

#[test]
fn empty_input_list_places_nothing() {
    let mut registry = Registry::new();
    let chip = chip(&mut registry);
    let mut shape = RegionShape::new(0.into());
    {
        let layouter: &mut dyn RegionLayouter<Fp> = &mut shape;
        let region: Region<'_, Fp> = layouter.into();
        let mut pass = WitnessRegion::open(RawRegion { inner: region }, 0);
        let mut offset = 5usize;
        let limbs = chip.assign_inputs(&mut pass, &mut offset, &vec![]).unwrap();
        assert!(limbs.is_empty());
        assert_eq!(offset, 5);
        assert_eq!(pass.assigned(), 0);
    }
    assert_eq!(shape.row_count(), 0);
}

#[test]
fn settle_books_a_backend_report_without_touching_the_ledger() {
    let mut shape = RegionShape::new(0.into());
    let layouter: &mut dyn RegionLayouter<Fp> = &mut shape;
    let region: Region<'_, Fp> = layouter.into();
    let mut pass = WitnessRegion::open(RawRegion { inner: region }, 4);
    let at = Cell { column: 3, offset: 1 };
    let err = pass
        .settle(Err(BackendError::NotEnoughRowsAvailable { current_k: 4 }), at, Some(felt(1)))
        .unwrap_err();
    assert_eq!(
        err,
        AssignmentError::Backend { report: BackendError::NotEnoughRowsAvailable { current_k: 4 } }
    );
    assert_eq!(err.error_class(), ErrorClass::AssignmentError);
    assert_eq!(pass.assigned(), 0);
    assert!(!pass.is_occupied(at));
    let err = pass.settle(Err(BackendError::ColumnNotInPermutation), at, None).unwrap_err();
    assert_eq!(err.error_class(), ErrorClass::StructuralError);
}

#[test]
fn column_limit_is_a_structural_error() {
    let err = StructuralError::ColumnLimit { kind: ColumnKind::Advice };
    assert_ne!(err, StructuralError::ColumnLimit { kind: ColumnKind::Fixed });
    assert_ne!(err, StructuralError::ShapeMismatch { width: 3, rate: 2, arity: 2 });
}

#[test]
fn each_handle_carries_the_backend_cell_of_its_own_row() {
    let mut registry = Registry::new();
    registry.advice_column().unwrap();
    let chip = chip(&mut registry);
    let mut shape = RegionShape::new(4.into());
    let layouter: &mut dyn RegionLayouter<Fp> = &mut shape;
    let region: Region<'_, Fp> = layouter.into();
    let mut pass = WitnessRegion::open(RawRegion { inner: region }, 16);
    let mut offset = 3usize;
    let result = chip.assign_result(&mut pass, &mut offset, &felt(1)).unwrap();
    let limbs = chip.assign_inputs(&mut pass, &mut offset, &vec![felt(2), felt(3), felt(4)]).unwrap();
    let cell = |row: usize| {
        format!(
            "Cell {{ region_index: RegionIndex(4), row_offset: {}, \
             column: Column {{ index: 1, column_type: Advice }} }}",
            row
        )
    };
    assert_eq!(format!("{:?}", result.cell.inner.cell()), cell(3));
    for (i, limb) in limbs.iter().enumerate() {
        assert_eq!(limb.at, Cell { column: 1, offset: 4 + i });
        assert_eq!(format!("{:?}", limb.cell.inner.cell()), cell(4 + i));
    }
}
