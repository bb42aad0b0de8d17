use circuit_harness::felt::Felt;

#[test]
fn felt_constants() {
    assert_eq!(Felt::zero().limbs, [0, 0, 0, 0]);
    assert_eq!(Felt::one().limbs, [1, 0, 0, 0]);
    assert_ne!(Felt::zero(), Felt::one());
}

#[test]
fn felt_from_raw_keeps_the_limbs() {
    let limbs = [0xd2c05d6490535385, 0xba56470b9af68708, 0xd03583cf0100e593, 0x2042def740cbc01b];
    let value = Felt::from_raw(limbs);
    assert_eq!(value.limbs, limbs);
    assert_eq!(value, Felt { limbs });
    let copy = value;
    assert_eq!(copy, value);
}
