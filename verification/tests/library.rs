use tornado::commitment::commit;
use tornado::felt::Felt;
use tornado::merkle::{compute_root, direction_bits, merkle_step, root_from_position};
use tornado::witness::{instance_vector, ShapeError, Witness, COMMITMENT, MERKLE_DEPTH, ROOT};

fn ones_path() -> Vec<Felt> {
    vec![Felt::from_u64(1), Felt::from_u64(1), Felt::from_u64(1), Felt::from_u64(1)]
}

#[test]
fn commit_is_deterministic() {
    let s = Felt::from_u64(2);
    let n = Felt::from_u64(3);
    assert_eq!(commit(&s, &n), commit(&s, &n));
}

#[test]
fn commit_of_two_and_three() {
    let c = commit(&Felt::from_u64(2), &Felt::from_u64(3));
    let expected = Felt::from_limbs(
        0x92c1f7b1649c6bbf,
        0xa227de40a263afa7,
        0xe727c638157add9c,
        0x1df874f19cd1afa3,
    );
    assert_eq!(c, expected);
}

#[test]
fn commit_depends_on_argument_order() {
    let a = Felt::from_u64(2);
    let b = Felt::from_u64(3);
    assert_ne!(commit(&a, &b), commit(&b, &a));
    assert_ne!(commit(&a, &b), a);
}

#[test]
fn root_recomputation_is_deterministic() {
    let leaf = Felt::from_u64(7);
    let bits = vec![false, true, false, true];
    let path = ones_path();
    let r1 = compute_root(&leaf, &bits, &path);
    let r2 = compute_root(&leaf, &bits, &path);
    assert_eq!(r1, r2);
    assert_ne!(r1, leaf);
}

#[test]
fn root_from_position_matches_explicit_bits() {
    let leaf = Felt::from_u64(7);
    let path = ones_path();
    let bits = direction_bits(6, path.len());
    assert_eq!(root_from_position(&leaf, 6, &path), compute_root(&leaf, &bits, &path));
}

#[test]
fn flipping_one_direction_bit_changes_the_root() {
    let leaf = Felt::from_u64(7);
    let path = ones_path();
    let r0 = root_from_position(&leaf, 0, &path);
    let r1 = root_from_position(&leaf, 1, &path);
    assert_ne!(r0, r1);
}

#[test]
fn merkle_step_follows_the_swap_rule() {
    let a = Felt::from_u64(5);
    let b = Felt::from_u64(9);
    assert_eq!(merkle_step(&a, &b, true, 0), merkle_step(&b, &a, false, 0));
    assert_ne!(merkle_step(&a, &b, false, 0), merkle_step(&a, &b, true, 0));
    assert_ne!(merkle_step(&a, &b, false, 0), a);
}

#[test]
fn merkle_step_depends_on_the_layer() {
    let a = Felt::from_u64(5);
    let b = Felt::from_u64(9);
    assert_ne!(merkle_step(&a, &b, false, 0), merkle_step(&a, &b, false, 1));
}

#[test]
fn direction_bits_are_little_endian() {
    assert_eq!(direction_bits(6, 4), vec![false, true, true, false]);
    assert_eq!(direction_bits(1, 4), vec![true, false, false, false]);
    assert_eq!(direction_bits(0, 4), vec![false, false, false, false]);
    assert_eq!(direction_bits(5, 0), Vec::<bool>::new());
}

#[test]
fn root_of_the_reference_scenario() {
    let c = commit(&Felt::from_u64(2), &Felt::from_u64(3));
    let root = root_from_position(&c, 1, &ones_path());
    let expected = Felt::from_limbs(
        0x3058c942b6150b15,
        0x369f22098cb08f84,
        0xd4e309a93493cd14,
        0x3e0dd91d7883e6b1,
    );
    assert_eq!(root, expected);
}

#[test]
fn root_of_the_all_left_scenario() {
    let c = commit(&Felt::from_u64(2), &Felt::from_u64(3));
    let root = root_from_position(&c, 0, &ones_path());
    let expected = Felt::from_limbs(
        0x77c43bc65cfa9fc3,
        0x669692400aa6adc7,
        0xd8c3d88cf8b815fa,
        0x109456ef2fee2414,
    );
    assert_eq!(root, expected);
}

#[test]
fn instance_vector_layouts() {
    let c = Felt::from_u64(10);
    let h = Felt::from_u64(11);
    let r = Felt::from_u64(12);
    let a = instance_vector(&c, None, &r);
    assert_eq!(a, vec![c, r]);
    assert_eq!(a[COMMITMENT], c);
    assert_eq!(a[ROOT], r);
    let b = instance_vector(&c, Some(&h), &r);
    assert_eq!(b, vec![c, h, r]);
}

#[test]
fn witness_shape_is_enforced() {
    let s = Felt::from_u64(2);
    let n = Felt::from_u64(3);
    let short = vec![Felt::from_u64(1); MERKLE_DEPTH - 1];
    assert_eq!(
        Witness::new(s, n, 0, short).err(),
        Some(ShapeError::PathLengthMismatch)
    );
    assert_eq!(
        Witness::new(s, n, 16, ones_path()).err(),
        Some(ShapeError::PositionOutOfRange)
    );
    assert!(Witness::new(s, n, 15, ones_path()).is_ok());
}

#[test]
fn witness_binds_commitment_then_root() {
    let s = Felt::from_u64(2);
    let n = Felt::from_u64(3);
    let w = Witness::new(s, n, 1, ones_path()).unwrap();
    let pi = w.public_inputs();
    assert_eq!(pi.len(), 2);
    assert_eq!(pi[COMMITMENT], w.commitment());
    assert_eq!(pi[ROOT], w.root());
    assert_eq!(w.commitment(), commit(&s, &n));
    assert_eq!(w.root(), root_from_position(&w.commitment(), 1, &w.path));
}
