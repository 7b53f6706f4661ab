use block_matrix::compose::{blocks_to_matrix, normalize, placement, BlockError, Operation, Placement};
use block_matrix::matrix::{
    change_basis, change_basis_faer, embed_on_inner, embed_on_inner_into, embed_on_outer,
    embed_on_outer_into, matmul_to_dst, transpose, Matrix,
};
use block_matrix::scalar::{GaussianInt, Scalar};

fn g(re: i64, im: i64) -> GaussianInt {
    GaussianInt::new(re, im)
}

fn reals(entries: &[i64]) -> Vec<GaussianInt> {
    entries.iter().map(|&x| g(x, 0)).collect()
}

fn mat(dim: usize, entries: Vec<GaussianInt>) -> Matrix<GaussianInt> {
    Matrix::from_rows(dim, entries).unwrap()
}

fn op(m: Matrix<GaussianInt>, positions: &[u8]) -> Operation<GaussianInt> {
    Operation { matrix: m, positions: positions.to_vec() }
}

fn mul4(a: &Matrix<GaussianInt>, b: &Matrix<GaussianInt>) -> Vec<GaussianInt> {
    let mut out = Vec::new();
    for i in 0..4 {
        for j in 0..4 {
            let mut s = g(0, 0);
            for k in 0..4 {
                s = s.plus(&a.entries[4 * i + k].times(&b.entries[4 * k + j]));
            }
            out.push(s);
        }
    }
    out
}

fn sample4() -> Vec<GaussianInt> {
    (0..16).map(|p| g(p as i64 + 1, 2 * p as i64 - 7)).collect()
}

fn pauli_x() -> Matrix<GaussianInt> {
    mat(2, reals(&[0, 1, 1, 0]))
}

fn pauli_z() -> Matrix<GaussianInt> {
    mat(2, reals(&[1, 0, 0, -1]))
}

fn general2() -> Matrix<GaussianInt> {
    mat(2, vec![g(1, 2), g(3, -1), g(-4, 0), g(5, 6)])
}

#[test]
fn empty_positions_give_identity() {
    let r = blocks_to_matrix(&vec![op(general2(), &[])]).unwrap();
    assert_eq!(r.dim, 4);
    assert_eq!(r.entries, reals(&[1, 0, 0, 0, 0, 1, 0, 0, 0, 0, 1, 0, 0, 0, 0, 1]));
}

#[test]
fn embeddings_match_kronecker_products() {
    let m = general2();
    let outer = embed_on_outer(&m);
    let inner = embed_on_inner(&m);
    let zero = g(0, 0);
    for a in 0..4 {
        for b in 0..4 {
            let (i, k, j, l) = (a / 2, a % 2, b / 2, b % 2);
            let want_outer = if k == l { m.entries[2 * i + j] } else { zero };
            assert_eq!(outer.entries[4 * a + b], want_outer);
            let (k2, i2, l2, j2) = (a / 2, a % 2, b / 2, b % 2);
            let want_inner = if k2 == l2 { m.entries[2 * i2 + j2] } else { zero };
            assert_eq!(inner.entries[4 * a + b], want_inner);
        }
    }
}

#[test]
fn embedding_into_a_buffer_matches_allocating_form() {
    let m = general2();
    let mut dst = mat(4, sample4());
    embed_on_outer_into(&mut dst, &m);
    assert_eq!(dst.entries, embed_on_outer(&m).entries);
    embed_on_inner_into(&mut dst, &m);
    assert_eq!(dst.entries, embed_on_inner(&m).entries);
}

#[test]
fn reorder_twice_is_identity() {
    let m = mat(4, sample4());
    let once = change_basis(&m);
    assert_ne!(once.entries, m.entries);
    assert_eq!(change_basis(&once).entries, m.entries);
    assert_eq!(change_basis_faer(&m).entries, once.entries);
}

#[test]
fn reorder_permutes_joint_basis() {
    let m = mat(4, sample4());
    let r = change_basis(&m);
    let sigma = [0usize, 2, 1, 3];
    for i in 0..4 {
        for j in 0..4 {
            assert_eq!(r.entries[4 * i + j], m.entries[4 * sigma[i] + sigma[j]]);
        }
    }
}

#[test]
fn transpose_exchanges_rows_and_columns() {
    let m = mat(4, sample4());
    let t = transpose(&m);
    for i in 0..4 {
        for j in 0..4 {
            assert_eq!(t.entries[4 * i + j], m.entries[4 * j + i]);
        }
    }
}

#[test]
fn matmul_writes_the_product() {
    let a = mat(4, sample4());
    let b = change_basis(&a);
    let mut dst = mat(4, reals(&[9; 16]));
    matmul_to_dst(&mut dst, &a, &b);
    assert_eq!(dst.entries, mul4(&a, &b));
    let id = Matrix::<GaussianInt>::identity();
    matmul_to_dst(&mut dst, &id, &a);
    assert_eq!(dst.entries, a.entries);
}

#[test]
fn later_operation_multiplies_on_the_left() {
    let a = general2();
    let b = pauli_x();
    let r = blocks_to_matrix(&vec![op(general2(), &[0]), op(pauli_x(), &[1])]).unwrap();
    assert_eq!(r.entries, mul4(&embed_on_outer(&b), &embed_on_inner(&a)));
}

#[test]
fn order_of_operations_matters() {
    let xz = blocks_to_matrix(&vec![op(pauli_x(), &[0]), op(pauli_z(), &[0])]).unwrap();
    let zx = blocks_to_matrix(&vec![op(pauli_z(), &[0]), op(pauli_x(), &[0])]).unwrap();
    assert_ne!(xz.entries, zx.entries);
    assert_eq!(xz.entries, mul4(&embed_on_inner(&pauli_z()), &embed_on_inner(&pauli_x())));
    // Z X = [[0, 1], [-1, 0]] on position 0.
    assert_eq!(
        xz.entries,
        reals(&[0, 1, 0, 0, -1, 0, 0, 0, 0, 0, 0, 1, 0, 0, -1, 0])
    );
}

#[test]
fn single_position_placements() {
    let r0 = blocks_to_matrix(&vec![op(pauli_x(), &[0])]).unwrap();
    assert_eq!(r0.entries, reals(&[0, 1, 0, 0, 1, 0, 0, 0, 0, 0, 0, 1, 0, 0, 1, 0]));
    let r1 = blocks_to_matrix(&vec![op(pauli_x(), &[1])]).unwrap();
    assert_eq!(r1.entries, reals(&[0, 0, 1, 0, 0, 0, 0, 1, 1, 0, 0, 0, 0, 1, 0, 0]));
}

#[test]
fn joint_operation_passes_through() {
    let r = blocks_to_matrix(&vec![op(mat(4, sample4()), &[0, 1])]).unwrap();
    assert_eq!(r.dim, 4);
    assert_eq!(r.entries, sample4());
}

#[test]
fn reversed_operation_is_reordered() {
    let m = mat(4, sample4());
    let r = blocks_to_matrix(&vec![op(mat(4, sample4()), &[1, 0])]).unwrap();
    let sigma = [0usize, 2, 1, 3];
    for i in 0..4 {
        for j in 0..4 {
            assert_eq!(r.entries[4 * i + j], m.entries[4 * sigma[i] + sigma[j]]);
        }
    }
}

#[test]
fn empty_positions_later_change_nothing() {
    let r = blocks_to_matrix(&vec![op(general2(), &[1]), op(pauli_z(), &[])]).unwrap();
    assert_eq!(r.entries, embed_on_outer(&general2()).entries);
}

#[test]
fn mixed_block_composes_in_order() {
    let cx = mat(4, reals(&[1, 0, 0, 0, 0, 1, 0, 0, 0, 0, 0, 1, 0, 0, 1, 0]));
    let block = vec![
        op(general2(), &[0]),
        op(mat(4, sample4()), &[1, 0]),
        op(pauli_z(), &[1]),
        op(mat(4, cx.entries.clone()), &[0, 1]),
    ];
    let mut want = embed_on_inner(&general2());
    want = mat(4, mul4(&change_basis(&mat(4, sample4())), &want));
    want = mat(4, mul4(&embed_on_outer(&pauli_z()), &want));
    want = mat(4, mul4(&cx, &want));
    assert_eq!(blocks_to_matrix(&block).unwrap().entries, want.entries);
}

#[test]
fn malformed_positions_are_rejected() {
    let r = blocks_to_matrix(&vec![op(mat(4, sample4()), &[0, 0])]);
    assert_eq!(r.err(), Some(BlockError::MalformedSubset { index: 0 }));
    let r = blocks_to_matrix(&vec![op(pauli_x(), &[0]), op(mat(4, sample4()), &[0, 1, 0])]);
    assert_eq!(r.err(), Some(BlockError::MalformedSubset { index: 1 }));
    let r = blocks_to_matrix(&vec![op(pauli_x(), &[2])]);
    assert_eq!(r.err(), Some(BlockError::MalformedSubset { index: 0 }));
    assert_eq!(placement(&vec![1, 1]), None);
}

#[test]
fn dimension_mismatch_is_rejected() {
    let r = blocks_to_matrix(&vec![op(mat(4, sample4()), &[0])]);
    assert_eq!(r.err(), Some(BlockError::DimensionMismatch { index: 0 }));
    let r = blocks_to_matrix(&vec![op(pauli_x(), &[1]), op(pauli_z(), &[1, 0])]);
    assert_eq!(r.err(), Some(BlockError::DimensionMismatch { index: 1 }));
    let bad = Operation { matrix: Matrix { dim: 2, entries: reals(&[1, 2, 3]) }, positions: vec![1] };
    assert_eq!(normalize(&bad, 3).err(), Some(BlockError::DimensionMismatch { index: 3 }));
}

#[test]
fn first_fault_decides_the_error() {
    let r = blocks_to_matrix(&vec![
        op(pauli_x(), &[0]),
        op(pauli_x(), &[0, 1]),
        op(pauli_x(), &[3]),
    ]);
    assert_eq!(r.err(), Some(BlockError::DimensionMismatch { index: 1 }));
}

#[test]
fn empty_block_is_an_error() {
    let r = blocks_to_matrix::<GaussianInt>(&vec![]);
    assert_eq!(r.err(), Some(BlockError::EmptyBlock));
}

#[test]
fn composition_is_deterministic() {
    let block = vec![op(general2(), &[1]), op(mat(4, sample4()), &[1, 0]), op(pauli_x(), &[0])];
    let a = blocks_to_matrix(&block).unwrap();
    let b = blocks_to_matrix(&block).unwrap();
    assert_eq!(a.entries, b.entries);
}

#[test]
fn placements_of_valid_positions() {
    assert_eq!(placement(&vec![]), Some(Placement::Identity));
    assert_eq!(placement(&vec![0]), Some(Placement::Inner));
    assert_eq!(placement(&vec![1]), Some(Placement::Outer));
    assert_eq!(placement(&vec![0, 1]), Some(Placement::Joint));
    assert_eq!(placement(&vec![1, 0]), Some(Placement::Reversed));
}

#[test]
fn gaussian_arithmetic_is_complex() {
    let a = g(1, 2);
    let b = g(3, -1);
    assert_eq!(a.times(&b), g(5, 5));
    assert_eq!(a.plus(&b), g(4, 1));
    assert_eq!(GaussianInt::one(), g(1, 0));
    assert_eq!(GaussianInt::zero(), g(0, 0));
    assert_eq!(g(i64::MAX, 0).plus(&g(1, 0)), g(i64::MIN, 0));
}

#[test]
fn from_rows_checks_shape() {
    assert!(Matrix::from_rows(3, reals(&[0; 9])).is_none());
    assert!(Matrix::from_rows(2, reals(&[0; 16])).is_none());
    let m = Matrix::from_rows(2, reals(&[1, 2, 3, 4])).unwrap();
    assert_eq!(m.get(1, 0), g(3, 0));
}
