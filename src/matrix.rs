use vstd::prelude::*;
use crate::scalar::Scalar;

verus! {

/// A dense square matrix of dimension 2 or 4, stored row by row: the entry at
/// (row, col) is `entries[dim * row + col]`.
pub struct Matrix<T> {
    pub dim: usize,
    pub entries: Vec<T>,
}

impl<T: Scalar> Matrix<T> {
    pub open spec fn wf(&self) -> bool {
        (self.dim == 2 || self.dim == 4) && self.entries@.len() == self.dim * self.dim
    }

    pub open spec fn is_square4(&self) -> bool {
        self.dim == 4 && self.entries@.len() == 16
    }

    pub open spec fn is_square2(&self) -> bool {
        self.dim == 2 && self.entries@.len() == 4
    }

    pub open spec fn view(&self) -> Seq<T> {
        self.entries@
    }

    /// A matrix of the given dimension from its entries, row by row; `None`
    /// where the dimension is not 2 or 4 or the number of entries does not
    /// match it.
    pub fn from_rows(dim: usize, entries: Vec<T>) -> (r: Option<Matrix<T>>)
        ensures
            r is Some <==> ((dim == 2 || dim == 4) && entries@.len() == dim * dim),
            r is Some ==> r->Some_0.dim == dim && r->Some_0@ == entries@ && r->Some_0.wf(),
    {
        if (dim == 2 && entries.len() == 4) || (dim == 4 && entries.len() == 16) {
            Some(Matrix { dim, entries })
        } else {
            None
        }
    }

    /// The entry at (row, col).
    pub fn get(&self, row: usize, col: usize) -> (r: T)
        requires
            self.wf(),
            row < self.dim,
            col < self.dim,
        ensures
            r == self@[self.dim * row + col],
    {
        proof {
            assert(self.dim * row + col < self.dim * self.dim) by (nonlinear_arith)
                requires
                    row < self.dim,
                    col < self.dim,
            ;
        }
        self.entries[self.dim * row + col]
    }

    /// The 4x4 identity matrix.
    pub fn identity() -> (r: Matrix<T>)
        ensures
            r.is_square4(),
            r@ == identity_spec::<T>(),
    {
        let z = T::zero();
        let o = T::one();
        let entries = vec![o, z, z, z, z, o, z, z, z, z, o, z, z, z, z, o];
        proof {
            assert(entries@ =~= identity_spec::<T>());
        }
        Matrix { dim: 4, entries }
    }

    /// A 4x4 matrix of zeros, to be overwritten.
    pub fn zeros4() -> (r: Matrix<T>)
        ensures
            r.is_square4(),
    {
        let z = T::zero();
        Matrix { dim: 4, entries: vec![z, z, z, z, z, z, z, z, z, z, z, z, z, z, z, z] }
    }
}

/// The 4x4 identity, row by row.
pub open spec fn identity_spec<T: Scalar>() -> Seq<T> {
    let z = T::zero_spec();
    let o = T::one_spec();
    seq![o, z, z, z, z, o, z, z, z, z, o, z, z, z, z, o]
}

/// M ⊗ I: the 2x2 matrix `m` on the outer factor, the identity on the inner one.
pub open spec fn outer_spec<T: Scalar>(m: Seq<T>) -> Seq<T> {
    let z = T::zero_spec();
    seq![
        m[0], z, m[1], z,
        z, m[0], z, m[1],
        m[2], z, m[3], z,
        z, m[2], z, m[3],
    ]
}

/// I ⊗ M: the identity on the outer factor, the 2x2 matrix `m` on the inner one.
pub open spec fn inner_spec<T: Scalar>(m: Seq<T>) -> Seq<T> {
    let z = T::zero_spec();
    seq![
        m[0], m[1], z, z,
        m[2], m[3], z, z,
        z, z, m[0], m[1],
        z, z, m[2], m[3],
    ]
}

/// The index that basis state `i` of the joint space takes when the two
/// positions trade places: states 1 and 2 are exchanged.
pub open spec fn swapped_index(i: int) -> int {
    if i == 1 {
        2
    } else if i == 2 {
        1
    } else {
        i
    }
}

/// The 4x4 matrix `m` conjugated by the swap of the two positions: entry
/// (i, j) is `m`'s entry at (swapped_index(i), swapped_index(j)).
pub open spec fn reorder_spec<T>(m: Seq<T>) -> Seq<T> {
    seq![
        m[0], m[2], m[1], m[3],
        m[8], m[10], m[9], m[11],
        m[4], m[6], m[5], m[7],
        m[12], m[14], m[13], m[15],
    ]
}

/// The transpose of a 4x4 matrix.
pub open spec fn transpose_spec<T>(m: Seq<T>) -> Seq<T> {
    seq![
        m[0], m[4], m[8], m[12],
        m[1], m[5], m[9], m[13],
        m[2], m[6], m[10], m[14],
        m[3], m[7], m[11], m[15],
    ]
}

/// The 4x4 matrix `m` with rows 1 and 2 exchanged.
pub open spec fn swap_middle_rows_spec<T>(m: Seq<T>) -> Seq<T> {
    seq![
        m[0], m[1], m[2], m[3],
        m[8], m[9], m[10], m[11],
        m[4], m[5], m[6], m[7],
        m[12], m[13], m[14], m[15],
    ]
}

/// Entry (i, j) of the product of the 4x4 matrices `l` and `r`, summed from
/// the first term to the last.
pub open spec fn dot_spec<T: Scalar>(l: Seq<T>, r: Seq<T>, i: int, j: int) -> T {
    T::plus_spec(
        T::plus_spec(
            T::plus_spec(
                T::times_spec(l[4 * i], r[j]),
                T::times_spec(l[4 * i + 1], r[4 + j]),
            ),
            T::times_spec(l[4 * i + 2], r[8 + j]),
        ),
        T::times_spec(l[4 * i + 3], r[12 + j]),
    )
}

/// The product `l × r` of two 4x4 matrices.
pub open spec fn product_spec<T: Scalar>(l: Seq<T>, r: Seq<T>) -> Seq<T> {
    Seq::new(16, |p: int| dot_spec(l, r, p / 4, p % 4))
}

/// Overwrites row `row` of the 4x4 matrix `dst` with `a, b, c, d`.
fn set_row<T: Scalar>(dst: &mut Matrix<T>, row: usize, a: T, b: T, c: T, d: T)
    requires
        old(dst).is_square4(),
        row < 4,
    ensures
        final(dst).is_square4(),
        final(dst)@ == old(dst)@.update(4 * row as int, a).update(4 * row + 1, b).update(
            4 * row + 2,
            c,
        ).update(4 * row + 3, d),
{
    dst.entries.set(4 * row, a);
    dst.entries.set(4 * row + 1, b);
    dst.entries.set(4 * row + 2, c);
    dst.entries.set(4 * row + 3, d);
}

/// Writes M ⊗ I into `dst`, where `m` is 2x2, without allocating.
pub fn embed_on_outer_into<T: Scalar>(dst: &mut Matrix<T>, m: &Matrix<T>)
    requires
        old(dst).is_square4(),
        m.is_square2(),
    ensures
        final(dst).is_square4(),
        final(dst)@ == outer_spec(m@),
{
    let z = T::zero();
    let (m00, m01, m10, m11) = (m.entries[0], m.entries[1], m.entries[2], m.entries[3]);
    set_row(dst, 0, m00, z, m01, z);
    set_row(dst, 1, z, m00, z, m01);
    set_row(dst, 2, m10, z, m11, z);
    set_row(dst, 3, z, m10, z, m11);
    proof {
        assert(dst@ =~= outer_spec(m@));
    }
}

/// Writes I ⊗ M into `dst`, where `m` is 2x2, without allocating.
pub fn embed_on_inner_into<T: Scalar>(dst: &mut Matrix<T>, m: &Matrix<T>)
    requires
        old(dst).is_square4(),
        m.is_square2(),
    ensures
        final(dst).is_square4(),
        final(dst)@ == inner_spec(m@),
{
    let z = T::zero();
    let (m00, m01, m10, m11) = (m.entries[0], m.entries[1], m.entries[2], m.entries[3]);
    set_row(dst, 0, m00, m01, z, z);
    set_row(dst, 1, m10, m11, z, z);
    set_row(dst, 2, z, z, m00, m01);
    set_row(dst, 3, z, z, m10, m11);
    proof {
        assert(dst@ =~= inner_spec(m@));
    }
}

/// M ⊗ I as a new matrix, where `m` is 2x2.
pub fn embed_on_outer<T: Scalar>(m: &Matrix<T>) -> (r: Matrix<T>)
    requires
        m.is_square2(),
    ensures
        r.is_square4(),
        r@ == outer_spec(m@),
{
    let mut r = Matrix::zeros4();
    embed_on_outer_into(&mut r, m);
    r
}

/// I ⊗ M as a new matrix, where `m` is 2x2.
pub fn embed_on_inner<T: Scalar>(m: &Matrix<T>) -> (r: Matrix<T>)
    requires
        m.is_square2(),
    ensures
        r.is_square4(),
        r@ == inner_spec(m@),
{
    let mut r = Matrix::zeros4();
    embed_on_inner_into(&mut r, m);
    r
}

/// The transpose of a 4x4 matrix, as a new matrix.
pub fn transpose<T: Scalar>(m: &Matrix<T>) -> (r: Matrix<T>)
    requires
        m.is_square4(),
    ensures
        r.is_square4(),
        r@ == transpose_spec(m@),
{
    let mut entries: Vec<T> = Vec::with_capacity(16);
    let mut p: usize = 0;
    while p < 16
        invariant
            m.is_square4(),
            p <= 16,
            entries@.len() == p,
            forall|q: int| 0 <= q < p ==> entries@[q] == m@[4 * (q % 4) + q / 4],
        decreases 16 - p,
    {
        entries.push(m.entries[4 * (p % 4) + p / 4]);
        p = p + 1;
    }
    proof {
        assert(entries@ =~= transpose_spec(m@));
    }
    Matrix { dim: 4, entries }
}

/// Exchanges rows 1 and 2 of a 4x4 matrix in place.
pub fn swap_middle_rows<T: Scalar>(m: &mut Matrix<T>)
    requires
        old(m).is_square4(),
    ensures
        final(m).is_square4(),
        final(m)@ == swap_middle_rows_spec(old(m)@),
{
    let (a0, a1, a2, a3) = (m.entries[4], m.entries[5], m.entries[6], m.entries[7]);
    let (b0, b1, b2, b3) = (m.entries[8], m.entries[9], m.entries[10], m.entries[11]);
    set_row(m, 1, b0, b1, b2, b3);
    set_row(m, 2, a0, a1, a2, a3);
    proof {
        assert(m@ =~= swap_middle_rows_spec(old(m)@));
    }
}

/// Writes the product `lhs × rhs` of two 4x4 matrices into `dst`, without
/// allocating. What `dst` held before is never read.
pub fn matmul_to_dst<T: Scalar>(dst: &mut Matrix<T>, lhs: &Matrix<T>, rhs: &Matrix<T>)
    requires
        old(dst).is_square4(),
        lhs.is_square4(),
        rhs.is_square4(),
    ensures
        final(dst).is_square4(),
        final(dst)@ == product_spec(lhs@, rhs@),
{
    let mut p: usize = 0;
    while p < 16
        invariant
            dst.is_square4(),
            lhs.is_square4(),
            rhs.is_square4(),
            p <= 16,
            forall|q: int| 0 <= q < p ==> dst@[q] == dot_spec(lhs@, rhs@, q / 4, q % 4),
        decreases 16 - p,
    {
        let i = p / 4;
        let j = p % 4;
        let l = &lhs.entries;
        let r = &rhs.entries;
        let t0 = l[4 * i].times(&r[j]);
        let t1 = l[4 * i + 1].times(&r[4 + j]);
        let t2 = l[4 * i + 2].times(&r[8 + j]);
        let t3 = l[4 * i + 3].times(&r[12 + j]);
        let v = t0.plus(&t1).plus(&t2).plus(&t3);
        assert(v == dot_spec(lhs@, rhs@, p as int / 4, p as int % 4));
        let ghost before = dst@;
        dst.entries.set(p, v);
        proof {
            assert forall|q: int| 0 <= q < p + 1 implies dst@[q] == dot_spec(
                lhs@,
                rhs@,
                q / 4,
                q % 4,
            ) by {
                if q < p {
                    assert(dst@[q] == before[q]);
                }
            }
        }
        p = p + 1;
    }
    proof {
        assert(dst@ =~= product_spec(lhs@, rhs@));
    }
}

/// The 4x4 matrix `m` re-expressed with the two positions swapped: it is
/// transposed, its rows 1 and 2 are exchanged, and the same is done again.
pub fn change_basis<T: Scalar>(m: &Matrix<T>) -> (r: Matrix<T>)
    requires
        m.is_square4(),
    ensures
        r.is_square4(),
        r@ == reorder_spec(m@),
{
    let mut t = transpose(m);
    swap_middle_rows(&mut t);
    let mut t = transpose(&t);
    swap_middle_rows(&mut t);
    proof {
        assert(t@ =~= reorder_spec(m@));
    }
    t
}

/// The 4x4 matrix `m` re-expressed with the two positions swapped, as
/// `change_basis` computes it.
pub fn change_basis_faer<T: Scalar>(m: &Matrix<T>) -> (r: Matrix<T>)
    requires
        m.is_square4(),
    ensures
        r.is_square4(),
        r@ == reorder_spec(m@),
{
    change_basis(m)
}

} // verus!
