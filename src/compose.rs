use vstd::prelude::*;
use crate::scalar::Scalar;
use crate::matrix::{
    Matrix,
    identity_spec,
    inner_spec,
    outer_spec,
    product_spec,
    reorder_spec,
    change_basis,
    embed_on_inner,
    embed_on_inner_into,
    embed_on_outer,
    embed_on_outer_into,
    matmul_to_dst,
};

verus! {

/// One step of a block: a matrix and the positions (0 and 1) it acts on.
pub struct Operation<T> {
    pub matrix: Matrix<T>,
    pub positions: Vec<u8>,
}

/// Why a block could not be composed. `index` is the place in the block of
/// the operation at fault.
#[derive(Clone, Copy, Debug, PartialEq, Eq, Structural)]
pub enum BlockError {
    /// The block holds no operation.
    EmptyBlock,
    /// The positions are not one of `[]`, `[0]`, `[1]`, `[0, 1]`, `[1, 0]`.
    MalformedSubset { index: usize },
    /// The matrix is not 2x2 for one position, or not 4x4 for two.
    DimensionMismatch { index: usize },
}

/// How an operation's matrix is placed in the joint space, by its positions.
#[derive(Clone, Copy, Debug, PartialEq, Eq, Structural)]
pub enum Placement {
    /// `[]`: the operation changes nothing.
    Identity,
    /// `[0]`: I ⊗ M.
    Inner,
    /// `[1]`: M ⊗ I.
    Outer,
    /// `[0, 1]`: the matrix as it is.
    Joint,
    /// `[1, 0]`: the matrix with the positions swapped back.
    Reversed,
}

pub open spec fn placement_spec(s: Seq<u8>) -> Option<Placement> {
    if s.len() == 0 {
        Some(Placement::Identity)
    } else if s == seq![0u8] {
        Some(Placement::Inner)
    } else if s == seq![1u8] {
        Some(Placement::Outer)
    } else if s == seq![0u8, 1u8] {
        Some(Placement::Joint)
    } else if s == seq![1u8, 0u8] {
        Some(Placement::Reversed)
    } else {
        None
    }
}

/// A copy of a 4x4 matrix.
fn copy4<T: Scalar>(m: &Matrix<T>) -> (r: Matrix<T>)
    requires
        m.is_square4(),
    ensures
        r.is_square4(),
        r@ == m@,
{
    let mut entries: Vec<T> = Vec::with_capacity(16);
    let mut p: usize = 0;
    while p < 16
        invariant
            m.is_square4(),
            p <= 16,
            entries@ == m@.take(p as int),
        decreases 16 - p,
    {
        entries.push(m.entries[p]);
        p = p + 1;
        proof {
            assert(entries@ =~= m@.take(p as int));
        }
    }
    proof {
        assert(entries@ =~= m@);
    }
    Matrix { dim: 4, entries }
}

/// The 4x4 form of the operation at place `index` of a block, or why it has none.
pub open spec fn normal_spec<T: Scalar>(op: Operation<T>, index: int) -> Result<Seq<T>, BlockError> {
    match placement_spec(op.positions@) {
        None => Err(BlockError::MalformedSubset { index: index as usize }),
        Some(Placement::Identity) => Ok(identity_spec()),
        Some(p) => {
            let m = op.matrix;
            match p {
                Placement::Inner => if m.is_square2() {
                    Ok(inner_spec(m@))
                } else {
                    Err(BlockError::DimensionMismatch { index: index as usize })
                },
                Placement::Outer => if m.is_square2() {
                    Ok(outer_spec(m@))
                } else {
                    Err(BlockError::DimensionMismatch { index: index as usize })
                },
                Placement::Joint => if m.is_square4() {
                    Ok(m@)
                } else {
                    Err(BlockError::DimensionMismatch { index: index as usize })
                },
                _ => if m.is_square4() {
                    Ok(reorder_spec(m@))
                } else {
                    Err(BlockError::DimensionMismatch { index: index as usize })
                },
            }
        },
    }
}

/// The composition of a block: the first operation's 4x4 form, then each
/// later one multiplied on the left of what came before, except those on no
/// position, which change nothing. The first operation at fault decides the error.
pub open spec fn compose_spec<T: Scalar>(ops: Seq<Operation<T>>) -> Result<Seq<T>, BlockError>
    decreases ops.len(),
{
    if ops.len() == 0 {
        Err(BlockError::EmptyBlock)
    } else if ops.len() == 1 {
        normal_spec(ops[0], 0)
    } else {
        match compose_spec(ops.drop_last()) {
            Err(e) => Err(e),
            Ok(acc) => match normal_spec(ops.last(), ops.len() - 1) {
                Err(e) => Err(e),
                Ok(f) => if ops.last().positions@.len() == 0 {
                    Ok(acc)
                } else {
                    Ok(product_spec(f, acc))
                },
            },
        }
    }
}

/// The placement that `positions` selects, or `None` where it is malformed.
pub fn placement(positions: &Vec<u8>) -> (r: Option<Placement>)
    ensures
        r == placement_spec(positions@),
{
    let n = positions.len();
    if n == 0 {
        proof {
            assert(positions@.len() == 0);
        }
        Some(Placement::Identity)
    } else if n == 1 && positions[0] == 0 {
        proof {
            assert(positions@ =~= seq![0u8]);
        }
        Some(Placement::Inner)
    } else if n == 1 && positions[0] == 1 {
        proof {
            assert(positions@ =~= seq![1u8]);
        }
        Some(Placement::Outer)
    } else if n == 2 && positions[0] == 0 && positions[1] == 1 {
        proof {
            assert(positions@ =~= seq![0u8, 1u8]);
        }
        Some(Placement::Joint)
    } else if n == 2 && positions[0] == 1 && positions[1] == 0 {
        proof {
            assert(positions@ =~= seq![1u8, 0u8]);
        }
        Some(Placement::Reversed)
    } else {
        proof {
            if n == 2 {
                if positions@ == seq![0u8, 1u8] {
                    assert(positions@[0] == 0 && positions@[1] == 1);
                }
                if positions@ == seq![1u8, 0u8] {
                    assert(positions@[0] == 1 && positions@[1] == 0);
                }
            } else if n == 1 {
                if positions@ == seq![0u8] {
                    assert(positions@[0] == 0);
                }
                if positions@ == seq![1u8] {
                    assert(positions@[0] == 1);
                }
            }
        }
        None
    }
}

fn is_dim2<T: Scalar>(m: &Matrix<T>) -> (r: bool)
    ensures
        r == m.is_square2(),
{
    m.dim == 2 && m.entries.len() == 4
}

fn is_dim4<T: Scalar>(m: &Matrix<T>) -> (r: bool)
    ensures
        r == m.is_square4(),
{
    m.dim == 4 && m.entries.len() == 16
}

/// The 4x4 form of the operation at place `index` of a block, as a new matrix.
pub fn normalize<T: Scalar>(op: &Operation<T>, index: usize) -> (r: Result<Matrix<T>, BlockError>)
    ensures
        match normal_spec(*op, index as int) {
            Ok(m) => r is Ok && r->Ok_0.is_square4() && r->Ok_0@ == m,
            Err(e) => r == Err::<Matrix<T>, BlockError>(e),
        },
{
    match placement(&op.positions) {
        None => Err(BlockError::MalformedSubset { index }),
        Some(Placement::Identity) => Ok(Matrix::identity()),
        Some(Placement::Inner) => if is_dim2(&op.matrix) {
            Ok(embed_on_inner(&op.matrix))
        } else {
            Err(BlockError::DimensionMismatch { index })
        },
        Some(Placement::Outer) => if is_dim2(&op.matrix) {
            Ok(embed_on_outer(&op.matrix))
        } else {
            Err(BlockError::DimensionMismatch { index })
        },
        Some(Placement::Joint) => if is_dim4(&op.matrix) {
            Ok(copy4(&op.matrix))
        } else {
            Err(BlockError::DimensionMismatch { index })
        },
        Some(Placement::Reversed) => if is_dim4(&op.matrix) {
            Ok(change_basis(&op.matrix))
        } else {
            Err(BlockError::DimensionMismatch { index })
        },
    }
}

/// Lifts `compose_spec` on a prefix of `ops` by one more operation.
proof fn lemma_compose_step<T: Scalar>(ops: Seq<Operation<T>>, i: int)
    requires
        1 <= i < ops.len(),
    ensures
        compose_spec(ops.take(i + 1)) == match compose_spec(ops.take(i)) {
            Err(e) => Err(e),
            Ok(acc) => match normal_spec(ops[i], i) {
                Err(e) => Err(e),
                Ok(f) => if ops[i].positions@.len() == 0 {
                    Ok(acc)
                } else {
                    Ok(product_spec(f, acc))
                },
            },
        },
{
    assert(ops.take(i + 1).drop_last() =~= ops.take(i));
}

/// The single 4x4 matrix equal to applying the block's operations in order.
/// The first operation seeds the result; each later one is multiplied on its
/// left, through two scratch matrices that trade places instead of being copied.
pub fn blocks_to_matrix<T: Scalar>(ops: &Vec<Operation<T>>) -> (r: Result<Matrix<T>, BlockError>)
    ensures
        match compose_spec(ops@) {
            Ok(m) => r is Ok && r->Ok_0.is_square4() && r->Ok_0@ == m,
            Err(e) => r == Err::<Matrix<T>, BlockError>(e),
        },
{
    if ops.len() == 0 {
        return Err(BlockError::EmptyBlock);
    }
    let mut matrix = match normalize(&ops[0], 0) {
        Ok(m) => m,
        Err(e) => {
            proof {
                lemma_first_error(ops@, 0);
            }
            return Err(e);
        },
    };
    proof {
        assert(ops@.take(1).len() == 1);
        assert(ops@.take(1)[0] == ops@[0]);
    }
    let mut aux: Matrix<T> = Matrix::zeros4();
    let mut aux2: Matrix<T> = Matrix::zeros4();
    let mut i: usize = 1;
    while i < ops.len()
        invariant
            1 <= i <= ops@.len(),
            matrix.is_square4(),
            aux.is_square4(),
            aux2.is_square4(),
            compose_spec(ops@.take(i as int)) == Ok::<Seq<T>, BlockError>(matrix@),
        decreases ops@.len() - i,
    {
        let op = &ops[i];
        proof {
            lemma_compose_step(ops@, i as int);
        }
        match placement(&op.positions) {
            None => {
                proof {
                    lemma_first_error(ops@, i as int);
                }
                return Err(BlockError::MalformedSubset { index: i });
            },
            Some(Placement::Identity) => {},
            Some(Placement::Inner) => {
                if !is_dim2(&op.matrix) {
                    proof {
                        lemma_first_error(ops@, i as int);
                    }
                    return Err(BlockError::DimensionMismatch { index: i });
                }
                embed_on_inner_into(&mut aux2, &op.matrix);
                matmul_to_dst(&mut aux, &aux2, &matrix);
                core::mem::swap(&mut aux, &mut matrix);
            },
            Some(Placement::Outer) => {
                if !is_dim2(&op.matrix) {
                    proof {
                        lemma_first_error(ops@, i as int);
                    }
                    return Err(BlockError::DimensionMismatch { index: i });
                }
                embed_on_outer_into(&mut aux2, &op.matrix);
                matmul_to_dst(&mut aux, &aux2, &matrix);
                core::mem::swap(&mut aux, &mut matrix);
            },
            Some(Placement::Joint) => {
                if !is_dim4(&op.matrix) {
                    proof {
                        lemma_first_error(ops@, i as int);
                    }
                    return Err(BlockError::DimensionMismatch { index: i });
                }
                matmul_to_dst(&mut aux, &op.matrix, &matrix);
                core::mem::swap(&mut aux, &mut matrix);
            },
            Some(Placement::Reversed) => {
                if !is_dim4(&op.matrix) {
                    proof {
                        lemma_first_error(ops@, i as int);
                    }
                    return Err(BlockError::DimensionMismatch { index: i });
                }
                let reordered = change_basis(&op.matrix);
                matmul_to_dst(&mut aux, &reordered, &matrix);
                core::mem::swap(&mut aux, &mut matrix);
            },
        }
        i = i + 1;
    }
    proof {
        assert(ops@.take(ops@.len() as int) =~= ops@);
    }
    Ok(matrix)
}

/// Where the prefix of `ops` up to and including place `i` fails, the whole
/// block fails with the same error.
proof fn lemma_first_error<T: Scalar>(ops: Seq<Operation<T>>, i: int)
    requires
        0 <= i < ops.len(),
        i == 0 || compose_spec(ops.take(i)) is Ok,
        normal_spec(ops[i], i) is Err,
    ensures
        compose_spec(ops) == Err::<Seq<T>, BlockError>(normal_spec(ops[i], i)->Err_0),
    decreases ops.len(),
{
    if ops.len() == i + 1 {
        if i >= 1 {
            assert(ops.drop_last() =~= ops.take(i));
        }
    } else {
        let pre = ops.drop_last();
        assert(pre[i] == ops[i]);
        if i >= 1 {
            assert(pre.take(i) =~= ops.take(i));
        }
        lemma_first_error(pre, i);
    }
}

} // verus!
