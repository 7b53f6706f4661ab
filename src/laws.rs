use vstd::prelude::*;
use crate::scalar::Scalar;
use crate::matrix::{
    identity_spec,
    inner_spec,
    outer_spec,
    product_spec,
    reorder_spec,
    swapped_index,
};
use crate::compose::{Operation, BlockError, compose_spec, placement_spec};

verus! {

/// A block of one operation on no position composes to the 4x4 identity.
pub proof fn lemma_empty_positions_give_identity<T: Scalar>(op: Operation<T>)
    requires
        op.positions@.len() == 0,
    ensures
        compose_spec(seq![op]) == Ok::<Seq<T>, BlockError>(identity_spec()),
{
}

/// Entry (2i+k, 2j+l) of a 4x4 matrix: row block i, column block j, and
/// (k, l) inside the block.
pub open spec fn block_entry<T>(s: Seq<T>, i: int, j: int, k: int, l: int) -> T {
    s[4 * (2 * i + k) + (2 * j + l)]
}

/// The (i, j) entry of the 2x2 matrix `a` times the (k, l) entry of the 2x2
/// identity, where `a` is the outer Kronecker factor.
pub open spec fn kron_with_identity_entry<T: Scalar>(a: Seq<T>, i: int, j: int, k: int, l: int) -> T {
    if k == l {
        a[2 * i + j]
    } else {
        T::zero_spec()
    }
}

/// Both embeddings are Kronecker products with the 2x2 identity: M ⊗ I puts
/// M's entry (i, j) at (2i+k, 2j+l) where k == l, I ⊗ M puts it at
/// (2k+i, 2l+j) where k == l, and every other entry is zero.
pub proof fn lemma_embeddings_are_kronecker<T: Scalar>(m: Seq<T>)
    requires
        m.len() == 4,
    ensures
        forall|i: int, j: int, k: int, l: int|
            0 <= i < 2 && 0 <= j < 2 && 0 <= k < 2 && 0 <= l < 2 ==> #[trigger] block_entry(
                outer_spec(m),
                i,
                j,
                k,
                l,
            ) == kron_with_identity_entry(m, i, j, k, l),
        forall|i: int, j: int, k: int, l: int|
            0 <= i < 2 && 0 <= j < 2 && 0 <= k < 2 && 0 <= l < 2 ==> #[trigger] block_entry(
                inner_spec(m),
                k,
                l,
                i,
                j,
            ) == kron_with_identity_entry(m, i, j, k, l),
{
}

/// Swapping the two positions twice gives back the matrix.
pub proof fn lemma_reorder_involution<T>(m: Seq<T>)
    requires
        m.len() == 16,
    ensures
        reorder_spec(reorder_spec(m)) == m,
{
    assert(reorder_spec(reorder_spec(m)) =~= m);
}

/// Entry (i, j) of a 4x4 matrix.
pub open spec fn entry4<T>(s: Seq<T>, i: int, j: int) -> T {
    s[4 * i + j]
}

/// Swapping the two positions permutes the joint basis: entry (i, j) of the
/// result is the entry of `m` at the swapped indices.
pub proof fn lemma_reorder_permutes_basis<T>(m: Seq<T>)
    requires
        m.len() == 16,
    ensures
        forall|i: int, j: int|
            0 <= i < 4 && 0 <= j < 4 ==> #[trigger] entry4(reorder_spec(m), i, j) == entry4(
                m,
                swapped_index(i),
                swapped_index(j),
            ),
{
}

/// An operation on position 0 followed by one on position 1 composes to the
/// second one's M ⊗ I times the first one's I ⊗ M: the later operation stands
/// on the left.
pub proof fn lemma_order_of_composition<T: Scalar>(a: Operation<T>, b: Operation<T>)
    requires
        a.positions@ == seq![0u8],
        b.positions@ == seq![1u8],
        a.matrix.is_square2(),
        b.matrix.is_square2(),
    ensures
        compose_spec(seq![a, b]) == Ok::<Seq<T>, BlockError>(
            product_spec(outer_spec(b.matrix@), inner_spec(a.matrix@)),
        ),
{
    assert(seq![a, b].drop_last() =~= seq![a]);
    assert(seq![1u8] != seq![0u8]) by {
        assert(seq![1u8][0] != seq![0u8][0]);
    }
    assert(compose_spec(seq![a]) == Ok::<Seq<T>, BlockError>(inner_spec(a.matrix@)));
}

/// A block of one 4x4 operation on positions [0, 1] composes to that matrix.
pub proof fn lemma_joint_passes_through<T: Scalar>(op: Operation<T>)
    requires
        op.positions@ == seq![0u8, 1u8],
        op.matrix.is_square4(),
    ensures
        compose_spec(seq![op]) == Ok::<Seq<T>, BlockError>(op.matrix@),
{
}

/// A block of one 4x4 operation on positions [1, 0] composes to that matrix
/// with the two positions swapped.
pub proof fn lemma_reversed_is_reordered<T: Scalar>(op: Operation<T>)
    requires
        op.positions@ == seq![1u8, 0u8],
        op.matrix.is_square4(),
    ensures
        compose_spec(seq![op]) == Ok::<Seq<T>, BlockError>(reorder_spec(op.matrix@)),
{
    assert(seq![1u8, 0u8] != seq![0u8, 1u8]) by {
        assert(seq![1u8, 0u8][0] != seq![0u8, 1u8][0]);
    }
}

/// A block that holds an operation whose positions are malformed is rejected,
/// whatever the other operations are.
pub proof fn lemma_malformed_rejected<T: Scalar>(ops: Seq<Operation<T>>, i: int)
    requires
        0 <= i < ops.len(),
        placement_spec(ops[i].positions@) is None,
    ensures
        compose_spec(ops) is Err,
    decreases ops.len(),
{
    if ops.len() > 1 {
        if i < ops.len() - 1 {
            let pre = ops.drop_last();
            assert(pre[i] == ops[i]);
            lemma_malformed_rejected(pre, i);
        }
    }
}

/// Composing the same block twice gives the same matrix, or the same error.
pub proof fn lemma_composition_deterministic<T: Scalar>(
    ops1: Seq<Operation<T>>,
    ops2: Seq<Operation<T>>,
)
    requires
        ops1 == ops2,
    ensures
        compose_spec(ops1) == compose_spec(ops2),
{
}

} // verus!
