//! The causal attention mask.

use vstd::prelude::*;
use crate::backend::TensorOps;
use crate::tensor::{lemma_rank2_equal, Rank2};

verus! {

/// The causal mask for `n` positions: an `n` by `n` matrix whose entry in row
/// `i`, column `j` is negative infinity where `j > i` and zero elsewhere, so
/// that position `i` attends to positions `0..=i` only.
pub open spec fn causal_mask_spec<B: TensorOps>(n: nat) -> Rank2<B::Elem> {
    Rank2 {
        rows: n,
        cols: n,
        data: Seq::new(
            n,
            |i: int| Seq::new(n, |j: int| if j > i { B::neg_infinity() } else { B::zero() }),
        ),
    }
}

/// The causal mask is a well-formed square matrix whose entry in row `i`,
/// column `j` is zero where `j <= i` and negative infinity where `j > i`.
pub proof fn lemma_causal_mask_entries<B: TensorOps>(n: nat)
    ensures
        causal_mask_spec::<B>(n).wf(),
        causal_mask_spec::<B>(n).rows == n,
        causal_mask_spec::<B>(n).cols == n,
        forall|i: int, j: int|
            0 <= i < n && 0 <= j < n ==> #[trigger] causal_mask_spec::<B>(n).data[i][j] == (if j
                <= i {
                B::zero()
            } else {
                B::neg_infinity()
            }),
{
}

/// Every position may attend to itself and to the first position: no row of
/// the causal mask forbids everything.
pub proof fn lemma_causal_mask_rows_attend<B: TensorOps>(n: nat, i: int)
    requires
        0 <= i < n,
    ensures
        causal_mask_spec::<B>(n).data[i][0] == B::zero(),
        causal_mask_spec::<B>(n).data[i][i] == B::zero(),
{
}

/// For at most one position the causal mask forbids nothing.
pub proof fn lemma_short_causal_mask_is_zero<B: TensorOps>(n: nat)
    requires
        n <= 1,
    ensures
        causal_mask_spec::<B>(n) == Rank2::filled(n, n, B::zero()),
{
    lemma_rank2_equal(causal_mask_spec::<B>(n), Rank2::filled(n, n, B::zero()));
}

/// The mask of which the first `done` rows are those of the causal mask and
/// the others are zero.
pub open spec fn partial_mask_spec<B: TensorOps>(n: nat, done: nat) -> Rank2<B::Elem> {
    Rank2 {
        rows: n,
        cols: n,
        data: Seq::new(
            n,
            |i: int|
                Seq::new(
                    n,
                    |j: int| if j > i && i < done { B::neg_infinity() } else { B::zero() },
                ),
        ),
    }
}

/// Builds the causal mask for `seq_length` positions and places it on
/// `device`.
///
/// The mask starts as zeros; each row but the last then has the entries right
/// of the diagonal replaced by negative infinities. For `seq_length` 0 or 1
/// there is no such row and the mask is all zeros.
pub fn attn_decoder_mask<B: TensorOps>(seq_length: usize, device: &B::Device) -> (r: B::Tensor2)
    requires
        seq_length * seq_length <= isize::MAX,
    ensures
        B::view2(&r) == causal_mask_spec::<B>(seq_length as nat),
        B::view2(&r).wf(),
        B::device2(&r) == *device,
{
    let mut mask = B::zeros(seq_length, seq_length);
    proof {
        lemma_rank2_equal(B::view2(&mask), partial_mask_spec::<B>(seq_length as nat, 0));
    }
    if seq_length >= 2 {
        let mut i: usize = 0;
        while i < seq_length - 1
            invariant
                seq_length >= 2,
                seq_length * seq_length <= isize::MAX,
                i <= seq_length - 1,
                B::view2(&mask) == partial_mask_spec::<B>(seq_length as nat, i as nat),
                B::device2(&mask) == B::default_device(),
            decreases seq_length - i,
        {
            let width: usize = seq_length - (i + 1);
            assert(1 * width <= isize::MAX) by (nonlinear_arith)
                requires
                    width <= seq_length,
                    seq_length * seq_length <= isize::MAX,
                    seq_length >= 2,
            ;
            let values = B::neg_infinities(1, width);
            mask = B::with_block(mask, i, i + 1, values);
            i = i + 1;
            proof {
                lemma_rank2_equal(
                    B::view2(&mask),
                    partial_mask_spec::<B>(seq_length as nat, i as nat),
                );
            }
        }
    }
    proof {
        let done = if seq_length >= 2 {
            (seq_length - 1) as nat
        } else {
            0
        };
        lemma_rank2_equal(
            partial_mask_spec::<B>(seq_length as nat, done),
            causal_mask_spec::<B>(seq_length as nat),
        );
    }
    B::to_device(mask, device)
}

} // verus!
