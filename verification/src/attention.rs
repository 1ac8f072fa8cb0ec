//! Multi-head scaled dot-product attention.

use vstd::prelude::*;
use crate::backend::TensorOps;
use crate::tensor::{lemma_rank2_equal, Rank2, Rank3, Rank4};

verus! {

/// Why attention was refused.
#[derive(Clone, Copy, Debug, PartialEq, Eq, Structural)]
pub enum AttentionError {
    /// The number of heads is zero or does not divide the embedding size.
    InvalidHeadCount,
    /// Query, key and value disagree on batch size, embedding size or key
    /// length.
    ShapeMismatch,
    /// There is no key to attend to.
    NoKeys,
    /// The mask has fewer rows than there are queries or fewer columns than
    /// there are keys.
    MaskTooSmall,
}

/// The reason, if any, for which attention over operands of these shapes is
/// refused. The head count is looked at first, then whether the operands
/// agree, then whether there is a key, then the mask.
pub open spec fn attention_failure(
    q: (nat, nat, nat),
    k: (nat, nat, nat),
    v: (nat, nat, nat),
    mask: Option<(nat, nat)>,
    n_head: nat,
) -> Option<AttentionError> {
    if n_head == 0 || q.2 % n_head != 0 {
        Some(AttentionError::InvalidHeadCount)
    } else if k.0 != q.0 || k.2 != q.2 || v != k {
        Some(AttentionError::ShapeMismatch)
    } else if k.1 == 0 {
        Some(AttentionError::NoKeys)
    } else if mask matches Some(m) && (m.0 < q.1 || m.1 < k.1) {
        Some(AttentionError::MaskTooSmall)
    } else {
        None
    }
}

/// What attention computes.
///
/// Each operand is cut into `n_head` heads along its embedding axis and the
/// head axis is brought in front of the sequence axis. Queries and keys are
/// both scaled by the inverse fourth root of the head size, rather than their
/// product by its inverse square root, and the keys are then transposed. The
/// scores are the products of queries and keys, to which the leading block of
/// the mask is added where there is a mask and a query to add it for. The
/// weights are the softmax of the scores along the key axis, and the result is
/// the product of weights and values with the heads put back side by side.
pub open spec fn attention_spec<B: TensorOps>(
    q: Rank3<B::Elem>,
    k: Rank3<B::Elem>,
    v: Rank3<B::Elem>,
    mask: Option<Rank2<B::Elem>>,
    n_head: nat,
) -> Rank3<B::Elem> {
    let qh = B::scale_spec(q.split_heads(n_head).swap_middle());
    let kh = B::scale_spec(k.split_heads(n_head).swap_middle()).transpose();
    let vh = v.split_heads(n_head).swap_middle();
    let qk = B::matmul_spec(qh, kh);
    let scores = match mask {
        Some(m) if q.dims.1 > 0 => B::add_bias_spec(
            qk,
            m.leading_block(q.dims.1, k.dims.1),
        ),
        _ => qk,
    };
    B::matmul_spec(B::softmax_spec(scores), vh).swap_middle().merge_heads()
}

/// Whether, in engine `B`, adding a bias of zeros leaves a tensor as it is.
pub open spec fn zero_bias_is_identity<B: TensorOps>() -> bool {
    forall|x: Rank4<B::Elem>, rows: nat, cols: nat| #[trigger]
        B::add_bias_spec(x, Rank2::filled(rows, cols, B::zero())) == x
}

/// Where adding zeros changes nothing, attention under a mask of zeros is
/// attention without a mask.
pub proof fn lemma_zero_mask_is_no_mask<B: TensorOps>(
    q: Rank3<B::Elem>,
    k: Rank3<B::Elem>,
    v: Rank3<B::Elem>,
    rows: nat,
    cols: nat,
    n_head: nat,
)
    requires
        zero_bias_is_identity::<B>(),
        attention_failure(q.dims, k.dims, v.dims, Some((rows, cols)), n_head) is None,
    ensures
        attention_spec::<B>(q, k, v, Some(Rank2::filled(rows, cols, B::zero())), n_head)
            == attention_spec::<B>(q, k, v, None, n_head),
{
    let mask = Rank2::filled(rows, cols, B::zero());
    lemma_rank2_equal(
        mask.leading_block(q.dims.1, k.dims.1),
        Rank2::filled(q.dims.1, k.dims.1, B::zero()),
    );
}

/// Checks operand shapes against [`attention_failure`].
pub fn check_attention(
    q: (usize, usize, usize),
    k: (usize, usize, usize),
    v: (usize, usize, usize),
    mask: Option<(usize, usize)>,
    n_head: usize,
) -> (r: Option<AttentionError>)
    ensures
        r == attention_failure(
            (q.0 as nat, q.1 as nat, q.2 as nat),
            (k.0 as nat, k.1 as nat, k.2 as nat),
            (v.0 as nat, v.1 as nat, v.2 as nat),
            match mask {
                Some(m) => Some((m.0 as nat, m.1 as nat)),
                None => None,
            },
            n_head as nat,
        ),
{
    if n_head == 0 || q.2 % n_head != 0 {
        return Some(AttentionError::InvalidHeadCount);
    }
    if k.0 != q.0 || k.2 != q.2 || v.0 != k.0 || v.1 != k.1 || v.2 != k.2 {
        return Some(AttentionError::ShapeMismatch);
    }
    if k.1 == 0 {
        return Some(AttentionError::NoKeys);
    }
    match mask {
        Some(m) => {
            if m.0 < q.1 || m.1 < k.1 {
                Some(AttentionError::MaskTooSmall)
            } else {
                None
            }
        },
        None => None,
    }
}

/// Multi-head scaled dot-product attention of queries `q` (`[B, Tq, D]`) over
/// keys `k` and values `v` (`[B, Tk, D]`) with `n_head` heads, under an
/// optional additive mask of which the leading `[Tq, Tk]` block is used.
///
/// Operands that do not fit together are refused with the reason
/// [`attention_failure`] gives. Otherwise the result is [`attention_spec`], of
/// the shape of `q` and on its device.
pub fn qkv_attention<B: TensorOps>(
    q: B::Tensor3,
    k: B::Tensor3,
    v: B::Tensor3,
    mask: Option<B::Tensor2>,
    n_head: usize,
) -> (r: Result<B::Tensor3, AttentionError>)
    requires
        B::device3(&k) == B::device3(&q),
        B::device3(&v) == B::device3(&q),
        mask matches Some(m) ==> B::device2(&m) == B::device3(&q),
    ensures
        match attention_failure(
            B::view3(&q).dims,
            B::view3(&k).dims,
            B::view3(&v).dims,
            match mask {
                Some(m) => Some((B::view2(&m).rows, B::view2(&m).cols)),
                None => None,
            },
            n_head as nat,
        ) {
            Some(e) => r == Err::<B::Tensor3, AttentionError>(e),
            None => r matches Ok(o) && B::view3(&o) == attention_spec::<B>(
                B::view3(&q),
                B::view3(&k),
                B::view3(&v),
                match mask {
                    Some(m) => Some(B::view2(&m)),
                    None => None,
                },
                n_head as nat,
            ) && B::view3(&o).wf() && B::view3(&o).dims == B::view3(&q).dims && B::device3(&o)
                == B::device3(&q),
        },
{
    let qd = B::dims3(&q);
    let kd = B::dims3(&k);
    let vd = B::dims3(&v);
    let md = match &mask {
        Some(m) => Some(B::dims2(m)),
        None => None,
    };
    if let Some(e) = check_attention(qd, kd, vd, md, n_head) {
        return Err(e);
    }
    let n_qctx = qd.1;
    let n_ctx = kd.1;
    let n_state = qd.2;

    let qh = B::scale(B::swap_middle(B::split_heads(q, n_head)));
    let kh = B::transpose(B::scale(B::swap_middle(B::split_heads(k, n_head))));
    let vh = B::swap_middle(B::split_heads(v, n_head));

    let qk = B::matmul(qh, kh);
    let scores = match mask {
        Some(m) => {
            if n_qctx > 0 {
                B::add_bias(qk, B::leading_block(m, n_qctx, n_ctx))
            } else {
                qk
            }
        },
        None => qk,
    };
    let w = B::softmax(scores);
    let o = B::merge_heads(B::swap_middle(B::matmul(w, vh)));
    proof {
        let width = n_state as nat / n_head as nat;
        assert(n_head as nat * width == n_state as nat) by (nonlinear_arith)
            requires
                n_head > 0,
                width == n_state as nat / n_head as nat,
                n_state as nat % n_head as nat == 0,
        ;
    }
    Ok(o)
}

} // verus!
