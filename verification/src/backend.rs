//! The tensor engine as the library sees it.
//!
//! [`TensorOps`] is the capability contract: the tensor values of rank 2, 3 and
//! 4 that an engine offers, what each stands for ([`Rank2`], [`Rank3`],
//! [`Rank4`]), and the operations the attention primitive and the mask builder
//! are written against. One conforming type is provided per execution backend
//! (CPU, GPU, gradient tracking). Nothing here is proved of an implementation:
//! the contracts below are what an implementor promises, and every result that
//! the library states about its own functions holds for the implementations
//! that keep them.
//!
//! Operations that only move elements are specified element by element.
//! Operations that compute with elements are specified by name: the contract
//! says which function of the operands the result is, and of what shape, and
//! leaves the arithmetic to the engine.

use vstd::prelude::*;
use crate::tensor::{Rank2, Rank3, Rank4};
use crate::attention::{attention_failure, attention_spec, qkv_attention, AttentionError};
use crate::mask::{attn_decoder_mask, causal_mask_spec};

verus! {

/// The tensors of an engine and the operations the library needs of them.
pub trait TensorOps: Sized {
    /// What one element of a tensor stands for.
    type Elem;

    /// A compute device on which tensors reside.
    type Device;

    /// A matrix.
    type Tensor2;

    /// A tensor of rank 3.
    type Tensor3;

    /// A tensor of rank 4.
    type Tensor4;

    /// A number handed to the engine as it is, such as the guidance scale.
    type Scalar;

    /// What a matrix stands for: its extent and its elements.
    spec fn view2(t: &Self::Tensor2) -> Rank2<Self::Elem>;

    /// What a tensor of rank 3 stands for.
    spec fn view3(t: &Self::Tensor3) -> Rank3<Self::Elem>;

    /// What a tensor of rank 4 stands for.
    spec fn view4(t: &Self::Tensor4) -> Rank4<Self::Elem>;

    /// The device a matrix resides on.
    spec fn device2(t: &Self::Tensor2) -> Self::Device;

    /// The device a tensor of rank 3 resides on.
    spec fn device3(t: &Self::Tensor3) -> Self::Device;

    /// The device a tensor of rank 4 resides on.
    spec fn device4(t: &Self::Tensor4) -> Self::Device;

    /// The device on which a tensor is created when none is asked for.
    spec fn default_device() -> Self::Device;

    /// The element that an additive mask holds where attention is allowed.
    spec fn zero() -> Self::Elem;

    /// The element that an additive mask holds where attention is forbidden.
    spec fn neg_infinity() -> Self::Elem;

    /// Every element of `x` multiplied by the inverse fourth root of the extent
    /// of the last axis of `x`.
    spec fn scale_spec(x: Rank4<Self::Elem>) -> Rank4<Self::Elem>;

    /// The matrix products of the trailing two axes, one per pair of leading
    /// indices.
    spec fn matmul_spec(a: Rank4<Self::Elem>, b: Rank4<Self::Elem>) -> Rank4<Self::Elem>;

    /// `bias` added to each matrix of the trailing two axes of `x`.
    spec fn add_bias_spec(x: Rank4<Self::Elem>, bias: Rank2<Self::Elem>) -> Rank4<Self::Elem>;

    /// Softmax along the last axis.
    spec fn softmax_spec(x: Rank4<Self::Elem>) -> Rank4<Self::Elem>;

    /// The elementwise difference `a - b`.
    spec fn sub_spec(a: Rank4<Self::Elem>, b: Rank4<Self::Elem>) -> Rank4<Self::Elem>;

    /// The elementwise sum `a + b`.
    spec fn add_spec(a: Rank4<Self::Elem>, b: Rank4<Self::Elem>) -> Rank4<Self::Elem>;

    /// Every element of `x` multiplied by `s`.
    spec fn mul_scalar_spec(x: Rank4<Self::Elem>, s: Self::Scalar) -> Rank4<Self::Elem>;

    /// The extent of a matrix.
    fn dims2(t: &Self::Tensor2) -> (d: (usize, usize))
        ensures
            Self::view2(t).wf(),
            d.0 == Self::view2(t).rows,
            d.1 == Self::view2(t).cols,
    ;

    /// The extent of a tensor of rank 3.
    fn dims3(t: &Self::Tensor3) -> (d: (usize, usize, usize))
        ensures
            Self::view3(t).wf(),
            d.0 == Self::view3(t).dims.0,
            d.1 == Self::view3(t).dims.1,
            d.2 == Self::view3(t).dims.2,
    ;

    /// Reshapes `[d0, d1, d2]` to `[d0, d1, n_head, d2 / n_head]`.
    fn split_heads(t: Self::Tensor3, n_head: usize) -> (r: Self::Tensor4)
        requires
            n_head > 0,
            Self::view3(&t).dims.2 % (n_head as nat) == 0,
        ensures
            Self::view4(&r).wf(),
            Self::view4(&r) == Self::view3(&t).split_heads(n_head as nat),
            Self::device4(&r) == Self::device3(&t),
    ;

    /// Exchanges axes 1 and 2.
    fn swap_middle(t: Self::Tensor4) -> (r: Self::Tensor4)
        ensures
            Self::view4(&r).wf(),
            Self::view4(&r) == Self::view4(&t).swap_middle(),
            Self::device4(&r) == Self::device4(&t),
    ;

    /// Exchanges the last two axes.
    fn transpose(t: Self::Tensor4) -> (r: Self::Tensor4)
        ensures
            Self::view4(&r).wf(),
            Self::view4(&r) == Self::view4(&t).transpose(),
            Self::device4(&r) == Self::device4(&t),
    ;

    /// Multiplies every element by the inverse fourth root of the extent of
    /// the last axis, which for heads `[batch, head, position, width]` is the
    /// head size.
    fn scale(t: Self::Tensor4) -> (r: Self::Tensor4)
        ensures
            Self::view4(&r).wf(),
            Self::view4(&r) == Self::scale_spec(Self::view4(&t)),
            Self::view4(&r).dims == Self::view4(&t).dims,
            Self::device4(&r) == Self::device4(&t),
    ;

    /// Batched matrix product over the last two axes.
    fn matmul(a: Self::Tensor4, b: Self::Tensor4) -> (r: Self::Tensor4)
        requires
            Self::device4(&a) == Self::device4(&b),
            Self::view4(&a).dims.0 == Self::view4(&b).dims.0,
            Self::view4(&a).dims.1 == Self::view4(&b).dims.1,
            Self::view4(&a).dims.3 == Self::view4(&b).dims.2,
        ensures
            Self::view4(&r).wf(),
            Self::view4(&r) == Self::matmul_spec(Self::view4(&a), Self::view4(&b)),
            Self::view4(&r).dims == (
                Self::view4(&a).dims.0,
                Self::view4(&a).dims.1,
                Self::view4(&a).dims.2,
                Self::view4(&b).dims.3,
            ),
            Self::device4(&r) == Self::device4(&a),
    ;

    /// The block of the first `rows` rows and first `cols` columns of `t`.
    fn leading_block(t: Self::Tensor2, rows: usize, cols: usize) -> (r: Self::Tensor2)
        requires
            0 < rows <= Self::view2(&t).rows,
            0 < cols <= Self::view2(&t).cols,
        ensures
            Self::view2(&r).wf(),
            Self::view2(&r) == Self::view2(&t).leading_block(rows as nat, cols as nat),
            Self::device2(&r) == Self::device2(&t),
    ;

    /// Adds `bias` to every matrix of the last two axes of `x`.
    fn add_bias(x: Self::Tensor4, bias: Self::Tensor2) -> (r: Self::Tensor4)
        requires
            Self::device4(&x) == Self::device2(&bias),
            Self::view2(&bias).rows == Self::view4(&x).dims.2,
            Self::view2(&bias).cols == Self::view4(&x).dims.3,
        ensures
            Self::view4(&r).wf(),
            Self::view4(&r) == Self::add_bias_spec(Self::view4(&x), Self::view2(&bias)),
            Self::view4(&r).dims == Self::view4(&x).dims,
            Self::device4(&r) == Self::device4(&x),
    ;

    /// Softmax along the last axis, which is not empty, computed without
    /// overflow.
    fn softmax(t: Self::Tensor4) -> (r: Self::Tensor4)
        requires
            Self::view4(&t).dims.3 > 0,
        ensures
            Self::view4(&r).wf(),
            Self::view4(&r) == Self::softmax_spec(Self::view4(&t)),
            Self::view4(&r).dims == Self::view4(&t).dims,
            Self::device4(&r) == Self::device4(&t),
    ;

    /// Elementwise `a - b` of two tensors of one shape.
    fn sub(a: &Self::Tensor4, b: &Self::Tensor4) -> (r: Self::Tensor4)
        requires
            Self::device4(a) == Self::device4(b),
            Self::view4(a).dims == Self::view4(b).dims,
        ensures
            Self::view4(&r).wf(),
            Self::view4(&r) == Self::sub_spec(Self::view4(a), Self::view4(b)),
            Self::view4(&r).dims == Self::view4(a).dims,
            Self::device4(&r) == Self::device4(a),
    ;

    /// Elementwise `a + b` of two tensors of one shape.
    fn add(a: &Self::Tensor4, b: &Self::Tensor4) -> (r: Self::Tensor4)
        requires
            Self::device4(a) == Self::device4(b),
            Self::view4(a).dims == Self::view4(b).dims,
        ensures
            Self::view4(&r).wf(),
            Self::view4(&r) == Self::add_spec(Self::view4(a), Self::view4(b)),
            Self::view4(&r).dims == Self::view4(a).dims,
            Self::device4(&r) == Self::device4(a),
    ;

    /// Multiplies every element by `s`.
    fn mul_scalar(t: Self::Tensor4, s: &Self::Scalar) -> (r: Self::Tensor4)
        ensures
            Self::view4(&r).wf(),
            Self::view4(&r) == Self::mul_scalar_spec(Self::view4(&t), *s),
            Self::view4(&r).dims == Self::view4(&t).dims,
            Self::device4(&r) == Self::device4(&t),
    ;

    /// Flattens the last two axes into one.
    fn merge_heads(t: Self::Tensor4) -> (r: Self::Tensor3)
        ensures
            Self::view3(&r).wf(),
            Self::view3(&r) == Self::view4(&t).merge_heads(),
            Self::device3(&r) == Self::device4(&t),
    ;

    /// A matrix of zeros on the default device.
    fn zeros(rows: usize, cols: usize) -> (r: Self::Tensor2)
        requires
            rows * cols <= isize::MAX,
        ensures
            Self::view2(&r).wf(),
            Self::view2(&r) == Rank2::filled(rows as nat, cols as nat, Self::zero()),
            Self::device2(&r) == Self::default_device(),
    ;

    /// A matrix of negative infinities on the default device.
    fn neg_infinities(rows: usize, cols: usize) -> (r: Self::Tensor2)
        requires
            rows * cols <= isize::MAX,
        ensures
            Self::view2(&r).wf(),
            Self::view2(&r) == Rank2::filled(rows as nat, cols as nat, Self::neg_infinity()),
            Self::device2(&r) == Self::default_device(),
    ;

    /// `t` with the block at `(row, col)` replaced by `block`.
    fn with_block(t: Self::Tensor2, row: usize, col: usize, block: Self::Tensor2) -> (r:
        Self::Tensor2)
        requires
            Self::device2(&t) == Self::device2(&block),
            Self::view2(&block).rows > 0,
            Self::view2(&block).cols > 0,
            row + Self::view2(&block).rows <= Self::view2(&t).rows,
            col + Self::view2(&block).cols <= Self::view2(&t).cols,
        ensures
            Self::view2(&r).wf(),
            Self::view2(&r) == Self::view2(&t).with_block(
                row as nat,
                col as nat,
                Self::view2(&block),
            ),
            Self::device2(&r) == Self::device2(&t),
    ;

    /// The same matrix on `device`.
    fn to_device(t: Self::Tensor2, device: &Self::Device) -> (r: Self::Tensor2)
        ensures
            Self::view2(&r).wf(),
            Self::view2(&r) == Self::view2(&t),
            Self::device2(&r) == *device,
    ;
}

/// A tensor engine together with the two attention operations, which every
/// engine has from the library.
pub trait Backend: TensorOps {
    /// Multi-head scaled dot-product attention; see [`qkv_attention`].
    fn qkv_attention(
        q: Self::Tensor3,
        k: Self::Tensor3,
        v: Self::Tensor3,
        mask: Option<Self::Tensor2>,
        n_head: usize,
    ) -> (r: Result<Self::Tensor3, AttentionError>)
        requires
            Self::device3(&k) == Self::device3(&q),
            Self::device3(&v) == Self::device3(&q),
            mask matches Some(m) ==> Self::device2(&m) == Self::device3(&q),
        ensures
            match attention_failure(
                Self::view3(&q).dims,
                Self::view3(&k).dims,
                Self::view3(&v).dims,
                match mask {
                    Some(m) => Some((Self::view2(&m).rows, Self::view2(&m).cols)),
                    None => None,
                },
                n_head as nat,
            ) {
                Some(e) => r == Err::<Self::Tensor3, AttentionError>(e),
                None => r matches Ok(o) && Self::view3(&o) == attention_spec::<Self>(
                    Self::view3(&q),
                    Self::view3(&k),
                    Self::view3(&v),
                    match mask {
                        Some(m) => Some(Self::view2(&m)),
                        None => None,
                    },
                    n_head as nat,
                ) && Self::view3(&o).wf() && Self::view3(&o).dims == Self::view3(&q).dims
                    && Self::device3(&o) == Self::device3(&q),
            },
    {
        qkv_attention::<Self>(q, k, v, mask, n_head)
    }

    /// The causal mask for sequences of `seq_length` positions; see
    /// [`attn_decoder_mask`].
    fn attn_decoder_mask(seq_length: usize, device: &Self::Device) -> (r: Self::Tensor2)
        requires
            seq_length * seq_length <= isize::MAX,
        ensures
            Self::view2(&r) == causal_mask_spec::<Self>(seq_length as nat),
            Self::device2(&r) == *device,
    {
        attn_decoder_mask::<Self>(seq_length, device)
    }
}

} // verus!
