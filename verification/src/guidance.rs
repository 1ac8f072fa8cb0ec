//! Classifier-free guidance.

use vstd::prelude::*;
use crate::backend::TensorOps;
use crate::tensor::Rank4;

verus! {

/// The guided prediction `uncond + scale * (cond - uncond)`.
pub open spec fn guide_spec<B: TensorOps>(
    cond: Rank4<B::Elem>,
    uncond: Rank4<B::Elem>,
    scale: B::Scalar,
) -> Rank4<B::Elem> {
    B::add_spec(uncond, B::mul_scalar_spec(B::sub_spec(cond, uncond), scale))
}

/// Combines the conditional and the unconditional prediction of one step:
/// the unconditional prediction, moved towards the conditional one by `scale`
/// times their difference. The two predictions have one shape and reside on
/// one device, and so does the result.
pub fn guide<B: TensorOps>(cond: B::Tensor4, uncond: B::Tensor4, scale: &B::Scalar) -> (r:
    B::Tensor4)
    requires
        B::view4(&cond).dims == B::view4(&uncond).dims,
        B::device4(&cond) == B::device4(&uncond),
    ensures
        B::view4(&r) == guide_spec::<B>(B::view4(&cond), B::view4(&uncond), *scale),
        B::view4(&r).wf(),
        B::view4(&r).dims == B::view4(&cond).dims,
        B::device4(&r) == B::device4(&cond),
{
    let difference = B::sub(&cond, &uncond);
    B::add(&uncond, &B::mul_scalar(difference, scale))
}

} // verus!
