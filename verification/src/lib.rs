//! Multi-head scaled dot-product attention and the causal attention mask of a
//! diffusion image generator, written once against an abstract tensor engine,
//! together with the control flow of the denoising sampler.

pub mod attention;
pub mod backend;
pub mod guidance;
pub mod mask;
pub mod output;
pub mod tensor;
pub mod sampler;
