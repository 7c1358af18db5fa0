use vstd::prelude::*;

verus! {

/// The error type of the OS utility layer (`magma_gpu::util::Error`), carried
/// through unchanged.
#[verifier::external_type_specification]
#[verifier::external_body]
pub struct ExMagmaGpuError(magma_gpu::util::Error);

/// Errors reported to the guest by the Magma component.
#[derive(Debug)]
pub enum RutabagaError {
    /// A command stream or an extension chain in it could not be decoded or
    /// executed.
    InvalidCommandBuffer,
    /// A command named an object that does not exist, or creating or using
    /// the object failed.
    InvalidResourceId,
    /// An error of the OS utility layer.
    MagmaGpuError(magma_gpu::util::Error),
}

/// The result type of the Magma component.
pub type RutabagaResult<T> = Result<T, RutabagaError>;

} // verus!
