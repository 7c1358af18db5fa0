use vstd::prelude::*;

use crate::error::RutabagaError;

verus! {

/// An OS memory or synchronization handle of the utility layer
/// (`magma_gpu::util::Handle`).
#[verifier::external_type_specification]
#[verifier::external_body]
pub struct ExMagmaGpuHandle(magma_gpu::util::Handle);

/// Duplicates an OS handle (`magma_gpu::util::Handle::try_clone`). Whether the
/// OS grants the duplicate depends on the machine, so nothing is stated of the
/// outcome.
#[verifier::external_body]
pub(crate) fn try_clone_handle(
    handle: &magma_gpu::util::Handle,
) -> (r: Result<magma_gpu::util::Handle, magma_gpu::util::Error>) {
    handle.try_clone()
}

/// Maps the outcome of duplicating a fence handle to the component's error:
/// any failure of the OS layer is reported as `InvalidResourceId`.
pub fn shared_fence_handle(
    cloned: Result<magma_gpu::util::Handle, magma_gpu::util::Error>,
) -> (r: Result<magma_gpu::util::Handle, RutabagaError>)
    ensures
        cloned is Ok <==> r is Ok,
        cloned is Ok ==> r == Ok::<magma_gpu::util::Handle, RutabagaError>(cloned->Ok_0),
        r is Err ==> r->Err_0 is InvalidResourceId,
{
    match cloned {
        Ok(h) => Ok(h),
        Err(_) => Err(RutabagaError::InvalidResourceId),
    }
}

} // verus!
