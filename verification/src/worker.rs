//! Per-worker material resources: which worker serves a frame, and whether
//! the resources created for the workers match their number.

use vstd::prelude::*;
use crate::error::AshError;

verus! {

/// The worker that serves frame `frame_index`: the frame index taken modulo
/// the worker count, and worker 0 where there are no workers at all.
pub open spec fn worker_index_spec(worker_count: nat, frame_index: nat) -> nat {
    if worker_count == 0 {
        0
    } else {
        frame_index % worker_count
    }
}

/// What `validate_worker_resources` answers for a triple of counts.
pub open spec fn worker_resources_verdict(
    worker_count: usize,
    descriptor_count: usize,
    buffer_count: usize,
) -> Result<(), AshError> {
    if worker_count == 0 {
        Ok(())
    } else if descriptor_count != worker_count {
        Err(AshError::MaterialDescriptorCountMismatch { descriptor_count, worker_count })
    } else if buffer_count != worker_count {
        Err(AshError::MaterialBufferCountMismatch { buffer_count, worker_count })
    } else {
        Ok(())
    }
}

/// Selects the per-worker material buffer for a frame.
pub fn compute_worker_index(worker_count: usize, frame_index: usize) -> (index: usize)
    ensures
        index == worker_index_spec(worker_count as nat, frame_index as nat),
        worker_count > 0 ==> index < worker_count,
{
    if worker_count == 0 {
        0
    } else {
        frame_index % worker_count
    }
}

/// Checks that one material descriptor set and one material uniform buffer
/// exist per worker. With no workers there is nothing to check.
pub fn validate_worker_resources(
    worker_count: usize,
    descriptor_count: usize,
    buffer_count: usize,
) -> (verdict: Result<(), AshError>)
    ensures
        verdict == worker_resources_verdict(worker_count, descriptor_count, buffer_count),
        verdict.is_ok() <==> (worker_count == 0 || (descriptor_count == worker_count
            && buffer_count == worker_count)),
{
    if worker_count == 0 {
        return Ok(());
    }
    if descriptor_count != worker_count {
        return Err(AshError::MaterialDescriptorCountMismatch { descriptor_count, worker_count });
    }
    if buffer_count != worker_count {
        return Err(AshError::MaterialBufferCountMismatch { buffer_count, worker_count });
    }
    Ok(())
}

} // verus!
