//! The compute dispatcher: runs a single compute shader over a
//! caller-supplied storage buffer and returns a waitable fence handle.
//!
//! Per dispatch the helper moves through a linear chain of stages —
//! pipeline, descriptor set, recording, submission — with no retries;
//! a failure at any stage is surfaced with that stage identified, and
//! every transient object is owned by the helper's local scope, so a
//! failed call leaves no GPU state behind for the caller to release.

use vstd::prelude::*;

use std::sync::Arc;
use vulkano::shader::ShaderModule;

use crate::buffer::WordBuffer;
use crate::errors::DispatchError;
use crate::runtime::VulkanRuntime;
use crate::vk;
use crate::vk::ComputeFence;

verus! {

/// The total number of shader invocations a dispatch launches: the
/// product of the workgroup grid and the shader's local workgroup
/// size.
pub open spec fn spec_invocations(group_counts: [u32; 3], local_size: [u32; 3]) -> int {
    (group_counts@[0] as int) * (group_counts@[1] as int) * (group_counts@[2] as int)
        * (local_size@[0] as int) * (local_size@[1] as int) * (local_size@[2] as int)
}

/// The number of shader invocations — one buffer word each for the
/// bundled kind of kernel — that a dispatch of `group_counts`
/// workgroups launches with a shader of the given local size, or
/// `None` where the count does not fit in 64 bits. A storage buffer
/// shorter than this footprint leaves the out-of-range accesses
/// undefined at the shader level; the dispatcher does not check the
/// buffer's length against it, so callers that want the guarantee
/// compare this number with the buffer's word count themselves.
pub fn dispatch_footprint(group_counts: [u32; 3], local_size: [u32; 3]) -> (r: Option<u64>)
    ensures
        r matches Some(n) ==> n == spec_invocations(group_counts, local_size),
        r is None ==> spec_invocations(group_counts, local_size) > u64::MAX,
{
    let g0 = group_counts[0] as u64;
    let g1 = group_counts[1] as u64;
    let g2 = group_counts[2] as u64;
    let l0 = local_size[0] as u64;
    let l1 = local_size[1] as u64;
    let l2 = local_size[2] as u64;
    assert(g0 * g1 <= u64::MAX && g2 * l0 <= u64::MAX && l1 * l2 <= u64::MAX)
        by (nonlinear_arith)
        requires
            g0 <= u32::MAX && g1 <= u32::MAX && g2 <= u32::MAX,
            l0 <= u32::MAX && l1 <= u32::MAX && l2 <= u32::MAX,
    ;
    let a: u64 = g0 * g1;
    let b: u64 = g2 * l0;
    let c: u64 = l1 * l2;
    assert((a as int) * (b as int) <= u128::MAX) by (nonlinear_arith)
        requires
            a <= u64::MAX && b <= u64::MAX,
    ;
    let ab: u128 = (a as u128) * (b as u128);
    assert(spec_invocations(group_counts, local_size) == (ab as int) * (c as int))
        by (nonlinear_arith)
        requires
            a == g0 * g1 && b == g2 * l0 && c == l1 * l2 && ab == a * b,
            g0 == group_counts@[0] && g1 == group_counts@[1] && g2 == group_counts@[2],
            l0 == local_size@[0] && l1 == local_size@[1] && l2 == local_size@[2],
    ;
    if c == 0 {
        assert((ab as int) * (c as int) == 0) by (nonlinear_arith)
            requires
                c == 0,
        ;
        return Some(0);
    }
    if ab > u64::MAX as u128 {
        assert((ab as int) * (c as int) > u64::MAX) by (nonlinear_arith)
            requires
                ab > u64::MAX && c >= 1,
        ;
        return None;
    }
    assert((ab as int) * (c as int) <= u128::MAX) by (nonlinear_arith)
        requires
            ab <= u64::MAX && c <= u64::MAX,
    ;
    let abc: u128 = ab * (c as u128);
    if abc <= u64::MAX as u128 {
        Some(abc as u64)
    } else {
        None
    }
}

/// Builds a compute pipeline from the shader's `main` entry point,
/// binds the buffer to the pipeline's descriptor-set layout 0 at the
/// given binding, records a one-time primary command buffer on the
/// runtime's queue family that dispatches `group_counts` workgroups,
/// submits it to the runtime's queue after a fresh "now"
/// synchronization point, and returns the fence future without
/// blocking. On failure the error names the stage that failed, and no
/// GPU state survives the call. From submission until the returned
/// fence signals, the buffer is logically owned by the device: a host
/// read in that window observes unspecified contents, so no contract
/// of this library ever speaks of the buffer's words — the caller
/// waits on the fence, then reads. The buffer must outlive the fence.
pub fn dispatch_compute(
    shader: &Arc<ShaderModule>,
    data_buffer: &WordBuffer,
    runtime: &VulkanRuntime,
    group_counts: [u32; 3],
    binding: u32,
) -> (r: Result<ComputeFence, DispatchError>)
    ensures
        r matches Err(e) ==> e matches DispatchError::Failed(_),
{
    let pipeline = match vk::create_compute_pipeline(runtime.device(), shader) {
        Ok(p) => p,
        Err(e) => {
            return Err(e);
        },
    };
    let set = match vk::create_descriptor_set(&pipeline, data_buffer, binding) {
        Ok(s) => s,
        Err(e) => {
            return Err(e);
        },
    };
    let command_buffer = match vk::record_dispatch(
        runtime.device(),
        runtime.queue_family_index(),
        &pipeline,
        &set,
        group_counts,
    ) {
        Ok(cb) => cb,
        Err(e) => {
            return Err(e);
        },
    };
    vk::submit_and_signal(runtime.device(), runtime.queue(), command_buffer)
}

/// Runs the shader over the buffer with the dispatcher's fixed
/// defaults: a `[1024, 1, 1]` workgroup grid and the buffer bound at
/// (set 0, binding 0). The workgroup size is a property of the shader;
/// with the bundled kind of kernel (local size 64 × 1 × 1) the
/// defaults cover a buffer of 65 536 words.
pub fn execute_compute(
    shader: &Arc<ShaderModule>,
    data_buffer: &WordBuffer,
    runtime: &VulkanRuntime,
) -> (r: Result<ComputeFence, DispatchError>)
    ensures
        r matches Err(e) ==> e matches DispatchError::Failed(_),
{
    dispatch_compute(shader, data_buffer, runtime, [1024, 1, 1], 0)
}

} // verus!
