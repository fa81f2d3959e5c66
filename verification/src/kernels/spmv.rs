//! Sparse matrix-vector multiplication kernel.
use vstd::prelude::*;
use crate::buffers::BufferId;
use crate::dia_matrix::DIAMatrixDescriptor;
use crate::div_ceil;
use crate::kernels::{ExecutionStep, Kernel, KernelOp};

verus! {

/// Rows are processed one invocation each, in workgroups of 64.
pub const SPMV_WORKGROUP_SIZE: u32 = 64;

/// The single dispatch of an SpMV kernel for `y = A * x`.
pub open spec fn spmv_plan(a: DIAMatrixDescriptor, x: BufferId, y: BufferId) -> Seq<ExecutionStep> {
    seq![
        ExecutionStep {
            op: KernelOp::SpMV {
                x,
                params: a.params,
                data: a.data,
                offsets: a.offsets,
                y,
            },
            workgroups: (div_ceil(a.num_cols as int, SPMV_WORKGROUP_SIZE as int) as u32, 1, 1),
        },
    ]
}

/// Specialized sparse matrix-vector multiplication kernel.
///
/// Describes y = A * x.
pub struct SpMVKernel {
    step: ExecutionStep,
}

impl SpMVKernel {
    pub fn new(a: &DIAMatrixDescriptor, x: BufferId, y: BufferId) -> (r: Self)
        requires
            a.num_cols + SPMV_WORKGROUP_SIZE <= u32::MAX,
        ensures
            r.steps() == spmv_plan(*a, x, y),
    {
        let workgroups = ((a.num_cols + SPMV_WORKGROUP_SIZE - 1) / SPMV_WORKGROUP_SIZE, 1, 1);
        let step = ExecutionStep::new(
            KernelOp::SpMV { x, params: a.params, data: a.data, offsets: a.offsets, y },
            workgroups,
        );
        let r = SpMVKernel { step };
        proof {
            assert(r.steps() =~= spmv_plan(*a, x, y));
        }
        r
    }
}

impl Kernel for SpMVKernel {
    closed spec fn steps(&self) -> Seq<ExecutionStep> {
        seq![self.step]
    }

    fn add_to_pass(&self, pass: &mut Vec<ExecutionStep>) {
        self.step.add_to_pass(pass);
        proof {
            assert(pass@ =~= old(pass)@ + self.steps());
        }
    }
}

} // verus!
