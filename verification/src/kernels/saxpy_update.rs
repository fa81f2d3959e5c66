//! Plain vector-update kernel.
use vstd::prelude::*;
use crate::buffers::BufferId;
use crate::div_ceil;
use crate::kernels::{ExecutionStep, Kernel, KernelOp};

verus! {

/// Elements are processed one invocation each, in workgroups of 256.
pub const UPDATE_WORKGROUP_SIZE: u32 = 256;

/// The single dispatch of a plain update `y[i] = x[i] - y[i]` over vectors
/// of `n` elements.
pub open spec fn saxpy_update_plan(x: BufferId, y: BufferId, n: u32) -> Seq<ExecutionStep> {
    seq![
        ExecutionStep {
            op: KernelOp::SaxpyUpdate { x, y },
            workgroups: (div_ceil(n as int, UPDATE_WORKGROUP_SIZE as int) as u32, 1, 1),
        },
    ]
}

/// Performs y = x - y (used to initialize the residual r = b - A * x0).
pub struct SAXPYUpdateKernel {
    step: ExecutionStep,
}

impl SAXPYUpdateKernel {
    pub fn new(x: BufferId, y: BufferId, n: u32) -> (r: Self)
        requires
            n + UPDATE_WORKGROUP_SIZE <= u32::MAX,
        ensures
            r.steps() == saxpy_update_plan(x, y, n),
    {
        let workgroups = ((n + UPDATE_WORKGROUP_SIZE - 1) / UPDATE_WORKGROUP_SIZE, 1, 1);
        let r = SAXPYUpdateKernel {
            step: ExecutionStep::new(KernelOp::SaxpyUpdate { x, y }, workgroups),
        };
        proof {
            assert(r.steps() =~= saxpy_update_plan(x, y, n));
        }
        r
    }
}

impl Kernel for SAXPYUpdateKernel {
    closed spec fn steps(&self) -> Seq<ExecutionStep> {
        seq![self.step]
    }

    fn add_to_pass(&self, pass: &mut Vec<ExecutionStep>) {
        self.step.add_to_pass(pass);
        proof {
            assert(pass@ =~= old(pass)@ + self.steps());
        }
    }
}

} // verus!
