//! Scaled-ratio vector-update kernel.
use vstd::prelude::*;
use crate::buffers::BufferId;
use crate::div_ceil;
use crate::kernels::{ExecutionStep, Kernel, KernelOp};

verus! {

/// Whether the scaled term is added to or subtracted from the destination;
/// baked into the kernel's program at construction, not chosen per dispatch.
#[derive(Clone, Copy, PartialEq, Eq, Debug)]
pub enum Operation {
    Add,
    Sub,
}

/// The single dispatch of a scaled-ratio update
/// `y[i] = y[i] OP (a1[0] / a2[0]) * x[i]` over vectors of `n` elements,
/// where `a1` and `a2` are one-element scalar buffers read at dispatch time.
pub open spec fn saxpy_update_div_plan(
    a1: BufferId,
    a2: BufferId,
    x: BufferId,
    y: BufferId,
    op: Operation,
    n: u32,
) -> Seq<ExecutionStep> {
    seq![
        ExecutionStep {
            op: KernelOp::SaxpyUpdateDiv { a1, a2, x, y, op },
            workgroups: (
                div_ceil(n as int, crate::kernels::saxpy_update::UPDATE_WORKGROUP_SIZE as int) as u32,
                1,
                1,
            ),
        },
    ]
}

/// Performs y = y OP (a1/a2) * x where OP is either addition or subtraction.
pub struct SAXPYUpdateDivKernel {
    step: ExecutionStep,
}

impl SAXPYUpdateDivKernel {
    pub fn new(a1: BufferId, a2: BufferId, x: BufferId, y: BufferId, op: Operation, n: u32) -> (r: Self)
        requires
            n + crate::kernels::saxpy_update::UPDATE_WORKGROUP_SIZE <= u32::MAX,
        ensures
            r.steps() == saxpy_update_div_plan(a1, a2, x, y, op, n),
    {
        let wg = crate::kernels::saxpy_update::UPDATE_WORKGROUP_SIZE;
        let workgroups = ((n + wg - 1) / wg, 1, 1);
        let r = SAXPYUpdateDivKernel {
            step: ExecutionStep::new(KernelOp::SaxpyUpdateDiv { a1, a2, x, y, op }, workgroups),
        };
        proof {
            assert(r.steps() =~= saxpy_update_div_plan(a1, a2, x, y, op, n));
        }
        r
    }
}

impl Kernel for SAXPYUpdateDivKernel {
    closed spec fn steps(&self) -> Seq<ExecutionStep> {
        seq![self.step]
    }

    fn add_to_pass(&self, pass: &mut Vec<ExecutionStep>) {
        self.step.add_to_pass(pass);
        proof {
            assert(pass@ =~= old(pass)@ + self.steps());
        }
    }
}

} // verus!
