//! Kernel that publishes a state vector to the display texture.
use vstd::prelude::*;
use crate::buffers::BufferId;
use crate::kernels::{ExecutionStep, Kernel, KernelOp};

verus! {

/// The single dispatch that writes vector `x` to a 2D storage texture of the
/// given extent, in 8-by-8 workgroups.
pub open spec fn write_to_texture_plan(x: BufferId, width: u32, height: u32) -> Seq<ExecutionStep> {
    seq![
        ExecutionStep {
            op: KernelOp::WriteToTexture { x },
            workgroups: ((width as int / 8) as u32, (height as int / 8) as u32, 1),
        },
    ]
}

/// Writes a buffer to a 2d storage texture.
pub struct WriteToTextureKernel {
    step: ExecutionStep,
}

impl WriteToTextureKernel {
    pub fn new(x: BufferId, width: u32, height: u32) -> (r: Self)
        ensures
            r.steps() == write_to_texture_plan(x, width, height),
    {
        let workgroups = (width / 8, height / 8, 1);
        let r = WriteToTextureKernel {
            step: ExecutionStep::new(KernelOp::WriteToTexture { x }, workgroups),
        };
        proof {
            assert(r.steps() =~= write_to_texture_plan(x, width, height));
        }
        r
    }
}

impl Kernel for WriteToTextureKernel {
    closed spec fn steps(&self) -> Seq<ExecutionStep> {
        seq![self.step]
    }

    fn add_to_pass(&self, pass: &mut Vec<ExecutionStep>) {
        self.step.add_to_pass(pass);
        proof {
            assert(pass@ =~= old(pass)@ + self.steps());
        }
    }
}

} // verus!
