//! Dot-product kernel: a three-stage parallel reduction.
use vstd::prelude::*;
use crate::buffers::BufferId;
use crate::div_ceil;
use crate::kernels::{ExecutionStep, Kernel, KernelOp};

verus! {

/// Block size of the reduction stages.
pub const REDUCE_WORKGROUP_SIZE: u32 = 256;

/// The three chained dispatches of a dot-product kernel for `x . y` over
/// vectors of `n` elements: elementwise multiply into `tmp0`, block sums of
/// `tmp0` into `tmp1`, and a final single-workgroup sum of the
/// `ceil(n / 256)` partial sums into the one-element buffer `output`.
pub open spec fn dot_plan(
    x: BufferId,
    y: BufferId,
    tmp0: BufferId,
    tmp1: BufferId,
    output: BufferId,
    n: u32,
) -> Seq<ExecutionStep> {
    let groups = div_ceil(n as int, REDUCE_WORKGROUP_SIZE as int) as u32;
    seq![
        ExecutionStep {
            op: KernelOp::VecMul { x, y, out: tmp0 },
            workgroups: (groups, 1, 1),
        },
        ExecutionStep {
            op: KernelOp::BlockSumReduce { input: tmp0, out: tmp1 },
            workgroups: (groups, 1, 1),
        },
        ExecutionStep {
            op: KernelOp::SumReduceFinal { num_groups: groups, input: tmp1, out: output },
            workgroups: (1, 1, 1),
        },
    ]
}

/// Computes the scalar `x . y` into a one-element buffer, via `tmp0` (sized
/// at least `n`) and `tmp1` (sized at least `ceil(n / 256)`).
pub struct DotKernel {
    vec_mul: ExecutionStep,
    block_sum_reduce: ExecutionStep,
    sum_reduce: ExecutionStep,
}

impl DotKernel {
    pub fn new(
        x: BufferId,
        y: BufferId,
        tmp0: BufferId,
        tmp1: BufferId,
        output: BufferId,
        n: u32,
    ) -> (r: Self)
        requires
            n + REDUCE_WORKGROUP_SIZE <= u32::MAX,
        ensures
            r.steps() == dot_plan(x, y, tmp0, tmp1, output, n),
    {
        let groups = (n + REDUCE_WORKGROUP_SIZE - 1) / REDUCE_WORKGROUP_SIZE;
        let r = DotKernel {
            vec_mul: ExecutionStep::new(KernelOp::VecMul { x, y, out: tmp0 }, (groups, 1, 1)),
            block_sum_reduce: ExecutionStep::new(
                KernelOp::BlockSumReduce { input: tmp0, out: tmp1 },
                (groups, 1, 1),
            ),
            sum_reduce: ExecutionStep::new(
                KernelOp::SumReduceFinal { num_groups: groups, input: tmp1, out: output },
                (1, 1, 1),
            ),
        };
        proof {
            assert(r.steps() =~= dot_plan(x, y, tmp0, tmp1, output, n));
        }
        r
    }
}

impl Kernel for DotKernel {
    closed spec fn steps(&self) -> Seq<ExecutionStep> {
        seq![self.vec_mul, self.block_sum_reduce, self.sum_reduce]
    }

    fn add_to_pass(&self, pass: &mut Vec<ExecutionStep>) {
        self.vec_mul.add_to_pass(pass);
        self.block_sum_reduce.add_to_pass(pass);
        self.sum_reduce.add_to_pass(pass);
        proof {
            assert(pass@ =~= old(pass)@ + self.steps());
        }
    }
}

} // verus!
