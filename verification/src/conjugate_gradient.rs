//! Conjugate Gradient orchestration.
//!
//! The solver runs a fixed number of iterations of the classical CG
//! recurrence for `A x = b`, entirely as device work: it composes the SpMV,
//! dot-product and vector-update kernels into one command schedule per call,
//! with no host read-back between iterations, and the solution buffer `x` is
//! updated in place on the device.
use vstd::prelude::*;
use crate::buffers::{BufferId, BufferPlanner};
use crate::dia_matrix::DIAMatrixDescriptor;
use crate::kernels::dot::{dot_plan, DotKernel, REDUCE_WORKGROUP_SIZE};
use crate::kernels::saxpy_update::{saxpy_update_plan, SAXPYUpdateKernel, UPDATE_WORKGROUP_SIZE};
use crate::kernels::saxpy_update_div::{saxpy_update_div_plan, Operation, SAXPYUpdateDivKernel};
use crate::kernels::spmv::{spmv_plan, SpMVKernel, SPMV_WORKGROUP_SIZE};
use crate::kernels::{
    append_actions, dispatch_all, push_dispatches, Action, ExecutionStep, Kernel,
};

verus! {

/// Describes all the intermediate buffers used in the CG algorithm.
///
/// The vectors have the same length as the vectors `x` and `b` in `A x = b`;
/// the two accumulators hold one scalar each.
#[derive(Clone, Copy, PartialEq, Eq, Debug)]
pub struct CGBuffers {
    /// Residual vector.
    pub r: BufferId,
    /// Search-direction vector.
    pub p: BufferId,
    /// SpMV scratch, `A * p`.
    pub q: BufferId,
    /// Current squared residual norm.
    pub sigma: BufferId,
    /// Previous squared norm, then `p . q`, as the iteration proceeds.
    pub sigma_prime: BufferId,
    /// Reduction scratch vector.
    pub tmp0: BufferId,
    /// Reduction scratch vector.
    pub tmp1: BufferId,
}

impl CGBuffers {
    /// Plan the seven scratch buffers for systems of `n` unknowns.
    pub fn new(planner: &mut BufferPlanner, n: u32) -> (r: Self)
        requires
            old(planner).spec_len() + 7 <= u32::MAX,
        ensures
            r.r == old(planner).spec_len(),
            r.p == old(planner).spec_len() + 1,
            r.q == old(planner).spec_len() + 2,
            r.sigma == old(planner).spec_len() + 3,
            r.sigma_prime == old(planner).spec_len() + 4,
            r.tmp0 == old(planner).spec_len() + 5,
            r.tmp1 == old(planner).spec_len() + 6,
            final(planner).spec_len() == old(planner).spec_len() + 7,
            forall|i: int| 0 <= i < old(planner).spec_len()
                ==> final(planner).specs@[i] == old(planner).specs@[i],
            final(planner).buffer_len(r.r) == n,
            final(planner).buffer_len(r.p) == n,
            final(planner).buffer_len(r.q) == n,
            final(planner).buffer_len(r.sigma) == 1,
            final(planner).buffer_len(r.sigma_prime) == 1,
            final(planner).buffer_len(r.tmp0) == n,
            final(planner).buffer_len(r.tmp1) == n,
            final(planner).is_zeroed(r.r),
            final(planner).is_zeroed(r.p),
            final(planner).is_zeroed(r.q),
            final(planner).is_zeroed(r.sigma),
            final(planner).is_zeroed(r.sigma_prime),
            final(planner).is_zeroed(r.tmp0),
            final(planner).is_zeroed(r.tmp1),
            old(planner).wf() ==> final(planner).wf(),
    {
        let r = planner.create_buffer(n);
        let p = planner.create_buffer(n);
        let q = planner.create_buffer(n);
        let sigma = planner.create_buffer(1);
        let sigma_prime = planner.create_buffer(1);
        let tmp0 = planner.create_buffer(n);
        let tmp1 = planner.create_buffer(n);
        CGBuffers { r, p, q, sigma, sigma_prime, tmp0, tmp1 }
    }
}

/// The two dispatches that initialize the residual: `r = A * x`, then
/// `r = b - r`.
pub open spec fn cg_init_steps(
    a: DIAMatrixDescriptor,
    b: BufferId,
    x: BufferId,
    bufs: CGBuffers,
    n: u32,
) -> Seq<ExecutionStep> {
    spmv_plan(a, x, bufs.r) + saxpy_update_plan(b, bufs.r, n)
}

/// The actions of one CG iteration, in their strict order:
/// `sigma = r . r`; `q = A * p`; `sigma_prime = p . q`;
/// `x = x + (sigma / sigma_prime) * p`; `r = r - (sigma / sigma_prime) * q`;
/// `sigma_prime = r . r`; and the direction update `p = r + (sigma_prime /
/// sigma) * p`.  The direction update is assembled in the SpMV scratch `q`,
/// which is dead at that point: the scaled-ratio kernel scales its read-only
/// operand, so the new direction is built beside `p` and copied back.
pub open spec fn cg_iteration_actions(
    a: DIAMatrixDescriptor,
    x: BufferId,
    bufs: CGBuffers,
    n: u32,
) -> Seq<Action> {
    dispatch_all(
        dot_plan(bufs.r, bufs.r, bufs.tmp0, bufs.tmp1, bufs.sigma, n)
            + spmv_plan(a, bufs.p, bufs.q)
            + dot_plan(bufs.p, bufs.q, bufs.tmp0, bufs.tmp1, bufs.sigma_prime, n)
            + saxpy_update_div_plan(bufs.sigma, bufs.sigma_prime, bufs.p, x, Operation::Add, n)
            + saxpy_update_div_plan(bufs.sigma, bufs.sigma_prime, bufs.q, bufs.r, Operation::Sub, n)
            + dot_plan(bufs.r, bufs.r, bufs.tmp0, bufs.tmp1, bufs.sigma_prime, n),
    ) + seq![Action::CopyBuffer { src: bufs.r, dst: bufs.q }] + dispatch_all(
        saxpy_update_div_plan(bufs.sigma_prime, bufs.sigma, bufs.p, bufs.q, Operation::Add, n),
    ) + seq![Action::CopyBuffer { src: bufs.q, dst: bufs.p }]
}

/// `k` repetitions of an action sequence.
pub open spec fn repeat_actions(s: Seq<Action>, k: nat) -> Seq<Action>
    decreases k,
{
    if k == 0 {
        Seq::empty()
    } else {
        repeat_actions(s, (k - 1) as nat) + s
    }
}

/// The whole schedule of one solve: residual initialization, the copy
/// `p = r`, then exactly `max_steps` iterations.
pub open spec fn cg_schedule(cg: CG) -> Seq<Action> {
    dispatch_all(cg.init_stages@)
        + seq![Action::CopyBuffer { src: cg.buffers.r, dst: cg.buffers.p }]
        + repeat_actions(cg.stages@, cg.max_steps as nat)
}

/// Specialized data structure for the conjugate gradient method
/// specific for GPU-style compute.
///
/// This uses the CG method to solve the system of linear equations Ax = b
/// where A is a sparse matrix.
pub struct CG {
    pub buffers: CGBuffers,
    pub init_stages: Vec<ExecutionStep>,
    pub stages: Vec<Action>,
    pub max_steps: usize,
}

impl CG {
    /// Build the solver for `A x = b`: `b` names the right-hand-side buffer
    /// and `x` the buffer holding the initial guess, which the schedule
    /// overwrites with the solution.  The iteration budget is fixed; no
    /// convergence test ever runs on the host.
    pub fn new(
        buffers: CGBuffers,
        a: &DIAMatrixDescriptor,
        b: BufferId,
        x: BufferId,
        n: u32,
    ) -> (r: Self)
        requires
            a.num_rows == n,
            a.num_cols + SPMV_WORKGROUP_SIZE <= u32::MAX,
            n + REDUCE_WORKGROUP_SIZE <= u32::MAX,
            n + UPDATE_WORKGROUP_SIZE <= u32::MAX,
        ensures
            r.buffers == buffers,
            r.max_steps == 10,
            r.init_stages@ == cg_init_steps(*a, b, x, buffers, n),
            r.stages@ == cg_iteration_actions(*a, x, buffers, n),
    {
        CG {
            buffers,
            init_stages: Self::init_stages(a, b, x, buffers, n),
            stages: Self::stages(a, x, buffers, n),
            max_steps: 10,
        }
    }

    fn init_stages(
        a: &DIAMatrixDescriptor,
        b: BufferId,
        x: BufferId,
        buffers: CGBuffers,
        n: u32,
    ) -> (pass: Vec<ExecutionStep>)
        requires
            a.num_cols + SPMV_WORKGROUP_SIZE <= u32::MAX,
            n + UPDATE_WORKGROUP_SIZE <= u32::MAX,
        ensures
            pass@ == cg_init_steps(*a, b, x, buffers, n),
    {
        // Initialize r = b - A * x
        let r_init0 = SpMVKernel::new(a, x, buffers.r);
        let r_init1 = SAXPYUpdateKernel::new(b, buffers.r, n);
        let mut pass: Vec<ExecutionStep> = Vec::new();
        r_init0.add_to_pass(&mut pass);
        r_init1.add_to_pass(&mut pass);
        proof {
            assert(pass@ =~= cg_init_steps(*a, b, x, buffers, n));
        }
        pass
    }

    /// Define the actions of a single iteration of the CG algorithm.
    fn stages(a: &DIAMatrixDescriptor, x: BufferId, buffers: CGBuffers, n: u32) -> (acts: Vec<Action>)
        requires
            a.num_cols + SPMV_WORKGROUP_SIZE <= u32::MAX,
            n + REDUCE_WORKGROUP_SIZE <= u32::MAX,
            n + UPDATE_WORKGROUP_SIZE <= u32::MAX,
        ensures
            acts@ == cg_iteration_actions(*a, x, buffers, n),
    {
        let CGBuffers { r, p, q, sigma, sigma_prime, tmp0, tmp1 } = buffers;
        // First stage of iteration: sigma = dot(r, r)
        let sigma_stage = DotKernel::new(r, r, tmp0, tmp1, sigma, n);

        // Second stage of iteration: q = A * p (sparse matrix-vector multiplication)
        let q_stage = SpMVKernel::new(a, p, q);

        // Third stage of iteration: sigma_prime = dot(p, q)
        let sigma_prime_stage = DotKernel::new(p, q, tmp0, tmp1, sigma_prime, n);

        // Fourth stage of iteration: x = x + (sigma / sigma_prime) * p
        let x_stage = SAXPYUpdateDivKernel::new(sigma, sigma_prime, p, x, Operation::Add, n);

        // Fifth stage of iteration: r = r - (sigma / sigma_prime) * q
        let r_stage = SAXPYUpdateDivKernel::new(sigma, sigma_prime, q, r, Operation::Sub, n);

        // Sixth stage of iteration: sigma_prime = dot(r, r)
        let sigma_prime_stage2 = DotKernel::new(r, r, tmp0, tmp1, sigma_prime, n);

        // Seventh stage of iteration: p = r + (sigma_prime / sigma) * p,
        // assembled in the dead scratch q and copied back into p.
        let p_stage = SAXPYUpdateDivKernel::new(sigma_prime, sigma, p, q, Operation::Add, n);

        let mut pass: Vec<ExecutionStep> = Vec::new();
        sigma_stage.add_to_pass(&mut pass);
        q_stage.add_to_pass(&mut pass);
        sigma_prime_stage.add_to_pass(&mut pass);
        x_stage.add_to_pass(&mut pass);
        r_stage.add_to_pass(&mut pass);
        sigma_prime_stage2.add_to_pass(&mut pass);

        let mut acts: Vec<Action> = Vec::new();
        push_dispatches(&mut acts, &pass);
        acts.push(Action::CopyBuffer { src: r, dst: q });
        let mut tail: Vec<ExecutionStep> = Vec::new();
        p_stage.add_to_pass(&mut tail);
        push_dispatches(&mut acts, &tail);
        acts.push(Action::CopyBuffer { src: q, dst: p });
        proof {
            assert(acts@ =~= cg_iteration_actions(*a, x, buffers, n));
        }
        acts
    }

    /// Encode one whole solve as its command schedule.
    pub fn run(&self) -> (schedule: Vec<Action>)
        ensures
            schedule@ == cg_schedule(*self),
    {
        let mut schedule: Vec<Action> = Vec::new();
        // Initialize r = b - A * x, then p = r.
        push_dispatches(&mut schedule, &self.init_stages);
        schedule.push(Action::CopyBuffer { src: self.buffers.r, dst: self.buffers.p });
        let ghost prefix = schedule@;
        proof {
            assert(schedule@ =~= prefix + repeat_actions(self.stages@, 0nat));
        }
        let mut k: usize = 0;
        while k < self.max_steps
            invariant
                0 <= k <= self.max_steps,
                schedule@ == prefix + repeat_actions(self.stages@, k as nat),
            decreases self.max_steps - k,
        {
            append_actions(&mut schedule, &self.stages);
            proof {
                assert(schedule@ =~= prefix + repeat_actions(self.stages@, (k + 1) as nat));
            }
            k += 1;
        }
        proof {
            assert(prefix =~= dispatch_all(self.init_stages@) + seq![
                Action::CopyBuffer { src: self.buffers.r, dst: self.buffers.p },
            ]);
            assert(schedule@ =~= cg_schedule(*self));
        }
        schedule
    }
}

} // verus!
