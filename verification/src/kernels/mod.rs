//! Compute kernels, reduced to their common primitive.
//!
//! Every kernel of the solver bottoms out in the same capability: bind a
//! fixed program to fixed buffers and dispatch it over a workgroup grid.  An
//! [`ExecutionStep`] records exactly that; a compute pass is the ordered list
//! of steps attached to it, and a kernel is anything that can append its
//! steps to such a list.
use vstd::prelude::*;
use crate::buffers::BufferId;
use crate::kernels::saxpy_update_div::Operation;

pub mod dot;
pub mod saxpy_update;
pub mod saxpy_update_div;
pub mod spmv;
pub mod write_to_texture;

verus! {

/// The compute program of a step, with its buffer bindings and any
/// specialization parameter baked into the program at construction.
#[derive(Clone, Copy, PartialEq, Eq, Debug)]
pub enum KernelOp {
    /// `out[i] = x[i] * y[i]`, one invocation per element.
    VecMul { x: BufferId, y: BufferId, out: BufferId },
    /// Each workgroup reduces one 256-element block of `input` to one
    /// partial sum in `out`.
    BlockSumReduce { input: BufferId, out: BufferId },
    /// A single workgroup sums the first `num_groups` partial sums of
    /// `input` into the one-element buffer `out`; the count is a
    /// specialization parameter of the program, not read at runtime.
    SumReduceFinal { num_groups: u32, input: BufferId, out: BufferId },
    /// `y = A * x` for the DIA matrix with the given parameter, value and
    /// offset buffers; one invocation per row.
    SpMV { x: BufferId, params: BufferId, data: BufferId, offsets: BufferId, y: BufferId },
    /// `y[i] = x[i] - y[i]`.
    SaxpyUpdate { x: BufferId, y: BufferId },
    /// `y[i] = y[i] OP (a1[0] / a2[0]) * x[i]`, the ratio read at dispatch
    /// time from two one-element buffers.
    SaxpyUpdateDiv { a1: BufferId, a2: BufferId, x: BufferId, y: BufferId, op: Operation },
    /// Writes vector `x` to the display texture as a 2D scalar field.
    WriteToTexture { x: BufferId },
}

/// One recorded dispatch: a program with its bindings and its workgroup grid.
#[derive(Clone, Copy, PartialEq, Eq, Debug)]
pub struct ExecutionStep {
    pub op: KernelOp,
    pub workgroups: (u32, u32, u32),
}

impl ExecutionStep {
    pub fn new(op: KernelOp, workgroups: (u32, u32, u32)) -> (r: Self)
        ensures
            r == (ExecutionStep { op, workgroups }),
    {
        ExecutionStep { op, workgroups }
    }

    /// Record this dispatch at the end of the pass.
    pub fn add_to_pass(&self, pass: &mut Vec<ExecutionStep>)
        ensures
            final(pass)@ == old(pass)@.push(*self),
    {
        pass.push(*self);
    }
}

/// One entry of a command schedule: a dispatch within a compute pass, or a
/// whole-buffer copy between passes.
#[derive(Clone, Copy, PartialEq, Eq, Debug)]
pub enum Action {
    Dispatch(ExecutionStep),
    CopyBuffer { src: BufferId, dst: BufferId },
}

/// The steps of a sequence, each recorded as a dispatch action.
pub open spec fn dispatch_all(steps: Seq<ExecutionStep>) -> Seq<Action> {
    steps.map(|_i: int, s: ExecutionStep| Action::Dispatch(s))
}

/// Record every step of a pass, in order, as a dispatch action.
pub fn push_dispatches(acts: &mut Vec<Action>, steps: &Vec<ExecutionStep>)
    ensures
        final(acts)@ == old(acts)@ + dispatch_all(steps@),
{
    let ghost entry = old(acts)@;
    let mut i: usize = 0;
    while i < steps.len()
        invariant
            0 <= i <= steps@.len(),
            acts@ == entry + dispatch_all(steps@.take(i as int)),
        decreases steps@.len() - i,
    {
        acts.push(Action::Dispatch(steps[i]));
        proof {
            assert(dispatch_all(steps@.take(i as int + 1))
                =~= dispatch_all(steps@.take(i as int)).push(Action::Dispatch(steps@[i as int])));
            assert(acts@ =~= entry + dispatch_all(steps@.take(i as int + 1)));
        }
        i += 1;
    }
    proof {
        assert(steps@.take(steps@.len() as int) =~= steps@);
    }
}

/// Append a recorded action sequence to a schedule.
pub fn append_actions(schedule: &mut Vec<Action>, src: &Vec<Action>)
    ensures
        final(schedule)@ == old(schedule)@ + src@,
{
    let ghost entry = old(schedule)@;
    let mut i: usize = 0;
    while i < src.len()
        invariant
            0 <= i <= src@.len(),
            schedule@ == entry + src@.take(i as int),
        decreases src@.len() - i,
    {
        schedule.push(src[i]);
        proof {
            assert(schedule@ =~= entry + src@.take(i as int + 1));
        }
        i += 1;
    }
    proof {
        assert(src@.take(src@.len() as int) =~= src@);
    }
}

/// A kernel attaches its program, resource bindings and dispatch sizes to an
/// in-flight compute pass; `steps` says which dispatches, in which order.
pub trait Kernel {
    spec fn steps(&self) -> Seq<ExecutionStep>;

    fn add_to_pass(&self, pass: &mut Vec<ExecutionStep>)
        ensures
            final(pass)@ == old(pass)@ + self.steps(),
    ;
}

} // verus!
