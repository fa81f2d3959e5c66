//! Direction selection for ping-pong buffering.
//!
//! Two precomputed resource-binding sets wrap the same pair of buffers in
//! opposite source/destination roles; a two-valued direction picks which one
//! is active for the current step, and is advanced in strict alternation by
//! the stepping driver, once per completed step.
use vstd::prelude::*;

verus! {

/// Which of the two precomputed binding sets is active.
#[derive(Clone, Copy, PartialEq, Eq, Debug)]
pub enum Direction {
    Forward,
    Backward,
}

impl Direction {
    /// The opposite direction.
    pub open spec fn spec_flipped(self) -> Direction {
        match self {
            Direction::Forward => Direction::Backward,
            Direction::Backward => Direction::Forward,
        }
    }

    /// Advance to the opposite direction.
    pub fn flipped(self) -> (r: Direction)
        ensures
            r == self.spec_flipped(),
    {
        match self {
            Direction::Forward => Direction::Backward,
            Direction::Backward => Direction::Forward,
        }
    }
}

/// The direction after `k` completed steps, starting Forward at `k == 0` and
/// flipping once per step.
pub open spec fn direction_of_step(k: nat) -> Direction
    decreases k,
{
    if k == 0 {
        Direction::Forward
    } else {
        direction_of_step((k - 1) as nat).spec_flipped()
    }
}

/// After `k` steps the direction is Forward exactly when `k` is even.
pub proof fn lemma_direction_parity(k: nat)
    ensures
        direction_of_step(k) == if k % 2 == 0 {
            Direction::Forward
        } else {
            Direction::Backward
        },
    decreases k,
{
    if k > 0 {
        lemma_direction_parity((k - 1) as nat);
    }
}

/// Identity of a precomputed resource-binding set held by the host.
pub type BindGroupId = u32;

/// Holds the two binding sets that wrap one buffer pair in opposite
/// source/destination roles, so that no binding is rebuilt per step.
#[derive(Clone, Copy, PartialEq, Eq, Debug)]
pub struct DirectionalBindGroup {
    bind_group_forward: BindGroupId,
    bind_group_backward: BindGroupId,
}

impl DirectionalBindGroup {
    pub closed spec fn spec_forward(self) -> BindGroupId {
        self.bind_group_forward
    }

    pub closed spec fn spec_backward(self) -> BindGroupId {
        self.bind_group_backward
    }

    pub fn new(bind_group_forward: BindGroupId, bind_group_backward: BindGroupId) -> (r: Self)
        ensures
            r.spec_forward() == bind_group_forward,
            r.spec_backward() == bind_group_backward,
    {
        DirectionalBindGroup { bind_group_forward, bind_group_backward }
    }

    /// The binding set matching the given direction.
    pub fn get(&self, direction: Direction) -> (r: BindGroupId)
        ensures
            r == match direction {
                Direction::Forward => self.spec_forward(),
                Direction::Backward => self.spec_backward(),
            },
    {
        match direction {
            Direction::Forward => self.bind_group_forward,
            Direction::Backward => self.bind_group_backward,
        }
    }
}

} // verus!
