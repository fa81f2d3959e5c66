//! Time-step driver for the 2D implicit heat equation.
//!
//! The grid of `n * n` unknowns is advanced by one half-step of the explicit
//! operator B (an SpMV into a scratch vector) followed by an implicit solve
//! `A u_new = tmp` delegated to the Conjugate Gradient solver.  Both
//! operators are 5-point-stencil DIA matrices built once; two solver and
//! kernel instances are pre-built so that a step only selects between them
//! by the parity of a step counter, ping-ponging the two state vectors.
use vstd::prelude::*;
use vstd::arithmetic::div_mod::{
    lemma_fundamental_div_mod, lemma_fundamental_div_mod_converse,
    lemma_mod_division_less_than_divisor,
};
use crate::buffers::{BufferId, BufferPlanner};
use crate::conjugate_gradient::{cg_init_steps, cg_iteration_actions, cg_schedule, CGBuffers, CG};
use crate::dia_matrix::DIAMatrixDescriptor;
use crate::directional_bind_group::Direction;
use crate::kernels::spmv::{spmv_plan, SpMVKernel};
use crate::kernels::write_to_texture::{write_to_texture_plan, WriteToTextureKernel};
use crate::kernels::{dispatch_all, push_dispatches, append_actions, Action, ExecutionStep, Kernel};

verus! {

/// Offset of the `k`-th stored diagonal of the 5-point stencil on an
/// `n`-wide grid: `[-n, -1, 0, 1, n]`.
pub open spec fn stencil_offset(n: int, k: int) -> int {
    if k == 0 {
        -n
    } else if k == 1 {
        -1
    } else if k == 2 {
        0
    } else if k == 3 {
        1
    } else {
        n
    }
}

/// Value stored for row `i` of diagonal `k` of the discretization matrix of
/// an `n`-wide grid with `m = n * n` rows: `diag` on the main diagonal,
/// `off` on the four neighbour diagonals, and zero where the column falls
/// outside the matrix or the neighbour would wrap across a grid edge.
/// Values are 32-bit patterns of the device's scalar type, with zero encoded
/// as the zero pattern.
pub open spec fn stencil_entry(n: int, m: int, k: int, i: int, diag: u32, off: u32) -> u32 {
    let j = i + stencil_offset(n, k);
    if j < 0 || j >= m {
        0
    } else if k == 2 {
        diag
    } else if k == 1 {
        if i % n != 0 {
            off
        } else {
            0
        }
    } else if k == 3 {
        if j % n != 0 {
            off
        } else {
            0
        }
    } else {
        off
    }
}

/// The flat diagonal-value array of the stencil matrix, diagonal by
/// diagonal: entry `k * m + i` belongs to row `i` of diagonal `k`.
pub open spec fn stencil_data_seq(n: int, diag: u32, off: u32) -> Seq<u32> {
    let m = n * n;
    Seq::new((5 * m) as nat, |idx: int| stencil_entry(n, m, idx / m, idx % m, diag, off))
}

/// Build the flat diagonal-value array of the stencil matrix.
pub fn stencil_data(n: u32, diag: u32, off: u32) -> (data: Vec<u32>)
    requires
        1 <= n,
        5 * (n as int) * (n as int) <= u32::MAX,
    ensures
        data@ == stencil_data_seq(n as int, diag, off),
{
    proof {
        assert((n as int) * (n as int) >= n as int >= 1
            && (n as int) * (n as int) <= 5 * (n as int) * (n as int)
            && 5 * ((n as int) * (n as int)) == 5 * (n as int) * (n as int)) by (nonlinear_arith)
            requires n >= 1;
    }
    let m = n * n;
    let mut data: Vec<u32> = Vec::new();
    let mut k: u32 = 0;
    while k < 5
        invariant
            1 <= n,
            m == n as int * n as int,
            5 * (m as int) <= u32::MAX,
            0 <= k <= 5,
            data@.len() == k as int * m as int,
            forall|idx: int| 0 <= idx < data@.len()
                ==> data@[idx] == stencil_data_seq(n as int, diag, off)[idx],
        decreases 5 - k,
    {
        let mut i: u32 = 0;
        while i < m
            invariant
                1 <= n,
                m == n as int * n as int,
                5 * (m as int) <= u32::MAX,
                0 <= k < 5,
                0 <= i <= m,
                data@.len() == k as int * m as int + i as int,
                forall|idx: int| 0 <= idx < data@.len()
                    ==> data@[idx] == stencil_data_seq(n as int, diag, off)[idx],
            decreases m - i,
        {
            let offset: i64 = match k {
                0 => -(n as i64),
                1 => -1,
                2 => 0,
                3 => 1,
                _ => n as i64,
            };
            let j: i64 = i as i64 + offset;
            let entry: u32 = if j < 0 || j >= m as i64 {
                0
            } else if k == 2 {
                diag
            } else if k == 1 {
                if i % n != 0 {
                    off
                } else {
                    0
                }
            } else if k == 3 {
                if (j as u32) % n != 0 {
                    off
                } else {
                    0
                }
            } else {
                off
            };
            proof {
                let idx = k as int * m as int + i as int;
                assert(0 <= k as int * m as int + i as int
                    && (k as int * m as int + i as int) < 5 * (m as int)) by (nonlinear_arith)
                    requires 0 <= k < 5, 0 <= i < m, m >= 1;
                lemma_fundamental_div_mod_converse(idx, m as int, k as int, i as int);
                assert(entry == stencil_data_seq(n as int, diag, off)[idx]);
            }
            data.push(entry);
            i += 1;
        }
        proof {
            assert((k as int + 1) * (m as int) == k as int * m as int + m as int) by (nonlinear_arith);
        }
        k += 1;
    }
    proof {
        assert(data@ =~= stencil_data_seq(n as int, diag, off));
    }
    data
}

/// The five diagonal offsets of the stencil matrix, as signed integers.
pub open spec fn stencil_offsets_seq(n: u32) -> Seq<i32> {
    seq![((-(n as int)) as i32), (-1int) as i32, 0int as i32, 1int as i32, (n as int) as i32]
}

/// Build the five diagonal offsets of the stencil matrix.
pub fn stencil_offsets(n: u32) -> (offsets: Vec<i32>)
    requires
        n <= i32::MAX,
    ensures
        offsets@ == stencil_offsets_seq(n),
{
    let mut offsets: Vec<i32> = Vec::new();
    offsets.push(-(n as i32));
    offsets.push(-1);
    offsets.push(0);
    offsets.push(1);
    offsets.push(n as i32);
    proof {
        assert(offsets@ =~= stencil_offsets_seq(n));
    }
    offsets
}

/// Plan the discretization matrix of an `n`-wide grid whose main diagonal
/// holds `diag` and whose neighbour diagonals hold `off` (as 32-bit scalar
/// patterns).  The implicit operator A and its explicit complement B are
/// both instances, differing only in the sign of the coefficient `gamma`
/// folded into `diag` and `off` by the caller.
pub fn stencil_matrix(planner: &mut BufferPlanner, n: u32, diag: u32, off: u32) -> (r:
    DIAMatrixDescriptor)
    requires
        1 <= n,
        5 * (n as int) * (n as int) <= u32::MAX,
        old(planner).spec_len() + 3 <= u32::MAX,
    ensures
        r.num_cols == n as int * n as int,
        r.num_rows == n as int * n as int,
        r.num_diags == 5,
        r.params == old(planner).spec_len(),
        r.data == old(planner).spec_len() + 1,
        r.offsets == old(planner).spec_len() + 2,
        final(planner).spec_len() == old(planner).spec_len() + 3,
        forall|i: int| 0 <= i < old(planner).spec_len()
            ==> final(planner).specs@[i] == old(planner).specs@[i],
        final(planner).has_bits(r.data, stencil_data_seq(n as int, diag, off)),
        final(planner).has_int_bits(r.offsets, stencil_offsets_seq(n)),
        final(planner).buffer_len(r.data) == 5 * (n as int) * (n as int),
        old(planner).wf() ==> final(planner).wf(),
    {
    proof {
        assert((n as int) * (n as int) >= n as int >= 1
            && (n as int) * (n as int) <= 5 * (n as int) * (n as int)
            && 5 * ((n as int) * (n as int)) == 5 * (n as int) * (n as int)) by (nonlinear_arith)
            requires n >= 1;
    }
    let m = n * n;
    let data = stencil_data(n, diag, off);
    let offsets = stencil_offsets(n);
    proof {
        lemma_stencil_zero_padded(n, diag, off);
    }
    DIAMatrixDescriptor::new(planner, m, m, 5, data, offsets)
}

/// The stencil construction establishes the DIA invariant: every stored
/// value whose column falls outside the matrix is the zero pattern.
pub proof fn lemma_stencil_zero_padded(n: u32, diag: u32, off: u32)
    requires
        1 <= n,
        5 * (n as int) * (n as int) <= u32::MAX,
    ensures
        crate::dia_matrix::zero_padded(
            stencil_data_seq(n as int, diag, off),
            stencil_offsets_seq(n),
            n as int * n as int,
            n as int * n as int,
        ),
{
    let gm = n as int * n as int;
    let gdata = stencil_data_seq(n as int, diag, off);
    let goffs = stencil_offsets_seq(n);
    assert(gm >= n as int >= 1 && gm <= 5 * (n as int) * (n as int)
        && 5 * gm == 5 * (n as int) * (n as int)) by (nonlinear_arith)
        requires n >= 1, gm == n as int * n as int;
    assert forall|k: int, i: int|
        0 <= k < goffs.len() && 0 <= i < gm && !(0 <= i + goffs[k] < gm)
            implies #[trigger] gdata[k * gm + i] == 0 by {
        assert(0 <= k * gm + i && (k * gm + i) < 5 * gm) by (nonlinear_arith)
            requires 0 <= k < 5, 0 <= i < gm, gm >= 1;
        lemma_fundamental_div_mod_converse(k * gm + i, gm, k, i);
        if k == 0 {
            assert(goffs[k] as int == -(n as int));
        } else if k == 1 {
            assert(goffs[k] as int == -1);
        } else if k == 2 {
            assert(goffs[k] as int == 0);
        } else if k == 3 {
            assert(goffs[k] as int == 1);
        } else {
            assert(goffs[k] as int == n as int);
        }
        assert(gdata[k * gm + i] == stencil_entry(n as int, gm, k, i, diag, off));
    }
}

/// 1 when a stored value is a nonzero pattern, else 0.
pub open spec fn contributes(v: u32) -> int {
    if v != 0 {
        1
    } else {
        0
    }
}

/// How many of the four off-diagonals contribute a nonzero value to row `i`
/// of the stencil matrix of an `n`-wide grid.
pub open spec fn off_diag_contributions(n: int, i: int, diag: u32, off: u32) -> int {
    let m = n * n;
    contributes(stencil_entry(n, m, 0, i, diag, off)) + contributes(
        stencil_entry(n, m, 1, i, diag, off),
    ) + contributes(stencil_entry(n, m, 3, i, diag, off)) + contributes(
        stencil_entry(n, m, 4, i, diag, off),
    )
}

/// Rows of the stencil matrix lose exactly one off-diagonal contribution per
/// grid edge their cell touches: corner rows keep 2 of the 4, other edge
/// rows 3, interior rows all 4.  The zero-padding at construction is what
/// zeroes the lost contributions; no runtime check is involved.
pub proof fn lemma_stencil_boundary_contributions(n: int, i: int, diag: u32, off: u32)
    requires
        2 <= n,
        0 <= i < n * n,
        off != 0,
    ensures
        off_diag_contributions(n, i, diag, off) == 4 - (if i < n { 1int } else { 0int })
            - (if i >= n * (n - 1) { 1int } else { 0int })
            - (if i % n == 0 { 1int } else { 0int })
            - (if i % n == n - 1 { 1int } else { 0int }),
{
    let m = n * n;
    assert(n * (n - 1) == n * n - n) by (nonlinear_arith);
    lemma_fundamental_div_mod(i, n);
    lemma_mod_division_less_than_divisor(i, n);

    // Left diagonal (offset -n): contributes unless the cell is in the top row.
    assert(stencil_entry(n, m, 0, i, diag, off) == if i >= n { off } else { 0u32 });

    // Down diagonal (offset +n): contributes unless the cell is in the bottom row.
    assert(stencil_entry(n, m, 4, i, diag, off) == if i < n * (n - 1) { off } else { 0u32 });

    // Previous-column diagonal (offset -1): contributes unless the cell is in
    // the left column, where the neighbour would wrap to the previous row.
    assert(stencil_entry(n, m, 1, i, diag, off) == if i % n != 0 { off } else { 0u32 });

    // Next-column diagonal (offset +1): contributes unless the cell is in the
    // right column.
    let q = i / n;
    let r = i % n;
    assert(i == n * q + r);
    if r == n - 1 {
        assert(i + 1 == (q + 1) * n + 0) by (nonlinear_arith)
            requires i == n * q + r, r == n - 1;
        lemma_fundamental_div_mod_converse(i + 1, n, q + 1, 0);
        assert(stencil_entry(n, m, 3, i, diag, off) == 0u32);
    } else {
        assert(i + 1 == q * n + (r + 1)) by (nonlinear_arith)
            requires i == n * q + r;
        lemma_fundamental_div_mod_converse(i + 1, n, q, r + 1);
        if i + 1 >= m {
            assert(m - 1 == (n - 1) * n + (n - 1)) by (nonlinear_arith)
                requires m == n * n;
            lemma_fundamental_div_mod_converse(m - 1, n, n - 1, n - 1);
            assert(false);
        }
        assert(stencil_entry(n, m, 3, i, diag, off) == off);
    }
}

/// A stencil matrix whose off-diagonal coefficient is the zero pattern is
/// purely diagonal: every row stores `diag` on the main diagonal and zero on
/// the four neighbour diagonals, so with `diag` encoding one it describes
/// the identity.
pub proof fn lemma_stencil_diagonal_only(n: int, i: int, k: int, diag: u32)
    requires
        1 <= n,
        0 <= i < n * n,
        0 <= k < 5,
    ensures
        stencil_entry(n, n * n, k, i, diag, 0) == if k == 2 {
            diag
        } else {
            0u32
        },
{
}

/// The time-step driver: both discretization operators, the two state
/// vectors with their scratch, and the pre-built forward/backward solver and
/// kernel instances, selected by the parity of the step counter.
pub struct HeatEquation {
    pub a: DIAMatrixDescriptor,
    pub b: DIAMatrixDescriptor,
    /// State vector holding the field at even steps.
    pub u: BufferId,
    /// State vector holding the field at odd steps.
    pub u_alt: BufferId,
    /// Right-hand-side scratch, `tmp = B * u_old`.
    pub tmp: BufferId,
    /// CG method for forward mode (solves into `u_alt`).
    pub cg_forward: CG,
    /// CG method for backward mode (solves into `u`).
    pub cg_backward: CG,
    /// Initial SpMV kernel for forward mode.
    pub initial_spmv_forward: SpMVKernel,
    /// Initial SpMV kernel for backward mode.
    pub initial_spmv_backward: SpMVKernel,
    /// Write-to-texture kernel for forward mode.
    pub write_to_texture_forward: WriteToTextureKernel,
    /// Write-to-texture kernel for backward mode.
    pub write_to_texture_backward: WriteToTextureKernel,
    /// Grid side length.
    pub n: u32,
    /// Number of unknowns, `n * n`.
    pub m: u32,
    /// Completed steps.
    pub iteration: usize,
}

impl HeatEquation {
    /// The pre-built instances all point at the right buffers: the forward
    /// set reads `u` and solves into `u_alt`, the backward set the reverse,
    /// both through the shared scratch `tmp` and one shared set of CG
    /// buffers.
    pub open spec fn wf(self) -> bool {
        &&& self.n >= 1
        &&& self.m as int == self.n as int * self.n as int
        &&& self.a.num_rows == self.m && self.a.num_cols == self.m && self.a.num_diags == 5
        &&& self.b.num_rows == self.m && self.b.num_cols == self.m && self.b.num_diags == 5
        &&& self.u != self.u_alt && self.u != self.tmp && self.u_alt != self.tmp
        &&& self.initial_spmv_forward.steps() == spmv_plan(self.b, self.u, self.tmp)
        &&& self.initial_spmv_backward.steps() == spmv_plan(self.b, self.u_alt, self.tmp)
        &&& self.cg_forward.buffers == self.cg_backward.buffers
        &&& self.cg_forward.max_steps == 10 && self.cg_backward.max_steps == 10
        &&& self.cg_forward.init_stages@ == cg_init_steps(
            self.a, self.tmp, self.u_alt, self.cg_forward.buffers, self.m,
        )
        &&& self.cg_forward.stages@ == cg_iteration_actions(
            self.a, self.u_alt, self.cg_forward.buffers, self.m,
        )
        &&& self.cg_backward.init_stages@ == cg_init_steps(
            self.a, self.tmp, self.u, self.cg_backward.buffers, self.m,
        )
        &&& self.cg_backward.stages@ == cg_iteration_actions(
            self.a, self.u, self.cg_backward.buffers, self.m,
        )
        &&& self.write_to_texture_forward.steps() == write_to_texture_plan(self.u_alt, self.n, self.n)
        &&& self.write_to_texture_backward.steps() == write_to_texture_plan(self.u, self.n, self.n)
    }

    /// The direction of the step about to run.
    pub open spec fn current_direction(self) -> Direction {
        if self.iteration % 2 == 0 {
            Direction::Forward
        } else {
            Direction::Backward
        }
    }

    /// The state vector holding the current field.
    pub open spec fn current_source(self) -> BufferId {
        if self.iteration % 2 == 0 {
            self.u
        } else {
            self.u_alt
        }
    }

    /// The state vector the next field is written into.
    pub open spec fn current_destination(self) -> BufferId {
        if self.iteration % 2 == 0 {
            self.u_alt
        } else {
            self.u
        }
    }

    /// Build the driver.  `a_diag`/`a_off` are the coefficients of the
    /// implicit operator A (`1 + 4 gamma` and `-gamma` as scalar bit
    /// patterns), `b_diag`/`b_off` those of the explicit complement B (gamma
    /// with its sign reversed), and `u0` the initial field of `n * n`
    /// scalars.
    pub fn new(
        planner: &mut BufferPlanner,
        n: u32,
        a_diag: u32,
        a_off: u32,
        b_diag: u32,
        b_off: u32,
        u0: Vec<u32>,
    ) -> (r: Self)
        requires
            1 <= n,
            5 * (n as int) * (n as int) <= u32::MAX,
            u0@.len() == (n as int) * (n as int),
            old(planner).spec_len() + 16 <= u32::MAX,
        ensures
            r.wf(),
            r.iteration == 0,
            r.n == n,
            r.m == n as int * n as int,
            r.u == old(planner).spec_len() + 6,
            r.u_alt == old(planner).spec_len() + 7,
            r.tmp == old(planner).spec_len() + 8,
            final(planner).spec_len() == old(planner).spec_len() + 16,
            forall|i: int| 0 <= i < old(planner).spec_len()
                ==> final(planner).specs@[i] == old(planner).specs@[i],
            final(planner).has_bits(r.a.data, stencil_data_seq(n as int, a_diag, a_off)),
            final(planner).has_bits(r.b.data, stencil_data_seq(n as int, b_diag, b_off)),
            final(planner).has_int_bits(r.a.offsets, stencil_offsets_seq(n)),
            final(planner).has_int_bits(r.b.offsets, stencil_offsets_seq(n)),
            final(planner).has_bits(r.u, u0@),
            final(planner).is_zeroed(r.u_alt),
            final(planner).is_zeroed(r.tmp),
            final(planner).buffer_len(r.u) == r.m,
            final(planner).buffer_len(r.u_alt) == r.m,
            final(planner).buffer_len(r.tmp) == r.m,
            old(planner).wf() ==> final(planner).wf(),
    {
        proof {
            assert((n as int) * (n as int) >= n as int >= 1
                && (n as int) * (n as int) <= 5 * (n as int) * (n as int)
                && 5 * ((n as int) * (n as int)) == 5 * (n as int) * (n as int)) by (nonlinear_arith)
                requires n >= 1;
        }
        let m = n * n;
        let a = stencil_matrix(planner, n, a_diag, a_off);
        let b = stencil_matrix(planner, n, b_diag, b_off);
        let u = planner.create_buffer_init(u0);
        let u_alt = planner.create_buffer(m);
        let tmp = planner.create_buffer(m);

        let cg_buffers = CGBuffers::new(planner, m);
        let cg_forward = CG::new(cg_buffers, &a, tmp, u_alt, m);
        let cg_backward = CG::new(cg_buffers, &a, tmp, u, m);
        let initial_spmv_forward = SpMVKernel::new(&b, u, tmp);
        let initial_spmv_backward = SpMVKernel::new(&b, u_alt, tmp);
        let write_to_texture_forward = WriteToTextureKernel::new(u_alt, n, n);
        let write_to_texture_backward = WriteToTextureKernel::new(u, n, n);

        HeatEquation {
            a,
            b,
            u,
            u_alt,
            tmp,
            cg_forward,
            cg_backward,
            initial_spmv_forward,
            initial_spmv_backward,
            write_to_texture_forward,
            write_to_texture_backward,
            n,
            m,
            iteration: 0,
        }
    }

    /// Advance the simulation by one step: encode the command schedule of
    /// the step that the current parity selects and bump the step counter.
    /// Everything else in the driver is left exactly as built.
    pub fn compute_step(&mut self) -> (schedule: Vec<Action>)
        requires
            old(self).iteration < usize::MAX,
        ensures
            final(self).iteration == old(self).iteration + 1,
            final(self).a == old(self).a,
            final(self).b == old(self).b,
            final(self).u == old(self).u,
            final(self).u_alt == old(self).u_alt,
            final(self).tmp == old(self).tmp,
            final(self).cg_forward == old(self).cg_forward,
            final(self).cg_backward == old(self).cg_backward,
            final(self).initial_spmv_forward == old(self).initial_spmv_forward,
            final(self).initial_spmv_backward == old(self).initial_spmv_backward,
            final(self).write_to_texture_forward == old(self).write_to_texture_forward,
            final(self).write_to_texture_backward == old(self).write_to_texture_backward,
            final(self).n == old(self).n,
            final(self).m == old(self).m,
            old(self).wf() ==> final(self).wf(),
            final(self).current_direction() == old(self).current_direction().spec_flipped(),
            schedule@ == heat_step_schedule(*old(self)),
    {
        let mut schedule: Vec<Action> = Vec::new();
        // First half-step: tmp = B * u_old.
        let mut pass: Vec<ExecutionStep> = Vec::new();
        if self.iteration % 2 == 0 {
            self.initial_spmv_forward.add_to_pass(&mut pass);
        } else {
            self.initial_spmv_backward.add_to_pass(&mut pass);
        }
        push_dispatches(&mut schedule, &pass);
        // tmp is now the "b" in A u_new = b for the Conjugate Gradient
        // solver, which completes the implicit half-step in place.
        let cg_part = if self.iteration % 2 == 0 {
            self.cg_forward.run()
        } else {
            self.cg_backward.run()
        };
        append_actions(&mut schedule, &cg_part);
        // Publish u_new to the storage texture.
        let mut pass2: Vec<ExecutionStep> = Vec::new();
        if self.iteration % 2 == 0 {
            self.write_to_texture_forward.add_to_pass(&mut pass2);
        } else {
            self.write_to_texture_backward.add_to_pass(&mut pass2);
        }
        push_dispatches(&mut schedule, &pass2);
        self.iteration = self.iteration + 1;
        proof {
            assert(schedule@ =~= heat_step_schedule(*old(self)));
        }
        schedule
    }
}

/// The direction a well-formed driver is about to step in is exactly the
/// direction reached by flipping once per completed step, starting Forward.
pub proof fn lemma_driver_direction(h: HeatEquation)
    ensures
        h.current_direction() == crate::directional_bind_group::direction_of_step(
            h.iteration as nat,
        ),
{
    crate::directional_bind_group::lemma_direction_parity(h.iteration as nat);
}

/// Every step reads the current state vector and writes the complementary
/// one, never the same buffer as both: the schedule opens with the explicit
/// SpMV out of the source, runs the CG solve whose solution vector is the
/// destination, and closes by publishing the destination.
pub proof fn lemma_step_pairs_buffers(h: HeatEquation)
    requires
        h.wf(),
    ensures
        h.current_source() != h.current_destination(),
        heat_step_schedule(h) == dispatch_all(spmv_plan(h.b, h.current_source(), h.tmp))
            + cg_schedule(
            if h.iteration % 2 == 0 {
                h.cg_forward
            } else {
                h.cg_backward
            },
        ) + dispatch_all(write_to_texture_plan(h.current_destination(), h.n, h.n)),
{
}

/// Stepping twice returns the driver to the original pairing: the buffer
/// that was current is current again, since the parity cycles with period 2.
/// `h1` is the driver after one step from `h0`, and `h2` after one more.
pub proof fn lemma_state_round_trip(h0: HeatEquation, h1: HeatEquation, h2: HeatEquation)
    requires
        h1.u == h0.u,
        h1.u_alt == h0.u_alt,
        h1.iteration == h0.iteration + 1,
        h2.u == h1.u,
        h2.u_alt == h1.u_alt,
        h2.iteration == h1.iteration + 1,
    ensures
        h2.current_source() == h0.current_source(),
        h2.current_destination() == h0.current_destination(),
        h2.current_direction() == h0.current_direction(),
{
}

/// The command schedule of one time step: the explicit half-step SpMV, the
/// whole CG solve, then the texture write, each taken from the instance pair
/// that the step parity selects.
pub open spec fn heat_step_schedule(h: HeatEquation) -> Seq<Action> {
    if h.iteration % 2 == 0 {
        dispatch_all(h.initial_spmv_forward.steps()) + cg_schedule(h.cg_forward) + dispatch_all(
            h.write_to_texture_forward.steps(),
        )
    } else {
        dispatch_all(h.initial_spmv_backward.steps()) + cg_schedule(h.cg_backward) + dispatch_all(
            h.write_to_texture_backward.steps(),
        )
    }
}

} // verus!
