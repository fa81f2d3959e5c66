//! Tests of the planned structures themselves: dispatch arithmetic, stencil
//! layout, direction alternation, and the exact-integer kernel references.
use heat_wgpu::buffers::BufferPlanner;
use heat_wgpu::compute::compute_work_group_count;
use heat_wgpu::conjugate_gradient::{CGBuffers, CG};
use heat_wgpu::directional_bind_group::{Direction, DirectionalBindGroup};
use heat_wgpu::heat_equation::{stencil_data, stencil_offsets};
use heat_wgpu::kernels::dot::DotKernel;
use heat_wgpu::kernels::{ExecutionStep, Kernel, KernelOp};
use heat_wgpu::model::{
    block_sum_reduce_ref, dot_product_ref, saxpy_update_div_ref, saxpy_update_ref, spmv_ref,
    sum_reduce_final_ref, vec_mul_ref,
};
use heat_wgpu::kernels::saxpy_update_div::Operation;

/// Grids are covered by whole workgroups, rounding up.
#[test]
fn work_group_count_rounds_up() {
    assert_eq!(compute_work_group_count((512, 512), (16, 16)), (32, 32));
    assert_eq!(compute_work_group_count((17, 33), (16, 16)), (2, 3));
    assert_eq!(compute_work_group_count((1, 1), (16, 16)), (1, 1));
    assert_eq!(compute_work_group_count((0, 16), (16, 16)), (0, 1));
}

/// The direction flips in strict alternation, Forward at even step counts.
#[test]
fn direction_alternates() {
    let mut d = Direction::Forward;
    for k in 0..8 {
        if k % 2 == 0 {
            assert_eq!(d, Direction::Forward);
        } else {
            assert_eq!(d, Direction::Backward);
        }
        d = d.flipped();
    }
}

/// The selector returns the binding set matching the direction.
#[test]
fn directional_bind_group_selects() {
    let group = DirectionalBindGroup::new(7, 9);
    assert_eq!(group.get(Direction::Forward), 7);
    assert_eq!(group.get(Direction::Backward), 9);
}

/// On a 3x3 grid, corner rows of the stencil matrix keep contributions from
/// exactly 2 off-diagonals, edge rows from 3, interior rows from 4: the
/// other entries were zero-filled at construction.
#[test]
fn stencil_boundary_pattern_3x3() {
    let n: usize = 3;
    let m = n * n;
    let diag = 5.0f32.to_bits();
    let off = (-1.0f32).to_bits();
    let data = stencil_data(n as u32, diag, off);
    assert_eq!(data.len(), 5 * m);
    let expected = [2usize, 3, 2, 3, 4, 3, 2, 3, 2];
    for i in 0..m {
        let mut nonzero = 0;
        for k in [0usize, 1, 3, 4] {
            if data[k * m + i] != 0 {
                nonzero += 1;
            }
        }
        assert_eq!(nonzero, expected[i], "row {}", i);
        assert_eq!(data[2 * m + i], diag, "main diagonal, row {}", i);
    }
    assert_eq!(stencil_offsets(n as u32), vec![-3, -1, 0, 1, 3]);
}

/// On the degenerate single-cell grid every neighbour falls outside, so only
/// the main diagonal survives.
#[test]
fn stencil_single_cell() {
    let diag = 2.5f32.to_bits();
    let off = 1.0f32.to_bits();
    let data = stencil_data(1, diag, off);
    assert_eq!(data, vec![0, 0, diag, 0, 0]);
    assert_eq!(stencil_offsets(1), vec![-1, -1, 0, 1, 1]);
}

/// One CG solve schedules the residual initialization, the copy p = r, and
/// exactly ten iterations of fifteen actions each.
#[test]
fn cg_schedule_shape() {
    let mut planner = BufferPlanner::new();
    let a = heat_wgpu::heat_equation::stencil_matrix(
        &mut planner,
        2,
        1.5f32.to_bits(),
        (-0.125f32).to_bits(),
    );
    let b_id = planner.create_buffer(4);
    let x_id = planner.create_buffer(4);
    let bufs = CGBuffers::new(&mut planner, 4);
    let cg = CG::new(bufs, &a, b_id, x_id, 4);
    let schedule = cg.run();
    // 2 initialization dispatches, 1 copy, then 10 * (12 dispatches for the
    // six in-pass stages, plus copy + dispatch + copy for the direction
    // update).
    assert_eq!(schedule.len(), 2 + 1 + 10 * 15);
}

/// The allocation plan hands out consecutive identities, and the CG scratch
/// set takes seven of them with the documented sizes.
#[test]
fn buffer_plan_layout() {
    let mut planner = BufferPlanner::new();
    let first = planner.create_buffer(10);
    assert_eq!(first, 0);
    let bufs = CGBuffers::new(&mut planner, 64);
    assert_eq!(
        (bufs.r, bufs.p, bufs.q, bufs.sigma, bufs.sigma_prime, bufs.tmp0, bufs.tmp1),
        (1, 2, 3, 4, 5, 6, 7)
    );
    assert_eq!(planner.specs.len(), 8);
    assert_eq!(planner.specs[bufs.r as usize].len, 64);
    assert_eq!(planner.specs[bufs.sigma as usize].len, 1);
    assert_eq!(planner.specs[bufs.tmp1 as usize].len, 64);
}

/// The dot kernel records its three stages in order, with the partial-sum
/// count baked into the final stage and one workgroup per 256 elements on
/// the first two.
#[test]
fn dot_kernel_stage_shapes() {
    let n: u32 = 1000;
    let kernel = DotKernel::new(11, 12, 13, 14, 15, n);
    let mut pass: Vec<ExecutionStep> = Vec::new();
    kernel.add_to_pass(&mut pass);
    assert_eq!(pass.len(), 3);
    assert_eq!(pass[0].op, KernelOp::VecMul { x: 11, y: 12, out: 13 });
    assert_eq!(pass[0].workgroups, (4, 1, 1));
    assert_eq!(pass[1].op, KernelOp::BlockSumReduce { input: 13, out: 14 });
    assert_eq!(pass[1].workgroups, (4, 1, 1));
    assert_eq!(pass[2].op, KernelOp::SumReduceFinal { num_groups: 4, input: 14, out: 15 });
    assert_eq!(pass[2].workgroups, (1, 1, 1));
}

/// The integer SpMV reference on the identity descriptor returns its input,
/// for an arbitrary size.
#[test]
fn spmv_ref_identity() {
    let m: usize = 23;
    let mut data = vec![0i64; 5 * m];
    for i in 0..m {
        data[2 * m + i] = 1;
    }
    let offsets: Vec<i64> = vec![-5, -1, 0, 1, 5];
    let x: Vec<i64> = (0..m as i64).map(|i| 3 * i - 20).collect();
    let y = spmv_ref(&data, &offsets, m, &x);
    assert_eq!(y, x);
}

/// The integer SpMV reference matches a hand-computed tridiagonal product,
/// boundary rows losing their out-of-range terms.
#[test]
fn spmv_ref_tridiagonal() {
    let m: usize = 4;
    let data: Vec<i64> = vec![
        0, 1, 1, 1, // offset -1, first entry padded
        4, 4, 4, 4, // main diagonal
        1, 1, 1, 0, // offset +1, last entry padded
    ];
    let offsets: Vec<i64> = vec![-1, 0, 1];
    let x: Vec<i64> = vec![1, 2, 3, 4];
    let y = spmv_ref(&data, &offsets, m, &x);
    assert_eq!(y, vec![4 + 2, 1 + 8 + 3, 2 + 12 + 4, 3 + 16]);
}

/// The three-stage integer reduction equals the direct dot product, block
/// boundaries notwithstanding.
#[test]
fn dot_ref_three_stages() {
    let x: Vec<i64> = vec![2; 128 * 128];
    let y: Vec<i64> = vec![2; 128 * 128];
    assert_eq!(dot_product_ref(&x, &y), 128 * 128 * 4);

    let x2: Vec<i64> = (0..1000).map(|i| i - 500).collect();
    let y2: Vec<i64> = (0..1000).map(|i| 7 - i % 13).collect();
    let direct: i64 = x2.iter().zip(y2.iter()).map(|(a, b)| a * b).sum();
    assert_eq!(dot_product_ref(&x2, &y2), direct);

    let products = vec_mul_ref(&x2, &y2);
    let partials = block_sum_reduce_ref(&products, 256);
    assert_eq!(partials.len(), 4);
    assert_eq!(sum_reduce_final_ref(&partials), direct);
}

/// The plain update writes x - y, the residual-initialization form.
#[test]
fn saxpy_ref_plain_update() {
    let x: Vec<i64> = vec![5, 6, 7];
    let mut y: Vec<i64> = vec![1, 2, 3];
    saxpy_update_ref(&x, &mut y);
    assert_eq!(y, vec![4, 4, 4]);
}

/// The scaled-ratio update with a1 = a2 adds or subtracts x unscaled, and
/// scales exactly for other exact ratios.
#[test]
fn saxpy_ref_scaled_ratio() {
    let x: Vec<i64> = vec![1, 1, 1, 1];
    let mut y: Vec<i64> = vec![0; 4];
    saxpy_update_div_ref(1, 1, &x, &mut y, Operation::Add);
    assert_eq!(y, vec![1, 1, 1, 1]);
    let mut y2: Vec<i64> = vec![0; 4];
    saxpy_update_div_ref(1, 1, &x, &mut y2, Operation::Sub);
    assert_eq!(y2, vec![-1, -1, -1, -1]);

    let x3: Vec<i64> = vec![4, -6, 10, 0];
    let mut y3: Vec<i64> = vec![100, 100, 100, 100];
    saxpy_update_div_ref(3, 2, &x3, &mut y3, Operation::Sub);
    assert_eq!(y3, vec![100 - 6, 100 + 9, 100 - 15, 100]);
}
