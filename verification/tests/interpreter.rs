//! End-to-end tests that play the solver's command schedules on a CPU
//! interpreter with single-precision buffers, honouring the planned buffer
//! contents, the dispatch sizes and the action order.
use heat_wgpu::buffers::{BufferInit, BufferPlanner};
use heat_wgpu::conjugate_gradient::{CGBuffers, CG};
use heat_wgpu::dia_matrix::DIAMatrixDescriptor;
use heat_wgpu::heat_equation::{stencil_matrix, HeatEquation};
use heat_wgpu::kernels::dot::DotKernel;
use heat_wgpu::kernels::saxpy_update_div::{Operation, SAXPYUpdateDivKernel};
use heat_wgpu::kernels::spmv::SpMVKernel;
use heat_wgpu::kernels::{push_dispatches, Action, ExecutionStep, Kernel, KernelOp};

fn alloc_buffers(planner: &BufferPlanner) -> Vec<Vec<u32>> {
    planner
        .specs
        .iter()
        .map(|spec| match &spec.init {
            BufferInit::Zeroed => vec![0u32; spec.len as usize],
            BufferInit::Bits(bits) => bits.clone(),
            BufferInit::IntBits(vals) => vals.iter().map(|v| *v as u32).collect(),
        })
        .collect()
}

fn get_f32(bufs: &[Vec<u32>], id: u32) -> Vec<f32> {
    bufs[id as usize].iter().map(|b| f32::from_bits(*b)).collect()
}

fn set_f32(bufs: &mut [Vec<u32>], id: u32, vals: &[f32]) {
    bufs[id as usize] = vals.iter().map(|v| v.to_bits()).collect();
}

fn get_i32(bufs: &[Vec<u32>], id: u32) -> Vec<i32> {
    bufs[id as usize].iter().map(|b| *b as i32).collect()
}

fn run_step(bufs: &mut [Vec<u32>], step: &ExecutionStep) {
    let (wg_x, _, _) = step.workgroups;
    match step.op {
        KernelOp::VecMul { x, y, out } => {
            let xv = get_f32(bufs, x);
            let yv = get_f32(bufs, y);
            let mut ov = get_f32(bufs, out);
            let invocations = (wg_x as usize) * 256;
            for i in 0..xv.len().min(invocations) {
                ov[i] = xv[i] * yv[i];
            }
            set_f32(bufs, out, &ov);
        }
        KernelOp::BlockSumReduce { input, out } => {
            let iv = get_f32(bufs, input);
            let mut ov = get_f32(bufs, out);
            for g in 0..(wg_x as usize) {
                let start = g * 256;
                if start < iv.len() {
                    let end = (start + 256).min(iv.len());
                    let mut acc = 0.0f32;
                    for i in start..end {
                        acc += iv[i];
                    }
                    ov[g] = acc;
                }
            }
            set_f32(bufs, out, &ov);
        }
        KernelOp::SumReduceFinal { num_groups, input, out } => {
            let iv = get_f32(bufs, input);
            let mut acc = 0.0f32;
            for i in 0..(num_groups as usize).min(iv.len()) {
                acc += iv[i];
            }
            set_f32(bufs, out, &[acc]);
        }
        KernelOp::SpMV { x, params, data, offsets, y } => {
            let p = &bufs[params as usize];
            let (num_cols, num_rows, num_diags) = (p[0] as i64, p[1] as usize, p[2] as usize);
            let xv = get_f32(bufs, x);
            let dv = get_f32(bufs, data);
            let off = get_i32(bufs, offsets);
            let mut yv = get_f32(bufs, y);
            let invocations = (wg_x as usize) * 64;
            for i in 0..num_rows.min(invocations) {
                let mut acc = 0.0f32;
                for k in 0..num_diags {
                    let j = i as i64 + off[k] as i64;
                    if 0 <= j && j < num_cols {
                        acc += dv[k * num_rows + i] * xv[j as usize];
                    }
                }
                yv[i] = acc;
            }
            set_f32(bufs, y, &yv);
        }
        KernelOp::SaxpyUpdate { x, y } => {
            let xv = get_f32(bufs, x);
            let mut yv = get_f32(bufs, y);
            let invocations = (wg_x as usize) * 256;
            for i in 0..yv.len().min(invocations) {
                yv[i] = xv[i] - yv[i];
            }
            set_f32(bufs, y, &yv);
        }
        KernelOp::SaxpyUpdateDiv { a1, a2, x, y, op } => {
            let ratio = get_f32(bufs, a1)[0] / get_f32(bufs, a2)[0];
            let xv = get_f32(bufs, x);
            let mut yv = get_f32(bufs, y);
            let invocations = (wg_x as usize) * 256;
            for i in 0..yv.len().min(invocations) {
                match op {
                    Operation::Add => yv[i] = yv[i] + ratio * xv[i],
                    Operation::Sub => yv[i] = yv[i] - ratio * xv[i],
                }
            }
            set_f32(bufs, y, &yv);
        }
        KernelOp::WriteToTexture { x: _ } => {}
    }
}

fn run_schedule(bufs: &mut [Vec<u32>], schedule: &[Action]) {
    for action in schedule {
        match action {
            Action::Dispatch(step) => run_step(bufs, step),
            Action::CopyBuffer { src, dst } => {
                let copied = bufs[*src as usize].clone();
                bufs[*dst as usize] = copied;
            }
        }
    }
}

fn bits_of(vals: &[f32]) -> Vec<u32> {
    vals.iter().map(|v| v.to_bits()).collect()
}

/// SpMV with the identity descriptor (main diagonal one, the four other
/// diagonals zero-filled) returns the input exactly, here on a 4x4 grid.
#[test]
fn spmv_identity_returns_input() {
    let m: usize = 16;
    let mut data = vec![0.0f32; 5 * m];
    for i in 0..m {
        data[2 * m + i] = 1.0;
    }
    let offsets: Vec<i32> = vec![-4, -1, 0, 1, 4];
    let mut planner = BufferPlanner::new();
    let a = DIAMatrixDescriptor::new(&mut planner, m as u32, m as u32, 5, bits_of(&data), offsets);
    let x: Vec<f32> = (0..m).map(|i| i as f32 * 0.25 - 1.5).collect();
    let x_id = planner.create_buffer_init(bits_of(&x));
    let y_id = planner.create_buffer(m as u32);
    let kernel = SpMVKernel::new(&a, x_id, y_id);
    let mut pass: Vec<ExecutionStep> = Vec::new();
    kernel.add_to_pass(&mut pass);
    let mut schedule: Vec<Action> = Vec::new();
    push_dispatches(&mut schedule, &pass);

    let mut bufs = alloc_buffers(&planner);
    run_schedule(&mut bufs, &schedule);
    assert_eq!(get_f32(&bufs, y_id), x);
}

/// The dot-product kernel on x = y = 2.0 repeated 128*128 times yields
/// exactly 65536.
#[test]
fn dot_product_of_twos() {
    let n: usize = 128 * 128;
    let mut planner = BufferPlanner::new();
    let x_id = planner.create_buffer_init(bits_of(&vec![2.0f32; n]));
    let y_id = planner.create_buffer_init(bits_of(&vec![2.0f32; n]));
    let tmp0 = planner.create_buffer(n as u32);
    let tmp1 = planner.create_buffer(n as u32);
    let out = planner.create_buffer(1);
    let kernel = DotKernel::new(x_id, y_id, tmp0, tmp1, out, n as u32);
    let mut pass: Vec<ExecutionStep> = Vec::new();
    kernel.add_to_pass(&mut pass);
    let mut schedule: Vec<Action> = Vec::new();
    push_dispatches(&mut schedule, &pass);

    let mut bufs = alloc_buffers(&planner);
    run_schedule(&mut bufs, &schedule);
    assert_eq!(get_f32(&bufs, out)[0], 128.0 * 128.0 * 4.0);
}

/// The elementwise-multiply stage alone, on x = 2.0 and y = 3.0, fills the
/// scratch vector with 6.0, and the reduction stages sum it to 98304.
#[test]
fn elementwise_multiply_stage() {
    let n: usize = 128 * 128;
    let mut planner = BufferPlanner::new();
    let x_id = planner.create_buffer_init(bits_of(&vec![2.0f32; n]));
    let y_id = planner.create_buffer_init(bits_of(&vec![3.0f32; n]));
    let tmp0 = planner.create_buffer(n as u32);
    let tmp1 = planner.create_buffer(n as u32);
    let out = planner.create_buffer(1);
    let kernel = DotKernel::new(x_id, y_id, tmp0, tmp1, out, n as u32);
    let mut pass: Vec<ExecutionStep> = Vec::new();
    kernel.add_to_pass(&mut pass);
    let mut schedule: Vec<Action> = Vec::new();
    push_dispatches(&mut schedule, &pass);

    let mut bufs = alloc_buffers(&planner);
    run_schedule(&mut bufs, &schedule);
    assert_eq!(get_f32(&bufs, tmp0), vec![6.0f32; n]);
    assert_eq!(get_f32(&bufs, out)[0], 98304.0);
}

/// The scaled-ratio update with a1 = a2 = 1 adds or subtracts x unscaled:
/// Add turns y = 0 into 1, Sub into -1.
#[test]
fn scaled_ratio_update_unit_ratio() {
    let n: usize = 300;
    for (op, expected) in [(Operation::Add, 1.0f32), (Operation::Sub, -1.0f32)] {
        let mut planner = BufferPlanner::new();
        let a1 = planner.create_buffer_init(bits_of(&[1.0]));
        let a2 = planner.create_buffer_init(bits_of(&[1.0]));
        let x_id = planner.create_buffer_init(bits_of(&vec![1.0f32; n]));
        let y_id = planner.create_buffer_init(bits_of(&vec![0.0f32; n]));
        let kernel = SAXPYUpdateDivKernel::new(a1, a2, x_id, y_id, op, n as u32);
        let mut pass: Vec<ExecutionStep> = Vec::new();
        kernel.add_to_pass(&mut pass);
        let mut schedule: Vec<Action> = Vec::new();
        push_dispatches(&mut schedule, &pass);

        let mut bufs = alloc_buffers(&planner);
        run_schedule(&mut bufs, &schedule);
        assert_eq!(get_f32(&bufs, y_id), vec![expected; n]);
    }
}

/// The elementwise-multiply kernel on vectors of 2.0 and 3.0 returns all
/// 6.0.
#[test]
fn elementwise_multiplication() {
    let vec_a = vec![2.0; 128 * 128];
    let vec_b = vec![3.0; 128 * 128];
    let n = vec_a.len();
    let mut planner = BufferPlanner::new();
    let a_id = planner.create_buffer_init(bits_of(&vec_a));
    let b_id = planner.create_buffer_init(bits_of(&vec_b));
    let out = planner.create_buffer(n as u32);
    let step = ExecutionStep::new(
        KernelOp::VecMul { x: a_id, y: b_id, out },
        ((n as u32 + 255) / 256, 1, 1),
    );
    let mut bufs = alloc_buffers(&planner);
    run_schedule(&mut bufs, &[Action::Dispatch(step)]);
    let result = get_f32(&bufs, out);
    assert!(result == vec![6.0; 128 * 128]);
}

/// The two reduction stages on a vector of 2.0 repeated 128*128 times: the
/// partial sums add up to the total, and the final stage returns it.
#[test]
fn sum_reduce() {
    let vec_in = vec![2.0; 128 * 128];
    let work_size = vec_in.len() as u32;
    let num_groups = work_size / 256;
    let mut planner = BufferPlanner::new();
    let in_id = planner.create_buffer_init(bits_of(&vec_in));
    let mid_id = planner.create_buffer(work_size);
    let out_id = planner.create_buffer(1);
    let stage1 = ExecutionStep::new(
        KernelOp::BlockSumReduce { input: in_id, out: mid_id },
        (num_groups, 1, 1),
    );
    let stage2 = ExecutionStep::new(
        KernelOp::SumReduceFinal { num_groups, input: mid_id, out: out_id },
        (1, 1, 1),
    );
    let mut bufs = alloc_buffers(&planner);
    run_schedule(&mut bufs, &[Action::Dispatch(stage1), Action::Dispatch(stage2)]);
    let result_1 = get_f32(&bufs, mid_id);
    let result_2 = get_f32(&bufs, out_id)[0];
    println!("result1[0] = {:?}", result_1[0]);
    println!("result1.sum() = {:?}", result_1.iter().sum::<f32>());
    assert!(result_1.iter().sum::<f32>() == 128.0 * 128.0 * 2.0);
    println!("result2 = {:?}", result_2);
    assert!(result_2 == 128.0 * 128.0 * 2.0);
}

/// A 16-row tridiagonal DIA multiply on a constant vector, as a smoke test
/// of the descriptor wiring.
#[test]
fn spmv() {
    const M: usize = 16;
    let x = vec![2.0; M];
    let data = vec![
        0.0, 2.0, 2.0, 2.0, 2.0, 2.0, 2.0, 2.0, 2.0, 2.0, 2.0, 2.0, 2.0, 2.0, 2.0, 2.0, 1.0,
        1.0, 1.0, 1.0, 1.0, 1.0, 1.0, 1.0, 1.0, 1.0, 1.0, 1.0, 1.0, 1.0, 1.0, 1.0, 2.0, 2.0,
        2.0, 2.0, 2.0, 2.0, 2.0, 2.0, 2.0, 2.0, 2.0, 2.0, 2.0, 2.0, 2.0, 0.0,
    ];
    let offsets = vec![-1, 0, 1];
    let mut planner = BufferPlanner::new();
    let a = DIAMatrixDescriptor::new(&mut planner, M as u32, M as u32, 3, bits_of(&data), offsets);
    let x_id = planner.create_buffer_init(bits_of(&x));
    let y_id = planner.create_buffer(M as u32);
    let kernel = SpMVKernel::new(&a, x_id, y_id);
    let mut pass: Vec<ExecutionStep> = Vec::new();
    kernel.add_to_pass(&mut pass);
    let mut schedule: Vec<Action> = Vec::new();
    push_dispatches(&mut schedule, &pass);
    let mut bufs = alloc_buffers(&planner);
    run_schedule(&mut bufs, &schedule);
    let result = get_f32(&bufs, y_id);
    println!("{:?}", result);
}

/// The CG solver recovers the known solution of a small symmetric
/// positive-definite system within floating-point tolerance: CG is exact
/// within n iterations for an n-by-n SPD system, and the budget of 10
/// iterations exceeds n = 16.
#[test]
fn cg_solves_spd_system() {
    let n: u32 = 4;
    let m: usize = 16;
    // The implicit heat operator 1 + 4*gamma on the diagonal, -gamma off it,
    // is symmetric positive definite (diagonally dominant) for gamma > 0.
    let gamma = 0.25f32;
    let mut planner = BufferPlanner::new();
    let a = stencil_matrix(&mut planner, n, (1.0 + 4.0 * gamma).to_bits(), (-gamma).to_bits());
    let x_star: Vec<f32> = (0..m).map(|i| (i % 5) as f32 - 2.0).collect();
    let xs_id = planner.create_buffer_init(bits_of(&x_star));
    let b_id = planner.create_buffer(m as u32);
    let x_id = planner.create_buffer_init(bits_of(&vec![0.0f32; m]));
    let cg_buffers = CGBuffers::new(&mut planner, m as u32);

    // b = A * x_star, computed by the same interpreter.
    let spmv = SpMVKernel::new(&a, xs_id, b_id);
    let mut pass: Vec<ExecutionStep> = Vec::new();
    spmv.add_to_pass(&mut pass);
    let mut prep: Vec<Action> = Vec::new();
    push_dispatches(&mut prep, &pass);

    let cg = CG::new(cg_buffers, &a, b_id, x_id, m as u32);
    let schedule = cg.run();

    let mut bufs = alloc_buffers(&planner);
    run_schedule(&mut bufs, &prep);
    run_schedule(&mut bufs, &schedule);
    let x = get_f32(&bufs, x_id);
    for i in 0..m {
        assert!(
            (x[i] - x_star[i]).abs() < 1e-4,
            "solution off at {}: {} vs {}",
            i,
            x[i],
            x_star[i]
        );
    }
}

/// Two driver steps ping-pong the state pair and return to the original
/// buffer as current: the third schedule is identical to the first, and the
/// field keeps diffusing meanwhile.
#[test]
fn driver_round_trip_after_two_steps() {
    let n: u32 = 4;
    let m: usize = 16;
    // A sizeable gamma keeps the fixed-budget CG busy for all its
    // iterations; a vanishing one would let the squared residual underflow.
    let gamma = 0.2f32;
    let u0: Vec<f32> = (0..m).map(|i| if i == 5 { 1.0 } else { 0.0 }).collect();
    let mut planner = BufferPlanner::new();
    let mut heat = HeatEquation::new(
        &mut planner,
        n,
        (1.0 + 4.0 * gamma).to_bits(),
        (-gamma).to_bits(),
        (1.0 - 4.0 * gamma).to_bits(),
        gamma.to_bits(),
        bits_of(&u0),
    );
    let u_id = heat.u;
    let u_alt_id = heat.u_alt;
    assert_ne!(u_id, u_alt_id);

    let first = heat.compute_step();
    let second = heat.compute_step();
    let third = heat.compute_step();
    assert_eq!(heat.iteration, 3);
    // Parity cycles with period 2: the same pre-built instances are selected.
    assert_eq!(first, third);
    assert_ne!(first, second);
    // The first step reads u and the second reads the complementary buffer.
    match (&first[0], &second[0]) {
        (
            Action::Dispatch(ExecutionStep { op: KernelOp::SpMV { x: x1, .. }, .. }),
            Action::Dispatch(ExecutionStep { op: KernelOp::SpMV { x: x2, .. }, .. }),
        ) => {
            assert_eq!(*x1, u_id);
            assert_eq!(*x2, u_alt_id);
        }
        _ => panic!("steps do not open with the explicit SpMV"),
    }

    let mut bufs = alloc_buffers(&planner);
    run_schedule(&mut bufs, &first);
    run_schedule(&mut bufs, &second);
    // After two steps the field is back in u: finite, diffused, with the
    // total heat bounded by the initial unit impulse (the boundary rows
    // leak, so it can only shrink).
    let u = get_f32(&bufs, u_id);
    assert!(u.iter().all(|v| v.is_finite()));
    let total: f32 = u.iter().sum();
    assert!(0.0 < total && total < 1.0 + 1e-4, "total heat drifted: {}", total);
    assert!(u[5] < 1.0 && u[5] > 0.0);
}
