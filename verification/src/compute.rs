//! Workgroup-grid arithmetic shared by every compute kernel.
use vstd::prelude::*;
use crate::div_ceil;

verus! {

/// Number of workgroups along each axis needed to cover a grid of
/// `dimensions` invocations with workgroups of extent `workgroup_size`.
pub fn compute_work_group_count(dimensions: (u32, u32), workgroup_size: (u32, u32)) -> (r: (u32, u32))
    requires
        workgroup_size.0 >= 1,
        workgroup_size.1 >= 1,
        dimensions.0 + workgroup_size.0 <= u32::MAX,
        dimensions.1 + workgroup_size.1 <= u32::MAX,
    ensures
        r.0 == div_ceil(dimensions.0 as int, workgroup_size.0 as int),
        r.1 == div_ceil(dimensions.1 as int, workgroup_size.1 as int),
{
    let x = (dimensions.0 + workgroup_size.0 - 1) / workgroup_size.0;
    let y = (dimensions.1 + workgroup_size.1 - 1) / workgroup_size.1;

    (x, y)
}

} // verus!
