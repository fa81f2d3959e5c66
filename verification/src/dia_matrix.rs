//! Sparse matrices in diagonal (DIA) storage.
//!
//! A DIA matrix keeps, for each stored diagonal, its offset from the main
//! diagonal and one value per row; entries whose column would fall outside
//! the matrix are zero-padded at construction, so the multiply kernel needs
//! no runtime bounds check.  The descriptor plans three device buffers: the
//! `[num_cols, num_rows, num_diags]` parameter triple, the flat diagonal
//! values, and the signed offsets.
use vstd::prelude::*;
use crate::buffers::{BufferId, BufferPlanner};

verus! {

/// The DIA invariant: a stored value whose column `i + offsets[k]` falls
/// outside `[0, num_cols)` is the zero pattern, so the multiply kernel can
/// read every stored diagonal unconditionally.
pub open spec fn zero_padded(data: Seq<u32>, offsets: Seq<i32>, num_rows: int, num_cols: int) -> bool {
    forall|k: int, i: int|
        0 <= k < offsets.len() && 0 <= i < num_rows && !(0 <= i + offsets[k] < num_cols)
            ==> #[trigger] data[k * num_rows + i] == 0
}

/// Represents a square sparse matrix in diagonal format, as the identities of
/// its three planned device buffers together with its dimensions.
#[derive(Clone, Copy, PartialEq, Eq, Debug)]
pub struct DIAMatrixDescriptor {
    pub num_cols: u32,
    pub num_rows: u32,
    pub num_diags: u32,
    pub params: BufferId,
    pub data: BufferId,
    pub offsets: BufferId,
}

impl DIAMatrixDescriptor {
    /// Plan the three buffers of a DIA matrix and return its descriptor.
    ///
    /// `data` holds `num_diags * num_rows` values, diagonal by diagonal, with
    /// value `data[k * num_rows + i]` standing at row `i`, column
    /// `i + offsets[k]`; callers zero-pad entries whose column falls outside
    /// the matrix.  Values are carried as 32-bit patterns of the device's
    /// scalar type.
    pub fn new(
        planner: &mut BufferPlanner,
        num_cols: u32,
        num_rows: u32,
        num_diags: u32,
        data: Vec<u32>,
        offsets: Vec<i32>,
    ) -> (r: Self)
        requires
            num_cols == num_rows,
            data@.len() == num_diags as int * num_rows as int,
            data@.len() <= u32::MAX,
            offsets@.len() == num_diags as int,
            zero_padded(data@, offsets@, num_rows as int, num_cols as int),
            old(planner).spec_len() + 3 <= u32::MAX,
        ensures
            r.num_cols == num_cols,
            r.num_rows == num_rows,
            r.num_diags == num_diags,
            r.params == old(planner).spec_len(),
            r.data == old(planner).spec_len() + 1,
            r.offsets == old(planner).spec_len() + 2,
            final(planner).spec_len() == old(planner).spec_len() + 3,
            forall|i: int| 0 <= i < old(planner).spec_len()
                ==> final(planner).specs@[i] == old(planner).specs@[i],
            final(planner).has_bits(r.params, seq![num_cols, num_rows, num_diags]),
            final(planner).has_bits(r.data, data@),
            final(planner).has_int_bits(r.offsets, offsets@),
            final(planner).buffer_len(r.params) == 3,
            final(planner).buffer_len(r.data) == data@.len(),
            final(planner).buffer_len(r.offsets) == offsets@.len(),
            old(planner).wf() ==> final(planner).wf(),
    {
        let ghost data_view = data@;
        let ghost offsets_view = offsets@;
        let mut param_words: Vec<u32> = Vec::new();
        param_words.push(num_cols);
        param_words.push(num_rows);
        param_words.push(num_diags);
        proof {
            assert(param_words@ =~= seq![num_cols, num_rows, num_diags]);
        }
        let params = planner.create_buffer_init(param_words);
        let data_id = planner.create_buffer_init(data);
        let offsets_id = planner.create_buffer_init_i32(offsets);
        DIAMatrixDescriptor {
            num_cols,
            num_rows,
            num_diags,
            params,
            data: data_id,
            offsets: offsets_id,
        }
    }
}

} // verus!
