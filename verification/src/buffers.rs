//! Allocation plan for the device-resident buffers of the solver.
//!
//! The solver never talks to a device directly: it records, in a
//! `BufferPlanner`, one entry per buffer it needs (element count plus initial
//! contents), and refers to buffers by their index in that plan from then on.
//! A host program allocates one real device buffer per entry, in order, so a
//! `BufferId` handed out here identifies the same buffer on both sides.
use vstd::prelude::*;

verus! {

/// Index of a buffer in the allocation plan.
pub type BufferId = u32;

/// Initial contents of a planned buffer.
///
/// Scalar entries are carried as 32-bit patterns (the host interprets them as
/// its 4-byte element type); diagonal offsets are signed and kept as such.
#[derive(PartialEq, Eq, Debug)]
pub enum BufferInit {
    Zeroed,
    Bits(Vec<u32>),
    IntBits(Vec<i32>),
}

/// One planned buffer: its element count and its initial contents.
#[derive(PartialEq, Eq, Debug)]
pub struct BufferSpec {
    pub len: u32,
    pub init: BufferInit,
}

impl BufferSpec {
    /// The initial contents, when given, cover the buffer exactly.
    pub open spec fn wf(&self) -> bool {
        match self.init {
            BufferInit::Zeroed => true,
            BufferInit::Bits(ref b) => b@.len() == self.len as int,
            BufferInit::IntBits(ref b) => b@.len() == self.len as int,
        }
    }
}

/// The ordered allocation plan.
pub struct BufferPlanner {
    pub specs: Vec<BufferSpec>,
}

impl BufferPlanner {
    pub open spec fn wf(&self) -> bool {
        forall|i: int| 0 <= i < self.specs@.len() ==> #[trigger] self.specs@[i].wf()
    }

    /// Number of buffers planned so far.
    pub open spec fn spec_len(&self) -> int {
        self.specs@.len() as int
    }

    /// Element count of a planned buffer.
    pub open spec fn buffer_len(&self, id: BufferId) -> int {
        self.specs@[id as int].len as int
    }

    /// The plan gives buffer `id` exactly the 32-bit patterns `b`.
    pub open spec fn has_bits(&self, id: BufferId, b: Seq<u32>) -> bool {
        &&& 0 <= id < self.spec_len()
        &&& match self.specs@[id as int].init {
            BufferInit::Bits(v) => v@ == b,
            _ => false,
        }
    }

    /// The plan gives buffer `id` exactly the signed integers `b`.
    pub open spec fn has_int_bits(&self, id: BufferId, b: Seq<i32>) -> bool {
        &&& 0 <= id < self.spec_len()
        &&& match self.specs@[id as int].init {
            BufferInit::IntBits(v) => v@ == b,
            _ => false,
        }
    }

    /// The plan zero-fills buffer `id`.
    pub open spec fn is_zeroed(&self, id: BufferId) -> bool {
        &&& 0 <= id < self.spec_len()
        &&& self.specs@[id as int].init matches BufferInit::Zeroed
    }

    pub fn new() -> (r: Self)
        ensures
            r.spec_len() == 0,
            r.wf(),
    {
        BufferPlanner { specs: Vec::new() }
    }

    /// Plan a zero-initialized buffer of `len` elements.
    pub fn create_buffer(&mut self, len: u32) -> (id: BufferId)
        requires
            old(self).spec_len() < u32::MAX,
        ensures
            id == old(self).spec_len(),
            final(self).specs@ == old(self).specs@.push(BufferSpec { len, init: BufferInit::Zeroed }),
            final(self).spec_len() == old(self).spec_len() + 1,
            final(self).buffer_len(id) == len,
            old(self).wf() ==> final(self).wf(),
    {
        let id = self.specs.len() as u32;
        self.specs.push(BufferSpec { len, init: BufferInit::Zeroed });
        id
    }

    /// Plan a buffer initialized with the given 32-bit patterns.
    pub fn create_buffer_init(&mut self, bits: Vec<u32>) -> (id: BufferId)
        requires
            old(self).spec_len() < u32::MAX,
            bits@.len() <= u32::MAX,
        ensures
            id == old(self).spec_len(),
            final(self).specs@ == old(self).specs@.push(
                BufferSpec { len: bits@.len() as u32, init: BufferInit::Bits(bits) },
            ),
            final(self).spec_len() == old(self).spec_len() + 1,
            final(self).buffer_len(id) == bits@.len(),
            old(self).wf() ==> final(self).wf(),
    {
        let id = self.specs.len() as u32;
        let len = bits.len() as u32;
        self.specs.push(BufferSpec { len, init: BufferInit::Bits(bits) });
        id
    }

    /// Plan a buffer initialized with the given signed integers.
    pub fn create_buffer_init_i32(&mut self, vals: Vec<i32>) -> (id: BufferId)
        requires
            old(self).spec_len() < u32::MAX,
            vals@.len() <= u32::MAX,
        ensures
            id == old(self).spec_len(),
            final(self).specs@ == old(self).specs@.push(
                BufferSpec { len: vals@.len() as u32, init: BufferInit::IntBits(vals) },
            ),
            final(self).spec_len() == old(self).spec_len() + 1,
            final(self).buffer_len(id) == vals@.len(),
            old(self).wf() ==> final(self).wf(),
    {
        let id = self.specs.len() as u32;
        let len = vals.len() as u32;
        self.specs.push(BufferSpec { len, init: BufferInit::IntBits(vals) });
        id
    }
}

} // verus!
