//! The uniform pool: an append-only list of same-sized GPU uniform
//! buffers, one slot per drawn object.  Slots are never reallocated or
//! moved, so any bind group built over slot `i` stays valid for the
//! life of the pool.

use vstd::prelude::*;
use crate::gpu::{BufferKind, buffer_size_s, create_gpu_buffer, queue_write_buffer};

verus! {

/// A lazily growing pool of fixed-size uniform buffers.
pub struct UniformPool {
    /// One GPU buffer per object slot, in slot order.
    pub buffers: Vec<wgpu::Buffer>,
    /// The byte size every slot is created with.
    pub buffer_size: u64,
}

/// Every slot of the pool has the pool's fixed byte size.
pub open spec fn pool_wf(p: UniformPool) -> bool {
    &&& p.buffer_size % 4 == 0
    &&& forall|i: int| 0 <= i < p.buffers@.len()
        ==> buffer_size_s(#[trigger] p.buffers@[i]) == p.buffer_size as int
}

impl UniformPool {
    /// An empty pool whose future slots will hold `buffer_size` bytes.
    pub fn new(buffer_size: u64) -> (p: UniformPool)
        requires
            buffer_size % 4 == 0,
        ensures
            pool_wf(p),
            p.buffers@.len() == 0,
            p.buffer_size == buffer_size,
    {
        UniformPool { buffers: Vec::new(), buffer_size }
    }

    /// How many slots the pool currently holds.
    pub fn len(&self) -> (n: usize)
        ensures
            n == self.buffers@.len(),
    {
        self.buffers.len()
    }

    /// Grow the pool to at least `total` slots by appending only the
    /// missing suffix: existing slots are untouched, so the pool never
    /// shrinks and indices stay stable.
    pub fn alloc_buffers(&mut self, total: usize, device: &wgpu::Device)
        requires
            pool_wf(*old(self)),
        ensures
            pool_wf(*final(self)),
            final(self).buffer_size == old(self).buffer_size,
            final(self).buffers@.len()
                >= old(self).buffers@.len(),
            final(self).buffers@.len()
                == if old(self).buffers@.len() >= total {
                    old(self).buffers@.len() as int
                } else {
                    total as int
                },
            final(self).buffers@.subrange(0, old(self).buffers@.len() as int)
                == old(self).buffers@,
    {
        while self.buffers.len() < total
            invariant
                pool_wf(*self),
                self.buffer_size == old(self).buffer_size,
                self.buffers@.len() >= old(self).buffers@.len(),
                old(self).buffers@.len() >= total
                    ==> self.buffers@.len() == old(self).buffers@.len(),
                old(self).buffers@.len() < total ==> self.buffers@.len() <= total,
                self.buffers@.subrange(0, old(self).buffers@.len() as int)
                    == old(self).buffers@,
            decreases total - self.buffers@.len(),
        {
            let b = create_gpu_buffer(device, self.buffer_size, BufferKind::Uniform);
            self.buffers.push(b);
            proof {
                assert(self.buffers@.subrange(0, old(self).buffers@.len() as int)
                    =~= old(self).buffers@);
            }
        }
    }

    /// Write one object's uniform bytes into its slot.  The slot must
    /// exist (callers allocate first) and the data must fill exactly
    /// one slot.
    pub fn update_uniform(&self, index: usize, data: &Vec<u8>, queue: &wgpu::Queue)
        requires
            pool_wf(*self),
            index < self.buffers@.len(),
            data@.len() == self.buffer_size,
    {
        queue_write_buffer(queue, self.buffers.get(index).unwrap(), data);
    }
}

} // verus!
