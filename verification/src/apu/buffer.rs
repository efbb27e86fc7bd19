//! A fixed-size ring of recent samples, used by the channels' debug taps.

use vstd::prelude::*;

verus! {

pub struct RingBuffer {
    data: Vec<i16>,
    index: usize,
    filled: bool,
}

impl RingBuffer {
    pub open spec fn wf(&self) -> bool {
        &&& self.spec_len() >= 1
        &&& self.spec_index() < self.spec_len()
    }

    pub closed spec fn spec_len(&self) -> int {
        self.data.len() as int
    }

    pub closed spec fn spec_index(&self) -> int {
        self.index as int
    }

    /// A ring of `size` zeroed slots (at least one).
    pub fn new(size: usize) -> (r: RingBuffer)
        ensures
            r.wf(),
    {
        let n = if size == 0 {
            1
        } else {
            size
        };
        let mut data: Vec<i16> = Vec::new();
        let mut k: usize = 0;
        while k < n
            invariant
                data.len() == k,
                k <= n,
            decreases n - k,
        {
            data.push(0);
            k = k + 1;
        }
        RingBuffer { data, index: 0, filled: false }
    }

    /// Stores a sample at the write position and advances it, wrapping.
    pub fn push(&mut self, sample: i16)
        requires
            old(self).wf(),
        ensures
            final(self).wf(),
            final(self).spec_len() == old(self).spec_len(),
            final(self).spec_index() == (old(self).spec_index() + 1) % old(self).spec_len(),
    {
        self.data.set(self.index, sample);
        self.index = (self.index + 1) % self.data.len();
        if self.index == 0 {
            self.filled = true;
        }
    }
}

} // verus!
