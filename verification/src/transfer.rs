use crate::record::ParticleRecord;
use vstd::prelude::*;

verus! {

/// A copy of `count` consecutive records from one region of device memory to another.
///
/// Offsets and the count are in records, not bytes.
#[derive(Clone, Copy, Debug, PartialEq, Eq, Structural)]
pub struct Transfer {
    /// Index of the first record read in the source.
    pub src_offset: u64,
    /// Index of the first record written in the destination.
    pub dst_offset: u64,
    /// Number of records copied.
    pub count: u64,
}

impl Transfer {
    /// Whether the copy stays inside a source of `src_len` and a destination of `dst_len`
    /// records.
    pub open spec fn fits(self, src_len: nat, dst_len: nat) -> bool {
        &&& self.src_offset + self.count <= src_len
        &&& self.dst_offset + self.count <= dst_len
    }

    /// The destination after the copy: the records of the source in the range written,
    /// and what the destination held everywhere else.
    pub open spec fn spec_apply<T>(self, src: Seq<T>, dst: Seq<T>) -> Seq<T> {
        Seq::new(
            dst.len(),
            |i: int|
                if self.dst_offset <= i < self.dst_offset + self.count {
                    src[i - self.dst_offset + self.src_offset]
                } else {
                    dst[i]
                },
        )
    }

    /// Carries the copy out on host memory. Returns `false`, and leaves `dst` as it was,
    /// when the copy does not fit.
    pub fn apply(&self, src: &Vec<ParticleRecord>, dst: &mut Vec<ParticleRecord>) -> (done: bool)
        ensures
            done == self.fits(src@.len(), old(dst)@.len()),
            done ==> final(dst)@ == self.spec_apply(src@, old(dst)@),
            !done ==> final(dst)@ == old(dst)@,
    {
        let src_len: u64 = src.len() as u64;
        let dst_len: u64 = dst.len() as u64;
        if self.count > src_len || self.src_offset > src_len - self.count {
            return false;
        }
        if self.count > dst_len || self.dst_offset > dst_len - self.count {
            return false;
        }
        let ghost before = dst@;
        let mut k: u64 = 0;
        while k < self.count
            invariant
                k <= self.count,
                self.fits(src@.len(), before.len()),
                dst@.len() == before.len(),
                src@.len() <= usize::MAX,
                before.len() <= usize::MAX,
                forall|i: int|
                    0 <= i < before.len() ==> #[trigger] dst@[i] == if self.dst_offset <= i
                        < self.dst_offset + k {
                        src@[i - self.dst_offset + self.src_offset]
                    } else {
                        before[i]
                    },
            decreases self.count - k,
        {
            let record = src[(self.src_offset + k) as usize];
            dst.set((self.dst_offset + k) as usize, record);
            k = k + 1;
        }
        assert(dst@ =~= self.spec_apply(src@, before));
        true
    }
}

} // verus!
