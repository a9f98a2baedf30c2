use vstd::prelude::*;
use crate::errors::HostError;

verus! {

/// The linear memory region shared with the guest.
///
/// Guest-supplied offsets and lengths are untrusted: `read` is the single
/// point where they cross into host memory, and it validates every pair
/// against the region's size before touching a byte.
pub struct HostMemory {
    bytes: Vec<u8>,
}

impl View for HostMemory {
    type V = Seq<u8>;

    closed spec fn view(&self) -> Seq<u8> {
        self.bytes@
    }
}

/// Whether a `(offset, length)` pair lies inside a region of `size` bytes.
/// Written without addition on the machine integers, so it holds (and runs)
/// for every pair, however large.
pub fn region_in_bounds(size: u64, offset: u64, length: u64) -> (r: bool)
    ensures
        r <==> offset + length <= size,
{
    length <= size && offset <= size - length
}

impl HostMemory {
    /// A region holding exactly the given bytes.
    pub fn new(bytes: Vec<u8>) -> (r: HostMemory)
        ensures
            r@ == bytes@,
    {
        HostMemory { bytes }
    }

    /// The region's current size in bytes.
    pub fn size(&self) -> (r: usize)
        ensures
            r == self@.len(),
    {
        self.bytes.len()
    }

    /// Bounds-checked read of `length` bytes at `offset`.
    ///
    /// Fails with `MemoryError` exactly when the requested range does not lie
    /// inside the region; on success the result is precisely the bytes of
    /// that range, and nothing outside it is ever touched.
    pub fn read(&self, offset: u64, length: u64) -> (r: Result<Vec<u8>, HostError>)
        ensures
            r is Ok <==> offset + length <= self@.len(),
            r is Ok ==> r->Ok_0@ == self@.subrange(offset as int, offset + length),
            r is Err ==> r->Err_0 == HostError::Memory,
    {
        let size: u64 = self.bytes.len() as u64;
        if !(length <= size && offset <= size - length) {
            return Err(HostError::Memory);
        }
        let off: usize = offset as usize;
        let len: usize = length as usize;
        let mut out: Vec<u8> = Vec::new();
        let mut i: usize = 0;
        while i < len
            invariant
                i <= len,
                off + len <= self.bytes.len(),
                out@ == self@.subrange(off as int, off + i),
            decreases len - i,
        {
            out.push(self.bytes[off + i]);
            proof {
                assert(out@ =~= self@.subrange(off as int, off + i + 1));
            }
            i = i + 1;
        }
        proof {
            assert(out@ =~= self@.subrange(offset as int, offset + length));
        }
        Ok(out)
    }
}

} // verus!
