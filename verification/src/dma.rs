//! DMA-capable buffers.
//!
//! SPDK requires I/O buffers to come from DMA-capable memory (pinned and
//! reachable by NVMe devices). The memory itself is handed out and taken back
//! by SPDK's allocator; a [`DmaBuf`] records where a buffer lies and how long
//! it is, and holds the rules that decide whether an allocation is asked for
//! and whether it succeeded.

use crate::error::Error;
use vstd::prelude::*;

verus! {

/// The message of a request for an empty buffer.
pub open spec fn zero_size_message() -> Seq<char> {
    "size must be > 0"@
}

/// A checked request for a DMA allocation.
#[derive(Debug, Clone, Copy)]
pub struct DmaRequest {
    size: usize,
    align: usize,
    zeroed: bool,
}

impl DmaRequest {
    /// A request is never for an empty buffer.
    #[verifier::type_invariant]
    spec fn well_formed(&self) -> bool {
        self.size > 0
    }

    pub closed spec fn spec_size(&self) -> usize {
        self.size
    }

    pub closed spec fn spec_align(&self) -> usize {
        self.align
    }

    pub closed spec fn spec_zeroed(&self) -> bool {
        self.zeroed
    }

    /// Size in bytes to allocate (never zero).
    pub fn size(&self) -> (r: usize)
        ensures
            r == self.spec_size(),
            r > 0,
    {
        proof {
            use_type_invariant(self);
        }
        self.size
    }

    /// Alignment asked for (a power of two, or zero for the default).
    pub fn align(&self) -> (r: usize)
        ensures
            r == self.spec_align(),
    {
        self.align
    }

    /// Whether the memory is to be zeroed.
    pub fn zeroed(&self) -> (r: bool)
        ensures
            r == self.spec_zeroed(),
    {
        self.zeroed
    }
}

/// A DMA-capable memory buffer for SPDK I/O operations: the address SPDK's
/// allocator returned and the length in bytes.
#[derive(Debug)]
pub struct DmaBuf {
    addr: usize,
    len: usize,
}

impl DmaBuf {
    /// A buffer always lies at a non-null address and is never empty.
    #[verifier::type_invariant]
    spec fn well_formed(&self) -> bool {
        self.addr != 0 && self.len > 0
    }

    pub closed spec fn spec_len(&self) -> usize {
        self.len
    }

    pub closed spec fn spec_addr(&self) -> usize {
        self.addr
    }

    /// Checks a request for `size` bytes aligned to `align`: an empty buffer
    /// is refused before SPDK is asked.
    fn request(size: usize, align: usize, zeroed: bool) -> (r: Result<DmaRequest, Error>)
        ensures
            size == 0 ==> (r matches Err(Error::InvalidArgument(m)) && m@ == zero_size_message()),
            size != 0 ==> (r matches Ok(q) && q.spec_size() == size && q.spec_align() == align
                && q.spec_zeroed() == zeroed),
    {
        if size == 0 {
            return Err(Error::InvalidArgument(String::from_str("size must be > 0")));
        }
        Ok(DmaRequest { size, align, zeroed })
    }

    /// The request that allocating `size` bytes aligned to `align` makes.
    ///
    /// Returns [`Error::InvalidArgument`] when `size` is zero.
    pub fn alloc_request(size: usize, align: usize) -> (r: Result<DmaRequest, Error>)
        ensures
            size == 0 ==> (r matches Err(Error::InvalidArgument(m)) && m@ == zero_size_message()),
            size != 0 ==> (r matches Ok(q) && q.spec_size() == size && q.spec_align() == align
                && !q.spec_zeroed()),
    {
        Self::request(size, align, false)
    }

    /// The request that allocating `size` zeroed bytes aligned to `align`
    /// makes.
    ///
    /// Returns [`Error::InvalidArgument`] when `size` is zero.
    pub fn alloc_zeroed_request(size: usize, align: usize) -> (r: Result<DmaRequest, Error>)
        ensures
            size == 0 ==> (r matches Err(Error::InvalidArgument(m)) && m@ == zero_size_message()),
            size != 0 ==> (r matches Ok(q) && q.spec_size() == size && q.spec_align() == align
                && q.spec_zeroed()),
    {
        Self::request(size, align, true)
    }

    /// The buffer that an allocation gave: SPDK's allocator returns the
    /// buffer's address, or zero when it is out of memory.
    ///
    /// Returns [`Error::DmaAlloc`] with the requested size when the
    /// allocation failed.
    pub fn from_allocation(req: DmaRequest, addr: usize) -> (r: Result<DmaBuf, Error>)
        ensures
            addr == 0 ==> r == Err::<DmaBuf, Error>(Error::DmaAlloc(req.spec_size())),
            addr != 0 ==> (r matches Ok(b) && b.spec_addr() == addr && b.spec_len()
                == req.spec_size()),
    {
        proof {
            use_type_invariant(&req);
        }
        if addr == 0 {
            Err(Error::DmaAlloc(req.size))
        } else {
            Ok(DmaBuf { addr, len: req.size })
        }
    }

    /// Get the buffer length in bytes.
    pub fn len(&self) -> (r: usize)
        ensures
            r == self.spec_len(),
            r > 0,
    {
        proof {
            use_type_invariant(self);
        }
        self.len
    }

    /// Check if the buffer is empty (zero length); a buffer that an
    /// allocation produced never is.
    pub fn is_empty(&self) -> (r: bool)
        ensures
            r == (self.spec_len() == 0),
            !r,
    {
        proof {
            use_type_invariant(self);
        }
        self.len == 0
    }

    /// The address of the buffer, for handing to SPDK as a mutable pointer.
    pub fn as_mut_ptr(&mut self) -> (r: usize)
        ensures
            r == old(self).spec_addr(),
            r != 0,
            final(self).spec_addr() == old(self).spec_addr(),
            final(self).spec_len() == old(self).spec_len(),
    {
        proof {
            use_type_invariant(&*self);
        }
        self.addr
    }

    /// The address of the buffer, for handing to SPDK as a pointer.
    pub fn as_ptr(&self) -> (r: usize)
        ensures
            r == self.spec_addr(),
            r != 0,
    {
        proof {
            use_type_invariant(self);
        }
        self.addr
    }
}

} // verus!
