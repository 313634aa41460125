//! Linear memory: a region of bytes that grows by whole pages and never
//! shrinks, and the heap allocator that carves allocations out of it.

use crate::error::{AllocatorError, Error};
use crate::util;
use sc_allocator::{AllocationStats, FreeingBumpHeapAllocator};
use vstd::prelude::*;

verus! {

/// The number of bytes in one page.
pub const WASM_PAGE_SIZE: usize = 65536;

/// The largest number of pages that a memory can have here: one page less
/// than the 32-bit address space, so that the end of every range of bytes is
/// itself a 32-bit number.
pub const MAX_WASM_PAGES: u32 = 65535;

/// The number of bytes that the allocator puts in front of each allocation.
pub const ALLOCATION_HEADER_SIZE: u32 = 8;

#[verifier::external_type_specification]
#[verifier::external_body]
pub struct ExFreeingBumpHeapAllocator(FreeingBumpHeapAllocator);

#[verifier::external_type_specification]
pub struct ExAllocationStats(AllocationStats);

/// Whether `after` starts with all of `before`: a memory that has not changed
/// where it was, and has not shrunk.
pub open spec fn extends(before: Seq<u8>, after: Seq<u8>) -> bool {
    before.len() <= after.len() && after.subrange(0, before.len() as int) == before
}

/// The number of bytes that take room in a memory of `len` bytes, of which
/// `committed` took room before, once the first `reach` bytes are to take room
/// as far as the memory has them.
pub open spec fn committed_after(committed: nat, reach: u64, len: nat) -> nat {
    let wanted = if reach <= len {
        reach as nat
    } else {
        len
    };
    if wanted > committed {
        wanted
    } else {
        committed
    }
}

/// A sequence of `len` zero bytes.
pub open spec fn zeros(len: nat) -> Seq<u8> {
    Seq::new(len, |i: int| 0u8)
}

/// The number of pages up to which a memory with the declared maximum
/// `maximum` may grow.
pub open spec fn page_limit(maximum: Option<u32>) -> nat {
    match maximum {
        Some(m) => if m <= 65535 {
            m as nat
        } else {
            65535
        },
        None => 65535,
    }
}

/// What a linear memory is to the heap allocator: its bytes, how many of them
/// take room, up to how many pages it may grow, and how many bytes are reserved
/// for the heap.
pub struct MemoryState {
    pub contents: Seq<u8>,
    pub committed: nat,
    pub maximum: Option<u32>,
    pub reserved: u64,
}

/// A linear memory. It stores the bytes from the start up to the last one
/// that was ever written; the bytes behind them are all zero and take no room.
pub struct LinearMemory {
    bytes: Vec<u8>,
    pages: u32,
    maximum: Option<u32>,
    /// How many bytes, from the start, are to take room as soon as the memory
    /// has them.
    reserved: u64,
}

impl View for LinearMemory {
    type V = Seq<u8>;

    closed spec fn view(&self) -> Seq<u8> {
        Seq::new(
            (self.pages * 65536) as nat,
            |i: int|
                if i < self.bytes@.len() {
                    self.bytes@[i]
                } else {
                    0u8
                },
        )
    }
}

impl LinearMemory {
    /// The declared maximum, in pages.
    pub closed spec fn spec_maximum(&self) -> Option<u32> {
        self.maximum
    }

    /// The current size, in pages.
    pub open spec fn spec_pages(&self) -> nat {
        self@.len() / 65536
    }

    /// The number of bytes, from the start, that take room.
    pub closed spec fn spec_committed(&self) -> nat {
        self.bytes@.len()
    }

    /// The number of bytes, from the start, that are to take room as soon as
    /// the memory has them.
    pub closed spec fn spec_reserved(&self) -> u64 {
        self.reserved
    }

    /// What the memory is to the heap allocator.
    pub open spec fn state(&self) -> MemoryState {
        MemoryState {
            contents: self@,
            committed: self.spec_committed(),
            maximum: self.spec_maximum(),
            reserved: self.spec_reserved(),
        }
    }

    /// The memory is made of whole pages and has no more of them than its limit
    /// allows; only bytes of the memory take room.
    pub closed spec fn wf(&self) -> bool {
        &&& self.pages <= page_limit(self.maximum)
        &&& self.bytes@.len() <= self.pages * 65536
    }

    /// What holds of the size of a well-formed memory.
    pub proof fn lemma_size(&self)
        requires
            self.wf(),
        ensures
            self@.len() % 65536 == 0,
            self.spec_pages() <= page_limit(self.spec_maximum()),
            self.spec_pages() <= 65535,
            self@.len() <= u32::MAX,
            self.spec_committed() <= self@.len(),
            forall|i: int| self.spec_committed() <= i < self@.len() ==> self@[i] == 0u8,
    {
        let pages = self.pages as int;
        assert((pages * 65536) % 65536 == 0 && (pages * 65536) / 65536 == pages)
            by (nonlinear_arith);
    }

    /// A memory of `initial` zeroed pages that may grow up to `maximum` pages.
    /// There is none where `initial` exceeds the limit.
    pub fn new(initial: u32, maximum: Option<u32>) -> (r: Option<LinearMemory>)
        ensures
            r.is_some() == (initial <= page_limit(maximum)),
            r matches Some(m) ==> {
                &&& m.wf()
                &&& m.spec_maximum() == maximum
                &&& m.spec_pages() == initial
                &&& m.spec_committed() == 0
                &&& m.spec_reserved() == 0
                &&& m@ == zeros((initial * 65536) as nat)
            },
    {
        let limit: u32 = match maximum {
            Some(m) => if m <= MAX_WASM_PAGES {
                m
            } else {
                MAX_WASM_PAGES
            },
            None => MAX_WASM_PAGES,
        };
        if initial > limit {
            return None;
        }
        let memory = LinearMemory { bytes: Vec::new(), pages: initial, maximum, reserved: 0 };
        proof {
            memory.lemma_size();
            assert(memory@ =~= zeros((initial * 65536) as nat));
            assert((initial as int * 65536) / 65536 == initial) by (nonlinear_arith);
        }
        Some(memory)
    }

    /// The current size, in pages.
    pub fn size(&self) -> (r: u32)
        requires
            self.wf(),
        ensures
            r == self.spec_pages(),
    {
        proof {
            let pages = self.pages as int;
            assert((pages * 65536) / 65536 == pages) by (nonlinear_arith);
        }
        self.pages
    }

    /// The current size, in bytes.
    pub fn len(&self) -> (r: usize)
        requires
            self.wf(),
        ensures
            r == self@.len(),
    {
        (self.pages as u64 * 65536) as usize
    }

    /// The number of bytes, from the start, that take room.
    pub fn committed(&self) -> (r: usize)
        ensures
            r == self.spec_committed(),
    {
        self.bytes.len()
    }

    /// The declared maximum, in pages.
    pub fn maximum(&self) -> (r: Option<u32>)
        ensures
            r == self.spec_maximum(),
    {
        self.maximum
    }

    /// Whether the memory is well formed.
    pub fn is_well_formed(&self) -> (r: bool)
        ensures
            r == self.wf(),
    {
        let limit: u32 = match self.maximum {
            Some(m) => if m <= MAX_WASM_PAGES {
                m
            } else {
                MAX_WASM_PAGES
            },
            None => MAX_WASM_PAGES,
        };
        self.pages <= limit && self.bytes.len() as u64 <= self.pages as u64 * 65536
    }

    /// Grows the memory by `additional` zeroed pages and returns the size that
    /// it had before. Fails, leaving the memory as it is, where the new size
    /// would exceed the limit.
    pub fn grow_by(&mut self, additional: u32) -> (r: Result<u32, ()>)
        requires
            old(self).wf(),
        ensures
            final(self).wf(),
            final(self).spec_maximum() == old(self).spec_maximum(),
            final(self).spec_committed() == old(self).spec_committed(),
            final(self).spec_reserved() == old(self).spec_reserved(),
            r.is_ok() == (old(self).spec_pages() + additional <= page_limit(
                old(self).spec_maximum(),
            )),
            r matches Ok(previous) ==> {
                &&& previous == old(self).spec_pages()
                &&& final(self).spec_pages() == old(self).spec_pages() + additional
                &&& final(self)@ == old(self)@ + zeros((additional * 65536) as nat)
            },
            r.is_err() ==> final(self)@ == old(self)@,
    {
        let previous: u32 = self.size();
        let limit: u32 = match self.maximum {
            Some(m) => if m <= MAX_WASM_PAGES {
                m
            } else {
                MAX_WASM_PAGES
            },
            None => MAX_WASM_PAGES,
        };
        if additional > limit - previous {
            return Err(());
        }
        let ghost before = self@;
        self.pages = previous + additional;
        proof {
            let pages = self.pages as int;
            assert((pages * 65536) / 65536 == pages) by (nonlinear_arith);
            assert(pages * 65536 == previous * 65536 + additional * 65536) by (nonlinear_arith)
                requires
                    pages == previous + additional,
            ;
            assert(self@ =~= before + zeros((additional * 65536) as nat));
        }
        Ok(previous)
    }

    /// Makes the first `len` bytes of the memory take room. What the memory
    /// holds stays as it is.
    pub fn commit(&mut self, len: usize)
        requires
            old(self).wf(),
            len <= old(self)@.len(),
        ensures
            final(self).wf(),
            final(self).spec_maximum() == old(self).spec_maximum(),
            final(self)@ == old(self)@,
            final(self).spec_reserved() == old(self).spec_reserved(),
            final(self).spec_committed() == if len > old(self).spec_committed() {
                len as nat
            } else {
                old(self).spec_committed()
            },
    {
        let ghost before = self@;
        if len > self.bytes.len() {
            self.bytes.resize(len, 0u8);
        }
        assert(self@ =~= before);
    }

    /// Makes the first `reach` bytes of the memory take room, as far as the
    /// memory has them, now and whenever it grows for the heap allocator. What
    /// the memory holds stays as it is.
    pub fn reserve(&mut self, reach: u64)
        requires
            old(self).wf(),
        ensures
            final(self).wf(),
            final(self).spec_maximum() == old(self).spec_maximum(),
            final(self)@ == old(self)@,
            final(self).spec_reserved() == reach,
            final(self).spec_committed() == committed_after(
                old(self).spec_committed(),
                reach,
                old(self)@.len(),
            ),
    {
        self.reserved = reach;
        let ghost before = self@;
        let len: usize = self.len();
        if reach <= len as u64 {
            self.commit(reach as usize);
        } else {
            self.commit(len);
        }
    }

    /// Copies `dest.len()` bytes from `address` on into `dest`. Fails, leaving
    /// `dest` as it is, where the range does not lie within the memory.
    pub fn read_into(&self, address: u32, dest: &mut [u8]) -> (r: Result<(), Error>)
        requires
            self.wf(),
        ensures
            final(dest)@.len() == old(dest)@.len(),
            r.is_ok() == (address + old(dest)@.len() <= self@.len()),
            r.is_ok() ==> final(dest)@ == self@.subrange(
                address as int,
                address + old(dest)@.len(),
            ),
            r matches Err(e) ==> final(dest)@ == old(dest)@ && e.is_other(
                util::read_out_of_bounds(),
            ),
    {
        let len: usize = dest.len();
        match util::checked_range(address as usize, len, self.len()) {
            None => Err(Error::Other("memory read is out of bounds".to_owned())),
            Some((start, end)) => {
                let committed: usize = self.bytes.len();
                let mut i: usize = 0;
                while i < len
                    invariant
                        self.wf(),
                        dest@.len() == len,
                        committed == self.bytes@.len(),
                        i <= len,
                        start + len == end,
                        end <= self@.len(),
                        forall|j: int| 0 <= j < i ==> dest@[j] == self@[start + j],
                    decreases len - i,
                {
                    dest[i] = if start + i < committed {
                        self.bytes[start + i]
                    } else {
                        0u8
                    };
                    i += 1;
                }
                assert(dest@ =~= self@.subrange(start as int, end as int));
                Ok(())
            },
        }
    }

    /// Reads `size` bytes from `address` on into a new buffer. Fails where the
    /// range does not lie within the memory.
    pub fn read(&self, address: u32, size: usize) -> (r: Result<Vec<u8>, Error>)
        requires
            self.wf(),
        ensures
            r.is_ok() == (address + size <= self@.len()),
            r matches Ok(buffer) ==> buffer@ == self@.subrange(address as int, address + size),
            r matches Err(e) ==> e.is_other(util::read_out_of_bounds()),
    {
        match util::checked_range(address as usize, size, self.len()) {
            None => Err(Error::Other("memory read is out of bounds".to_owned())),
            Some((start, end)) => {
                let count: usize = end - start;
                let mut buffer: Vec<u8> = vec![0u8; count];
                match self.read_into(address, buffer.as_mut_slice()) {
                    Ok(()) => Ok(buffer),
                    Err(e) => Err(e),
                }
            },
        }
    }

    /// Copies `data` into the memory from `address` on. Fails, leaving the
    /// memory as it is, where the range does not lie within the memory.
    pub fn write_from(&mut self, address: u32, data: &[u8]) -> (r: Result<(), Error>)
        requires
            old(self).wf(),
        ensures
            final(self).wf(),
            final(self).spec_maximum() == old(self).spec_maximum(),
            final(self)@.len() == old(self)@.len(),
            final(self).spec_reserved() == old(self).spec_reserved(),
            r.is_ok() == (address + data@.len() <= old(self)@.len()),
            r.is_ok() ==> final(self)@ == util::written(old(self)@, address as int, data@)
                && final(self).spec_committed() == committed_after(
                old(self).spec_committed(),
                (address + data@.len()) as u64,
                old(self)@.len(),
            ),
            r matches Err(e) ==> final(self)@ == old(self)@
                && final(self).spec_committed() == old(self).spec_committed()
                && e.is_other(util::write_out_of_bounds()),
    {
        let ghost before = self@;
        match util::checked_range(address as usize, data.len(), self.len()) {
            None => Err(Error::Other("memory write is out of bounds".to_owned())),
            Some((start, end)) => {
                self.commit(end);
                let ghost stored = self.bytes@;
                match util::write_memory_from(self.bytes.as_mut_slice(), address, data) {
                    Ok(()) => {
                        assert(self.bytes@ == util::written(stored, address as int, data@));
                        assert(self@ =~= util::written(before, address as int, data@));
                        Ok(())
                    },
                    Err(e) => Err(e),
                }
            },
        }
    }

    /// Gives the room of the memory back: afterwards every byte reads as zero.
    /// The size stays as it is.
    pub fn decommit(&mut self)
        requires
            old(self).wf(),
        ensures
            final(self).wf(),
            final(self).spec_maximum() == old(self).spec_maximum(),
            final(self).spec_committed() == 0,
            final(self).spec_reserved() == 0,
            final(self)@ == zeros(old(self)@.len()),
    {
        self.bytes = Vec::new();
        self.reserved = 0;
        assert(self@ =~= zeros(old(self)@.len()));
    }
}

/// What the heap allocator needs of a memory: access to its bytes, its size
/// and limit in pages, and growth. The allocator gets the bytes that take room;
/// `HeapAllocator` sees to it that these are the bytes that the allocator looks
/// at. A memory that is not well formed reports no pages and does not grow.
impl sc_allocator::Memory for LinearMemory {
    /// `sc_allocator::Memory::with_access_mut`: runs the allocator's closure
    /// on the bytes that take room. The closure gets a slice, so it can change
    /// bytes and cannot change the size.
    #[verifier::external_body]
    fn with_access_mut<R>(&mut self, run: impl FnOnce(&mut [u8]) -> R) -> R {
        run(self.bytes.as_mut_slice())
    }

    /// `sc_allocator::Memory::with_access`: runs the allocator's closure on
    /// the bytes that take room.
    #[verifier::external_body]
    fn with_access<R>(&self, run: impl FnOnce(&[u8]) -> R) -> R {
        run(self.bytes.as_slice())
    }

    /// `sc_allocator::Memory::grow`: grows a well-formed memory by
    /// `additional` zeroed pages, where its limit allows that, and lets the
    /// bytes that are reserved take room in the memory that has grown. Fails
    /// otherwise, and leaves the memory as it is.
    fn grow(&mut self, additional: u32) -> (r: Result<(), ()>)
        ensures
            final(self).wf() == old(self).wf(),
            final(self).spec_maximum() == old(self).spec_maximum(),
            final(self).spec_reserved() == old(self).spec_reserved(),
            r.is_ok() == (old(self).wf() && old(self).spec_pages() + additional <= page_limit(
                old(self).spec_maximum(),
            )),
            r.is_ok() ==> {
                &&& final(self)@ == old(self)@ + zeros((additional * 65536) as nat)
                &&& final(self).spec_committed() == committed_after(
                    old(self).spec_committed(),
                    old(self).spec_reserved(),
                    final(self)@.len(),
                )
            },
            r.is_err() ==> final(self)@ == old(self)@
                && final(self).spec_committed() == old(self).spec_committed(),
    {
        if !self.is_well_formed() {
            return Err(());
        }
        match self.grow_by(additional) {
            Ok(_) => {
                // The allocator writes a header at the end of the heap next.
                let reach: u64 = self.reserved;
                self.reserve(reach);
                Ok(())
            },
            Err(_) => Err(()),
        }
    }

    /// `sc_allocator::Memory::pages`: the size of a well-formed memory in
    /// pages; no pages for one that is not well formed.
    fn pages(&self) -> (r: u32)
        ensures
            r == if self.wf() {
                self.spec_pages()
            } else {
                0
            },
    {
        if self.is_well_formed() {
            self.size()
        } else {
            0
        }
    }

    /// `sc_allocator::Memory::max_pages`: the number of pages up to which the
    /// memory may grow.
    fn max_pages(&self) -> (r: Option<u32>)
        ensures
            r == Some(page_limit(self.spec_maximum()) as u32),
    {
        match self.maximum {
            Some(m) => if m <= MAX_WASM_PAGES {
                Some(m)
            } else {
                Some(MAX_WASM_PAGES)
            },
            None => Some(MAX_WASM_PAGES),
        }
    }
}

/// The largest heap base that the allocator can round up to its alignment
/// of 8 within 32 bits.
pub const MAX_HEAP_BASE: u32 = 0xffff_fff8;

/// The most that one allocation adds to the number of bytes allocated: the
/// largest allocation of 32 MiB and its header.
pub const MAX_ALLOCATION_STEP: u32 = 33_554_440;

/// The largest number of bytes allocated at which one more allocation still
/// fits into the 32 bits in which the allocator counts them.
pub const MAX_BYTES_ALLOCATED: u32 = 4_261_412_855;

/// The allocator that is made for a heap that starts at `heap_base`.
pub uninterp spec fn new_allocator_at(heap_base: u32) -> FreeingBumpHeapAllocator;

/// The counters that an allocator has kept.
pub uninterp spec fn counters_of(allocator: FreeingBumpHeapAllocator) -> AllocationStats;

/// The pointer that an allocator returns when `size` bytes are asked of it on
/// a memory with these bytes, of which `committed` take room, that may grow up
/// to `maximum` pages and has `reserved` bytes reserved for the heap; nothing
/// where the allocator fails.
pub uninterp spec fn allocated_at(
    allocator: FreeingBumpHeapAllocator,
    contents: Seq<u8>,
    committed: nat,
    maximum: Option<u32>,
    reserved: u64,
    size: u32,
) -> Option<u32>;

/// Whether an allocator frees the allocation at `ptr` on a memory with these
/// bytes, of which `committed` take room, that may grow up to `maximum` pages
/// and has `reserved` bytes reserved for the heap.
pub uninterp spec fn freed_at(
    allocator: FreeingBumpHeapAllocator,
    contents: Seq<u8>,
    committed: nat,
    maximum: Option<u32>,
    reserved: u64,
    ptr: u32,
) -> bool;

/// Calls `sc_allocator::FreeingBumpHeapAllocator::new`, which makes an
/// allocator whose heap starts at `heap_base`, rounded up to a multiple of 8.
/// As its source shows, the counters of the new allocator are all zero.
#[verifier::external_body]
pub(crate) fn allocator_new(heap_base: u32) -> (r: FreeingBumpHeapAllocator)
    requires
        heap_base <= MAX_HEAP_BASE,
    ensures
        r == new_allocator_at(heap_base),
        counters_of(r).bytes_allocated == 0,
        counters_of(r).address_space_used == 0,
{
    FreeingBumpHeapAllocator::new(heap_base)
}

/// Calls `sc_allocator::FreeingBumpHeapAllocator::allocate`. The allocator
/// reads and writes the memory through the impl of `sc_allocator::Memory`
/// above. As its source shows: it grows the memory where the heap needs more
/// room and never shrinks it. On failure it has written nothing, so the bytes
/// that the memory had are as they were. On success it returns a pointer at
/// least 8 bytes into the memory, `size` bytes from the pointer on lie within
/// the memory, and of the bytes that the memory had only the 8 in front of the
/// pointer, where the allocator keeps the header of the allocation, may have
/// changed. The allocator counts the bytes that are allocated in 32 bits and
/// adds at most 32 MiB and 8 bytes for one allocation; a count to which this
/// cannot be added is left out. What the allocator returns depends on the
/// allocator and on what the memory gives it, and on nothing else.
#[verifier::external_body]
pub(crate) fn heap_allocate(
    allocator: &mut FreeingBumpHeapAllocator,
    memory: &mut LinearMemory,
    size: u32,
) -> (r: Result<u32, AllocatorError>)
    requires
        old(memory).wf(),
        counters_of(*old(allocator)).bytes_allocated <= MAX_BYTES_ALLOCATED,
    ensures
        r.is_ok() == allocated_at(
            *old(allocator),
            old(memory)@,
            old(memory).spec_committed(),
            old(memory).spec_maximum(),
            old(memory).spec_reserved(),
            size,
        ).is_some(),
        r matches Ok(ptr) ==> allocated_at(
            *old(allocator),
            old(memory)@,
            old(memory).spec_committed(),
            old(memory).spec_maximum(),
            old(memory).spec_reserved(),
            size,
        ) == Some(ptr),
        final(memory).wf(),
        final(memory).spec_maximum() == old(memory).spec_maximum(),
        old(memory)@.len() <= final(memory)@.len(),
        r is Err ==> extends(old(memory)@, final(memory)@),
        r matches Ok(ptr) ==> {
            &&& ALLOCATION_HEADER_SIZE <= ptr
            &&& ptr + size <= final(memory)@.len()
            &&& forall|i: int|
                0 <= i < old(memory)@.len() && !(ptr - ALLOCATION_HEADER_SIZE <= i < ptr)
                    ==> final(memory)@[i] == old(memory)@[i]
        },
{
    match allocator.allocate(memory, size) {
        Ok(ptr) => Ok(u32::from(ptr)),
        Err(sc_allocator::Error::RequestedAllocationTooLarge) => Err(
            AllocatorError::RequestedAllocationTooLarge,
        ),
        Err(sc_allocator::Error::AllocatorOutOfSpace) => Err(AllocatorError::AllocatorOutOfSpace),
        Err(sc_allocator::Error::MemoryShrinked) => Err(AllocatorError::MemoryShrinked),
        Err(sc_allocator::Error::Other(text)) => Err(AllocatorError::Other(text.to_string())),
    }
}

/// Whether the header in front of `ptr` is that of an allocation: the
/// allocator keeps a header of 8 bytes, a 64-bit number with the low byte
/// first, whose bit 32 is set while the room behind it is allocated.
pub open spec fn is_allocated(memory: Seq<u8>, ptr: int) -> bool
    recommends
        ALLOCATION_HEADER_SIZE <= ptr <= memory.len(),
{
    memory[ptr - 4] & 1u8 == 1u8
}

/// Whether the header in front of `ptr` is that of free room: the high half
/// of the 64-bit number is zero.
pub open spec fn is_free(memory: Seq<u8>, ptr: int) -> bool
    recommends
        ALLOCATION_HEADER_SIZE <= ptr <= memory.len(),
{
    forall|i: int| ptr - 4 <= i < ptr ==> memory[i] == 0u8
}

/// Calls `sc_allocator::FreeingBumpHeapAllocator::deallocate`. As its source
/// shows: it never changes the size of the memory; whether it succeeds or
/// fails, only the 8 bytes in front of `ptr`, the header of the allocation, may
/// have changed. It succeeds only where the header lies within the memory and
/// is that of an allocation, and then leaves the header of free room there.
/// Where it fails, the error is that the memory has shrunk, or one that is
/// described by its message. Whether it succeeds depends on the allocator and
/// on what the memory gives it, and on nothing else.
#[verifier::external_body]
pub(crate) fn heap_deallocate(
    allocator: &mut FreeingBumpHeapAllocator,
    memory: &mut LinearMemory,
    ptr: u32,
) -> (r: Result<(), AllocatorError>)
    requires
        old(memory).wf(),
    ensures
        r.is_ok() == freed_at(
            *old(allocator),
            old(memory)@,
            old(memory).spec_committed(),
            old(memory).spec_maximum(),
            old(memory).spec_reserved(),
            ptr,
        ),
        final(memory).wf(),
        final(memory).spec_maximum() == old(memory).spec_maximum(),
        final(memory)@.len() == old(memory)@.len(),
        r is Ok ==> {
            &&& ALLOCATION_HEADER_SIZE <= ptr <= old(memory)@.len()
            &&& is_allocated(old(memory)@, ptr as int)
            &&& is_free(final(memory)@, ptr as int)
        },
        r matches Err(e) ==> e is MemoryShrinked || e is Other,
        forall|i: int|
            0 <= i < old(memory)@.len() && !(ptr - ALLOCATION_HEADER_SIZE <= i < ptr)
                ==> final(memory)@[i] == old(memory)@[i],
{
    match allocator.deallocate(memory, sp_wasm_interface::Pointer::new(ptr)) {
        Ok(()) => Ok(()),
        Err(sc_allocator::Error::RequestedAllocationTooLarge) => Err(
            AllocatorError::RequestedAllocationTooLarge,
        ),
        Err(sc_allocator::Error::AllocatorOutOfSpace) => Err(AllocatorError::AllocatorOutOfSpace),
        Err(sc_allocator::Error::MemoryShrinked) => Err(AllocatorError::MemoryShrinked),
        Err(sc_allocator::Error::Other(text)) => Err(AllocatorError::Other(text.to_string())),
    }
}

/// Whether the counters can be those of an allocator: the number of bytes
/// that are allocated is at most the peak that this number ever reached, and
/// the peak is at most the sum of all allocations ever made.
pub open spec fn counters_agree(stats: AllocationStats) -> bool {
    &&& stats.bytes_allocated <= stats.bytes_allocated_peak
    &&& stats.bytes_allocated_peak <= stats.bytes_allocated_sum
}

/// Calls `sc_allocator::FreeingBumpHeapAllocator::stats`, which returns the
/// counters that the allocator has kept. As its source shows, an allocation
/// adds its size to the number of bytes allocated and to the sum, and raises
/// the peak to the number of bytes allocated where that is more; freeing only
/// lowers the number of bytes allocated. So the counters agree.
#[verifier::external_body]
pub(crate) fn allocation_stats(allocator: &FreeingBumpHeapAllocator) -> (r: AllocationStats)
    ensures
        r == counters_of(*allocator),
        counters_agree(r),
{
    allocator.stats()
}

/// The heap allocator of a call, with the base of its heap.
pub struct HeapAllocator {
    inner: FreeingBumpHeapAllocator,
    heap_base: u32,
}

impl HeapAllocator {
    /// Where the heap starts.
    pub closed spec fn spec_heap_base(&self) -> u32 {
        self.heap_base
    }

    /// The outside allocator that does the work.
    pub closed spec fn spec_inner(&self) -> FreeingBumpHeapAllocator {
        self.inner
    }

    /// The allocator that `new` makes for a heap that starts at `heap_base`.
    pub closed spec fn spec_new(heap_base: u32) -> HeapAllocator {
        HeapAllocator { inner: new_allocator_at(heap_base), heap_base }
    }

    /// The counters that the allocator has kept.
    pub open spec fn spec_stats(&self) -> AllocationStats {
        counters_of(self.spec_inner())
    }

    /// How far the headers of the heap reach at most: to the end of the heap
    /// and the header that may come there.
    pub open spec fn reach(&self) -> u64 {
        (self.spec_heap_base() + 7 + self.spec_stats().address_space_used
            + ALLOCATION_HEADER_SIZE) as u64
    }

    /// The pointer that `allocate` returns for `size` bytes on a memory in the
    /// state `memory`; nothing where it fails. It fails where the allocator has
    /// counted so many bytes that one more allocation may not fit into its
    /// count. Otherwise the outside allocator decides, on the memory in which
    /// the bytes up to the end of the heap are reserved and take room.
    pub open spec fn allocation(&self, memory: MemoryState, size: u32) -> Option<u32> {
        if self.spec_stats().bytes_allocated > MAX_BYTES_ALLOCATED {
            None
        } else {
            allocated_at(
                self.spec_inner(),
                memory.contents,
                committed_after(memory.committed, self.reach(), memory.contents.len()),
                memory.maximum,
                self.reach(),
                size,
            )
        }
    }

    /// Whether `deallocate` frees the allocation at `ptr` on a memory in the
    /// state `memory`. The outside allocator decides, on the memory in which
    /// the bytes in front of `ptr` are reserved and take room.
    pub open spec fn freeing(&self, memory: MemoryState, ptr: u32) -> bool {
        freed_at(
            self.spec_inner(),
            memory.contents,
            committed_after(memory.committed, ptr as u64, memory.contents.len()),
            memory.maximum,
            ptr as u64,
            ptr,
        )
    }

    /// What holds of a new allocator.
    pub proof fn lemma_new(heap_base: u32)
        ensures
            Self::spec_new(heap_base).spec_heap_base() == heap_base,
            Self::spec_new(heap_base).spec_inner() == new_allocator_at(heap_base),
    {
    }

    /// The allocator for a heap that starts at `heap_base`, with all its
    /// counters at zero. There is none for a heap base so close to the end of
    /// the address space that it cannot be aligned.
    pub fn new(heap_base: u32) -> (r: Option<HeapAllocator>)
        ensures
            r.is_some() == (heap_base <= MAX_HEAP_BASE),
            r matches Some(allocator) ==> allocator == Self::spec_new(heap_base)
                && allocator.spec_heap_base() == heap_base
                && allocator.spec_stats().bytes_allocated == 0
                && allocator.spec_stats().address_space_used == 0,
    {
        if heap_base > MAX_HEAP_BASE {
            None
        } else {
            Some(HeapAllocator { inner: allocator_new(heap_base), heap_base })
        }
    }

    /// Where the heap starts.
    pub fn heap_base(&self) -> (r: u32)
        ensures
            r == self.spec_heap_base(),
    {
        self.heap_base
    }

    /// Allocates `size` bytes on the heap in `memory` and returns the pointer
    /// to them: the one that `allocation` gives, or an error where it gives
    /// none. Where the allocator has counted so many bytes that one more
    /// allocation may not fit into its count, the heap is out of space and
    /// nothing changes. The memory may grow for an allocation and never
    /// shrinks. On failure the bytes that the memory had are as they were. On
    /// success the pointer is at least 8 bytes into the memory, `size` bytes
    /// from the pointer on lie within the memory, and of the bytes that the
    /// memory had only the 8 in front of the pointer may have changed.
    pub fn allocate(&mut self, memory: &mut LinearMemory, size: u32) -> (r: Result<
        u32,
        AllocatorError,
    >)
        requires
            old(memory).wf(),
        ensures
            final(self).spec_heap_base() == old(self).spec_heap_base(),
            final(memory).wf(),
            final(memory).spec_maximum() == old(memory).spec_maximum(),
            old(memory)@.len() <= final(memory)@.len(),
            r.is_ok() == old(self).allocation(old(memory).state(), size).is_some(),
            r matches Ok(ptr) ==> old(self).allocation(old(memory).state(), size) == Some(ptr),
            old(self).spec_stats().bytes_allocated > MAX_BYTES_ALLOCATED ==> (
            r matches Err(AllocatorError::AllocatorOutOfSpace)) && *final(self) == *old(self)
                && final(memory).state() == old(memory).state(),
            r is Err ==> extends(old(memory)@, final(memory)@),
            r matches Ok(ptr) ==> {
                &&& ALLOCATION_HEADER_SIZE <= ptr
                &&& ptr + size <= final(memory)@.len()
                &&& forall|i: int|
                    0 <= i < old(memory)@.len() && !(ptr - ALLOCATION_HEADER_SIZE <= i < ptr)
                        ==> final(memory)@[i] == old(memory)@[i]
            },
    {
        let stats = allocation_stats(&self.inner);
        if stats.bytes_allocated > MAX_BYTES_ALLOCATED {
            assert(memory@.subrange(0, memory@.len() as int) =~= memory@);
            return Err(AllocatorError::AllocatorOutOfSpace);
        }
        // The allocator looks at the headers of its allocations only. They lie
        // in front of the end of the heap, the last one at most at the end.
        let reach: u64 = self.heap_base as u64 + 7 + stats.address_space_used as u64
            + ALLOCATION_HEADER_SIZE as u64;
        memory.reserve(reach);
        heap_allocate(&mut self.inner, memory, size)
    }

    /// Frees the allocation at `ptr`, where `freeing` says so. The size of the
    /// memory stays as it is, and only the 8 bytes in front of `ptr`, the
    /// header of the allocation, may change. It succeeds only where the header
    /// lies within the memory and is that of an allocation, and then leaves the
    /// header of free room there. Where it fails, the error is that the memory
    /// has shrunk, or one that is described by its message.
    pub fn deallocate(&mut self, memory: &mut LinearMemory, ptr: u32) -> (r: Result<
        (),
        AllocatorError,
    >)
        requires
            old(memory).wf(),
        ensures
            final(self).spec_heap_base() == old(self).spec_heap_base(),
            final(memory).wf(),
            final(memory).spec_maximum() == old(memory).spec_maximum(),
            final(memory)@.len() == old(memory)@.len(),
            r.is_ok() == old(self).freeing(old(memory).state(), ptr),
            r is Ok ==> {
                &&& ALLOCATION_HEADER_SIZE <= ptr <= old(memory)@.len()
                &&& is_allocated(old(memory)@, ptr as int)
                &&& is_free(final(memory)@, ptr as int)
            },
            r matches Err(e) ==> e is MemoryShrinked || e is Other,
            forall|i: int|
                0 <= i < old(memory)@.len() && !(ptr - ALLOCATION_HEADER_SIZE <= i < ptr)
                    ==> final(memory)@[i] == old(memory)@[i],
    {
        // The header of the allocation lies in front of `ptr`.
        memory.reserve(ptr as u64);
        heap_deallocate(&mut self.inner, memory, ptr)
    }

    /// The counters that the allocator has kept: the number of bytes that are
    /// allocated now, the peak of that number, the sum of all allocations, and
    /// the address space that the heap takes.
    pub fn stats(&self) -> (r: AllocationStats)
        ensures
            r == self.spec_stats(),
            counters_agree(r),
    {
        allocation_stats(&self.inner)
    }
}

} // verus!
