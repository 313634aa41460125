use sc_executor_wasmedge::memory::{HeapAllocator, LinearMemory, MAX_HEAP_BASE};
use sc_executor_wasmedge::util::{read_memory, read_memory_into, write_memory_from, zero_fill};
use sc_executor_wasmedge::{AllocatorError, Error};

fn is_other(e: &Error, text: &str) -> bool {
    matches!(e, Error::Other(m) if m == text)
}

#[test]
fn reads_copy_the_range() {
    let memory = [1u8, 2, 3, 4, 5, 6];
    let mut dest = [0u8; 3];
    read_memory_into(&memory, 2, &mut dest).unwrap();
    assert_eq!(dest, [3, 4, 5]);
    // The last range that fits.
    read_memory_into(&memory, 3, &mut dest).unwrap();
    assert_eq!(dest, [4, 5, 6]);
    // An empty range at the very end fits too.
    let mut nothing = [0u8; 0];
    read_memory_into(&memory, 6, &mut nothing).unwrap();
    assert_eq!(read_memory(&memory, 1, 4).unwrap(), vec![2, 3, 4, 5]);
    assert_eq!(read_memory(&memory, 6, 0).unwrap(), Vec::<u8>::new());
}

#[test]
fn reads_out_of_bounds_fail_and_leave_the_destination() {
    let memory = [1u8, 2, 3, 4, 5, 6];
    let mut dest = [9u8; 3];
    let e = read_memory_into(&memory, 4, &mut dest).unwrap_err();
    assert!(is_other(&e, "memory read is out of bounds"));
    assert_eq!(dest, [9, 9, 9]);
    let e = read_memory_into(&memory, u32::MAX, &mut dest).unwrap_err();
    assert!(is_other(&e, "memory read is out of bounds"));
    let e = read_memory(&memory, 0, 7).unwrap_err();
    assert!(is_other(&e, "memory read is out of bounds"));
    let e = read_memory(&memory, 7, 0).unwrap_err();
    assert!(is_other(&e, "memory read is out of bounds"));
    let e = read_memory(&memory, 1, usize::MAX).unwrap_err();
    assert!(is_other(&e, "memory read is out of bounds"));
}

#[test]
fn writes_replace_the_range_only() {
    let mut memory = [1u8, 2, 3, 4, 5, 6];
    write_memory_from(&mut memory, 1, &[7, 8]).unwrap();
    assert_eq!(memory, [1, 7, 8, 4, 5, 6]);
    write_memory_from(&mut memory, 4, &[9, 9]).unwrap();
    assert_eq!(memory, [1, 7, 8, 4, 9, 9]);
    write_memory_from(&mut memory, 6, &[]).unwrap();
    assert_eq!(memory, [1, 7, 8, 4, 9, 9]);
}

#[test]
fn writes_out_of_bounds_fail_and_change_nothing() {
    let mut memory = [1u8, 2, 3, 4, 5, 6];
    let e = write_memory_from(&mut memory, 5, &[7, 8]).unwrap_err();
    assert!(is_other(&e, "memory write is out of bounds"));
    assert_eq!(memory, [1, 2, 3, 4, 5, 6]);
    let e = write_memory_from(&mut memory, 7, &[]).unwrap_err();
    assert!(is_other(&e, "memory write is out of bounds"));
}

#[test]
fn zero_fill_clears_every_byte() {
    let mut memory = [1u8, 2, 3];
    zero_fill(&mut memory);
    assert_eq!(memory, [0, 0, 0]);
    let mut nothing: [u8; 0] = [];
    zero_fill(&mut nothing);
}

#[test]
fn a_linear_memory_reads_zero_where_nothing_was_written() {
    let mut memory = LinearMemory::new(2, None).unwrap();
    assert_eq!(memory.len(), 2 * 65536);
    assert_eq!(memory.committed(), 0);
    assert_eq!(memory.read(65530, 10).unwrap(), vec![0u8; 10]);
    memory.write_from(100, &[1, 2, 3]).unwrap();
    assert_eq!(memory.committed(), 103);
    assert_eq!(memory.read(98, 7).unwrap(), vec![0, 0, 1, 2, 3, 0, 0]);
    let mut dest = [9u8; 4];
    memory.read_into(101, &mut dest).unwrap();
    assert_eq!(dest, [2, 3, 0, 0]);
    // The last byte of the memory.
    memory.write_from(2 * 65536 - 1, &[7]).unwrap();
    assert_eq!(memory.read(2 * 65536 - 2, 2).unwrap(), vec![0, 7]);
    assert!(memory.is_well_formed());
}

#[test]
fn a_linear_memory_checks_its_bounds() {
    let mut memory = LinearMemory::new(1, None).unwrap();
    let e = memory.write_from(65535, &[1, 2]).unwrap_err();
    assert!(is_other(&e, "memory write is out of bounds"));
    assert_eq!(memory.committed(), 0);
    let e = memory.read(65536, 1).unwrap_err();
    assert!(is_other(&e, "memory read is out of bounds"));
    let mut dest = [9u8; 2];
    let e = memory.read_into(65535, &mut dest).unwrap_err();
    assert!(is_other(&e, "memory read is out of bounds"));
    assert_eq!(dest, [9, 9]);
    assert_eq!(memory.read(65536, 0).unwrap(), Vec::<u8>::new());
}

#[test]
fn growth_adds_zeroed_pages_and_keeps_what_was_there() {
    let mut memory = LinearMemory::new(1, Some(3)).unwrap();
    memory.write_from(65535, &[5]).unwrap();
    assert_eq!(memory.grow_by(2), Ok(1));
    assert_eq!(memory.size(), 3);
    assert_eq!(memory.read(65535, 3).unwrap(), vec![5, 0, 0]);
    assert_eq!(memory.read(3 * 65536 - 1, 1).unwrap(), vec![0]);
}

#[test]
fn decommit_zeroes_and_keeps_the_size() {
    let mut memory = LinearMemory::new(1, None).unwrap();
    memory.write_from(10, &[1, 2, 3]).unwrap();
    memory.decommit();
    assert_eq!(memory.size(), 1);
    assert_eq!(memory.committed(), 0);
    assert_eq!(memory.read(8, 8).unwrap(), vec![0u8; 8]);
}

#[test]
fn commit_changes_no_byte() {
    let mut memory = LinearMemory::new(1, None).unwrap();
    memory.write_from(3, &[1, 2]).unwrap();
    memory.commit(100);
    assert_eq!(memory.committed(), 100);
    assert_eq!(memory.read(0, 8).unwrap(), vec![0, 0, 0, 1, 2, 0, 0, 0]);
    memory.commit(10);
    assert_eq!(memory.committed(), 100);
}

#[test]
fn the_allocator_hands_out_aligned_room_behind_a_header() {
    let mut memory = LinearMemory::new(1, None).unwrap();
    let mut allocator = HeapAllocator::new(13).unwrap();
    assert_eq!(allocator.heap_base(), 13);
    // The heap starts at 16; the first header takes 8 bytes.
    let first = allocator.allocate(&mut memory, 5).unwrap();
    assert_eq!(first, 24);
    // 5 bytes are rounded up to 8; then comes the next header.
    let second = allocator.allocate(&mut memory, 9).unwrap();
    assert_eq!(second, 40);
    memory.write_from(first, &[1, 2, 3, 4, 5]).unwrap();
    allocator.deallocate(&mut memory, first).unwrap();
    // What was freed is handed out again for the same size.
    let third = allocator.allocate(&mut memory, 8).unwrap();
    assert_eq!(third, first);
    let stats = allocator.stats();
    assert_eq!(stats.bytes_allocated, 16 + 24);
    assert_eq!(stats.address_space_used, 16 + 24);
}

#[test]
fn the_allocator_grows_the_memory_up_to_its_limit() {
    let mut memory = LinearMemory::new(1, Some(2)).unwrap();
    let mut allocator = HeapAllocator::new(0).unwrap();
    // 64 KiB do not fit into one page together with the header.
    let ptr = allocator.allocate(&mut memory, 65536).unwrap();
    assert_eq!(ptr, 8);
    assert_eq!(memory.size(), 2);
    let e = allocator.allocate(&mut memory, 65536).unwrap_err();
    assert!(matches!(e, AllocatorError::AllocatorOutOfSpace));
    assert_eq!(e.to_string(), "Allocator ran out of space");
    assert_eq!(memory.size(), 2);
}

#[test]
fn the_allocator_refuses_what_is_too_large() {
    let mut memory = LinearMemory::new(1, None).unwrap();
    let mut allocator = HeapAllocator::new(0).unwrap();
    let e = allocator.allocate(&mut memory, 32 * 1024 * 1024 + 1).unwrap_err();
    assert!(matches!(e, AllocatorError::RequestedAllocationTooLarge));
    assert_eq!(e.to_string(), "Requested allocation size is too large");
}

#[test]
fn freeing_what_was_never_allocated_fails() {
    let mut memory = LinearMemory::new(1, None).unwrap();
    let mut allocator = HeapAllocator::new(0).unwrap();
    let e = allocator.deallocate(&mut memory, 4).unwrap_err();
    assert!(matches!(e, AllocatorError::Other(_)));
    assert_eq!(e.to_string(), "Other: Invalid pointer for deallocation");
}

#[test]
fn there_is_no_allocator_for_a_heap_at_the_very_end() {
    assert!(HeapAllocator::new(MAX_HEAP_BASE).is_some());
    assert!(HeapAllocator::new(MAX_HEAP_BASE + 1).is_none());
    assert!(HeapAllocator::new(u32::MAX).is_none());
}

#[test]
fn the_allocator_grows_a_memory_that_ends_before_the_heap() {
    let mut memory = LinearMemory::new(0, None).unwrap();
    let mut allocator = HeapAllocator::new(1024).unwrap();
    assert_eq!(allocator.allocate(&mut memory, 8).unwrap(), 1032);
    assert_eq!(memory.size(), 1);
    // A heap that starts behind the first page it gets.
    let mut memory = LinearMemory::new(0, None).unwrap();
    let mut allocator = HeapAllocator::new(3 * 65536).unwrap();
    assert_eq!(allocator.allocate(&mut memory, 8).unwrap(), 3 * 65536 + 8);
    assert_eq!(memory.size(), 4);
    memory.write_from(3 * 65536 + 8, &[1; 8]).unwrap();
    allocator.deallocate(&mut memory, 3 * 65536 + 8).unwrap();
}

#[test]
fn reserving_changes_no_byte() {
    let mut memory = LinearMemory::new(1, Some(2)).unwrap();
    memory.write_from(0, &[1, 2, 3]).unwrap();
    memory.reserve(100);
    assert_eq!(memory.committed(), 100);
    memory.reserve(1 << 40);
    assert_eq!(memory.committed(), 65536);
    assert_eq!(memory.read(0, 4).unwrap(), vec![1, 2, 3, 0]);
    assert_eq!(memory.size(), 1);
}

#[test]
fn the_allocator_notices_a_memory_that_has_shrunk() {
    let mut large = LinearMemory::new(2, None).unwrap();
    let mut small = LinearMemory::new(1, None).unwrap();
    let mut allocator = HeapAllocator::new(0).unwrap();
    allocator.allocate(&mut large, 8).unwrap();
    let e = allocator.allocate(&mut small, 8).unwrap_err();
    assert!(matches!(e, AllocatorError::MemoryShrinked));
    assert_eq!(e.to_string(), "Shrinking of the underlying memory is observed");
    // Nothing was written to it.
    assert_eq!(small.size(), 1);
    assert_eq!(small.read(0, 64).unwrap(), vec![0u8; 64]);
}

#[test]
fn many_allocations_follow_each_other() {
    let mut memory = LinearMemory::new(1, None).unwrap();
    let mut allocator = HeapAllocator::new(0).unwrap();
    for i in 0..200u32 {
        let ptr = allocator.allocate(&mut memory, 1000).unwrap();
        // 1000 bytes are rounded up to 1024; each allocation has its header.
        assert_eq!(ptr, i * 1032 + 8);
        memory.write_from(ptr, &[i as u8; 1000]).unwrap();
    }
    assert_eq!(memory.size(), 4);
    assert_eq!(memory.read(199 * 1032 + 8, 2).unwrap(), vec![199, 199]);
    assert_eq!(allocator.stats().bytes_allocated, 200 * 1032);
}

#[test]
fn reserved_bytes_take_room_as_the_memory_gets_them() {
    let mut memory = LinearMemory::new(1, Some(3)).unwrap();
    memory.reserve(65536 + 100);
    // The memory has one page only.
    assert_eq!(memory.committed(), 65536);
    // Growing the memory by hand leaves the room as it is.
    assert_eq!(memory.grow_by(1), Ok(1));
    assert_eq!(memory.committed(), 65536);
    // Less than what takes room already changes nothing.
    memory.reserve(10);
    assert_eq!(memory.committed(), 65536);
    memory.reserve(65536 + 100);
    assert_eq!(memory.committed(), 65536 + 100);
    assert_eq!(memory.read(65530, 10).unwrap(), vec![0u8; 10]);
}

#[test]
fn the_counters_of_the_allocator_agree() {
    let mut memory = LinearMemory::new(1, None).unwrap();
    let mut allocator = HeapAllocator::new(0).unwrap();
    let a = allocator.allocate(&mut memory, 100).unwrap();
    let b = allocator.allocate(&mut memory, 8).unwrap();
    allocator.deallocate(&mut memory, a).unwrap();
    let stats = allocator.stats();
    // 100 bytes take 128, 8 bytes take 8, each with a header of 8.
    assert_eq!(stats.bytes_allocated, 16);
    assert_eq!(stats.bytes_allocated_peak, 136 + 16);
    assert_eq!(stats.bytes_allocated_sum, 136 + 16);
    assert_eq!(stats.address_space_used, 136 + 16);
    allocator.deallocate(&mut memory, b).unwrap();
    let stats = allocator.stats();
    assert_eq!(stats.bytes_allocated, 0);
    assert_eq!(stats.bytes_allocated_peak, 152);
}

#[test]
fn freeing_turns_the_header_of_an_allocation_into_that_of_free_room() {
    let mut memory = LinearMemory::new(1, None).unwrap();
    let mut allocator = HeapAllocator::new(0).unwrap();
    let ptr = allocator.allocate(&mut memory, 16).unwrap();
    assert_eq!(ptr, 8);
    // The header of an allocation: its order, and bit 32 set.
    assert_eq!(memory.read(0, 8).unwrap(), vec![1, 0, 0, 0, 1, 0, 0, 0]);
    memory.write_from(ptr, &[7; 16]).unwrap();
    allocator.deallocate(&mut memory, ptr).unwrap();
    // The header of free room: the link to the next free room, which there
    // is none of, and nothing in the high half.
    assert_eq!(memory.read(0, 8).unwrap(), vec![0xff, 0xff, 0xff, 0xff, 0, 0, 0, 0]);
    // Nothing else has changed.
    assert_eq!(memory.read(8, 17).unwrap(), [vec![7u8; 16], vec![0]].concat());
    assert_eq!(memory.size(), 1);
}

#[test]
fn freeing_needs_the_header_of_an_allocation() {
    // What was freed already.
    let mut memory = LinearMemory::new(1, None).unwrap();
    let mut allocator = HeapAllocator::new(0).unwrap();
    let ptr = allocator.allocate(&mut memory, 16).unwrap();
    allocator.deallocate(&mut memory, ptr).unwrap();
    let e = allocator.deallocate(&mut memory, ptr).unwrap_err();
    assert_eq!(e.to_string(), "Other: the allocation points to an empty header");
    // A header behind the end of the memory.
    let mut memory = LinearMemory::new(1, None).unwrap();
    let mut allocator = HeapAllocator::new(0).unwrap();
    let e = allocator.deallocate(&mut memory, 65537).unwrap_err();
    assert!(matches!(e, AllocatorError::Other(_)));
    // The last place at which a header fits. The allocator takes the header
    // for that of an allocation of 64 bytes, as many as it has handed out.
    let mut allocator = HeapAllocator::new(0).unwrap();
    allocator.allocate(&mut memory, 64).unwrap();
    memory.write_from(65536 - 8, &[3, 0, 0, 0, 1, 0, 0, 0]).unwrap();
    allocator.deallocate(&mut memory, 65536).unwrap();
    assert_eq!(memory.read(65536 - 4, 4).unwrap(), vec![0; 4]);
    // A memory that has shrunk.
    let mut large = LinearMemory::new(2, None).unwrap();
    let mut small = LinearMemory::new(1, None).unwrap();
    let mut allocator = HeapAllocator::new(0).unwrap();
    let ptr = allocator.allocate(&mut large, 8).unwrap();
    let e = allocator.deallocate(&mut small, ptr).unwrap_err();
    assert!(matches!(e, AllocatorError::MemoryShrinked));
}

#[test]
fn the_allocator_stops_before_its_count_of_bytes_overflows() {
    let size = 32 * 1024 * 1024;
    let mut memory = LinearMemory::new(1, None).unwrap();
    let mut allocator = HeapAllocator::new(0).unwrap();
    let ptr = allocator.allocate(&mut memory, size).unwrap();
    assert_eq!(ptr, 8);
    allocator.deallocate(&mut memory, ptr).unwrap();
    // A guest that forges the header of the freed room, so that the list of
    // free room leads back to it, gets the same room again and again, and
    // each time the allocator counts it once more.
    let mut handed_out = 0u64;
    loop {
        memory.write_from(ptr - 8, &[0; 8]).unwrap();
        match allocator.allocate(&mut memory, size) {
            Ok(again) => {
                assert_eq!(again, ptr);
                handed_out += 1;
            },
            Err(e) => {
                assert!(matches!(e, AllocatorError::AllocatorOutOfSpace));
                break;
            },
        }
        assert!(handed_out < 200);
    }
    assert_eq!(handed_out, 127);
    assert_eq!(allocator.stats().bytes_allocated as u64, 127 * (size as u64 + 8));
    // The allocator itself was not asked, so it still serves what fits.
    assert_eq!(allocator.stats().bytes_allocated_peak as u64, 127 * (size as u64 + 8));
    memory.write_from(ptr - 8, &[22, 0, 0, 0, 1, 0, 0, 0]).unwrap();
    allocator.deallocate(&mut memory, ptr).unwrap();
    assert_eq!(allocator.stats().bytes_allocated as u64, 126 * (size as u64 + 8));
}
