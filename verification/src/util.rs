//! Bounds-checked access to a region of linear memory.

use crate::error::Error;
use vstd::prelude::*;

verus! {

/// The text of the error that an out-of-bounds read gives.
pub open spec fn read_out_of_bounds() -> Seq<char> {
    "memory read is out of bounds"@
}

/// The text of the error that an out-of-bounds write gives.
pub open spec fn write_out_of_bounds() -> Seq<char> {
    "memory write is out of bounds"@
}

/// `memory` with `data` written over it from position `at` on.
pub open spec fn written(memory: Seq<u8>, at: int, data: Seq<u8>) -> Seq<u8>
    recommends
        0 <= at,
        at + data.len() <= memory.len(),
{
    memory.subrange(0, at) + data + memory.subrange(at + data.len(), memory.len() as int)
}

/// Calls `sc_executor_common::util::checked_range`, which returns the range
/// from `offset` to `offset + len` where that end does not overflow and does
/// not exceed `max`, and nothing otherwise.
#[verifier::external_body]
pub(crate) fn checked_range(offset: usize, len: usize, max: usize) -> (r: Option<(usize, usize)>)
    ensures
        offset + len <= max ==> r == Some((offset, (offset + len) as usize)),
        offset + len > max ==> r.is_none(),
{
    match sc_executor_common::util::checked_range(offset, len, max) {
        Some(range) => Some((range.start, range.end)),
        None => None,
    }
}

/// Copies `dest.len()` bytes of `memory`, from `address` on, into `dest`. Fails,
/// leaving `dest` as it is, where the range does not lie within `memory`.
pub fn read_memory_into(memory: &[u8], address: u32, dest: &mut [u8]) -> (r: Result<(), Error>)
    ensures
        final(dest)@.len() == old(dest)@.len(),
        r.is_ok() == (address + old(dest)@.len() <= memory@.len()),
        r.is_ok() ==> final(dest)@ == memory@.subrange(
            address as int,
            address + old(dest)@.len(),
        ),
        r matches Err(e) ==> final(dest)@ == old(dest)@ && e.is_other(read_out_of_bounds()),
{
    let len: usize = dest.len();
    match checked_range(address as usize, len, memory.len()) {
        None => Err(Error::Other("memory read is out of bounds".to_owned())),
        Some((start, end)) => {
            let mut i: usize = 0;
            while i < len
                invariant
                    dest@.len() == len,
                    i <= len,
                    start + len == end,
                    end <= memory@.len(),
                    forall|j: int| 0 <= j < i ==> dest@[j] == memory@[start + j],
                decreases len - i,
            {
                dest[i] = memory[start + i];
                i += 1;
            }
            assert(dest@ =~= memory@.subrange(start as int, end as int));
            Ok(())
        },
    }
}

/// Copies `data` into `memory` from `address` on. Fails, leaving `memory` as it
/// is, where the range does not lie within `memory`.
pub fn write_memory_from(memory: &mut [u8], address: u32, data: &[u8]) -> (r: Result<(), Error>)
    ensures
        final(memory)@.len() == old(memory)@.len(),
        r.is_ok() == (address + data@.len() <= old(memory)@.len()),
        r.is_ok() ==> final(memory)@ == written(old(memory)@, address as int, data@),
        r matches Err(e) ==> final(memory)@ == old(memory)@ && e.is_other(write_out_of_bounds()),
{
    let len: usize = data.len();
    let ghost before = memory@;
    match checked_range(address as usize, len, memory.len()) {
        None => Err(Error::Other("memory write is out of bounds".to_owned())),
        Some((start, end)) => {
            let mut i: usize = 0;
            while i < len
                invariant
                    data@.len() == len,
                    memory@.len() == before.len(),
                    i <= len,
                    start + len == end,
                    end <= memory@.len(),
                    forall|j: int| 0 <= j < i ==> memory@[start + j] == data@[j],
                    forall|j: int|
                        0 <= j < memory@.len() && !(start <= j < start + i) ==> memory@[j]
                            == before[j],
                decreases len - i,
            {
                memory[start + i] = data[i];
                i += 1;
            }
            assert(memory@ =~= written(before, start as int, data@));
            Ok(())
        },
    }
}

/// Reads `size` bytes of `memory` from `source_addr` on into a new buffer.
/// Fails where the range does not lie within `memory`.
pub fn read_memory(memory: &[u8], source_addr: u32, size: usize) -> (r: Result<Vec<u8>, Error>)
    ensures
        r.is_ok() == (source_addr + size <= memory@.len()),
        r matches Ok(buffer) ==> buffer@ == memory@.subrange(
            source_addr as int,
            source_addr + size,
        ),
        r matches Err(e) ==> e.is_other(read_out_of_bounds()),
{
    match checked_range(source_addr as usize, size, memory.len()) {
        None => Err(Error::Other("memory read is out of bounds".to_owned())),
        Some((start, end)) => {
            let count: usize = end - start;
            let mut buffer: Vec<u8> = vec![0u8; count];
            match read_memory_into(memory, source_addr, buffer.as_mut_slice()) {
                Ok(()) => Ok(buffer),
                Err(e) => Err(e),
            }
        },
    }
}

/// Sets every byte of `memory` to zero.
pub fn zero_fill(memory: &mut [u8])
    ensures
        final(memory)@ == Seq::new(old(memory)@.len(), |i: int| 0u8),
{
    let n: usize = memory.len();
    let mut i: usize = 0;
    while i < n
        invariant
            memory@.len() == n,
            i <= n,
            forall|j: int| 0 <= j < i ==> memory@[j] == 0u8,
        decreases n - i,
    {
        memory[i] = 0u8;
        i += 1;
    }
    assert(memory@ =~= Seq::new(n as nat, |i: int| 0u8));
}

} // verus!
