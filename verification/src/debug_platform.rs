//! The debug file services the game may use, as a release build has them:
//! with no file access, reading finds nothing and writing stores nothing.
use vstd::prelude::*;

verus! {

/// Reads a whole file into memory, giving the memory's address and size;
/// a release build reads nothing.
pub fn read_entire_file(filename: &str) -> (r: Option<(usize, i64)>)
    ensures
        r.is_none(),
{
    None
}

/// Writes `memory_size` bytes at `memory` to a file, telling whether it did;
/// a release build writes nothing.
pub fn write_entire_file(filename: &str, memory: usize, memory_size: i64) -> (written: bool)
    ensures
        !written,
{
    false
}

/// Gives back the memory of a file read earlier; a release build holds none.
pub fn free_file_memory(memory: usize, size: i64) {
}

} // verus!
