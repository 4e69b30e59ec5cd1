//! Shared memory files and memory sizes.
use vstd::prelude::*;

verus! {

/// An anonymous shared memory file mapped into the process: its descriptor,
/// the address of the mapping (zero when there is none) and its size.
#[derive(Clone, Copy, Debug, PartialEq, Eq, Structural)]
pub struct MemFd {
    pub fd: i32,
    pub addr: usize,
    pub size: usize,
}

impl MemFd {
    /// No file and no mapping.
    pub open spec fn is_empty_mapping(self) -> bool {
        self.fd == 0 && self.addr == 0 && self.size == 0
    }

    /// Whether there is no mapping.
    pub fn is_null(&self) -> (r: bool)
        ensures
            r == (self.addr == 0),
    {
        self.addr == 0
    }
}

impl Default for MemFd {
    fn default() -> (r: MemFd)
        ensures
            r.is_empty_mapping(),
    {
        MemFd { fd: 0, addr: 0, size: 0 }
    }
}

/// `value` kibibytes, in bytes.
pub fn kilobytes(value: u64) -> (r: u64)
    requires
        value * 1024 <= u64::MAX,
    ensures
        r == value * 1024,
{
    value * 1024
}

/// `value` mebibytes, in bytes.
pub fn megabytes(value: u64) -> (r: u64)
    requires
        value * 1024 * 1024 <= u64::MAX,
    ensures
        r == value * 1024 * 1024,
{
    kilobytes(value) * 1024
}

/// `value` gibibytes, in bytes.
pub fn gigabytes(value: u64) -> (r: u64)
    requires
        value * 1024 * 1024 * 1024 <= u64::MAX,
    ensures
        r == value * 1024 * 1024 * 1024,
{
    megabytes(value) * 1024
}

/// `value` tebibytes, in bytes.
pub fn terabytes(value: u64) -> (r: u64)
    requires
        value * 1024 * 1024 * 1024 * 1024 <= u64::MAX,
    ensures
        r == value * 1024 * 1024 * 1024 * 1024,
{
    gigabytes(value) * 1024
}

} // verus!
