//! Heap statistics.

use vstd::prelude::*;

verus! {

/// Heap statistics as the allocator reports them.
#[derive(Debug, Clone, Copy)]
pub struct HeapStats {
    /// Total heap arena size in bytes
    pub arena: i32,
    /// Number of free chunks
    pub ordblks: i32,
    /// Size of largest free chunk
    pub mxordblk: i32,
    /// Total allocated space in bytes
    pub uordblks: i32,
    /// Total free space in bytes
    pub fordblks: i32,
}

/// Heap usage where no allocator statistics are available: always 0.
pub fn get_heap_used() -> (used: i32)
    ensures
        used == 0,
{
    0
}

/// Heap statistics where no allocator statistics are available: always `None`.
pub fn get_heap_stats() -> (stats: Option<HeapStats>)
    ensures
        stats is None,
{
    None
}


impl HeapStats {
    /// The statistics of an allocator that does not report the largest
    /// free chunk: that field is 0.
    pub fn without_largest_chunk(arena: i32, ordblks: i32, uordblks: i32, fordblks: i32) -> (stats:
        HeapStats)
        ensures
            stats == (HeapStats { arena, ordblks, mxordblk: 0, uordblks, fordblks }),
    {
        HeapStats { arena, ordblks, mxordblk: 0, uordblks, fordblks }
    }
}

/// Measurement result for a single allocation
#[derive(Debug, Clone, Copy)]
pub struct Measurement {
    /// What was allocated.
    pub name: &'static str,
    /// Heap usage before the allocation, in bytes.
    pub heap_before: i32,
    /// Heap usage after the allocation, in bytes.
    pub heap_after: i32,
}

impl Measurement {
    /// The bytes that the allocation took: usage after it less usage before.
    pub fn allocated(&self) -> (bytes: i32)
        requires
            i32::MIN <= self.heap_after - self.heap_before <= i32::MAX,
        ensures
            bytes == self.heap_after - self.heap_before,
    {
        self.heap_after - self.heap_before
    }
}

} // verus!
