//! Memory regions of an attached process, and the readability query over a
//! cached region table.

use vstd::prelude::*;

verus! {

/// One mapped range of a target process's address space, with its access
/// permissions.  A snapshot taken at attach time; never refreshed behind the
/// caller's back.
#[derive(Clone, Copy, Debug, PartialEq, Eq, Structural)]
pub struct Region {
    /// First address of the range.
    pub from: usize,
    /// Last address of the range.
    pub to: usize,
    /// Whether the range may be read.
    pub read: bool,
    /// Whether the range may be written.
    pub write: bool,
    /// Whether the range may be executed.
    pub execute: bool,
}

/// Whether `address` lies within `r`'s bounds and `r` permits reading.
pub open spec fn region_allows_read(r: Region, address: usize) -> bool {
    r.from <= address && address <= r.to && r.read
}

/// Whether some region of `regions` makes `address` readable.
pub open spec fn regions_allow_read(regions: Seq<Region>, address: usize) -> bool {
    exists|i: int| 0 <= i < regions.len() && region_allows_read(#[trigger] regions[i], address)
}

/// Scans a cached region table: returns true iff some region contains
/// `address` (inclusive on both bounds) with read permission set.
pub fn regions_can_read(regions: &Vec<Region>, address: usize) -> (r: bool)
    ensures
        r == regions_allow_read(regions@, address),
{
    let mut i: usize = 0;
    while i < regions.len()
        invariant
            i <= regions.len(),
            forall|j: int| 0 <= j < i ==> !region_allows_read(#[trigger] regions@[j], address),
        decreases regions.len() - i,
    {
        let rg = regions[i];
        if rg.from <= address && address <= rg.to && rg.read {
            assert(region_allows_read(regions@[i as int], address));
            return true;
        }
        i = i + 1;
    }
    false
}

} // verus!
