//! The durable counter that issues record identifiers.

use crate::memory::Regions;
use ic_stable_structures::memory_manager::{MemoryId, VirtualMemory};
use ic_stable_structures::{Cell, DefaultMemoryImpl};
use vstd::prelude::*;

verus! {

/// The counter: a stable `Cell` that holds the next identifier to issue as
/// a `u64`, living in one region of stable memory. The verifier sees none of
/// it; the number it holds goes by the name `cell_value`, the region it
/// lives in by the name `cell_region`.
#[verifier::external_body]
pub struct IdCell {
    inner: Cell<u64, VirtualMemory<DefaultMemoryImpl>>,
}

/// The number that a cell holds.
pub uninterp spec fn cell_value(cell: IdCell) -> u64;

/// The number of the region that a cell was loaded from and writes to.
pub uninterp spec fn cell_region(cell: IdCell) -> u8;

/// Calls `Cell::init` on the region numbered `region`, which `MemoryManager::get`
/// hands out: it loads the number that the region holds, or writes `first`
/// to a region that holds no cell. The cell keeps that region. Nothing is
/// claimed of the number: it is whatever an earlier run left. `MemoryId::new`
/// refuses 255, the manager's mark of an unused bucket. A region written in
/// a layout that this version cannot read stops the process.
#[verifier::external_body]
pub(crate) fn cell_load(regions: &Regions, region: u8, first: u64) -> (cell: IdCell)
    requires
        region != 255,
    ensures
        cell_region(cell) == region,
{
    IdCell { inner: Cell::init(regions.inner.get(MemoryId::new(region)), first) }
}

/// Calls `Cell::get`, which returns the number that the cell holds, and
/// does not unwind.
#[verifier::external_body]
pub(crate) fn cell_get(cell: &IdCell) -> (value: u64)
    ensures
        value == cell_value(*cell),
    no_unwind
{
    *cell.inner.get()
}

/// Calls `Cell::set`, which writes `value` to the cell's region and returns
/// the number that the cell held before. The call is taken not to unwind: a
/// loaded cell has the room for a number, so the write does not grow the
/// memory.
#[verifier::external_body]
pub(crate) fn cell_set(cell: &mut IdCell, value: u64) -> (before: u64)
    ensures
        cell_value(*final(cell)) == value,
        cell_region(*final(cell)) == cell_region(*old(cell)),
        before == cell_value(*old(cell)),
    no_unwind
{
    cell.inner.set(value)
}

impl IdCell {
    /// Issues the next identifier: the number that the cell holds, which then
    /// moves on by one. A cell that holds the largest number is exhausted:
    /// it issues nothing and stays as it is.
    pub fn next(&mut self) -> (issued: Option<u64>)
        ensures
            match issued {
                Some(id) => id == cell_value(*old(self)) && cell_value(*final(self)) == id + 1,
                None => cell_value(*old(self)) == u64::MAX && *final(self) == *old(self),
            },
            cell_region(*final(self)) == cell_region(*old(self)),
        no_unwind
    {
        let current: u64 = cell_get(self);
        if current == u64::MAX {
            None
        } else {
            Some(cell_set(self, current + 1))
        }
    }

    /// The identifier that `next` would issue.
    pub fn peek(&self) -> (value: u64)
        ensures
            value == cell_value(*self),
    {
        cell_get(self)
    }
}

} // verus!
