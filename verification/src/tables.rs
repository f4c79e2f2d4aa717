//! The fixed-capacity tables of address ranges that the stage-2 configuration keeps.

use arrayvec::ArrayVec;
use vstd::prelude::*;

use crate::stage2::Stage2Range;

verus! {

/// The vector of `arrayvec`: a sequence of at most `CAP` items, held in place.
#[verifier::external_type_specification]
#[verifier::external_body]
#[verifier::reject_recursive_types(T)]
pub struct ExArrayVec<T, const CAP: usize>(ArrayVec<T, CAP>);

/// The ranges in a table of handled ranges, in order.
pub uninterp spec fn handled_ranges(table: ArrayVec<Stage2Range, 16>) -> Seq<Stage2Range>;

/// The ranges in a table of allowed ranges, in order.
pub uninterp spec fn allowed_ranges(table: ArrayVec<Stage2Range, 32>) -> Seq<Stage2Range>;

/// Calls `ArrayVec::new`: the vector is empty.
#[verifier::external_body]
pub(crate) fn new_handled_table() -> (table: ArrayVec<Stage2Range, 16>)
    ensures
        handled_ranges(table) == Seq::<Stage2Range>::empty(),
{
    ArrayVec::new()
}

/// Calls `ArrayVec::len`: the number of items, which the capacity bounds.
#[verifier::external_body]
pub(crate) fn handled_len(table: &ArrayVec<Stage2Range, 16>) -> (len: usize)
    ensures
        len == handled_ranges(*table).len(),
        len <= 16,
{
    table.len()
}

/// Calls `ArrayVec::is_full`: whether there are as many items as the capacity allows.
#[verifier::external_body]
pub(crate) fn handled_is_full(table: &ArrayVec<Stage2Range, 16>) -> (full: bool)
    ensures
        full == (handled_ranges(*table).len() == 16),
{
    table.is_full()
}

/// Indexes the slice that `ArrayVec` dereferences to: the item at `index`.
#[verifier::external_body]
pub(crate) fn handled_at(table: &ArrayVec<Stage2Range, 16>, index: usize) -> (range: Stage2Range)
    requires
        index < handled_ranges(*table).len(),
    ensures
        range == handled_ranges(*table)[index as int],
{
    table[index]
}

/// Calls `ArrayVec::insert`: `range` is at `index` afterwards, and what was there and after it moves
/// up by one. A full vector or an index beyond its end would panic.
#[verifier::external_body]
pub(crate) fn handled_insert(
    table: &mut ArrayVec<Stage2Range, 16>,
    index: usize,
    range: Stage2Range,
)
    requires
        index <= handled_ranges(*old(table)).len() < 16,
    ensures
        handled_ranges(*final(table)) == handled_ranges(*old(table)).insert(index as int, range),
{
    table.insert(index, range)
}

/// Calls `ArrayVec::new`: the vector is empty.
#[verifier::external_body]
pub(crate) fn new_allowed_table() -> (table: ArrayVec<Stage2Range, 32>)
    ensures
        allowed_ranges(table) == Seq::<Stage2Range>::empty(),
{
    ArrayVec::new()
}

/// Calls `ArrayVec::len`: the number of items, which the capacity bounds.
#[verifier::external_body]
pub(crate) fn allowed_len(table: &ArrayVec<Stage2Range, 32>) -> (len: usize)
    ensures
        len == allowed_ranges(*table).len(),
        len <= 32,
{
    table.len()
}

/// Calls `ArrayVec::is_full`: whether there are as many items as the capacity allows.
#[verifier::external_body]
pub(crate) fn allowed_is_full(table: &ArrayVec<Stage2Range, 32>) -> (full: bool)
    ensures
        full == (allowed_ranges(*table).len() == 32),
{
    table.is_full()
}

/// Indexes the slice that `ArrayVec` dereferences to: the item at `index`.
#[verifier::external_body]
pub(crate) fn allowed_at(table: &ArrayVec<Stage2Range, 32>, index: usize) -> (range: Stage2Range)
    requires
        index < allowed_ranges(*table).len(),
    ensures
        range == allowed_ranges(*table)[index as int],
{
    table[index]
}

/// Calls `ArrayVec::push`: `range` is added behind the other items. A full vector would panic.
#[verifier::external_body]
pub(crate) fn allowed_push(table: &mut ArrayVec<Stage2Range, 32>, range: Stage2Range)
    requires
        allowed_ranges(*old(table)).len() < 32,
    ensures
        allowed_ranges(*final(table)) == allowed_ranges(*old(table)).push(range),
{
    table.push(range)
}

} // verus!
