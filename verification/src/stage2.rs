//! Stage-2 access policy: which guest memory is mapped, and which is emulated.

use arrayvec::ArrayVec;
use vstd::prelude::*;
use vstd::seq_lib::to_multiset_insert;

pub use crate::memory_access::MemoryAccessWidth;
use crate::page_table::{
    has_no_address_bits, is_active, is_identity, is_range_mapped, is_valid_mapping, map_pages,
    mapped_pages, mapping_outcome, new_map, MapError, Stage2Map, PAGE_SIZE,
};
use crate::tables::{
    allowed_at, allowed_is_full, allowed_len, allowed_push, allowed_ranges, handled_at,
    handled_insert, handled_is_full, handled_len, handled_ranges, new_allowed_table,
    new_handled_table,
};

verus! {

/// The maximum number of stage-2 memory access handler regions.
pub const MAX_MEMORY_ACCESS_HANDLERS: usize = 16;

/// The maximum number of ranges that the guest can be allowed to access directly.
pub const MAX_ALLOWED_RANGES: usize = 32;

const STAGE2_PAGE_SIZE: u64 = 4096;

/// Error returned when building the stage-2 access policy.
#[derive(Clone, Debug, Eq, PartialEq, Structural)]
pub enum Stage2ConfigError {
    /// The range base IPA is not aligned to the stage-2 page size.
    RangeBaseNotPageAligned,
    /// The range size is zero.
    EmptyRange,
    /// The range size is not a multiple of the stage-2 page size.
    RangeSizeNotPageMultiple,
    /// The range end IPA overflows.
    RangeEndOverflow,
    /// The configured range cannot be represented by the page table API.
    RangeAddressNotRepresentable,
    /// The stage-2 allowed range table is full.
    TooManyAllowedRanges,
    /// The memory access handler registry is full.
    TooManyMemoryAccessHandlerRegions,
    /// A stage-2 allowed range overlaps another allowed range.
    AllowedRangeOverlap,
    /// A memory access handler range overlaps another handler range.
    MemoryAccessHandlerRangeOverlap,
    /// A stage-2 allowed range overlaps a memory access handler range.
    AllowedRangeOverlapsMemoryAccessHandler,
    /// The page table mapping operation failed.
    MapRange(MapError),
}

/// Optional callbacks for a stage-2 memory access handler region.
#[derive(Clone, Copy)]
pub struct MemoryAccessHandler<R, W> {
    /// Callback used to emulate reads from the region.
    pub read: Option<R>,
    /// Callback used to emulate writes to the region.
    pub write: Option<W>,
}

impl<R, W> MemoryAccessHandler<R, W> {
    /// Creates a handler with both read and write callbacks.
    pub fn read_write(read: R, write: W) -> (handler: Self)
        ensures
            handler.read == Some(read),
            handler.write == Some(write),
    {
        MemoryAccessHandler { read: Some(read), write: Some(write) }
    }
}

/// Description of a guest memory read access handled by emulation.
#[derive(Clone, Copy, Debug, Eq, PartialEq, Structural)]
pub struct MemoryReadAccess {
    /// The faulting intermediate physical address.
    pub ipa: u64,
    /// The byte offset from the start of the handled region.
    pub offset: u64,
    /// The access width decoded from the trapped instruction syndrome.
    pub width: MemoryAccessWidth,
}

/// Description of a guest memory write access handled by emulation.
#[derive(Clone, Copy, Debug, Eq, PartialEq, Structural)]
pub struct MemoryWriteAccess {
    /// The faulting intermediate physical address.
    pub ipa: u64,
    /// The byte offset from the start of the handled region.
    pub offset: u64,
    /// The access width decoded from the trapped instruction syndrome.
    pub width: MemoryAccessWidth,
    /// The value written by the guest, masked to the access width.
    pub value: u64,
}

/// Result returned by a read handler.
#[derive(Clone, Copy, Debug, Eq, PartialEq, Structural)]
pub enum MemoryReadResult {
    /// The read was handled and should return this value to the guest.
    Value(u64),
    /// The read should be injected back to the guest as a data abort.
    Fault,
}

/// Result returned by a write handler.
#[derive(Clone, Copy, Debug, Eq, PartialEq, Structural)]
pub enum MemoryWriteResult {
    /// The write was handled successfully.
    Handled,
    /// The write should be injected back to the guest as a data abort.
    Fault,
}

/// Whether `ipa` is in the range from `base` up to and without `end`.
pub open spec fn in_range(ipa: int, base: int, end: int) -> bool {
    base <= ipa < end
}

/// Whether some address is in both ranges.
pub open spec fn ranges_share_address(
    first_base: int,
    first_end: int,
    second_base: int,
    second_end: int,
) -> bool {
    exists|ipa: int| #[trigger]
        in_range(ipa, first_base, first_end) && in_range(ipa, second_base, second_end)
}

/// Two ranges that are not empty share an address exactly if each of them begins before the other
/// ends: in either order, if one contains the other, and not if they only touch.
pub proof fn lemma_ranges_share_address(
    first_base: int,
    first_end: int,
    second_base: int,
    second_end: int,
)
    requires
        first_base < first_end,
        second_base < second_end,
    ensures
        ranges_share_address(first_base, first_end, second_base, second_end) <==> first_base
            < second_end && second_base < first_end,
        ranges_share_address(first_base, first_end, second_base, second_end)
            == ranges_share_address(second_base, second_end, first_base, first_end),
        first_end == second_base ==> !ranges_share_address(
            first_base,
            first_end,
            second_base,
            second_end,
        ),
        first_base <= second_base && second_end <= first_end ==> ranges_share_address(
            first_base,
            first_end,
            second_base,
            second_end,
        ),
{
    if first_base < second_end && second_base < first_end {
        let ipa = if first_base <= second_base {
            second_base
        } else {
            first_base
        };
        assert(in_range(ipa, first_base, first_end) && in_range(ipa, second_base, second_end));
        assert(in_range(ipa, second_base, second_end) && in_range(ipa, first_base, first_end));
    }
}

/// Whether a range of `size` bytes from `base_ipa` on can be configured, and if not, why.
pub open spec fn range_outcome(base_ipa: u64, size: usize) -> Result<
    Stage2Range,
    Stage2ConfigError,
> {
    if base_ipa as int % PAGE_SIZE as int != 0 {
        Err(Stage2ConfigError::RangeBaseNotPageAligned)
    } else if size == 0 {
        Err(Stage2ConfigError::EmptyRange)
    } else if size as int % PAGE_SIZE as int != 0 {
        Err(Stage2ConfigError::RangeSizeNotPageMultiple)
    } else if base_ipa + size > u64::MAX {
        Err(Stage2ConfigError::RangeEndOverflow)
    } else {
        Ok(Stage2Range { base_ipa, size, end_ipa: (base_ipa + size) as u64 })
    }
}

/// A page-aligned range of guest memory.
#[derive(Clone, Copy, Debug, Eq, PartialEq, Structural)]
pub struct Stage2Range {
    /// The first IPA of the range.
    pub base_ipa: u64,
    /// The size of the range in bytes.
    pub size: usize,
    /// The first IPA after the range.
    pub end_ipa: u64,
}

impl Stage2Range {
    /// The range is not empty, consists of whole pages and does not wrap around.
    pub open spec fn wf(self) -> bool {
        range_outcome(self.base_ipa, self.size) == Ok::<_, Stage2ConfigError>(self)
    }

    /// Whether `ipa` is in the range.
    pub open spec fn contains(self, ipa: int) -> bool {
        in_range(ipa, self.base_ipa as int, self.end_ipa as int)
    }

    /// Whether the range has an address in common with another one.
    pub open spec fn shares_address_with(self, other: Stage2Range) -> bool {
        ranges_share_address(
            self.base_ipa as int,
            self.end_ipa as int,
            other.base_ipa as int,
            other.end_ipa as int,
        )
    }

    /// Creates the range of `size` bytes from `base_ipa` on.
    pub fn new(base_ipa: u64, size: usize) -> (range: Result<Self, Stage2ConfigError>)
        ensures
            range == range_outcome(base_ipa, size),
            range matches Ok(range) ==> range.base_ipa == base_ipa && range.size == size
                && range.end_ipa == base_ipa + size,
    {
        match validate_range(base_ipa, size) {
            Ok(()) => {},
            Err(error) => return Err(error),
        }
        match checked_range_end(base_ipa, size) {
            Ok(end_ipa) => Ok(Stage2Range { base_ipa, size, end_ipa }),
            Err(error) => Err(error),
        }
    }

    fn overlaps(self, other: Self) -> (overlaps: bool)
        requires
            self.wf(),
            other.wf(),
        ensures
            overlaps == self.shares_address_with(other),
    {
        page_ranges_overlap(self.base_ipa, self.end_ipa, other.base_ipa, other.end_ipa)
    }
}

/// Stage-2 byte range handled by memory access callbacks.
#[derive(Clone, Copy)]
pub struct MemoryAccessRegion<R, W> {
    /// The first IPA covered by this region.
    pub base_ipa: u64,
    /// The size of the region in bytes.
    pub size: usize,
    /// The callbacks used to emulate accesses to the region.
    pub handler: MemoryAccessHandler<R, W>,
    /// The end of the region, as recorded when the region was made.
    pub end_ipa: u64,
}

impl<R, W> MemoryAccessRegion<R, W> {
    /// The range that the region covers.
    pub open spec fn range(self) -> Stage2Range {
        Stage2Range {
            base_ipa: self.base_ipa,
            size: self.size,
            end_ipa: self.end_ipa,
        }
    }

    /// The region that covers `range`.
    pub open spec fn over(range: Stage2Range, handler: MemoryAccessHandler<R, W>) -> Self {
        MemoryAccessRegion {
            base_ipa: range.base_ipa,
            size: range.size,
            handler,
            end_ipa: range.end_ipa,
        }
    }

    fn new(range: Stage2Range, handler: MemoryAccessHandler<R, W>) -> (region: Self)
        ensures
            region == Self::over(range, handler),
    {
        MemoryAccessRegion {
            base_ipa: range.base_ipa,
            size: range.size,
            handler,
            end_ipa: range.end_ipa,
        }
    }

    /// Returns the first IPA after the end of the region.
    pub fn end_ipa(self) -> (end: u64)
        ensures
            end == if self.base_ipa + self.size <= u64::MAX {
                (self.base_ipa + self.size) as u64
            } else {
                self.end_ipa
            },
    {
        match checked_range_end(self.base_ipa, self.size) {
            Ok(end) => end,
            Err(_) => self.end_ipa,
        }
    }

    /// Returns the byte offset of `ipa` from the start of the region.
    pub fn offset_of(self, ipa: u64) -> (offset: u64)
        requires
            self.base_ipa <= ipa,
        ensures
            offset == ipa - self.base_ipa,
    {
        ipa - self.base_ipa
    }

    fn overlaps_range(self, range: Stage2Range) -> (overlaps: bool)
        requires
            self.range().wf(),
            range.wf(),
        ensures
            overlaps == self.range().shares_address_with(range),
    {
        page_ranges_overlap(self.base_ipa, self.end_ipa, range.base_ipa, range.end_ipa)
    }
}

/// Match returned for a handled stage-2 memory access.
#[derive(Clone, Copy)]
pub struct MemoryAccessHandlerMatch<R, W> {
    /// The matched memory access handler region.
    pub region: MemoryAccessRegion<R, W>,
    /// The byte offset of the access from the start of the region.
    pub offset: u64,
}

/// Whether `regions` are regions over well-formed ranges, in the order of their addresses, that do
/// not overlap.
pub open spec fn regions_ordered<R, W>(regions: Seq<MemoryAccessRegion<R, W>>) -> bool {
    &&& forall|i: int| 0 <= i < regions.len() ==> (#[trigger] regions[i]).range().wf()
    &&& forall|i: int, j: int|
        #![trigger regions[i], regions[j]]
        0 <= i < j < regions.len() ==> regions[i].range().end_ipa <= regions[j].base_ipa
}

/// Whether one of `regions` covers `ipa`.
pub open spec fn some_region_contains<R, W>(
    regions: Seq<MemoryAccessRegion<R, W>>,
    ipa: int,
) -> bool {
    exists|i: int| 0 <= i < regions.len() && (#[trigger] regions[i]).range().contains(ipa)
}

/// The region that covers `ipa`, and the offset of `ipa` in it.
pub open spec fn region_lookup<R, W>(
    regions: Seq<MemoryAccessRegion<R, W>>,
    ipa: u64,
) -> Option<MemoryAccessHandlerMatch<R, W>> {
    if some_region_contains(regions, ipa as int) {
        let i = choose|i: int|
            0 <= i < regions.len() && (#[trigger] regions[i]).range().contains(ipa as int);
        Some(
            MemoryAccessHandlerMatch {
                region: regions[i],
                offset: (ipa - regions[i].base_ipa) as u64,
            },
        )
    } else {
        None
    }
}

/// In regions that do not overlap, at most one covers an address, and it is the one that is found.
pub proof fn lemma_region_lookup<R, W>(
    regions: Seq<MemoryAccessRegion<R, W>>,
    index: int,
    ipa: u64,
)
    requires
        regions_ordered(regions),
        0 <= index < regions.len(),
        regions[index].range().contains(ipa as int),
    ensures
        region_lookup(regions, ipa) == Some(
            MemoryAccessHandlerMatch {
                region: regions[index],
                offset: (ipa - regions[index].base_ipa) as u64,
            },
        ),
        forall|other: int|
            0 <= other < regions.len() && other != index ==> !(
            #[trigger] regions[other]).range().contains(ipa as int),
{
}

/// Registry of stage-2 memory access handler regions.
pub struct MemoryAccessHandlerRegistry<R, W> {
    ranges: ArrayVec<Stage2Range, 16>,
    handlers: Vec<MemoryAccessHandler<R, W>>,
}

impl<R, W> MemoryAccessHandlerRegistry<R, W> {
    /// The registered regions.
    pub closed spec fn regions(self) -> Seq<MemoryAccessRegion<R, W>> {
        Seq::new(
            handled_ranges(self.ranges).len(),
            |i: int| MemoryAccessRegion::over(handled_ranges(self.ranges)[i], self.handlers@[i]),
        )
    }

    /// Each range has a handler.
    pub closed spec fn is_complete(self) -> bool {
        self.handlers@.len() == handled_ranges(self.ranges).len()
    }

    /// The regions are well-formed, ordered and disjoint, and there are not too many.
    pub open spec fn wf(self) -> bool {
        &&& self.is_complete()
        &&& regions_ordered(self.regions())
        &&& self.regions().len() <= MAX_MEMORY_ACCESS_HANDLERS
    }

    /// Creates an empty registry.
    pub fn new() -> (registry: Self)
        ensures
            registry.wf(),
            registry.regions() == Seq::<MemoryAccessRegion<R, W>>::empty(),
    {
        MemoryAccessHandlerRegistry { ranges: new_handled_table(), handlers: Vec::new() }
    }
}

impl<R: Copy, W: Copy> MemoryAccessHandlerRegistry<R, W> {
    /// Returns the registered region at position `index`.
    fn region(&self, index: usize) -> (region: MemoryAccessRegion<R, W>)
        requires
            self.wf(),
            index < self.regions().len(),
        ensures
            region == self.regions()[index as int],
    {
        MemoryAccessRegion::new(handled_at(&self.ranges, index), self.handlers[index])
    }

    /// Returns the number of registered regions.
    fn len(&self) -> (len: usize)
        ensures
            len == self.regions().len(),
    {
        handled_len(&self.ranges)
    }

    /// Registers `region`, in the order of addresses.
    ///
    /// # Errors
    ///
    /// Returns an error if the registry is full or the region overlaps a registered one.
    pub fn register(&mut self, region: MemoryAccessRegion<R, W>) -> (result: Result<
        (),
        Stage2ConfigError,
    >)
        requires
            old(self).wf(),
            region.range().wf(),
        ensures
            final(self).wf(),
            result == registration_outcome(old(self).regions(), region.range()),
            result is Err ==> final(self).regions() == old(self).regions(),
            result is Ok ==> is_insertion(old(self).regions(), region, final(self).regions()),
    {
        if handled_is_full(&self.ranges) {
            return Err(Stage2ConfigError::TooManyMemoryAccessHandlerRegions);
        }
        let len: usize = self.len();
        let mut index: usize = 0;
        while index < len
            invariant
                self.wf(),
                region.range().wf(),
                index <= len == self.regions().len(),
                *self == *old(self),
                len < MAX_MEMORY_ACCESS_HANDLERS,
                forall|i: int|
                    0 <= i < index ==> !region.range().shares_address_with(
                        (#[trigger] self.regions()[i]).range(),
                    ),
            decreases len - index,
        {
            let existing = self.region(index);
            if page_ranges_overlap(
                region.base_ipa,
                region.end_ipa,
                existing.base_ipa,
                existing.end_ipa,
            ) {
                return Err(Stage2ConfigError::MemoryAccessHandlerRangeOverlap);
            }
            index = index + 1;
        }
        let mut insert_at: usize = 0;
        while insert_at < len && self.region(insert_at).base_ipa < region.base_ipa
            invariant
                self.wf(),
                *self == *old(self),
                insert_at <= len == self.regions().len(),
                len < MAX_MEMORY_ACCESS_HANDLERS,
                forall|i: int|
                    0 <= i < insert_at ==> (#[trigger] self.regions()[i]).base_ipa
                        < region.base_ipa,
            ensures
                insert_at < len ==> region.base_ipa <= self.regions()[insert_at as int].base_ipa,
            decreases len - insert_at,
        {
            insert_at = insert_at + 1;
        }
        let range = Stage2Range {
            base_ipa: region.base_ipa,
            size: region.size,
            end_ipa: region.end_ipa,
        };
        handled_insert(&mut self.ranges, insert_at, range);
        self.handlers.insert(insert_at, region.handler);
        proof {
            let before = old(self).regions();
            assert(self.regions() == before.insert(insert_at as int, region));
            assert forall|i: int| 0 <= i < before.len() implies {
                &&& i < insert_at ==> (#[trigger] before[i]).range().end_ipa <= region.base_ipa
                &&& i >= insert_at ==> region.range().end_ipa <= before[i].base_ipa
            } by {
                lemma_ranges_share_address(
                    region.base_ipa as int,
                    region.end_ipa as int,
                    before[i].base_ipa as int,
                    before[i].end_ipa as int,
                );
            }
        }
        Ok(())
    }

    /// Finds the registered memory access handler for `ipa`.
    pub fn find(&self, ipa: u64) -> (found: Option<MemoryAccessHandlerMatch<R, W>>)
        requires
            self.wf(),
        ensures
            found == region_lookup(self.regions(), ipa),
    {
        let mut low: usize = 0;
        let mut high: usize = self.len();
        while low < high
            invariant
                self.wf(),
                low <= high <= self.regions().len(),
                forall|i: int|
                    0 <= i < low ==> (#[trigger] self.regions()[i]).range().end_ipa <= ipa,
                forall|i: int|
                    high <= i < self.regions().len() ==> ipa < (
                    #[trigger] self.regions()[i]).base_ipa,
            decreases high - low,
        {
            let middle: usize = low + (high - low) / 2;
            let region = self.region(middle);
            if ipa < region.base_ipa {
                high = middle;
            } else if ipa >= region.end_ipa() {
                low = middle + 1;
            } else {
                proof {
                    lemma_region_lookup(self.regions(), middle as int, ipa);
                }
                return Some(MemoryAccessHandlerMatch { region, offset: region.offset_of(ipa) });
            }
        }
        None
    }
}

/// Whether a region over `range` can be added to `regions`, and if not, why.
pub open spec fn registration_outcome<R, W>(
    regions: Seq<MemoryAccessRegion<R, W>>,
    range: Stage2Range,
) -> Result<(), Stage2ConfigError> {
    if regions.len() == MAX_MEMORY_ACCESS_HANDLERS {
        Err(Stage2ConfigError::TooManyMemoryAccessHandlerRegions)
    } else if exists|i: int|
        0 <= i < regions.len() && range.shares_address_with((#[trigger] regions[i]).range()) {
        Err(Stage2ConfigError::MemoryAccessHandlerRangeOverlap)
    } else {
        Ok(())
    }
}

/// Whether `after` is `before` with `region` at one position.
pub open spec fn is_insertion<R, W>(
    before: Seq<MemoryAccessRegion<R, W>>,
    region: MemoryAccessRegion<R, W>,
    after: Seq<MemoryAccessRegion<R, W>>,
) -> bool {
    exists|at: int| 0 <= at <= before.len() && after == #[trigger] before.insert(at, region)
}

/// What a stage-2 configuration lets the guest do.
#[verifier::ext_equal]
#[verifier::reject_recursive_types(R)]
#[verifier::reject_recursive_types(W)]
pub struct Stage2Policy<R, W> {
    /// The ranges that the guest may access directly.
    pub allowed: Seq<Stage2Range>,
    /// The regions in which accesses are emulated.
    pub regions: Seq<MemoryAccessRegion<R, W>>,
    /// The mapped pages by number, with the physical pages and the attributes of their mappings.
    pub mapped: Map<int, (int, usize)>,
}

/// Whether no address of `range` is in one of `ranges`.
pub open spec fn is_apart_from(range: Stage2Range, ranges: Seq<Stage2Range>) -> bool {
    forall|i: int| 0 <= i < ranges.len() ==> !range.shares_address_with(#[trigger] ranges[i])
}

/// Whether no address of `range` is in one of `regions`.
pub open spec fn is_apart_from_regions<R, W>(
    range: Stage2Range,
    regions: Seq<MemoryAccessRegion<R, W>>,
) -> bool {
    forall|i: int|
        0 <= i < regions.len() ==> !range.shares_address_with((#[trigger] regions[i]).range())
}

impl<R, W> Stage2Policy<R, W> {
    /// No two of the allowed and the handled ranges overlap, and pages are mapped in allowed ranges
    /// only.
    pub open spec fn wf(self) -> bool {
        &&& self.allowed.len() <= MAX_ALLOWED_RANGES
        &&& self.regions.len() <= MAX_MEMORY_ACCESS_HANDLERS
        &&& forall|i: int| 0 <= i < self.allowed.len() ==> (#[trigger] self.allowed[i]).wf()
        &&& forall|i: int, j: int|
            #![trigger self.allowed[i], self.allowed[j]]
            0 <= i < j < self.allowed.len() ==> !self.allowed[i].shares_address_with(
                self.allowed[j],
            )
        &&& regions_ordered(self.regions)
        &&& forall|i: int|
            0 <= i < self.allowed.len() ==> is_apart_from_regions(
                #[trigger] self.allowed[i],
                self.regions,
            )
        &&& forall|page: int| #[trigger]
            self.mapped.dom().contains(page) ==> self.allows(page * PAGE_SIZE)
    }

    /// Whether `ipa` is in an allowed range.
    pub open spec fn allows(self, ipa: int) -> bool {
        exists|i: int| 0 <= i < self.allowed.len() && (#[trigger] self.allowed[i]).contains(ipa)
    }

    /// Whether the guest may be allowed to access a range directly, and if not, why.
    pub open spec fn allow_outcome(self, base_ipa: u64, size: usize, attributes: usize) -> Result<
        (),
        Stage2ConfigError,
    > {
        match range_outcome(base_ipa, size) {
            Err(error) => Err(error),
            Ok(range) => if self.allowed.len() == MAX_ALLOWED_RANGES {
                Err(Stage2ConfigError::TooManyAllowedRanges)
            } else if !is_apart_from(range, self.allowed) {
                Err(Stage2ConfigError::AllowedRangeOverlap)
            } else if !is_apart_from_regions(range, self.regions) {
                Err(Stage2ConfigError::AllowedRangeOverlapsMemoryAccessHandler)
            } else if range.end_ipa > usize::MAX {
                Err(Stage2ConfigError::RangeAddressNotRepresentable)
            } else {
                match mapping_outcome(base_ipa as usize, range.end_ipa as usize, attributes) {
                    Err(error) => Err(Stage2ConfigError::MapRange(error)),
                    Ok(()) => Ok(()),
                }
            },
        }
    }

    /// Whether `after` is the policy once the guest was also allowed to access `range` directly.
    pub open spec fn allows_also(self, range: Stage2Range, attributes: usize, after: Self) -> bool {
        &&& after.allowed == self.allowed.push(range)
        &&& after.regions == self.regions
        &&& is_range_mapped(
            self.mapped,
            range.base_ipa as int,
            range.end_ipa as int,
            attributes,
            after.mapped,
        )
    }

    /// Whether accesses to a range can be given to a handler, and if not, why.
    pub open spec fn handle_outcome(self, base_ipa: u64, size: usize) -> Result<
        (),
        Stage2ConfigError,
    > {
        match range_outcome(base_ipa, size) {
            Err(error) => Err(error),
            Ok(range) => if !is_apart_from(range, self.allowed) {
                Err(Stage2ConfigError::AllowedRangeOverlapsMemoryAccessHandler)
            } else {
                registration_outcome(self.regions, range)
            },
        }
    }
}

/// Stage-2 configuration used by the hypervisor at runtime.
pub struct Stage2Config<R, W> {
    /// Stage-2 identity map for guest memory that is directly accessible.
    pub idmap: Stage2Map,
    /// Memory access handlers for ranges intentionally left unmapped.
    pub memory_access_handlers: MemoryAccessHandlerRegistry<R, W>,
}

impl<R, W> Stage2Config<R, W> {
    /// Whether the guest can access `ipa` without a fault.
    pub open spec fn maps(self, ipa: int) -> bool {
        mapped_pages(self.idmap).dom().contains(ipa / PAGE_SIZE as int)
    }

    /// The handler regions are well-formed, and nothing in them is mapped.
    pub open spec fn wf(self) -> bool {
        &&& self.memory_access_handlers.wf()
        &&& forall|ipa: int| #[trigger]
            some_region_contains(self.memory_access_handlers.regions(), ipa) ==> !self.maps(ipa)
    }
}

/// Builder for the guest stage-2 configuration.
pub struct Stage2Builder<R, W> {
    idmap: Stage2Map,
    memory_access_handlers: MemoryAccessHandlerRegistry<R, W>,
    allowed_ranges: ArrayVec<Stage2Range, 32>,
}

impl<R, W> View for Stage2Builder<R, W> {
    type V = Stage2Policy<R, W>;

    closed spec fn view(&self) -> Stage2Policy<R, W> {
        Stage2Policy {
            allowed: allowed_ranges(self.allowed_ranges),
            regions: self.memory_access_handlers.regions(),
            mapped: mapped_pages(self.idmap),
        }
    }
}

impl<R, W> Stage2Builder<R, W> {
    /// The page table is not in use yet, and the registry is well-formed.
    pub closed spec fn is_open(self) -> bool {
        &&& !is_active(self.idmap)
        &&& self.memory_access_handlers.wf()
    }

    /// The policy built so far is sound, and can be extended.
    pub open spec fn wf(self) -> bool {
        self.is_open() && self@.wf()
    }

    /// Creates an empty stage-2 builder.
    pub fn new() -> (builder: Self)
        ensures
            builder.wf(),
            builder@.allowed.len() == 0,
            builder@.regions.len() == 0,
            builder@.mapped.dom().is_empty(),
    {
        Stage2Builder {
            idmap: new_map(),
            memory_access_handlers: MemoryAccessHandlerRegistry::new(),
            allowed_ranges: new_allowed_table(),
        }
    }

    /// Builds the runtime stage-2 configuration.
    pub fn build(self) -> (config: Stage2Config<R, W>)
        requires
            self.wf(),
        ensures
            config.wf(),
            mapped_pages(config.idmap) == self@.mapped,
            !is_active(config.idmap),
            config.memory_access_handlers.regions() == self@.regions,
    {
        proof {
            assert forall|ipa: int| #[trigger]
                some_region_contains(
                    self@.regions,
                    ipa,
                ) implies !mapped_pages(self.idmap).dom().contains(ipa / PAGE_SIZE as int) by {
                lemma_handled_is_not_mapped(self@, ipa);
            }
        }
        Stage2Config { idmap: self.idmap, memory_access_handlers: self.memory_access_handlers }
    }

    fn check_allowed_range_capacity(&self) -> (result: Result<(), Stage2ConfigError>)
        ensures
            result == if self@.allowed.len() == MAX_ALLOWED_RANGES {
                Err::<(), _>(Stage2ConfigError::TooManyAllowedRanges)
            } else {
                Ok(())
            },
    {
        if allowed_is_full(&self.allowed_ranges) {
            Err(Stage2ConfigError::TooManyAllowedRanges)
        } else {
            Ok(())
        }
    }

    fn track_allowed_range(&mut self, range: Stage2Range)
        requires
            old(self)@.allowed.len() < MAX_ALLOWED_RANGES,
        ensures
            final(self)@ == (Stage2Policy { allowed: old(self)@.allowed.push(range), ..old(self)@ }),
            final(self).is_open() == old(self).is_open(),
    {
        allowed_push(&mut self.allowed_ranges, range);
    }

    fn check_no_allowed_overlap(&self, range: Stage2Range) -> (result: Result<
        (),
        Stage2ConfigError,
    >)
        requires
            self.wf(),
            range.wf(),
        ensures
            result == if is_apart_from(range, self@.allowed) {
                Ok(())
            } else {
                Err::<(), _>(Stage2ConfigError::AllowedRangeOverlap)
            },
    {
        let len: usize = allowed_len(&self.allowed_ranges);
        let mut index: usize = 0;
        while index < len
            invariant
                self.wf(),
                range.wf(),
                index <= len == self@.allowed.len(),
                forall|i: int|
                    0 <= i < index ==> !range.shares_address_with(#[trigger] self@.allowed[i]),
            decreases len - index,
        {
            let existing = allowed_at(&self.allowed_ranges, index);
            assert(existing == self@.allowed[index as int]);
            if range.overlaps(existing) {
                return Err(Stage2ConfigError::AllowedRangeOverlap);
            }
            index = index + 1;
        }
        Ok(())
    }
}

impl<R: Copy, W: Copy> Stage2Builder<R, W> {
    /// Allows the guest to access a byte range directly with `attributes`, the attribute bits of a
    /// stage-2 descriptor.
    ///
    /// The range must be page-aligned and its size must be a non-zero page multiple.
    pub fn allow_range(&mut self, base_ipa: u64, size: usize, attributes: usize) -> (result: Result<
        (),
        Stage2ConfigError,
    >)
        requires
            old(self).wf(),
        ensures
            final(self).wf(),
            result == old(self)@.allow_outcome(base_ipa, size, attributes),
            result is Err ==> final(self)@ == old(self)@,
            result is Ok ==> old(self)@.allows_also(
                range_outcome(base_ipa, size)->Ok_0,
                attributes,
                final(self)@,
            ),
    {
        let range = match Stage2Range::new(base_ipa, size) {
            Ok(range) => range,
            Err(error) => return Err(error),
        };
        match self.check_allowed_range_capacity() {
            Ok(()) => {},
            Err(error) => return Err(error),
        }
        match self.check_no_allowed_overlap(range) {
            Ok(()) => {},
            Err(error) => return Err(error),
        }
        match self.check_no_registered_overlap(range) {
            Ok(()) => {},
            Err(error) => return Err(error),
        }
        let start: usize = match usize::try_from(base_ipa) {
            Ok(start) => start,
            Err(_) => return Err(Stage2ConfigError::RangeAddressNotRepresentable),
        };
        let end: usize = match usize::try_from(range.end_ipa) {
            Ok(end) => end,
            Err(_) => return Err(Stage2ConfigError::RangeAddressNotRepresentable),
        };
        match map_pages(&mut self.idmap, start, end, attributes) {
            Ok(()) => {},
            Err(error) => return Err(Stage2ConfigError::MapRange(error)),
        }
        self.track_allowed_range(range);
        proof {
            lemma_allows_also(old(self)@, range, attributes, self@);
        }
        Ok(())
    }

    /// Handles guest accesses to a byte range with `handler`.
    ///
    /// The range must be page-aligned and its size must be a non-zero page multiple.
    pub fn handle_range(
        &mut self,
        base_ipa: u64,
        size: usize,
        handler: MemoryAccessHandler<R, W>,
    ) -> (result: Result<(), Stage2ConfigError>)
        requires
            old(self).wf(),
        ensures
            final(self).wf(),
            result == old(self)@.handle_outcome(base_ipa, size),
            result is Err ==> final(self)@ == old(self)@,
            result is Ok ==> final(self)@.allowed == old(self)@.allowed && final(self)@.mapped
                == old(self)@.mapped && is_insertion(
                old(self)@.regions,
                MemoryAccessRegion::over(range_outcome(base_ipa, size)->Ok_0, handler),
                final(self)@.regions,
            ),
    {
        let range = match Stage2Range::new(base_ipa, size) {
            Ok(range) => range,
            Err(error) => return Err(error),
        };
        match self.check_no_allowed_overlap(range) {
            Ok(()) => {},
            Err(_) => return Err(Stage2ConfigError::AllowedRangeOverlapsMemoryAccessHandler),
        }
        let region = MemoryAccessRegion::new(range, handler);
        let result = self.memory_access_handlers.register(region);
        proof {
            if result is Ok {
                lemma_with_region(old(self)@, region, self@.regions);
            }
            assert(self@ == (Stage2Policy { regions: self@.regions, ..old(self)@ }));
        }
        result
    }

    fn check_no_registered_overlap(&self, range: Stage2Range) -> (result: Result<
        (),
        Stage2ConfigError,
    >)
        requires
            self.wf(),
            range.wf(),
        ensures
            result == if is_apart_from_regions(range, self@.regions) {
                Ok(())
            } else {
                Err::<(), _>(Stage2ConfigError::AllowedRangeOverlapsMemoryAccessHandler)
            },
    {
        let len: usize = self.memory_access_handlers.len();
        let mut index: usize = 0;
        while index < len
            invariant
                self.wf(),
                range.wf(),
                index <= len == self@.regions.len(),
                forall|i: int|
                    0 <= i < index ==> !range.shares_address_with(
                        (#[trigger] self@.regions[i]).range(),
                    ),
            decreases len - index,
        {
            let region = self.memory_access_handlers.region(index);
            proof {
                lemma_ranges_share_address(
                    region.base_ipa as int,
                    region.end_ipa as int,
                    range.base_ipa as int,
                    range.end_ipa as int,
                );
            }
            if region.overlaps_range(range) {
                return Err(Stage2ConfigError::AllowedRangeOverlapsMemoryAccessHandler);
            }
            index = index + 1;
        }
        Ok(())
    }
}

/// An address whose accesses are emulated is never mapped.
pub proof fn lemma_handled_is_not_mapped<R, W>(policy: Stage2Policy<R, W>, ipa: int)
    requires
        policy.wf(),
        some_region_contains(policy.regions, ipa),
    ensures
        !policy.mapped.dom().contains(ipa / PAGE_SIZE as int),
{
    let page = ipa / PAGE_SIZE as int;
    if policy.mapped.dom().contains(page) {
        assert(policy.allows(page * PAGE_SIZE));
        let i = choose|i: int|
            0 <= i < policy.allowed.len() && (#[trigger] policy.allowed[i]).contains(
                page * PAGE_SIZE,
            );
        let j = choose|j: int|
            0 <= j < policy.regions.len() && (#[trigger] policy.regions[j]).range().contains(ipa);
        assert(policy.allowed[i].contains(ipa));
        assert(is_apart_from_regions(policy.allowed[i], policy.regions));
        assert(policy.allowed[i].shares_address_with(policy.regions[j].range()));
    }
}

/// Allowing a range that is apart from the others keeps the policy well-formed.
proof fn lemma_allows_also<R, W>(
    policy: Stage2Policy<R, W>,
    range: Stage2Range,
    attributes: usize,
    after: Stage2Policy<R, W>,
)
    requires
        policy.wf(),
        range.wf(),
        policy.allowed.len() < MAX_ALLOWED_RANGES,
        is_apart_from(range, policy.allowed),
        is_apart_from_regions(range, policy.regions),
        policy.allows_also(range, attributes, after),
    ensures
        after.wf(),
{
    assert forall|i: int, j: int|
        #![trigger after.allowed[i], after.allowed[j]]
        0 <= i < j < after.allowed.len() implies !after.allowed[i].shares_address_with(
        after.allowed[j],
    ) by {
        lemma_ranges_share_address(
            after.allowed[i].base_ipa as int,
            after.allowed[i].end_ipa as int,
            after.allowed[j].base_ipa as int,
            after.allowed[j].end_ipa as int,
        );
    }
    assert forall|page: int| #[trigger] after.mapped.dom().contains(page) implies after.allows(
        page * PAGE_SIZE,
    ) by {
        if range.contains(page * PAGE_SIZE) {
            assert(after.allowed[policy.allowed.len() as int] == range);
        } else {
            let i = choose|i: int|
                0 <= i < policy.allowed.len() && (#[trigger] policy.allowed[i]).contains(
                    page * PAGE_SIZE,
                );
            assert(after.allowed[i] == policy.allowed[i]);
        }
    }
}

/// Handling a region that is apart from the others keeps the policy well-formed.
proof fn lemma_with_region<R, W>(
    policy: Stage2Policy<R, W>,
    region: MemoryAccessRegion<R, W>,
    regions: Seq<MemoryAccessRegion<R, W>>,
)
    requires
        policy.wf(),
        region.range().wf(),
        is_apart_from(region.range(), policy.allowed),
        is_insertion(policy.regions, region, regions),
        regions_ordered(regions),
        regions.len() <= MAX_MEMORY_ACCESS_HANDLERS,
    ensures
        (Stage2Policy { regions, ..policy }).wf(),
{
    let after = Stage2Policy { regions, ..policy };
    let at = choose|at: int|
        0 <= at <= policy.regions.len() && regions == #[trigger] policy.regions.insert(at, region);
    assert forall|i: int| 0 <= i < policy.allowed.len() implies is_apart_from_regions(
        #[trigger] policy.allowed[i],
        regions,
    ) by {
        let allowed = policy.allowed[i];
        assert(is_apart_from_regions(allowed, policy.regions));
        assert forall|j: int| 0 <= j < regions.len() implies !allowed.shares_address_with(
            (#[trigger] regions[j]).range(),
        ) by {
            if j < at {
                assert(regions[j] == policy.regions[j]);
            } else if j == at {
                lemma_ranges_share_address(
                    allowed.base_ipa as int,
                    allowed.end_ipa as int,
                    region.base_ipa as int,
                    region.end_ipa as int,
                );
            } else {
                assert(regions[j] == policy.regions[j - 1]);
            }
        }
    }
    assert forall|page: int| #[trigger] after.mapped.dom().contains(page) implies after.allows(
        page * PAGE_SIZE,
    ) by {
        assert(policy.allows(page * PAGE_SIZE));
        let i = choose|i: int|
            0 <= i < policy.allowed.len() && (#[trigger] policy.allowed[i]).contains(
                page * PAGE_SIZE,
            );
        assert(after.allowed[i].contains(page * PAGE_SIZE));
    }
}

/// Registration adds the one region to the others. The regions are then still in the order of their
/// addresses, and do not overlap.
pub proof fn lemma_registration_adds_one_region<R, W>(
    before: Seq<MemoryAccessRegion<R, W>>,
    region: MemoryAccessRegion<R, W>,
    after: Seq<MemoryAccessRegion<R, W>>,
)
    requires
        is_insertion(before, region, after),
        regions_ordered(after),
    ensures
        after.len() == before.len() + 1,
        after.to_multiset() == before.to_multiset().insert(region),
        forall|i: int, j: int|
            #![trigger after[i], after[j]]
            0 <= i < j < after.len() ==> after[i].end_ipa <= after[j].base_ipa
                && !after[i].range().shares_address_with(after[j].range()),
{
    let at = choose|at: int|
        0 <= at <= before.len() && after == #[trigger] before.insert(at, region);
    to_multiset_insert(before, at, region);
    assert forall|i: int, j: int|
        #![trigger after[i], after[j]]
        0 <= i < j < after.len() implies !after[i].range().shares_address_with(
        after[j].range(),
    ) by {
        lemma_ranges_share_address(
            after[i].base_ipa as int,
            after[i].end_ipa as int,
            after[j].base_ipa as int,
            after[j].end_ipa as int,
        );
    }
}

/// Once a region was registered, accesses in it are found to belong to it, and all others are found
/// where they were found before.
pub proof fn lemma_lookup_after_registration<R, W>(
    before: Seq<MemoryAccessRegion<R, W>>,
    region: MemoryAccessRegion<R, W>,
    after: Seq<MemoryAccessRegion<R, W>>,
    ipa: u64,
)
    requires
        regions_ordered(before),
        regions_ordered(after),
        is_insertion(before, region, after),
    ensures
        region.range().contains(ipa as int) ==> region_lookup(after, ipa) == Some(
            MemoryAccessHandlerMatch { region, offset: (ipa - region.base_ipa) as u64 },
        ),
        !region.range().contains(ipa as int) ==> region_lookup(after, ipa) == region_lookup(
            before,
            ipa,
        ),
{
    let at = choose|at: int|
        0 <= at <= before.len() && after == #[trigger] before.insert(at, region);
    assert(after[at] == region);
    if region.range().contains(ipa as int) {
        lemma_region_lookup(after, at, ipa);
    } else if some_region_contains(before, ipa as int) {
        let i = choose|i: int|
            0 <= i < before.len() && (#[trigger] before[i]).range().contains(ipa as int);
        let moved = if i < at {
            i
        } else {
            i + 1
        };
        assert(after[moved] == before[i]);
        lemma_region_lookup(before, i, ipa);
        lemma_region_lookup(after, moved, ipa);
    } else if some_region_contains(after, ipa as int) {
        let j = choose|j: int|
            0 <= j < after.len() && (#[trigger] after[j]).range().contains(ipa as int);
        assert(after[j] == before[if j < at { j } else { j - 1 }]);
    }
}

/// A range that the guest may access directly can neither be handled nor allowed once more.
pub proof fn lemma_allowed_range_stays_allowed<R, W>(
    policy: Stage2Policy<R, W>,
    range: Stage2Range,
    attributes: usize,
    after: Stage2Policy<R, W>,
    other_attributes: usize,
)
    requires
        range.wf(),
        policy.allows_also(range, attributes, after),
    ensures
        after.handle_outcome(range.base_ipa, range.size) == Err::<(), _>(
            Stage2ConfigError::AllowedRangeOverlapsMemoryAccessHandler,
        ),
        after.allow_outcome(range.base_ipa, range.size, other_attributes) == Err::<(), _>(
            if after.allowed.len() == MAX_ALLOWED_RANGES {
                Stage2ConfigError::TooManyAllowedRanges
            } else {
                Stage2ConfigError::AllowedRangeOverlap
            },
        ),
{
    assert(after.allowed[policy.allowed.len() as int] == range);
    lemma_ranges_share_address(
        range.base_ipa as int,
        range.end_ipa as int,
        range.base_ipa as int,
        range.end_ipa as int,
    );
}

/// A range whose accesses are emulated can neither be allowed nor handled once more.
pub proof fn lemma_handled_range_stays_handled<R, W>(
    policy: Stage2Policy<R, W>,
    region: MemoryAccessRegion<R, W>,
    attributes: usize,
)
    requires
        policy.wf(),
        policy.regions.contains(region),
    ensures
        policy.allow_outcome(region.base_ipa, region.size, attributes) == Err::<(), _>(
            if policy.allowed.len() == MAX_ALLOWED_RANGES {
                Stage2ConfigError::TooManyAllowedRanges
            } else {
                Stage2ConfigError::AllowedRangeOverlapsMemoryAccessHandler
            },
        ),
        policy.handle_outcome(region.base_ipa, region.size) == Err::<(), _>(
            if policy.regions.len() == MAX_MEMORY_ACCESS_HANDLERS {
                Stage2ConfigError::TooManyMemoryAccessHandlerRegions
            } else {
                Stage2ConfigError::MemoryAccessHandlerRangeOverlap
            },
        ),
{
    let index = choose|index: int|
        0 <= index < policy.regions.len() && policy.regions[index] == region;
    let range = region.range();
    assert(policy.regions[index].range() == range);
    lemma_ranges_share_address(
        range.base_ipa as int,
        range.end_ipa as int,
        range.base_ipa as int,
        range.end_ipa as int,
    );
    assert forall|i: int| 0 <= i < policy.allowed.len() implies !range.shares_address_with(
        #[trigger] policy.allowed[i],
    ) by {
        assert(is_apart_from_regions(policy.allowed[i], policy.regions));
        lemma_ranges_share_address(
            range.base_ipa as int,
            range.end_ipa as int,
            policy.allowed[i].base_ipa as int,
            policy.allowed[i].end_ipa as int,
        );
    }
}

/// Allowing a range with the attributes of a valid mapping, and no others, maps every address in it
/// to itself with these attributes, and changes nothing for other addresses.
pub proof fn lemma_allowed_range_is_mapped<R, W>(
    policy: Stage2Policy<R, W>,
    range: Stage2Range,
    attributes: usize,
    after: Stage2Policy<R, W>,
    ipa: int,
)
    requires
        range.wf(),
        is_valid_mapping(attributes),
        has_no_address_bits(attributes),
        policy.allows_also(range, attributes, after),
    ensures
        ({
            let page = ipa / PAGE_SIZE as int;
            &&& range.contains(ipa) ==> after.mapped.dom().contains(page) && after.mapped[page] == (
                page,
                attributes,
            )
            &&& !range.contains(ipa) ==> after.mapped.dom().contains(page)
                == policy.mapped.dom().contains(page)
            &&& !range.contains(ipa) && policy.mapped.dom().contains(page) ==> after.mapped[page]
                == policy.mapped[page]
        }),
{
    let page = ipa / PAGE_SIZE as int;
    assert(range.contains(ipa) <==> range.contains(page * PAGE_SIZE));
    if range.contains(ipa) {
        assert(after.mapped.dom().contains(page));
        assert(after.mapped[page].1 == attributes);
        assert(after.mapped[page] == (page, attributes));
    } else if policy.mapped.dom().contains(page) {
        assert(after.mapped.dom().contains(page));
    } else {
        assert(!after.mapped.dom().contains(page));
    }
}

/// As long as ranges are allowed with attributes alone, every page is mapped to itself.
pub proof fn lemma_map_stays_identity<R, W>(
    policy: Stage2Policy<R, W>,
    range: Stage2Range,
    attributes: usize,
    after: Stage2Policy<R, W>,
)
    requires
        is_identity(policy.mapped),
        has_no_address_bits(attributes),
        policy.allows_also(range, attributes, after),
    ensures
        is_identity(after.mapped),
{
}

/// The last page boundary that is not above `address`.
pub open spec fn page_floor(address: int) -> int {
    address / PAGE_SIZE as int * PAGE_SIZE
}

/// The first page boundary that is not below `address`.
pub open spec fn page_ceiling(address: int) -> int {
    page_floor(address + PAGE_SIZE - 1)
}

/// Rounding gives the nearest page boundaries around an address, and keeps a page boundary.
pub proof fn lemma_page_rounding(address: int)
    ensures
        page_floor(address) % PAGE_SIZE as int == 0,
        page_ceiling(address) % PAGE_SIZE as int == 0,
        page_floor(address) <= address < page_floor(address) + PAGE_SIZE,
        page_ceiling(address) - PAGE_SIZE < address <= page_ceiling(address),
        address % PAGE_SIZE as int == 0 ==> page_floor(address) == address && page_ceiling(address)
            == address,
{
}

/// Rounds `address` down to the nearest stage-2 page boundary.
pub fn align_down_to_page(address: usize) -> (aligned: usize)
    ensures
        aligned == page_floor(address as int),
{
    address / PAGE_SIZE * PAGE_SIZE
}

/// Rounds `address` up to the nearest stage-2 page boundary.
pub fn align_up_to_page(address: usize) -> (aligned: usize)
    requires
        page_ceiling(address as int) <= usize::MAX,
    ensures
        aligned == page_ceiling(address as int),
{
    let offset: usize = address % PAGE_SIZE;
    if offset == 0 {
        address
    } else {
        address + (PAGE_SIZE - offset)
    }
}

/// Converts a `usize` address to an IPA.
pub fn to_ipa(address: usize) -> (ipa: u64)
    ensures
        ipa == address,
{
    u64::try_from(address).unwrap()
}

fn validate_range(base_ipa: u64, size: usize) -> (result: Result<(), Stage2ConfigError>)
    ensures
        result == match range_outcome(base_ipa, size) {
            Ok(_) => Ok(()),
            Err(error) => Err::<(), _>(error),
        },
{
    if !base_ipa.is_multiple_of(STAGE2_PAGE_SIZE) {
        return Err(Stage2ConfigError::RangeBaseNotPageAligned);
    }
    if size == 0 {
        return Err(Stage2ConfigError::EmptyRange);
    }
    if !size.is_multiple_of(PAGE_SIZE) {
        return Err(Stage2ConfigError::RangeSizeNotPageMultiple);
    }
    match checked_range_end(base_ipa, size) {
        Ok(_) => Ok(()),
        Err(error) => Err(error),
    }
}

fn checked_range_end(base_ipa: u64, size: usize) -> (end: Result<u64, Stage2ConfigError>)
    ensures
        end == if base_ipa + size <= u64::MAX {
            Ok((base_ipa + size) as u64)
        } else {
            Err(Stage2ConfigError::RangeEndOverflow)
        },
{
    let size: u64 = match u64::try_from(size) {
        Ok(size) => size,
        Err(_) => return Err(Stage2ConfigError::RangeEndOverflow),
    };
    match base_ipa.checked_add(size) {
        Some(end) => Ok(end),
        None => Err(Stage2ConfigError::RangeEndOverflow),
    }
}

/// Whether two ranges overlap. Ranges that only touch do not.
pub fn page_ranges_overlap(
    first_base_ipa: u64,
    first_end_ipa: u64,
    second_base_ipa: u64,
    second_end_ipa: u64,
) -> (overlap: bool)
    ensures
        overlap == if first_base_ipa <= second_base_ipa {
            second_base_ipa < first_end_ipa
        } else {
            first_base_ipa < second_end_ipa
        },
        first_base_ipa < first_end_ipa && second_base_ipa < second_end_ipa ==> overlap
            == ranges_share_address(
            first_base_ipa as int,
            first_end_ipa as int,
            second_base_ipa as int,
            second_end_ipa as int,
        ),
{
    proof {
        if first_base_ipa < first_end_ipa && second_base_ipa < second_end_ipa {
            lemma_ranges_share_address(
                first_base_ipa as int,
                first_end_ipa as int,
                second_base_ipa as int,
                second_end_ipa as int,
            );
        }
    }
    let (earlier_end, later_base): (u64, u64) = if first_base_ipa <= second_base_ipa {
        (first_end_ipa, second_base_ipa)
    } else {
        (second_end_ipa, first_base_ipa)
    };
    later_base < earlier_end
}

} // verus!
