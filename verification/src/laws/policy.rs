//! Laws of the stage-2 access policy.

use vstd::arithmetic::power2::{lemma2_to64, lemma2_to64_rest};
use vstd::prelude::*;

use crate::laws::emulation::{is_in_region, lemma_lookup, regions_are_apart};
use crate::page_table::{
    attribute_bits, has_no_address_bits, is_identity, is_range_mapped, is_valid_mapping,
    mapping_outcome, MapError,
};
use crate::stage2::{
    is_insertion, lemma_ranges_share_address, page_ceiling, page_floor, range_outcome,
    ranges_share_address, region_lookup, regions_ordered, registration_outcome,
    some_region_contains, MemoryAccessHandler, MemoryAccessRegion, Stage2Config,
    Stage2ConfigError, Stage2Policy, Stage2Range,
};

verus! {

/// A range is accepted exactly if its base and its size are multiples of 4096, it is not empty, and
/// its end fits in 64 bits. It then has that base and that size, and ends where they say.
pub proof fn lemma_accepted_range(base_ipa: u64, size: usize)
    ensures
        range_outcome(base_ipa, size) is Ok <==> base_ipa as int % 4096 == 0 && size as int % 4096
            == 0 && size > 0 && base_ipa + size <= u64::MAX,
        range_outcome(base_ipa, size) matches Ok(range) ==> {
            &&& range.base_ipa == base_ipa
            &&& range.size == size
            &&& range.end_ipa == base_ipa + size
        },
{
}

/// A range is refused for the first thing that is wrong with it: its base, an empty size, a size that
/// is not whole pages, an end that does not fit.
pub proof fn lemma_refused_range(base_ipa: u64, size: usize)
    ensures
        range_outcome(base_ipa, size) == Err::<Stage2Range, _>(
            Stage2ConfigError::RangeBaseNotPageAligned,
        ) <==> base_ipa as int % 4096 != 0,
        range_outcome(base_ipa, size) == Err::<Stage2Range, _>(Stage2ConfigError::EmptyRange)
            <==> base_ipa as int % 4096 == 0 && size == 0,
        range_outcome(base_ipa, size) == Err::<Stage2Range, _>(
            Stage2ConfigError::RangeSizeNotPageMultiple,
        ) <==> base_ipa as int % 4096 == 0 && size as int % 4096 != 0,
        range_outcome(base_ipa, size) == Err::<Stage2Range, _>(Stage2ConfigError::RangeEndOverflow)
            <==> base_ipa as int % 4096 == 0 && size > 0 && size as int % 4096 == 0 && base_ipa
            + size > u64::MAX,
{
}

/// A range is well-formed exactly if it consists of whole pages, at least one, and ends where its base
/// and size say. It contains the addresses from its base up to its end, and two of them share an
/// address exactly if each begins before the other ends.
pub proof fn lemma_ranges(range: Stage2Range, other: Stage2Range, ipa: int)
    ensures
        range.wf() <==> range.base_ipa as int % 4096 == 0 && range.size as int % 4096 == 0
            && range.size > 0 && range.end_ipa == range.base_ipa + range.size,
        range.contains(ipa) <==> range.base_ipa <= ipa < range.end_ipa,
        range.wf() && other.wf() ==> (range.shares_address_with(other) <==> range.base_ipa
            < other.base_ipa + other.size && other.base_ipa < range.base_ipa + range.size),
{
    if range.wf() && other.wf() {
        lemma_ranges_share_address(
            range.base_ipa as int,
            range.end_ipa as int,
            other.base_ipa as int,
            other.end_ipa as int,
        );
    }
}

/// Ranges share an address if, and only if, there is one that is in both.
pub proof fn lemma_shared_address(
    first_base: int,
    first_end: int,
    second_base: int,
    second_end: int,
    ipa: int,
)
    ensures
        first_base <= ipa < first_end && second_base <= ipa < second_end ==> ranges_share_address(
            first_base,
            first_end,
            second_base,
            second_end,
        ),
        ranges_share_address(first_base, first_end, second_base, second_end) ==> first_base
            < second_end && second_base < first_end && first_base < first_end && second_base
            < second_end,
{
    if first_base <= ipa < first_end && second_base <= ipa < second_end {
        assert(crate::stage2::in_range(ipa, first_base, first_end) && crate::stage2::in_range(
            ipa,
            second_base,
            second_end,
        ));
    }
}

/// A region over a range has its base, its size and its end, and the given callbacks.
pub proof fn lemma_region_over_range<R, W>(
    range: Stage2Range,
    handler: MemoryAccessHandler<R, W>,
    region: MemoryAccessRegion<R, W>,
)
    ensures
        MemoryAccessRegion::over(range, handler).base_ipa == range.base_ipa,
        MemoryAccessRegion::over(range, handler).size == range.size,
        MemoryAccessRegion::over(range, handler).end_ipa == range.end_ipa,
        MemoryAccessRegion::over(range, handler).handler == handler,
        region.range().base_ipa == region.base_ipa,
        region.range().size == region.size,
        region.range().end_ipa == region.end_ipa,
{
}

/// A region can be registered exactly if fewer than sixteen are, and none of them overlaps it.
pub proof fn lemma_registration<R, W>(regions: Seq<MemoryAccessRegion<R, W>>, range: Stage2Range)
    requires
        regions_are_apart(regions),
        range.size > 0,
        range.end_ipa == range.base_ipa + range.size,
    ensures
        registration_outcome(regions, range) is Ok <==> regions.len() != 16 && (forall|i: int|
            0 <= i < regions.len() ==> (#[trigger] regions[i]).base_ipa + regions[i].size
                <= range.base_ipa || range.base_ipa + range.size <= regions[i].base_ipa),
        registration_outcome(regions, range) == Err::<(), _>(
            Stage2ConfigError::TooManyMemoryAccessHandlerRegions,
        ) <==> regions.len() == 16,
        registration_outcome(regions, range) is Err && regions.len() != 16
            ==> registration_outcome(regions, range) == Err::<(), _>(
            Stage2ConfigError::MemoryAccessHandlerRangeOverlap,
        ),
{
    assert forall|i: int| 0 <= i < regions.len() implies (range.shares_address_with(
        (#[trigger] regions[i]).range(),
    ) <==> !(regions[i].base_ipa + regions[i].size <= range.base_ipa || range.base_ipa + range.size
        <= regions[i].base_ipa)) by {
        lemma_ranges_share_address(
            range.base_ipa as int,
            range.end_ipa as int,
            regions[i].base_ipa as int,
            regions[i].end_ipa as int,
        );
    }
}

/// Ordered regions are apart.
pub proof fn lemma_ordered_regions_are_apart<R, W>(regions: Seq<MemoryAccessRegion<R, W>>)
    requires
        regions_ordered(regions),
    ensures
        regions_are_apart(regions),
{
}

/// Whether the range of `size` bytes from `base_ipa` on overlaps one of `allowed`.
pub open spec fn meets_allowed(base_ipa: u64, size: usize, allowed: Seq<Stage2Range>) -> bool {
    exists|i: int|
        0 <= i < allowed.len() && (#[trigger] allowed[i]).base_ipa < base_ipa + size && base_ipa
            < allowed[i].base_ipa + allowed[i].size
}

/// Whether the range of `size` bytes from `base_ipa` on overlaps one of `regions`.
pub open spec fn meets_region<R, W>(
    base_ipa: u64,
    size: usize,
    regions: Seq<MemoryAccessRegion<R, W>>,
) -> bool {
    exists|i: int|
        0 <= i < regions.len() && (#[trigger] regions[i]).base_ipa < base_ipa + size && base_ipa
            < regions[i].base_ipa + regions[i].size
}

/// In a well-formed policy there are at most 32 allowed and 16 handled ranges, of whole pages. No two of
/// them overlap, and pages are mapped only in allowed ranges.
pub proof fn lemma_well_formed_policy<R, W>(policy: Stage2Policy<R, W>)
    requires
        policy.wf(),
    ensures
        policy.allowed.len() <= 32,
        policy.regions.len() <= 16,
        regions_are_apart(policy.regions),
        forall|i: int|
            0 <= i < policy.allowed.len() ==> {
                let range = #[trigger] policy.allowed[i];
                &&& range.base_ipa % 4096 == 0
                &&& range.size % 4096 == 0
                &&& range.size > 0
                &&& range.end_ipa == range.base_ipa + range.size
            },
        forall|i: int, j: int|
            #![trigger policy.allowed[i], policy.allowed[j]]
            0 <= i < policy.allowed.len() && 0 <= j < policy.allowed.len() && i != j
                ==> policy.allowed[i].base_ipa + policy.allowed[i].size
                <= policy.allowed[j].base_ipa || policy.allowed[j].base_ipa
                + policy.allowed[j].size <= policy.allowed[i].base_ipa,
        forall|i: int, j: int|
            #![trigger policy.allowed[i], policy.regions[j]]
            0 <= i < policy.allowed.len() && 0 <= j < policy.regions.len()
                ==> policy.allowed[i].base_ipa + policy.allowed[i].size
                <= policy.regions[j].base_ipa || policy.regions[j].base_ipa
                + policy.regions[j].size <= policy.allowed[i].base_ipa,
        forall|page: int| #[trigger]
            policy.mapped.dom().contains(page) ==> exists|i: int|
                0 <= i < policy.allowed.len() && (#[trigger] policy.allowed[i]).base_ipa <= page
                    * 4096 < policy.allowed[i].base_ipa + policy.allowed[i].size,
{
    assert forall|i: int, j: int|
        #![trigger policy.allowed[i], policy.allowed[j]]
        0 <= i < policy.allowed.len() && 0 <= j < policy.allowed.len() && i != j implies
        policy.allowed[i].base_ipa + policy.allowed[i].size <= policy.allowed[j].base_ipa
        || policy.allowed[j].base_ipa + policy.allowed[j].size <= policy.allowed[i].base_ipa by {
        lemma_ranges(policy.allowed[i], policy.allowed[j], 0);
        lemma_ranges(policy.allowed[j], policy.allowed[i], 0);
    }
    assert forall|i: int, j: int|
        #![trigger policy.allowed[i], policy.regions[j]]
        0 <= i < policy.allowed.len() && 0 <= j < policy.regions.len() implies
        policy.allowed[i].base_ipa + policy.allowed[i].size <= policy.regions[j].base_ipa
        || policy.regions[j].base_ipa + policy.regions[j].size <= policy.allowed[i].base_ipa by {
        lemma_ranges(policy.allowed[i], policy.regions[j].range(), 0);
        assert(crate::stage2::is_apart_from_regions(policy.allowed[i], policy.regions));
    }
    assert forall|page: int| #[trigger] policy.mapped.dom().contains(page) implies exists|i: int|
        0 <= i < policy.allowed.len() && (#[trigger] policy.allowed[i]).base_ipa <= page * 4096
            < policy.allowed[i].base_ipa + policy.allowed[i].size by {
        assert(policy.allows(page * 4096));
        let i = choose|i: int|
            0 <= i < policy.allowed.len() && (#[trigger] policy.allowed[i]).contains(page * 4096);
        assert(policy.allowed[i].base_ipa <= page * 4096 < policy.allowed[i].base_ipa
            + policy.allowed[i].size);
    }
}

/// Whether the guest can be allowed to access a range is decided in this order: the range must be
/// acceptable, fewer than 32 ranges may be allowed already, none of these and no handled region may
/// overlap it, its attributes must not have bit 1 set, and it must be in the lower half of the address
/// space and end within 48 bits. Each refusal tells what was wrong.
pub proof fn lemma_allow_outcome<R, W>(
    policy: Stage2Policy<R, W>,
    base_ipa: u64,
    size: usize,
    attributes: usize,
)
    requires
        policy.wf(),
    ensures
        ({
            let outcome = policy.allow_outcome(base_ipa, size, attributes);
            if !(base_ipa as int % 4096 == 0 && size as int % 4096 == 0 && size > 0 && base_ipa
                + size <= u64::MAX) {
                range_outcome(base_ipa, size) matches Err(error) && outcome == Err::<(), _>(error)
            } else if policy.allowed.len() == 32 {
                outcome == Err::<(), _>(Stage2ConfigError::TooManyAllowedRanges)
            } else if meets_allowed(base_ipa, size, policy.allowed) {
                outcome == Err::<(), _>(Stage2ConfigError::AllowedRangeOverlap)
            } else if meets_region(base_ipa, size, policy.regions) {
                outcome == Err::<(), _>(Stage2ConfigError::AllowedRangeOverlapsMemoryAccessHandler)
            } else if base_ipa + size > usize::MAX {
                outcome == Err::<(), _>(Stage2ConfigError::RangeAddressNotRepresentable)
            } else if attributes as int / 2 % 2 == 1 {
                outcome == Err::<(), _>(
                    Stage2ConfigError::MapRange(MapError::InvalidFlags(attributes)),
                )
            } else if base_ipa > isize::MAX {
                outcome == Err::<(), _>(
                    Stage2ConfigError::MapRange(MapError::AddressRange(base_ipa as usize)),
                )
            } else if base_ipa + size > 0x1_0000_0000_0000 {
                outcome == Err::<(), _>(
                    Stage2ConfigError::MapRange(
                        MapError::AddressRange((base_ipa + size) as usize),
                    ),
                )
            } else {
                outcome == Ok::<(), Stage2ConfigError>(())
            }
        }),
{
    lemma2_to64();
    lemma_accepted_range(base_ipa, size);
    if range_outcome(base_ipa, size) is Ok {
        let range = range_outcome(base_ipa, size)->Ok_0;
        lemma_apart(policy, range);
    }
}

/// Overlap with what a policy holds, by base and size.
proof fn lemma_apart<R, W>(policy: Stage2Policy<R, W>, range: Stage2Range)
    requires
        policy.wf(),
        range.wf(),
    ensures
        crate::stage2::is_apart_from(range, policy.allowed) <==> !meets_allowed(
            range.base_ipa,
            range.size,
            policy.allowed,
        ),
        crate::stage2::is_apart_from_regions(range, policy.regions) <==> !meets_region(
            range.base_ipa,
            range.size,
            policy.regions,
        ),
{
    assert forall|i: int| 0 <= i < policy.allowed.len() implies (range.shares_address_with(
        #[trigger] policy.allowed[i],
    ) <==> policy.allowed[i].base_ipa < range.base_ipa + range.size && range.base_ipa
        < policy.allowed[i].base_ipa + policy.allowed[i].size) by {
        lemma_ranges(range, policy.allowed[i], 0);
    }
    assert forall|i: int| 0 <= i < policy.regions.len() implies (range.shares_address_with(
        (#[trigger] policy.regions[i]).range(),
    ) <==> policy.regions[i].base_ipa < range.base_ipa + range.size && range.base_ipa
        < policy.regions[i].base_ipa + policy.regions[i].size) by {
        lemma_ranges(range, policy.regions[i].range(), 0);
    }
}

/// Whether a range can be handled is decided in this order: the range must be acceptable, no allowed
/// range may overlap it, fewer than sixteen regions may be handled already, and none of these may
/// overlap it. Each refusal tells what was wrong.
pub proof fn lemma_handle_outcome<R, W>(policy: Stage2Policy<R, W>, base_ipa: u64, size: usize)
    requires
        policy.wf(),
    ensures
        ({
            let outcome = policy.handle_outcome(base_ipa, size);
            if !(base_ipa as int % 4096 == 0 && size as int % 4096 == 0 && size > 0 && base_ipa
                + size <= u64::MAX) {
                range_outcome(base_ipa, size) matches Err(error) && outcome == Err::<(), _>(error)
            } else if meets_allowed(base_ipa, size, policy.allowed) {
                outcome == Err::<(), _>(Stage2ConfigError::AllowedRangeOverlapsMemoryAccessHandler)
            } else if policy.regions.len() == 16 {
                outcome == Err::<(), _>(Stage2ConfigError::TooManyMemoryAccessHandlerRegions)
            } else if meets_region(base_ipa, size, policy.regions) {
                outcome == Err::<(), _>(Stage2ConfigError::MemoryAccessHandlerRangeOverlap)
            } else {
                outcome == Ok::<(), Stage2ConfigError>(())
            }
        }),
{
    lemma_accepted_range(base_ipa, size);
    if range_outcome(base_ipa, size) is Ok {
        let range = range_outcome(base_ipa, size)->Ok_0;
        lemma_apart(policy, range);
        lemma_ordered_regions_are_apart(policy.regions);
        lemma_registration(policy.regions, range);
    }
}

/// Once a range of `size` bytes from `base_ipa` on is allowed with the attributes of a valid mapping,
/// every address of it is mapped to itself with these attributes, up to the last byte, and every other
/// address is mapped as it was.
pub proof fn lemma_allowed_addresses_are_mapped<R, W>(
    policy: Stage2Policy<R, W>,
    base_ipa: u64,
    size: usize,
    attributes: usize,
    after: Stage2Policy<R, W>,
    ipa: int,
)
    requires
        range_outcome(base_ipa, size) is Ok,
        policy.allows_also(range_outcome(base_ipa, size)->Ok_0, attributes, after),
        attributes % 2 == 1,
        attributes as int / 4096 % 0x10_0000_0000 == 0,
    ensures
        ({
            let page = ipa / 4096;
            if base_ipa <= ipa < base_ipa + size {
                &&& after.mapped.dom().contains(page)
                &&& after.mapped[page].0 == page
                &&& after.mapped[page].1 == attributes
            } else {
                &&& after.mapped.dom().contains(page) <==> policy.mapped.dom().contains(page)
                &&& policy.mapped.dom().contains(page) ==> after.mapped[page]
                    == policy.mapped[page]
            }
        }),
{
    lemma2_to64();
    lemma2_to64_rest();
    lemma_accepted_range(base_ipa, size);
    lemma_attributes(attributes);
    let page = ipa / 4096;
    assert(base_ipa <= ipa < base_ipa + size <==> base_ipa <= page * 4096 < base_ipa + size);
    lemma_mapped_range(
        policy.mapped,
        base_ipa as int,
        base_ipa + size,
        attributes,
        after.mapped,
        page,
    );
}

/// Without bit 0 in its attributes, a range that is allowed is not mapped at all.
pub proof fn lemma_invalid_attributes_map_nothing<R, W>(
    policy: Stage2Policy<R, W>,
    base_ipa: u64,
    size: usize,
    attributes: usize,
    after: Stage2Policy<R, W>,
    ipa: int,
)
    requires
        range_outcome(base_ipa, size) is Ok,
        policy.allows_also(range_outcome(base_ipa, size)->Ok_0, attributes, after),
        attributes % 2 == 0,
        base_ipa <= ipa < base_ipa + size,
    ensures
        !after.mapped.dom().contains(ipa / 4096),
{
    lemma2_to64();
    lemma_accepted_range(base_ipa, size);
    lemma_attributes(attributes);
    let page = ipa / 4096;
    assert(base_ipa <= page * 4096 < base_ipa + size);
}

/// Allowing a range adds it, with its base and size, behind the allowed ranges, and changes no handled
/// region. From then on, whatever overlaps it is refused.
pub proof fn lemma_allowed_range_is_tracked<R, W>(
    policy: Stage2Policy<R, W>,
    base_ipa: u64,
    size: usize,
    attributes: usize,
    after: Stage2Policy<R, W>,
    other_base: u64,
    other_size: usize,
    other_attributes: usize,
)
    requires
        range_outcome(base_ipa, size) is Ok,
        policy.allows_also(range_outcome(base_ipa, size)->Ok_0, attributes, after),
        after.wf(),
    ensures
        after.allowed.len() == policy.allowed.len() + 1,
        after.allowed.last().base_ipa == base_ipa,
        after.allowed.last().size == size,
        after.allowed.last().end_ipa == base_ipa + size,
        forall|i: int|
            0 <= i < policy.allowed.len() ==> after.allowed[i] == #[trigger] policy.allowed[i],
        after.regions == policy.regions,
        other_base < base_ipa + size && base_ipa < other_base + other_size ==> {
            &&& after.handle_outcome(other_base, other_size) is Err
            &&& after.allow_outcome(other_base, other_size, other_attributes) is Err
        },
{
    lemma_accepted_range(base_ipa, size);
    lemma_allow_outcome(after, other_base, other_size, other_attributes);
    lemma_handle_outcome(after, other_base, other_size);
    let last = policy.allowed.len() as int;
    assert(after.allowed[last] == range_outcome(base_ipa, size)->Ok_0);
}

/// Once a range of `size` bytes from `base_ipa` on is handled, every address of it is found there, with
/// the callbacks that were given and its distance from the base. Every other address is found where it
/// was found before.
pub proof fn lemma_handled_addresses_are_found<R, W>(
    policy: Stage2Policy<R, W>,
    base_ipa: u64,
    size: usize,
    handler: MemoryAccessHandler<R, W>,
    after: Seq<MemoryAccessRegion<R, W>>,
    ipa: u64,
)
    requires
        range_outcome(base_ipa, size) is Ok,
        policy.wf(),
        regions_ordered(after),
        is_insertion(
            policy.regions,
            MemoryAccessRegion::over(range_outcome(base_ipa, size)->Ok_0, handler),
            after,
        ),
    ensures
        after.len() == policy.regions.len() + 1,
        base_ipa <= ipa < base_ipa + size ==> {
            &&& region_lookup(after, ipa) matches Some(found)
            &&& found.region.handler == handler
            &&& found.region.base_ipa == base_ipa
            &&& found.region.size == size
            &&& found.offset == ipa - base_ipa
        },
        !(base_ipa <= ipa < base_ipa + size) ==> region_lookup(after, ipa) == region_lookup(
            policy.regions,
            ipa,
        ),
{
    lemma_accepted_range(base_ipa, size);
    lemma_ordered_regions_are_apart(after);
    let region = MemoryAccessRegion::over(range_outcome(base_ipa, size)->Ok_0, handler);
    let at = choose|at: int|
        0 <= at <= policy.regions.len() && after == #[trigger] policy.regions.insert(at, region);
    assert(after[at] == region);
    lemma_lookup(after, at, ipa);
    crate::stage2::lemma_lookup_after_registration(policy.regions, region, after, ipa);
}

/// Registration keeps all regions and adds the one, in the order of addresses.
pub proof fn lemma_insertion<R, W>(
    before: Seq<MemoryAccessRegion<R, W>>,
    region: MemoryAccessRegion<R, W>,
    after: Seq<MemoryAccessRegion<R, W>>,
)
    requires
        is_insertion(before, region, after),
    ensures
        after.len() == before.len() + 1,
        after.contains(region),
        forall|i: int| 0 <= i < before.len() ==> after.contains(#[trigger] before[i]),
        forall|i: int|
            0 <= i < after.len() ==> #[trigger] after[i] == region || before.contains(after[i]),
{
    let at = choose|at: int|
        0 <= at <= before.len() && after == #[trigger] before.insert(at, region);
    assert(after[at] == region);
    assert forall|i: int| 0 <= i < before.len() implies after.contains(#[trigger] before[i]) by {
        assert(after[if i < at {
            i
        } else {
            i + 1
        }] == before[i]);
    }
    assert forall|i: int| 0 <= i < after.len() implies #[trigger] after[i] == region
        || before.contains(after[i]) by {
        if i < at {
            assert(before[i] == after[i]);
        } else if i > at {
            assert(before[i - 1] == after[i]);
        }
    }
}

/// In a built configuration, an address in a handled region is never mapped.
pub proof fn lemma_handled_addresses_are_unmapped<R, W>(
    config: Stage2Config<R, W>,
    index: int,
    ipa: int,
)
    requires
        config.wf(),
        0 <= index < config.memory_access_handlers.regions().len(),
        is_in_region(ipa, config.memory_access_handlers.regions()[index]),
    ensures
        !crate::page_table::mapped_pages(config.idmap).dom().contains(ipa / 4096),
        !config.maps(ipa),
        regions_are_apart(config.memory_access_handlers.regions()),
{
    let regions = config.memory_access_handlers.regions();
    assert(regions[index].range().contains(ipa));
    assert(some_region_contains(regions, ipa));
}

/// The attributes of a mapping are all bits but those from 12 to 47, which hold the address. Bit 0
/// makes a mapping valid.
pub proof fn lemma_attributes(attributes: usize)
    ensures
        is_valid_mapping(attributes) <==> attributes % 2 == 1,
        has_no_address_bits(attributes) <==> attributes as int / 4096 % 0x10_0000_0000 == 0,
        attribute_bits(attributes) as int % 4096 == attributes as int % 4096,
        attribute_bits(attributes) as int / 4096 % 0x10_0000_0000 == 0,
        attribute_bits(attributes) as int / 0x1_0000_0000_0000 == attributes as int
            / 0x1_0000_0000_0000,
        attributes as int / 4096 % 0x10_0000_0000 == 0 ==> attribute_bits(attributes) == attributes,
{
    lemma2_to64();
    lemma2_to64_rest();
    let address = attributes as int / 4096 % 0x10_0000_0000;
    let top = attributes as int / 0x1_0000_0000_0000;
    let low = attributes as int % 4096;
    assert(attributes == top * 0x1_0000_0000_0000 + address * 4096 + low);
    let kept = top * 0x1_0000_0000_0000 + low;
    assert(attribute_bits(attributes) == kept);
    assert(kept % 4096 == low && kept / 4096 % 0x10_0000_0000 == 0 && kept / 0x1_0000_0000_0000
        == top);
}

/// Mapping pages changes what is mapped in that range, and nowhere else.
pub proof fn lemma_mapped_range(
    before: Map<int, (int, usize)>,
    start: int,
    end: int,
    attributes: usize,
    after: Map<int, (int, usize)>,
    page: int,
)
    requires
        is_range_mapped(before, start, end, attributes, after),
    ensures
        start <= page * 4096 < end ==> {
            &&& after.dom().contains(page) <==> attributes % 2 == 1
            &&& attributes % 2 == 1 && attributes as int / 4096 % 0x10_0000_0000 == 0
                ==> after[page].0 == page && after[page].1 == attributes
        },
        !(start <= page * 4096 < end) ==> {
            &&& after.dom().contains(page) <==> before.dom().contains(page)
            &&& before.dom().contains(page) ==> after[page] == before[page]
        },
        is_identity(after) && after.dom().contains(page) ==> after[page].0 == page,
{
    lemma_attributes(attributes);
    if start <= page * 4096 < end {
        assert(after.dom().contains(page) <==> attributes % 2 == 1);
    } else {
        assert(after.dom().contains(page) <==> before.dom().contains(page));
    }
}

/// Pages can be mapped unless bit 1 of the attributes is set, or the pages are not within the 48 bits
/// that the table covers.
pub proof fn lemma_mapping_outcome(start: usize, end: usize, attributes: usize)
    requires
        start < end,
        isize::MAX >= 0x1_0000_0000_0000,
    ensures
        mapping_outcome(start, end, attributes) is Ok <==> attributes as int / 2 % 2 == 0 && end
            <= 0x1_0000_0000_0000,
        mapping_outcome(start, end, attributes) == Err::<(), _>(MapError::InvalidFlags(attributes))
            <==> attributes as int / 2 % 2 == 1,
{
    lemma2_to64();
}

/// Rounding to pages gives multiples of 4096 that are less than 4096 away, below and above.
pub proof fn lemma_rounding_to_pages(address: int)
    ensures
        page_floor(address) % 4096 == 0,
        0 <= address - page_floor(address) < 4096,
        page_ceiling(address) % 4096 == 0,
        0 <= page_ceiling(address) - address < 4096,
{
}

} // verus!
