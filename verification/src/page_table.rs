//! The stage-2 page table of the guest.

use aarch64_paging::descriptor::Stage2Attributes;
use aarch64_paging::idmap::IdMap;
use aarch64_paging::paging::{MemoryRegion, Stage2};
use aarch64_paging::MapError as IdMapError;
use vstd::prelude::*;

use crate::bits::{bit, field, with_field};

verus! {

/// The size of a stage-2 page in bytes.
pub const PAGE_SIZE: usize = 4096;

/// Error returned when a range cannot be mapped in a page table.
#[derive(Clone, Debug, Eq, PartialEq, Structural)]
pub enum MapError {
    /// The address is out of the range supported by the page table.
    AddressRange(usize),
    /// The address is not valid for the mapping in use.
    InvalidVirtualAddress(usize),
    /// The end of the range is before its start.
    RegionBackwards(usize, usize),
    /// A page table entry could not be updated.
    PteUpdateFault(usize),
    /// The attributes are not supported for the mapping.
    InvalidFlags(usize),
    /// Updating the range would change live entries in one step.
    BreakBeforeMakeViolation(usize, usize),
}

/// Stage-2 identity map: guest memory is mapped to physical memory at the same addresses.
#[verifier::external_body]
pub struct Stage2Map {
    /// The page table.
    pub idmap: IdMap<Stage2>,
}

/// The mapped pages by number, each with the number of the physical page that it is mapped to and
/// the attribute bits of its mapping. The page of address `a` has number `a / 4096`.
pub uninterp spec fn mapped_pages(map: Stage2Map) -> Map<int, (int, usize)>;

/// Whether the page table is in use by a core.
pub uninterp spec fn is_active(map: Stage2Map) -> bool;

/// Whether `attributes` leaves the bits of a descriptor alone that hold the address.
pub open spec fn has_no_address_bits(attributes: usize) -> bool {
    field(attributes as int, 12, 36) == 0
}

/// The bits of `attributes` that do not belong to the address in a descriptor.
pub open spec fn attribute_bits(attributes: usize) -> usize {
    with_field(attributes as int, 12, 36, 0) as usize
}

/// The attribute bit of a valid mapping. Without it, mapping a range makes it inaccessible.
pub open spec fn is_valid_mapping(attributes: usize) -> bool {
    bit(attributes as int, 0)
}

/// Whether `after` are the mapped pages once the pages from `start` to `end` were mapped to themselves
/// with `attributes`, and `before` those before it.
///
/// Attributes with address bits end up in the address that a page is mapped to, which then can be
/// any.
pub open spec fn is_range_mapped(
    before: Map<int, (int, usize)>,
    start: int,
    end: int,
    attributes: usize,
    after: Map<int, (int, usize)>,
) -> bool {
    &&& forall|page: int| #[trigger]
        after.dom().contains(page) <==> if start <= page * PAGE_SIZE < end {
            is_valid_mapping(attributes)
        } else {
            before.dom().contains(page)
        }
    &&& forall|page: int| #[trigger]
        after.dom().contains(page) ==> if start <= page * PAGE_SIZE < end {
            &&& after[page].1 == attribute_bits(attributes)
            &&& has_no_address_bits(attributes) ==> after[page].0 == page
        } else {
            after[page] == before[page]
        }
}

/// Whether each mapped page is mapped to itself.
pub open spec fn is_identity(pages: Map<int, (int, usize)>) -> bool {
    forall|page: int| #[trigger] pages.dom().contains(page) ==> pages[page].0 == page
}

/// Whether the pages from `start` to `end` can be mapped with `attributes` in an inactive table, and
/// if not, why: descriptors set bit 1 by themselves, and the table covers 48 bits of addresses.
pub open spec fn mapping_outcome(start: usize, end: usize, attributes: usize) -> Result<
    (),
    MapError,
> {
    if bit(attributes as int, 1) {
        Err(MapError::InvalidFlags(attributes))
    } else if start > isize::MAX {
        Err(MapError::AddressRange(start))
    } else if end > 0x1_0000_0000_0000 {
        Err(MapError::AddressRange(end))
    } else {
        Ok(())
    }
}

/// Calls `IdMap::new` for a table of four levels: nothing is mapped, and the table is not in use.
#[verifier::external_body]
pub(crate) fn new_map() -> (map: Stage2Map)
    ensures
        mapped_pages(map).dom() == Set::<int>::empty(),
        !is_active(map),
{
    Stage2Map { idmap: IdMap::new(0, Stage2) }
}

/// Calls `IdMap::map_range` on a table that is not in use. Attributes with the table bit and
/// addresses beyond the 48 bits that the table covers are refused, and the table is then as it was.
/// Otherwise each page of the range is mapped with the attributes, or no longer mapped where the
/// attributes are not those of a valid mapping, and the other pages stay as they were. A page is
/// mapped to itself if the attributes have no address bits; where they have some, the address to
/// which it is mapped is left unsaid.
#[verifier::external_body]
pub(crate) fn map_pages(
    map: &mut Stage2Map,
    start: usize,
    end: usize,
    attributes: usize,
) -> (result: Result<(), MapError>)
    requires
        !is_active(*old(map)),
        start < end,
        start as int % 4096 == 0,
        end as int % 4096 == 0,
    ensures
        result == mapping_outcome(start, end, attributes),
        !is_active(*final(map)),
        result is Err ==> mapped_pages(*final(map)) == mapped_pages(*old(map)),
        result is Ok ==> is_range_mapped(
            mapped_pages(*old(map)),
            start as int,
            end as int,
            attributes,
            mapped_pages(*final(map)),
        ),
{
    let attributes = Stage2Attributes::from_bits_retain(attributes);
    map.idmap.map_range(&MemoryRegion::new(start, end), attributes).map_err(
        |error| match error {
            IdMapError::AddressRange(a) => MapError::AddressRange(a.0),
            IdMapError::InvalidVirtualAddress(a) => MapError::InvalidVirtualAddress(a.0),
            IdMapError::RegionBackwards(r) => MapError::RegionBackwards(r.start().0, r.end().0),
            IdMapError::PteUpdateFault(d) => MapError::PteUpdateFault(d),
            IdMapError::InvalidFlags(f) => MapError::InvalidFlags(f),
            IdMapError::BreakBeforeMakeViolation(r) => {
                MapError::BreakBeforeMakeViolation(r.start().0, r.end().0)
            },
        },
    )
}

} // verus!
