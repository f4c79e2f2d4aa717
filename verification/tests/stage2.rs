use ritm::memory_access::MemoryAccessWidth;
use ritm::page_table::{MapError, PAGE_SIZE};
use ritm::stage2::{
    align_down_to_page, align_up_to_page, page_ranges_overlap, to_ipa, MemoryAccessHandler,
    MemoryAccessHandlerRegistry, MemoryAccessRegion, MemoryReadAccess, MemoryReadResult,
    MemoryWriteAccess, MemoryWriteResult, Stage2Builder, Stage2ConfigError, Stage2Range,
    MAX_ALLOWED_RANGES, MAX_MEMORY_ACCESS_HANDLERS,
};

type Read = fn(MemoryReadAccess) -> MemoryReadResult;
type Write = fn(MemoryWriteAccess) -> MemoryWriteResult;

const VALID: usize = 1;
const TABLE_OR_PAGE: usize = 2;
const ATTRIBUTES: usize = VALID | 0x4fc;

fn read_offset(access: MemoryReadAccess) -> MemoryReadResult {
    MemoryReadResult::Value(access.offset)
}

fn read_fault(_access: MemoryReadAccess) -> MemoryReadResult {
    MemoryReadResult::Fault
}

fn write_handled(_access: MemoryWriteAccess) -> MemoryWriteResult {
    MemoryWriteResult::Handled
}

fn handler() -> MemoryAccessHandler<Read, Write> {
    MemoryAccessHandler::read_write(read_offset as Read, write_handled as Write)
}

fn builder() -> Stage2Builder<Read, Write> {
    Stage2Builder::new()
}

/// Returns the descriptors of the mapped ranges, as start, end and attributes.
fn mappings(builder: Stage2Builder<Read, Write>, end: usize) -> Vec<(usize, usize, usize)> {
    let config = builder.build();
    let mut found = vec![];
    config
        .idmap
        .idmap
        .walk_range(
            &aarch64_paging::paging::MemoryRegion::new(0, end),
            &mut |range, descriptor, _level| {
                if descriptor.is_valid() {
                    let flags = descriptor.flags().bits() & !TABLE_OR_PAGE;
                    assert_eq!(descriptor.output_address().0, range.start().0);
                    found.push((range.start().0, range.end().0, flags));
                }
                Ok(())
            },
        )
        .unwrap();
    found
}

#[test]
fn page_size_is_that_of_the_page_table() {
    assert_eq!(PAGE_SIZE, aarch64_paging::paging::PAGE_SIZE);
    assert_eq!(MAX_MEMORY_ACCESS_HANDLERS, 16);
    assert_eq!(MAX_ALLOWED_RANGES, 32);
}

#[test]
fn allowed_range_is_mapped_with_its_attributes() {
    let mut builder = builder();
    assert_eq!(builder.allow_range(0x1000, 0x2000, ATTRIBUTES), Ok(()));
    assert_eq!(
        mappings(builder, 0x8000),
        vec![(0x1000, 0x2000, ATTRIBUTES), (0x2000, 0x3000, ATTRIBUTES)]
    );
}

#[test]
fn range_allowed_without_valid_bit_is_not_mapped() {
    let mut builder = builder();
    assert_eq!(builder.allow_range(0x1000, 0x2000, ATTRIBUTES & !VALID), Ok(()));
    assert_eq!(mappings(builder, 0x8000), vec![]);
}

#[test]
fn handled_range_is_not_mapped() {
    let mut builder = builder();
    assert_eq!(builder.handle_range(0x1000, 0x1000, handler()), Ok(()));
    assert_eq!(builder.allow_range(0x2000, 0x1000, ATTRIBUTES), Ok(()));
    assert_eq!(mappings(builder, 0x8000), vec![(0x2000, 0x3000, ATTRIBUTES)]);
}

#[test]
fn malformed_ranges_are_refused() {
    let mut builder = builder();
    let cases = [
        (0x1001, 0x1000, Stage2ConfigError::RangeBaseNotPageAligned),
        (0x1000, 0, Stage2ConfigError::EmptyRange),
        (0x1000, 0x1001, Stage2ConfigError::RangeSizeNotPageMultiple),
        (0xffff_ffff_ffff_f000, 0x1000, Stage2ConfigError::RangeEndOverflow),
    ];
    for (base, size, error) in cases {
        assert_eq!(builder.allow_range(base, size, ATTRIBUTES), Err(error.clone()));
        assert_eq!(builder.handle_range(base, size, handler()), Err(error.clone()));
        assert_eq!(Stage2Range::new(base, size), Err(error));
    }
    assert_eq!(mappings(builder, 0x8000), vec![]);
}

#[test]
fn range_has_its_end() {
    assert_eq!(
        Stage2Range::new(0x1000, 0x3000),
        Ok(Stage2Range { base_ipa: 0x1000, size: 0x3000, end_ipa: 0x4000 })
    );
}

#[test]
fn overlapping_ranges_are_refused() {
    let mut builder = builder();
    assert_eq!(builder.allow_range(0x4000, 0x2000, ATTRIBUTES), Ok(()));
    assert_eq!(builder.handle_range(0x8000, 0x2000, handler()), Ok(()));
    assert_eq!(
        builder.allow_range(0x5000, 0x2000, ATTRIBUTES),
        Err(Stage2ConfigError::AllowedRangeOverlap)
    );
    assert_eq!(
        builder.allow_range(0x7000, 0x2000, ATTRIBUTES),
        Err(Stage2ConfigError::AllowedRangeOverlapsMemoryAccessHandler)
    );
    assert_eq!(
        builder.handle_range(0x3000, 0x2000, handler()),
        Err(Stage2ConfigError::AllowedRangeOverlapsMemoryAccessHandler)
    );
    assert_eq!(
        builder.handle_range(0x9000, 0x1000, handler()),
        Err(Stage2ConfigError::MemoryAccessHandlerRangeOverlap)
    );
    // Ranges that touch do not overlap.
    assert_eq!(builder.allow_range(0x6000, 0x2000, ATTRIBUTES), Ok(()));
    assert_eq!(builder.handle_range(0xa000, 0x1000, handler()), Ok(()));
}

#[test]
fn ranges_overlap_if_they_share_an_address() {
    assert!(page_ranges_overlap(0x1000, 0x3000, 0x2000, 0x4000));
    assert!(page_ranges_overlap(0x2000, 0x4000, 0x1000, 0x3000));
    assert!(page_ranges_overlap(0x1000, 0x4000, 0x2000, 0x3000));
    assert!(page_ranges_overlap(0x1000, 0x2000, 0x1000, 0x2000));
    assert!(!page_ranges_overlap(0x1000, 0x2000, 0x2000, 0x3000));
    assert!(!page_ranges_overlap(0x2000, 0x3000, 0x1000, 0x2000));
}

#[test]
fn registry_keeps_regions_apart() {
    let region = |base_ipa, size: usize| MemoryAccessRegion {
        base_ipa,
        size,
        handler: handler(),
        end_ipa: base_ipa + size as u64,
    };
    let mut registry: MemoryAccessHandlerRegistry<Read, Write> = MemoryAccessHandlerRegistry::new();
    assert_eq!(registry.register(region(0x4000, 0x2000)), Ok(()));
    assert_eq!(registry.register(region(0x1000, 0x1000)), Ok(()));
    assert_eq!(
        registry.register(region(0x5000, 0x1000)),
        Err(Stage2ConfigError::MemoryAccessHandlerRangeOverlap)
    );
    assert_eq!(registry.register(region(0x6000, 0x1000)), Ok(()));
    assert_eq!(registry.find(0x5fff).unwrap().region.base_ipa, 0x4000);
    assert_eq!(registry.find(0x1800).unwrap().offset, 0x800);
    assert_eq!(registry.find(0x6000).unwrap().region.base_ipa, 0x6000);
    assert!(registry.find(0x3fff).is_none());
}

#[test]
fn allowed_range_table_is_bounded() {
    let mut builder = builder();
    for index in 0..32 {
        assert_eq!(builder.allow_range(index * 0x2000, 0x1000, ATTRIBUTES), Ok(()));
    }
    assert_eq!(
        builder.allow_range(0x10_0000, 0x1000, ATTRIBUTES),
        Err(Stage2ConfigError::TooManyAllowedRanges)
    );
    assert_eq!(
        builder.allow_range(0, 0x1000, ATTRIBUTES),
        Err(Stage2ConfigError::TooManyAllowedRanges)
    );
    assert_eq!(builder.handle_range(0x10_0000, 0x1000, handler()), Ok(()));
}

#[test]
fn handler_registry_is_bounded() {
    let mut builder = builder();
    for index in 0..16 {
        assert_eq!(builder.handle_range(index * 0x1000, 0x1000, handler()), Ok(()));
    }
    assert_eq!(
        builder.handle_range(0x10_0000, 0x1000, handler()),
        Err(Stage2ConfigError::TooManyMemoryAccessHandlerRegions)
    );
    assert_eq!(
        builder.handle_range(0, 0x1000, handler()),
        Err(Stage2ConfigError::TooManyMemoryAccessHandlerRegions)
    );
}

#[test]
fn page_table_refuses_unsupported_mappings() {
    let mut builder = builder();
    assert_eq!(
        builder.allow_range(0x1000, 0x1000, ATTRIBUTES | TABLE_OR_PAGE),
        Err(Stage2ConfigError::MapRange(MapError::InvalidFlags(ATTRIBUTES | TABLE_OR_PAGE)))
    );
    assert_eq!(
        builder.allow_range(0xffff_ffff_f000, 0x2000, ATTRIBUTES),
        Err(Stage2ConfigError::MapRange(MapError::AddressRange(0x1_0000_0000_1000)))
    );
    assert_eq!(
        builder.allow_range(0x8000_0000_0000_0000, 0x1000, ATTRIBUTES),
        Err(Stage2ConfigError::MapRange(MapError::AddressRange(0x8000_0000_0000_0000)))
    );
    // What was refused is not remembered.
    assert_eq!(builder.handle_range(0x1000, 0x1000, handler()), Ok(()));
    assert_eq!(builder.allow_range(0xffff_ffff_f000, 0x1000, ATTRIBUTES), Ok(()));
}

#[test]
fn regions_are_found_in_any_order_of_registration() {
    let mut builder = builder();
    for base in [0x9000, 0x1000, 0x5000, 0x3000, 0x7000] {
        assert_eq!(builder.handle_range(base, 0x1000, handler()), Ok(()));
    }
    let handlers = builder.build().memory_access_handlers;
    for base in [0x1000, 0x3000, 0x5000, 0x7000, 0x9000] {
        for offset in [0, 8, 0xfff] {
            let found = handlers.find(base + offset).unwrap();
            assert_eq!(found.region.base_ipa, base);
            assert_eq!(found.region.size, 0x1000);
            assert_eq!(found.region.end_ipa(), base + 0x1000);
            assert_eq!(found.offset, offset);
            assert_eq!(found.region.offset_of(base + offset), offset);
        }
        assert!(handlers.find(base - 1).is_none());
        assert!(handlers.find(base + 0x1000).is_none());
    }
    assert!(handlers.find(0).is_none());
    assert!(handlers.find(u64::MAX).is_none());
}

#[test]
fn registration_keeps_what_was_found_before() {
    let mut builder = builder();
    let faulting = MemoryAccessHandler::<Read, Write> { read: Some(read_fault), write: None };
    assert_eq!(builder.handle_range(0x5000, 0x1000, faulting), Ok(()));
    assert_eq!(builder.handle_range(0x1000, 0x1000, handler()), Ok(()));
    let handlers = builder.build().memory_access_handlers;
    let access = MemoryReadAccess { ipa: 0x5010, offset: 0x10, width: MemoryAccessWidth::U8 };
    let before = handlers.find(0x5010).unwrap().region.handler;
    assert_eq!(before.read.unwrap()(access), MemoryReadResult::Fault);
    assert!(before.write.is_none());
    let added = handlers.find(0x1010).unwrap().region.handler;
    assert_eq!(added.read.unwrap()(access), MemoryReadResult::Value(0x10));
    assert!(added.write.is_some());
}

#[test]
fn end_of_wrapping_region_is_the_recorded_one() {
    let region = MemoryAccessRegion {
        base_ipa: 0xffff_ffff_ffff_f000,
        size: 0x2000,
        handler: handler(),
        end_ipa: 5,
    };
    assert_eq!(region.end_ipa(), 5);
}

#[test]
fn addresses_are_rounded_to_pages() {
    assert_eq!(align_down_to_page(0), 0);
    assert_eq!(align_down_to_page(0x1fff), 0x1000);
    assert_eq!(align_down_to_page(0x2000), 0x2000);
    assert_eq!(align_up_to_page(0), 0);
    assert_eq!(align_up_to_page(0x1001), 0x2000);
    assert_eq!(align_up_to_page(0x2000), 0x2000);
    assert_eq!(align_up_to_page(usize::MAX - 0xfff), usize::MAX - 0xfff);
    assert_eq!(to_ipa(0x1234), 0x1234);
}
