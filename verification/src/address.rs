//! Addresses in the debuggee and the pages that contain them.

use vstd::prelude::*;

verus! {

/// A load address in the debuggee's address space.
pub type Address = u64;

/// Size of a page in bytes.
pub const PAGE_SIZE: u64 = 0x1000;

/// Mask that clears the offset of an address within its page.
pub const PAGE_MASK: u64 = 0xFFFF_FFFF_FFFF_F000;

/// Mask that clears the page offset and the top byte, which some
/// architectures use for tags that are not part of the address.
pub const CANONICAL_PAGE_MASK: u64 = 0x00FF_FFFF_FFFF_F000;

/// The page that contains `address`: the address with its low 12 bits cleared.
pub open spec fn align(address: Address) -> Address {
    address & PAGE_MASK
}

/// Whether `address` is the first byte of a page.
pub open spec fn is_page_aligned(address: Address) -> bool {
    address & 0xFFF == 0
}

/// The page that a watch on `address` covers: the tag bits in the top byte are
/// dropped, then the address is aligned down to its page.
pub open spec fn watch_page(address: Address) -> Address {
    address & CANONICAL_PAGE_MASK
}

/// Whether `address` lies in the page that starts at `page`.
pub open spec fn in_page(page: Address, address: Address) -> bool {
    page <= address && address - page < PAGE_SIZE
}

/// Aligns an address down to the start of its page.
pub fn page_of(address: Address) -> (page: Address)
    ensures
        page == align(address),
        is_page_aligned(page),
        in_page(page, address),
{
    proof {
        lemma_align_bounds(address);
    }
    address & PAGE_MASK
}

/// The page that a watch on `address` is registered under.
pub fn watched_page_of(address: Address) -> (page: Address)
    ensures
        page == watch_page(address),
        is_page_aligned(page),
        align(page) == page,
{
    proof {
        lemma_watch_page_aligned(address);
    }
    address & CANONICAL_PAGE_MASK
}

/// Aligning twice is aligning once, and an aligned address has no page offset.
pub proof fn lemma_align_idempotent(address: Address)
    ensures
        align(align(address)) == align(address),
        is_page_aligned(align(address)),
        align(address) & 0xFFF == 0,
{
    assert((address & 0xFFFF_FFFF_FFFF_F000u64) & 0xFFFF_FFFF_FFFF_F000u64 == address
        & 0xFFFF_FFFF_FFFF_F000u64) by (bit_vector);
    assert((address & 0xFFFF_FFFF_FFFF_F000u64) & 0xFFFu64 == 0) by (bit_vector);
}

/// An address lies in the page it aligns to.
pub proof fn lemma_align_bounds(address: Address)
    ensures
        align(address) <= address,
        address - align(address) < PAGE_SIZE,
        in_page(align(address), address),
        is_page_aligned(align(address)),
{
    assert((address & 0xFFFF_FFFF_FFFF_F000u64) <= address) by (bit_vector);
    assert(address - (address & 0xFFFF_FFFF_FFFF_F000u64) < 0x1000) by (bit_vector);
    assert((address & 0xFFFF_FFFF_FFFF_F000u64) & 0xFFFu64 == 0) by (bit_vector);
}

/// Every address within a page aligns to the start of that page.
pub proof fn lemma_align_within_page(page: Address, address: Address)
    requires
        is_page_aligned(page),
        in_page(page, address),
    ensures
        align(address) == page,
{
    assert(address & 0xFFFF_FFFF_FFFF_F000u64 == page) by (bit_vector)
        requires
            page & 0xFFFu64 == 0,
            page <= address,
            address - page < 0x1000,
    ;
}

/// A page-aligned address is its own page.
pub proof fn lemma_aligned_is_fixed(page: Address)
    requires
        is_page_aligned(page),
    ensures
        align(page) == page,
{
    assert(page & 0xFFFF_FFFF_FFFF_F000u64 == page) by (bit_vector)
        requires
            page & 0xFFFu64 == 0,
    ;
}

/// The page of a watch is page-aligned, carries no tag bits, and is the page
/// of the address once its tag bits are dropped.
pub proof fn lemma_watch_page_aligned(address: Address)
    ensures
        is_page_aligned(watch_page(address)),
        align(watch_page(address)) == watch_page(address),
        watch_page(address) == align(address & 0x00FF_FFFF_FFFF_FFFF),
        watch_page(watch_page(address)) == watch_page(address),
        address <= 0x00FF_FFFF_FFFF_FFFF ==> watch_page(address) == align(address),
{
    assert((address & 0x00FF_FFFF_FFFF_F000u64) & 0xFFFu64 == 0) by (bit_vector);
    assert((address & 0x00FF_FFFF_FFFF_F000u64) & 0xFFFF_FFFF_FFFF_F000u64 == address
        & 0x00FF_FFFF_FFFF_F000u64) by (bit_vector);
    assert(address & 0x00FF_FFFF_FFFF_F000u64 == (address & 0x00FF_FFFF_FFFF_FFFFu64)
        & 0xFFFF_FFFF_FFFF_F000u64) by (bit_vector);
    assert((address & 0x00FF_FFFF_FFFF_F000u64) & 0x00FF_FFFF_FFFF_F000u64 == address
        & 0x00FF_FFFF_FFFF_F000u64) by (bit_vector);
    assert(address <= 0x00FF_FFFF_FFFF_FFFFu64 ==> address & 0x00FF_FFFF_FFFF_F000u64 == address
        & 0xFFFF_FFFF_FFFF_F000u64) by (bit_vector);
}

} // verus!
