//! The three aliases of a bus address.
//!
//! Main memory and the hardware registers are visible three times: through
//! the physical address, through the cached window and through the uncached
//! window. Only the top three bits differ.

use vstd::prelude::*;

verus! {

/// The bits that every alias of one location shares.
pub const PHYS_MASK: u32 = 0x1fff_ffff;

/// The top bits of an address in the cached window.
pub const CACHED_BASE: u32 = 0x8000_0000;

/// The top bits of an address in the uncached window.
pub const UNCACHED_BASE: u32 = 0xc000_0000;

/// The physical address behind `addr`.
pub open spec fn phys(addr: u32) -> u32 {
    addr & 0x1fff_ffff
}

/// The cached alias of `addr`.
pub open spec fn cached(addr: u32) -> u32 {
    phys(addr) | 0x8000_0000
}

/// The uncached alias of `addr`.
pub open spec fn uncached(addr: u32) -> u32 {
    phys(addr) | 0xc000_0000
}

/// Strips the window bits from an address.
pub fn as_phys(addr: u32) -> (r: u32)
    ensures
        r == phys(addr),
{
    addr & PHYS_MASK
}

/// Moves an address into the cached window.
pub fn as_cached(addr: u32) -> (r: u32)
    ensures
        r == cached(addr),
{
    as_phys(addr) | CACHED_BASE
}

/// Moves an address into the uncached window.
pub fn as_uncached(addr: u32) -> (r: u32)
    ensures
        r == uncached(addr),
{
    as_phys(addr) | UNCACHED_BASE
}

/// A physical address lies below the windows, and taking the physical
/// address twice changes nothing.
pub proof fn lemma_phys_is_physical(addr: u32)
    ensures
        phys(addr) < 0x2000_0000,
        phys(phys(addr)) == phys(addr),
{
    assert(addr & 0x1fff_ffff < 0x2000_0000 && (addr & 0x1fff_ffff) & 0x1fff_ffff == addr
        & 0x1fff_ffff) by (bit_vector);
}

/// Every alias of an address names the location that the address names, and
/// each alias lies in its own window.
pub proof fn lemma_aliases_share_location(addr: u32)
    ensures
        phys(cached(addr)) == phys(addr),
        phys(uncached(addr)) == phys(addr),
        0x8000_0000 <= cached(addr) < 0xa000_0000,
        0xc000_0000 <= uncached(addr) < 0xe000_0000,
{
    assert(((addr & 0x1fff_ffff) | 0x8000_0000) & 0x1fff_ffff == addr & 0x1fff_ffff && ((addr
        & 0x1fff_ffff) | 0xc000_0000) & 0x1fff_ffff == addr & 0x1fff_ffff && 0x8000_0000 <= ((addr
        & 0x1fff_ffff) | 0x8000_0000) < 0xa000_0000 && 0xc000_0000 <= ((addr & 0x1fff_ffff)
        | 0xc000_0000) < 0xe000_0000) by (bit_vector);
}

} // verus!
