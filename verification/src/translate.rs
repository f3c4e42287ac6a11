//! The sentinel word, and the arithmetic that carries a word between its two
//! representations: an offset from the base of a shared region, and an
//! address in the address space that has the region mapped at that base.
//!
//! Words are 64 bits wide and the arithmetic is taken modulo `2^64`, as
//! pointer arithmetic is. The sentinel is never translated.

use vstd::prelude::*;

verus! {

/// The word that means "no target", read as an offset or as an address.
///
/// Zero cannot serve: an offset of zero is the first byte of the region. The
/// low bits are zero so that the word stays apart from tagged and aligned
/// pointers.
pub const NULL_PTR: u64 = 0x8000_0000_8000_0000;

/// The number of distinct words.
pub open spec fn word_count() -> int {
    0x1_0000_0000_0000_0000
}

/// The offset to store for the address `addr`, seen from an address space
/// that maps the region at `base`.
pub open spec fn offset_of(addr: u64, base: u64) -> u64 {
    if addr == NULL_PTR {
        NULL_PTR
    } else {
        ((addr - base) % word_count()) as u64
    }
}

/// The address that the stored offset `offset` denotes in an address space
/// that maps the region at `base`.
pub open spec fn address_of(offset: u64, base: u64) -> u64 {
    if offset == NULL_PTR {
        NULL_PTR
    } else {
        ((offset + base) % word_count()) as u64
    }
}

/// Where the address is not the sentinel and lies at or above the base, the
/// offset is the plain difference.
pub proof fn lemma_offset_is_difference(addr: u64, base: u64)
    requires
        addr != NULL_PTR,
        base <= addr,
    ensures
        offset_of(addr, base) == addr - base,
{
}

/// Where the offset is not the sentinel and the sum fits in a word, the
/// address is the plain sum.
pub proof fn lemma_address_is_sum(offset: u64, base: u64)
    requires
        offset != NULL_PTR,
        offset + base <= u64::MAX,
    ensures
        address_of(offset, base) == offset + base,
{
}

/// Storing an address and reading it back under the same base gives the
/// address again, for the sentinel and for every address whose offset under
/// that base is not the sentinel.
pub proof fn lemma_round_trip(addr: u64, base: u64)
    requires
        addr == NULL_PTR || offset_of(addr, base) != NULL_PTR,
    ensures
        address_of(offset_of(addr, base), base) == addr,
{
}

/// Reading a stored offset and storing the address again under the same
/// base gives the offset again, for the sentinel and for every offset whose
/// address under that base is not the sentinel.
pub proof fn lemma_round_trip_offset(offset: u64, base: u64)
    requires
        offset == NULL_PTR || address_of(offset, base) != NULL_PTR,
    ensures
        offset_of(address_of(offset, base), base) == offset,
{
}

/// An offset stored under the base `stored_at` and read under the base
/// `read_at` denotes the address moved by the distance between the two
/// bases: the stored word is the same, the address follows the mapping.
pub proof fn lemma_cross_space(addr: u64, stored_at: u64, read_at: u64)
    requires
        offset_of(addr, stored_at) != NULL_PTR,
    ensures
        address_of(offset_of(addr, stored_at), read_at) == (offset_of(addr, stored_at) + read_at)
            % word_count(),
        address_of(offset_of(addr, stored_at), read_at) == (addr - stored_at + read_at)
            % word_count(),
{
}

/// The sentinel is stored as itself and read as itself under every base: no
/// base is ever added to it or taken from it.
pub proof fn lemma_null_preserved(base: u64)
    ensures
        offset_of(NULL_PTR, base) == NULL_PTR,
        address_of(NULL_PTR, base) == NULL_PTR,
{
}

} // verus!
