//! The position-independent pointer: a word that holds the offset of its
//! target from the base of the shared region, and the source of that base.

use crate::translate::{address_of, offset_of, NULL_PTR};
use crate::wrapped::WrappedPtr;
use core::marker::PhantomData;
use vstd::prelude::*;

verus! {

/// The source of the base address of the shared region.
///
/// The embedding system implements it once for each address space. A
/// position-independent pointer asks it each time it translates, and keeps
/// no answer: the same stored word may next be read where the region is
/// mapped elsewhere.
pub trait GetDataBase {
    /// The address at which the current address space maps the first byte of
    /// the shared region.
    fn get_data_base() -> u64;
}

/// A pointer into the shared region that stays valid in every address space
/// that maps the region.
///
/// It stores the offset of its target from the base of the region. `B` tells
/// where the current address space has the region mapped; it is asked at each
/// translation and never when a word is stored or read as it is.
pub struct PIPtr<B: GetDataBase> {
    offset: u64,
    provider: PhantomData<B>,
}

impl<B: GetDataBase> Clone for PIPtr<B> {
    fn clone(&self) -> (r: Self)
        ensures
            r == *self,
    {
        PIPtr { offset: self.offset, provider: PhantomData }
    }
}

impl<B: GetDataBase> Copy for PIPtr<B> {}

impl<B: GetDataBase> PIPtr<B> {
    /// The address of the target in an address space that maps the region at
    /// `base`: the sentinel for the null pointer, else the stored offset plus
    /// `base`, modulo `2^64`.
    pub fn ptr_at(&self, base: u64) -> (r: u64)
        ensures
            r == address_of(self.word(), base),
    {
        if self.offset == NULL_PTR {
            NULL_PTR
        } else {
            self.offset.wrapping_add(base)
        }
    }

    /// The pointer to the address `ptr` of an address space that maps the
    /// region at `base`: the null pointer for the sentinel, else the pointer
    /// that stores `ptr` minus `base`, modulo `2^64`.
    pub fn from_ptr_at(ptr: u64, base: u64) -> (r: Self)
        ensures
            r.word() == offset_of(ptr, base),
    {
        if ptr == NULL_PTR {
            PIPtr { offset: NULL_PTR, provider: PhantomData }
        } else {
            PIPtr { offset: ptr.wrapping_sub(base), provider: PhantomData }
        }
    }
}

impl<B: GetDataBase> WrappedPtr for PIPtr<B> {
    closed spec fn word(&self) -> u64 {
        self.offset
    }

    open spec fn resolve(word: u64, base: u64) -> u64 {
        address_of(word, base)
    }

    open spec fn encode(addr: u64, base: u64) -> u64 {
        offset_of(addr, base)
    }

    open spec fn null_word(word: u64) -> bool {
        word == NULL_PTR
    }

    proof fn lemma_word_determines(a: Self, b: Self) {
    }

    proof fn lemma_sentinel_is_null() {
    }

    proof fn lemma_sentinel_encodes_null(base: u64) {
    }

    proof fn lemma_null_resolves_to_sentinel(word: u64, base: u64) {
    }

    proof fn lemma_ptr_round_trip(addr: u64, base: u64) {
    }

    /// The stored offset.
    fn value(&self) -> (r: u64) {
        self.offset
    }

    /// The address of the target in the current address space. The null
    /// pointer gives the sentinel and asks for no base; any other pointer
    /// asks `B` for the base and gives the stored offset plus that base.
    fn ptr(&self) -> (r: u64)
        ensures
            self.word() == NULL_PTR ==> r == NULL_PTR,
    {
        if self.offset == NULL_PTR {
            assert(NULL_PTR == Self::resolve(self.word(), 0));
            NULL_PTR
        } else {
            let base: u64 = B::get_data_base();
            let addr: u64 = self.ptr_at(base);
            assert(addr == Self::resolve(self.word(), base));
            addr
        }
    }

    /// The pointer that stores `value` as its offset.
    fn from_value(value: u64) -> (r: Self) {
        PIPtr { offset: value, provider: PhantomData }
    }

    /// The pointer to the address `ptr` of the current address space. The
    /// sentinel gives the null pointer and asks for no base; any other
    /// address asks `B` for the base and stores the address minus that base.
    fn from_ptr(ptr: u64) -> (r: Self)
        ensures
            ptr == NULL_PTR ==> r.word() == NULL_PTR,
    {
        if ptr == NULL_PTR {
            assert(NULL_PTR == Self::encode(ptr, 0));
            PIPtr { offset: NULL_PTR, provider: PhantomData }
        } else {
            let base: u64 = B::get_data_base();
            let made = Self::from_ptr_at(ptr, base);
            assert(made.word() == Self::encode(ptr, base));
            made
        }
    }

    /// Replaces the stored offset by `value`.
    fn set(&mut self, value: u64) {
        self.offset = value;
    }

    /// Whether the stored offset is the sentinel. The address that the
    /// offset would translate to plays no part.
    fn is_null(&self) -> (r: bool)
        ensures
            r == (self.word() == NULL_PTR),
    {
        self.offset == NULL_PTR
    }
}

} // verus!
