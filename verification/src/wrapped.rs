//! What a type must offer to stand in for a pointer, and the plain word as
//! the variant that translates nothing.

use crate::translate::NULL_PTR;
use vstd::prelude::*;

verus! {

/// A type that stands in for a pointer.
///
/// A value is one word of storage, `word()`. The variant chooses how a
/// stored word and an address correspond (`resolve` and `encode`, each under
/// a base) and which stored words mean "no target" (`null_word`), within the
/// laws below.
pub trait WrappedPtr: Sized {
    /// The word that the value stores.
    spec fn word(&self) -> u64;

    /// The address that the stored word `word` denotes where the region is
    /// mapped at `base`.
    spec fn resolve(word: u64, base: u64) -> u64;

    /// The word to store for the address `addr` where the region is mapped
    /// at `base`.
    spec fn encode(addr: u64, base: u64) -> u64;

    /// Whether the stored word `word` means "no target".
    spec fn null_word(word: u64) -> bool;

    /// A value is nothing but its stored word.
    proof fn lemma_word_determines(a: Self, b: Self)
        requires
            a.word() == b.word(),
        ensures
            a == b,
    ;

    /// The sentinel, stored as it is, means "no target".
    proof fn lemma_sentinel_is_null()
        ensures
            Self::null_word(NULL_PTR),
    ;

    /// The sentinel address is stored as a word that means "no target".
    proof fn lemma_sentinel_encodes_null(base: u64)
        ensures
            Self::null_word(Self::encode(NULL_PTR, base)),
    ;

    /// A word that means "no target" reads as the sentinel address under
    /// every base.
    proof fn lemma_null_resolves_to_sentinel(word: u64, base: u64)
        requires
            Self::null_word(word),
        ensures
            Self::resolve(word, base) == NULL_PTR,
    ;

    /// Storing an address and reading it back under the same base gives the
    /// address again, unless the word stored for it means "no target".
    proof fn lemma_ptr_round_trip(addr: u64, base: u64)
        requires
            !Self::null_word(Self::encode(addr, base)),
        ensures
            Self::resolve(Self::encode(addr, base), base) == addr,
    ;

    /// The stored word, as it is.
    fn value(&self) -> (r: u64)
        ensures
            r == self.word(),
    ;

    /// An address for the stored word that is valid in the current address
    /// space. Which base the current address space has is not known here: the
    /// result is the address under some base, and the sentinel where the
    /// value means "no target".
    fn ptr(&self) -> (r: u64)
        ensures
            exists|base: u64| r == Self::resolve(self.word(), base),
            Self::null_word(self.word()) ==> r == NULL_PTR,
    ;

    /// The value that stores `value` as it is.
    fn from_value(value: u64) -> (r: Self)
        ensures
            r.word() == value,
    ;

    /// The value that stores the word for the address `ptr`, which is valid
    /// in the current address space. The stored word is the word for `ptr`
    /// under some base, and means "no target" where `ptr` is the sentinel.
    fn from_ptr(ptr: u64) -> (r: Self)
        ensures
            exists|base: u64| r.word() == Self::encode(ptr, base),
            ptr == NULL_PTR ==> Self::null_word(r.word()),
    ;

    /// Replaces the stored word by `value`, as it is.
    fn set(&mut self, value: u64)
        ensures
            final(self).word() == value,
    ;

    /// Whether the value means "no target".
    fn is_null(&self) -> (r: bool)
        ensures
            r == Self::null_word(self.word()),
    ;

    /// The null value: the one that stores the sentinel. It is made from the
    /// stored word, never by translating the sentinel address.
    fn null() -> (r: Self)
        ensures
            r.word() == NULL_PTR,
            Self::null_word(r.word()),
    {
        proof {
            Self::lemma_sentinel_is_null();
        }
        Self::from_value(NULL_PTR)
    }
}

/// The value that `null()` makes and the value that `from_value(NULL_PTR)`
/// makes store the same word, so they are one value and nothing tells them
/// apart: it means "no target", and it reads as the sentinel address under
/// every base.
pub proof fn lemma_null_values_agree<T: WrappedPtr>(from_null: T, from_sentinel: T)
    requires
        from_null.word() == NULL_PTR,
        from_sentinel.word() == NULL_PTR,
    ensures
        from_null == from_sentinel,
        T::null_word(from_null.word()),
        forall|base: u64| #[trigger] T::resolve(from_null.word(), base) == NULL_PTR,
{
    T::lemma_word_determines(from_null, from_sentinel);
    T::lemma_sentinel_is_null();
    assert forall|base: u64| #[trigger] T::resolve(from_null.word(), base) == NULL_PTR by {
        T::lemma_null_resolves_to_sentinel(from_null.word(), base);
    }
}

/// The plain word is a pointer that translates nothing: the stored word is
/// the address, under every base.
impl WrappedPtr for u64 {
    open spec fn word(&self) -> u64 {
        *self
    }

    open spec fn resolve(word: u64, base: u64) -> u64 {
        word
    }

    open spec fn encode(addr: u64, base: u64) -> u64 {
        addr
    }

    open spec fn null_word(word: u64) -> bool {
        word == NULL_PTR
    }

    proof fn lemma_word_determines(a: Self, b: Self) {
    }

    proof fn lemma_sentinel_is_null() {
    }

    proof fn lemma_sentinel_encodes_null(base: u64) {
    }

    proof fn lemma_null_resolves_to_sentinel(word: u64, base: u64) {
    }

    proof fn lemma_ptr_round_trip(addr: u64, base: u64) {
    }

    fn value(&self) -> (r: u64) {
        *self
    }

    fn ptr(&self) -> (r: u64)
        ensures
            r == *self,
    {
        assert(*self == Self::resolve(self.word(), 0));
        *self
    }

    fn from_value(value: u64) -> (r: Self) {
        value
    }

    fn from_ptr(ptr: u64) -> (r: Self)
        ensures
            r == ptr,
    {
        assert(ptr == Self::encode(ptr, 0));
        ptr
    }

    fn set(&mut self, value: u64) {
        *self = value;
    }

    fn is_null(&self) -> (r: bool) {
        *self == NULL_PTR
    }
}

} // verus!
