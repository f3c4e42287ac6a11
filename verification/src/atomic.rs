//! One atomically accessed slot that holds the stored word of a wrapped
//! pointer.
//!
//! The slot lives where every holder can reach it, most often inside the
//! shared region itself, and any holder may write it at any time, from this
//! address space or from another. What a load finds is therefore decided
//! outside the caller: the contracts here state which word a slot is made
//! with, and of a load or an exchange what holds of every outcome.
//! The slot moves stored words in and out and never translates one, except
//! where a function says that it takes or gives an address.

use crate::pi_ptr::PIPtr;
use crate::translate::NULL_PTR;
use crate::wrapped::WrappedPtr;
use core::marker::PhantomData;
use core::sync::atomic::AtomicU64;
use core::sync::atomic::Ordering;
use vstd::prelude::*;

verus! {

/// A slot of one word, read and written only by atomic operations, that
/// holds the stored word of a `T`.
pub struct AtomicWrappedPtr<T: WrappedPtr> {
    inner: AtomicU64,
    variant: PhantomData<T>,
}

/// The atomic slot of a position-independent pointer.
pub type AtomicPIPtr<B> = AtomicWrappedPtr<PIPtr<B>>;

/// The word that an atomic was made with.
///
/// It says nothing of what the atomic holds later: that is the word that
/// any holder wrote last.
pub uninterp spec fn initial_word(slot: AtomicU64) -> u64;

/// Calls `AtomicU64::new`.
///
/// Believed, not proved, as the standard library documents the call: the
/// new atomic is made holding `word`.
#[verifier::external_body]
fn new_word(word: u64) -> (r: AtomicU64)
    ensures
        initial_word(r) == word,
{
    AtomicU64::new(word)
}

/// Calls `AtomicU64::compare_exchange`, with acquire-release ordering where
/// it writes and acquire ordering where it does not.
///
/// Believed, not proved, as the standard library documents the call: an
/// `Ok` carries the word that was replaced, which is `current`; an `Err`
/// carries the word that was found, which is not `current`, since this
/// variant does not fail spuriously. Of the atomic itself the contract says
/// nothing.
#[verifier::external_body]
fn exchange_word(slot: &AtomicU64, current: u64, new: u64) -> (r: Result<u64, u64>)
    ensures
        r matches Ok(replaced) ==> replaced == current,
        r matches Err(found) ==> found != current,
{
    slot.compare_exchange(current, new, Ordering::AcqRel, Ordering::Acquire)
}

impl<T: WrappedPtr> AtomicWrappedPtr<T> {
    /// The word that the slot was made with. What the slot holds later is
    /// the word that any holder wrote last.
    pub closed spec fn initial(&self) -> u64 {
        initial_word(self.inner)
    }

    /// Loads the stored word, with acquire ordering. It is the word that
    /// some holder wrote last, or the word the slot was made with: which one
    /// is not known here, so nothing is promised of it.
    pub fn load_value(&self) -> u64 {
        self.inner.load(Ordering::Acquire)
    }

    /// Loads the stored word, with acquire ordering, and gives the address
    /// that it denotes in the current address space: the address of some
    /// word under some base.
    pub fn load_ptr(&self) -> (r: u64)
        ensures
            exists|word: u64, base: u64| r == T::resolve(word, base),
    {
        let loaded = T::from_value(self.inner.load(Ordering::Acquire));
        let addr: u64 = loaded.ptr();
        assert(exists|base: u64| addr == T::resolve(loaded.word(), base));
        addr
    }

    /// Loads the stored word, with acquire ordering, and gives the `T` that
    /// stores it. Nothing is translated, and nothing is promised of the word.
    pub fn load(&self) -> T {
        T::from_value(self.inner.load(Ordering::Acquire))
    }

    /// A slot made with `value`, as it is.
    pub fn from_value(value: u64) -> (r: Self)
        ensures
            r.initial() == value,
    {
        AtomicWrappedPtr { inner: new_word(value), variant: PhantomData }
    }

    /// A slot made with the word that `T` stores for the address `ptr` of
    /// the current address space: the word for `ptr` under some base, and a
    /// word that means "no target" where `ptr` is the sentinel.
    pub fn from_ptr(ptr: u64) -> (r: Self)
        ensures
            exists|base: u64| r.initial() == T::encode(ptr, base),
            ptr == NULL_PTR ==> T::null_word(r.initial()),
    {
        let made = T::from_ptr(ptr);
        assert(exists|base: u64| made.word() == T::encode(ptr, base));
        AtomicWrappedPtr { inner: new_word(made.value()), variant: PhantomData }
    }

    /// A slot made with the sentinel.
    pub fn null() -> (r: Self)
        ensures
            r.initial() == NULL_PTR,
    {
        AtomicWrappedPtr { inner: new_word(NULL_PTR), variant: PhantomData }
    }

    /// Stores `value`, as it is, with release ordering. The caller hands in
    /// the stored form of a pointer (an offset), never an address. Another
    /// holder may write the slot at once, so nothing is promised of what a
    /// later load finds.
    pub fn store(&self, value: u64) {
        self.inner.store(value, Ordering::Release);
    }

    /// Replaces the stored word by `new` if it is `current`, in one atomic
    /// step, and says which word it found.
    ///
    /// `Ok` carries the word that was replaced, which is `current`. `Err`
    /// carries the word that was found in place of `current`, and the slot
    /// is left as it was. Neither argument and neither result is
    /// translated, and nothing is tried a second time.
    pub fn compare_exchange(&self, current: u64, new: u64) -> (r: Result<u64, u64>)
        ensures
            r matches Ok(replaced) ==> replaced == current,
            r matches Err(found) ==> found != current,
    {
        exchange_word(&self.inner, current, new)
    }
}

} // verus!
