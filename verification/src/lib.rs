//! Pointers for memory that several address spaces map at different bases.
//!
//! A pointer kept inside such a region cannot hold an address, which is
//! valid in one address space only. It holds an offset from the base of the
//! region, and is turned into an address with the base at which the reader
//! has the region mapped.
//!
//! - [`translate`]: the sentinel word and the arithmetic between offsets and
//!   addresses, with the laws that it obeys.
//! - [`wrapped`]: what a type must offer to stand in for a pointer, and the
//!   plain word as the variant that translates nothing.
//! - [`pi_ptr`]: the position-independent pointer, and the source of the
//!   base address that it translates with.
//! - [`atomic`]: one atomically accessed slot that holds the stored word of
//!   a wrapped pointer.

pub mod atomic;
pub mod pi_ptr;
pub mod translate;
pub mod wrapped;

pub use atomic::{AtomicPIPtr, AtomicWrappedPtr};
pub use pi_ptr::{GetDataBase, PIPtr};
pub use translate::NULL_PTR;
pub use wrapped::WrappedPtr;
