//! A verified model of a handle to a wide-character string whose storage is
//! owned by a foreign runtime.
//!
//! The handle exposes the string as a sequence of characters together with a
//! modeled capacity in wide-character units.  Reading, mutation, comparison
//! and stack-scoped construction are specified over that sequence; the
//! foreign runtime's own allocator and move semantics stay outside of this
//! library.

pub mod compare;
pub mod interop;
pub mod laws;
pub mod stack;
pub mod wstring;

pub use stack::StackWString;
pub use wstring::CxxWString;
