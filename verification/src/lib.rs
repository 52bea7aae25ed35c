//! A registry of unimplemented behaviours ("stubs") that reports each distinct
//! stub once.
//!
//! [`Stub`] names one unimplemented behaviour. Its view, [`StubView`], is the
//! mathematical value that every contract in this crate speaks of: two stubs
//! are the same stub exactly when their views are equal.
//!
//! [`StubCollection`] records the stubs that a session runs into and tells its
//! caller what to log: one line for the first encounter of a stub, nothing
//! for any later one. [`get_known_stubs`] gathers the stubs that are declared
//! ahead of time into one set.

pub mod collection;
pub mod identity;
pub mod known;
pub mod stub_set;
mod text;

pub use collection::StubCollection;
pub use identity::{Stub, StubView};
pub use known::get_known_stubs;
