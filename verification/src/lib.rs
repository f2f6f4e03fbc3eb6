//! A registry of trait implementations.
//!
//! Implementations of an interface are registered one by one in a shared,
//! untyped [`Registry`]; once every registration has run, a typed
//! [`TraitRegStorage`] is built for each interface and holds, in the order of
//! registration, exactly the records that were registered for it.
//!
//! The registry is an explicit value that the program creates at its entry
//! point and hands to every registration site. Registration and the building
//! of views are two phases: the first view that is built closes the registry,
//! and nothing can be registered afterwards.

pub mod directive;
pub mod erasure;
pub mod laws;
pub mod record;
pub mod registration;
pub mod render;
pub mod store;
pub mod view;

pub use erasure::Constructor;
pub use record::{ErasedImpl, RegisteredImplWrapper};
pub use registration::{ImplInfo, RegisteredImpl};
pub use store::{Registry, __register_impl};
pub use view::TraitRegStorage;
