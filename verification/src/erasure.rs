//! Constructors in a storage-independent form.
//!
//! Records of unrelated interfaces share one registry. What differs between
//! interfaces is the type of the value that a constructor returns, so a
//! constructor is stored as an opaque handle of one uniform type. The handle
//! remembers the type it was made for: invoking it for another interface
//! yields nothing, so a constructor is never run under the wrong interface.

use vstd::prelude::*;
use std::any::Any;
use std::sync::Arc;
use crate::registration::RegisteredImpl;

verus! {

/// An opaque handle to a constructor of some interface.
///
/// Trusted: the handle holds a shared `dyn Any` object, which the verifier
/// cannot look into; all that verified code does with a handle is to pass it
/// on, duplicate it and invoke it.
#[verifier::external_body]
pub struct Constructor {
    inner: Arc<dyn Any + Send + Sync>,
}

/// Trusted: `Arc::new` on the function `Type::instanciate`, unsized to
/// `dyn Any`. Nothing is claimed of the handle.
#[verifier::external_body]
pub(crate) fn erase_constructor<Trait: 'static, Type: RegisteredImpl<Trait>>() -> (handle: Constructor) {
    let constructor: fn() -> Option<Trait> = Type::instanciate;
    Constructor { inner: Arc::new(constructor) }
}

/// Trusted: `<dyn Any>::downcast_ref` to the constructor type of the
/// interface `Trait`, and a call of the constructor where the handle holds
/// one of that type. What the constructor returns is its own affair, so
/// nothing is claimed of the result.
#[verifier::external_body]
pub(crate) fn invoke_constructor<Trait: 'static>(handle: &Constructor) -> (instance: Option<Trait>) {
    match handle.inner.downcast_ref::<fn() -> Option<Trait>>() {
        Some(constructor) => constructor(),
        None => None,
    }
}

/// Trusted: `Arc::clone`, which hands out a second handle to the same
/// constructor.
#[verifier::external_body]
pub(crate) fn share_constructor(handle: &Constructor) -> (shared: Constructor)
    ensures
        shared == *handle,
{
    Constructor { inner: Arc::clone(&handle.inner) }
}

/// Trusted: `==` on `str`, which holds exactly of two strings of the same
/// characters.
#[verifier::external_body]
pub(crate) fn same_text(a: &str, b: &str) -> (same: bool)
    ensures
        same == (a@ == b@),
{
    a == b
}

} // verus!
