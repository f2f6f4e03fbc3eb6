//! What a registration site supplies, and the mathematical model of one
//! registration.

use vstd::prelude::*;
use crate::erasure::Constructor;

verus! {

/// Implemented for a type `Type` once for each interface it is registered
/// for. `Trait` is the owned interface value that the constructor hands out,
/// usually `Box<dyn Interface>`.
pub trait RegisteredImpl<Trait> {
    /// The name of the implementing type.
    const NAME: &'static str;

    /// The path of the implementing type as written at the registration
    /// site. It differs from `NAME` when the implementation stands in another
    /// scope than the type's definition.
    const PATH: &'static str;

    /// The source file that holds the implementation.
    const FILE: &'static str;

    /// The module that holds the implementation.
    const MODULE_PATH: &'static str;

    /// The name of the interface: the tag by which views select records.
    const TRAIT_NAME: &'static str;

    /// Whether the registration names a constructor. Fixed at registration,
    /// so that nothing has to be constructed to find out.
    const HAS_CONSTRUCTOR: bool;

    /// The constructor: a fresh value of the type behind the interface, or
    /// `None` where the registration names no constructor. It is only ever
    /// called for registrations with `HAS_CONSTRUCTOR`.
    fn instanciate() -> Option<Trait>;
}

/// One registration as plain values: the model of a record in the registry
/// and in a view.
pub struct ImplInfo {
    pub name: Seq<char>,
    pub path: Seq<char>,
    pub file: Seq<char>,
    pub module: Seq<char>,
    pub trait_name: Seq<char>,
    pub has_constructor: bool,
    pub constructor: Constructor,
}

/// `info` carries exactly the data that `Type` declares for its
/// implementation of the interface `Trait`.
pub open spec fn describes<Trait, Type: RegisteredImpl<Trait>>(info: ImplInfo) -> bool {
    &&& info.name == Type::NAME@
    &&& info.path == Type::PATH@
    &&& info.file == Type::FILE@
    &&& info.module == Type::MODULE_PATH@
    &&& info.trait_name == Type::TRAIT_NAME@
    &&& info.has_constructor == Type::HAS_CONSTRUCTOR
}

} // verus!
