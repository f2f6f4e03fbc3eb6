//! Registration records: the erased form that the registry stores, and the
//! typed form that a view hands out.

use vstd::prelude::*;
use std::marker::PhantomData;
use crate::erasure::{
    erase_constructor, invoke_constructor, same_text, share_constructor, Constructor,
};
use crate::registration::{describes, ImplInfo, RegisteredImpl};
use crate::render::{quote_text, render, rendering};

verus! {

/// A record in its storage-independent form: the same for every interface.
pub struct ErasedImpl {
    constructor: Constructor,
    has_constructor: bool,
    name: &'static str,
    path: &'static str,
    file: &'static str,
    module: &'static str,
    trait_name: &'static str,
}

impl View for ErasedImpl {
    type V = ImplInfo;

    closed spec fn view(&self) -> ImplInfo {
        ImplInfo {
            name: self.name@,
            path: self.path@,
            file: self.file@,
            module: self.module@,
            trait_name: self.trait_name@,
            has_constructor: self.has_constructor,
            constructor: self.constructor,
        }
    }
}

impl ErasedImpl {
    /// A second record of the same registration.
    pub fn duplicate(&self) -> (copy: ErasedImpl)
        ensures
            copy@ == self@,
    {
        ErasedImpl {
            constructor: share_constructor(&self.constructor),
            has_constructor: self.has_constructor,
            name: self.name,
            path: self.path,
            file: self.file,
            module: self.module,
            trait_name: self.trait_name,
        }
    }

    /// Whether the record was registered under the interface tag `tag`.
    pub fn is_for(&self, tag: &str) -> (matches: bool)
        ensures
            matches == (self@.trait_name == tag@),
    {
        same_text(self.trait_name, tag)
    }
}

/// Registered implementation: a record read under the interface `Trait`.
pub struct RegisteredImplWrapper<Trait> {
    record: ErasedImpl,
    interface: PhantomData<Trait>,
}

impl<Trait> View for RegisteredImplWrapper<Trait> {
    type V = ImplInfo;

    closed spec fn view(&self) -> ImplInfo {
        self.record@
    }
}

impl<Trait> Clone for RegisteredImplWrapper<Trait> {
    /// A second record of the same registration.
    fn clone(&self) -> (copy: Self)
        ensures
            copy@ == self@,
    {
        RegisteredImplWrapper { record: self.record.duplicate(), interface: PhantomData }
    }
}

impl<Trait: 'static> RegisteredImplWrapper<Trait> {
    /// The record of `Type`'s implementation of the interface `Trait`, made
    /// from what the registration site declares.
    pub fn of<Type: RegisteredImpl<Trait>>() -> (record: Self)
        ensures
            describes::<Trait, Type>(record@),
    {
        RegisteredImplWrapper {
            record: ErasedImpl {
                constructor: erase_constructor::<Trait, Type>(),
                has_constructor: Type::HAS_CONSTRUCTOR,
                name: Type::NAME,
                path: Type::PATH,
                file: Type::FILE,
                module: Type::MODULE_PATH,
                trait_name: Type::TRAIT_NAME,
            },
            interface: PhantomData,
        }
    }

    /// Erasure: the record in the form that the registry stores. Nothing of
    /// the registration is lost.
    pub fn erase(self) -> (erased: ErasedImpl)
        ensures
            erased@ == self@,
    {
        self.record
    }

    /// Reification: reads a stored record under the interface `Trait` if, and
    /// only if, it was registered under the interface tag `tag`. The tag is
    /// tested before anything of the record is read as `Trait`'s.
    pub fn reify(erased: &ErasedImpl, tag: &str) -> (record: Option<Self>)
        ensures
            record is Some <==> erased@.trait_name == tag@,
            record is Some ==> record->0@ == erased@,
    {
        if erased.is_for(tag) {
            Some(RegisteredImplWrapper { record: erased.duplicate(), interface: PhantomData })
        } else {
            None
        }
    }

    /// Instanciate type if a constructor has been registered.
    ///
    /// Returns the owned interface value that the constructor made. A record
    /// without a constructor yields `None` and runs nothing; so does a record
    /// whose constructor was registered for another interface that shares
    /// this one's tag.
    pub fn instanciate(&self) -> (instance: Option<Trait>)
        ensures
            !self@.has_constructor ==> instance is None,
    {
        if self.record.has_constructor {
            invoke_constructor::<Trait>(&self.record.constructor)
        } else {
            None
        }
    }

    /// The type name.
    pub fn name(&self) -> (name: &'static str)
        ensures
            name@ == self@.name,
    {
        self.record.name
    }

    /// The type path. This differs from the name when the implementation
    /// stands in another crate or module than the type itself.
    pub fn path(&self) -> (path: &'static str)
        ensures
            path@ == self@.path,
    {
        self.record.path
    }

    /// The file containing the implementation of the trait.
    pub fn file(&self) -> (file: &'static str)
        ensures
            file@ == self@.file,
    {
        self.record.file
    }

    /// The module containing the implementation of the trait.
    pub fn module(&self) -> (module: &'static str)
        ensures
            module@ == self@.module,
    {
        self.record.module
    }

    /// The trait name.
    pub fn trait_name(&self) -> (trait_name: &'static str)
        ensures
            trait_name@ == self@.trait_name,
    {
        self.record.trait_name
    }

    /// The inspection text of the record: type name, type path, trait name,
    /// whether it has a constructor, module path and file. No constructor is
    /// run to write it.
    pub fn describe(&self) -> (text: String)
        ensures
            text@ == rendering(self@),
    {
        let name = quote_text(self.record.name);
        let path = quote_text(self.record.path);
        let trait_name = quote_text(self.record.trait_name);
        let module = quote_text(self.record.module);
        let file = quote_text(self.record.file);
        render(
            name.as_str(),
            path.as_str(),
            trait_name.as_str(),
            self.record.has_constructor,
            module.as_str(),
            file.as_str(),
        )
    }

    /// Whether a constructor has been registered. Recorded at registration:
    /// nothing is constructed to answer this.
    pub fn has_constructor(&self) -> (has: bool)
        ensures
            has == self@.has_constructor,
    {
        self.record.has_constructor
    }
}

} // verus!
