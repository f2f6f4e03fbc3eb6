//! The untyped store: one append-only sequence of erased records for all
//! interfaces, and the two phases of its life.

use vstd::prelude::*;
use crate::record::{ErasedImpl, RegisteredImplWrapper};
use crate::registration::{describes, ImplInfo, RegisteredImpl};

verus! {

/// The store of all registrations of a program.
///
/// It is open while implementations register, and closed from the moment the
/// first view is built: records are appended only while it is open, and are
/// never changed or removed.
pub struct Registry {
    records: Vec<ErasedImpl>,
    closed: bool,
}

/// The registrations that a sequence of stored records stands for.
pub open spec fn infos_of(records: Seq<ErasedImpl>) -> Seq<ImplInfo> {
    records.map_values(|record: ErasedImpl| record@)
}

impl View for Registry {
    type V = Seq<ImplInfo>;

    /// The registrations so far, oldest first.
    closed spec fn view(&self) -> Seq<ImplInfo> {
        infos_of(self.records@)
    }
}

impl Registry {
    /// Whether registration is over.
    pub closed spec fn sealed(&self) -> bool {
        self.closed
    }

    /// An open registry without registrations.
    pub fn new() -> (registry: Registry)
        ensures
            registry@ == Seq::<ImplInfo>::empty(),
            !registry.sealed(),
    {
        let registry = Registry { records: Vec::new(), closed: false };
        assert(registry@ =~= Seq::<ImplInfo>::empty());
        registry
    }

    /// Appends a record behind all earlier ones. Only an open registry takes
    /// records.
    pub fn append(&mut self, record: ErasedImpl)
        requires
            !old(self).sealed(),
        ensures
            final(self)@ == old(self)@.push(record@),
            !final(self).sealed(),
    {
        self.records.push(record);
        assert(self@ =~= old(self)@.push(record@));
    }

    /// Ends registration. Closing a closed registry changes nothing.
    pub fn seal(&mut self)
        ensures
            final(self).sealed(),
            final(self)@ == old(self)@,
    {
        self.closed = true;
    }

    /// Whether registration is over.
    pub fn is_sealed(&self) -> (sealed: bool)
        ensures
            sealed == self.sealed(),
    {
        self.closed
    }

    /// The number of registrations.
    pub fn len(&self) -> (len: usize)
        ensures
            len == self@.len(),
    {
        self.records.len()
    }

    /// The records for reading, oldest first.
    pub fn snapshot(&self) -> (records: &[ErasedImpl])
        ensures
            infos_of(records@) == self@,
    {
        self.records.as_slice()
    }
}

/// Registers `Type`'s implementation of the interface `Trait`: its record is
/// erased and appended to the registry, behind all earlier registrations.
pub fn __register_impl<Trait: 'static, Type: RegisteredImpl<Trait>>(registry: &mut Registry)
    requires
        !old(registry).sealed(),
    ensures
        final(registry)@.len() == old(registry)@.len() + 1,
        final(registry)@ == old(registry)@.push(final(registry)@.last()),
        describes::<Trait, Type>(final(registry)@.last()),
        !final(registry).sealed(),
{
    let wrapper = RegisteredImplWrapper::<Trait>::of::<Type>();
    let erased = wrapper.erase();
    registry.append(erased);
}

} // verus!
