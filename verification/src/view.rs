//! The typed view: the records of one interface, selected from the registry
//! once and kept in the order of registration.

use vstd::prelude::*;
use vstd::std_specs::slice::into_iter_elts;
use crate::laws::lemma_instances_of_constructible;
use crate::record::RegisteredImplWrapper;
use crate::registration::ImplInfo;
use crate::store::{infos_of, Registry};

verus! {

/// The test that selects the registrations made under the interface tag
/// `tag`.
pub open spec fn has_tag(tag: Seq<char>) -> spec_fn(ImplInfo) -> bool {
    |info: ImplInfo| info.trait_name == tag
}

/// The registrations in `store` made under the interface tag `tag`, in the
/// order in which they stand in `store`.
pub open spec fn registered_for(store: Seq<ImplInfo>, tag: Seq<char>) -> Seq<ImplInfo> {
    store.filter(has_tag(tag))
}

/// The registrations among `records` that name a constructor, in order.
pub open spec fn constructible(records: Seq<ImplInfo>) -> Seq<ImplInfo> {
    records.filter(|info: ImplInfo| info.has_constructor)
}

/// The registrations that a sequence of typed records stands for.
pub open spec fn typed_infos<Trait>(records: Seq<RegisteredImplWrapper<Trait>>) -> Seq<ImplInfo> {
    records.map_values(|record: RegisteredImplWrapper<Trait>| record@)
}

/// The values among `outcomes`, in order: what is left when the empty
/// outcomes are dropped.
pub open spec fn present<T>(outcomes: Seq<Option<T>>) -> Seq<T>
    decreases outcomes.len(),
{
    if outcomes.len() == 0 {
        Seq::empty()
    } else {
        let earlier = present(outcomes.drop_last());
        match outcomes.last() {
            Some(value) => earlier.push(value),
            None => earlier,
        }
    }
}

/// `outcomes` can be what the constructors of `records` return when each is
/// asked once, in order: one outcome for each record, and an empty one for
/// each record without a constructor.
pub open spec fn possible_outcomes<T>(records: Seq<ImplInfo>, outcomes: Seq<Option<T>>) -> bool {
    &&& outcomes.len() == records.len()
    &&& forall|i: int|
        0 <= i < records.len() && !(#[trigger] records[i]).has_constructor ==> outcomes[i] is None
}

/// Trait registry storage. Contains methods to access the registry.
///
/// A storage exists only once it is built, and never changes afterwards.
pub struct TraitRegStorage<Trait> {
    impls: Vec<RegisteredImplWrapper<Trait>>,
}

impl<Trait> View for TraitRegStorage<Trait> {
    type V = Seq<ImplInfo>;

    /// The registrations in the view, oldest first.
    open spec fn view(&self) -> Seq<ImplInfo> {
        typed_infos(self.records())
    }
}

impl<Trait> TraitRegStorage<Trait> {
    /// The records in the view, oldest first.
    pub closed spec fn records(&self) -> Seq<RegisteredImplWrapper<Trait>> {
        self.impls@
    }
}

/// Puts the value of `outcome` behind `instances`, if it holds one.
pub fn keep_present<T>(instances: &mut Vec<T>, outcome: Option<T>)
    ensures
        final(instances)@ == match outcome {
            Some(value) => old(instances)@.push(value),
            None => old(instances)@,
        },
{
    match outcome {
        Some(value) => {
            instances.push(value);
        },
        None => {},
    }
}

impl<Trait: 'static> TraitRegStorage<Trait> {
    /// Builds the view of the interface registered under the tag `trait_`.
    ///
    /// Building a view ends registration. The view holds every record of the
    /// registry with that tag and no other, in the order of registration; the
    /// registry keeps all its records.
    pub fn __new(registry: &mut Registry, trait_: &'static str) -> (storage: Self)
        ensures
            storage@ == registered_for(old(registry)@, trait_@),
            final(registry)@ == old(registry)@,
            final(registry).sealed(),
    {
        registry.seal();
        let snapshot = registry.snapshot();
        let ghost store = registry@;
        let mut impls: Vec<RegisteredImplWrapper<Trait>> = Vec::new();
        let mut i: usize = 0;
        proof {
            reveal(Seq::filter);
            assert(store.take(0) =~= Seq::<ImplInfo>::empty());
            assert(typed_infos(impls@) =~= Seq::<ImplInfo>::empty());
        }
        while i < snapshot.len()
            invariant
                i <= snapshot.len(),
                infos_of(snapshot@) == store,
                typed_infos(impls@) == registered_for(store.take(i as int), trait_@),
            decreases snapshot.len() - i,
        {
            let ghost before = impls@;
            let reified = RegisteredImplWrapper::<Trait>::reify(&snapshot[i], trait_);
            proof {
                assert(store[i as int] == snapshot@[i as int]@);
                assert(store.take(i + 1) =~= store.take(i as int).push(store[i as int]));
                store.take(i as int).lemma_filter_push(store[i as int], has_tag(trait_@));
            }
            match reified {
                Some(record) => {
                    impls.push(record);
                    assert(typed_infos(impls@) =~= typed_infos(before).push(record@));
                },
                None => {},
            }
            i += 1;
        }
        assert(store.take(i as int) =~= store);
        TraitRegStorage { impls }
    }

    /// Iterate over registered implementations, in the order of
    /// registration. Every call starts from the first record again.
    pub fn iter(&self) -> (records: core::slice::Iter<'_, RegisteredImplWrapper<Trait>>)
        ensures
            into_iter_elts(records) == self.records(),
    {
        self.impls.iter()
    }

    /// The number of records in the view.
    pub fn len(&self) -> (len: usize)
        ensures
            len == self@.len(),
    {
        self.impls.len()
    }

    /// The record at position `index`, counted from the oldest.
    pub fn get(&self, index: usize) -> (record: Option<&RegisteredImplWrapper<Trait>>)
        ensures
            record is Some <==> index < self@.len(),
            record is Some ==> *record->0 == self.records()[index as int],
    {
        if index < self.impls.len() {
            Some(&self.impls[index])
        } else {
            None
        }
    }

    /// Asks every record with a constructor for an instance and returns the
    /// instances made, in the order of the records. Records without a
    /// constructor are passed over and run nothing.
    pub fn instanciate_all(&self) -> (instances: Vec<Trait>)
        ensures
            exists|outcomes: Seq<Option<Trait>>|
                #[trigger] possible_outcomes(self@, outcomes) && instances@ == present(outcomes),
            instances@.len() <= constructible(self@).len(),
    {
        let mut instances: Vec<Trait> = Vec::new();
        let ghost mut outcomes: Seq<Option<Trait>> = Seq::empty();
        let mut i: usize = 0;
        while i < self.impls.len()
            invariant
                i <= self.impls.len(),
                possible_outcomes(self@.take(i as int), outcomes),
                instances@ == present(outcomes),
            decreases self.impls.len() - i,
        {
            let outcome = self.impls[i].instanciate();
            proof {
                let ghost longer = outcomes.push(outcome);
                assert(longer.drop_last() =~= outcomes);
                assert(self@.take(i + 1) =~= self@.take(i as int).push(self@[i as int]));
                outcomes = longer;
            }
            keep_present(&mut instances, outcome);
            i += 1;
        }
        proof {
            assert(self@.take(i as int) =~= self@);
            lemma_instances_of_constructible(self@, outcomes);
        }
        instances
    }
}

} // verus!
