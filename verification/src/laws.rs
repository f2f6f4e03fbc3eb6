//! What holds of every registry and of every view built from it.

use vstd::prelude::*;
use vstd::multiset::Multiset;
use vstd::seq_lib::{to_multiset_build, to_multiset_len};
use vstd::std_specs::slice::into_iter_elts;
use crate::record::RegisteredImplWrapper;
use crate::registration::ImplInfo;
use crate::view::{
    constructible, has_tag, possible_outcomes, present, registered_for, typed_infos, TraitRegStorage,
};

verus! {

/// The positions in `store` of the registrations made under the interface
/// tag `tag`, in rising order.
pub open spec fn positions_for(store: Seq<ImplInfo>, tag: Seq<char>) -> Seq<int>
    decreases store.len(),
{
    if store.len() == 0 {
        Seq::empty()
    } else {
        let earlier = positions_for(store.drop_last(), tag);
        if store.last().trait_name == tag {
            earlier.push(store.len() - 1)
        } else {
            earlier
        }
    }
}

/// A view of an empty registry is empty, whatever the interface.
pub proof fn lemma_nothing_registered(tag: Seq<char>)
    ensures
        registered_for(Seq::<ImplInfo>::empty(), tag) == Seq::<ImplInfo>::empty(),
{
    reveal(Seq::filter);
}

/// A registration shows in the view of its own interface, behind all
/// earlier registrations, and in the view of no other interface.
pub proof fn lemma_registration_extends_its_view(
    store: Seq<ImplInfo>,
    record: ImplInfo,
    tag: Seq<char>,
)
    ensures
        record.trait_name == tag ==> registered_for(store.push(record), tag) == registered_for(
            store,
            tag,
        ).push(record),
        record.trait_name != tag ==> registered_for(store.push(record), tag) == registered_for(
            store,
            tag,
        ),
{
    store.lemma_filter_push(record, has_tag(tag));
}

/// A view holds the registrations made under its tag, each once and all of
/// them, in the order in which they were registered: the record at position
/// `k` of the view is the one that the registry holds at the `k`-th of the
/// positions with that tag.
pub proof fn lemma_view_follows_registry(store: Seq<ImplInfo>, tag: Seq<char>)
    ensures
        registered_for(store, tag).len() == positions_for(store, tag).len(),
        forall|k: int|
            0 <= k < positions_for(store, tag).len() ==> {
                &&& 0 <= #[trigger] positions_for(store, tag)[k] < store.len()
                &&& store[positions_for(store, tag)[k]].trait_name == tag
                &&& registered_for(store, tag)[k] == store[positions_for(store, tag)[k]]
            },
        forall|k: int, l: int|
            0 <= k < l < positions_for(store, tag).len() ==> #[trigger] positions_for(store, tag)[k]
                < #[trigger] positions_for(store, tag)[l],
        forall|i: int|
            0 <= i < store.len() && (#[trigger] store[i]).trait_name == tag ==> positions_for(
                store,
                tag,
            ).contains(i),
    decreases store.len(),
{
    reveal(Seq::filter);
    if store.len() > 0 {
        let shorter = store.drop_last();
        lemma_view_follows_registry(shorter, tag);
        assert(shorter.push(store.last()) =~= store);
        shorter.lemma_filter_push(store.last(), has_tag(tag));
        let earlier = positions_for(shorter, tag);
        let all = positions_for(store, tag);
        assert forall|i: int| 0 <= i < store.len() && (#[trigger] store[i]).trait_name
            == tag implies all.contains(i) by {
            if i < shorter.len() {
                assert(shorter[i] == store[i]);
                assert(earlier.contains(i));
                let k = choose|k: int| 0 <= k < earlier.len() && earlier[k] == i;
                assert(all[k] == i);
            } else {
                assert(all[all.len() - 1] == i);
            }
        }
    }
}

/// The number of records in a view does not depend on the order in which
/// the implementations registered: two registries that hold the same
/// registrations, in whatever order, give views of the same records.
pub proof fn lemma_view_ignores_registration_order(
    first: Seq<ImplInfo>,
    second: Seq<ImplInfo>,
    tag: Seq<char>,
)
    requires
        first.to_multiset() == second.to_multiset(),
    ensures
        registered_for(first, tag).to_multiset() == registered_for(second, tag).to_multiset(),
        registered_for(first, tag).len() == registered_for(second, tag).len(),
{
    let a = registered_for(first, tag).to_multiset();
    let b = registered_for(second, tag).to_multiset();
    assert forall|info: ImplInfo| a.count(info) == b.count(info) by {
        lemma_view_counts(first, tag, info);
        lemma_view_counts(second, tag, info);
    }
    assert(a =~= b);
    to_multiset_len(registered_for(first, tag));
    to_multiset_len(registered_for(second, tag));
}

/// A view holds a registration as often as the registry does if it was made
/// under the view's tag, and not at all otherwise.
pub proof fn lemma_view_counts(store: Seq<ImplInfo>, tag: Seq<char>, info: ImplInfo)
    ensures
        registered_for(store, tag).to_multiset().count(info) == if info.trait_name == tag {
            store.to_multiset().count(info)
        } else {
            0
        },
    decreases store.len(),
{
    broadcast use vstd::multiset::group_multiset_axioms;

    reveal(Seq::filter);
    if store.len() == 0 {
        assert(store.to_multiset() =~= Multiset::<ImplInfo>::empty()) by {
            to_multiset_len(store);
        }
        assert(registered_for(store, tag) =~= store);
    } else {
        let shorter = store.drop_last();
        lemma_view_counts(shorter, tag, info);
        assert(shorter.push(store.last()) =~= store);
        shorter.lemma_filter_push(store.last(), has_tag(tag));
        to_multiset_build(shorter, store.last());
        if store.last().trait_name == tag {
            to_multiset_build(registered_for(shorter, tag), store.last());
        }
    }
}

/// Two views built for one interface tag from one registry hold the same
/// records in the same order.
pub proof fn lemma_views_of_one_tag_agree<Trait>(
    first: TraitRegStorage<Trait>,
    second: TraitRegStorage<Trait>,
    store: Seq<ImplInfo>,
    tag: Seq<char>,
)
    requires
        first@ == registered_for(store, tag),
        second@ == registered_for(store, tag),
    ensures
        first@ == second@,
        first@.len() == second@.len(),
{
}

/// Iteration is repeatable: whenever a view is iterated, the iteration
/// runs over the same records in the same order, those of the view.
pub proof fn lemma_iteration_repeats<Trait>(
    storage: &TraitRegStorage<Trait>,
    first: core::slice::Iter<'_, RegisteredImplWrapper<Trait>>,
    second: core::slice::Iter<'_, RegisteredImplWrapper<Trait>>,
)
    requires
        into_iter_elts(first) == storage.records(),
        into_iter_elts(second) == storage.records(),
    ensures
        into_iter_elts(first) == into_iter_elts(second),
        typed_infos(into_iter_elts(first)) == storage@,
        typed_infos(into_iter_elts(second)) == storage@,
{
}

/// Bulk instantiation yields at most one instance for each record with a
/// constructor and none for the others; it yields exactly one for each
/// record with a constructor when every constructor that was asked made a
/// value.
pub proof fn lemma_instances_of_constructible<T>(records: Seq<ImplInfo>, outcomes: Seq<Option<T>>)
    requires
        possible_outcomes(records, outcomes),
    ensures
        present(outcomes).len() <= constructible(records).len(),
        (forall|i: int| 0 <= i < records.len() && (#[trigger] records[i]).has_constructor
            ==> outcomes[i] is Some) ==> present(outcomes).len() == constructible(records).len(),
    decreases records.len(),
{
    reveal(Seq::filter);
    if records.len() > 0 {
        let shorter = records.drop_last();
        let earlier = outcomes.drop_last();
        assert forall|i: int| 0 <= i < shorter.len() && !(#[trigger] shorter[i]).has_constructor
            implies earlier[i] is None by {
            assert(shorter[i] == records[i]);
        }
        lemma_instances_of_constructible(shorter, earlier);
        assert(!records[records.len() - 1].has_constructor ==> outcomes.last() is None);
        if forall|i: int| 0 <= i < records.len() && (#[trigger] records[i]).has_constructor
            ==> outcomes[i] is Some {
            assert forall|i: int| 0 <= i < shorter.len() && (#[trigger] shorter[i]).has_constructor
                implies earlier[i] is Some by {
                assert(shorter[i] == records[i]);
            }
            assert(records[records.len() - 1].has_constructor ==> outcomes.last() is Some);
        }
    }
}

/// The positions among `records` of the registrations that name a
/// constructor, in rising order.
pub open spec fn constructor_positions(records: Seq<ImplInfo>) -> Seq<int>
    decreases records.len(),
{
    if records.len() == 0 {
        Seq::empty()
    } else {
        let earlier = constructor_positions(records.drop_last());
        if records.last().has_constructor {
            earlier.push(records.len() - 1)
        } else {
            earlier
        }
    }
}

/// When every constructor that is asked makes a value, bulk instantiation
/// yields exactly one instance for each record with a constructor, in the
/// order of those records, and nothing for any other record: the `k`-th
/// instance is the one that the `k`-th record with a constructor made.
pub proof fn lemma_instances_follow_records<T>(records: Seq<ImplInfo>, outcomes: Seq<Option<T>>)
    requires
        possible_outcomes(records, outcomes),
        forall|i: int|
            0 <= i < records.len() && (#[trigger] records[i]).has_constructor
                ==> outcomes[i] is Some,
    ensures
        present(outcomes).len() == constructor_positions(records).len(),
        constructible(records).len() == constructor_positions(records).len(),
        forall|k: int|
            0 <= k < constructor_positions(records).len() ==> {
                &&& 0 <= #[trigger] constructor_positions(records)[k] < records.len()
                &&& records[constructor_positions(records)[k]].has_constructor
                &&& constructible(records)[k] == records[constructor_positions(records)[k]]
                &&& outcomes[constructor_positions(records)[k]] == Some(present(outcomes)[k])
            },
        forall|k: int, l: int|
            0 <= k < l < constructor_positions(records).len()
                ==> #[trigger] constructor_positions(records)[k]
                < #[trigger] constructor_positions(records)[l],
        forall|i: int|
            0 <= i < records.len() && !(#[trigger] records[i]).has_constructor
                ==> outcomes[i] is None && !constructor_positions(records).contains(i),
    decreases records.len(),
{
    reveal(Seq::filter);
    if records.len() > 0 {
        let shorter = records.drop_last();
        let earlier = outcomes.drop_last();
        assert forall|i: int| 0 <= i < shorter.len() implies (#[trigger] shorter[i]) == records[i]
            && earlier[i] == outcomes[i] by {}
        assert(possible_outcomes(shorter, earlier)) by {
            assert forall|i: int|
                0 <= i < shorter.len() && !(#[trigger] shorter[i]).has_constructor
                implies earlier[i] is None by {
                assert(shorter[i] == records[i]);
            }
        }
        assert forall|i: int| 0 <= i < shorter.len() && (#[trigger] shorter[i]).has_constructor
            implies earlier[i] is Some by {
            assert(shorter[i] == records[i]);
        }
        lemma_instances_follow_records(shorter, earlier);
        let last = records.len() - 1;
        assert(records[last].has_constructor ==> outcomes[last] is Some);
        assert(!records[last].has_constructor ==> outcomes[last] is None);
        let before = constructor_positions(shorter);
        let all = constructor_positions(records);
        assert forall|i: int|
            0 <= i < records.len() && !(#[trigger] records[i]).has_constructor
            implies outcomes[i] is None && !all.contains(i) by {
            if all.contains(i) {
                let k = choose|k: int| 0 <= k < all.len() && all[k] == i;
                assert(records[all[k]].has_constructor) by {
                    if k < before.len() {
                        assert(all[k] == before[k]);
                        assert(shorter[before[k]] == records[before[k]]);
                    }
                }
            }
        }
        assert forall|k: int| 0 <= k < all.len() implies {
            &&& 0 <= #[trigger] all[k] < records.len()
            &&& records[all[k]].has_constructor
            &&& constructible(records)[k] == records[all[k]]
            &&& outcomes[all[k]] == Some(present(outcomes)[k])
        } by {
            if k < before.len() {
                assert(all[k] == before[k]);
                assert(shorter[before[k]] == records[before[k]]);
                assert(earlier[before[k]] == outcomes[before[k]]);
                assert(constructible(shorter)[k] == shorter[before[k]]);
            }
        }
    }
}

} // verus!
