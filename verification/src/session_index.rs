//! What both sides of the hub share in keeping sessions: the list of
//! session ids that each owner holds, and what happens to it and to the
//! session store when an owner gets a new session.

use vstd::prelude::*;

verus! {

/// The list that an owner holds in an index, if it holds one.
pub open spec fn ids_of(index: Map<Seq<char>, Seq<Seq<char>>>, owner: Seq<char>) -> Option<
    Seq<Seq<char>>,
> {
    if index.contains_key(owner) {
        Some(index[owner])
    } else {
        None
    }
}

/// The owner's list once `session_id` has been added: the new id alone
/// where the owner had no list or may hold one session only, else the old
/// list with the new id at its end.
pub open spec fn ids_after_add(
    existing: Option<Seq<Seq<char>>>,
    allow_multiple: bool,
    session_id: Seq<char>,
) -> Seq<Seq<char>> {
    match existing {
        Some(ids) if allow_multiple => ids.push(session_id),
        _ => seq![session_id],
    }
}

/// The sessions that give way when an owner gets a new one: all that it
/// had where it may hold one only, none else.
pub open spec fn evicted_by_add(existing: Option<Seq<Seq<char>>>, allow_multiple: bool) -> Seq<
    Seq<char>,
> {
    match existing {
        Some(ids) if !allow_multiple => ids,
        _ => Seq::empty(),
    }
}

/// A store without the sessions whose ids are in `ids`.
pub open spec fn without<V>(store: Map<Seq<char>, V>, ids: Seq<Seq<char>>) -> Map<Seq<char>, V> {
    store.remove_keys(ids.to_set())
}

/// Taking one more id out of a store, after those before it in a list.
pub proof fn lemma_without_next<V>(store: Map<Seq<char>, V>, ids: Seq<Seq<char>>, i: int)
    requires
        0 <= i < ids.len(),
    ensures
        without(store, ids.take(i)).remove(ids[i]) == without(store, ids.take(i + 1)),
{
    let before = ids.take(i);
    let after = ids.take(i + 1);
    assert forall|k: Seq<char>| after.contains(k) <==> (before.contains(k) || k == ids[i]) by {
        if after.contains(k) {
            let j = choose|j: int| 0 <= j < after.len() && after[j] == k;
            if j < i {
                assert(before[j] == k);
            }
        }
        if before.contains(k) {
            let j = choose|j: int| 0 <= j < before.len() && before[j] == k;
            assert(after[j] == k);
        }
        assert(after[i] == ids[i]);
    }
    assert(without(store, before).remove(ids[i]) =~= without(store, after));
}

/// Before any id of a list is taken out the store is whole, and once all
/// are, it is the store without the list.
pub proof fn lemma_without_ends<V>(store: Map<Seq<char>, V>, ids: Seq<Seq<char>>)
    ensures
        without(store, ids.take(0)) == store,
        without(store, ids.take(ids.len() as int)) == without(store, ids),
{
    assert(ids.take(0).to_set() =~= Set::<Seq<char>>::empty());
    assert(without(store, ids.take(0)) =~= store);
    assert(ids.take(ids.len() as int) =~= ids);
}

/// A store without no sessions is the store.
pub proof fn lemma_without_none<V>(store: Map<Seq<char>, V>)
    ensures
        without(store, Seq::<Seq<char>>::empty()) == store,
{
    assert(Seq::<Seq<char>>::empty().to_set() =~= Set::<Seq<char>>::empty());
    assert(without(store, Seq::<Seq<char>>::empty()) =~= store);
}

} // verus!
