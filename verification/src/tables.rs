//! The concurrent maps of the `dashmap` crate, as this library uses them.
//!
//! Verus does not read `dashmap`. Each table below is a `DashMap` keyed by
//! the text of an identity; what it holds is named by a function without a
//! body, and each operation is a thin call whose contract is taken on
//! trust from the crate's source. All of them ask for `&mut` on a table
//! that they change, so that verified code sees one state at a time.

use crate::hub_app::{HubApp, HubAppView};
use crate::link_session::{LinkSession, LinkSessionView};
use crate::sink_session::{SinkSession, SinkSessionView};
use dashmap::DashMap;
use vstd::prelude::*;

verus! {

/// `dashmap::DashMap`, which the verifier takes as opaque.
#[verifier::external_type_specification]
#[verifier::external_body]
#[verifier::reject_recursive_types(K)]
#[verifier::reject_recursive_types(V)]
#[verifier::reject_recursive_types(S)]
pub struct ExDashMap<K, V, S>(DashMap<K, V, S>);

/// The texts of a list of strings, in order.
pub open spec fn texts(v: Seq<String>) -> Seq<Seq<char>> {
    v.map_values(|s: String| s@)
}

// ---------------------------------------------------------------------------
// Reply slots by session id
// ---------------------------------------------------------------------------

/// What a table of reply slots holds: for the text of each session id that
/// waits, the slot that waits for it.
pub uninterp spec fn slot_entries(m: DashMap<String, u64>) -> Map<Seq<char>, u64>;

/// `DashMap::new`: a table that holds nothing.
#[verifier::external_body]
pub(crate) fn slots_new() -> (m: DashMap<String, u64>)
    ensures
        slot_entries(m).dom() == Set::<Seq<char>>::empty(),
{
    DashMap::new()
}

/// `DashMap::insert`: afterwards the key leads to the value and every other
/// key to what it led to before; what the key led to before comes back.
#[verifier::external_body]
pub(crate) fn slots_insert(m: &mut DashMap<String, u64>, key: String, value: u64) -> (displaced:
    Option<u64>)
    ensures
        slot_entries(*final(m)) == slot_entries(*old(m)).insert(key@, value),
        displaced is Some <==> slot_entries(*old(m)).contains_key(key@),
        displaced is Some ==> displaced.unwrap() == slot_entries(*old(m))[key@],
{
    m.insert(key, value)
}

/// `DashMap::remove`: afterwards the key leads nowhere and every other key
/// to what it led to before; the entry that was there comes back.
#[verifier::external_body]
pub(crate) fn slots_remove(m: &mut DashMap<String, u64>, key: &String) -> (taken: Option<
    (String, u64),
>)
    ensures
        slot_entries(*final(m)) == slot_entries(*old(m)).remove(key@),
        taken is Some <==> slot_entries(*old(m)).contains_key(key@),
        taken is Some ==> taken.unwrap().0@ == key@ && taken.unwrap().1 == slot_entries(
            *old(m),
        )[key@],
{
    m.remove(key)
}

// ---------------------------------------------------------------------------
// Session ids by owner
// ---------------------------------------------------------------------------

/// What an owner index holds: for the text of each owner's id, the texts of
/// the ids of its sessions, oldest first.
pub uninterp spec fn index_entries(m: DashMap<String, Vec<String>>) -> Map<
    Seq<char>,
    Seq<Seq<char>>,
>;

/// `DashMap::new`: an index that holds nothing.
#[verifier::external_body]
pub(crate) fn index_new() -> (m: DashMap<String, Vec<String>>)
    ensures
        index_entries(m).dom() == Set::<Seq<char>>::empty(),
{
    DashMap::new()
}

/// `DashMap::insert`, as for the reply slots; a list counts by its texts.
#[verifier::external_body]
pub(crate) fn index_insert(m: &mut DashMap<String, Vec<String>>, key: String, value: Vec<String>)
    -> (displaced: Option<Vec<String>>)
    ensures
        index_entries(*final(m)) == index_entries(*old(m)).insert(key@, texts(value@)),
        displaced is Some <==> index_entries(*old(m)).contains_key(key@),
        displaced is Some ==> texts(displaced.unwrap()@) == index_entries(*old(m))[key@],
{
    m.insert(key, value)
}

/// `DashMap::remove`, as for the reply slots.
#[verifier::external_body]
pub(crate) fn index_remove(m: &mut DashMap<String, Vec<String>>, key: &String) -> (taken: Option<
    (String, Vec<String>),
>)
    ensures
        index_entries(*final(m)) == index_entries(*old(m)).remove(key@),
        taken is Some <==> index_entries(*old(m)).contains_key(key@),
        taken is Some ==> taken.unwrap().0@ == key@ && texts(taken.unwrap().1@) == index_entries(
            *old(m),
        )[key@],
{
    m.remove(key)
}

/// `DashMap::get`, with the list that it finds copied out: the list that
/// the key leads to, if it leads anywhere. The index is as before.
#[verifier::external_body]
pub(crate) fn index_get(m: &DashMap<String, Vec<String>>, key: &String) -> (found: Option<
    Vec<String>,
>)
    ensures
        found is Some <==> index_entries(*m).contains_key(key@),
        found is Some ==> texts(found.unwrap()@) == index_entries(*m)[key@],
{
    m.get(key).map(|entry| entry.value().clone())
}

// ---------------------------------------------------------------------------
// Link sessions by session id
// ---------------------------------------------------------------------------

/// What a store of link sessions holds, by the text of the session id.
pub uninterp spec fn link_session_entries(m: DashMap<String, LinkSession>) -> Map<
    Seq<char>,
    LinkSessionView,
>;

/// `DashMap::new`: a store that holds nothing.
#[verifier::external_body]
pub(crate) fn link_sessions_new() -> (m: DashMap<String, LinkSession>)
    ensures
        link_session_entries(m).dom() == Set::<Seq<char>>::empty(),
{
    DashMap::new()
}

/// `DashMap::insert`, as for the reply slots; a session counts by its view.
#[verifier::external_body]
pub(crate) fn link_sessions_insert(
    m: &mut DashMap<String, LinkSession>,
    key: String,
    value: LinkSession,
) -> (displaced: Option<LinkSession>)
    ensures
        link_session_entries(*final(m)) == link_session_entries(*old(m)).insert(key@, value@),
        displaced is Some <==> link_session_entries(*old(m)).contains_key(key@),
        displaced is Some ==> displaced.unwrap()@ == link_session_entries(*old(m))[key@],
{
    m.insert(key, value)
}

/// `DashMap::remove`, as for the reply slots.
#[verifier::external_body]
pub(crate) fn link_sessions_remove(m: &mut DashMap<String, LinkSession>, key: &String) -> (taken:
    Option<(String, LinkSession)>)
    ensures
        link_session_entries(*final(m)) == link_session_entries(*old(m)).remove(key@),
        taken is Some <==> link_session_entries(*old(m)).contains_key(key@),
        taken is Some ==> taken.unwrap().0@ == key@ && taken.unwrap().1@ == link_session_entries(
            *old(m),
        )[key@],
{
    m.remove(key)
}

// ---------------------------------------------------------------------------
// Sink sessions by session id
// ---------------------------------------------------------------------------

/// What a store of sink sessions holds, by the text of the session id.
pub uninterp spec fn sink_session_entries(m: DashMap<String, SinkSession>) -> Map<
    Seq<char>,
    SinkSessionView,
>;

/// `DashMap::new`: a store that holds nothing.
#[verifier::external_body]
pub(crate) fn sink_sessions_new() -> (m: DashMap<String, SinkSession>)
    ensures
        sink_session_entries(m).dom() == Set::<Seq<char>>::empty(),
{
    DashMap::new()
}

/// `DashMap::insert`, as for the reply slots; a session counts by its view.
#[verifier::external_body]
pub(crate) fn sink_sessions_insert(
    m: &mut DashMap<String, SinkSession>,
    key: String,
    value: SinkSession,
) -> (displaced: Option<SinkSession>)
    ensures
        sink_session_entries(*final(m)) == sink_session_entries(*old(m)).insert(key@, value@),
        displaced is Some <==> sink_session_entries(*old(m)).contains_key(key@),
        displaced is Some ==> displaced.unwrap()@ == sink_session_entries(*old(m))[key@],
{
    m.insert(key, value)
}

/// `DashMap::remove`, as for the reply slots.
#[verifier::external_body]
pub(crate) fn sink_sessions_remove(m: &mut DashMap<String, SinkSession>, key: &String) -> (taken:
    Option<(String, SinkSession)>)
    ensures
        sink_session_entries(*final(m)) == sink_session_entries(*old(m)).remove(key@),
        taken is Some <==> sink_session_entries(*old(m)).contains_key(key@),
        taken is Some ==> taken.unwrap().0@ == key@ && taken.unwrap().1@ == sink_session_entries(
            *old(m),
        )[key@],
{
    m.remove(key)
}

// ---------------------------------------------------------------------------
// Applications by application id
// ---------------------------------------------------------------------------

/// What a registry of applications holds, by the text of the application
/// id.
pub uninterp spec fn app_entries(m: DashMap<String, HubApp>) -> Map<Seq<char>, HubAppView>;

/// `DashMap::new`: a registry that holds nothing.
#[verifier::external_body]
pub(crate) fn apps_new() -> (m: DashMap<String, HubApp>)
    ensures
        app_entries(m).dom() == Set::<Seq<char>>::empty(),
{
    DashMap::new()
}

/// `DashMap::insert`, as for the reply slots; an application counts by its
/// view.
#[verifier::external_body]
pub(crate) fn apps_insert(m: &mut DashMap<String, HubApp>, key: String, value: HubApp) -> (displaced:
    Option<HubApp>)
    ensures
        app_entries(*final(m)) == app_entries(*old(m)).insert(key@, value@),
        displaced is Some <==> app_entries(*old(m)).contains_key(key@),
        displaced is Some ==> displaced.unwrap()@ == app_entries(*old(m))[key@],
{
    m.insert(key, value)
}

/// `DashMap::remove`, as for the reply slots.
#[verifier::external_body]
pub(crate) fn apps_remove(m: &mut DashMap<String, HubApp>, key: &String) -> (taken: Option<
    (String, HubApp),
>)
    ensures
        app_entries(*final(m)) == app_entries(*old(m)).remove(key@),
        taken is Some <==> app_entries(*old(m)).contains_key(key@),
        taken is Some ==> taken.unwrap().0@ == key@ && taken.unwrap().1@ == app_entries(
            *old(m),
        )[key@],
{
    m.remove(key)
}

/// `DashMap::contains_key`: whether the key leads anywhere.
#[verifier::external_body]
pub(crate) fn apps_contains(m: &DashMap<String, HubApp>, key: &String) -> (found: bool)
    ensures
        found == app_entries(*m).contains_key(key@),
{
    m.contains_key(key)
}

} // verus!
