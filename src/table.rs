//! The concurrent map and the random source that the registry is built on.

use rand::Rng;
use vstd::prelude::*;

verus! {

#[verifier::external_type_specification]
#[verifier::external_body]
#[verifier::reject_recursive_types(K)]
#[verifier::reject_recursive_types(V)]
#[verifier::reject_recursive_types(S)]
pub struct ExDashMap<K, V, S>(dashmap::DashMap<K, V, S>);

/// The map that holds the links: URLs by key.
pub type LinkMap = dashmap::DashMap<u32, String>;

/// The links that a map holds: each key with the characters of its URL.
pub uninterp spec fn link_table(m: LinkMap) -> Map<u32, Seq<char>>;

/// The table of a registry that holds no links.
pub open spec fn no_links() -> Map<u32, Seq<char>> {
    Map::empty()
}

/// Relies on `dashmap::DashMap::new`: a new map holds no entries.
#[verifier::external_body]
pub(crate) fn table_new() -> (r: LinkMap)
    ensures
        link_table(r) == no_links(),
{
    dashmap::DashMap::new()
}

/// Relies on `dashmap::DashMap::insert`: the key now maps to the given value,
/// whether or not it held one before, and every other entry stays as it was.
#[verifier::external_body]
pub(crate) fn table_insert(m: &mut LinkMap, key: u32, url: String)
    ensures
        link_table(*final(m)) == link_table(*old(m)).insert(key, url@),
{
    m.insert(key, url);
}

/// Relies on `dashmap::DashMap::get`: the value stored under the key, if any,
/// handed back here as a copy.
#[verifier::external_body]
pub(crate) fn table_get(m: &LinkMap, key: u32) -> (r: Option<String>)
    ensures
        r.is_some() == link_table(*m).contains_key(key),
        r.is_some() ==> r.unwrap()@ == link_table(*m)[key],
{
    m.get(&key).map(|e| e.value().clone())
}

/// Relies on `rand::thread_rng` and `Rng::gen`: a key drawn at random from
/// the whole `u32` range. Nothing is known of which key comes out.
#[verifier::external_body]
pub(crate) fn random_key() -> (r: u32) {
    rand::thread_rng().gen::<u32>()
}

} // verus!
