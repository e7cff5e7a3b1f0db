//! Properties of the registry over runs of several calls, proved over the
//! outcomes that `Registry::shorten_with_key` and `Registry::resolve` ensure.

use vstd::prelude::*;

use crate::registry::{resolve_outcome, shorten_outcome, LinkError};
use crate::table::no_links;

verus! {

/// The table after a run of `shorten_with_key` calls, in order, each given
/// as its URL and its key.
pub open spec fn shorten_all(links: Map<u32, Seq<char>>, calls: Seq<(Seq<char>, u32)>) -> Map<
    u32,
    Seq<char>,
>
    decreases calls.len(),
{
    if calls.len() == 0 {
        links
    } else {
        shorten_outcome(shorten_all(links, calls.drop_last()), calls.last().0, calls.last().1).0
    }
}

/// Whether none of the calls stores a link under `key`: each either has
/// another key or an empty URL.
pub open spec fn leaves_key(calls: Seq<(Seq<char>, u32)>, key: u32) -> bool {
    forall|i: int| 0 <= i < calls.len() ==> #[trigger] calls[i].1 != key || calls[i].0.len() == 0
}

/// Calls that store nothing under `key` do not change what `key` resolves to.
/// As `Registry::resolve` leaves the registry as it is, two resolves of one key
/// with only such calls between them give the same answer.
pub proof fn lemma_other_keys_keep_resolve(
    links: Map<u32, Seq<char>>,
    calls: Seq<(Seq<char>, u32)>,
    key: u32,
)
    requires
        leaves_key(calls, key),
    ensures
        resolve_outcome(shorten_all(links, calls), key) == resolve_outcome(links, key),
    decreases calls.len(),
{
    if calls.len() > 0 {
        let rest = calls.drop_last();
        assert forall|i: int| 0 <= i < rest.len() implies #[trigger] rest[i].1 != key
            || rest[i].0.len() == 0 by {
            assert(rest[i] == calls[i]);
        }
        lemma_other_keys_keep_resolve(links, rest, key);
        assert(calls[calls.len() - 1] == calls.last());
    }
}

/// Shortening a non-empty URL returns the key it was stored under, and
/// resolving that key gives the URL back, however many later calls store
/// links under other keys.
pub proof fn lemma_resolve_after_shorten(
    links: Map<u32, Seq<char>>,
    url: Seq<char>,
    key: u32,
    later: Seq<(Seq<char>, u32)>,
)
    requires
        url.len() > 0,
        leaves_key(later, key),
    ensures
        shorten_outcome(links, url, key).1 == Ok::<u32, LinkError>(key),
        resolve_outcome(shorten_all(shorten_outcome(links, url, key).0, later), key) == Ok::<
            Seq<char>,
            LinkError,
        >(url),
{
    lemma_other_keys_keep_resolve(shorten_outcome(links, url, key).0, later, key);
}

/// Shortening an empty URL fails with `InvalidInput`, whatever the key, and
/// leaves the table as it was.
pub proof fn lemma_empty_url_refused(links: Map<u32, Seq<char>>, key: u32)
    ensures
        shorten_outcome(links, Seq::empty(), key) == (links, Err::<u32, LinkError>(LinkError::InvalidInput)),
{
}

/// On a new registry, a key that no call has stored a link under resolves
/// to `NotFound`.
pub proof fn lemma_never_stored_not_found(calls: Seq<(Seq<char>, u32)>, key: u32)
    requires
        leaves_key(calls, key),
    ensures
        resolve_outcome(shorten_all(no_links(), calls), key) == Err::<Seq<char>, LinkError>(LinkError::NotFound),
{
    lemma_other_keys_keep_resolve(no_links(), calls, key);
}

/// After a run of calls with non-empty URLs and pairwise distinct keys, each
/// key resolves to its own URL: no link is lost or given another's URL.
pub proof fn lemma_distinct_keys_all_kept(
    links: Map<u32, Seq<char>>,
    calls: Seq<(Seq<char>, u32)>,
    i: int,
)
    requires
        0 <= i < calls.len(),
        forall|j: int| 0 <= j < calls.len() ==> (#[trigger] calls[j]).0.len() > 0,
        forall|j: int, k: int|
            0 <= j < k < calls.len() ==> (#[trigger] calls[j]).1 != (#[trigger] calls[k]).1,
    ensures
        resolve_outcome(shorten_all(links, calls), calls[i].1) == Ok::<Seq<char>, LinkError>(
            calls[i].0,
        ),
    decreases calls.len(),
{
    let last = calls.len() - 1;
    assert(calls[last] == calls.last());
    if i < last {
        let rest = calls.drop_last();
        assert(rest[i] == calls[i]);
        assert forall|j: int| 0 <= j < rest.len() implies (#[trigger] rest[j]).0.len() > 0 by {
            assert(rest[j] == calls[j]);
        }
        assert forall|j: int, k: int| 0 <= j < k < rest.len() implies (#[trigger] rest[j]).1
            != (#[trigger] rest[k]).1 by {
            assert(rest[j] == calls[j]);
            assert(rest[k] == calls[k]);
        }
        lemma_distinct_keys_all_kept(links, rest, i);
    }
}

/// When two calls store under the same key, the later URL is the one that
/// the key resolves to.
pub proof fn lemma_collision_overwrites(
    links: Map<u32, Seq<char>>,
    first: Seq<char>,
    second: Seq<char>,
    key: u32,
)
    requires
        second.len() > 0,
    ensures
        resolve_outcome(shorten_outcome(shorten_outcome(links, first, key).0, second, key).0, key)
            == Ok::<Seq<char>, LinkError>(second),
{
}

} // verus!
