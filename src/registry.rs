//! The link registry: shortening a URL to a key, and resolving a key back.

use vstd::prelude::*;

use crate::table::{link_table, no_links, random_key, table_get, table_insert, table_new, LinkMap};

verus! {

/// The page served at the root of the service.
pub fn index() -> (r: &'static str)
    ensures
        r@ == "Hello, world!"@,
{
    "Hello, world!"
}

/// What can go wrong with a registry operation.
#[derive(Debug, Clone, Copy, PartialEq, Eq, Structural)]
pub enum LinkError {
    /// The URL handed to `shorten` was empty.
    InvalidInput,
    /// No link is stored under the key handed to `resolve`.
    NotFound,
}

impl LinkError {
    /// The words that describe the error to a user.
    pub fn message(&self) -> (r: &'static str)
        ensures
            *self == LinkError::InvalidInput ==> r@ == "URL is empty"@,
            *self == LinkError::NotFound ==> r@ == "Invalid or expired link"@,
    {
        match self {
            LinkError::InvalidInput => "URL is empty",
            LinkError::NotFound => "Invalid or expired link",
        }
    }
}

/// The table after shortening `url` under `key`, and what the call returns:
/// an empty URL is refused and leaves the table as it was; any other is
/// stored under the key, over whatever the key held before.
pub open spec fn shorten_outcome(links: Map<u32, Seq<char>>, url: Seq<char>, key: u32) -> (
    Map<u32, Seq<char>>,
    Result<u32, LinkError>,
) {
    if url.len() == 0 {
        (links, Err(LinkError::InvalidInput))
    } else {
        (links.insert(key, url), Ok(key))
    }
}

/// What resolving `key` against the table returns: the URL stored under it,
/// or `NotFound` when there is none.
pub open spec fn resolve_outcome(links: Map<u32, Seq<char>>, key: u32) -> Result<Seq<char>, LinkError> {
    if links.contains_key(key) {
        Ok(links[key])
    } else {
        Err(LinkError::NotFound)
    }
}

/// The key-to-URL mapping that stands behind the short links.
///
/// Storing a link takes the registry by `&mut`; a registry shared between
/// threads is put behind a lock by its owner.
pub struct Registry {
    links: LinkMap,
}

impl View for Registry {
    type V = Map<u32, Seq<char>>;

    closed spec fn view(&self) -> Map<u32, Seq<char>> {
        link_table(self.links)
    }
}

impl Registry {
    /// A registry with no links.
    pub fn new() -> (r: Registry)
        ensures
            r@ == no_links(),
    {
        Registry { links: table_new() }
    }

    /// Stores `url` under the given `key`, over any link the key held before.
    /// An empty URL is refused with `InvalidInput` and nothing is stored.
    pub fn shorten_with_key(&mut self, url: String, key: u32) -> (r: Result<u32, LinkError>)
        ensures
            (final(self)@, r) == shorten_outcome(old(self)@, url@, key),
    {
        if url.as_str().is_empty() {
            Err(LinkError::InvalidInput)
        } else {
            table_insert(&mut self.links, key, url);
            Ok(key)
        }
    }

    /// Stores `url` under a freshly drawn random key and returns that key.
    /// An empty URL is refused with `InvalidInput` and nothing is stored.
    /// No check is made for a key already in use: a collision overwrites.
    pub fn shorten(&mut self, url: String) -> (r: Result<u32, LinkError>)
        ensures
            url@.len() == 0 ==> r == Err::<u32, LinkError>(LinkError::InvalidInput) && final(self)@ == old(self)@,
            url@.len() > 0 ==> r.is_ok(),
            r.is_ok() ==> (final(self)@, r) == shorten_outcome(old(self)@, url@, r.unwrap()),
    {
        if url.as_str().is_empty() {
            return Err(LinkError::InvalidInput);
        }
        let key = random_key();
        self.shorten_with_key(url, key)
    }

    /// The URL stored under `key`, or `NotFound` when there is none.
    /// The registry is left as it was.
    pub fn resolve(&self, key: u32) -> (r: Result<String, LinkError>)
        ensures
            r.is_ok() == resolve_outcome(self@, key).is_ok(),
            r.is_ok() ==> resolve_outcome(self@, key) == Ok::<Seq<char>, LinkError>(r.unwrap()@),
            r.is_err() ==> resolve_outcome(self@, key) == Err::<Seq<char>, LinkError>(r.unwrap_err()),
    {
        match table_get(&self.links, key) {
            Some(url) => Ok(url),
            None => Err(LinkError::NotFound),
        }
    }
}

} // verus!
