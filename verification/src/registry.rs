//! The version registry: a cache mapping server endpoints to the protocol
//! version they negotiated.
//!
//! The cache itself is a concurrent map from an outside crate, specified at
//! its boundary; the registry's read/record rules are verified on top of it.
//! The registry is an explicitly owned value: callers that share one across
//! tasks put it behind their own synchronization.

use std::collections::hash_map::RandomState;

use vstd::prelude::*;

use crate::version::{
    default_server_version, spec_version_from_rank, spec_version_from_wire, version_from_rank,
    version_from_wire, ExchangeServerVersion,
};

verus! {

#[verifier::external_type_specification]
#[verifier::external_body]
#[verifier::reject_recursive_types(K)]
#[verifier::reject_recursive_types(V)]
#[verifier::reject_recursive_types(S)]
pub struct ExDashMap<K, V, S>(dashmap::DashMap<K, V, S>);

/// The concurrent map type backing the registry.
pub type VersionCacheMap = dashmap::DashMap<String, u64, RandomState>;

/// The entries a version cache holds, keyed by endpoint.
pub uninterp spec fn version_cache_entries(m: VersionCacheMap) -> Map<Seq<char>, u64>;

/// Relies on dashmap::DashMap::new: creates a map with no entries.
#[verifier::external_body]
fn cache_new() -> (created: VersionCacheMap)
    ensures
        forall|key: Seq<char>| !version_cache_entries(created).dom().contains(key),
{
    dashmap::DashMap::new()
}

/// Relies on dashmap::DashMap::insert: maps the key to the new value,
/// replacing any value the key had before.
#[verifier::external_body]
fn cache_insert(m: &mut VersionCacheMap, key: &String, value: u64)
    ensures
        version_cache_entries(*final(m)) == version_cache_entries(*old(m)).insert(key@, value),
{
    m.insert(key.clone(), value);
}

/// Relies on dashmap::DashMap::get: returns the value the key maps to, if any.
#[verifier::external_body]
fn cache_get(m: &VersionCacheMap, key: &String) -> (r: Option<u64>)
    ensures
        r == if version_cache_entries(*m).dom().contains(key@) {
            Some(version_cache_entries(*m)[key@])
        } else {
            None::<u64>
        },
{
    m.get(key).map(|entry| *entry.value())
}

/// A cache mapping each endpoint to the most recently recorded server version,
/// with last-write-wins semantics per endpoint.
pub struct VersionRegistry {
    cache: VersionCacheMap,
}

impl VersionRegistry {
    /// The versions currently recorded, keyed by endpoint.
    pub closed spec fn versions(self) -> Map<Seq<char>, ExchangeServerVersion> {
        version_cache_entries(self.cache).map_values(|rank: u64| spec_version_from_rank(
            rank as int,
        ))
    }

    /// Creates a registry with no recorded versions.
    pub fn new() -> (r: VersionRegistry)
        ensures
            forall|endpoint: Seq<char>| !r.versions().dom().contains(endpoint),
    {
        VersionRegistry { cache: cache_new() }
    }

    /// Reads the version recorded for an endpoint, or the conservative
    /// baseline if none was recorded yet.
    pub fn read_server_version(&self, endpoint: &String) -> (v: ExchangeServerVersion)
        ensures
            v == if self.versions().dom().contains(endpoint@) {
                self.versions()[endpoint@]
            } else {
                ExchangeServerVersion::Exchange2007_SP1
            },
    {
        match cache_get(&self.cache, endpoint) {
            Some(rank) => version_from_rank(rank),
            None => default_server_version(),
        }
    }

    /// Records the version negotiated with an endpoint, overwriting any
    /// earlier record for the same endpoint.
    pub fn store_server_version(
        &mut self,
        endpoint: &String,
        version: ExchangeServerVersion,
    )
        ensures
            final (self).versions() == old(self).versions().insert(endpoint@, version),
    {
        let rank = version.rank();
        cache_insert(&mut self.cache, endpoint, rank);
        proof {
            assert(final (self).versions() =~= old(self).versions().insert(endpoint@, version));
        }
    }

    /// Applies the version identifier carried by a response header.
    ///
    /// A missing or empty identifier leaves the registry unchanged and
    /// reports the version currently on record. A known identifier is
    /// recorded. An unknown identifier records the most recent known version,
    /// keeping the client forward-compatible with newer servers.
    pub fn update_server_version_from_header(
        &mut self,
        endpoint: &String,
        header_version: Option<&String>,
    ) -> (v: ExchangeServerVersion)
        ensures
            match header_version {
                None => final (self).versions() == old(self).versions(),
                Some(s) => if s@.len() == 0 {
                    final (self).versions() == old(self).versions()
                } else {
                    final (self).versions() == old(self).versions().insert(
                        endpoint@,
                        spec_header_version(s@),
                    ) && v == spec_header_version(s@)
                },
            },
            (match header_version {
                None => true,
                Some(s) => s@.len() == 0,
            }) ==> v == if old(self).versions().dom().contains(endpoint@) {
                old(self).versions()[endpoint@]
            } else {
                ExchangeServerVersion::Exchange2007_SP1
            },
    {
        let version_string = match header_version {
            None => {
                return self.read_server_version(endpoint);
            },
            Some(s) => {
                if s.as_str().unicode_len() == 0 {
                    return self.read_server_version(endpoint);
                }
                s
            },
        };
        let version = match version_from_wire(version_string.as_str()) {
            Some(version) => version,
            None => ExchangeServerVersion::Exchange2013_SP1,
        };
        self.store_server_version(endpoint, version);
        version
    }
}

/// The version a response header identifier records: the version it names, or
/// the most recent known version when the identifier is unknown.
pub open spec fn spec_header_version(s: Seq<char>) -> ExchangeServerVersion {
    match spec_version_from_wire(s) {
        Some(v) => v,
        None => ExchangeServerVersion::Exchange2013_SP1,
    }
}

} // verus!
