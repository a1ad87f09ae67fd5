//! Concurrency-safe memoization of one live token per subject.
//!
//! The store is a `dashmap::DashMap`, kept behind trusted wrappers; its
//! contents are named by the uninterpreted function [`cache_entries`], a map
//! from subject to the cached token text. The expiry-aware read — an
//! expired or undecodable entry is treated as absent and never handed out —
//! is verified code.

use vstd::prelude::*;

use crate::codec::decode;
use crate::codec::token_live;

verus! {

#[verifier::external_type_specification]
#[verifier::external_body]
#[verifier::reject_recursive_types(K)]
#[verifier::reject_recursive_types(V)]
#[verifier::reject_recursive_types(S)]
pub struct ExDashMap<K, V, S>(dashmap::DashMap<K, V, S>);

/// What a `DashMap` used as a token cache holds: the mapping from subject
/// to the token text stored under it.
pub uninterp spec fn cache_entries(m: dashmap::DashMap<String, String>) -> Map<Seq<char>, Seq<char>>;

/// Mapping from subject identifier to a currently cached token, at most one
/// entry per subject.
///
/// An entry is installed only on successful issuance, so at that moment its
/// token is live; it may turn stale while resident, and [`TokenCache::get`]
/// then treats it as absent.
pub struct TokenCache {
    inner: dashmap::DashMap<String, String>,
}

impl TokenCache {
    /// The subject-to-token mapping currently held.
    pub closed spec fn entries(&self) -> Map<Seq<char>, Seq<char>> {
        cache_entries(self.inner)
    }

    /// Relies on dashmap::DashMap::new: creates an empty map.
    #[verifier::external_body]
    pub fn new() -> (cache: TokenCache)
        ensures
            forall|s: Seq<char>| !cache.entries().contains_key(s),
    {
        TokenCache { inner: dashmap::DashMap::new() }
    }

    /// Relies on dashmap::DashMap::get: returns a copy of the value stored
    /// under the key, or nothing when the key is absent.
    #[verifier::external_body]
    fn lookup(&self, subject: &str) -> (r: Option<String>)
        ensures
            match r {
                Some(t) => cache_entries(self.inner).contains_key(subject@) && t@ == cache_entries(
                    self.inner,
                )[subject@],
                None => !cache_entries(self.inner).contains_key(subject@),
            },
    {
        self.inner.get(subject).map(|entry| entry.value().clone())
    }

    /// Relies on dashmap::DashMap::insert: installs or replaces the entry
    /// under the key.
    #[verifier::external_body]
    fn store(&mut self, subject: String, token: String)
        ensures
            cache_entries(final(self).inner) == cache_entries(old(self).inner).insert(
                subject@,
                token@,
            ),
    {
        self.inner.insert(subject, token);
    }

    /// Unconditionally installs or replaces the entry for `subject`.
    pub fn put(&mut self, subject: String, token: String)
        ensures
            final(self).entries() == old(self).entries().insert(subject@, token@),
    {
        self.store(subject, token);
    }

    /// Returns the token cached for `subject` only if, decoded under `key`,
    /// it is still live at `now`. An entry that has expired — or cannot be
    /// decoded at all — is treated as absent: an expired token is never
    /// returned. The cache itself is not changed.
    pub fn get(&self, subject: &str, key: &[u8], now: u64) -> (r: Option<String>)
        ensures
            match r {
                Some(t) => self.entries().contains_key(subject@) && t@ == self.entries()[
                    subject@
                ] && token_live(t@, key@, now),
                None => !self.entries().contains_key(subject@) || !token_live(
                    self.entries()[subject@],
                    key@,
                    now,
                ),
            },
    {
        match self.lookup(subject) {
            None => None,
            Some(token) => match decode(token.as_str(), key, now) {
                Ok(_) => Some(token),
                Err(_) => None,
            },
        }
    }
}

} // verus!
