//! The cache of verification keys, refreshed from a key source on a miss or
//! on expiry.

use vstd::prelude::*;

use crate::error::Error;
use crate::verification::jwk::{usable_at, Jwk};
use crate::verification::signature::WebhookVerificationError;

verus! {

/// A source of the currently published verification keys.
pub trait KeyFetcher {
    /// Fetches the published key set.
    fn fetch_keys(&mut self) -> Result<Vec<Jwk>, Error>;
}

/// Whether some key of `keys` has the identifier `id`.
pub open spec fn holds_id(keys: Seq<Jwk>, id: Seq<char>) -> bool {
    exists|i: int| 0 <= i < keys.len() && #[trigger] keys[i].key_id@ == id
}

/// Whether no two keys of `keys` share an identifier.
pub open spec fn ids_distinct(keys: Seq<Jwk>) -> bool {
    forall|i: int, j: int|
        0 <= i < keys.len() && 0 <= j < keys.len() && i != j ==> keys[i].key_id@ != keys[j].key_id@
}

/// The keys of `keys` by identifier.
pub open spec fn keys_by_id(keys: Seq<Jwk>) -> Map<Seq<char>, Jwk> {
    Map::new(
        |id: Seq<char>| holds_id(keys, id),
        |id: Seq<char>| keys[choose|i: int| 0 <= i < keys.len() && #[trigger] keys[i].key_id@ == id],
    )
}

/// `m` with each key of `fetched` stored under its own identifier, in order,
/// so that a later key replaces an earlier one of the same identifier.
pub open spec fn installed(m: Map<Seq<char>, Jwk>, fetched: Seq<Jwk>) -> Map<Seq<char>, Jwk>
    decreases fetched.len(),
{
    if fetched.len() == 0 {
        m
    } else {
        installed(m, fetched.drop_last()).insert(fetched.last().key_id@, fetched.last())
    }
}

/// The entry of `m` for `id`, where there is one that may be used at `now`.
pub open spec fn fresh_entry(m: Map<Seq<char>, Jwk>, id: Seq<char>, now: u64) -> Option<Jwk> {
    if m.contains_key(id) && usable_at(m[id], now) {
        Some(m[id])
    } else {
        None
    }
}

/// The view of what a key source handed back.
pub open spec fn fetched_view(fetched: Result<Vec<Jwk>, Error>) -> Result<Seq<Jwk>, Error> {
    match fetched {
        Ok(keys) => Ok(keys@),
        Err(e) => Err(e),
    }
}

/// The cache, and the result of resolving `id` at `now`, after the key source
/// handed back `fetched` to a cache that held `m`: a failed fetch leaves the
/// cache as it was; a successful one installs every key fetched, and the
/// result is the fetched key of that identifier where it may be used.
pub open spec fn after_fetch(
    m: Map<Seq<char>, Jwk>,
    id: Seq<char>,
    fetched: Result<Seq<Jwk>, Error>,
    now: u64,
) -> (Map<Seq<char>, Jwk>, Result<Jwk, WebhookVerificationError>) {
    match fetched {
        Err(e) => (m, Err(WebhookVerificationError::ApiError(e))),
        Ok(keys) => {
            let m2 = installed(m, keys);
            (
                m2,
                if holds_id(keys, id) && usable_at(m2[id], now) {
                    Ok(m2[id])
                } else {
                    Err(WebhookVerificationError::KeyNotFound)
                },
            )
        },
    }
}

/// Whether every key of `m` is stored under its own identifier.
pub open spec fn stored_under_own_ids(m: Map<Seq<char>, Jwk>) -> bool {
    forall|id: Seq<char>| #[trigger] m.contains_key(id) ==> m[id].key_id@ == id
}

/// Adds one to a counter that stops at its largest value.
pub open spec fn count_up(n: u64) -> u64 {
    if n < u64::MAX {
        (n + 1) as u64
    } else {
        n
    }
}

/// Verification keys by identifier, with the number of fetches made so far.
pub struct KeyCache {
    keys: Vec<Jwk>,
    fetches: u64,
}

impl View for KeyCache {
    type V = Map<Seq<char>, Jwk>;

    closed spec fn view(&self) -> Map<Seq<char>, Jwk> {
        keys_by_id(self.keys@)
    }
}

impl KeyCache {
    /// The cache's own invariant: one entry per identifier.
    pub closed spec fn wf(&self) -> bool {
        ids_distinct(self.keys@)
    }

    /// The number of fetches that this cache has made, stopping at the
    /// largest `u64`.
    pub closed spec fn fetches(&self) -> u64 {
        self.fetches
    }

    /// An empty cache.
    pub fn new() -> (r: KeyCache)
        ensures
            r.wf(),
            r@ == Map::<Seq<char>, Jwk>::empty(),
            r.fetches() == 0,
    {
        let r = KeyCache { keys: Vec::new(), fetches: 0 };
        assert(r@ =~= Map::<Seq<char>, Jwk>::empty());
        r
    }

    /// The number of fetches made so far.
    pub fn fetch_count(&self) -> (r: u64)
        ensures
            r == self.fetches(),
    {
        self.fetches
    }

    /// The position of the entry for `id`, if there is one.
    fn position(&self, id: &String) -> (r: Option<usize>)
        requires
            self.wf(),
        ensures
            match r {
                Some(i) => i < self.keys@.len() && self.keys@[i as int].key_id@ == id@,
                None => !holds_id(self.keys@, id@),
            },
    {
        let mut i: usize = 0;
        while i < self.keys.len()
            invariant
                0 <= i <= self.keys@.len(),
                forall|j: int| 0 <= j < i ==> self.keys@[j].key_id@ != id@,
            decreases self.keys@.len() - i,
        {
            if self.keys[i].key_id == *id {
                return Some(i);
            }
            i = i + 1;
        }
        None
    }

    /// The entry for `id`, whether or not it may still be used.
    pub fn get(&self, key_id: &str) -> (r: Option<Jwk>)
        requires
            self.wf(),
        ensures
            match r {
                Some(k) => self@.contains_key(key_id@) && k == self@[key_id@],
                None => !self@.contains_key(key_id@),
            },
    {
        let id = String::from_str(key_id);
        match self.position(&id) {
            Some(i) => {
                let k = self.keys[i].clone();
                proof {
                    let j = choose|j: int|
                        0 <= j < self.keys@.len() && #[trigger] self.keys@[j].key_id@ == id@;
                    assert(j == i);
                }
                Some(k)
            },
            None => None,
        }
    }

    /// The entry for `key_id`, where it is cached and has not expired at
    /// `now`.
    pub fn lookup(&self, key_id: &str, now: u64) -> (r: Option<Jwk>)
        requires
            self.wf(),
        ensures
            r == fresh_entry(self@, key_id@, now),
    {
        match self.get(key_id) {
            Some(k) => if k.is_expired(now) == Some(true) {
                None
            } else {
                Some(k)
            },
            None => None,
        }
    }

    /// Stores every key of `fetched`, in order, each under its own
    /// identifier.
    pub fn install(&mut self, fetched: &Vec<Jwk>)
        requires
            old(self).wf(),
        ensures
            final(self).wf(),
            final(self)@ == installed(old(self)@, fetched@),
            final(self).fetches() == old(self).fetches(),
    {
        let mut i: usize = 0;
        while i < fetched.len()
            invariant
                0 <= i <= fetched@.len(),
                self.wf(),
                self@ == installed(old(self)@, fetched@.subrange(0, i as int)),
                self.fetches() == old(self).fetches(),
            decreases fetched@.len() - i,
        {
            let key = fetched[i].clone();
            self.insert(key);
            proof {
                let next = fetched@.subrange(0, i + 1);
                assert(next.drop_last() =~= fetched@.subrange(0, i as int));
                assert(next.last() == fetched@[i as int]);
            }
            i = i + 1;
        }
        assert(fetched@.subrange(0, fetched@.len() as int) =~= fetched@);
    }

    /// Finishes resolving `key_id` at `now` with what the key source handed
    /// back: installs the fetched keys and returns the one of that
    /// identifier, where it may be used.
    pub fn resolve_fetched(
        &mut self,
        key_id: &str,
        fetched: Result<Vec<Jwk>, Error>,
        now: u64,
    ) -> (r: Result<Jwk, WebhookVerificationError>)
        requires
            old(self).wf(),
        ensures
            final(self).wf(),
            (final(self)@, r) == after_fetch(old(self)@, key_id@, fetched_view(fetched), now),
            final(self).fetches() == old(self).fetches(),
    {
        let keys = match fetched {
            Ok(keys) => keys,
            Err(e) => return Err(WebhookVerificationError::ApiError(e)),
        };
        self.install(&keys);
        let id = String::from_str(key_id);
        let mut found = false;
        let mut i: usize = 0;
        while i < keys.len()
            invariant
                0 <= i <= keys@.len(),
                found == exists|j: int| 0 <= j < i && #[trigger] keys@[j].key_id@ == id@,
            decreases keys@.len() - i,
        {
            if keys[i].key_id == id {
                found = true;
            }
            i = i + 1;
        }
        if !found {
            return Err(WebhookVerificationError::KeyNotFound);
        }
        proof {
            lemma_installed_holds(old(self)@, keys@, key_id@);
        }
        match self.lookup(key_id, now) {
            Some(k) => Ok(k),
            None => Err(WebhookVerificationError::KeyNotFound),
        }
    }

    /// Resolves `key_id` to a key that may be used at `now`: the cached entry
    /// where there is a fresh one, else the one fetched from `fetcher`, which
    /// is called exactly then, once.
    pub fn resolve<F: KeyFetcher>(&mut self, key_id: &str, now: u64, fetcher: &mut F) -> (r: Result<
        Jwk,
        WebhookVerificationError,
    >)
        requires
            old(self).wf(),
        ensures
            final(self).wf(),
            r matches Ok(k) ==> usable_at(k, now) && k.key_id@ == key_id@,
            match fresh_entry(old(self)@, key_id@, now) {
                Some(k) => r == Ok::<Jwk, WebhookVerificationError>(k) && final(self)@ == old(
                    self,
                )@ && final(self).fetches() == old(self).fetches(),
                None => final(self).fetches() == count_up(old(self).fetches()) && exists|
                    fetched: Result<Seq<Jwk>, Error>,
                | (final(self)@, r) == #[trigger] after_fetch(old(self)@, key_id@, fetched, now),
            },
    {
        proof {
            lemma_keys_by_id_stored_under_own_ids(self.keys@);
        }
        match self.lookup(key_id, now) {
            Some(k) => return Ok(k),
            None => {},
        }
        let fetched = fetcher.fetch_keys();
        self.count_fetch();
        let ghost seen = fetched_view(fetched);
        let r = self.resolve_fetched(key_id, fetched, now);
        assert((self@, r) == after_fetch(old(self)@, key_id@, seen, now));
        proof {
            if let Ok(keys) = seen {
                lemma_installed_stored_under_own_ids(old(self)@, keys);
                if holds_id(keys, key_id@) {
                    lemma_installed_holds(old(self)@, keys, key_id@);
                }
            }
        }
        r
    }

    /// Records that a fetch was made.
    pub fn count_fetch(&mut self)
        requires
            old(self).wf(),
        ensures
            final(self).wf(),
            final(self)@ == old(self)@,
            final(self).fetches() == count_up(old(self).fetches()),
    {
        if self.fetches < u64::MAX {
            self.fetches = self.fetches + 1;
        }
    }

    /// Stores `key` under its own identifier, replacing any entry there.
    pub fn insert(&mut self, key: Jwk)
        requires
            old(self).wf(),
        ensures
            final(self).wf(),
            final(self)@ == old(self)@.insert(key.key_id@, key),
            final(self).fetches() == old(self).fetches(),
    {
        let ghost old_keys = self.keys@;
        let ghost id = key.key_id@;
        match self.position(&key.key_id) {
            Some(i) => {
                self.keys.set(i, key);
                assert(self@ =~= keys_by_id(old_keys).insert(id, key)) by {
                    assert(self.keys@[i as int].key_id@ == id);
                    assert forall|a: Seq<char>|
                        keys_by_id(old_keys).insert(id, key).contains_key(a) implies #[trigger]
                        self@.contains_key(a) by {
                        if a != id {
                            let k = choose|k: int|
                                0 <= k < old_keys.len() && #[trigger] old_keys[k].key_id@ == a;
                            assert(self.keys@[k].key_id@ == a);
                        }
                    }
                    assert forall|a: Seq<char>| #[trigger] self@.contains_key(a) implies
                        keys_by_id(old_keys).insert(id, key).contains_key(a) by {
                        let j = choose|j: int|
                            0 <= j < self.keys@.len() && #[trigger] self.keys@[j].key_id@ == a;
                        if a != id {
                            assert(old_keys[j].key_id@ == a);
                        }
                    }
                    assert forall|a: Seq<char>| #[trigger] self@.contains_key(a) implies self@[a]
                        == keys_by_id(old_keys).insert(id, key)[a] by {
                        let j = choose|j: int|
                            0 <= j < self.keys@.len() && #[trigger] self.keys@[j].key_id@ == a;
                        if a == id {
                            assert(j == i);
                        } else {
                            let k = choose|k: int|
                                0 <= k < old_keys.len() && #[trigger] old_keys[k].key_id@ == a;
                            assert(self.keys@[k].key_id@ == a);
                            assert(j == k);
                        }
                    }
                }
            },
            None => {
                self.keys.push(key);
                assert(self@ =~= keys_by_id(old_keys).insert(id, key)) by {
                    assert(self.keys@[old_keys.len() as int].key_id@ == id);
                    assert forall|a: Seq<char>| #[trigger] self@.contains_key(a) implies self@[a]
                        == keys_by_id(old_keys).insert(id, key)[a] by {
                        let j = choose|j: int|
                            0 <= j < self.keys@.len() && #[trigger] self.keys@[j].key_id@ == a;
                        if a == id {
                            assert(j == old_keys.len());
                        } else {
                            let k = choose|k: int|
                                0 <= k < old_keys.len() && #[trigger] old_keys[k].key_id@ == a;
                            assert(self.keys@[k].key_id@ == a);
                            assert(j == k);
                        }
                    }
                    assert forall|a: Seq<char>|
                        keys_by_id(old_keys).insert(id, key).contains_key(a) implies #[trigger]
                        self@.contains_key(a) by {
                        if a != id {
                            let k = choose|k: int|
                                0 <= k < old_keys.len() && #[trigger] old_keys[k].key_id@ == a;
                            assert(self.keys@[k].key_id@ == a);
                        }
                    }
                }
            },
        }
    }
}

/// Once a resolution has fetched and returned a key, resolving the same
/// identifier again at any moment at which that key may still be used finds
/// it in the cache: the key source is not called again and the same key
/// comes back.
pub proof fn lemma_resolved_key_stays_cached(
    m: Map<Seq<char>, Jwk>,
    id: Seq<char>,
    fetched: Result<Seq<Jwk>, Error>,
    now: u64,
    later: u64,
    k: Jwk,
)
    requires
        after_fetch(m, id, fetched, now).1 == Ok::<Jwk, WebhookVerificationError>(k),
        usable_at(k, later),
    ensures
        fresh_entry(after_fetch(m, id, fetched, now).0, id, later) == Some(k),
{
    let keys = fetched->Ok_0;
    lemma_installed_holds(m, keys, id);
}

/// A fetch that holds no key of the requested identifier resolves to
/// `KeyNotFound`.
pub proof fn lemma_absent_key_not_found(
    m: Map<Seq<char>, Jwk>,
    id: Seq<char>,
    keys: Seq<Jwk>,
    now: u64,
)
    requires
        !holds_id(keys, id),
    ensures
        after_fetch(m, id, Ok(keys), now).1 == Err::<Jwk, WebhookVerificationError>(
            WebhookVerificationError::KeyNotFound,
        ),
{
}

/// A cache's keys are stored under their own identifiers.
pub proof fn lemma_keys_by_id_stored_under_own_ids(keys: Seq<Jwk>)
    ensures
        stored_under_own_ids(keys_by_id(keys)),
{
    assert forall|id: Seq<char>| #[trigger] keys_by_id(keys).contains_key(id) implies keys_by_id(
        keys,
    )[id].key_id@ == id by {
        let i = choose|i: int| 0 <= i < keys.len() && #[trigger] keys[i].key_id@ == id;
    }
}

/// Installing fetched keys keeps every key under its own identifier.
pub proof fn lemma_installed_stored_under_own_ids(m: Map<Seq<char>, Jwk>, fetched: Seq<Jwk>)
    requires
        stored_under_own_ids(m),
    ensures
        stored_under_own_ids(installed(m, fetched)),
    decreases fetched.len(),
{
    if fetched.len() > 0 {
        lemma_installed_stored_under_own_ids(m, fetched.drop_last());
    }
}

/// Every identifier among the fetched keys has an entry once they are
/// installed.
pub proof fn lemma_installed_holds(m: Map<Seq<char>, Jwk>, fetched: Seq<Jwk>, id: Seq<char>)
    requires
        holds_id(fetched, id),
    ensures
        installed(m, fetched).contains_key(id),
    decreases fetched.len(),
{
    if fetched.last().key_id@ != id {
        let i = choose|i: int| 0 <= i < fetched.len() && #[trigger] fetched[i].key_id@ == id;
        assert(fetched.drop_last()[i].key_id@ == id);
        lemma_installed_holds(m, fetched.drop_last(), id);
    }
}

} // verus!
