//! The time-boxed memo of releases resolved from the primary source, one
//! entry per key.
use vstd::prelude::*;
use crate::release::GitHubRelease;

verus! {

/// How long a cached release may be reused, in milliseconds (ten minutes).
pub const CACHE_WINDOW_MS: i64 = 600_000;

/// The key under which the latest release is cached.
pub const LATEST_RELEASE_KEY: &'static str = "latest_release";

/// A cached release and the time it was fetched, in milliseconds since the
/// Unix epoch.
pub struct CacheEntry {
    pub release: GitHubRelease,
    pub cached_at: i64,
}

/// The entry fetched at `cached_at` may be consulted at `now`.
pub open spec fn is_fresh(cached_at: int, now: int) -> bool {
    now - cached_at < CACHE_WINDOW_MS
}

/// The entry for `key` in a list of keyed entries: the first one with that
/// key.
pub open spec fn entry_in(s: Seq<(String, CacheEntry)>, key: Seq<char>) -> Option<CacheEntry>
    decreases s.len(),
{
    if s.len() == 0 {
        None
    } else if s[0].0@ == key {
        Some(s[0].1)
    } else {
        entry_in(s.drop_first(), key)
    }
}

/// Keyed cache entries. A stale entry is kept until the next store under its
/// key replaces it.
pub struct ReleaseCache {
    pub entries: Vec<(String, CacheEntry)>,
}

/// `new` is `old` with `release`, fetched at `now`, stored under `key`: that
/// key now gives the new entry and every other key what it gave before.
pub open spec fn stores(
    new: ReleaseCache,
    old: ReleaseCache,
    key: Seq<char>,
    release: GitHubRelease,
    now: i64,
) -> bool {
    forall|k: Seq<char>|
        #[trigger] new.entry(k) == if k == key {
            Some(CacheEntry { release, cached_at: now })
        } else {
            old.entry(k)
        }
}

proof fn lemma_entry_in_update(s: Seq<(String, CacheEntry)>, i: int, x: (String, CacheEntry))
    requires
        0 <= i < s.len(),
        s[i].0@ == x.0@,
        forall|j: int| 0 <= j < i ==> s[j].0@ != x.0@,
    ensures
        forall|k: Seq<char>|
            #[trigger] entry_in(s.update(i, x), k) == if k == x.0@ {
                Some(x.1)
            } else {
                entry_in(s, k)
            },
    decreases i,
{
    assert forall|k: Seq<char>|
        #[trigger] entry_in(s.update(i, x), k) == if k == x.0@ {
            Some(x.1)
        } else {
            entry_in(s, k)
        } by {
        let u = s.update(i, x);
        if i > 0 {
            lemma_entry_in_update(s.drop_first(), i - 1, x);
            assert(u.drop_first() =~= s.drop_first().update(i - 1, x));
            assert(u[0] == s[0]);
            assert(s[0].0@ != x.0@);
            assert(entry_in(u.drop_first(), k) == if k == x.0@ {
                Some(x.1)
            } else {
                entry_in(s.drop_first(), k)
            });
        } else {
            assert(u.drop_first() =~= s.drop_first());
            assert(u[0] == x);
        }
    }
}

proof fn lemma_entry_in_push(s: Seq<(String, CacheEntry)>, x: (String, CacheEntry))
    requires
        forall|j: int| 0 <= j < s.len() ==> s[j].0@ != x.0@,
    ensures
        forall|k: Seq<char>|
            #[trigger] entry_in(s.push(x), k) == if k == x.0@ {
                Some(x.1)
            } else {
                entry_in(s, k)
            },
    decreases s.len(),
{
    assert forall|k: Seq<char>|
        #[trigger] entry_in(s.push(x), k) == if k == x.0@ {
            Some(x.1)
        } else {
            entry_in(s, k)
        } by {
        let p = s.push(x);
        if s.len() > 0 {
            lemma_entry_in_push(s.drop_first(), x);
            assert(p.drop_first() =~= s.drop_first().push(x));
            assert(p[0] == s[0]);
            assert(s[0].0@ != x.0@);
            assert(entry_in(p.drop_first(), k) == if k == x.0@ {
                Some(x.1)
            } else {
                entry_in(s.drop_first(), k)
            });
        } else {
            assert(p.drop_first() =~= Seq::<(String, CacheEntry)>::empty());
            assert(p[0] == x);
        }
    }
}

impl ReleaseCache {
    /// No two entries share a key.
    pub open spec fn wf(self) -> bool {
        forall|i: int, j: int|
            0 <= i < j < self.entries@.len() ==> #[trigger] self.entries@[i].0@
                != #[trigger] self.entries@[j].0@
    }

    /// An empty cache.
    pub fn new() -> (r: ReleaseCache)
        ensures
            r.wf(),
            forall|k: Seq<char>| #[trigger] r.entry(k) is None,
    {
        ReleaseCache { entries: Vec::new() }
    }

    /// The entry stored under `key`, fresh or not.
    pub open spec fn entry(self, key: Seq<char>) -> Option<CacheEntry> {
        entry_in(self.entries@, key)
    }

    /// The release under `key` that may be reused at `now`, if any.
    pub open spec fn fresh_at(self, key: Seq<char>, now: int) -> Option<GitHubRelease> {
        match self.entry(key) {
            Some(e) => if is_fresh(e.cached_at as int, now) {
                Some(e.release)
            } else {
                None
            },
            None => None,
        }
    }

    /// The position of the entry for `key`, if any.
    fn position(&self, key: &str) -> (r: Option<usize>)
        ensures
            match r {
                Some(i) => i < self.entries@.len() && self.entries@[i as int].0@ == key@ && forall|
                    j: int,
                | 0 <= j < i ==> self.entries@[j].0@ != key@,
                None => forall|j: int|
                    0 <= j < self.entries@.len() ==> self.entries@[j].0@ != key@,
            },
            match r {
                Some(i) => self.entry(key@) == Some(self.entries@[i as int].1),
                None => self.entry(key@) is None,
            },
    {
        let k = String::from_str(key);
        let mut i: usize = 0;
        assert(self.entries@.skip(0) =~= self.entries@);
        while i < self.entries.len()
            invariant
                i <= self.entries@.len(),
                k@ == key@,
                forall|j: int| 0 <= j < i ==> self.entries@[j].0@ != key@,
                self.entry(key@) == entry_in(self.entries@.skip(i as int), key@),
            decreases self.entries.len() - i,
        {
            if self.entries[i].0 == k {
                return Some(i);
            }
            assert(self.entries@.skip(i as int).drop_first() =~= self.entries@.skip(i + 1));
            i = i + 1;
        }
        None
    }

    /// The entry under `key`, fresh or not, as the release and the time it
    /// was fetched.
    pub fn get(&self, key: &str) -> (r: Option<(GitHubRelease, i64)>)
        ensures
            match self.entry(key@) {
                Some(e) => r == Some((e.release, e.cached_at)),
                None => r is None,
            },
    {
        match self.position(key) {
            Some(i) => Some((self.entries[i].1.release.duplicate(), self.entries[i].1.cached_at)),
            None => None,
        }
    }

    /// The release under `key` if it was fetched less than ten minutes before
    /// `now`.
    pub fn fresh_release(&self, key: &str, now: i64) -> (r: Option<GitHubRelease>)
        ensures
            r == self.fresh_at(key@, now as int),
    {
        match self.position(key) {
            Some(i) => {
                let age: i128 = now as i128 - self.entries[i].1.cached_at as i128;
                if age < CACHE_WINDOW_MS as i128 {
                    Some(self.entries[i].1.release.duplicate())
                } else {
                    None
                }
            },
            None => None,
        }
    }

    /// Stores `release`, fetched at `now`, under `key`, replacing what was
    /// there.
    pub fn put(&mut self, key: &str, release: GitHubRelease, now: i64)
        ensures
            stores(*final(self), *old(self), key@, release, now),
            old(self).wf() ==> final(self).wf(),
    {
        let item = (String::from_str(key), CacheEntry { release, cached_at: now });
        match self.position(key) {
            Some(i) => {
                proof {
                    lemma_entry_in_update(self.entries@, i as int, item);
                }
                self.entries.set(i, item);
                assert(forall|j: int|
                    0 <= j < self.entries@.len() ==> #[trigger] self.entries@[j].0@
                        == old(self).entries@[j].0@);
            },
            None => {
                proof {
                    lemma_entry_in_push(self.entries@, item);
                }
                self.entries.push(item);
                assert(forall|j: int|
                    0 <= j < old(self).entries@.len() ==> #[trigger] self.entries@[j]
                        == old(self).entries@[j]);
            },
        }
    }
}

} // verus!
