use vstd::prelude::*;

use crate::model::Repo;

verus! {

/// What is stored for one provider: when it was written and the records.
#[derive(Clone, Debug)]
pub struct CacheEntry {
    pub timestamp: u64,
    pub repos: Vec<Repo>,
}

/// A per-provider cache of records under one directory, with one time to live.
#[derive(Clone, Debug)]
pub struct Cache {
    pub cache_dir: String,
    pub ttl_secs: u64,
}

/// The cache directory could not be determined (or is not valid UTF-8).
#[derive(Clone, Copy, Debug, PartialEq, Eq, Structural)]
pub enum CacheError {
    NoCacheDir,
}

/// Relies on dirs::cache_dir: the user's cache directory, when the platform
/// and the environment name one; a path that is not valid UTF-8 counts as
/// none rather than being altered.
#[verifier::external_body]
fn user_cache_dir() -> (r: Option<String>) {
    dirs::cache_dir().and_then(|p| p.into_os_string().into_string().ok())
}

/// The age of an entry written at `timestamp`, seen at `now`; a clock that
/// went back gives age zero.
pub open spec fn age(now: u64, timestamp: u64) -> u64 {
    if now >= timestamp {
        (now - timestamp) as u64
    } else {
        0
    }
}

/// What a lookup returns for what was read from disk (`None`: no file, or a
/// file that could not be read or parsed).
pub open spec fn lookup_result(ttl_secs: u64, entry: Option<CacheEntry>, now: u64) -> Option<Vec<Repo>> {
    match entry {
        Some(e) => if age(now, e.timestamp) > ttl_secs {
            None
        } else {
            Some(e.repos)
        },
        None => None,
    }
}

impl Cache {
    /// A cache in the `trotd` directory under `base`.
    pub fn under(base: String, ttl_mins: u64) -> (r: Cache)
        requires
            ttl_mins * 60 <= u64::MAX,
        ensures
            r.cache_dir@ == base@ + "/trotd"@,
            r.ttl_secs == ttl_mins * 60,
    {
        Cache { cache_dir: base.concat("/trotd"), ttl_secs: ttl_mins * 60 }
    }

    /// A cache under the user's cache directory, in `trotd`; an error when
    /// the platform names no such directory.
    pub fn new(ttl_mins: u64) -> (r: Result<Cache, CacheError>)
        requires
            ttl_mins * 60 <= u64::MAX,
        ensures
            r matches Ok(c) ==> c.ttl_secs == ttl_mins * 60 && c.cache_dir@.len() >= 6
                && c.cache_dir@.subrange(c.cache_dir@.len() - 6, c.cache_dir@.len() as int) == "/trotd"@,
    {
        match user_cache_dir() {
            Some(base) => {
                let c = Self::under(base, ttl_mins);
                proof {
                    reveal_strlit("/trotd");
                    assert(c.cache_dir@.subrange(c.cache_dir@.len() - 6, c.cache_dir@.len() as int) =~= "/trotd"@);
                }
                Ok(c)
            },
            None => Err(CacheError::NoCacheDir),
        }
    }

    /// A cache under the given directory.
    pub fn with_dir(cache_dir: String, ttl_mins: u64) -> (r: Self)
        requires
            ttl_mins * 60 <= u64::MAX,
        ensures
            r.cache_dir == cache_dir,
            r.ttl_secs == ttl_mins * 60,
    {
        Cache { cache_dir, ttl_secs: ttl_mins * 60 }
    }

    /// The file that holds a provider's entry: `<dir>/<provider>.json`.
    pub fn cache_file(&self, provider: &str) -> (r: String)
        ensures
            r@ == self.cache_dir@ + "/"@ + provider@ + ".json"@,
    {
        let dir = self.cache_dir.clone();
        dir.concat("/").concat(provider).concat(".json")
    }

    /// Relies on std's `SystemTime::now`: whole seconds since the Unix epoch,
    /// zero for a clock set before it.
    #[verifier::external_body]
    fn now() -> (r: u64) {
        std::time::SystemTime::now().duration_since(std::time::UNIX_EPOCH).unwrap_or_default().as_secs()
    }

    /// Whether an entry written at `timestamp` is still valid at `now`.
    pub fn is_fresh(&self, timestamp: u64, now: u64) -> (r: bool)
        ensures
            r == (age(now, timestamp) <= self.ttl_secs),
    {
        now.saturating_sub(timestamp) <= self.ttl_secs
    }

    /// The records of an entry read from disk, unless it is missing or expired.
    pub fn lookup(&self, entry: Option<CacheEntry>, now: u64) -> (r: Option<Vec<Repo>>)
        ensures
            r == lookup_result(self.ttl_secs, entry, now),
    {
        match entry {
            Some(e) => if self.is_fresh(e.timestamp, now) {
                Some(e.repos)
            } else {
                None
            },
            None => None,
        }
    }

    /// The records of an entry read from disk, judged against the current
    /// time: a missing entry stays missing, a present one gives its records
    /// or nothing, and one whose validity reaches past the clock's range is
    /// always fresh.
    pub fn check(&self, entry: Option<CacheEntry>) -> (r: Option<Vec<Repo>>)
        ensures
            entry is None ==> r is None,
            r matches Some(v) ==> entry matches Some(e) && v == e.repos,
            entry is Some && entry->Some_0.timestamp as int + self.ttl_secs as int >= u64::MAX ==> r == Some(
                entry->Some_0.repos,
            ),
    {
        self.lookup(entry, Self::now())
    }

    /// The entry to store for `repos` written at `now`.
    pub fn entry_at(repos: Vec<Repo>, now: u64) -> (r: CacheEntry)
        ensures
            r.timestamp == now,
            r.repos == repos,
    {
        CacheEntry { timestamp: now, repos }
    }

    /// The entry to store for `repos`, stamped with the current time.
    pub fn new_entry(repos: Vec<Repo>) -> (r: CacheEntry)
        ensures
            r.repos == repos,
    {
        Self::entry_at(repos, Self::now())
    }
}

/// An entry read back before its time to live elapsed gives exactly the
/// records that were stored, in their order.
pub proof fn lemma_cache_round_trip(ttl_secs: u64, repos: Vec<Repo>, written: u64, read: u64)
    requires
        age(read, written) <= ttl_secs,
    ensures
        lookup_result(ttl_secs, Some(CacheEntry { timestamp: written, repos }), read) == Some(repos),
{
}

/// With a time to live of zero, an entry read one second or more after it
/// was written is reported absent.
pub proof fn lemma_cache_expiry(repos: Vec<Repo>, written: u64, read: u64)
    requires
        read >= written + 1,
    ensures
        lookup_result(0, Some(CacheEntry { timestamp: written, repos }), read) is None,
{
}

} // verus!
