//! The rules of the persistent metadata cache: when a stored entry is
//! served, when it is dropped, how far the store is trimmed, and its
//! statistics. The host keeps the entries in a database and reads the
//! file system and the clock; it hands the values read to these rules.

use vstd::prelude::*;

verus! {

/// A cached entry: the file it describes and the tags stored for it.
pub struct CacheEntry {
    pub file_path: String,
    pub file_size: u64,
    pub modification_time: u64,
    pub exif_data: Vec<(String, String)>,
    pub cache_timestamp: u64,
}

/// The stored facts about a file that a lookup reads back.
#[derive(Clone, Copy, Debug, PartialEq, Eq)]
pub struct CachedRow {
    pub file_size: u64,
    pub modification_time: u64,
    pub cache_timestamp: u64,
}

/// What a lookup does with what it found.
#[derive(Clone, Copy, Debug, PartialEq, Eq)]
pub enum CacheLookup {
    /// No entry for the file.
    Absent,
    /// The entry matches the file and is recent enough: it is served.
    Hit,
    /// The entry is for another version of the file, or too old: it is
    /// removed and the lookup misses.
    Stale,
}

/// What trimming the store does: how many of the oldest entries go, and
/// the time before which entries have expired.
#[derive(Clone, Copy, Debug, PartialEq, Eq)]
pub struct CleanupPlan {
    pub remove_oldest: Option<usize>,
    pub expire_before: u64,
}

/// The cache's settings: where the database is, how many entries it keeps
/// and for how many seconds an entry stays valid.
pub struct ExifCache {
    db_path: String,
    max_cache_size: usize,
    cache_ttl: u64,
}

/// The verdict of a lookup.
pub open spec fn lookup_verdict(row: Option<CachedRow>, file_size: u64, mtime: u64, now: u64, ttl: u64) -> CacheLookup {
    match row {
        None => CacheLookup::Absent,
        Some(r) => if r.file_size == file_size && r.modification_time == mtime && now - r.cache_timestamp < ttl {
            CacheLookup::Hit
        } else {
            CacheLookup::Stale
        },
    }
}

/// Whether a lookup would subtract a timestamp later than the clock.
pub open spec fn clock_behind(row: Option<CachedRow>, file_size: u64, mtime: u64, now: u64) -> bool {
    match row {
        Some(r) => r.file_size == file_size && r.modification_time == mtime && now < r.cache_timestamp,
        None => false,
    }
}

impl View for ExifCache {
    type V = (Seq<char>, usize, u64);

    /// The database path, the number of entries kept and the time to live.
    closed spec fn view(&self) -> (Seq<char>, usize, u64) {
        (self.db_path@, self.max_cache_size, self.cache_ttl)
    }
}

impl ExifCache {
    /// A cache at `db_path` that keeps 10,000 entries for 24 hours.
    pub fn new(db_path: String) -> (c: ExifCache)
        ensures
            c@ == (db_path@, 10000usize, 86400u64),
    {
        ExifCache { db_path, max_cache_size: 10000, cache_ttl: 86400 }
    }

    /// A cache at `db_path` with its own size and time to live.
    pub fn with_settings(db_path: String, max_size: usize, ttl_seconds: u64) -> (c: ExifCache)
        ensures
            c@ == (db_path@, max_size, ttl_seconds),
    {
        ExifCache { db_path, max_cache_size: max_size, cache_ttl: ttl_seconds }
    }

    /// Where the database is.
    pub fn db_path(&self) -> (r: &str)
        ensures
            r@ == self@.0,
    {
        self.db_path.as_str()
    }

    /// How many entries the cache keeps.
    pub fn max_cache_size(&self) -> (r: usize)
        ensures
            r == self@.1,
    {
        self.max_cache_size
    }

    /// For how many seconds an entry stays valid.
    pub fn cache_ttl(&self) -> (r: u64)
        ensures
            r == self@.2,
    {
        self.cache_ttl
    }

    /// What a lookup does: an entry is served when the file has the size
    /// and modification time it was stored with and the entry is younger
    /// than the time to live; any other entry is stale.
    pub fn lookup_decision(&self, row: Option<CachedRow>, file_size: u64, mtime: u64, now: u64) -> (r: CacheLookup)
        requires
            !clock_behind(row, file_size, mtime, now),
        ensures
            r == lookup_verdict(row, file_size, mtime, now, self@.2),
    {
        match row {
            None => CacheLookup::Absent,
            Some(r) => {
                if r.file_size == file_size && r.modification_time == mtime {
                    if now - r.cache_timestamp < self.cache_ttl {
                        CacheLookup::Hit
                    } else {
                        CacheLookup::Stale
                    }
                } else {
                    CacheLookup::Stale
                }
            },
        }
    }

    /// How the store is trimmed after a write holding `count` entries: the
    /// oldest entries beyond the maximum go, and entries older than the
    /// time to live expire.
    pub fn cleanup_plan(&self, count: u64, now: u64) -> (r: CleanupPlan)
        requires
            now >= self@.2,
        ensures
            r.remove_oldest == (if count > self@.1 { Some((count - self@.1) as usize) } else { None::<usize> }),
            r.expire_before == now - self@.2,
    {
        let remove_oldest = if count > self.max_cache_size as u64 {
            Some((count - self.max_cache_size as u64) as usize)
        } else {
            None
        };
        CleanupPlan { remove_oldest, expire_before: now - self.cache_ttl }
    }

    /// Whether a lookup found a valid entry.
    pub fn is_cached(&self, found: Result<Option<Vec<(String, String)>>, String>) -> (r: Result<bool, String>)
        ensures
            found matches Ok(Some(_)) ==> r == Ok::<bool, String>(true),
            found matches Ok(None) ==> r == Ok::<bool, String>(false),
            found matches Err(e) ==> r matches Err(f) && f@ == e@,
    {
        match found {
            Ok(Some(_)) => Ok(true),
            Ok(None) => Ok(false),
            Err(e) => Err(e),
        }
    }

    /// The statistics of the store, from its counts.
    pub fn get_stats(
        &self,
        total_entries: usize,
        total_size_bytes: usize,
        oldest: Option<i64>,
        newest: Option<i64>,
    ) -> (r: CacheStats)
        ensures
            r.total_entries == total_entries,
            r.total_size_bytes == total_size_bytes,
            r.oldest_entry_timestamp == oldest,
            r.newest_entry_timestamp == newest,
            r.max_cache_size == self@.1,
            r.cache_ttl_seconds == self@.2,
    {
        CacheStats {
            total_entries,
            total_size_bytes,
            oldest_entry_timestamp: oldest,
            newest_entry_timestamp: newest,
            max_cache_size: self.max_cache_size,
            cache_ttl_seconds: self.cache_ttl,
        }
    }
}

/// Statistics of the cache.
#[derive(Debug)]
pub struct CacheStats {
    pub total_entries: usize,
    pub total_size_bytes: usize,
    pub oldest_entry_timestamp: Option<i64>,
    pub newest_entry_timestamp: Option<i64>,
    pub max_cache_size: usize,
    pub cache_ttl_seconds: u64,
}

impl CacheStats {
    /// Whether the cache holds as many entries as it keeps.
    pub fn is_full(&self) -> (r: bool)
        ensures
            r == (self.total_entries >= self.max_cache_size),
    {
        self.total_entries >= self.max_cache_size
    }
}

/// A lookup serves an entry only for the file version it was stored for
/// and while it is younger than the time to live; a file without an
/// entry is never served.
pub proof fn law_served_entries_match(row: Option<CachedRow>, file_size: u64, mtime: u64, now: u64, ttl: u64)
    ensures
        lookup_verdict(row, file_size, mtime, now, ttl) == CacheLookup::Hit ==> (row matches Some(r) && r.file_size
            == file_size && r.modification_time == mtime && now - r.cache_timestamp < ttl),
        row is None ==> lookup_verdict(row, file_size, mtime, now, ttl) == CacheLookup::Absent,
{
}

} // verus!
