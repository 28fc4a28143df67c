//! The server's settings, from the values given in its environment.
use vstd::prelude::*;

verus! {

/// The port served on when none is given.
pub const DEFAULT_PORT: u16 = 8912;

/// Bytes in a gibibyte.
pub const BYTES_PER_GB: u64 = 1073741824;

/// Bytes in a mebibyte.
pub const BYTES_PER_MB: u64 = 1048576;

/// Seconds in an hour.
pub const SECONDS_PER_HOUR: u64 = 3600;

/// The file-size limit, in mebibytes, when none is given.
pub const DEFAULT_MAX_FILE_SIZE_MB: u64 = 10;

/// How often expired files are swept, in seconds.
pub const EXPIRY_SWEEP_SECONDS: u64 = 60;

/// How often the database and the disk are compared and cleaned up, in seconds.
pub const CONSISTENCY_SWEEP_SECONDS: u64 = 1800;

/// The settings, with limits in bytes and seconds.
#[derive(Clone, Copy, PartialEq, Eq, Structural, Debug)]
pub struct Settings {
    pub port: u16,
    /// Total storage allowed, in bytes; 0 means unlimited.
    pub max_storage_limit: u64,
    /// The largest upload, in bytes.
    pub max_file_size: u64,
    /// How long a file may go unaccessed before it is removed, in seconds; 0
    /// means files never expire.
    pub max_unaccessed_time: u64,
    /// The size of the in-memory cache in mebibytes; `None` disables the cache.
    pub max_cache_size_mb: Option<u16>,
}

/// The values, as parsed from the environment, that the settings can be made
/// from without overflow.
pub open spec fn settings_in_range(storage_gb: Option<u64>, file_size_mb: Option<u64>, unaccessed_hours: Option<u64>) -> bool {
    &&& (storage_gb matches Some(gb) ==> gb * BYTES_PER_GB <= u64::MAX)
    &&& (file_size_mb matches Some(mb) ==> mb * BYTES_PER_MB <= u64::MAX)
    &&& (unaccessed_hours matches Some(h) ==> h * SECONDS_PER_HOUR <= u64::MAX)
}

/// Whether the settings can be made from these values without overflow.
pub fn settings_ok(storage_gb: Option<u64>, file_size_mb: Option<u64>, unaccessed_hours: Option<u64>) -> (ok: bool)
    ensures
        ok == settings_in_range(storage_gb, file_size_mb, unaccessed_hours),
{
    let storage = match storage_gb {
        Some(gb) => gb.checked_mul(BYTES_PER_GB).is_some(),
        None => true,
    };
    let file = match file_size_mb {
        Some(mb) => mb.checked_mul(BYTES_PER_MB).is_some(),
        None => true,
    };
    let time = match unaccessed_hours {
        Some(h) => h.checked_mul(SECONDS_PER_HOUR).is_some(),
        None => true,
    };
    storage && file && time
}

impl Settings {
    /// The settings for the values given (each `None` when not set or not a
    /// number): storage in gibibytes, file size in mebibytes, unaccessed time in
    /// hours, each converted to bytes or seconds, with the defaults above.
    pub fn from_values(
        port: Option<u16>,
        storage_gb: Option<u64>,
        file_size_mb: Option<u64>,
        unaccessed_hours: Option<u64>,
        cache_size_mb: Option<u16>,
    ) -> (s: Settings)
        requires
            settings_in_range(storage_gb, file_size_mb, unaccessed_hours),
        ensures
            s.port == (match port { Some(p) => p, None => DEFAULT_PORT }),
            s.max_storage_limit == (match storage_gb { Some(gb) => gb * BYTES_PER_GB, None => 0 }),
            s.max_file_size == (match file_size_mb {
                Some(mb) => mb * BYTES_PER_MB,
                None => DEFAULT_MAX_FILE_SIZE_MB * BYTES_PER_MB,
            }),
            s.max_unaccessed_time == (match unaccessed_hours { Some(h) => h * SECONDS_PER_HOUR, None => 0 }),
            s.port == (match port { Some(p) => p, None => 8912 }),
            s.max_storage_limit == (match storage_gb { Some(gb) => gb * 1073741824, None => 0 }),
            s.max_file_size == (match file_size_mb { Some(mb) => mb * 1048576, None => 10485760 }),
            s.max_unaccessed_time == (match unaccessed_hours { Some(h) => h * 3600, None => 0 }),
            s.max_cache_size_mb == cache_size_mb,
    {
        Settings {
            port: match port {
                Some(p) => p,
                None => DEFAULT_PORT,
            },
            max_storage_limit: match storage_gb {
                Some(gb) => gb * BYTES_PER_GB,
                None => 0,
            },
            max_file_size: match file_size_mb {
                Some(mb) => mb * BYTES_PER_MB,
                None => DEFAULT_MAX_FILE_SIZE_MB * BYTES_PER_MB,
            },
            max_unaccessed_time: match unaccessed_hours {
                Some(h) => h * SECONDS_PER_HOUR,
                None => 0,
            },
            max_cache_size_mb: cache_size_mb,
        }
    }

    /// Whether expired files are swept at all.
    pub fn expiry_enabled(&self) -> (enabled: bool)
        ensures
            enabled == (self.max_unaccessed_time > 0),
    {
        self.max_unaccessed_time > 0
    }
}

/// The latest time of last access (in seconds since the epoch) that a file may
/// have and still be expired at time `now`.
pub fn expiry_cutoff(now: i64, max_unaccessed_time: u64) -> (cutoff: i64)
    requires
        max_unaccessed_time <= i64::MAX,
        now - max_unaccessed_time >= i64::MIN,
    ensures
        cutoff == now - max_unaccessed_time,
{
    now - max_unaccessed_time as i64
}

} // verus!
