//! The configuration builder: accumulates every tunable with its
//! default, resolves the effective root path, and produces an
//! immutable, shared configuration. Setters are pure value
//! replacements; validation is deferred to the open pipeline.
use std::sync::Arc;

use vstd::prelude::*;
use vstd::string::StringExecFns;

use crate::config::Config;
use crate::mode::Mode;
use crate::register::ErrorRegister;
use crate::textnum::dec_bytes;

verus! {

/// The fixed default relative path of the data directory.
pub const DEFAULT_PATH: &'static str = "default.db";

/// The default segment size: 512 KiB.
pub const DEFAULT_SEGMENT_SIZE: usize = 524288;

/// Accumulates all tunables before a configuration is built. Only
/// `segment_size`, `use_compression` and `version` are ever persisted;
/// the rest is local to one session. Setters consume the builder and
/// hand back a builder with exactly one field replaced.
pub struct ConfigBuilder {
    /// Maximum size in bytes for the system page cache.
    pub cache_capacity: usize,
    /// Interval in milliseconds between flushes, or None to disable.
    pub flush_every_ms: Option<u64>,
    /// The fixed I/O buffer size; must be a power of two in
    /// [256, 16 MiB].
    pub segment_size: usize,
    /// The data directory path the user asked for.
    pub path: String,
    /// Whether to fail if the database already exists.
    pub create_new: bool,
    /// Whether the system favors low space or high throughput.
    pub mode: Mode,
    /// Whether the database is deleted when the session ends.
    pub temporary: bool,
    /// Whether to compress data on disk.
    pub use_compression: bool,
    /// The compression level, 1 to 22.
    pub compression_factor: i32,
    /// How many identifiers are generated between persistent bumps;
    /// must be above zero.
    pub idgen_persist_interval: u64,
    /// How many operations run between metadata snapshots.
    pub snapshot_after_ops: u64,
    /// The schema version this build writes, as (major, minor).
    pub version: (usize, usize),
    /// The generated fallback path used when `temporary` is set and no
    /// explicit path was given. Generated once, at construction.
    pub tmp_path: String,
    /// The error register every configuration built from this builder
    /// shares.
    pub global_error: Arc<ErrorRegister>,
}

/// The decimal digits of `n` as characters.
pub open spec fn dec_chars(n: nat) -> Seq<char> {
    dec_bytes(n).map_values(|x: u8| x as char)
}

/// The process-unique salt a generated temporary path carries: the
/// process id shifted past a 16-bit counter window, the nanosecond
/// timestamp shifted past a 48-bit window, and the counter itself, so
/// that two builders of one process, or two processes started in the
/// same nanosecond, never collide.
pub open spec fn temp_salt(pid: u64, now_nanos: u64, counter: u64) -> nat {
    (pid * 0x10000 + now_nanos * 0x1000000000000 + counter) as nat
}

/// The generated temporary path: an in-memory filesystem location
/// named by the salt.
pub open spec fn temp_path_chars(pid: u64, now_nanos: u64, counter: u64) -> Seq<char> {
    "/dev/shm/pagecache.tmp."@ + dec_chars(temp_salt(pid, now_nanos, counter))
}

/// Generates the temporary data directory path for one builder. The
/// entropy is handed in by the caller: the process id, a nanosecond
/// timestamp, and a process-wide monotonically increasing counter.
pub fn gen_temp_path(pid: u64, now_nanos: u64, salt_counter: u64) -> (r: String)
    ensures
        r@ == temp_path_chars(pid, now_nanos, salt_counter),
{
    let salt: u128 = (pid as u128) * 0x10000 + (now_nanos as u128) * 0x1000000000000 + (
    salt_counter as u128);
    let mut digits: Vec<u8> = Vec::new();
    crate::textnum::push_decimal_u128(&mut digits, salt);
    proof {
        crate::textnum::lemma_dec_bytes_digits(salt as nat);
        crate::scan::lemma_ascii_valid_utf8(digits@);
    }
    let mut p = String::from_str("/dev/shm/pagecache.tmp.");
    match crate::scan::string_from_utf8(digits) {
        Some(s) => {
            proof {
                crate::scan::lemma_ascii_bytes_chars(dec_bytes(salt as nat), s@);
            }
            p.append(s.as_str());
        },
        None => {
            proof {
                assert(false);
            }
        },
    }
    p
}

/// Every option at its default: the fixed relative path, a 1 GiB
/// cache, low-space mode, no compression at level 5, a 512 KiB
/// segment, a flush every 500 ms, and this build's schema version.
pub open spec fn has_default_options(c: ConfigBuilder) -> bool {
    &&& c.cache_capacity == 0x40000000
    &&& c.flush_every_ms == Some(500u64)
    &&& c.segment_size == DEFAULT_SEGMENT_SIZE
    &&& c.path@ == DEFAULT_PATH@
    &&& !c.create_new
    &&& c.mode == Mode::LowSpace
    &&& !c.temporary
    &&& !c.use_compression
    &&& c.compression_factor == 5
    &&& c.idgen_persist_interval == 1000000
    &&& c.snapshot_after_ops == 1000000
    &&& c.version == (0usize, 1usize)
    &&& c.tmp_path@ == temp_path_chars(0, 0, 0)
}

/// The effective root path: the explicit path if one was set, the
/// generated temporary path if the builder is temporary and the path
/// was left at its default.
pub open spec fn get_path_spec(c: ConfigBuilder) -> Seq<char> {
    if c.temporary && c.path@ == DEFAULT_PATH@ {
        c.tmp_path@
    } else {
        c.path@
    }
}

impl ConfigBuilder {
    /// The effective root path of the data directory.
    pub fn get_path(&self) -> (r: String)
        ensures
            r@ == get_path_spec(*self),
    {
        let d = String::from_str(DEFAULT_PATH);
        if self.temporary && self.path == d {
            self.tmp_path.clone()
        } else {
            self.path.clone()
        }
    }

    /// The path of the primary data file.
    pub fn db_path(&self) -> (r: String)
        ensures
            r@ == get_path_spec(*self) + "/db"@,
    {
        let mut p = self.get_path();
        p.append("/db");
        p
    }

    /// The path of the persisted configuration record.
    pub fn config_path(&self) -> (r: String)
        ensures
            r@ == get_path_spec(*self) + "/conf"@,
    {
        let mut p = self.get_path();
        p.append("/conf");
        p
    }

    /// Rounds a byte quantity down to the nearest multiple of the
    /// segment size.
    pub fn normalize(&self, value: usize) -> (r: usize)
        requires
            self.segment_size > 0,
        ensures
            r == value / self.segment_size * self.segment_size,
    {
        proof {
            assert(value / self.segment_size * self.segment_size <= value) by (nonlinear_arith)
                requires
                    self.segment_size > 0,
            ;
        }
        value / self.segment_size * self.segment_size
    }

    /// Sets the data directory path.
    pub fn path(self, to: String) -> (r: Self)
        ensures
            r == (ConfigBuilder { path: to, ..self }),
    {
        ConfigBuilder { path: to, ..self }
    }

    /// Sets the segment size. The configuration's segment size is
    /// fixed once built and must stay the same across restarts.
    pub fn segment_size(self, to: usize) -> (r: Self)
        ensures
            r == (ConfigBuilder { segment_size: to, ..self }),
    {
        ConfigBuilder { segment_size: to, ..self }
    }

    /// Sets the flush interval in milliseconds, or disables flushing.
    pub fn flush_every_ms(self, to: Option<u64>) -> (r: Self)
        ensures
            r == (ConfigBuilder { flush_every_ms: to, ..self }),
    {
        ConfigBuilder { flush_every_ms: to, ..self }
    }

    /// Sets how many identifiers are generated between persistent
    /// bumps.
    pub fn idgen_persist_interval(self, to: u64) -> (r: Self)
        ensures
            r == (ConfigBuilder { idgen_persist_interval: to, ..self }),
    {
        ConfigBuilder { idgen_persist_interval: to, ..self }
    }

    /// Sets the maximum page cache size in bytes.
    pub fn cache_capacity(self, to: usize) -> (r: Self)
        ensures
            r == (ConfigBuilder { cache_capacity: to, ..self }),
    {
        ConfigBuilder { cache_capacity: to, ..self }
    }

    /// Sets whether the system favors low space or high throughput.
    pub fn mode(self, to: Mode) -> (r: Self)
        ensures
            r == (ConfigBuilder { mode: to, ..self }),
    {
        ConfigBuilder { mode: to, ..self }
    }

    /// Sets whether to compress data on disk.
    pub fn use_compression(self, to: bool) -> (r: Self)
        ensures
            r == (ConfigBuilder { use_compression: to, ..self }),
    {
        ConfigBuilder { use_compression: to, ..self }
    }

    /// Sets the compression level, 1 to 22.
    pub fn compression_factor(self, to: i32) -> (r: Self)
        ensures
            r == (ConfigBuilder { compression_factor: to, ..self }),
    {
        ConfigBuilder { compression_factor: to, ..self }
    }

    /// Sets whether the database is deleted when the session ends.
    pub fn temporary(self, to: bool) -> (r: Self)
        ensures
            r == (ConfigBuilder { temporary: to, ..self }),
    {
        ConfigBuilder { temporary: to, ..self }
    }

    /// Sets whether opening fails if the database already exists.
    pub fn create_new(self, to: bool) -> (r: Self)
        ensures
            r == (ConfigBuilder { create_new: to, ..self }),
    {
        ConfigBuilder { create_new: to, ..self }
    }

    /// Sets how many operations run between metadata snapshots.
    pub fn snapshot_after_ops(self, to: u64) -> (r: Self)
        ensures
            r == (ConfigBuilder { snapshot_after_ops: to, ..self }),
    {
        ConfigBuilder { snapshot_after_ops: to, ..self }
    }

    /// Replaces the generated temporary path. The caller owns the
    /// entropy: pass a path from `gen_temp_path`.
    pub fn tmp_path(self, to: String) -> (r: Self)
        ensures
            r == (ConfigBuilder { tmp_path: to, ..self }),
    {
        ConfigBuilder { tmp_path: to, ..self }
    }

    /// Clamps the cache capacity to a host-imposed memory ceiling, if
    /// one was discovered and is smaller.
    pub fn limit_cache_max_memory(&mut self, limit: Option<usize>)
        ensures
            final(self).cache_capacity == (match limit {
                Some(l) => if old(self).cache_capacity > l {
                    l
                } else {
                    old(self).cache_capacity
                },
                None => old(self).cache_capacity,
            }),
            *final(self) == (ConfigBuilder { cache_capacity: final(self).cache_capacity, ..*old(self) }),
    {
        match limit {
            Some(l) => {
                if self.cache_capacity > l {
                    self.cache_capacity = l;
                }
            },
            None => {},
        }
    }

    /// Seals the options into an immutable, shared configuration.
    pub fn build(self) -> (r: Config)
        ensures
            r.opts() == self,
    {
        Config::from_builder(self)
    }
}

impl Default for ConfigBuilder {
    /// The defaults: the fixed relative path, a 1 GiB cache, low-space
    /// mode, no compression at level 5, a 512 KiB segment, a flush
    /// every 500 ms, and this build's schema version.
    fn default() -> (r: ConfigBuilder)
        ensures
            has_default_options(r),
    {
        ConfigBuilder {
            cache_capacity: 0x40000000,
            flush_every_ms: Some(500),
            segment_size: DEFAULT_SEGMENT_SIZE,
            path: String::from_str(DEFAULT_PATH),
            create_new: false,
            mode: Mode::LowSpace,
            temporary: false,
            use_compression: false,
            compression_factor: 5,
            idgen_persist_interval: 1000000,
            snapshot_after_ops: 1000000,
            version: crate::crate_version(),
            tmp_path: gen_temp_path(0, 0, 0),
            global_error: Arc::new(ErrorRegister::new()),
        }
    }
}

} // verus!
