//! The immutable, shared configuration handle and the decision logic
//! of the open pipeline: validation of the requested options,
//! reconciliation against the record a prior run persisted, the
//! parse-and-verify read protocol, the atomic write plan, and the
//! global error register every handle shares.
//!
//! The filesystem steps themselves (create, read, write, rename,
//! fsync, lock) are carried out by the caller that drives a session;
//! every decision between two such steps is made here.
use std::sync::Arc;

use vstd::prelude::*;
use vstd::slice::slice_subrange;
use vstd::string::StringExecFns;

use vstd::arithmetic::power2::{lemma_pow2_pos, lemma_pow2_unfold, pow2};

use crate::builder::{get_path_spec, ConfigBuilder};
use crate::checksum::{arr_to_u32, crc32, crc32_of, u32_le_bytes, u32_to_arr};
use crate::error::Error;
use crate::storage_parameters::{deserialize_spec, serialize_spec, StorageParameters};

verus! {

/// Whether this build carries a compression codec.
pub const COMPRESSION_SUPPORTED: bool = true;

pub const MSG_SEG_POW2: &'static str = "segment_size should be a power of 2";

pub const MSG_SEG_MIN: &'static str =
    "segment_size should be hundreds of kb at minimum, and we won't start if below 256";

pub const MSG_SEG_MAX: &'static str = "segment_size should be <= 16mb";

pub const MSG_COMP_UNSUPPORTED: &'static str =
    "this build does not support compression, but use_compression is set to true";

pub const MSG_CF_MIN: &'static str = "compression_factor must be >= 1";

pub const MSG_CF_MAX: &'static str = "compression_factor must be <= 22";

pub const MSG_IDGEN: &'static str = "idgen_persist_interval must be above 0";

pub const MSG_COMP_OFF_ON: &'static str =
    "cannot change compression configuration across restarts. this database was created without compression enabled.";

pub const MSG_COMP_ON_OFF: &'static str =
    "cannot change compression configuration across restarts. this database was created with compression enabled.";

pub const MSG_SEG_CHANGED: &'static str = "cannot change the io buffer size across restarts.";

pub const MSG_VERSION: &'static str =
    "the stored database must use a compatible storage engine version; open it with the version that created it, or upgrade through an explicit export and import";

/// Exactly one bit set.
pub open spec fn is_power_of_two(n: usize) -> bool {
    n != 0 && n & ((n - 1) as usize) == 0
}

/// A power of two is a single bit.
proof fn lemma_pow2_is_single_bit(n: usize, k: nat)
    requires
        n == pow2(k),
    ensures
        is_power_of_two(n),
    decreases k,
{
    lemma_pow2_pos(k);
    if k == 0 {
        assert(pow2(0) == 1) by {
            vstd::arithmetic::power2::lemma2_to64();
        }
        assert(n == 1);
        assert(1usize & ((1usize - 1) as usize) == 0) by (bit_vector);
    } else {
        lemma_pow2_unfold(k);
        lemma_pow2_pos((k - 1) as nat);
        assert(n == 2 * pow2((k - 1) as nat));
        let h = (n / 2) as usize;
        assert(h == pow2((k - 1) as nat));
        lemma_pow2_is_single_bit(h, (k - 1) as nat);
        assert(n & ((n - 1) as usize) == 0) by (bit_vector)
            requires
                n == 2 * h && h != 0 && h & ((h - 1) as usize) == 0,
        ;
    }
}

/// The single-bit test accepts exactly the powers of two: what the
/// validation rules call a power of two is one in the mathematical
/// sense.
pub proof fn lemma_is_power_of_two(n: usize)
    ensures
        is_power_of_two(n) <==> exists|k: nat| n == pow2(k),
    decreases n,
{
    if is_power_of_two(n) {
        if n == 1 {
            assert(pow2(0) == 1) by {
                vstd::arithmetic::power2::lemma2_to64();
            }
            assert(n == pow2(0));
        } else {
            assert(n == 2 * (n >> 1usize) && (n >> 1usize) != 0 && ((n >> 1usize) & (((n
                >> 1usize) - 1) as usize) == 0)) by (bit_vector)
                requires
                    n != 0 && n != 1 && n & ((n - 1) as usize) == 0,
            ;
            let h = n >> 1usize;
            lemma_is_power_of_two(h);
            let k = choose|k: nat| h == pow2(k);
            lemma_pow2_unfold(k + 1);
            assert(n == pow2(k + 1));
        }
    }
    if exists|k: nat| n == pow2(k) {
        let k = choose|k: nat| n == pow2(k);
        lemma_pow2_is_single_bit(n, k);
    }
}

/// The persisted subset of an option set.
pub open spec fn params_spec(c: ConfigBuilder) -> StorageParameters {
    StorageParameters {
        segment_size: c.segment_size,
        use_compression: c.use_compression,
        version: c.version,
    }
}

/// The in-memory validation rules, checked in order: the segment size
/// must be a power of two in [256, 16 MiB]; compression must be
/// supported by the build if requested; the compression level must be
/// in [1, 22]; the id-generator persistence interval must be above
/// zero.
pub open spec fn validate_spec(c: ConfigBuilder) -> Result<(), Error> {
    if !is_power_of_two(c.segment_size) {
        Err(Error::Unsupported(MSG_SEG_POW2))
    } else if c.segment_size < 256 {
        Err(Error::Unsupported(MSG_SEG_MIN))
    } else if c.segment_size > 0x1000000 {
        Err(Error::Unsupported(MSG_SEG_MAX))
    } else if c.use_compression && !COMPRESSION_SUPPORTED {
        Err(Error::Unsupported(MSG_COMP_UNSUPPORTED))
    } else if c.compression_factor < 1 {
        Err(Error::Unsupported(MSG_CF_MIN))
    } else if c.compression_factor > 22 {
        Err(Error::Unsupported(MSG_CF_MAX))
    } else if c.idgen_persist_interval == 0 {
        Err(Error::Unsupported(MSG_IDGEN))
    } else {
        Ok(())
    }
}

/// The reconciliation rules against a previously persisted record:
/// the compression flag and the segment size must match exactly, and
/// the stored version must be compatible with (identical to) the
/// requested one.
pub open spec fn reconcile_spec(c: ConfigBuilder, old: StorageParameters) -> Result<(), Error> {
    if c.use_compression && !old.use_compression {
        Err(Error::Unsupported(MSG_COMP_OFF_ON))
    } else if !c.use_compression && old.use_compression {
        Err(Error::Unsupported(MSG_COMP_ON_OFF))
    } else if c.segment_size != old.segment_size {
        Err(Error::Unsupported(MSG_SEG_CHANGED))
    } else if c.version != old.version {
        Err(Error::Unsupported(MSG_VERSION))
    } else {
        Ok(())
    }
}

/// The read protocol on the configuration file's contents: a missing
/// file and a file of at most eight bytes mean "no prior
/// configuration"; anything longer is parsed after splitting off the
/// trailing four checksum bytes. The checksum itself is advisory:
/// the result never depends on it.
pub open spec fn read_config_spec(contents: Option<Seq<u8>>) -> Result<
    Option<StorageParameters>,
    Error,
> {
    match contents {
        None => Ok(None),
        Some(b) => if b.len() <= 8 {
            Ok(None)
        } else {
            match deserialize_spec(b.subrange(0, b.len() - 4)) {
                Ok(p) => Ok(Some(p)),
                Err(e) => Err(e),
            }
        },
    }
}

/// The bytes the write protocol stages: the serialized record followed
/// immediately by the four little-endian bytes of its CRC32.
pub open spec fn contents_spec(c: ConfigBuilder) -> Seq<u8> {
    serialize_spec(params_spec(c)) + u32_le_bytes(crc32_of(serialize_spec(params_spec(c))))
}

/// What reconciliation decides from a read of the persisted record: a
/// read failure aborts; an existing record must reconcile and asks for
/// no write; a missing record asks for the current parameters to be
/// written.
pub open spec fn verify_decision_spec(c: ConfigBuilder, read: Result<
    Option<StorageParameters>,
    Error,
>) -> Result<Option<Seq<u8>>, Error> {
    match read {
        Err(e) => Err(e),
        Ok(Some(old)) => match reconcile_spec(c, old) {
            Ok(()) => Ok(None),
            Err(e) => Err(e),
        },
        Ok(None) => Ok(Some(contents_spec(c))),
    }
}

/// The immutable option set a configuration seals.
pub struct Inner(pub ConfigBuilder);

/// An immutable, shared configuration handle. Cloning is cheap and
/// shares the same option set and the same global error register;
/// configuration changes require building a new value.
#[derive(Clone)]
pub struct Config(Arc<Inner>);

/// The staged atomic update of the persisted record: the caller writes
/// `bytes` to `tmp_path`, syncs the file, renames it over
/// `final_path`, and syncs the directory. The rename is the
/// durability boundary: the final path only ever holds a previous
/// record or the complete new one, never a partial write.
pub struct WritePlan {
    /// The staging path, `<root>/conf.tmp`.
    pub tmp_path: String,
    /// The final path, `<root>/conf`.
    pub final_path: String,
    /// The serialized record with its trailing checksum.
    pub bytes: Vec<u8>,
}

impl Config {
    /// The options this configuration was built with.
    pub closed spec fn opts(&self) -> ConfigBuilder {
        (*self.0).0
    }

    /// Seals a builder.
    pub fn from_builder(b: ConfigBuilder) -> (r: Config)
        ensures
            r.opts() == b,
    {
        Config(Arc::new(Inner(b)))
    }

    /// A configuration with every option at its default.
    pub fn new() -> (r: Config)
        ensures
            crate::builder::has_default_options(r.opts()),
    {
        Config::from_builder(ConfigBuilder::default())
    }

    /// A builder with every option at its default.
    pub fn builder() -> (r: ConfigBuilder)
        ensures
            crate::builder::has_default_options(r),
    {
        ConfigBuilder::default()
    }

    /// The configured segment size.
    pub fn segment_size(&self) -> (r: usize)
        ensures
            r == self.opts().segment_size,
    {
        self.0.0.segment_size
    }

    /// Whether opening must fail if the database already exists.
    pub fn create_new(&self) -> (r: bool)
        ensures
            r == self.opts().create_new,
    {
        self.0.0.create_new
    }

    /// Whether the database is deleted when the session ends.
    pub fn temporary(&self) -> (r: bool)
        ensures
            r == self.opts().temporary,
    {
        self.0.0.temporary
    }

    /// The effective root path of the data directory.
    pub fn get_path(&self) -> (r: String)
        ensures
            r@ == get_path_spec(self.opts()),
    {
        self.0.0.get_path()
    }

    /// The path of the primary data file.
    pub fn db_path(&self) -> (r: String)
        ensures
            r@ == get_path_spec(self.opts()) + "/db"@,
    {
        self.0.0.db_path()
    }

    /// The path of the persisted configuration record.
    pub fn config_path(&self) -> (r: String)
        ensures
            r@ == get_path_spec(self.opts()) + "/conf"@,
    {
        self.0.0.config_path()
    }

    /// The persisted subset of this configuration.
    pub fn storage_parameters(&self) -> (r: StorageParameters)
        ensures
            r == params_spec(self.opts()),
    {
        StorageParameters {
            segment_size: self.0.0.segment_size,
            use_compression: self.0.0.use_compression,
            version: self.0.0.version,
        }
    }

    /// The serialized form of this configuration's persisted subset.
    pub fn serialize(&self) -> (r: Vec<u8>)
        ensures
            r@ == serialize_spec(params_spec(self.opts())),
    {
        self.storage_parameters().serialize()
    }

    /// Checks the in-memory rules; the first rule broken decides the
    /// error, and a valid configuration is accepted.
    pub fn validate(&self) -> (r: Result<(), Error>)
        ensures
            r == validate_spec(self.opts()),
    {
        let ss = self.0.0.segment_size;
        if !(ss != 0 && ss & (ss - 1) == 0) {
            Err(Error::Unsupported(MSG_SEG_POW2))
        } else if ss < 256 {
            Err(Error::Unsupported(MSG_SEG_MIN))
        } else if ss > 0x1000000 {
            Err(Error::Unsupported(MSG_SEG_MAX))
        } else if self.0.0.use_compression && !COMPRESSION_SUPPORTED {
            Err(Error::Unsupported(MSG_COMP_UNSUPPORTED))
        } else if self.0.0.compression_factor < 1 {
            Err(Error::Unsupported(MSG_CF_MIN))
        } else if self.0.0.compression_factor > 22 {
            Err(Error::Unsupported(MSG_CF_MAX))
        } else if self.0.0.idgen_persist_interval == 0 {
            Err(Error::Unsupported(MSG_IDGEN))
        } else {
            Ok(())
        }
    }

    /// Compares this configuration against a previously persisted
    /// record, exactly as the reconciliation rules demand.
    pub fn reconcile(&self, old: &StorageParameters) -> (r: Result<(), Error>)
        ensures
            r == reconcile_spec(self.opts(), *old),
    {
        if self.0.0.use_compression && !old.use_compression {
            Err(Error::Unsupported(MSG_COMP_OFF_ON))
        } else if !self.0.0.use_compression && old.use_compression {
            Err(Error::Unsupported(MSG_COMP_ON_OFF))
        } else if self.0.0.segment_size != old.segment_size {
            Err(Error::Unsupported(MSG_SEG_CHANGED))
        } else if !(self.0.0.version.0 == old.version.0 && self.0.0.version.1 == old.version.1) {
            Err(Error::Unsupported(MSG_VERSION))
        } else {
            Ok(())
        }
    }

    /// Runs the read protocol on the configuration file's contents
    /// (`None` for a missing file).
    pub fn read_config_from(contents: Option<&[u8]>) -> (r: Result<
        Option<StorageParameters>,
        Error,
    >)
        ensures
            r == read_config_spec(
                match contents {
                    Some(b) => Some(b@),
                    None => None,
                },
            ),
    {
        match contents {
            None => Ok(None),
            Some(b) => {
                let n = b.len();
                if n <= 8 {
                    Ok(None)
                } else {
                    match StorageParameters::deserialize(slice_subrange(b, 0, n - 4)) {
                        Ok(p) => Ok(Some(p)),
                        Err(e) => Err(e),
                    }
                }
            },
        }
    }

    /// Whether the trailing four checksum bytes match the payload
    /// before them. The read protocol does not depend on this; a
    /// mismatch is only worth a warning.
    pub fn checksum_matches(contents: &[u8]) -> (r: bool)
        requires
            contents@.len() > 8,
        ensures
            r == (u32_le_bytes(crc32_of(contents@.subrange(0, contents@.len() - 4)))
                == contents@.subrange(contents@.len() - 4, contents@.len() as int)),
    {
        let n = contents.len();
        let payload = slice_subrange(contents, 0, n - 4);
        let stored = arr_to_u32(slice_subrange(contents, n - 4, n));
        let actual = crc32(payload);
        proof {
            crate::checksum::lemma_u32_le_bytes_injective(crc32_of(payload@), stored);
        }
        actual == stored
    }

    /// The bytes the write protocol stages for this configuration.
    pub fn config_file_contents(&self) -> (r: Vec<u8>)
        ensures
            r@ == contents_spec(self.opts()),
    {
        let mut bytes = self.serialize();
        let crc = crc32(bytes.as_slice());
        let mut crc_arr = u32_to_arr(crc);
        bytes.append(&mut crc_arr);
        proof {
            assert(bytes@ =~= contents_spec(self.opts()));
        }
        bytes
    }

    /// Decides what reconciliation asks of the caller, from the read
    /// protocol's result: abort with the read's error, accept an
    /// existing compatible record (nothing to write), or stage a first
    /// record.
    pub fn verify_config_decision(&self, read: Result<Option<StorageParameters>, Error>) -> (r:
        Result<Option<Vec<u8>>, Error>)
        ensures
            match (r, verify_decision_spec(self.opts(), read)) {
                (Ok(Some(v)), Ok(Some(s))) => v@ == s,
                (Ok(None), Ok(None)) => true,
                (Err(e1), Err(e2)) => e1 == e2,
                _ => false,
            },
    {
        match read {
            Err(e) => Err(e),
            Ok(Some(old)) => match self.reconcile(&old) {
                Ok(()) => Ok(None),
                Err(e) => Err(e),
            },
            Ok(None) => Ok(Some(self.config_file_contents())),
        }
    }

    /// The staged atomic update of the persisted record. The staging
    /// path is never the final path: the final path only ever gains
    /// the new record through the rename.
    pub fn write_config_plan(&self) -> (r: WritePlan)
        ensures
            r.tmp_path@ == get_path_spec(self.opts()) + "/conf.tmp"@,
            r.final_path@ == get_path_spec(self.opts()) + "/conf"@,
            r.tmp_path@ != r.final_path@,
            r.bytes@ == contents_spec(self.opts()),
    {
        let mut tmp = self.get_path();
        tmp.append("/conf.tmp");
        proof {
            reveal_strlit("/conf.tmp");
            reveal_strlit("/conf");
        }
        WritePlan { tmp_path: tmp, final_path: self.config_path(), bytes: self.config_file_contents() }
    }

    /// The error a background task reported through the shared
    /// register, if any.
    pub fn global_error(&self) -> Result<(), Error> {
        match self.0.0.global_error.get() {
            None => Ok(()),
            Some(e) => Err(e),
        }
    }

    /// Reports a fatal error to every holder of this configuration;
    /// a no-op if one is already installed (the first writer wins).
    pub fn set_global_error(&self, e: Error) {
        self.0.0.global_error.set(e);
    }

    /// Clears the shared register.
    pub fn reset_global_error(&self) {
        self.0.0.global_error.reset();
    }
}

/// Opening the same path twice in sequence with the same configuration
/// is idempotent: reading back the very bytes the first open staged
/// yields this configuration's own parameters, they reconcile cleanly,
/// and the second open stages no new write.
pub proof fn lemma_reconcile_idempotent(c: ConfigBuilder)
    ensures
        read_config_spec(Some(contents_spec(c))) == Ok::<_, Error>(Some(params_spec(c))),
        reconcile_spec(c, params_spec(c)) == Ok::<(), Error>(()),
        verify_decision_spec(c, read_config_spec(Some(contents_spec(c)))) == Ok::<_, Error>(
            None::<Seq<u8>>,
        ),
{
    let p = params_spec(c);
    let s = serialize_spec(p);
    let contents = contents_spec(c);
    crate::textnum::lemma_dec_bytes_digits(p.segment_size as nat);
    assert(s.len() > 4);
    assert(contents.len() == s.len() + 4);
    assert(contents.subrange(0, contents.len() - 4) =~= s);
    crate::storage_parameters::lemma_serialize_deserialize(p);
}

/// Corruption leniency for the trailing checksum: the read protocol's
/// result depends on the payload alone, never on the four checksum
/// bytes behind it.
pub proof fn lemma_checksum_leniency(payload: Seq<u8>, crc_a: Seq<u8>, crc_b: Seq<u8>)
    requires
        crc_a.len() == 4,
        crc_b.len() == 4,
    ensures
        read_config_spec(Some(payload + crc_a)) == read_config_spec(Some(payload + crc_b)),
{
    assert((payload + crc_a).subrange(0, payload.len() as int) =~= payload);
    assert((payload + crc_b).subrange(0, payload.len() as int) =~= payload);
}

} // verus!
