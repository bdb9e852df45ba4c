//! The minimal configuration subset that is persisted on disk, and its
//! text encoding: newline-delimited `key: value` records for the
//! segment size, the compression flag and the schema version.
use vstd::prelude::*;
use vstd::slice::{slice_subrange, slice_to_vec};
use vstd::utf8::valid_utf8;

use crate::error::Error;
use crate::scan::{
    find_byte, find_byte_from, find_sep, find_sep_from, is_valid_utf8, lemma_find_byte_from_at,
    lemma_find_byte_from_none, lemma_find_byte_from_props, lemma_find_sep_from_at,
    lemma_find_sep_from_none, lemma_find_sep_from_props, lemma_split_lines_last,
    lemma_split_lines_step, split_lines, strip_cr, strip_cr_slice,
};
use crate::textnum::{
    bool_bytes, bytes_eq, dec_bytes, parse_bool, parse_bool_spec, parse_usize, parse_usize_spec,
    push_bool, push_decimal,
};

verus! {

/// A persisted configuration record about high-level storage file
/// information. This is the only configuration subset that survives a
/// restart; everything else is session-local.
#[derive(Debug, Clone, Copy, PartialEq, Eq)]
pub struct StorageParameters {
    /// The fixed I/O buffer size baked into the on-disk layout.
    pub segment_size: usize,
    /// Whether the data was written with compression enabled.
    pub use_compression: bool,
    /// Schema version as (major, minor).
    pub version: (usize, usize),
}

/// The bytes of the key "segment_size".
pub open spec fn seg_key_bytes() -> Seq<u8> {
    seq![115u8, 101u8, 103u8, 109u8, 101u8, 110u8, 116u8, 95u8, 115u8, 105u8, 122u8, 101u8]
}

/// The bytes of the key "use_compression".
pub open spec fn comp_key_bytes() -> Seq<u8> {
    seq![
        117u8,
        115u8,
        101u8,
        95u8,
        99u8,
        111u8,
        109u8,
        112u8,
        114u8,
        101u8,
        115u8,
        115u8,
        105u8,
        111u8,
        110u8,
    ]
}

/// The bytes of the key "version".
pub open spec fn ver_key_bytes() -> Seq<u8> {
    seq![118u8, 101u8, 114u8, 115u8, 105u8, 111u8, 110u8]
}

/// The key/value separator ": ".
pub open spec fn sep_bytes() -> Seq<u8> {
    seq![58u8, 32u8]
}

/// The serialized text record: one `key: value` line per field, each
/// ended by a newline, the version written as `major.minor`.
pub open spec fn serialize_spec(p: StorageParameters) -> Seq<u8> {
    seg_key_bytes() + sep_bytes() + dec_bytes(p.segment_size as nat) + seq![10u8]
        + comp_key_bytes() + sep_bytes() + bool_bytes(p.use_compression) + seq![10u8]
        + ver_key_bytes() + sep_bytes() + dec_bytes(p.version.0 as nat) + seq![46u8] + dec_bytes(
        p.version.1 as nat,
    ) + seq![10u8]
}

impl StorageParameters {
    /// Encodes the record as its persisted text form.
    pub fn serialize(&self) -> (r: Vec<u8>)
        ensures
            r@ == serialize_spec(*self),
    {
        let mut out: Vec<u8> = Vec::new();
        push_seg_key(&mut out);
        push_sep(&mut out);
        push_decimal(&mut out, self.segment_size);
        out.push(10);
        push_comp_key(&mut out);
        push_sep(&mut out);
        push_bool(&mut out, self.use_compression);
        out.push(10);
        push_ver_key(&mut out);
        push_sep(&mut out);
        push_decimal(&mut out, self.version.0);
        out.push(46);
        push_decimal(&mut out, self.version.1);
        out.push(10);
        proof {
            assert(out@ =~= serialize_spec(*self));
        }
        out
    }
}

/// Appends the bytes of "segment_size".
fn push_seg_key(out: &mut Vec<u8>)
    ensures
        final(out)@ == old(out)@ + seg_key_bytes(),
{
    out.push(115);
    out.push(101);
    out.push(103);
    out.push(109);
    out.push(101);
    out.push(110);
    out.push(116);
    out.push(95);
    out.push(115);
    out.push(105);
    out.push(122);
    out.push(101);
    assert(out@ =~= old(out)@ + seg_key_bytes());
}

/// Appends the bytes of "use_compression".
fn push_comp_key(out: &mut Vec<u8>)
    ensures
        final(out)@ == old(out)@ + comp_key_bytes(),
{
    out.push(117);
    out.push(115);
    out.push(101);
    out.push(95);
    out.push(99);
    out.push(111);
    out.push(109);
    out.push(112);
    out.push(114);
    out.push(101);
    out.push(115);
    out.push(115);
    out.push(105);
    out.push(111);
    out.push(110);
    assert(out@ =~= old(out)@ + comp_key_bytes());
}

/// Appends the bytes of "version".
fn push_ver_key(out: &mut Vec<u8>)
    ensures
        final(out)@ == old(out)@ + ver_key_bytes(),
{
    out.push(118);
    out.push(101);
    out.push(114);
    out.push(115);
    out.push(105);
    out.push(111);
    out.push(110);
    assert(out@ =~= old(out)@ + ver_key_bytes());
}

/// Appends the bytes of ": ".
fn push_sep(out: &mut Vec<u8>)
    ensures
        final(out)@ == old(out)@ + sep_bytes(),
{
    out.push(58);
    out.push(32);
    assert(out@ =~= old(out)@ + sep_bytes());
}

/// The message used when the persisted record is not UTF-8 text, which
/// only a record written by a pre-0.29 format could be.
pub const PRE_029_MSG: &'static str =
    "failed to open database that may have been created using a format version earlier than 0.29";

/// The raw value text most recently seen for each known key while
/// scanning the record's lines.
pub ghost struct RawKv {
    pub seg: Option<Seq<u8>>,
    pub comp: Option<Seq<u8>>,
    pub ver: Option<Seq<u8>>,
}

/// No key seen yet.
pub open spec fn raw_kv_init() -> RawKv {
    RawKv { seg: None, comp: None, ver: None }
}

/// The value of a line whose first separator starts at `i`: the text
/// between that separator and the next one, or the end of the line.
pub open spec fn kv_value(l: Seq<u8>, i: int) -> Seq<u8> {
    match find_sep_from(l, i + 2) {
        Some(j) => l.subrange(i + 2, j),
        None => l.subrange(i + 2, l.len() as int),
    }
}

/// Records `v` under `k` if `k` is a known key; a later line wins over
/// an earlier one, an unknown key is ignored.
pub open spec fn acc_update(acc: RawKv, k: Seq<u8>, v: Seq<u8>) -> RawKv {
    if k == seg_key_bytes() {
        RawKv { seg: Some(v), comp: acc.comp, ver: acc.ver }
    } else if k == comp_key_bytes() {
        RawKv { seg: acc.seg, comp: Some(v), ver: acc.ver }
    } else if k == ver_key_bytes() {
        RawKv { seg: acc.seg, comp: acc.comp, ver: Some(v) }
    } else {
        acc
    }
}

/// Scans the record's lines in order. A line that is not UTF-8 text is
/// unsupported (pre-0.29 format); a line without a `": "` separator is
/// corruption; otherwise the line's key and value are recorded.
pub open spec fn scan_lines(lines: Seq<Seq<u8>>, acc: RawKv) -> Result<RawKv, Error>
    decreases lines.len(),
{
    if lines.len() == 0 {
        Ok(acc)
    } else {
        let l = lines[0];
        if !valid_utf8(l) {
            Err(Error::Unsupported(PRE_029_MSG))
        } else {
            match find_sep_from(l, 0) {
                None => Err(Error::Corruption),
                Some(i) => scan_lines(
                    lines.drop_first(),
                    acc_update(acc, l.subrange(0, i), kv_value(l, i)),
                ),
            }
        }
    }
}

/// The `major.minor` version text: the digits before the first dot and
/// the digits between the first and second dots (or the end), both
/// under the `usize` grammar; text after a second dot is ignored.
pub open spec fn version_of(v: Seq<u8>) -> Option<(usize, usize)> {
    match find_byte_from(v, 46, 0) {
        None => None,
        Some(j) => {
            let rest = v.subrange(j + 1, v.len() as int);
            let minor_part = match find_byte_from(rest, 46, 0) {
                Some(k) => rest.subrange(0, k),
                None => rest,
            };
            match (parse_usize_spec(v.subrange(0, j)), parse_usize_spec(minor_part)) {
                (Some(ma), Some(mi)) => Some((ma, mi)),
                _ => None,
            }
        },
    }
}

/// Turns the scanned raw values into a record: every key must be
/// present and parse under its grammar, else the record is corrupt.
pub open spec fn params_of(acc: RawKv) -> Result<StorageParameters, Error> {
    match acc.seg {
        None => Err(Error::Corruption),
        Some(sv) => match parse_usize_spec(sv) {
            None => Err(Error::Corruption),
            Some(ss) => match acc.comp {
                None => Err(Error::Corruption),
                Some(cv) => match parse_bool_spec(cv) {
                    None => Err(Error::Corruption),
                    Some(uc) => match acc.ver {
                        None => Err(Error::Corruption),
                        Some(vv) => match version_of(vv) {
                            None => Err(Error::Corruption),
                            Some(ver) => Ok(
                                StorageParameters {
                                    segment_size: ss,
                                    use_compression: uc,
                                    version: ver,
                                },
                            ),
                        },
                    },
                },
            },
        },
    }
}

/// What `deserialize` returns on any byte text.
pub open spec fn deserialize_spec(bytes: Seq<u8>) -> Result<StorageParameters, Error> {
    match scan_lines(split_lines(bytes), raw_kv_init()) {
        Err(e) => Err(e),
        Ok(acc) => params_of(acc),
    }
}

/// The raw-value state that three option buffers stand for.
pub open spec fn acc_of(seg: Option<Vec<u8>>, comp: Option<Vec<u8>>, ver: Option<Vec<u8>>) -> RawKv {
    RawKv { seg: opt_bytes(seg), comp: opt_bytes(comp), ver: opt_bytes(ver) }
}

/// The byte view of an optional buffer.
pub open spec fn opt_bytes(o: Option<Vec<u8>>) -> Option<Seq<u8>> {
    match o {
        Some(v) => Some(v@),
        None => None,
    }
}

/// The key "segment_size" as a buffer.
fn seg_key_vec() -> (r: Vec<u8>)
    ensures
        r@ == seg_key_bytes(),
{
    let mut v: Vec<u8> = Vec::new();
    push_seg_key(&mut v);
    v
}

/// The key "use_compression" as a buffer.
fn comp_key_vec() -> (r: Vec<u8>)
    ensures
        r@ == comp_key_bytes(),
{
    let mut v: Vec<u8> = Vec::new();
    push_comp_key(&mut v);
    v
}

/// The key "version" as a buffer.
fn ver_key_vec() -> (r: Vec<u8>)
    ensures
        r@ == ver_key_bytes(),
{
    let mut v: Vec<u8> = Vec::new();
    push_ver_key(&mut v);
    v
}

/// Parses a `major.minor` version value.
fn parse_version(v: &[u8]) -> (r: Option<(usize, usize)>)
    ensures
        r == version_of(v@),
{
    let n = v.len();
    match find_byte(v, 46, 0) {
        None => None,
        Some(j) => {
            proof {
                lemma_find_byte_from_props(v@, 46, 0);
            }
            let major_s = slice_subrange(v, 0, j);
            let rest = slice_subrange(v, j + 1, n);
            let minor_s: &[u8] = match find_byte(rest, 46, 0) {
                Some(k) => {
                    proof {
                        lemma_find_byte_from_props(rest@, 46, 0);
                    }
                    slice_subrange(rest, 0, k)
                },
                None => rest,
            };
            match (parse_usize(major_s), parse_usize(minor_s)) {
                (Some(ma), Some(mi)) => Some((ma, mi)),
                _ => None,
            }
        },
    }
}

impl StorageParameters {
    /// Decodes a persisted text record. Non-UTF-8 content is reported
    /// as the unsupported pre-0.29 format; a line without a separator,
    /// a missing key or an unparsable value is corruption.
    #[verifier::rlimit(60)]
    pub fn deserialize(bytes: &[u8]) -> (r: Result<StorageParameters, Error>)
        ensures
            r == deserialize_spec(bytes@),
    {
        let n = bytes.len();
        let mut seg_v: Option<Vec<u8>> = None;
        let mut comp_v: Option<Vec<u8>> = None;
        let mut ver_v: Option<Vec<u8>> = None;
        let mut i: usize = 0;
        proof {
            assert(bytes@.subrange(0, n as int) =~= bytes@);
        }
        while i < n
            invariant
                i <= n == bytes@.len(),
                scan_lines(split_lines(bytes@), raw_kv_init()) == scan_lines(
                    split_lines(bytes@.subrange(i as int, n as int)),
                    acc_of(seg_v, comp_v, ver_v),
                ),
            decreases n - i,
        {
            let ghost suffix = bytes@.subrange(i as int, n as int);
            let ghost acc0 = acc_of(seg_v, comp_v, ver_v);
            let (line, next_i): (&[u8], usize) = match find_byte(bytes, 10, i) {
                Some(j) => {
                    proof {
                        lemma_find_byte_from_props(bytes@, 10, i as int);
                    }
                    let raw = slice_subrange(bytes, i, j);
                    let stripped = strip_cr_slice(raw);
                    proof {
                        assert(suffix[(j - i) as int] == 10);
                        assert(forall|k: int| 0 <= k < j - i ==> suffix[k] != 10);
                        lemma_split_lines_step(suffix, j - i);
                        assert(suffix.subrange(0, j - i) =~= raw@);
                        assert(suffix.subrange(j - i + 1, suffix.len() as int) =~= bytes@.subrange(
                            j + 1,
                            n as int,
                        ));
                    }
                    (stripped, j + 1)
                },
                None => {
                    proof {
                        lemma_find_byte_from_props(bytes@, 10, i as int);
                        assert(forall|k: int| 0 <= k < suffix.len() ==> suffix[k] != 10);
                        lemma_split_lines_last(suffix);
                        assert(suffix.subrange(0, suffix.len() as int) =~= suffix);
                    }
                    (slice_subrange(bytes, i, n), n)
                },
            };
            let ghost rest_lines = split_lines(bytes@.subrange(next_i as int, n as int));
            proof {
                assert(split_lines(suffix) == seq![line@] + rest_lines);
                assert((seq![line@] + rest_lines)[0] == line@);
                assert((seq![line@] + rest_lines).drop_first() =~= rest_lines);
            }
            if !is_valid_utf8(line) {
                return Err(Error::Unsupported(PRE_029_MSG));
            }
            let p = match find_sep(line, 0) {
                None => {
                    return Err(Error::Corruption);
                },
                Some(p) => p,
            };
            proof {
                lemma_find_sep_from_props(line@, 0);
            }
            let k = slice_subrange(line, 0, p);
            let v: &[u8] = match find_sep(line, p + 2) {
                Some(q) => {
                    proof {
                        lemma_find_sep_from_props(line@, p as int + 2);
                    }
                    slice_subrange(line, p + 2, q)
                },
                None => slice_subrange(line, p + 2, line.len()),
            };
            proof {
                assert(v@ == kv_value(line@, p as int));
            }
            let seg_k = seg_key_vec();
            let comp_k = comp_key_vec();
            let ver_k = ver_key_vec();
            if bytes_eq(k, seg_k.as_slice()) {
                seg_v = Some(slice_to_vec(v));
            } else if bytes_eq(k, comp_k.as_slice()) {
                comp_v = Some(slice_to_vec(v));
            } else if bytes_eq(k, ver_k.as_slice()) {
                ver_v = Some(slice_to_vec(v));
            }
            proof {
                assert(acc_of(seg_v, comp_v, ver_v) == acc_update(acc0, k@, v@));
            }
            i = next_i;
        }
        proof {
            assert(bytes@.subrange(i as int, n as int) =~= Seq::<u8>::empty());
        }
        let sv = match seg_v {
            None => {
                return Err(Error::Corruption);
            },
            Some(sv) => sv,
        };
        let ss = match parse_usize(sv.as_slice()) {
            None => {
                return Err(Error::Corruption);
            },
            Some(ss) => ss,
        };
        let cv = match comp_v {
            None => {
                return Err(Error::Corruption);
            },
            Some(cv) => cv,
        };
        let uc = match parse_bool(cv.as_slice()) {
            None => {
                return Err(Error::Corruption);
            },
            Some(uc) => uc,
        };
        let vv = match ver_v {
            None => {
                return Err(Error::Corruption);
            },
            Some(vv) => vv,
        };
        let ver = match parse_version(vv.as_slice()) {
            None => {
                return Err(Error::Corruption);
            },
            Some(ver) => ver,
        };
        Ok(StorageParameters { segment_size: ss, use_compression: uc, version: ver })
    }
}

/// Text that can stand on the key or value side of a record line:
/// ASCII with no newline, no carriage return and no colon.
pub open spec fn kv_text(s: Seq<u8>) -> bool {
    forall|i: int|
        0 <= i < s.len() ==> (#[trigger] s[i]) < 128 && s[i] != 10 && s[i] != 13 && s[i] != 58
}

/// Decimal digits are record-safe text.
proof fn lemma_dec_bytes_kv_text(n: nat)
    ensures
        kv_text(dec_bytes(n)),
        dec_bytes(n).len() >= 1,
        dec_bytes(n).last() != 13,
        forall|i: int| 0 <= i < dec_bytes(n).len() ==> (#[trigger] dec_bytes(n)[i]) != 46,
{
    crate::textnum::lemma_dec_bytes_digits(n);
}

/// Shape of one serialized record line `a": "b`: the separator is
/// found exactly at the key's end, the value is everything after it,
/// the line is UTF-8, holds no newline, and keeps no carriage return.
proof fn lemma_kv_line(a: Seq<u8>, b: Seq<u8>)
    requires
        kv_text(a),
        kv_text(b),
        b.len() > 0,
    ensures
        find_sep_from(a + sep_bytes() + b, 0) == Some(a.len() as int),
        (a + sep_bytes() + b).subrange(0, a.len() as int) == a,
        kv_value(a + sep_bytes() + b, a.len() as int) == b,
        valid_utf8(a + sep_bytes() + b),
        forall|k: int| 0 <= k < (a + sep_bytes() + b).len() ==> (#[trigger] (a + sep_bytes()
            + b)[k]) != 10,
        strip_cr(a + sep_bytes() + b) == a + sep_bytes() + b,
{
    let l = a + sep_bytes() + b;
    assert(l.len() == a.len() + 2 + b.len());
    assert(forall|k: int| 0 <= k < a.len() ==> l[k] == a[k]);
    assert(l[a.len() as int] == 58);
    assert(l[a.len() as int + 1] == 32);
    assert(forall|k: int| a.len() + 2 <= k < l.len() ==> l[k] == b[k - a.len() as int - 2]);
    lemma_find_sep_from_at(l, 0, a.len() as int);
    assert(l.subrange(0, a.len() as int) =~= a);
    lemma_find_sep_from_none(l, a.len() as int + 2);
    assert(l.subrange(a.len() as int + 2, l.len() as int) =~= b);
    assert(forall|k: int| 0 <= k < l.len() ==> (#[trigger] l[k]) < 128);
    crate::scan::lemma_ascii_valid_utf8(l);
    assert(l.last() == b.last());
}

/// Serializing a record and reading the text back yields the same
/// record, for every record: the persisted form loses nothing.
#[verifier::rlimit(100)]
pub proof fn lemma_serialize_deserialize(p: StorageParameters)
    ensures
        deserialize_spec(serialize_spec(p)) == Ok::<StorageParameters, Error>(p),
{
    let maj = p.version.0 as nat;
    let min = p.version.1 as nat;
    let v1 = dec_bytes(p.segment_size as nat);
    let v2 = bool_bytes(p.use_compression);
    let v3 = dec_bytes(maj) + seq![46u8] + dec_bytes(min);
    let l1 = seg_key_bytes() + sep_bytes() + v1;
    let l2 = comp_key_bytes() + sep_bytes() + v2;
    let l3 = ver_key_bytes() + sep_bytes() + v3;
    let s = serialize_spec(p);
    let nl = seq![10u8];
    let r2 = l3 + nl;
    let r1 = l2 + nl + r2;
    assert(s =~= l1 + nl + r1);

    assert(kv_text(seg_key_bytes()));
    assert(kv_text(comp_key_bytes()));
    assert(kv_text(ver_key_bytes()));
    lemma_dec_bytes_kv_text(p.segment_size as nat);
    lemma_dec_bytes_kv_text(maj);
    lemma_dec_bytes_kv_text(min);
    assert(kv_text(v2));
    assert(forall|i: int| 0 <= i < v3.len() ==> (#[trigger] v3[i]) < 128 && v3[i] != 10 && v3[i]
        != 13 && v3[i] != 58);
    lemma_kv_line(seg_key_bytes(), v1);
    lemma_kv_line(comp_key_bytes(), v2);
    lemma_kv_line(ver_key_bytes(), v3);

    // The serialized text splits into exactly the three lines.
    assert(s[l1.len() as int] == 10);
    assert(forall|k: int| 0 <= k < l1.len() ==> #[trigger] s[k] == l1[k]);
    lemma_split_lines_step(s, l1.len() as int);
    assert(s.subrange(0, l1.len() as int) =~= l1);
    assert(s.subrange(l1.len() as int + 1, s.len() as int) =~= r1);

    assert(r1[l2.len() as int] == 10);
    assert(forall|k: int| 0 <= k < l2.len() ==> #[trigger] r1[k] == l2[k]);
    lemma_split_lines_step(r1, l2.len() as int);
    assert(r1.subrange(0, l2.len() as int) =~= l2);
    assert(r1.subrange(l2.len() as int + 1, r1.len() as int) =~= r2);

    assert(r2[l3.len() as int] == 10);
    assert(forall|k: int| 0 <= k < l3.len() ==> #[trigger] r2[k] == l3[k]);
    lemma_split_lines_step(r2, l3.len() as int);
    assert(r2.subrange(0, l3.len() as int) =~= l3);
    assert(r2.subrange(l3.len() as int + 1, r2.len() as int) =~= Seq::<u8>::empty());

    let lines = seq![l1, l2, l3];
    assert(split_lines(s) =~= lines);

    // Scanning the three lines records the three values.
    let acc1 = acc_update(raw_kv_init(), seg_key_bytes(), v1);
    let acc2 = acc_update(acc1, comp_key_bytes(), v2);
    let acc3 = acc_update(acc2, ver_key_bytes(), v3);
    assert(lines.drop_first() =~= seq![l2, l3]);
    assert(seq![l2, l3].drop_first() =~= seq![l3]);
    assert(seq![l3].drop_first() =~= Seq::<Seq<u8>>::empty());
    assert(lines[0] == l1);
    assert(scan_lines(lines, raw_kv_init()) == scan_lines(seq![l2, l3], acc1));
    assert(seq![l2, l3][0] == l2);
    assert(scan_lines(seq![l2, l3], acc1) == scan_lines(seq![l3], acc2));
    assert(seq![l3][0] == l3);
    assert(scan_lines(seq![l3], acc2) == scan_lines(Seq::<Seq<u8>>::empty(), acc3));
    assert(scan_lines(lines, raw_kv_init()) == Ok::<RawKv, Error>(acc3));
    assert(acc3 == RawKv { seg: Some(v1), comp: Some(v2), ver: Some(v3) });

    // The recorded values parse back to the record's fields.
    crate::textnum::lemma_parse_dec_bytes(p.segment_size);
    assert(parse_bool_spec(v2) == Some(p.use_compression));
    let j = dec_bytes(maj).len() as int;
    assert(v3[j] == 46);
    lemma_find_byte_from_at(v3, 46, 0, j);
    assert(v3.subrange(0, j) =~= dec_bytes(maj));
    let rest = v3.subrange(j + 1, v3.len() as int);
    assert(rest =~= dec_bytes(min));
    lemma_find_byte_from_none(rest, 46, 0);
    crate::textnum::lemma_parse_dec_bytes(p.version.0);
    crate::textnum::lemma_parse_dec_bytes(p.version.1);
    assert(version_of(v3) == Some(p.version));
    assert(params_of(acc3) == Ok::<StorageParameters, Error>(p));
}

} // verus!
