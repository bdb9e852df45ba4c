//! Snapshot-file enumeration: which directory entries count as
//! finished snapshots of a session. An entry counts when its path
//! starts with the session's snapshot prefix and does not end with the
//! in-progress marker suffix.
use vstd::prelude::*;
use vstd::slice::slice_subrange;
use vstd::string::{StringExecFns, StringSliceAdditionalSpecFns};
use vstd::utf8::encode_utf8;

use crate::builder::get_path_spec;
use crate::config::Config;
use crate::textnum::bytes_eq;

verus! {

/// One byte text starts with another.
pub open spec fn bytes_starts_with(s: Seq<u8>, p: Seq<u8>) -> bool {
    s.len() >= p.len() && s.subrange(0, p.len() as int) == p
}

/// One byte text ends with another.
pub open spec fn bytes_ends_with(s: Seq<u8>, p: Seq<u8>) -> bool {
    s.len() >= p.len() && s.subrange(s.len() - p.len(), s.len() as int) == p
}

/// The suffix that marks a snapshot still being written.
pub open spec fn snapshot_marker_bytes() -> Seq<u8> {
    ".generating".spec_bytes()
}

/// Whether a directory entry is a finished snapshot under `prefix`,
/// compared byte for byte as paths are.
pub open spec fn is_snapshot_entry(e: Seq<u8>, prefix: Seq<u8>) -> bool {
    bytes_starts_with(e, prefix) && !bytes_ends_with(e, snapshot_marker_bytes())
}

/// The snapshot predicate over path strings, for a fixed prefix.
pub open spec fn snapshot_pred(prefix: Seq<char>) -> spec_fn(String) -> bool {
    |e: String| is_snapshot_entry(encode_utf8(e@), encode_utf8(prefix))
}

/// Whether `s` starts with `p`, byte for byte.
pub fn str_starts_with(s: &str, p: &str) -> (r: bool)
    ensures
        r == bytes_starts_with(s.spec_bytes(), p.spec_bytes()),
{
    let sb = s.as_bytes();
    let pb = p.as_bytes();
    if sb.len() < pb.len() {
        false
    } else {
        bytes_eq(slice_subrange(sb, 0, pb.len()), pb)
    }
}

/// Whether `s` ends with `p`, byte for byte.
pub fn str_ends_with(s: &str, p: &str) -> (r: bool)
    ensures
        r == bytes_ends_with(s.spec_bytes(), p.spec_bytes()),
{
    let sb = s.as_bytes();
    let pb = p.as_bytes();
    if sb.len() < pb.len() {
        false
    } else {
        bytes_eq(slice_subrange(sb, sb.len() - pb.len(), sb.len()), pb)
    }
}

/// Keeps, in order, exactly the entries that are finished snapshots
/// under `prefix`.
pub fn filter_snapshot_entries(prefix: &str, entries: &Vec<String>) -> (r: Vec<String>)
    ensures
        r@ == entries@.filter(snapshot_pred(prefix@)),
{
    let ghost pred = snapshot_pred(prefix@);
    let mut r: Vec<String> = Vec::new();
    let n = entries.len();
    let mut i: usize = 0;
    proof {
        assert(entries@.subrange(0, 0) =~= Seq::<String>::empty());
        reveal(Seq::filter);
    }
    while i < n
        invariant
            i <= n == entries@.len(),
            pred == snapshot_pred(prefix@),
            r@ == entries@.subrange(0, i as int).filter(pred),
        decreases n - i,
    {
        let e = &entries[i];
        let keep = str_starts_with(e.as_str(), prefix) && !str_ends_with(e.as_str(), ".generating");
        proof {
            assert(keep == pred(*e));
        }
        if keep {
            r.push(e.clone());
        }
        proof {
            let a = entries@.subrange(0, i as int);
            let b = entries@.subrange(0, i as int + 1);
            assert(b.drop_last() =~= a);
            assert(b.last() == entries@[i as int]);
            reveal(Seq::filter);
            assert(b.filter(pred) == if pred(entries@[i as int]) {
                a.filter(pred).push(entries@[i as int])
            } else {
                a.filter(pred)
            });
            assert(r@ =~= b.filter(pred));
        }
        i = i + 1;
    }
    proof {
        assert(entries@.subrange(0, n as int) =~= entries@);
    }
    r
}

impl Config {
    /// The path prefix under which this session's snapshot files
    /// live.
    pub fn snapshot_prefix(&self) -> (r: String)
        ensures
            r@ == get_path_spec(self.opts()) + "/snap."@,
    {
        let mut p = self.get_path();
        p.append("/snap.");
        p
    }
}

} // verus!
