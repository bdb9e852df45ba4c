//! Byte-level text scanning for the persisted configuration record:
//! newline splitting with the semantics of buffered line reading,
//! `": "` separator search, and UTF-8 validity.
use vstd::prelude::*;
use vstd::slice::{slice_index_get, slice_subrange};
use vstd::utf8::{
    encode_utf8, is_ascii_chars, is_ascii_chars_encode_utf8, encode_utf8_valid_utf8, valid_utf8,
};

verus! {

/// Index of the first occurrence of `b` in `s` at or after `i`.
pub open spec fn find_byte_from(s: Seq<u8>, b: u8, i: int) -> Option<int>
    decreases s.len() - i,
{
    if i < 0 || i >= s.len() {
        None
    } else if s[i] == b {
        Some(i)
    } else {
        find_byte_from(s, b, i + 1)
    }
}

/// Index of the first occurrence of the two-byte separator `": "` in
/// `s` at or after `i`.
pub open spec fn find_sep_from(s: Seq<u8>, i: int) -> Option<int>
    decreases s.len() - i,
{
    if i < 0 || i + 2 > s.len() {
        None
    } else if s[i] == 58 && s[i + 1] == 32 {
        Some(i)
    } else {
        find_sep_from(s, i + 1)
    }
}

/// What a found byte index means: in range, a hit, and the first one.
pub proof fn lemma_find_byte_from_props(s: Seq<u8>, b: u8, i: int)
    requires
        0 <= i <= s.len(),
    ensures
        match find_byte_from(s, b, i) {
            Some(j) => i <= j < s.len() && s[j] == b && (forall|k: int|
                i <= k < j ==> s[k] != b),
            None => forall|k: int| i <= k < s.len() ==> s[k] != b,
        },
    decreases s.len() - i,
{
    if i < s.len() {
        lemma_find_byte_from_props(s, b, i + 1);
    }
}

/// What a found separator index means: in range, a hit, and the first.
pub proof fn lemma_find_sep_from_props(s: Seq<u8>, i: int)
    requires
        0 <= i,
    ensures
        match find_sep_from(s, i) {
            Some(j) => i <= j && j + 2 <= s.len() && s[j] == 58 && s[j + 1] == 32 && (forall|
                k: int,
            |
                i <= k < j ==> !(#[trigger] s[k] == 58 && s[k + 1] == 32)),
            None => forall|k: int|
                i <= k && k + 2 <= s.len() ==> !(#[trigger] s[k] == 58 && s[k + 1] == 32),
        },
    decreases s.len() - i,
{
    if i + 2 <= s.len() {
        lemma_find_sep_from_props(s, i + 1);
    }
}

/// A known first hit determines the search's result.
pub proof fn lemma_find_byte_from_at(s: Seq<u8>, b: u8, i: int, j: int)
    requires
        0 <= i <= j < s.len(),
        s[j] == b,
        forall|k: int| i <= k < j ==> s[k] != b,
    ensures
        find_byte_from(s, b, i) == Some(j),
    decreases j - i,
{
    if i < j {
        lemma_find_byte_from_at(s, b, i + 1, j);
    }
}

/// No hit from `i` on means the search fails.
pub proof fn lemma_find_byte_from_none(s: Seq<u8>, b: u8, i: int)
    requires
        0 <= i,
        forall|k: int| i <= k < s.len() ==> s[k] != b,
    ensures
        find_byte_from(s, b, i) == None::<int>,
    decreases s.len() - i,
{
    if i < s.len() {
        lemma_find_byte_from_none(s, b, i + 1);
    }
}

/// A known first separator determines the search's result.
pub proof fn lemma_find_sep_from_at(s: Seq<u8>, i: int, j: int)
    requires
        0 <= i <= j,
        j + 2 <= s.len(),
        s[j] == 58 && s[j + 1] == 32,
        forall|k: int| i <= k < j ==> !(#[trigger] s[k] == 58 && s[k + 1] == 32),
    ensures
        find_sep_from(s, i) == Some(j),
    decreases j - i,
{
    if i < j {
        lemma_find_sep_from_at(s, i + 1, j);
    }
}

/// No separator from `i` on means the search fails.
pub proof fn lemma_find_sep_from_none(s: Seq<u8>, i: int)
    requires
        0 <= i,
        forall|k: int| i <= k && k + 2 <= s.len() ==> !(#[trigger] s[k] == 58 && s[k + 1] == 32),
    ensures
        find_sep_from(s, i) == None::<int>,
    decreases s.len() - i,
{
    if i + 2 <= s.len() {
        lemma_find_sep_from_none(s, i + 1);
    }
}

/// Drops a trailing carriage return, as buffered line reading does for
/// lines that ended in `\r\n`.
pub open spec fn strip_cr(s: Seq<u8>) -> Seq<u8> {
    if s.len() > 0 && s.last() == 13 {
        s.drop_last()
    } else {
        s
    }
}

/// The lines of `s`, as `BufRead::lines` yields them: split on `\n`,
/// each line stripped of the `\n` and of a preceding `\r`; a final
/// fragment without a newline is a line of its own; a trailing newline
/// does not open an empty final line.
pub open spec fn split_lines(s: Seq<u8>) -> Seq<Seq<u8>>
    decreases s.len(),
    via split_lines_decreases
{
    if s.len() == 0 {
        seq![]
    } else {
        match find_byte_from(s, 10, 0) {
            Some(j) => seq![strip_cr(s.subrange(0, j))] + split_lines(
                s.subrange(j + 1, s.len() as int),
            ),
            None => seq![s],
        }
    }
}

#[via_fn]
proof fn split_lines_decreases(s: Seq<u8>) {
    if s.len() > 0 {
        lemma_find_byte_from_props(s, 10, 0);
    }
}

/// Unfolds `split_lines` at the first newline.
pub proof fn lemma_split_lines_step(s: Seq<u8>, j: int)
    requires
        0 <= j < s.len(),
        s[j] == 10,
        forall|k: int| 0 <= k < j ==> s[k] != 10,
    ensures
        split_lines(s) == seq![strip_cr(s.subrange(0, j))] + split_lines(
            s.subrange(j + 1, s.len() as int),
        ),
{
    lemma_find_byte_from_props(s, 10, 0);
    match find_byte_from(s, 10, 0) {
        Some(j2) => {
            if j2 < j {
                assert(s[j2] != 10);
            }
            if j < j2 {
                assert(s[j] != 10);
            }
            assert(j2 == j);
        },
        None => {
            assert(s[j] != 10);
        },
    }
}

/// A nonempty text without newlines is a single line.
pub proof fn lemma_split_lines_last(s: Seq<u8>)
    requires
        s.len() > 0,
        forall|k: int| 0 <= k < s.len() ==> s[k] != 10,
    ensures
        split_lines(s) == seq![s],
{
    lemma_find_byte_from_props(s, 10, 0);
    match find_byte_from(s, 10, 0) {
        Some(j) => {
            assert(s[j] != 10);
        },
        None => {},
    }
}

/// A sequence of bytes below 128 is valid UTF-8: each byte is the
/// one-byte encoding of the character with the same value.
pub proof fn lemma_ascii_valid_utf8(s: Seq<u8>)
    requires
        forall|i: int| 0 <= i < s.len() ==> s[i] < 128,
    ensures
        valid_utf8(s),
{
    let chars = Seq::new(s.len(), |i: int| s[i] as char);
    assert(is_ascii_chars(chars));
    is_ascii_chars_encode_utf8(chars);
    assert(encode_utf8(chars) =~= s);
    encode_utf8_valid_utf8(chars);
}

/// An all-ASCII byte sequence decodes to the characters with the same
/// values: any character sequence that encodes to it is that one.
pub proof fn lemma_ascii_bytes_chars(b: Seq<u8>, c: Seq<char>)
    requires
        forall|i: int| 0 <= i < b.len() ==> b[i] < 128,
        encode_utf8(c) == b,
    ensures
        c == b.map_values(|x: u8| x as char),
{
    let c2 = b.map_values(|x: u8| x as char);
    assert(is_ascii_chars(c2));
    is_ascii_chars_encode_utf8(c2);
    assert(encode_utf8(c2) =~= b);
    vstd::utf8::encode_utf8_decode_utf8(c);
    vstd::utf8::encode_utf8_decode_utf8(c2);
}

/// Relies on `String::from_utf8`: it succeeds exactly on valid UTF-8
/// and decodes the bytes to the characters they encode.
#[verifier::external_body]
pub fn string_from_utf8(v: Vec<u8>) -> (r: Option<String>)
    ensures
        r is Some <==> valid_utf8(v@),
        r matches Some(s) ==> encode_utf8(s@) == v@,
{
    String::from_utf8(v).ok()
}

/// Relies on `core::str::from_utf8`: it succeeds exactly on the byte
/// sequences that are valid UTF-8.
#[verifier::external_body]
pub fn is_valid_utf8(bytes: &[u8]) -> (r: bool)
    ensures
        r == valid_utf8(bytes@),
{
    core::str::from_utf8(bytes).is_ok()
}

/// First occurrence of `b` in `s` at or after `i`, as an index into
/// `s`.
pub fn find_byte(s: &[u8], b: u8, i: usize) -> (r: Option<usize>)
    requires
        i <= s@.len(),
    ensures
        r == match find_byte_from(s@, b, i as int) {
            Some(j) => Some(j as usize),
            None => None::<usize>,
        },
{
    let n = s.len();
    let mut k = i;
    while k < n
        invariant
            i <= k <= n,
            n == s@.len(),
            find_byte_from(s@, b, i as int) == find_byte_from(s@, b, k as int),
        decreases n - k,
    {
        if *slice_index_get(s, k) == b {
            return Some(k);
        }
        k = k + 1;
    }
    None
}

/// First occurrence of the separator `": "` in `s` at or after `i`.
pub fn find_sep(s: &[u8], i: usize) -> (r: Option<usize>)
    requires
        i <= s@.len(),
    ensures
        r == match find_sep_from(s@, i as int) {
            Some(j) => Some(j as usize),
            None => None::<usize>,
        },
{
    let n = s.len();
    if n < 2 {
        return None;
    }
    let mut k = i;
    while k <= n - 2
        invariant
            i <= k,
            k <= n,
            2 <= n == s@.len(),
            find_sep_from(s@, i as int) == find_sep_from(s@, k as int),
        decreases n - k,
    {
        if *slice_index_get(s, k) == 58 && *slice_index_get(s, k + 1) == 32 {
            return Some(k);
        }
        k = k + 1;
    }
    None
}

/// Drops a trailing carriage return from a line slice.
pub fn strip_cr_slice<'a>(line: &'a [u8]) -> (r: &'a [u8])
    ensures
        r@ == strip_cr(line@),
{
    let n = line.len();
    if n > 0 && *slice_index_get(line, n - 1) == 13 {
        let r = slice_subrange(line, 0, n - 1);
        proof {
            assert(r@ =~= strip_cr(line@));
        }
        r
    } else {
        line
    }
}

} // verus!
