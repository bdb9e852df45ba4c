//! Decimal and boolean text encoding for the persisted configuration
//! record, together with the parsers that read it back and the lemmas
//! that make the encoding round-trip.
use vstd::prelude::*;
use vstd::slice::{slice_index_get, slice_subrange};

verus! {

/// The decimal digit bytes of `n`, most significant first, with no sign
/// and no leading zero (except for `n == 0` itself).
pub open spec fn dec_bytes(n: nat) -> Seq<u8>
    decreases n,
{
    if n < 10 {
        seq![(n + 48) as u8]
    } else {
        dec_bytes(n / 10).push((n % 10 + 48) as u8)
    }
}

/// An ASCII decimal digit.
pub open spec fn is_digit_byte(b: u8) -> bool {
    48 <= b <= 57
}

pub open spec fn all_digit_bytes(s: Seq<u8>) -> bool {
    forall|i: int| 0 <= i < s.len() ==> is_digit_byte(#[trigger] s[i])
}

/// The value of a sequence of decimal digit bytes, most significant
/// first.
pub open spec fn digits_value(s: Seq<u8>) -> nat
    decreases s.len(),
{
    if s.len() == 0 {
        0
    } else {
        digits_value(s.drop_last()) * 10 + (s.last() - 48) as nat
    }
}

/// What `usize::from_str` accepts: an optional leading `+`, then one or
/// more decimal digits, whose value fits in `usize`.
pub open spec fn parse_usize_spec(s: Seq<u8>) -> Option<usize> {
    let t = if s.len() > 0 && s[0] == 43 {
        s.subrange(1, s.len() as int)
    } else {
        s
    };
    if t.len() > 0 && all_digit_bytes(t) && digits_value(t) <= usize::MAX {
        Some(digits_value(t) as usize)
    } else {
        None
    }
}

/// The byte encodings of the two boolean words.
pub open spec fn bool_bytes(b: bool) -> Seq<u8> {
    if b {
        seq![116u8, 114u8, 117u8, 101u8]  // "true"
    } else {
        seq![102u8, 97u8, 108u8, 115u8, 101u8]  // "false"
    }
}

/// What `bool::from_str` accepts: exactly the words "true" and "false".
pub open spec fn parse_bool_spec(s: Seq<u8>) -> Option<bool> {
    if s == bool_bytes(true) {
        Some(true)
    } else if s == bool_bytes(false) {
        Some(false)
    } else {
        None
    }
}

/// Every byte of `dec_bytes(n)` is a decimal digit, and there is at
/// least one of them.
pub proof fn lemma_dec_bytes_digits(n: nat)
    ensures
        dec_bytes(n).len() >= 1,
        all_digit_bytes(dec_bytes(n)),
    decreases n,
{
    if n >= 10 {
        lemma_dec_bytes_digits(n / 10);
    }
}

/// Reading the digit bytes of `n` back yields `n`.
pub proof fn lemma_digits_value_dec_bytes(n: nat)
    ensures
        digits_value(dec_bytes(n)) == n,
    decreases n,
{
    if n < 10 {
        let s = dec_bytes(n);
        assert(s =~= seq![(n + 48) as u8]);
        assert(s.drop_last() =~= Seq::<u8>::empty());
        assert(s.last() == (n + 48) as u8);
        assert(digits_value(s) == digits_value(s.drop_last()) * 10 + (s.last() - 48) as nat);
        assert(digits_value(s.drop_last()) == 0);
        assert(digits_value(s) == n);
    } else {
        lemma_digits_value_dec_bytes(n / 10);
        let s = dec_bytes(n);
        assert(s =~= dec_bytes(n / 10).push((n % 10 + 48) as u8));
        assert(s.drop_last() =~= dec_bytes(n / 10));
        assert(s.last() == (n % 10 + 48) as u8);
        assert(digits_value(s) == digits_value(s.drop_last()) * 10 + (s.last() - 48) as nat);
        assert(digits_value(s) == (n / 10) * 10 + n % 10);
        assert(n / 10 * 10 + n % 10 == n) by (nonlinear_arith);
    }
}

/// The digit bytes of `n` parse back to `n` under the `usize` grammar.
pub proof fn lemma_parse_dec_bytes(n: usize)
    ensures
        parse_usize_spec(dec_bytes(n as nat)) == Some(n),
{
    lemma_dec_bytes_digits(n as nat);
    lemma_digits_value_dec_bytes(n as nat);
    assert(dec_bytes(n as nat)[0] != 43);
}

/// Appends the decimal digits of `n` to `out`.
pub fn push_decimal(out: &mut Vec<u8>, n: usize)
    ensures
        final(out)@ == old(out)@ + dec_bytes(n as nat),
    decreases n,
{
    if n >= 10 {
        push_decimal(out, n / 10);
    }
    out.push((n % 10) as u8 + 48);
    assert(out@ =~= old(out)@ + dec_bytes(n as nat));
}

/// Appends the decimal digits of a 128-bit value to `out`.
pub fn push_decimal_u128(out: &mut Vec<u8>, n: u128)
    ensures
        final(out)@ == old(out)@ + dec_bytes(n as nat),
    decreases n,
{
    if n >= 10 {
        push_decimal_u128(out, n / 10);
    }
    out.push((n % 10) as u8 + 48);
    assert(out@ =~= old(out)@ + dec_bytes(n as nat));
}

/// Appends "true" or "false" to `out`.
pub fn push_bool(out: &mut Vec<u8>, b: bool)
    ensures
        final(out)@ == old(out)@ + bool_bytes(b),
{
    if b {
        out.push(116);
        out.push(114);
        out.push(117);
        out.push(101);
    } else {
        out.push(102);
        out.push(97);
        out.push(108);
        out.push(115);
        out.push(101);
    }
    assert(out@ =~= old(out)@ + bool_bytes(b));
}

/// A prefix of a digit string is never worth more than the whole.
proof fn lemma_digits_value_prefix(s: Seq<u8>, i: int)
    requires
        0 <= i <= s.len(),
        all_digit_bytes(s),
    ensures
        digits_value(s.subrange(0, i)) <= digits_value(s),
    decreases s.len() - i,
{
    if i < s.len() {
        let a = s.subrange(0, i);
        let b = s.subrange(0, i + 1);
        assert(b.drop_last() =~= a);
        assert(digits_value(a) * 10 >= digits_value(a)) by (nonlinear_arith);
        lemma_digits_value_prefix(s, i + 1);
    } else {
        assert(s.subrange(0, i) =~= s);
    }
}

/// Accumulates the value of a pure digit string, failing on an empty
/// string, a non-digit, or overflow.
fn parse_digits(t: &[u8]) -> (r: Option<usize>)
    ensures
        r == (if t@.len() > 0 && all_digit_bytes(t@) && digits_value(t@) <= usize::MAX {
            Some(digits_value(t@) as usize)
        } else {
            None::<usize>
        }),
{
    if t.len() == 0 {
        return None;
    }
    let tn = t.len();
    let mut acc: usize = 0;
    let mut i: usize = 0;
    while i < tn
        invariant
            tn == t@.len(),
            0 < tn,
            0 <= i <= tn,
            all_digit_bytes(t@.subrange(0, i as int)),
            acc == digits_value(t@.subrange(0, i as int)),
        decreases tn - i,
    {
        let b = *slice_index_get(t, i);
        if b < 48 || b > 57 {
            proof {
                assert(!is_digit_byte(t@[i as int]));
            }
            return None;
        }
        let d = (b - 48) as usize;
        let ghost pre = t@.subrange(0, i as int);
        let ghost post = t@.subrange(0, i as int + 1);
        proof {
            assert(post.drop_last() =~= pre);
            assert(digits_value(post) == digits_value(pre) * 10 + d);
        }
        let next = match acc.checked_mul(10) {
            Some(x) => match x.checked_add(d) {
                Some(y) => y,
                None => {
                    proof {
                        assert(digits_value(post) > usize::MAX);
                        if all_digit_bytes(t@) {
                            lemma_digits_value_prefix(t@, i as int + 1);
                        }
                    }
                    return None;
                },
            },
            None => {
                proof {
                    assert(digits_value(post) > usize::MAX);
                    if all_digit_bytes(t@) {
                        lemma_digits_value_prefix(t@, i as int + 1);
                    }
                }
                return None;
            },
        };
        acc = next;
        i = i + 1;
    }
    assert(t@.subrange(0, tn as int) =~= t@);
    Some(acc)
}

/// Parses a decimal `usize` as `usize::from_str` would: an optional
/// leading `+`, then digits; fails on anything else or on overflow.
pub fn parse_usize(s: &[u8]) -> (r: Option<usize>)
    ensures
        r == parse_usize_spec(s@),
{
    let n = s.len();
    let start: usize = if n > 0 && *slice_index_get(s, 0) == 43 {
        1
    } else {
        0
    };
    let t = slice_subrange(s, start, n);
    proof {
        assert(t@ =~= (if s@.len() > 0 && s@[0] == 43 {
            s@.subrange(1, s@.len() as int)
        } else {
            s@
        }));
    }
    parse_digits(t)
}

/// Compares two byte slices for equality.
pub fn bytes_eq(a: &[u8], b: &[u8]) -> (r: bool)
    ensures
        r == (a@ == b@),
{
    if a.len() != b.len() {
        return false;
    }
    let n = a.len();
    let mut i: usize = 0;
    while i < n
        invariant
            n == a@.len() == b@.len(),
            0 <= i <= n,
            forall|j: int| 0 <= j < i ==> a@[j] == b@[j],
        decreases n - i,
    {
        if *slice_index_get(a, i) != *slice_index_get(b, i) {
            return false;
        }
        i = i + 1;
    }
    proof {
        assert(a@ =~= b@);
    }
    true
}

/// Parses a boolean as `bool::from_str` would: exactly "true" or
/// "false".
pub fn parse_bool(s: &[u8]) -> (r: Option<bool>)
    ensures
        r == parse_bool_spec(s@),
{
    let t: [u8; 4] = [116, 114, 117, 101];
    let f: [u8; 5] = [102, 97, 108, 115, 101];
    if bytes_eq(s, t.as_slice()) {
        assert(t@ =~= bool_bytes(true));
        Some(true)
    } else if bytes_eq(s, f.as_slice()) {
        assert(f@ =~= bool_bytes(false));
        assert(s@ != bool_bytes(true));
        Some(false)
    } else {
        assert(s@ != bool_bytes(true) && s@ != bool_bytes(false));
        None
    }
}

} // verus!
