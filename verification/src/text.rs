//! Byte-string helpers: slice comparison, decimal rendering and decimal
//! parsing, with exact specifications over `Seq<u8>`.

use vstd::prelude::*;

verus! {

/// ASCII code of `'+'`.
pub const PLUS_SIGN: u8 = 43;

pub open spec fn is_digit(c: u8) -> bool {
    48 <= c && c <= 57
}

pub open spec fn all_digits(s: Seq<u8>) -> bool {
    forall|i: int| 0 <= i < s.len() ==> is_digit(s[i])
}

/// Value of a sequence of ASCII decimal digits, most significant first.
pub open spec fn digits_val(s: Seq<u8>) -> nat
    decreases s.len(),
{
    if s.len() == 0 {
        0
    } else {
        (digits_val(s.drop_last()) * 10 + (s.last() - 48)) as nat
    }
}

/// Canonical decimal rendering of a natural number (no leading zeros,
/// a single `'0'` for zero).
pub open spec fn dec_digits(n: nat) -> Seq<u8>
    decreases n,
{
    if n < 10 {
        seq![(48 + n) as u8]
    } else {
        dec_digits(n / 10) + seq![(48 + n % 10) as u8]
    }
}

/// Compare two byte slices for equality of contents.
pub fn bytes_eq(a: &[u8], b: &[u8]) -> (r: bool)
    ensures
        r == (a@ == b@),
{
    if a.len() != b.len() {
        return false;
    }
    let mut i: usize = 0;
    while i < a.len()
        invariant
            0 <= i <= a@.len(),
            a@.len() == b@.len(),
            forall|j: int| 0 <= j < i ==> a@[j] == b@[j],
        decreases a@.len() - i,
    {
        if a[i] != b[i] {
            return false;
        }
        i = i + 1;
    }
    proof {
        assert(a@ =~= b@);
    }
    true
}

/// Append the canonical decimal rendering of `n` to `v`.
pub fn push_dec(v: &mut Vec<u8>, n: u64)
    ensures
        final(v)@ == old(v)@ + dec_digits(n as nat),
    decreases n,
{
    if n < 10 {
        v.push((48 + n) as u8);
        proof {
            assert(v@ =~= old(v)@ + dec_digits(n as nat));
        }
    } else {
        push_dec(v, n / 10);
        v.push((48 + n % 10) as u8);
        proof {
            assert(v@ =~= old(v)@ + dec_digits(n as nat));
        }
    }
}

/// The digit part of a decimal integer text: everything after an optional
/// leading `'+'`.
pub open spec fn uint_text_digits(s: Seq<u8>) -> Seq<u8> {
    if s.len() > 0 && s[0] == 43 {
        s.drop_first()
    } else {
        s
    }
}

/// Whether `s` is a decimal unsigned-integer text: an optional leading
/// `'+'` followed by at least one ASCII digit and nothing else.
pub open spec fn is_uint_text(s: Seq<u8>) -> bool {
    uint_text_digits(s).len() > 0 && all_digits(uint_text_digits(s))
}

/// Numeric value of a decimal unsigned-integer text.
pub open spec fn uint_val(s: Seq<u8>) -> nat {
    digits_val(uint_text_digits(s))
}

/// The value of a digit sequence never shrinks when more digits follow.
proof fn lemma_digits_val_prefix(s: Seq<u8>, i: int)
    requires
        0 <= i <= s.len(),
        all_digits(s),
    ensures
        digits_val(s.subrange(0, i)) <= digits_val(s),
    decreases s.len(),
{
    if i == s.len() {
        assert(s.subrange(0, i) =~= s);
    } else {
        assert(s.drop_last() =~= s.subrange(0, s.len() - 1));
        assert(all_digits(s.drop_last()));
        lemma_digits_val_prefix(s.drop_last(), i);
        assert(s.drop_last().subrange(0, i) =~= s.subrange(0, i));
        assert(is_digit(s.last()));
        assert(digits_val(s) >= digits_val(s.drop_last()) * 10);
    }
}

/// Parse a decimal unsigned integer no greater than `max` from `s`.
/// Mirrors the standard library's unsigned parsing: an optional leading
/// `'+'`, then one or more digits; leading zeros are allowed; a value
/// above `max` is rejected.
pub fn parse_uint(s: &[u8], max: u64) -> (r: Option<u64>)
    ensures
        r is Some <==> (is_uint_text(s@) && uint_val(s@) <= max),
        r matches Some(v) ==> v == uint_val(s@) && v <= max,
{
    let n = s.len();
    let start: usize = if n > 0 && s[0] == PLUS_SIGN {
        1
    } else {
        0
    };
    let ghost d: Seq<u8> = uint_text_digits(s@);
    proof {
        assert(d =~= s@.subrange(start as int, n as int));
    }
    if start >= n {
        return None;
    }
    let mut i: usize = start;
    let mut acc: u64 = 0;
    while i < n
        invariant
            start <= i <= n,
            n == s@.len(),
            d == uint_text_digits(s@),
            d =~= s@.subrange(start as int, n as int),
            all_digits(s@.subrange(start as int, i as int)),
            acc == digits_val(s@.subrange(start as int, i as int)),
            acc <= max,
        decreases n - i,
    {
        let c = s[i];
        if c < 48 || c > 57 {
            proof {
                assert(!is_digit(d[i - start]));
            }
            return None;
        }
        let dig = (c - 48) as u64;
        let ghost pre = s@.subrange(start as int, i as int);
        let ghost ext = s@.subrange(start as int, i as int + 1);
        proof {
            assert(ext.drop_last() =~= pre);
            assert(digits_val(ext) == acc * 10 + dig);
        }
        if acc > max / 10 || (acc == max / 10 && dig > max % 10) {
            proof {
                assert(acc * 10 + dig > max) by (nonlinear_arith)
                    requires
                        acc > max / 10 || (acc == max / 10 && dig > max % 10),
                        max / 10 == (max - max % 10) / 10,
                        max == (max / 10) * 10 + max % 10,
                        dig < 10,
                ;
                if all_digits(d) {
                    lemma_digits_val_prefix(d, i - start + 1);
                    assert(d.subrange(0, i - start + 1) =~= ext);
                    assert(uint_val(s@) > max);
                }
            }
            return None;
        }
        proof {
            assert(acc * 10 + dig <= max) by (nonlinear_arith)
                requires
                    acc <= max / 10,
                    !(acc == max / 10 && dig > max % 10),
                    max == (max / 10) * 10 + max % 10,
                    dig < 10,
                    0 <= acc,
                    0 <= dig,
            ;
        }
        acc = acc * 10 + dig;
        i = i + 1;
    }
    proof {
        assert(s@.subrange(start as int, n as int) =~= d);
    }
    Some(acc)
}

} // verus!
