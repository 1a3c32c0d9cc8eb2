//! Network addresses as validated text.
//!
//! A peer's endpoint address arrives as a string property and is emitted
//! verbatim into the generated configuration, so the library keeps it as
//! bytes guarded by an exact textual grammar: either dotted-quad IPv4
//! (four decimal octets, each `0..=255`, no leading zeros) or IPv6 as
//! colon-separated groups of one to four hexadecimal digits, eight groups
//! in full form or fewer with a single `::` elision.

use vstd::prelude::*;
use crate::text::{all_digits, digits_val, is_digit};
use vstd::slice::slice_to_vec;

verus! {

/// ASCII code of `'.'`.
pub const DOT: u8 = 46;

/// ASCII code of `':'`.
pub const COLON: u8 = 58;

pub open spec fn is_hex_digit(c: u8) -> bool {
    is_digit(c) || (97 <= c && c <= 102) || (65 <= c && c <= 70)
}

/// First index at or after `i` that does not hold a decimal digit.
pub open spec fn digits_end(s: Seq<u8>, i: int) -> int
    decreases s.len() - i,
{
    if i < 0 || i >= s.len() || !is_digit(s[i]) {
        i
    } else {
        digits_end(s, i + 1)
    }
}

/// First index at or after `i` that does not hold a hexadecimal digit.
pub open spec fn hex_end(s: Seq<u8>, i: int) -> int
    decreases s.len() - i,
{
    if i < 0 || i >= s.len() || !is_hex_digit(s[i]) {
        i
    } else {
        hex_end(s, i + 1)
    }
}

/// A decimal octet: one to three digits, no leading zero, value at most 255.
pub open spec fn is_dec_octet(s: Seq<u8>) -> bool {
    1 <= s.len() <= 3 && all_digits(s) && (s.len() > 1 ==> s[0] != 48) && digits_val(s) <= 255
}

/// `parts` dot-separated decimal octets starting at `i` and running to the
/// end of `s`.
pub open spec fn ipv4_from(s: Seq<u8>, i: int, parts: int) -> bool
    decreases s.len() - i,
{
    if i < 0 || i > s.len() {
        false
    } else {
        let j = digits_end(s, i);
        if j < i || j > s.len() {
            false
        } else if !is_dec_octet(s.subrange(i, j)) {
            false
        } else if parts == 1 {
            j == s.len()
        } else {
            j < s.len() && s[j] == 46 && ipv4_from(s, j + 1, parts - 1)
        }
    }
}

pub open spec fn is_ipv4_text(s: Seq<u8>) -> bool {
    ipv4_from(s, 0, 4)
}

/// A hexadecimal group: one to four hexadecimal digits.
pub open spec fn is_hex_group(s: Seq<u8>) -> bool {
    1 <= s.len() <= 4 && (forall|i: int| 0 <= i < s.len() ==> is_hex_digit(s[i]))
}

/// Groups after a `::` elision: either nothing, or single-colon-separated
/// hexadecimal groups to the end of `s`. `n` counts all groups seen so
/// far; with an elision the total must not exceed seven.
pub open spec fn ipv6_tail(s: Seq<u8>, i: int, n: int) -> bool
    decreases s.len() - i,
{
    if i < 0 || i > s.len() {
        false
    } else if i == s.len() {
        n <= 7
    } else {
        let j = hex_end(s, i);
        if j < i || j > s.len() {
            false
        } else if !is_hex_group(s.subrange(i, j)) {
            false
        } else if j == s.len() {
            n + 1 <= 7
        } else {
            s[j] == 58 && j + 1 < s.len() && s[j + 1] != 58 && ipv6_tail(s, j + 1, n + 1)
        }
    }
}

/// Hexadecimal groups before any `::` elision, starting with a group at
/// `i`, `n` groups already seen. Without an elision exactly eight groups
/// must be present.
pub open spec fn ipv6_groups(s: Seq<u8>, i: int, n: int) -> bool
    decreases s.len() - i,
{
    if i < 0 || i > s.len() {
        false
    } else {
        let j = hex_end(s, i);
        if j < i || j > s.len() {
            false
        } else if !is_hex_group(s.subrange(i, j)) {
            false
        } else if j == s.len() {
            n + 1 == 8
        } else if s[j] == 58 {
            if j + 1 < s.len() && s[j + 1] == 58 {
                ipv6_tail(s, j + 2, n + 1)
            } else {
                ipv6_groups(s, j + 1, n + 1)
            }
        } else {
            false
        }
    }
}

pub open spec fn is_ipv6_text(s: Seq<u8>) -> bool {
    if s.len() >= 2 && s[0] == 58 && s[1] == 58 {
        ipv6_tail(s, 2, 0)
    } else {
        ipv6_groups(s, 0, 0)
    }
}

/// A network-address text: IPv4 or IPv6.
pub open spec fn is_addr_text(s: Seq<u8>) -> bool {
    is_ipv4_text(s) || is_ipv6_text(s)
}

/// Scan decimal digits from `i`; returns the first non-digit index.
fn scan_digits(s: &[u8], i: usize) -> (j: usize)
    requires
        i <= s@.len(),
    ensures
        i <= j <= s@.len(),
        j == digits_end(s@, i as int),
        forall|k: int| i <= k < j ==> is_digit(s@[k]),
{
    let mut j: usize = i;
    while j < s.len() && 48 <= s[j] && s[j] <= 57
        invariant
            i <= j <= s@.len(),
            digits_end(s@, i as int) == digits_end(s@, j as int),
            forall|k: int| i <= k < j ==> is_digit(s@[k]),
        decreases s@.len() - j,
    {
        j = j + 1;
    }
    j
}

/// Scan hexadecimal digits from `i`; returns the first non-hex index.
fn scan_hex(s: &[u8], i: usize) -> (j: usize)
    requires
        i <= s@.len(),
    ensures
        i <= j <= s@.len(),
        j == hex_end(s@, i as int),
        forall|k: int| i <= k < j ==> is_hex_digit(s@[k]),
{
    let mut j: usize = i;
    while j < s.len() && ((48 <= s[j] && s[j] <= 57) || (97 <= s[j] && s[j] <= 102) || (65 <= s[j]
        && s[j] <= 70))
        invariant
            i <= j <= s@.len(),
            hex_end(s@, i as int) == hex_end(s@, j as int),
            forall|k: int| i <= k < j ==> is_hex_digit(s@[k]),
        decreases s@.len() - j,
    {
        j = j + 1;
    }
    j
}

/// A digit sequence of length at most two has value at most 99.
proof fn lemma_digits_val_two(s: Seq<u8>)
    requires
        all_digits(s),
        s.len() <= 2,
    ensures
        digits_val(s) <= 99,
{
    if s.len() == 1 {
        assert(is_digit(s.last()));
        assert(digits_val(s.drop_last()) == 0);
        assert(digits_val(s) <= 9);
    } else if s.len() == 2 {
        assert(is_digit(s.last()));
        assert(is_digit(s.drop_last().last()));
        assert(digits_val(s.drop_last().drop_last()) == 0);
        assert(digits_val(s.drop_last()) <= 9);
        assert(digits_val(s) <= 99);
    }
}

/// Check that `s[i..j]` is a decimal octet; `[i, j)` is known to hold
/// only digits.
fn check_dec_octet(s: &[u8], i: usize, j: usize) -> (r: bool)
    requires
        i <= j <= s@.len(),
        forall|k: int| i <= k < j ==> is_digit(s@[k]),
    ensures
        r == is_dec_octet(s@.subrange(i as int, j as int)),
{
    let ghost oct = s@.subrange(i as int, j as int);
    proof {
        assert(all_digits(oct));
    }
    if j - i < 1 || j - i > 3 {
        return false;
    }
    if j - i > 1 && s[i] == 48 {
        return false;
    }
    let mut v: u32 = 0;
    let mut k: usize = i;
    while k < j
        invariant
            i <= k <= j <= s@.len(),
            oct == s@.subrange(i as int, j as int),
            j - i <= 3,
            forall|m: int| i <= m < j ==> is_digit(s@[m]),
            v == digits_val(s@.subrange(i as int, k as int)),
            v <= 999,
        decreases j - k,
    {
        let ghost pre = s@.subrange(i as int, k as int);
        let ghost ext = s@.subrange(i as int, k as int + 1);
        proof {
            assert(ext.drop_last() =~= pre);
            assert(pre.len() <= 2);
            assert(all_digits(pre));
            lemma_digits_val_two(pre);
        }
        let c = s[k];
        v = v * 10 + ((c - 48) as u32);
        k = k + 1;
    }
    proof {
        assert(s@.subrange(i as int, j as int) == oct);
    }
    v <= 255
}

/// Recursive checker mirroring `ipv4_from`.
fn ipv4_from_exec(s: &[u8], i: usize, parts: u8) -> (r: bool)
    requires
        i <= s@.len(),
        1 <= parts,
    ensures
        r == ipv4_from(s@, i as int, parts as int),
    decreases s@.len() - i,
{
    let j = scan_digits(s, i);
    if !check_dec_octet(s, i, j) {
        return false;
    }
    if parts == 1 {
        j == s.len()
    } else {
        if j < s.len() && s[j] == DOT {
            ipv4_from_exec(s, j + 1, parts - 1)
        } else {
            false
        }
    }
}

/// Check that `s[i..j]` is a hexadecimal group; `[i, j)` is known to hold
/// only hexadecimal digits.
fn check_hex_group(s: &[u8], i: usize, j: usize) -> (r: bool)
    requires
        i <= j <= s@.len(),
        forall|k: int| i <= k < j ==> is_hex_digit(s@[k]),
    ensures
        r == is_hex_group(s@.subrange(i as int, j as int)),
{
    let ghost grp = s@.subrange(i as int, j as int);
    proof {
        assert(forall|m: int| 0 <= m < grp.len() ==> is_hex_digit(grp[m]));
    }
    1 <= j - i && j - i <= 4
}

/// Recursive checker mirroring `ipv6_tail`.
fn ipv6_tail_exec(s: &[u8], i: usize, n: usize) -> (r: bool)
    requires
        i <= s@.len(),
        n <= i,
    ensures
        r == ipv6_tail(s@, i as int, n as int),
    decreases s@.len() - i,
{
    if i == s.len() {
        return n <= 7;
    }
    let j = scan_hex(s, i);
    if !check_hex_group(s, i, j) {
        return false;
    }
    if j == s.len() {
        n + 1 <= 7
    } else {
        if s[j] == COLON && j + 1 < s.len() && s[j + 1] != COLON {
            ipv6_tail_exec(s, j + 1, n + 1)
        } else {
            false
        }
    }
}

/// Recursive checker mirroring `ipv6_groups`.
fn ipv6_groups_exec(s: &[u8], i: usize, n: usize) -> (r: bool)
    requires
        i <= s@.len(),
        n <= i,
    ensures
        r == ipv6_groups(s@, i as int, n as int),
    decreases s@.len() - i,
{
    let j = scan_hex(s, i);
    if !check_hex_group(s, i, j) {
        return false;
    }
    if j == s.len() {
        n + 1 == 8
    } else if s[j] == COLON {
        if j + 1 < s.len() && s[j + 1] == COLON {
            ipv6_tail_exec(s, j + 2, n + 1)
        } else {
            ipv6_groups_exec(s, j + 1, n + 1)
        }
    } else {
        false
    }
}

/// Whether `s` is a dotted-quad IPv4 text.
pub fn is_ipv4(s: &[u8]) -> (r: bool)
    ensures
        r == is_ipv4_text(s@),
{
    ipv4_from_exec(s, 0, 4)
}

/// Whether `s` is an IPv6 text.
pub fn is_ipv6(s: &[u8]) -> (r: bool)
    ensures
        r == is_ipv6_text(s@),
{
    if s.len() >= 2 && s[0] == COLON && s[1] == COLON {
        ipv6_tail_exec(s, 2, 0)
    } else {
        ipv6_groups_exec(s, 0, 0)
    }
}

/// A validated network address, kept as the text it was parsed from.
#[derive(Debug, Clone, PartialEq, Eq, Hash)]
pub struct Addr {
    text: Vec<u8>,
}

impl View for Addr {
    type V = Seq<u8>;

    closed spec fn view(&self) -> Seq<u8> {
        self.text@
    }
}

impl Addr {
    /// The address text satisfies the address grammar.
    pub open spec fn wf(&self) -> bool {
        is_addr_text(self@)
    }

    /// Parse an address from its text; succeeds exactly on texts that
    /// satisfy the address grammar and keeps the text unchanged.
    pub fn parse(s: &[u8]) -> (r: Option<Addr>)
        ensures
            r is Some <==> is_addr_text(s@),
            r matches Some(a) ==> a@ == s@ && a.wf(),
    {
        let v4 = is_ipv4(s);
        let v6 = is_ipv6(s);
        if v4 || v6 {
            Some(Addr { text: slice_to_vec(s) })
        } else {
            None
        }
    }

    /// The address text.
    pub fn bytes(&self) -> (r: &[u8])
        ensures
            r@ == self@,
    {
        self.text.as_slice()
    }
}

} // verus!
