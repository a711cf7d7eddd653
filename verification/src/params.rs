//! Validation and coercion of path-extracted request parameters: hex
//! addresses, hex transaction hashes, and decimal block numbers. Malformed
//! input is detected here, before any remote call is made.

use vstd::prelude::*;
use vstd::string::*;

verus! {

/// A hexadecimal digit, either case.
pub open spec fn spec_hex_digit(c: char) -> bool {
    (48 <= c as u32 && c as u32 <= 57)  // '0' ..= '9'
    || (97 <= c as u32 && c as u32 <= 102)  // 'a' ..= 'f'
    || (65 <= c as u32 && c as u32 <= 70)  // 'A' ..= 'F'

}

/// Every character of `s` from position `start` on is a hex digit.
pub open spec fn hex_digits_from(s: Seq<char>, start: int) -> bool {
    forall|i: int| start <= i < s.len() ==> spec_hex_digit(#[trigger] s[i])
}

/// Exactly `digits` hex digits, with or without a "0x" prefix — the two
/// spellings of a fixed-width hex value that the node's conventions accept.
pub open spec fn is_hex_str(s: Seq<char>, digits: nat) -> bool {
    ||| (s.len() == digits && hex_digits_from(s, 0))
    ||| (s.len() == digits + 2 && s[0] == '0' && s[1] == 'x' && hex_digits_from(s, 2))
}

/// A well-formed account address: 40 hex digits, "0x" prefix optional.
pub open spec fn valid_address(s: Seq<char>) -> bool {
    is_hex_str(s, 40)
}

/// A well-formed transaction hash: 64 hex digits, "0x" prefix optional.
pub open spec fn valid_tx_hash(s: Seq<char>) -> bool {
    is_hex_str(s, 64)
}

fn is_hex_digit_char(c: char) -> (b: bool)
    ensures
        b == spec_hex_digit(c),
{
    let u = c as u32;
    (48 <= u && u <= 57) || (97 <= u && u <= 102) || (65 <= u && u <= 70)
}

/// Checks that every character of `s` from position `start` on is a hex
/// digit.
fn check_hex_digits_from(s: &str, start: usize) -> (b: bool)
    ensures
        b == hex_digits_from(s@, start as int),
{
    let n = s.unicode_len();
    if start >= n {
        return true;
    }
    let mut i: usize = start;
    while i < n
        invariant
            start <= i <= n,
            n == s@.len(),
            forall|j: int| start <= j < i ==> spec_hex_digit(#[trigger] s@[j]),
        decreases n - i,
    {
        if !is_hex_digit_char(s.get_char(i)) {
            return false;
        }
        i = i + 1;
    }
    true
}

/// Checks that `s` is exactly `digits` hex digits, with or without a "0x"
/// prefix.
pub fn check_hex_str(s: &str, digits: usize) -> (b: bool)
    requires
        digits <= 64,
    ensures
        b == is_hex_str(s@, digits as nat),
{
    let n = s.unicode_len();
    if n == digits {
        check_hex_digits_from(s, 0)
    } else if n == digits + 2 {
        if s.get_char(0) == '0' && s.get_char(1) == 'x' {
            check_hex_digits_from(s, 2)
        } else {
            false
        }
    } else {
        false
    }
}

/// Checks that `s` is a well-formed account address.
pub fn check_address(s: &str) -> (b: bool)
    ensures
        b == valid_address(s@),
{
    check_hex_str(s, 40)
}

/// Checks that `s` is a well-formed transaction hash.
pub fn check_tx_hash(s: &str) -> (b: bool)
    ensures
        b == valid_tx_hash(s@),
{
    check_hex_str(s, 64)
}

/// A decimal digit.
pub open spec fn spec_dec_digit(c: char) -> bool {
    48 <= c as u32 && c as u32 <= 57
}

/// A nonempty string of decimal digits.
pub open spec fn all_digits(s: Seq<char>) -> bool {
    &&& s.len() > 0
    &&& forall|i: int| 0 <= i < s.len() ==> spec_dec_digit(#[trigger] s[i])
}

/// The numeric value of a digit string (junk on non-digit characters).
pub open spec fn dec_val(s: Seq<char>) -> int
    decreases s.len(),
{
    if s.len() == 0 {
        0
    } else {
        10 * dec_val(s.drop_last()) + (s.last() as u32 - 48)
    }
}

proof fn lemma_dec_val_nonneg(s: Seq<char>)
    requires
        forall|i: int| 0 <= i < s.len() ==> spec_dec_digit(#[trigger] s[i]),
    ensures
        dec_val(s) >= 0,
    decreases s.len(),
{
    if s.len() > 0 {
        lemma_dec_val_nonneg(s.drop_last());
    }
}

proof fn lemma_dec_val_prefix_le(s: Seq<char>, i: int)
    requires
        0 <= i <= s.len(),
        forall|j: int| 0 <= j < s.len() ==> spec_dec_digit(#[trigger] s[j]),
    ensures
        dec_val(s.subrange(0, i)) <= dec_val(s),
    decreases s.len() - i,
{
    if i == s.len() {
        assert(s.subrange(0, i) =~= s);
    } else {
        let p = s.subrange(0, i);
        let q = s.subrange(0, i + 1);
        assert(q.drop_last() =~= p);
        lemma_dec_val_nonneg(p);
        lemma_dec_val_prefix_le(s, i + 1);
    }
}

/// Parses a nonempty decimal string into a `u64`. Returns `Some` exactly when
/// every character is a decimal digit and the value fits in a `u64`; leading
/// zeros are accepted.
pub fn parse_u64_dec(s: &str) -> (r: Option<u64>)
    ensures
        r is Some <==> all_digits(s@) && dec_val(s@) <= u64::MAX,
        r matches Some(n) ==> n == dec_val(s@),
{
    let n = s.unicode_len();
    if n == 0 {
        return None;
    }
    let mut acc: u128 = 0;
    let mut i: usize = 0;
    while i < n
        invariant
            0 <= i <= n,
            n == s@.len(),
            n > 0,
            forall|j: int| 0 <= j < i ==> spec_dec_digit(#[trigger] s@[j]),
            acc == dec_val(s@.subrange(0, i as int)),
            acc <= u64::MAX,
        decreases n - i,
    {
        let c = s.get_char(i);
        let u = c as u32;
        if !(48 <= u && u <= 57) {
            return None;
        }
        let d: u128 = (u - 48) as u128;
        proof {
            assert(s@.subrange(0, i + 1).drop_last() =~= s@.subrange(0, i as int));
        }
        acc = acc * 10 + d;
        i = i + 1;
        if acc > u64::MAX as u128 {
            proof {
                if all_digits(s@) {
                    lemma_dec_val_prefix_le(s@, i as int);
                }
            }
            return None;
        }
    }
    proof {
        assert(s@.subrange(0, n as int) =~= s@);
    }
    Some(acc as u64)
}

} // verus!
