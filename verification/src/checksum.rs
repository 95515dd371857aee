//! The Internet checksum engine: a byte range is read as big-endian 16-bit
//! words (an odd trailing byte is padded with a zero low byte) and summed into
//! a wide accumulator; the finishing step folds every carry above bit 15 back
//! into the low 16 bits and complements the result.
//!
//! The central fact proved here is the receiver-side identity: summing a byte
//! range together with the complemented fold of its own sum always folds back
//! to zero.

use vstd::prelude::*;
use vstd::arithmetic::div_mod::lemma_fundamental_div_mod;
use vstd::arithmetic::div_mod::lemma_mod_add_multiples_vanish;
use vstd::arithmetic::div_mod::lemma_mod_multiples_vanish;
use vstd::arithmetic::div_mod::lemma_small_mod;
use vstd::arithmetic::div_mod::lemma_sub_mod_noop;

verus! {

/// The sum of a byte range read as big-endian 16-bit words, carries kept.
pub open spec fn sum_words(s: Seq<u8>) -> nat
    decreases s.len(),
{
    if s.len() == 0 {
        0
    } else if s.len() == 1 {
        (s[0] * 256) as nat
    } else {
        (s[0] * 256 + s[1] + sum_words(s.skip(2))) as nat
    }
}

/// Folds every carry above bit 15 back into the low 16 bits by addition,
/// until the value fits in 16 bits.
pub open spec fn fold16(n: nat) -> nat
    decreases n,
{
    if n <= 0xffff {
        n
    } else {
        fold16(n % 0x10000 + n / 0x10000)
    }
}

/// The finished checksum of an accumulated sum: fold, then complement.
pub open spec fn compile16(n: nat) -> nat {
    (0xffff - fold16(n)) as nat
}

/// A finished, folded one's-complement checksum value, as embedded in a
/// header.
#[derive(Clone, Copy, PartialEq, Eq, Structural, Debug)]
pub struct Checksum {
    pub data: u16,
}

impl Checksum {
    /// Sums a byte range as big-endian 16-bit words without folding carries.
    pub fn sum(bytes: &Vec<u8>) -> (r: u64)
        requires
            bytes@.len() <= 0xffff_ffff,
        ensures
            r == sum_words(bytes@),
    {
        let ghost s = bytes@;
        let n = bytes.len();
        let mut acc: u64 = 0;
        let mut i: usize = 0;
        proof {
            assert(s.skip(0) =~= s);
        }
        while i + 1 < n
            invariant
                s == bytes@,
                n == s.len() <= 0xffff_ffff,
                i <= n,
                i % 2 == 0,
                acc <= 0x8000 * i,
                acc + sum_words(s.skip(i as int)) == sum_words(s),
            decreases n - i,
        {
            let word: u64 = (bytes[i] as u64) * 256 + (bytes[i + 1] as u64);
            proof {
                assert(s.skip(i as int)[0] == s[i as int]);
                assert(s.skip(i as int)[1] == s[i as int + 1]);
                assert(s.skip(i as int).skip(2) =~= s.skip(i as int + 2));
            }
            acc = acc + word;
            i = i + 2;
        }
        if i < n {
            proof {
                assert(s.skip(i as int).len() == 1);
                assert(s.skip(i as int)[0] == s[i as int]);
            }
            acc = acc + (bytes[i] as u64) * 256;
            i = i + 1;
        }
        proof {
            assert(s.skip(i as int).len() == 0);
        }
        acc
    }

    /// Finishes an accumulated sum: folds the carries and complements.
    pub fn compile(acc: u64) -> (r: u16)
        ensures
            r == compile16(acc as nat),
    {
        let mut a: u64 = acc;
        while a > 0xffff
            invariant
                fold16(a as nat) == fold16(acc as nat),
            decreases a,
        {
            a = a % 0x10000 + a / 0x10000;
        }
        0xffff - (a as u16)
    }
}

/// The fold of a sum never exceeds 16 bits.
pub proof fn lemma_fold16_le(n: nat)
    ensures
        fold16(n) <= 0xffff,
    decreases n,
{
    if n > 0xffff {
        lemma_fold16_le(n % 0x10000 + n / 0x10000);
    }
}

/// Folding preserves the value modulo 0xffff: moving a carry from bit 16 down
/// to bit 0 subtracts a multiple of 0xffff.
pub proof fn lemma_fold16_mod(n: nat)
    ensures
        fold16(n) % 0xffff == n % 0xffff,
    decreases n,
{
    if n > 0xffff {
        let q = n / 0x10000;
        let m = n % 0x10000 + q;
        lemma_fundamental_div_mod(n as int, 0x10000);
        assert(n == 0xffff * q + m);
        lemma_mod_multiples_vanish(q as int, m as int, 0xffff);
        lemma_fold16_mod(m);
    }
}

/// A positive multiple of 0xffff folds to exactly 0xffff, never to zero.
pub proof fn lemma_fold16_of_multiple(n: nat)
    requires
        n % 0xffff == 0,
        n > 0,
    ensures
        fold16(n) == 0xffff,
    decreases n,
{
    if n <= 0xffff {
        if n < 0xffff {
            lemma_small_mod(n, 0xffff);
        }
    } else {
        let q = n / 0x10000;
        let m = n % 0x10000 + q;
        lemma_fundamental_div_mod(n as int, 0x10000);
        assert(n == 0xffff * q + m);
        lemma_mod_multiples_vanish(q as int, m as int, 0xffff);
        assert(m % 0xffff == 0);
        lemma_fold16_of_multiple(m);
    }
}

/// The receiver-side identity of the Internet checksum: adding the finished
/// checksum of a sum back onto that sum gives a value whose finished checksum
/// is exactly zero.
pub proof fn lemma_checksum_folds_to_zero(s: nat)
    ensures
        compile16(s + compile16(s)) == 0,
{
    lemma_fold16_le(s);
    lemma_fold16_mod(s);
    let f = fold16(s);
    assert(s >= f);
    let d = (s - f) as nat;
    lemma_sub_mod_noop(s as int, f as int, 0xffff);
    assert(d % 0xffff == 0);
    let t = (d + 0xffff) as nat;
    lemma_mod_add_multiples_vanish(d as int, 0xffff);
    assert(t % 0xffff == 0);
    assert(t == s + compile16(s));
    lemma_fold16_of_multiple(t);
}

/// Word sums add across a split at an even offset: summing two ranges
/// separately and summing their concatenation agree whenever the first range
/// ends on a 16-bit word boundary.
pub proof fn lemma_sum_words_append(a: Seq<u8>, b: Seq<u8>)
    requires
        a.len() % 2 == 0,
    ensures
        sum_words(a + b) == sum_words(a) + sum_words(b),
    decreases a.len(),
{
    if a.len() == 0 {
        assert(a + b =~= b);
    } else {
        assert((a + b)[0] == a[0]);
        assert((a + b)[1] == a[1]);
        assert((a + b).skip(2) =~= a.skip(2) + b);
        lemma_sum_words_append(a.skip(2), b);
        if b.len() == 0 {
            assert(a + b =~= a);
        }
    }
}

} // verus!
