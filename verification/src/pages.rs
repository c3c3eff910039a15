//! Page arithmetic: converting page counts to byte counts by the system
//! page shift, and computing that shift from the page size.
//!
//! Both kernel probes store byte values obtained by left-shifting a page
//! count by the page shift; the control plane computes the shift once at
//! initialization time as the binary logarithm of the system page size.

use vstd::prelude::*;
use vstd::arithmetic::power2::{
    pow2,
    lemma_pow2_unfold,
    lemma_pow2_pos,
    lemma2_to64,
    lemma2_to64_rest,
};
use vstd::arithmetic::mul::lemma_mul_inequality;
use vstd::bits::lemma_u64_shl_is_mul;

verus! {

/// The binary logarithm of `n`, rounded down; `0` for `n <= 1`.
pub open spec fn log2(n: nat) -> nat
    decreases n,
{
    if n <= 1 {
        0
    } else {
        1 + log2(n / 2)
    }
}

/// Computes the page shift for a given page size: the binary logarithm of
/// `page_size`, rounded down.  On real systems the page size is a power of
/// two, so no rounding occurs.
pub fn page_shift_of(page_size: u64) -> (r: u64)
    requires
        page_size >= 1,
    ensures
        r == log2(page_size as nat),
        r < 64,
        pow2(r as nat) <= page_size,
{
    let mut v: u64 = page_size;
    let mut s: u64 = 0;
    proof {
        lemma2_to64();
    }
    while v >= 2
        invariant
            1 <= v <= page_size,
            s < 64,
            log2(page_size as nat) == s + log2(v as nat),
            pow2(s as nat) * v <= page_size,
        decreases v,
    {
        proof {
            lemma_pow2_unfold((s + 1) as nat);
            lemma_pow2_pos(s as nat);
            lemma_pow2_pos((s + 1) as nat);
            assert(pow2((s + 1) as nat) * (v as nat / 2) <= pow2(s as nat) * v) by (nonlinear_arith)
                requires
                    v >= 2,
                    pow2((s + 1) as nat) == 2 * pow2(s as nat),
                    pow2(s as nat) > 0,
            ;
            assert(pow2((s + 1) as nat) * 1 <= pow2((s + 1) as nat) * (v as nat / 2)) by (nonlinear_arith)
                requires
                    v >= 2,
                    pow2((s + 1) as nat) > 0,
            ;
            if s + 1 == 64 {
                lemma2_to64_rest();
                assert(false);
            }
        }
        v = v / 2;
        s = s + 1;
    }
    s
}

/// The byte count stored for a page count: the page count left-shifted by
/// the page shift, truncated to 64 bits exactly as the kernel probes
/// compute it.
pub open spec fn page_bytes(pages: u64, page_shift: u64) -> u64
    recommends
        page_shift < 64,
{
    pages << page_shift
}

/// When the product fits in 64 bits, the truncating left shift stored by the
/// probes equals the exact byte count `pages * 2^page_shift`.
pub proof fn lemma_page_bytes_exact(pages: u64, page_shift: u64)
    requires
        page_shift < 64,
        pages * pow2(page_shift as nat) <= u64::MAX,
    ensures
        page_bytes(pages, page_shift) == pages * pow2(page_shift as nat),
{
    lemma_u64_shl_is_mul(pages, page_shift);
}

/// Converting page counts to bytes preserves order, as long as the larger
/// byte count does not overflow.
pub proof fn lemma_page_bytes_monotonic(p1: u64, p2: u64, page_shift: u64)
    requires
        page_shift < 64,
        p1 <= p2,
        p2 * pow2(page_shift as nat) <= u64::MAX,
    ensures
        page_bytes(p1, page_shift) <= page_bytes(p2, page_shift),
{
    lemma_mul_inequality(p1 as int, p2 as int, pow2(page_shift as nat) as int);
    lemma_page_bytes_exact(p1, page_shift);
    lemma_page_bytes_exact(p2, page_shift);
}

} // verus!
