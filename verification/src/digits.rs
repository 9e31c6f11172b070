//! Decimal digit rendering used by the date field: a number as ASCII
//! digits, optionally zero-padded to a fixed width, with a leading minus
//! sign for negative values (the sign counts against the width, as Rust's
//! zero-padding does).

use vstd::prelude::*;

verus! {

/// The ASCII decimal digits of `n`, most significant first.
pub open spec fn dec_digits(n: nat) -> Seq<u8>
    decreases n,
{
    if n < 10 {
        seq![(48 + n) as u8]
    } else {
        dec_digits(n / 10).push((48 + n % 10) as u8)
    }
}

/// The digits of `n`, zero-padded on the left to at least `w` bytes.
pub open spec fn dec_padded(n: nat, w: nat) -> Seq<u8> {
    if dec_digits(n).len() >= w {
        dec_digits(n)
    } else {
        Seq::new((w - dec_digits(n).len()) as nat, |i: int| 48u8) + dec_digits(n)
    }
}

/// The digits of `n` with a minus sign for negative values; the sign
/// occupies one byte of the width `w`.
pub open spec fn dec_signed_padded(n: int, w: nat) -> Seq<u8> {
    if n >= 0 {
        dec_padded(n as nat, w)
    } else {
        seq![45u8] + dec_padded((-n) as nat, if w > 0 {
            (w - 1) as nat
        } else {
            0
        })
    }
}

/// Powers of ten.
pub open spec fn pow10(k: nat) -> nat
    decreases k,
{
    if k == 0 {
        1
    } else {
        10 * pow10((k - 1) as nat)
    }
}

/// A number below the k-th power of ten has at most k digits.
pub proof fn lemma_dec_digits_len(n: nat, k: nat)
    requires
        1 <= k,
        n < pow10(k),
    ensures
        dec_digits(n).len() <= k,
    decreases k,
{
    reveal_with_fuel(pow10, 3);
    if n < 10 {
    } else {
        assert(k >= 2) by {
            if k == 1 {
                assert(pow10(1nat) == 10);
            }
        }
        assert(n / 10 < pow10((k - 1) as nat)) by {
            assert(pow10(k) == 10 * pow10((k - 1) as nat));
            assert(n / 10 < pow10((k - 1) as nat)) by (nonlinear_arith)
                requires
                    n < 10 * pow10((k - 1) as nat),
                    pow10((k - 1) as nat) >= 1,
            ;
        }
        lemma_dec_digits_len(n / 10, (k - 1) as nat);
    }
}

/// Every power of ten is at least one.
pub proof fn lemma_pow10_pos(k: nat)
    ensures
        pow10(k) >= 1,
    decreases k,
{
    if k > 0 {
        lemma_pow10_pos((k - 1) as nat);
    }
}

/// Every byte of a decimal rendering is an ASCII digit.
pub proof fn lemma_dec_digits_ascii(n: nat)
    ensures
        forall|i: int| 0 <= i < dec_digits(n).len() ==> 48 <= #[trigger] dec_digits(n)[i] <= 57,
    decreases n,
{
    if n < 10 {
        assert(dec_digits(n)[0] == (48 + n) as u8);
    } else {
        lemma_dec_digits_ascii(n / 10);
        assert forall|i: int| 0 <= i < dec_digits(n).len() implies 48 <= #[trigger] dec_digits(
            n,
        )[i] <= 57 by {
            if i < dec_digits(n / 10).len() {
                assert(dec_digits(n)[i] == dec_digits(n / 10)[i]);
            } else {
                assert(dec_digits(n)[i] == (48 + n % 10) as u8);
            }
        }
    }
}

/// The number of decimal digits of `n`.
pub fn dec_len(n: u32) -> (r: usize)
    ensures
        r == dec_digits(n as nat).len(),
        r <= 10,
    decreases n,
{
    proof {
        reveal_with_fuel(pow10, 12);
        assert(pow10(10nat) == 10000000000);
        lemma_dec_digits_len(n as nat, 10nat);
    }
    if n < 10 {
        1
    } else {
        let rest = dec_len(n / 10);
        rest + 1
    }
}

/// Append the decimal digits of `n` to `v`.
pub fn push_dec(v: &mut Vec<u8>, n: u32)
    ensures
        final(v)@ == old(v)@ + dec_digits(n as nat),
    decreases n,
{
    if n < 10 {
        v.push(48 + n as u8);
        proof {
            assert(v@ =~= old(v)@ + dec_digits(n as nat));
        }
    } else {
        push_dec(v, n / 10);
        let d: u8 = (n % 10) as u8;
        v.push(48 + d);
        proof {
            assert(v@ =~= old(v)@ + dec_digits(n as nat));
        }
    }
}

/// Append the decimal digits of `n`, zero-padded on the left to at least
/// `width` bytes, to `v`.
pub fn push_dec_padded(v: &mut Vec<u8>, n: u32, width: usize)
    ensures
        final(v)@ == old(v)@ + dec_padded(n as nat, width as nat),
{
    let ghost base = v@;
    let d = dec_len(n);
    let mut k: usize = d;
    proof {
        assert(base + Seq::new(0nat, |i: int| 48u8) =~= base);
    }
    while k < width
        invariant
            d <= k,
            k <= width || k == d,
            d == dec_digits(n as nat).len(),
            v@ == base + Seq::new((k - d) as nat, |i: int| 48u8),
        decreases width - k,
    {
        v.push(48);
        proof {
            assert(v@ =~= base + Seq::new((k + 1 - d) as nat, |i: int| 48u8));
        }
        k = k + 1;
    }
    push_dec(v, n);
    proof {
        if d < width {
            assert(k == width);
        } else {
            assert(k == d);
        }
        assert(v@ =~= base + dec_padded(n as nat, width as nat));
    }
}

} // verus!
