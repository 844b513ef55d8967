//! Sample selection of a streaming decimator. The anti-aliasing filter runs
//! over every input sample; the decimator then keeps every `ratio`-th filtered
//! sample, carrying its phase from one block to the next.

use vstd::prelude::*;
use vstd::arithmetic::div_mod::lemma_fundamental_div_mod_converse;

verus! {

/// Number of samples kept from a block of `n` samples, when `phase` samples
/// had already passed since the last kept one.
pub open spec fn kept_len(phase: nat, n: nat, ratio: nat) -> nat {
    ((phase + n) / ratio) as nat
}

/// The samples of `s` that a decimator with the given phase and ratio keeps:
/// those at which the running count of samples reaches a multiple of `ratio`.
pub open spec fn decimated<T>(s: Seq<T>, phase: nat, ratio: nat) -> Seq<T> {
    Seq::new(kept_len(phase, s.len(), ratio), |k: int| s[(k + 1) * ratio - 1 - phase])
}

/// Keeps every `ratio`-th sample of a stream split into blocks.
pub struct Decimator {
    ratio: usize,
    phase: usize,
}

impl Decimator {
    /// The decimation ratio.
    pub closed spec fn ratio_spec(&self) -> nat {
        self.ratio as nat
    }

    /// Samples passed since the last kept one.
    pub closed spec fn phase_spec(&self) -> nat {
        self.phase as nat
    }

    pub closed spec fn wf(&self) -> bool {
        self.ratio > 0 && self.phase < self.ratio
    }

    /// A well-formed decimator's phase is below its nonzero ratio.
    pub proof fn lemma_phase_below_ratio(&self)
        requires
            self.wf(),
        ensures
            0 < self.ratio_spec(),
            self.phase_spec() < self.ratio_spec(),
    {
    }

    /// Create a decimator that keeps one sample of every `ratio`.
    pub fn new(ratio: usize) -> (r: Self)
        requires
            ratio > 0,
        ensures
            r.wf(),
            r.ratio_spec() == ratio,
            r.phase_spec() == 0,
    {
        Decimator { ratio, phase: 0 }
    }

    /// The decimation ratio.
    pub fn ratio(&self) -> (r: usize)
        ensures
            r == self.ratio_spec(),
    {
        self.ratio
    }

    /// Decimate the first `len` samples of `buf` in place: the kept samples
    /// move, in order, to the front of `buf`, and their number is returned.
    /// Samples past the returned length are left unspecified.
    pub fn decim_in_place<T: Copy>(&mut self, buf: &mut Vec<T>, len: usize) -> (r: usize)
        requires
            old(self).wf(),
            len <= old(buf)@.len(),
        ensures
            final(self).wf(),
            final(self).ratio_spec() == old(self).ratio_spec(),
            final(self).phase_spec() == (old(self).phase_spec() + len as nat) % old(self).ratio_spec(),
            r == kept_len(old(self).phase_spec(), len as nat, old(self).ratio_spec()),
            final(buf)@.len() == old(buf)@.len(),
            final(buf)@.take(r as int) == decimated(
                old(buf)@.take(len as int),
                old(self).phase_spec(),
                old(self).ratio_spec(),
            ),
    {
        let ghost orig = buf@;
        let ghost p0 = self.phase as nat;
        let ghost rr = self.ratio as nat;
        let mut w: usize = 0;
        let mut j: usize = 0;
        while j < len
            invariant
                self.wf(),
                self.ratio == rr,
                p0 < rr,
                j <= len,
                len <= orig.len(),
                buf@.len() == orig.len(),
                w * rr + self.phase == p0 + j,
                w <= j,
                forall|i: int| j <= i < orig.len() ==> #[trigger] buf@[i] == orig[i],
                forall|k: int| 0 <= k < w ==> #[trigger] buf@[k] == orig[(k + 1) * rr - 1 - p0],
            decreases len - j,
        {
            if self.phase + 1 == self.ratio {
                let x = buf[j];
                buf.set(w, x);
                proof {
                    assert((w + 1) * rr == w * rr + rr) by (nonlinear_arith);
                    assert((w + 1) * rr <= (j + 1) * rr) by (nonlinear_arith)
                        requires
                            w <= j,
                    ;
                }
                w = w + 1;
                self.phase = 0;
            } else {
                self.phase = self.phase + 1;
            }
            j = j + 1;
            proof {
                assert(w <= j) by (nonlinear_arith)
                    requires
                        w * rr + self.phase == p0 + j,
                        p0 < rr,
                        rr > 0,
                ;
            }
        }
        proof {
            lemma_fundamental_div_mod_converse(
                (p0 + len) as int,
                rr as int,
                w as int,
                self.phase as int,
            );
            let ghost d = decimated(orig.take(len as int), p0, rr);
            assert forall|k: int| 0 <= k < w implies #[trigger] buf@.take(w as int)[k] == d[k] by {
                assert((k + 1) * rr <= w * rr) by (nonlinear_arith)
                    requires
                        k + 1 <= w,
                        rr > 0,
                ;
                assert((k + 1) * rr >= rr) by (nonlinear_arith)
                    requires
                        k >= 0,
                        rr > 0,
                ;
            }
            assert(buf@.take(w as int) =~= d);
        }
        w
    }
}

/// Decimation is phase-continuous: decimating two adjacent blocks, the second
/// starting from the phase the first left behind, keeps the same samples as
/// decimating them as one block.
pub proof fn lemma_decimation_split<T>(a: Seq<T>, b: Seq<T>, phase: nat, ratio: nat)
    requires
        ratio > 0,
        phase < ratio,
    ensures
        decimated(a + b, phase, ratio) == decimated(a, phase, ratio) + decimated(
            b,
            (phase + a.len()) % ratio,
            ratio,
        ),
        kept_len(phase, (a.len() + b.len()) as nat, ratio) == kept_len(phase, a.len(), ratio)
            + kept_len((phase + a.len()) % ratio, b.len(), ratio),
{
    let m = (phase + a.len()) / ratio;
    let c = (phase + a.len()) % ratio;
    vstd::arithmetic::div_mod::lemma_fundamental_div_mod((phase + a.len()) as int, ratio as int);
    vstd::arithmetic::div_mod::lemma_mod_bound((phase + a.len()) as int, ratio as int);
    let q = (c + b.len()) / ratio;
    let rem = (c + b.len()) % ratio;
    vstd::arithmetic::div_mod::lemma_fundamental_div_mod((c + b.len()) as int, ratio as int);
    vstd::arithmetic::div_mod::lemma_mod_bound((c + b.len()) as int, ratio as int);
    assert(phase + a.len() + b.len() == (m + q) * ratio + rem) by (nonlinear_arith)
        requires
            phase + a.len() == ratio * m + c,
            c + b.len() == ratio * q + rem,
    ;
    lemma_fundamental_div_mod_converse(
        (phase + a.len() + b.len()) as int,
        ratio as int,
        (m + q) as int,
        rem as int,
    );
    let lhs = decimated(a + b, phase, ratio);
    let rhs = decimated(a, phase, ratio) + decimated(b, c as nat, ratio);
    assert(lhs.len() == rhs.len());
    assert(m * ratio == ratio * m) by (nonlinear_arith);
    assert forall|k: int| 0 <= k < lhs.len() implies lhs[k] == rhs[k] by {
        let i = (k + 1) * ratio - 1 - phase;
        if k < m {
            assert((k + 1) * ratio <= m * ratio) by (nonlinear_arith)
                requires
                    k + 1 <= m,
                    ratio > 0,
            ;
            assert((k + 1) * ratio >= ratio) by (nonlinear_arith)
                requires
                    k >= 0,
                    ratio > 0,
            ;
            assert(0 <= i < a.len());
            assert(lhs[k] == (a + b)[i]);
            assert(rhs[k] == decimated(a, phase, ratio)[k]);
        } else {
            let k2 = k - m;
            assert((k + 1) * ratio == (k2 + 1) * ratio + m * ratio) by (nonlinear_arith)
                requires
                    k2 == k - m,
            ;
            assert((k2 + 1) * ratio >= ratio) by (nonlinear_arith)
                requires
                    k2 >= 0,
                    ratio > 0,
            ;
            assert((k2 + 1) * ratio <= ratio * q) by (nonlinear_arith)
                requires
                    k2 + 1 <= q,
                    ratio > 0,
            ;
            assert(i - a.len() == (k2 + 1) * ratio - 1 - c);
            assert(i - a.len() < b.len());
            assert(a.len() <= i);
            assert(lhs[k] == (a + b)[i]);
            assert(rhs[k] == decimated(b, c as nat, ratio)[k2]);
        }
    }
    assert(lhs =~= rhs);
}

} // verus!
