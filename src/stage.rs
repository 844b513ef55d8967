//! State of the demodulation stage that lives across blocks: the working
//! sample buffer with its valid length, the decimator's phase, and the
//! counter that paces signal power reports.

use vstd::prelude::*;
use crate::block::{decode_block, pair_index};
use crate::consts::{BUF_BYTES, BUF_SAMPLES, DECIMATION, IQ_TABLE_LEN, POWER_REPORT_INTERVAL};
use crate::decim::{decimated, kept_len, Decimator};
use crate::pool::{checkout_succeeds, Checkout, Pool};
use crate::throttle::{fires_on_call, Throttler};

verus! {

/// Why the stage cannot go on with a block.
#[derive(Clone, Copy, Debug, PartialEq, Eq, Structural)]
pub enum StageError {
    /// The raw block does not hold exactly one configured block of samples.
    MalformedBlock,
    /// Every baseband buffer is checked out: downstream is not keeping up.
    PoolExhausted,
}

/// Working state of the demodulation stage over samples of type `T`.
pub struct DemodState<T> {
    decim: Decimator,
    notifier: Throttler,
    samples: Vec<T>,
    len: usize,
}

impl<T: Copy> DemodState<T> {
    /// The valid samples of the working buffer.
    pub closed spec fn valid(&self) -> Seq<T> {
        self.samples@.take(self.len as int)
    }

    /// Samples passed since the decimator last kept one.
    pub closed spec fn phase(&self) -> nat {
        self.decim.phase_spec()
    }

    /// Blocks for which a power report was considered so far.
    pub closed spec fn reports_considered(&self) -> nat {
        self.notifier.calls()
    }

    pub closed spec fn wf(&self) -> bool {
        &&& self.decim.wf()
        &&& self.decim.ratio_spec() == DECIMATION
        &&& self.notifier.wf()
        &&& self.notifier.interval_spec() == POWER_REPORT_INTERVAL
        &&& self.samples@.len() == BUF_SAMPLES
        &&& self.len <= BUF_SAMPLES
    }

    /// Create the state with an empty working buffer of `BUF_SAMPLES`
    /// entries, each set to `fill`.
    pub fn new(fill: T) -> (r: Self)
        ensures
            r.wf(),
            r.valid().len() == 0,
            r.phase() == 0,
            r.reports_considered() == 0,
    {
        let mut samples: Vec<T> = Vec::with_capacity(BUF_SAMPLES);
        let mut k: usize = 0;
        while k < BUF_SAMPLES
            invariant
                k <= BUF_SAMPLES,
                samples@.len() == k,
            decreases BUF_SAMPLES - k,
        {
            samples.push(fill);
            k = k + 1;
        }
        DemodState {
            decim: Decimator::new(DECIMATION),
            notifier: Throttler::new(POWER_REPORT_INTERVAL),
            samples,
            len: 0,
        }
    }

    /// Number of valid samples.
    pub fn len(&self) -> (r: usize)
        requires
            self.wf(),
        ensures
            r == self.valid().len(),
    {
        self.len
    }

    /// The whole working buffer; its first `len()` entries are the valid
    /// samples.
    pub fn buffer(&self) -> (r: &Vec<T>)
        requires
            self.wf(),
        ensures
            r@.len() == BUF_SAMPLES,
            r@.take(self.valid().len() as int) == self.valid(),
    {
        &self.samples
    }

    /// The `k`-th valid sample.
    pub fn sample(&self, k: usize) -> (r: T)
        requires
            self.wf(),
            k < self.valid().len(),
        ensures
            r == self.valid()[k as int],
    {
        self.samples[k]
    }

    /// Overwrite the `k`-th valid sample.
    pub fn set_sample(&mut self, k: usize, x: T)
        requires
            old(self).wf(),
            k < old(self).valid().len(),
        ensures
            final(self).wf(),
            final(self).valid() == old(self).valid().update(k as int, x),
            final(self).phase() == old(self).phase(),
            final(self).reports_considered() == old(self).reports_considered(),
    {
        self.samples.set(k, x);
        assert(self.valid() =~= old(self).valid().update(k as int, x));
    }

    /// Load a raw block: every I/Q byte pair, mapped through `table`, becomes
    /// one valid sample. A malformed block leaves the state as it was.
    pub fn load_block(&mut self, bytes: &[u8], table: &[T]) -> (r: Result<(), StageError>)
        requires
            old(self).wf(),
            table@.len() == IQ_TABLE_LEN,
        ensures
            final(self).wf(),
            r is Ok <==> bytes@.len() == BUF_BYTES,
            r is Err ==> r == Err::<(), StageError>(StageError::MalformedBlock),
            r is Err ==> final(self).valid() == old(self).valid(),
            r is Ok ==> final(self).valid().len() == BUF_SAMPLES && forall|k: int|
                0 <= k < BUF_SAMPLES ==> #[trigger] final(self).valid()[k] == table@[pair_index(
                    bytes@,
                    k,
                )],
            final(self).phase() == old(self).phase(),
            final(self).reports_considered() == old(self).reports_considered(),
    {
        match decode_block(bytes, table, &mut self.samples) {
            Ok(()) => {
                self.len = BUF_SAMPLES;
                assert(self.valid() =~= self.samples@);
                Ok(())
            },
            Err(_) => {
                assert(self.samples@ =~= old(self).samples@);
                Err(StageError::MalformedBlock)
            },
        }
    }

    /// Decimate the valid samples in place; return the new valid length.
    pub fn decimate(&mut self) -> (r: usize)
        requires
            old(self).wf(),
        ensures
            final(self).wf(),
            r == final(self).valid().len(),
            final(self).valid() == decimated(old(self).valid(), old(self).phase(), DECIMATION as nat),
            final(self).phase() == (old(self).phase() + old(self).valid().len()) % (DECIMATION as nat),
            final(self).reports_considered() == old(self).reports_considered(),
    {
        let ghost p = self.decim.phase_spec();
        let ghost l = self.len as nat;
        proof {
            self.decim.lemma_phase_below_ratio();
        }
        let ghost d = DECIMATION as nat;
        assert((p + l) / d <= l || l == 0) by (nonlinear_arith)
            requires
                p < d,
                d > 0,
        ;
        let n = self.decim.decim_in_place(&mut self.samples, self.len);
        self.len = n;
        n
    }

    /// Count one processed block; return whether its signal power is due to
    /// be reported, which is the case on every `POWER_REPORT_INTERVAL`-th block.
    pub fn power_report_due(&mut self) -> (r: bool)
        requires
            old(self).wf(),
        ensures
            final(self).wf(),
            final(self).valid() == old(self).valid(),
            final(self).phase() == old(self).phase(),
            final(self).reports_considered() == old(self).reports_considered() + 1,
            r == fires_on_call(POWER_REPORT_INTERVAL as nat, final(self).reports_considered()),
    {
        self.notifier.throttle()
    }
}

/// A whole raw block holds a multiple of the decimation ratio: decimating it
/// from phase zero keeps exactly `BUF_SAMPLES / DECIMATION` samples and leaves
/// the phase at zero, so every block yields the same baseband length.
pub proof fn lemma_full_block_decimation()
    ensures
        kept_len(0, BUF_SAMPLES as nat, DECIMATION as nat) == BUF_SAMPLES / DECIMATION,
        BUF_SAMPLES % DECIMATION == 0,
        BUF_SAMPLES / DECIMATION * DECIMATION == BUF_SAMPLES,
{
}

/// Take an output buffer for one block, or fail when the pool is exhausted.
pub fn acquire_output<B>(pool: &mut Pool<B>) -> (r: Result<Checkout<B>, StageError>)
    requires
        old(pool).wf(),
    ensures
        final(pool).wf(),
        final(pool).capacity_spec() == old(pool).capacity_spec(),
        r is Ok <==> checkout_succeeds(old(pool).capacity_spec(), old(pool).outstanding()),
        r is Ok ==> final(pool).outstanding() == old(pool).outstanding() + 1,
        r is Err ==> r == Err::<Checkout<B>, StageError>(StageError::PoolExhausted),
        r is Err ==> final(pool).outstanding() == old(pool).outstanding(),
{
    match pool.checkout() {
        Some(c) => Ok(c),
        None => Err(StageError::PoolExhausted),
    }
}

} // verus!
