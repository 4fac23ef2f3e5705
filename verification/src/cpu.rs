//! CPU sampler: a fixed-count averaging of utilization readings that
//! is resilient to the instantaneous spike caused by the sampling
//! itself waking the core.
//!
//! The driver refreshes the platform's CPU counters, waits a fixed
//! interval, and hands each reading to a [`CpuSampler`]. The first
//! reading only primes the counters' delta state and is discarded (the
//! warm-up); the next [`SAMPLE_COUNT`] readings are kept, and their
//! arithmetic mean is the smoothed utilization. Readings are in
//! hundredths of a percent.

use vstd::prelude::*;

verus! {

/// Number of trusted utilization readings that enter the average.
pub const SAMPLE_COUNT: u64 = 5;

/// Milliseconds the driver should wait between counter refreshes, so
/// that a meaningful amount of work accumulates between snapshots.
pub const SAMPLE_INTERVAL_MS: u64 = 300;

/// One step of the sampler: the first reading it is handed is the
/// warm-up and is discarded; every later reading is kept.
pub open spec fn record_model(warmed: bool, samples: Seq<u64>, v: u64) -> (bool, Seq<u64>) {
    if warmed {
        (true, samples.push(v))
    } else {
        (true, samples)
    }
}

/// The sampler state after handing it the readings in order.
pub open spec fn run_model(warmed: bool, samples: Seq<u64>, readings: Seq<u64>) -> (bool, Seq<
    u64,
>)
    decreases readings.len(),
{
    if readings.len() == 0 {
        (warmed, samples)
    } else {
        let st = record_model(warmed, samples, readings[0]);
        run_model(st.0, st.1, readings.drop_first())
    }
}

/// The sum of a sequence of readings.
pub open spec fn sum(s: Seq<u64>) -> int
    decreases s.len(),
{
    if s.len() == 0 {
        0
    } else {
        sum(s.drop_last()) + s.last()
    }
}

/// The arithmetic mean of a non-empty sequence of readings, rounded
/// down.
pub open spec fn spec_mean(s: Seq<u64>) -> int
    recommends
        s.len() > 0,
{
    sum(s) / (s.len() as int)
}

/// Accumulates utilization readings, in hundredths of a percent,
/// discarding the warm-up reading.
pub struct CpuSampler {
    warmed: bool,
    samples: Vec<u64>,
}

impl CpuSampler {
    /// Whether the warm-up reading has already been seen.
    pub closed spec fn spec_warmed(&self) -> bool {
        self.warmed
    }

    /// The readings kept so far, in order.
    pub closed spec fn spec_samples(&self) -> Seq<u64> {
        self.samples@
    }

    /// The sampler holds a full round of trusted readings.
    pub open spec fn complete(&self) -> bool {
        self.spec_warmed() && self.spec_samples().len() == SAMPLE_COUNT
    }

    /// A fresh sampler: no warm-up seen, no readings kept.
    pub fn new() -> (r: Self)
        ensures
            !r.spec_warmed(),
            r.spec_samples() == Seq::<u64>::empty(),
    {
        CpuSampler { warmed: false, samples: Vec::new() }
    }

    /// Hands the sampler one utilization reading, taken right after a
    /// counter refresh. The first reading is the warm-up and is
    /// discarded; later ones are kept, as `record_model` describes.
    pub fn record(&mut self, v: u64)
        ensures
            (final(self).spec_warmed(), final(self).spec_samples()) == record_model(
                old(self).spec_warmed(),
                old(self).spec_samples(),
                v,
            ),
    {
        if self.warmed {
            self.samples.push(v);
        } else {
            self.warmed = true;
        }
    }

    /// Whether a full round of readings has been recorded.
    pub fn is_complete(&self) -> (r: bool)
        ensures
            r == self.complete(),
    {
        self.warmed && self.samples.len() as u64 == SAMPLE_COUNT
    }

    /// The arithmetic mean of the kept readings. This never fails: it
    /// only degrades in precision when the platform under-reports.
    pub fn mean(&self) -> (r: u64)
        requires
            self.complete(),
        ensures
            r == spec_mean(self.spec_samples()),
    {
        let t: u128 = self.samples[0] as u128 + self.samples[1] as u128 + self.samples[2] as u128
            + self.samples[3] as u128 + self.samples[4] as u128;
        proof {
            let s = self.samples@;
            let s4 = s.drop_last();
            let s3 = s4.drop_last();
            let s2 = s3.drop_last();
            let s1 = s2.drop_last();
            let s0 = s1.drop_last();
            assert(sum(s) == sum(s4) + s[4]);
            assert(sum(s4) == sum(s3) + s[3]);
            assert(sum(s3) == sum(s2) + s[2]);
            assert(sum(s2) == sum(s1) + s[1]);
            assert(sum(s1) == sum(s0) + s[0]);
            assert(sum(s0) == 0);
            assert(sum(s) == t);
        }
        (t / SAMPLE_COUNT as u128) as u64
    }
}

proof fn lemma_run_warmed(samples: Seq<u64>, readings: Seq<u64>)
    ensures
        run_model(true, samples, readings) == (true, samples + readings),
    decreases readings.len(),
{
    if readings.len() == 0 {
        assert(samples + readings =~= samples);
    } else {
        lemma_run_warmed(samples.push(readings[0]), readings.drop_first());
        assert(samples.push(readings[0]) + readings.drop_first() =~= samples + readings);
    }
}

/// Law: the warm-up reading never influences the result. A fresh
/// sampler handed the readings `[w] + rest` keeps exactly `rest`,
/// whatever `w` was, so its mean is the arithmetic mean of `rest`
/// alone.
pub proof fn lemma_warmup_discarded(w: u64, rest: Seq<u64>)
    ensures
        run_model(false, Seq::<u64>::empty(), seq![w] + rest).1 == rest,
        spec_mean(run_model(false, Seq::<u64>::empty(), seq![w] + rest).1) == spec_mean(rest),
{
    let rs = seq![w] + rest;
    assert(rs.drop_first() =~= rest);
    lemma_run_warmed(Seq::<u64>::empty(), rest);
    assert(Seq::<u64>::empty() + rest =~= rest);
}

/// Law: for a full run over the readings `[w, a, b, c, d, e]`, the
/// mean is `(a + b + c + d + e) / 5`, independent of the warm-up
/// reading `w`.
pub proof fn lemma_mean_warmup_independent(w1: u64, w2: u64, rest: Seq<u64>)
    ensures
        spec_mean(run_model(false, Seq::<u64>::empty(), seq![w1] + rest).1) == spec_mean(
            run_model(false, Seq::<u64>::empty(), seq![w2] + rest).1,
        ),
{
    lemma_warmup_discarded(w1, rest);
    lemma_warmup_discarded(w2, rest);
}

} // verus!
