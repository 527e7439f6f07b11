//! Exponential moving average.
use vstd::prelude::*;

verus! {

/// Exponential moving average (EMA).
#[derive(Clone, Copy)]
pub struct Ema {
    /// Smoothed average, scaled by the window.
    smoothed_avg: Option<i64>,
    /// EMA window size, 2^k (default: 3).
    window_exp: usize,
}

/// The scaled average after one more sample: a new average adds the sample
/// scaled by the window; otherwise one window-th of the average is traded
/// for the sample.
pub open spec fn ema_next(current: Option<i64>, sample: i64) -> i64 {
    match current {
        Some(c) => (c + sample - (c >> 3usize)) as i64,
        None => sample << 3usize,
    }
}

/// Whether one more sample keeps every intermediate sum in range.
pub open spec fn ema_accepts(current: Option<i64>, sample: i64) -> bool {
    match current {
        Some(c) => {
            &&& i64::MIN <= c + sample <= i64::MAX
            &&& i64::MIN <= c + sample - (c >> 3usize) <= i64::MAX
        },
        None => true,
    }
}

impl Ema {
    #[verifier::type_invariant]
    spec fn window_is_eight(self) -> bool {
        self.window_exp == 3
    }

    /// The scaled average, `None` before the first sample.
    pub closed spec fn smoothed(self) -> Option<i64> {
        self.smoothed_avg
    }

    /// Whether `sample` can be added without overflow.
    pub open spec fn accepts(self, sample: i64) -> bool {
        ema_accepts(self.smoothed(), sample)
    }

    /// Whether `sample` can be added without overflow.
    pub fn can_sample(&self, sample: i64) -> (r: bool)
        ensures
            r == self.accepts(sample),
    {
        proof {
            use_type_invariant(self);
        }
        match self.smoothed_avg {
            Some(current) => match current.checked_add(sample) {
                Some(sum) => sum.checked_sub(current >> self.window_exp).is_some(),
                None => false,
            },
            None => true,
        }
    }

    /// Whether the scaled average is below 2^62 in magnitude, so that every
    /// sample below 2^59 in magnitude is accepted.
    pub fn is_bounded(&self) -> (r: bool)
        ensures
            r == ema_bounded(self.smoothed()),
    {
        match self.smoothed_avg {
            Some(s) => -0x4000_0000_0000_0000 < s && s < 0x4000_0000_0000_0000,
            None => true,
        }
    }

    /// Add a new sample to the EMA and return its updated value.
    pub fn sample(&mut self, sample: i64) -> (r: i64)
        requires
            old(self).accepts(sample),
        ensures
            final(self).smoothed() == Some(ema_next(old(self).smoothed(), sample)),
            r == ema_next(old(self).smoothed(), sample) >> 3usize,
            8 * r <= ema_next(old(self).smoothed(), sample) < 8 * r + 8,
            forall|samples: Seq<i64>|
                old(self).smoothed() == #[trigger] ema_scaled(samples) ==> final(self).smoothed()
                    == ema_scaled(samples.push(sample)),
    {
        proof {
            use_type_invariant(&*self);
            assert forall|samples: Seq<i64>| #[trigger] ema_scaled(samples) == ema_scaled(samples)
                implies ema_scaled(samples.push(sample)) == Some(
                ema_next(ema_scaled(samples), sample),
            ) by {
                lemma_ema_scaled_step(samples, sample);
            }
        }
        let smoothed_avg = match self.smoothed_avg {
            Some(current) => current + sample - (current >> self.window_exp),
            None => sample << self.window_exp,
        };
        self.smoothed_avg = Some(smoothed_avg);
        proof {
            lemma_shr3(smoothed_avg);
        }
        smoothed_avg >> self.window_exp
    }
}

impl Default for Ema {
    fn default() -> (r: Self)
        ensures
            r.smoothed() == None::<i64>,
            r.smoothed() == ema_scaled(Seq::empty()),
    {
        Self { smoothed_avg: None, window_exp: 3 }
    }
}


/// An arithmetic shift by three is floor division by eight.
proof fn lemma_shr3(x: i64)
    ensures
        x == 8 * (x >> 3usize) + (x & 7),
        0 <= x & 7 < 8,
{
    assert(x == 8 * (x >> 3usize) + (x & 7) && 0 <= x & 7 < 8) by (bit_vector);
}

/// A shift left by three of a small value is multiplication by eight.
proof fn lemma_shl3(x: i64)
    requires
        -0x1000_0000_0000_0000 <= x < 0x1000_0000_0000_0000,
    ensures
        x << 3usize == 8 * x,
{
    assert(x << 3usize == 8 * x) by (bit_vector)
        requires
            -0x1000_0000_0000_0000 <= x < 0x1000_0000_0000_0000,
    ;
}

/// The first sample's average is the sample itself.
pub proof fn lemma_first_sample(sample: i64)
    requires
        -0x1000_0000_0000_0000 <= sample < 0x1000_0000_0000_0000,
    ensures
        ema_next(None, sample) == 8 * sample,
        ema_next(None, sample) >> 3usize == sample,
{
    lemma_shl3(sample);
    lemma_shr3(ema_next(None, sample));
}

/// One step of the average trades one eighth of the scaled average, rounded
/// down, for the sample: the new scaled average is `c + s - q` where
/// `8 * q <= c < 8 * q + 8`.  A sample at least eight above the average
/// therefore raises it, and one at least eight below lowers it.
pub proof fn lemma_step_arithmetic(current: i64, sample: i64)
    requires
        ema_accepts(Some(current), sample),
    ensures
        ({
            let next = ema_next(Some(current), sample);
            let q = current + sample - next;
            &&& 8 * q <= current < 8 * q + 8
            &&& (8 * sample >= current + 8 ==> next > current)
            &&& (8 * sample + 8 <= current ==> next < current)
        }),
{
    lemma_shr3(current);
}

/// A constant input is a fixed point: once the average equals the sample,
/// further equal samples leave it unchanged.
pub proof fn lemma_steady_state(sample: i64)
    requires
        -0x0800_0000_0000_0000 <= sample < 0x0800_0000_0000_0000,
    ensures
        ema_accepts(Some(ema_next(None, sample)), sample),
        ema_next(Some(ema_next(None, sample)), sample) == ema_next(None, sample),
        ema_next(Some(ema_next(None, sample)), sample) >> 3usize == sample,
{
    lemma_first_sample(sample);
    let c = ema_next(None, sample);
    lemma_shr3(c);
}

/// A constant input is a fixed point from the first sample on: after `n`
/// equal samples the average is that sample, without drift from rounding.
pub proof fn lemma_constant_samples(sample: i64, n: nat)
    requires
        -0x0800_0000_0000_0000 <= sample < 0x0800_0000_0000_0000,
        n >= 1,
    ensures
        ema_scaled(Seq::new(n, |i: int| sample)) == Some(ema_next(None, sample)),
        ema_next(None, sample) >> 3usize == sample,
    decreases n,
{
    let samples = Seq::new(n, |i: int| sample);
    lemma_steady_state(sample);
    assert(samples.last() == sample);
    if n == 1 {
        assert(samples.drop_last() =~= Seq::<i64>::empty());
        assert(ema_scaled(samples.drop_last()) == None::<i64>);
    } else {
        let prefix = Seq::new((n - 1) as nat, |i: int| sample);
        assert(samples.drop_last() =~= prefix);
        lemma_constant_samples(sample, (n - 1) as nat);
        assert(ema_scaled(samples.drop_last()) == Some(ema_next(None, sample)));
    }
    assert(ema_scaled(samples) == Some(ema_next(ema_scaled(samples.drop_last()), sample)));
}

/// The updated average lies between the previous average and the sample:
/// it moves toward the sample without overshooting it.
pub proof fn lemma_moves_toward_sample(current: i64, sample: i64)
    requires
        ema_accepts(Some(current), sample),
    ensures
        ({
            let previous = current >> 3usize;
            let updated = ema_next(Some(current), sample) >> 3usize;
            &&& (previous <= sample ==> previous <= updated <= sample)
            &&& (sample <= previous ==> sample <= updated <= previous)
        }),
{
    let next = ema_next(Some(current), sample);
    lemma_shr3(current);
    lemma_shr3(next);
}


/// The scaled average after `samples` are fed, in order, to a fresh average.
pub open spec fn ema_scaled(samples: Seq<i64>) -> Option<i64>
    decreases samples.len(),
{
    if samples.len() == 0 {
        None
    } else {
        Some(ema_next(ema_scaled(samples.drop_last()), samples.last()))
    }
}

/// Samples below 2^59 in magnitude.
pub open spec fn small_sample(x: i64) -> bool {
    -0x0800_0000_0000_0000 < x < 0x0800_0000_0000_0000
}

/// A scaled average below 2^62 in magnitude, or none yet.
pub open spec fn ema_bounded(current: Option<i64>) -> bool {
    match current {
        Some(s) => -0x4000_0000_0000_0000 < s < 0x4000_0000_0000_0000,
        None => true,
    }
}

/// Feeding one more sample extends the sequence of samples: the average
/// after `samples` then `sample` is one `Ema::sample` step from the average
/// after `samples`.
pub proof fn lemma_ema_scaled_step(samples: Seq<i64>, sample: i64)
    ensures
        ema_scaled(samples.push(sample)) == Some(ema_next(ema_scaled(samples), sample)),
{
    assert(samples.push(sample).drop_last() =~= samples);
}

/// A bounded average accepts every small sample and stays bounded.
pub proof fn lemma_bounded_step(current: Option<i64>, sample: i64)
    requires
        ema_bounded(current),
        small_sample(sample),
    ensures
        ema_accepts(current, sample),
        ema_bounded(Some(ema_next(current, sample))),
{
    match current {
        Some(c) => lemma_shr3(c),
        None => lemma_shl3(sample),
    }
}

/// Small samples keep the average bounded, so every further small sample is
/// accepted without overflow.
pub proof fn lemma_small_samples_stay_bounded(samples: Seq<i64>)
    requires
        forall|i: int| 0 <= i < samples.len() ==> small_sample(#[trigger] samples[i]),
    ensures
        ema_bounded(ema_scaled(samples)),
        forall|x: i64| small_sample(x) ==> ema_accepts(ema_scaled(samples), x),
    decreases samples.len(),
{
    if samples.len() > 0 {
        let prefix = samples.drop_last();
        assert forall|i: int| 0 <= i < prefix.len() implies small_sample(#[trigger] prefix[i]) by {
            assert(prefix[i] == samples[i]);
        }
        lemma_small_samples_stay_bounded(prefix);
        lemma_bounded_step(ema_scaled(prefix), samples.last());
    }
    assert forall|x: i64| small_sample(x) implies ema_accepts(ema_scaled(samples), x) by {
        lemma_bounded_step(ema_scaled(samples), x);
    }
}

/// The average never leaves the range of the samples seen: when every
/// sample lies in `[lo, hi]`, so does the average after them.
pub proof fn lemma_average_within_samples(samples: Seq<i64>, lo: i64, hi: i64)
    requires
        samples.len() > 0,
        small_sample(lo),
        small_sample(hi),
        forall|i: int| 0 <= i < samples.len() ==> lo <= #[trigger] samples[i] <= hi,
    ensures
        ema_scaled(samples) is Some,
        8 * lo <= ema_scaled(samples).unwrap() <= 8 * hi + 7,
        lo <= ema_scaled(samples).unwrap() >> 3usize <= hi,
    decreases samples.len(),
{
    let prefix = samples.drop_last();
    let x = samples.last();
    assert(lo <= x <= hi);
    if prefix.len() == 0 {
        lemma_shl3(x);
    } else {
        assert forall|i: int| 0 <= i < prefix.len() implies lo <= #[trigger] prefix[i] <= hi by {
            assert(prefix[i] == samples[i]);
        }
        lemma_average_within_samples(prefix, lo, hi);
        lemma_shr3(ema_scaled(prefix).unwrap());
    }
    lemma_shr3(ema_scaled(samples).unwrap());
}

} // verus!
