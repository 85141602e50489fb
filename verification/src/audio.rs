//! Audio buffers and the sample transformations applied before
//! recognition: resampling, normalization, noise gating and stereo
//! mixdown.
//!
//! Samples are mono Q15 fixed-point amplitudes held in `i32`:
//! [`SAMPLE_UNIT`] stands for an amplitude of 1.0, `-SAMPLE_UNIT` for
//! -1.0. Values outside that range are representable (and tolerated by
//! every operation); `normalize` brings the peak back to full scale.

use vstd::prelude::*;
use vstd::arithmetic::div_mod::*;
use vstd::arithmetic::mul::*;
use vstd::arithmetic::power2::pow2;
use crate::error::WhisperError;

verus! {

/// Audio sample rate expected by the recognition backend (16 kHz).
pub const WHISPER_SAMPLE_RATE: u32 = 16000;

/// Number of Q15 steps that stand for an amplitude of 1.0.
pub const SAMPLE_UNIT: i32 = 32768;

/// Largest sample rate any buffer may carry; keeps the resampling
/// arithmetic inside 64 bits.
pub const MAX_SAMPLE_RATE: u32 = 16_000_000;

/// Largest number of samples a buffer operation accepts; keeps index
/// arithmetic inside 64 bits and fits a 32-bit address space.
pub const MAX_BUFFER_LEN: usize = 0x4000_0000;

/// Audio sample format of decoded containers.
#[derive(Debug, Clone, Copy, PartialEq, Eq, Structural)]
pub enum AudioFormat {
    /// 16-bit signed integer PCM.
    I16,
    /// 32-bit floating point.
    F32,
}

/// The absolute value.
pub open spec fn spec_abs(v: int) -> int {
    if v >= 0 {
        v
    } else {
        -v
    }
}

/// Quotient of `a` by `d`, rounded toward zero (as Rust's integer
/// division rounds).
pub open spec fn spec_div_trunc(a: int, d: int) -> int {
    if a >= 0 {
        a / d
    } else {
        -((-a) / d)
    }
}

/// A gated sample: zero when its magnitude is below the threshold,
/// unchanged otherwise.
pub open spec fn spec_gated(v: int, t: int) -> int {
    if spec_abs(v) < t {
        0
    } else {
        v
    }
}

/// The pointwise noise gate over a whole sequence.
pub open spec fn spec_gated_seq(s: Seq<i32>, t: int) -> Seq<i32> {
    Seq::new(s.len(), |i: int| spec_gated(s[i] as int, t) as i32)
}

/// The average of a left and a right sample, rounded toward zero.
pub open spec fn spec_avg(l: int, r: int) -> int {
    spec_div_trunc(l + r, 2)
}

/// Audio buffer for storing recorded samples.
#[derive(Debug, Clone)]
pub struct AudioBuffer {
    /// Q15 fixed-point mono samples.
    samples: Vec<i32>,
    /// Sample rate of the buffer.
    sample_rate: u32,
}

impl View for AudioBuffer {
    type V = Seq<i32>;

    closed spec fn view(&self) -> Seq<i32> {
        self.samples@
    }
}

impl AudioBuffer {
    /// The sample rate, for contracts.
    pub closed spec fn spec_rate(&self) -> u32 {
        self.sample_rate
    }

    /// Every buffer carries a positive, bounded sample rate.
    pub open spec fn wf(&self) -> bool {
        1 <= self.spec_rate() <= MAX_SAMPLE_RATE
    }

    /// Creates a new empty audio buffer at the backend rate.
    pub fn new() -> (b: Self)
        ensures
            b@ == Seq::<i32>::empty(),
            b.spec_rate() == WHISPER_SAMPLE_RATE,
            b.wf(),
    {
        AudioBuffer { samples: Vec::new(), sample_rate: WHISPER_SAMPLE_RATE }
    }

    /// Creates an empty buffer with pre-allocated capacity.
    pub fn with_capacity(capacity: usize) -> (b: Self)
        ensures
            b@ == Seq::<i32>::empty(),
            b.spec_rate() == WHISPER_SAMPLE_RATE,
            b.wf(),
    {
        AudioBuffer { samples: Vec::with_capacity(capacity), sample_rate: WHISPER_SAMPLE_RATE }
    }

    /// Creates a buffer from existing samples.
    pub fn from_samples(samples: Vec<i32>, sample_rate: u32) -> (b: Self)
        requires
            1 <= sample_rate <= MAX_SAMPLE_RATE,
        ensures
            b@ == samples@,
            b.spec_rate() == sample_rate,
            b.wf(),
    {
        AudioBuffer { samples, sample_rate }
    }

    /// Returns the samples as a slice.
    pub fn samples(&self) -> (s: &[i32])
        ensures
            s@ == self@,
    {
        self.samples.as_slice()
    }

    /// Returns the sample rate.
    pub fn sample_rate(&self) -> (r: u32)
        ensures
            r == self.spec_rate(),
    {
        self.sample_rate
    }

    /// Returns the duration in milliseconds.
    pub fn duration_ms(&self) -> (d: u64)
        requires
            self.wf(),
            self@.len() <= MAX_BUFFER_LEN,
        ensures
            d == self@.len() as int * 1000 / (self.spec_rate() as int),
    {
        (self.samples.len() as u64) * 1000 / (self.sample_rate as u64)
    }

    /// Returns the number of samples.
    pub fn len(&self) -> (n: usize)
        ensures
            n == self@.len(),
    {
        self.samples.len()
    }

    /// Returns true if the buffer is empty.
    pub fn is_empty(&self) -> (e: bool)
        ensures
            e == (self@.len() == 0),
    {
        self.samples.is_empty()
    }

    /// Appends samples to the buffer. No validation of range.
    pub fn append(&mut self, samples: &[i32])
        ensures
            final(self)@ == old(self)@ + samples@,
            final(self).spec_rate() == old(self).spec_rate(),
    {
        let n = samples.len();
        let mut j: usize = 0;
        while j < n
            invariant
                j <= n,
                n == samples@.len(),
                self@ == old(self)@ + samples@.subrange(0, j as int),
                self.spec_rate() == old(self).spec_rate(),
            decreases n - j,
        {
            let v = *vstd::slice::slice_index_get(samples, j);
            self.samples.push(v);
            proof {
                assert(old(self)@ + samples@.subrange(0, j + 1) =~= (old(self)@ + samples@.subrange(
                    0,
                    j as int,
                )).push(samples@[j as int]));
            }
            j = j + 1;
        }
        proof {
            assert(samples@.subrange(0, n as int) =~= samples@);
        }
    }

    /// Clears all samples from the buffer.
    pub fn clear(&mut self)
        ensures
            final(self)@ == Seq::<i32>::empty(),
            final(self).spec_rate() == old(self).spec_rate(),
    {
        self.samples.clear();
    }

    /// Converts stereo audio to mono by averaging channel pairs; pairs
    /// beyond the shorter channel are dropped.
    pub fn stereo_to_mono(left: &[i32], right: &[i32]) -> (m: Vec<i32>)
        ensures
            m@.len() == if left@.len() <= right@.len() {
                left@.len()
            } else {
                right@.len()
            },
            forall|i: int|
                0 <= i < m@.len() ==> m@[i] as int == spec_avg(left@[i] as int, right@[i] as int),
    {
        let nl = left.len();
        let nr = right.len();
        let n = if nl <= nr {
            nl
        } else {
            nr
        };
        let mut out: Vec<i32> = Vec::with_capacity(n);
        let mut i: usize = 0;
        while i < n
            invariant
                i <= n,
                n == if left@.len() <= right@.len() {
                    left@.len()
                } else {
                    right@.len()
                },
                out@.len() == i,
                forall|k: int|
                    0 <= k < i ==> out@[k] as int == spec_avg(left@[k] as int, right@[k] as int),
            decreases n - i,
        {
            let l = *vstd::slice::slice_index_get(left, i);
            let r = *vstd::slice::slice_index_get(right, i);
            let sum: i64 = l as i64 + r as i64;
            let v: i32 = if sum >= 0 {
                ((sum as u64) / 2) as i32
            } else {
                -((((-sum) as u64) / 2) as i64) as i32
            };
            out.push(v);
            i = i + 1;
        }
        out
    }

    /// Applies a simple noise gate: every sample whose magnitude is
    /// below the threshold becomes zero, the rest stay as they are.
    pub fn apply_noise_gate(&mut self, threshold: i32)
        ensures
            final(self)@ == spec_gated_seq(old(self)@, threshold as int),
            final(self).spec_rate() == old(self).spec_rate(),
    {
        let n = self.samples.len();
        let mut out: Vec<i32> = Vec::with_capacity(n);
        let mut i: usize = 0;
        while i < n
            invariant
                i <= n,
                n == old(self)@.len(),
                self == old(self),
                out@.len() == i,
                forall|k: int|
                    0 <= k < i ==> out@[k] as int == spec_gated(
                        old(self)@[k] as int,
                        threshold as int,
                    ),
            decreases n - i,
        {
            let v = self.samples[i];
            let mag: i64 = if v >= 0 {
                v as i64
            } else {
                -(v as i64)
            };
            let g: i32 = if mag < threshold as i64 {
                0
            } else {
                v
            };
            out.push(g);
            i = i + 1;
        }
        self.samples = out;
        proof {
            assert(final(self)@ =~= spec_gated_seq(old(self)@, threshold as int));
        }
    }
}

impl Default for AudioBuffer {
    /// Same as `AudioBuffer::new`.
    fn default() -> (b: Self)
        ensures
            b@ == Seq::<i32>::empty(),
            b.spec_rate() == WHISPER_SAMPLE_RATE,
    {
        AudioBuffer::new()
    }
}

/// Every output sample of the noise gate is either silent or at least
/// as loud as the threshold.
pub proof fn lemma_noise_gate_floor(s: Seq<i32>, t: int)
    ensures
        forall|i: int|
            0 <= i < spec_gated_seq(s, t).len() ==> spec_gated_seq(s, t)[i] as int == 0
                || spec_abs(spec_gated_seq(s, t)[i] as int) >= t,
{
    assert forall|i: int|
        0 <= i < spec_gated_seq(s, t).len() implies spec_gated_seq(s, t)[i] as int == 0 || spec_abs(
        spec_gated_seq(s, t)[i] as int,
    ) >= t by {
        let v = s[i] as int;
        if spec_abs(v) < t {
            assert(spec_gated_seq(s, t)[i] as int == 0);
        } else {
            assert(spec_gated_seq(s, t)[i] as int == v);
        }
    }
}

/// The largest magnitude among the samples (0 for an empty sequence).
pub open spec fn spec_max_abs(s: Seq<i32>) -> int
    decreases s.len(),
{
    if s.len() == 0 {
        0
    } else {
        let rest = spec_max_abs(s.drop_last());
        let v = spec_abs(s.last() as int);
        if v > rest {
            v
        } else {
            rest
        }
    }
}

/// A sample rescaled so that magnitude `m` becomes full scale, rounded
/// toward zero.
pub open spec fn spec_scaled(v: int, m: int) -> int {
    spec_div_trunc(v * SAMPLE_UNIT as int, m)
}

/// The whole sequence rescaled by its own peak magnitude.
pub open spec fn spec_normalized(s: Seq<i32>) -> Seq<i32> {
    Seq::new(s.len(), |i: int| spec_scaled(s[i] as int, spec_max_abs(s)) as i32)
}

/// No sample is louder than the peak.
pub proof fn lemma_max_abs_bounds(s: Seq<i32>)
    ensures
        forall|i: int| 0 <= i < s.len() ==> spec_abs(s[i] as int) <= spec_max_abs(s),
        spec_max_abs(s) >= 0,
    decreases s.len(),
{
    if s.len() > 0 {
        lemma_max_abs_bounds(s.drop_last());
        assert forall|i: int| 0 <= i < s.len() implies spec_abs(s[i] as int) <= spec_max_abs(s) by {
            if i < s.len() - 1 {
                assert(s.drop_last()[i] == s[i]);
            }
        }
    }
}

/// A non-empty sequence attains its peak at some index.
pub proof fn lemma_max_abs_witness(s: Seq<i32>) -> (w: int)
    requires
        s.len() > 0,
    ensures
        0 <= w < s.len(),
        spec_abs(s[w] as int) == spec_max_abs(s),
    decreases s.len(),
{
    if s.len() == 1 {
        assert(s.last() == s[0]);
        assert(spec_max_abs(s.drop_last()) == 0);
        0
    } else if spec_abs(s.last() as int) > spec_max_abs(s.drop_last()) {
        s.len() - 1
    } else {
        let w = lemma_max_abs_witness(s.drop_last());
        assert(s.drop_last()[w] == s[w]);
        w
    }
}

/// The peak is no larger than any bound that holds pointwise.
pub proof fn lemma_max_abs_le(s: Seq<i32>, bound: int)
    requires
        forall|i: int| 0 <= i < s.len() ==> spec_abs(s[i] as int) <= bound,
        bound >= 0,
    ensures
        spec_max_abs(s) <= bound,
    decreases s.len(),
{
    if s.len() > 0 {
        assert forall|i: int|
            0 <= i < s.drop_last().len() implies spec_abs(s.drop_last()[i] as int) <= bound by {
            assert(s.drop_last()[i] == s[i]);
        }
        lemma_max_abs_le(s.drop_last(), bound);
    }
}

/// Scaling by the peak sends a sample of magnitude `va <= m` to a
/// value of magnitude `(va * SAMPLE_UNIT) / m`, which is at most
/// `SAMPLE_UNIT`, with equality when `va == m`.
proof fn lemma_scaled_magnitude(v: int, m: int)
    requires
        1 <= m,
        spec_abs(v) <= m,
    ensures
        spec_abs(spec_scaled(v, m)) == spec_abs(v) * SAMPLE_UNIT as int / m,
        spec_abs(spec_scaled(v, m)) <= SAMPLE_UNIT as int,
        spec_abs(v) == m ==> spec_abs(spec_scaled(v, m)) == SAMPLE_UNIT as int,
{
    let u = SAMPLE_UNIT as int;
    let va = spec_abs(v);
    if v >= 0 {
        lemma_div_pos_is_pos(v * u, m);
    } else {
        assert(spec_scaled(v, m) == -((-v) * u / m));
        lemma_div_pos_is_pos((-v) * u, m);
    }
    assert(spec_abs(spec_scaled(v, m)) == va * u / m);
    lemma_mul_inequality(va, m, u);
    lemma_div_is_ordered(va * u, m * u, m);
    lemma_div_by_multiple(u, m);
    assert(m * u == u * m) by (nonlinear_arith);
    assert(va == m ==> va * u / m == u);
}

fn abs_magnitude(v: i32) -> (a: u64)
    ensures
        a == spec_abs(v as int),
{
    if v >= 0 {
        v as u64
    } else {
        (-(v as i64)) as u64
    }
}

fn max_abs(samples: &Vec<i32>) -> (m: u64)
    ensures
        m == spec_max_abs(samples@),
{
    let n = samples.len();
    let mut m: u64 = 0;
    let mut i: usize = 0;
    while i < n
        invariant
            i <= n,
            n == samples@.len(),
            m == spec_max_abs(samples@.subrange(0, i as int)),
        decreases n - i,
    {
        let a = abs_magnitude(samples[i]);
        proof {
            let pre = samples@.subrange(0, i as int);
            let cur = samples@.subrange(0, i + 1);
            assert(cur.drop_last() =~= pre);
            assert(cur.last() == samples@[i as int]);
        }
        if a > m {
            m = a;
        }
        i = i + 1;
    }
    proof {
        assert(samples@.subrange(0, n as int) =~= samples@);
    }
    m
}

fn scale_sample(v: i32, m: u64) -> (r: i32)
    requires
        1 <= m <= 0x8000_0000u64,
        spec_abs(v as int) <= m,
    ensures
        r as int == spec_scaled(v as int, m as int),
{
    proof {
        lemma_scaled_magnitude(v as int, m as int);
    }
    if v >= 0 {
        let q = ((v as u64) * (SAMPLE_UNIT as u64)) / m;
        q as i32
    } else {
        let neg = (-(v as i64)) as u64;
        let q = (neg * (SAMPLE_UNIT as u64)) / m;
        -(q as i32)
    }
}

impl AudioBuffer {
    /// Normalizes audio so that the peak magnitude becomes full scale
    /// ([`SAMPLE_UNIT`]). A no-op on silent (all-zero or empty) buffers
    /// and on buffers already peaking at full scale.
    pub fn normalize(&mut self)
        ensures
            final(self).spec_rate() == old(self).spec_rate(),
            spec_max_abs(old(self)@) == 0 || spec_max_abs(old(self)@) == SAMPLE_UNIT as int
                ==> final(self)@ == old(self)@,
            !(spec_max_abs(old(self)@) == 0 || spec_max_abs(old(self)@) == SAMPLE_UNIT as int)
                ==> final(self)@ == spec_normalized(old(self)@),
    {
        if self.samples.len() == 0 {
            return ;
        }
        let m = max_abs(&self.samples);
        proof {
            lemma_max_abs_bounds(self.samples@);
        }
        proof {
            assert forall|i: int| 0 <= i < self.samples@.len() implies spec_abs(
                self.samples@[i] as int,
            ) <= 0x8000_0000 by {}
            lemma_max_abs_le(self.samples@, 0x8000_0000);
        }
        if m > 0 && m != SAMPLE_UNIT as u64 {
            let n = self.samples.len();
            let mut out: Vec<i32> = Vec::with_capacity(n);
            let mut i: usize = 0;
            while i < n
                invariant
                    i <= n,
                    n == old(self)@.len(),
                    self == old(self),
                    1 <= m <= 0x8000_0000u64,
                    m == spec_max_abs(old(self)@),
                    out@.len() == i,
                    forall|k: int|
                        0 <= k < i ==> out@[k] as int == spec_scaled(
                            old(self)@[k] as int,
                            m as int,
                        ),
                decreases n - i,
            {
                let v = self.samples[i];
                proof {
                    lemma_max_abs_bounds(self.samples@);
                    assert(spec_abs(self.samples@[i as int] as int) <= m);
                }
                out.push(scale_sample(v, m));
                i = i + 1;
            }
            self.samples = out;
            proof {
                assert(final(self)@ =~= spec_normalized(old(self)@));
            }
        }
    }
}

/// Linear interpolation between samples `a` and `b` at fractional
/// position `rem / den`, floor-rounded.
pub open spec fn spec_interp(a: int, b: int, rem: int, den: int) -> int {
    (a * (den - rem) + b * rem) / den
}

/// Length of a resampled buffer: `n * dst / src`, rounded to nearest
/// (ties upward).
pub open spec fn spec_resampled_len(n: int, src: int, dst: int) -> int {
    (n * dst + src / 2) / src
}

/// The sequence resampled from rate `src` to rate `dst` by linear
/// interpolation: output index `i` sits at source position
/// `i * src / dst` and blends the two nearest source samples, the
/// upper neighbour clamped to the last sample. Equal rates return the
/// sequence unchanged.
pub open spec fn spec_resample(s: Seq<i32>, src: int, dst: int) -> Seq<i32> {
    if src == dst {
        s
    } else {
        Seq::new(
            spec_resampled_len(s.len() as int, src, dst) as nat,
            |i: int|
                {
                    let pos = i * src;
                    let idx = pos / dst;
                    let idx2 = if idx + 1 < s.len() {
                        idx + 1
                    } else {
                        s.len() - 1
                    };
                    spec_interp(s[idx] as int, s[idx2] as int, pos % dst, dst) as i32
                },
        )
    }
}

/// The offset that shifts a signed 32-bit sample into unsigned range.
const SAMPLE_OFFSET: u64 = 0x8000_0000;

proof fn lemma_interp_exec(a: int, b: int, rem: int, den: int)
    requires
        1 <= den,
        0 <= rem < den,
        -0x8000_0000 <= a <= 0x7fff_ffff,
        -0x8000_0000 <= b <= 0x7fff_ffff,
    ensures
        ((a + 0x8000_0000) * (den - rem) + (b + 0x8000_0000) * rem) / den == spec_interp(
            a,
            b,
            rem,
            den,
        ) + 0x8000_0000,
        -0x8000_0000 <= spec_interp(a, b, rem, den) <= 0x7fff_ffff,
{
    let off = 0x8000_0000 as int;
    let x = a * (den - rem) + b * rem;
    assert((a + off) * (den - rem) + (b + off) * rem == x + off * den) by (nonlinear_arith)
        requires
            x == a * (den - rem) + b * rem,
    ;
    lemma_hoist_over_denominator(x, off, den as nat);
    let lo = if a <= b {
        a
    } else {
        b
    };
    let hi = if a <= b {
        b
    } else {
        a
    };
    assert(lo * den <= x && x <= hi * den) by (nonlinear_arith)
        requires
            lo <= a <= hi,
            lo <= b <= hi,
            0 <= rem < den,
            x == a * (den - rem) + b * rem,
    ;
    lemma_div_is_ordered(lo * den, x, den);
    lemma_div_is_ordered(x, hi * den, den);
    lemma_div_multiples_vanish(lo, den);
    lemma_div_multiples_vanish(hi, den);
    assert(lo * den == den * lo) by (nonlinear_arith);
    assert(hi * den == den * hi) by (nonlinear_arith);
}

impl AudioBuffer {
    /// Resamples the audio to the target sample rate by linear
    /// interpolation; an identity copy when the rate already matches.
    /// This is not a band-limited resampler: aliasing is an accepted
    /// trade-off for low latency.
    pub fn resample(&self, target_rate: u32) -> (out: Result<AudioBuffer, WhisperError>)
        requires
            self.wf(),
            1 <= target_rate <= MAX_SAMPLE_RATE,
            self@.len() <= MAX_BUFFER_LEN,
            spec_resampled_len(self@.len() as int, self.spec_rate() as int, target_rate as int)
                <= MAX_BUFFER_LEN,
        ensures
            out is Ok,
            out->Ok_0@ == spec_resample(self@, self.spec_rate() as int, target_rate as int),
            out->Ok_0.spec_rate() == target_rate,
            out->Ok_0.wf(),
    {
        if self.sample_rate == target_rate {
            let copy = vstd::slice::slice_to_vec(self.samples.as_slice());
            return Ok(AudioBuffer { samples: copy, sample_rate: target_rate });
        }
        let n = self.samples.len();
        let src: u64 = self.sample_rate as u64;
        let dst: u64 = target_rate as u64;
        proof {
            assert((n as int) * (dst as int) <= 0x4000_0000 * 0x1000_0000) by (nonlinear_arith)
                requires
                    0 <= n as int <= 0x4000_0000,
                    0 <= dst as int <= 0x1000_0000,
            ;
        }
        let new_len_u64: u64 = ((n as u64) * dst + src / 2) / src;
        proof {
            assert(new_len_u64 == spec_resampled_len(n as int, src as int, dst as int));
        }
        let new_len: usize = new_len_u64 as usize;
        let ghost target = spec_resample(self@, self.spec_rate() as int, target_rate as int);
        let mut out_samples: Vec<i32> = Vec::with_capacity(new_len);
        let mut i: usize = 0;
        while i < new_len
            invariant
                i <= new_len,
                n == self@.len(),
                n <= MAX_BUFFER_LEN,
                new_len <= MAX_BUFFER_LEN,
                src == self.spec_rate(),
                dst == target_rate,
                1 <= src <= MAX_SAMPLE_RATE,
                1 <= dst <= MAX_SAMPLE_RATE,
                src != dst,
                new_len == spec_resampled_len(n as int, src as int, dst as int),
                target == spec_resample(self@, src as int, dst as int),
                out_samples@.len() == i,
                forall|k: int| 0 <= k < i ==> out_samples@[k] == target[k],
            decreases new_len - i,
        {
            proof {
                lemma_fundamental_div_mod((n as int) * (dst as int) + (src as int) / 2, src as int);
                lemma_mod_division_less_than_divisor(
                    (n as int) * (dst as int) + (src as int) / 2,
                    src as int,
                );
                assert((new_len as int) * (src as int) <= (n as int) * (dst as int) + (src as int)
                    / 2);
                assert((i as int) * (src as int) <= (new_len as int - 1) * (src as int))
                    by (nonlinear_arith)
                    requires
                        i as int <= new_len as int - 1,
                        src >= 1,
                ;
                assert((new_len as int - 1) * (src as int) == (new_len as int) * (src as int) - (
                src as int)) by (nonlinear_arith);
                assert((i as int) * (src as int) < (n as int) * (dst as int));
                lemma_multiply_divide_lt((i as int) * (src as int), dst as int, n as int);
                assert((i as int) * (src as int) <= 0x4000_0000 * 0x1000_0000) by (nonlinear_arith)
                    requires
                        0 <= i as int <= 0x4000_0000,
                        0 <= src as int <= 0x1000_0000,
                ;
                if n == 0 {
                    lemma_basic_div((src as int) / 2, src as int);
                    assert(false);
                }
            }
            let pos: u64 = (i as u64) * src;
            let idx64: u64 = pos / dst;
            let rem: u64 = pos % dst;
            let idx: usize = idx64 as usize;
            proof {
                lemma_mod_division_less_than_divisor(pos as int, dst as int);
            }
            let idx2: usize = if idx + 1 < n {
                idx + 1
            } else {
                n - 1
            };
            let a = self.samples[idx];
            let b = self.samples[idx2];
            proof {
                lemma_interp_exec(a as int, b as int, rem as int, dst as int);
            }
            let ua: u64 = ((a as i64) + (SAMPLE_OFFSET as i64)) as u64;
            let ub: u64 = ((b as i64) + (SAMPLE_OFFSET as i64)) as u64;
            proof {
                assert((ua as int) * ((dst - rem) as int) <= 0xFFFF_FFFF * 0x1000_0000
                    && (ub as int) * (rem as int) <= 0xFFFF_FFFF * 0x1000_0000)
                    by (nonlinear_arith)
                    requires
                        0 <= ua as int <= 0xFFFF_FFFF,
                        0 <= ub as int <= 0xFFFF_FFFF,
                        0 <= rem as int,
                        (rem as int) < (dst as int),
                        dst as int <= 0x1000_0000,
                ;
            }
            let blended: u64 = (ua * (dst - rem) + ub * rem) / dst;
            let v: i32 = ((blended as i64) - (SAMPLE_OFFSET as i64)) as i32;
            proof {
                assert(v as int == spec_interp(a as int, b as int, rem as int, dst as int));
                assert(target[i as int] == v);
            }
            out_samples.push(v);
            i = i + 1;
        }
        proof {
            assert(out_samples@ =~= target);
        }
        Ok(AudioBuffer { samples: out_samples, sample_rate: target_rate })
    }
}

/// Resampling a buffer at its own rate returns the samples unchanged.
pub proof fn lemma_resample_identity(s: Seq<i32>, rate: int)
    ensures
        spec_resample(s, rate, rate) == s,
{
}

/// The resampled length is the original length times `dst / src`,
/// rounded to nearest: it differs from the exact ratio by at most half
/// a source step, so by at most one sample.
pub proof fn lemma_resample_length(s: Seq<i32>, src: int, dst: int)
    requires
        1 <= src,
        1 <= dst,
    ensures
        src == dst ==> spec_resample(s, src, dst).len() == s.len(),
        src != dst ==> spec_resample(s, src, dst).len() == spec_resampled_len(
            s.len() as int,
            src,
            dst,
        ),
        spec_resampled_len(s.len() as int, src, dst) >= 0,
        spec_resampled_len(s.len() as int, src, dst) * src <= s.len() * dst + src / 2,
        s.len() * dst + src / 2 < (spec_resampled_len(s.len() as int, src, dst) + 1) * src,
{
    let n = s.len() as int;
    let x = n * dst + src / 2;
    assert(n * dst >= 0) by (nonlinear_arith)
        requires
            n >= 0,
            dst >= 1,
    ;
    lemma_div_pos_is_pos(x, src);
    lemma_fundamental_div_mod(x, src);
    lemma_mod_division_less_than_divisor(x, src);
    let q = x / src;
    assert(q * src <= x) by (nonlinear_arith)
        requires
            x == src * q + x % src,
            x % src >= 0,
    ;
    assert(x < (q + 1) * src) by (nonlinear_arith)
        requires
            x == src * q + x % src,
            x % src < src,
    ;
}

/// Normalizing a buffer whose peak is positive and not yet full scale
/// makes the peak exactly full scale; an all-zero buffer is untouched
/// by `normalize`.
pub proof fn lemma_normalize_peak(s: Seq<i32>)
    requires
        s.len() > 0,
        spec_max_abs(s) > 0,
    ensures
        spec_max_abs(spec_normalized(s)) == SAMPLE_UNIT as int,
{
    let m = spec_max_abs(s);
    let t = spec_normalized(s);
    lemma_max_abs_bounds(s);
    assert forall|i: int| 0 <= i < t.len() implies spec_abs(t[i] as int) <= SAMPLE_UNIT as int by {
        lemma_scaled_magnitude(s[i] as int, m);
    }
    lemma_max_abs_le(t, SAMPLE_UNIT as int);
    let w = lemma_max_abs_witness(s);
    lemma_scaled_magnitude(s[w] as int, m);
    assert(spec_abs(t[w] as int) == SAMPLE_UNIT as int);
    assert(spec_max_abs(t) >= spec_abs(t[w] as int)) by {
        lemma_max_abs_bounds(t);
    }
}

/// The average of two samples, as an executable function.
fn avg_samples(l: i32, r: i32) -> (m: i32)
    ensures
        m as int == spec_avg(l as int, r as int),
{
    let sum: i64 = l as i64 + r as i64;
    if sum >= 0 {
        ((sum as u64) / 2) as i32
    } else {
        -((((-sum) as u64) / 2) as i64) as i32
    }
}

/// Interleaved stereo mixed down to mono: each pair of samples is
/// averaged; a trailing unpaired sample is paired with silence.
pub open spec fn spec_stereo_mix(s: Seq<i32>) -> Seq<i32> {
    Seq::new(
        ((s.len() + 1) / 2) as nat,
        |j: int|
            {
                let l = s[2 * j] as int;
                let r = if 2 * j + 1 < s.len() {
                    s[2 * j + 1] as int
                } else {
                    0
                };
                spec_avg(l, r) as i32
            },
    )
}

/// Raw interleaved container samples of the given bit depth scaled to
/// Q15 and, for two channels, mixed down to mono. Other channel counts
/// pass through unchanged.
pub open spec fn spec_decoded(raw: Seq<i32>, bits: nat, channels: int) -> Seq<i32> {
    let scaled = Seq::new(
        raw.len(),
        |i: int| spec_scaled(raw[i] as int, pow2((bits - 1) as nat) as int) as i32,
    );
    if channels == 2 {
        spec_stereo_mix(scaled)
    } else {
        scaled
    }
}

/// One raw container sample scaled to Q15: multiplied by
/// `SAMPLE_UNIT` and divided by `den` (half the sample's value range),
/// rounded toward zero.
fn scale_decoded(v: i32, den: u64) -> (r: i64)
    requires
        1 <= den,
    ensures
        r as int == spec_scaled(v as int, den as int),
{
    if v >= 0 {
        (((v as u64) * 32768) / den) as i64
    } else {
        -(((((-(v as i64)) as u64) * 32768) / den) as i64)
    }
}

impl AudioBuffer {
    /// Builds a mono 16 kHz buffer from the raw interleaved integer
    /// samples of a decoded container: scales them by half the value
    /// range of their bit depth, averages stereo pairs, and resamples
    /// to the backend rate when the container's rate differs.
    ///
    /// A bit depth of zero or above 32, or a sample rate of zero or
    /// above [`MAX_SAMPLE_RATE`], is an unsupported format; audio
    /// whose resampled length would exceed [`MAX_BUFFER_LEN`] is an
    /// audio-processing error.
    pub fn from_decoded(raw: Vec<i32>, bits_per_sample: u16, channels: u16, sample_rate: u32) -> (
        out: Result<AudioBuffer, WhisperError>)
        requires
            raw@.len() <= MAX_BUFFER_LEN,
            1 <= bits_per_sample <= 32 ==> forall|i: int|
                0 <= i < raw@.len() ==> spec_abs(raw@[i] as int) <= pow2(
                    (bits_per_sample - 1) as nat,
                ),
        ensures
            (sample_rate == 0 || sample_rate > MAX_SAMPLE_RATE) ==> out is Err
                && out->Err_0 is UnsupportedFormat,
            (1 <= sample_rate <= MAX_SAMPLE_RATE && (bits_per_sample == 0 || bits_per_sample > 32))
                ==> out is Err && out->Err_0 is UnsupportedFormat,
            (1 <= sample_rate <= MAX_SAMPLE_RATE && 1 <= bits_per_sample <= 32) ==> {
                let mono = spec_decoded(raw@, bits_per_sample as nat, channels as int);
                if spec_resampled_len(mono.len() as int, sample_rate as int, WHISPER_SAMPLE_RATE as int)
                    > MAX_BUFFER_LEN {
                    out is Err && out->Err_0 is AudioError
                } else {
                    out is Ok && out->Ok_0@ == spec_resample(
                        mono,
                        sample_rate as int,
                        WHISPER_SAMPLE_RATE as int,
                    ) && out->Ok_0.spec_rate() == WHISPER_SAMPLE_RATE && out->Ok_0.wf()
                }
            },
    {
        if sample_rate == 0 || sample_rate > MAX_SAMPLE_RATE {
            return Err(
                WhisperError::UnsupportedFormat(String::from_str("sample rate out of range")),
            );
        }
        if bits_per_sample == 0 || bits_per_sample > 32 {
            return Err(WhisperError::UnsupportedFormat(String::from_str("bit depth out of range")));
        }
        let den: u64 = 1u64 << ((bits_per_sample - 1) as u64);
        proof {
            vstd::arithmetic::power2::lemma2_to64();
            vstd::bits::lemma_u64_shl_is_mul(1u64, (bits_per_sample - 1) as u64);
            assert(den == pow2((bits_per_sample - 1) as nat));
        }
        let n = raw.len();
        let ghost denom = pow2((bits_per_sample - 1) as nat) as int;
        let ghost scaled_spec = Seq::new(
            raw@.len(),
            |i: int| spec_scaled(raw@[i] as int, denom) as i32,
        );
        let mut scaled: Vec<i32> = Vec::with_capacity(n);
        let mut i: usize = 0;
        while i < n
            invariant
                i <= n,
                n == raw@.len(),
                1 <= den,
                den == denom,
                forall|k: int| 0 <= k < n ==> spec_abs(raw@[k] as int) <= denom,
                scaled_spec == Seq::new(
                    raw@.len(),
                    |k: int| spec_scaled(raw@[k] as int, denom) as i32,
                ),
                scaled@.len() == i,
                forall|k: int| 0 <= k < i ==> scaled@[k] == scaled_spec[k],
            decreases n - i,
        {
            let v = raw[i];
            proof {
                lemma_scaled_magnitude(v as int, denom);
            }
            let q = scale_decoded(v, den);
            scaled.push(q as i32);
            i = i + 1;
        }
        proof {
            assert(scaled@ =~= scaled_spec);
        }
        let mono: Vec<i32> = if channels == 2 {
            let half = (n + 1) / 2;
            let mut mixed: Vec<i32> = Vec::with_capacity(half);
            let mut j: usize = 0;
            while j < half
                invariant
                    j <= half,
                    half == (scaled@.len() + 1) / 2,
                    scaled@.len() == n,
                    n <= MAX_BUFFER_LEN,
                    mixed@.len() == j,
                    forall|k: int| 0 <= k < j ==> mixed@[k] == spec_stereo_mix(scaled@)[k],
                decreases half - j,
            {
                let l = scaled[2 * j];
                let r = if 2 * j + 1 < n {
                    scaled[2 * j + 1]
                } else {
                    0
                };
                let m = avg_samples(l, r);
                mixed.push(m);
                j = j + 1;
            }
            proof {
                assert(mixed@ =~= spec_stereo_mix(scaled@));
            }
            mixed
        } else {
            scaled
        };
        proof {
            assert(mono@ == spec_decoded(raw@, bits_per_sample as nat, channels as int));
        }
        let mlen: u64 = mono.len() as u64;
        proof {
            assert(mono@.len() <= MAX_BUFFER_LEN);
            assert(mlen <= 0x4000_0000u64);
            assert(mlen * (WHISPER_SAMPLE_RATE as u64) <= 0x4000_0000 * 16000) by (nonlinear_arith)
                requires
                    0 <= mlen <= 0x4000_0000u64,
            ;
        }
        let out_len: u64 = (mlen * (WHISPER_SAMPLE_RATE as u64) + (sample_rate as u64) / 2) / (
        sample_rate as u64);
        if out_len > MAX_BUFFER_LEN as u64 {
            return Err(WhisperError::AudioError(String::from_str("audio too long to resample")));
        }
        let buf = AudioBuffer::from_samples(mono, sample_rate);
        let resampled = buf.resample(WHISPER_SAMPLE_RATE);
        Ok(resampled.unwrap())
    }
}

/// Resamples audio from its source rate to the backend's 16 kHz rate.
pub fn resample_to_16khz(samples: &Vec<i32>, source_rate: u32) -> (out: Vec<i32>)
    requires
        1 <= source_rate <= MAX_SAMPLE_RATE,
        samples@.len() <= MAX_BUFFER_LEN,
        spec_resampled_len(samples@.len() as int, source_rate as int, WHISPER_SAMPLE_RATE as int)
            <= MAX_BUFFER_LEN,
    ensures
        out@ == spec_resample(samples@, source_rate as int, WHISPER_SAMPLE_RATE as int),
{
    let buf = AudioBuffer::from_samples(
        vstd::slice::slice_to_vec(samples.as_slice()),
        source_rate,
    );
    let resampled = buf.resample(WHISPER_SAMPLE_RATE);
    resampled.unwrap().samples
}

/// Thread-safe audio recorder state.
#[derive(Debug)]
pub struct AudioRecorderState {
    /// Whether recording is active.
    pub is_recording: bool,
    /// The current audio buffer.
    pub buffer: AudioBuffer,
}

impl AudioRecorderState {
    /// A fresh recorder: not recording, empty buffer.
    pub fn new() -> (s: Self)
        ensures
            !s.is_recording,
            s.buffer@ == Seq::<i32>::empty(),
            s.buffer.spec_rate() == WHISPER_SAMPLE_RATE,
    {
        AudioRecorderState { is_recording: false, buffer: AudioBuffer::new() }
    }
}

} // verus!
