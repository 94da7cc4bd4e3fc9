//! Look-ahead peak limiter for the outbound microphone signal, in fixed point.
//!
//! Levels are fractions of full scale in units of 1/10000; gains are Q16
//! fractions, where 65536 is unity. The signal is delayed by the look-ahead
//! window so that the gain can come down before a peak leaves the limiter.
use std::collections::VecDeque;
use vstd::prelude::*;

verus! {

/// Unity gain in Q16.
pub const UNITY_GAIN: u32 = 65536;

/// Lowest threshold accepted, in 1/10000 of full scale (0.01).
pub const MIN_THRESHOLD: u32 = 100;

/// Highest threshold accepted, in 1/10000 of full scale (1.0).
pub const MAX_THRESHOLD: u32 = 10000;

/// The threshold limited to the accepted range.
pub open spec fn clamp_threshold(t: u32) -> u32 {
    if t < MIN_THRESHOLD {
        MIN_THRESHOLD
    } else if t > MAX_THRESHOLD {
        MAX_THRESHOLD
    } else {
        t
    }
}

/// The output ceiling for a threshold: round(threshold * 32767).
pub open spec fn ceiling_of(t: u32) -> int {
    (t * 32767 + 5000) / 10000
}

/// Look-ahead length for a sample rate: 0.5 ms of audio, one sample at least.
pub open spec fn lookahead_of(rate: u32) -> int {
    if rate / 2000 < 1 {
        1
    } else {
        (rate / 2000) as int
    }
}

/// One-pole coefficient in Q16 for a time constant of `n` samples: 1/n.
pub open spec fn coefficient_of(n: int) -> int {
    if n < 1 {
        65536
    } else {
        65536int / n
    }
}

/// Attack time constant in samples: 0.1 ms.
pub open spec fn attack_samples(rate: u32) -> int {
    (rate / 10000) as int
}

/// Release time constant in samples: 50 ms.
pub open spec fn release_samples(rate: u32) -> int {
    (rate / 20) as int
}

/// Magnitude of a sample.
pub open spec fn abs16(x: i16) -> int {
    if x < 0 {
        -x
    } else {
        x as int
    }
}

/// The largest magnitude in `s` (0 for an empty sequence).
pub open spec fn max_abs(s: Seq<i16>) -> int
    decreases s.len(),
{
    if s.len() == 0 {
        0
    } else {
        let m = max_abs(s.drop_last());
        if abs16(s.last()) > m {
            abs16(s.last())
        } else {
            m
        }
    }
}

/// Gain that brings a peak of `peak` (out of 32768) down to the threshold
/// `t`, or unity where the peak does not exceed it.
pub open spec fn target_gain(peak: int, t: u32) -> int {
    if peak * 10000 > t * 32768 {
        (t * 32768 * 65536) / (peak * 10000)
    } else {
        65536
    }
}

/// One step of the envelope toward `target`: by the attack coefficient when
/// it falls, by the release coefficient when it rises, at least one unit, and
/// never past the target.
pub open spec fn follow(env: int, target: int, attack: int, release: int) -> int {
    if target < env {
        let step = (env - target) * attack / 65536;
        let s = if step < 1 {
            1
        } else {
            step
        };
        if env - s < target {
            target
        } else {
            env - s
        }
    } else if target > env {
        let step = (target - env) * release / 65536;
        let s = if step < 1 {
            1
        } else {
            step
        };
        if env + s > target {
            target
        } else {
            env + s
        }
    } else {
        env
    }
}

/// A sample scaled by the Q16 gain `env` (toward zero), kept in the sample
/// range, then hard-clipped to plus or minus `ceiling`.
pub open spec fn shape(x: i16, env: int, ceiling: int) -> i16 {
    let m = abs16(x) * env / 65536;
    let v = if x < 0 {
        -m
    } else {
        m
    };
    let c = if v < -32768 {
        -32768
    } else if v > 32767 {
        32767
    } else {
        v
    };
    (if c > ceiling {
        ceiling
    } else if c < -ceiling {
        -ceiling
    } else {
        c
    }) as i16
}

/// One step of a limiter with these settings, delay line and envelope.
pub open spec fn step_spec(
    t: u32,
    ceiling: int,
    lookahead: int,
    attack: int,
    release: int,
    delayed: Seq<i16>,
    env: int,
    x: i16,
) -> (Seq<i16>, int, i16) {
    let q = delayed.push(x);
    if q.len() <= lookahead {
        (q, env, 0i16)
    } else {
        let e = follow(env, target_gain(max_abs(q), t), attack, release);
        (q.drop_first(), e, shape(q[0], e, ceiling))
    }
}

/// Steps over `xs` in order, collecting the outputs.
pub open spec fn run_spec(
    t: u32,
    ceiling: int,
    lookahead: int,
    attack: int,
    release: int,
    delayed: Seq<i16>,
    env: int,
    xs: Seq<i16>,
) -> (Seq<i16>, int, Seq<i16>)
    decreases xs.len(),
{
    if xs.len() == 0 {
        (delayed, env, Seq::empty())
    } else {
        let (d, e, out) = run_spec(t, ceiling, lookahead, attack, release, delayed, env, xs.drop_last());
        let (d2, e2, o) = step_spec(t, ceiling, lookahead, attack, release, d, e, xs.last());
        (d2, e2, out.push(o))
    }
}

/// The limiter. Its state is the delay line and the envelope; its settings
/// stay as built.
pub struct PeakLimiter {
    threshold: u32,
    ceiling: u32,
    lookahead: usize,
    attack: u32,
    release: u32,
    envelope: u32,
    delay: VecDeque<i16>,
}

impl PeakLimiter {
    /// Threshold in 1/10000 of full scale.
    pub closed spec fn spec_threshold(&self) -> u32 {
        self.threshold
    }

    /// Largest magnitude of an output sample.
    pub closed spec fn spec_ceiling(&self) -> int {
        self.ceiling as int
    }

    /// Length of the look-ahead window in samples.
    pub closed spec fn spec_lookahead(&self) -> int {
        self.lookahead as int
    }

    /// Attack coefficient, Q16.
    pub closed spec fn spec_attack(&self) -> int {
        self.attack as int
    }

    /// Release coefficient, Q16.
    pub closed spec fn spec_release(&self) -> int {
        self.release as int
    }

    /// Current gain of the envelope, Q16.
    pub closed spec fn spec_envelope(&self) -> int {
        self.envelope as int
    }

    /// The samples in the delay line, oldest first.
    pub closed spec fn delayed(&self) -> Seq<i16> {
        self.delay@
    }

    /// Delay line, envelope and output after feeding `x`: silence while the
    /// delay line is not longer than the look-ahead; then the oldest sample
    /// leaves, shaped by the envelope after one step toward the gain that the
    /// window's peak calls for.
    pub open spec fn step(&self, x: i16) -> (Seq<i16>, int, i16) {
        step_spec(
            self.spec_threshold(),
            self.spec_ceiling(),
            self.spec_lookahead(),
            self.spec_attack(),
            self.spec_release(),
            self.delayed(),
            self.spec_envelope(),
            x,
        )
    }

    /// Delay line, envelope and outputs after feeding `xs` one after another.
    pub open spec fn run(&self, xs: Seq<i16>) -> (Seq<i16>, int, Seq<i16>) {
        run_spec(
            self.spec_threshold(),
            self.spec_ceiling(),
            self.spec_lookahead(),
            self.spec_attack(),
            self.spec_release(),
            self.delayed(),
            self.spec_envelope(),
            xs,
        )
    }

    /// Settings in range, envelope in (0, 1], delay line no longer than the look-ahead.
    pub closed spec fn wf(&self) -> bool {
        &&& MIN_THRESHOLD <= self.threshold <= MAX_THRESHOLD
        &&& self.ceiling == ceiling_of(self.threshold)
        &&& 1 <= self.lookahead
        &&& self.attack <= 65536
        &&& self.release <= 65536
        &&& 1 <= self.envelope <= 65536
        &&& self.delay@.len() <= self.lookahead
    }

    /// A limiter for the threshold `threshold` (1/10000 of full scale, clamped
    /// to 100..=10000) at `sample_rate` Hz, with unity gain and an empty delay line.
    pub fn new(threshold: u32, sample_rate: u32) -> (r: PeakLimiter)
        ensures
            r.wf(),
            r.spec_threshold() == clamp_threshold(threshold),
            r.spec_ceiling() == ceiling_of(clamp_threshold(threshold)),
            r.spec_lookahead() == lookahead_of(sample_rate),
            r.spec_attack() == coefficient_of(attack_samples(sample_rate)),
            r.spec_release() == coefficient_of(release_samples(sample_rate)),
            r.spec_envelope() == 65536,
            r.delayed() == Seq::<i16>::empty(),
    {
        let t = if threshold < MIN_THRESHOLD {
            MIN_THRESHOLD
        } else if threshold > MAX_THRESHOLD {
            MAX_THRESHOLD
        } else {
            threshold
        };
        let ceiling = ((t as u64 * 32767 + 5000) / 10000) as u32;
        let lookahead: usize = if sample_rate / 2000 < 1 {
            1
        } else {
            (sample_rate / 2000) as usize
        };
        PeakLimiter {
            threshold: t,
            ceiling,
            lookahead,
            attack: coefficient(sample_rate / 10000),
            release: coefficient(sample_rate / 20),
            envelope: UNITY_GAIN,
            delay: VecDeque::new(),
        }
    }

    /// The threshold in effect, in 1/10000 of full scale.
    pub fn threshold(&self) -> (r: u32)
        ensures
            r == self.spec_threshold(),
    {
        self.threshold
    }

    /// The largest magnitude an output sample can have.
    pub fn ceiling(&self) -> (r: u32)
        ensures
            r == self.spec_ceiling(),
    {
        self.ceiling
    }

    /// Length of the look-ahead window in samples.
    pub fn lookahead_samples(&self) -> (r: usize)
        ensures
            r == self.spec_lookahead(),
    {
        self.lookahead
    }

    /// Current gain of the envelope, Q16.
    pub fn envelope(&self) -> (r: u32)
        ensures
            r == self.spec_envelope(),
    {
        self.envelope
    }

    /// Feeds one sample and returns the sample leaving the delay line, shaped
    /// by the envelope; silence while the delay line fills.
    pub fn process(&mut self, sample: i16) -> (r: i16)
        requires
            old(self).wf(),
        ensures
            final(self).wf(),
            final(self).spec_threshold() == old(self).spec_threshold(),
            final(self).spec_ceiling() == old(self).spec_ceiling(),
            final(self).spec_lookahead() == old(self).spec_lookahead(),
            final(self).spec_attack() == old(self).spec_attack(),
            final(self).spec_release() == old(self).spec_release(),
            ({
                let (d, e, o) = old(self).step(sample);
                &&& final(self).delayed() == d
                &&& final(self).spec_envelope() == e
                &&& r == o
            }),
            abs16(r) <= old(self).spec_ceiling(),
    {
        self.delay.push_back(sample);
        if self.delay.len() <= self.lookahead {
            return 0;
        }
        let ghost q = self.delay@;
        let peak = self.window_peak();
        let delayed = match self.delay.pop_front() {
            Some(x) => x,
            None => 0,
        };
        let target = gain_for_peak(peak, self.threshold);
        self.envelope = step_envelope(self.envelope, target, self.attack, self.release);
        apply_envelope(delayed, self.envelope, self.ceiling)
    }

    /// Largest magnitude in the delay line.
    fn window_peak(&self) -> (r: u32)
        ensures
            r == max_abs(self.delay@),
            r <= 32768,
    {
        let n = self.delay.len();
        let mut m: u32 = 0;
        let mut i: usize = 0;
        while i < n
            invariant
                n == self.delay@.len(),
                0 <= i <= n,
                m == max_abs(self.delay@.take(i as int)),
                m <= 32768,
            decreases n - i,
        {
            let x = self.delay[i];
            let a: u32 = if x < 0 {
                (-(x as i32)) as u32
            } else {
                x as u32
            };
            assert(self.delay@.take(i + 1).drop_last() =~= self.delay@.take(i as int));
            if a > m {
                m = a;
            }
            i = i + 1;
        }
        assert(self.delay@.take(n as int) =~= self.delay@);
        m
    }

    /// Restores unity gain and empties the delay line.
    pub fn reset(&mut self)
        requires
            old(self).wf(),
        ensures
            final(self).wf(),
            final(self).spec_threshold() == old(self).spec_threshold(),
            final(self).spec_ceiling() == old(self).spec_ceiling(),
            final(self).spec_lookahead() == old(self).spec_lookahead(),
            final(self).spec_attack() == old(self).spec_attack(),
            final(self).spec_release() == old(self).spec_release(),
            final(self).spec_envelope() == 65536,
            final(self).delayed() == Seq::<i16>::empty(),
    {
        self.envelope = UNITY_GAIN;
        self.delay.clear();
    }
}

/// Q16 coefficient for a time constant of `n` samples.
fn coefficient(n: u32) -> (r: u32)
    ensures
        r == coefficient_of(n as int),
        r <= 65536,
{
    if n < 1 {
        65536
    } else {
        65536 / n
    }
}

/// Gain that brings `peak` down to the threshold `t`.
fn gain_for_peak(peak: u32, t: u32) -> (r: u32)
    requires
        peak <= 32768,
        MIN_THRESHOLD <= t <= MAX_THRESHOLD,
    ensures
        r == target_gain(peak as int, t),
        1 <= r <= 65536,
{
    let p = peak as u64;
    let tt = t as u64;
    if p * 10000 > tt * 32768 {
        let num = tt * 32768 * 65536;
        let den = p * 10000;
        proof {
            assert(num / den <= 65536) by (nonlinear_arith)
                requires
                    den > tt * 32768,
                    num == tt * 32768 * 65536,
                    den > 0,
            {
                assert(num < den * 65536);
            }
            assert(num / den >= 1) by (nonlinear_arith)
                requires
                    num == tt * 32768 * 65536,
                    tt >= 100,
                    den == p * 10000,
                    p <= 32768,
                    den > 0,
            {
                assert(den <= num);
            }
        }
        (num / den) as u32
    } else {
        65536
    }
}

/// One step of the envelope toward `target`.
fn step_envelope(env: u32, target: u32, attack: u32, release: u32) -> (r: u32)
    requires
        1 <= env <= 65536,
        1 <= target <= 65536,
        attack <= 65536,
        release <= 65536,
    ensures
        r == follow(env as int, target as int, attack as int, release as int),
        1 <= r <= 65536,
{
    if target < env {
        let d = (env - target) as u64;
        assert(d * (attack as u64) <= 65536 * 65536) by (nonlinear_arith)
            requires
                d <= 65536,
                attack <= 65536,
        ;
        let step = d * (attack as u64) / 65536;
        assert(step <= d) by (nonlinear_arith)
            requires
                step == d * (attack as u64) / 65536,
                attack <= 65536,
        ;
        let s: u64 = if step < 1 {
            1
        } else {
            step
        };
        if (env as u64) < (target as u64) + s {
            target
        } else {
            (env as u64 - s) as u32
        }
    } else if target > env {
        let d = (target - env) as u64;
        assert(d * (release as u64) <= 65536 * 65536) by (nonlinear_arith)
            requires
                d <= 65536,
                release <= 65536,
        ;
        let step = d * (release as u64) / 65536;
        assert(step <= d) by (nonlinear_arith)
            requires
                step == d * (release as u64) / 65536,
                release <= 65536,
        ;
        let s: u64 = if step < 1 {
            1
        } else {
            step
        };
        if (env as u64) + s > (target as u64) {
            target
        } else {
            (env as u64 + s) as u32
        }
    } else {
        env
    }
}

/// Scales `x` by the Q16 gain `env` and clips it to plus or minus `ceiling`.
fn apply_envelope(x: i16, env: u32, ceiling: u32) -> (r: i16)
    requires
        env <= 65536,
        ceiling <= 32767,
    ensures
        r == shape(x, env as int, ceiling as int),
        abs16(r) <= ceiling,
{
    let a: u64 = if x < 0 {
        (-(x as i32)) as u64
    } else {
        x as u64
    };
    assert(a * (env as u64) <= 32768 * 65536) by (nonlinear_arith)
        requires
            a <= 32768,
            env <= 65536,
    ;
    let m = a * (env as u64) / 65536;
    assert(m <= a) by (nonlinear_arith)
        requires
            m == a * (env as u64) / 65536,
            env <= 65536,
    ;
    let v: i32 = if x < 0 {
        -(m as i32)
    } else {
        m as i32
    };
    let c: i32 = if v < -32768 {
        -32768
    } else if v > 32767 {
        32767
    } else {
        v
    };
    let lim = ceiling as i32;
    if c > lim {
        lim as i16
    } else if c < -lim {
        (-lim) as i16
    } else {
        c as i16
    }
}

/// A sample no louder than the threshold `t` and within the ceiling.
pub open spec fn quiet(x: i16, t: u32, ceiling: int) -> bool {
    abs16(x) * 10000 <= t * 32768 && abs16(x) <= ceiling
}

/// Transparency: a limiter at rest (unity gain, empty delay line) fed only
/// quiet samples keeps unity gain and, after the look-ahead, gives back
/// exactly what it was fed, `lookahead` samples later.
pub proof fn lemma_quiet_passes(
    t: u32,
    ceiling: int,
    lookahead: int,
    attack: int,
    release: int,
    xs: Seq<i16>,
)
    requires
        lookahead >= 1,
        0 <= ceiling <= 32767,
        forall|i: int| 0 <= i < xs.len() ==> quiet(#[trigger] xs[i], t, ceiling),
    ensures
        ({
            let (d, e, out) = run_spec(
                t,
                ceiling,
                lookahead,
                attack,
                release,
                Seq::empty(),
                65536,
                xs,
            );
            &&& e == 65536
            &&& d == (if xs.len() <= lookahead {
                xs
            } else {
                xs.subrange(xs.len() - lookahead, xs.len() as int)
            })
            &&& out == Seq::new(
                xs.len(),
                |i: int|
                    if i < lookahead {
                        0i16
                    } else {
                        xs[i - lookahead]
                    },
            )
        }),
    decreases xs.len(),
{
    if xs.len() > 0 {
        let prev = xs.drop_last();
        assert forall|i: int| 0 <= i < prev.len() implies quiet(#[trigger] prev[i], t, ceiling) by {
            assert(prev[i] == xs[i]);
        }
        lemma_quiet_passes(t, ceiling, lookahead, attack, release, prev);
        let (d, e, out) = run_spec(
            t,
            ceiling,
            lookahead,
            attack,
            release,
            Seq::empty(),
            65536,
            prev,
        );
        let x = xs.last();
        let q = d.push(x);
        let n = xs.len();
        let o = step_spec(t, ceiling, lookahead, attack, release, d, e, x).2;
        if q.len() <= lookahead {
            assert(q =~= xs);
            assert(o == 0);
        } else {
            assert(q =~= xs.subrange(n - 1 - lookahead, n as int));
            assert forall|i: int| 0 <= i < q.len() implies abs16(#[trigger] q[i]) * 10000 <= t
                * 32768 by {
                assert(q[i] == xs[n - 1 - lookahead + i]);
            }
            lemma_max_abs_quiet(q, t);
            assert(q[0] == xs[n - 1 - lookahead]);
            assert(abs16(q[0]) <= ceiling);
            assert(q.drop_first() =~= xs.subrange(n - lookahead, n as int));
            assert(target_gain(max_abs(q), t) == 65536);
            assert(abs16(q[0]) * 65536 / 65536 == abs16(q[0]));
            assert(o == xs[n - 1 - lookahead]);
        }
        assert(out.push(o) =~= Seq::new(
            xs.len(),
            |i: int|
                if i < lookahead {
                    0i16
                } else {
                    xs[i - lookahead]
                },
        ));
    }
}

/// Where every sample of `s` is no louder than the threshold `t`, the peak
/// of `s` calls for unity gain.
proof fn lemma_max_abs_quiet(s: Seq<i16>, t: u32)
    requires
        forall|i: int| 0 <= i < s.len() ==> abs16(#[trigger] s[i]) * 10000 <= t * 32768,
    ensures
        max_abs(s) * 10000 <= t * 32768,
    decreases s.len(),
{
    if s.len() > 0 {
        assert(abs16(s[s.len() - 1]) * 10000 <= t * 32768);
        lemma_max_abs_quiet(s.drop_last(), t);
    }
}

/// Running a limiter over `xs` gives one output per input.
pub proof fn lemma_run_len(
    t: u32,
    ceiling: int,
    lookahead: int,
    attack: int,
    release: int,
    delayed: Seq<i16>,
    env: int,
    xs: Seq<i16>,
)
    ensures
        run_spec(t, ceiling, lookahead, attack, release, delayed, env, xs).2.len() == xs.len(),
    decreases xs.len(),
{
    if xs.len() > 0 {
        lemma_run_len(t, ceiling, lookahead, attack, release, delayed, env, xs.drop_last());
    }
}

/// Warm-up: from an empty delay line, the first `lookahead` samples fed all
/// come out as silence; they wait in the delay line and the envelope stays
/// where it was.
pub proof fn lemma_warm_up(
    t: u32,
    ceiling: int,
    lookahead: int,
    attack: int,
    release: int,
    env: int,
    xs: Seq<i16>,
)
    requires
        xs.len() <= lookahead,
    ensures
        run_spec(t, ceiling, lookahead, attack, release, Seq::empty(), env, xs) == (
            xs,
            env,
            Seq::new(xs.len(), |i: int| 0i16),
        ),
    decreases xs.len(),
{
    if xs.len() > 0 {
        lemma_warm_up(t, ceiling, lookahead, attack, release, env, xs.drop_last());
        assert(xs.drop_last().push(xs.last()) =~= xs);
        assert(Seq::new((xs.len() - 1) as nat, |i: int| 0i16).push(0i16) =~= Seq::new(
            xs.len(),
            |i: int| 0i16,
        ));
    }
}

} // verus!
