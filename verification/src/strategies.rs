use vstd::prelude::*;

verus! {

/// Granularity of one jitter sample: a sample `u` drawn from
/// `[-JITTER_UNIT, JITTER_UNIT]` stands for the real number `u / JITTER_UNIT`
/// in `[-1, 1]`.
pub const JITTER_UNIT: i64 = 1_000_000;

/// Declares rand's `StdRng` so a sampling source can own its generator.
/// The generator's state is opaque to the library; what the contracts say
/// of it goes through `SourceModel` and `draw_of`.
#[verifier::external_type_specification]
#[verifier::external_body]
pub struct ExStdRng(rand::rngs::StdRng);

/// The observable state of a jitter sampling source: the seed it was built
/// from, if one was fixed (`None` for an entropy-seeded source), and how
/// many draws have been taken from it.
pub struct SourceModel {
    pub seed: Option<u64>,
    pub taken: int,
}

/// The k-th jitter sample of the source seeded with `seed`: what
/// `sample_unit` returns on a seeded source, a function of the seed and the
/// draw index alone.
pub uninterp spec fn draw_of(seed: u64, k: int) -> int;

/// A jitter sampling source: rand's standard generator together with the
/// ghost model of where it stands. The fields stay private so that every
/// draw goes through `sample_unit` and the model keeps step with the
/// generator.
pub struct JitterSource {
    rng: rand::rngs::StdRng,
    model: Ghost<SourceModel>,
}

impl JitterSource {
    /// The source's seed, if fixed, and its position in the draw sequence.
    pub closed spec fn model(self) -> SourceModel {
        self.model@
    }
}

/// Relies on rand's `SeedableRng::seed_from_u64`: a fresh generator whose
/// draws are a function of the seed alone (what they are is stated at
/// `sample_unit`, through `draw_of`).
#[verifier::external_body]
fn rng_from_seed(seed: u64) -> rand::rngs::StdRng {
    <rand::rngs::StdRng as rand::SeedableRng>::seed_from_u64(seed)
}

/// Relies on rand's `SeedableRng::from_entropy`: a fresh generator built
/// from system entropy. Nothing is claimed about its draws.
#[verifier::external_body]
fn rng_from_entropy() -> rand::rngs::StdRng {
    <rand::rngs::StdRng as rand::SeedableRng>::from_entropy()
}

/// A source whose model stands at the seed's first draw, beside a generator
/// freshly built from that seed.
fn source_from_seed(seed: u64) -> (src: JitterSource)
    ensures
        src.model() == (SourceModel { seed: Option::Some(seed), taken: 0 }),
{
    JitterSource {
        rng: rng_from_seed(seed),
        model: Ghost(SourceModel { seed: Option::Some(seed), taken: 0 }),
    }
}

/// A source without a fixed seed, beside an entropy-built generator.
fn source_from_entropy() -> (src: JitterSource)
    ensures
        src.model().seed is None,
{
    JitterSource {
        rng: rng_from_entropy(),
        model: Ghost(SourceModel { seed: Option::None, taken: 0 }),
    }
}

/// Relies on rand's `Rng::gen_range` over a non-empty range — no panic, and
/// the result lies inside the bounds — and, for a seeded source, on
/// `StdRng`'s draws together with the uniform integer sampler being a
/// deterministic, platform-independent function of the seed and the draw
/// index, here named `draw_of`. The model's claim holds because this module
/// builds a `Some(seed)` model only beside a generator freshly seeded with
/// `seed` (`source_from_seed`), and every draw goes through this function.
#[verifier::external_body]
fn sample_unit(src: &mut JitterSource) -> (u: i64)
    ensures
        -JITTER_UNIT <= u <= JITTER_UNIT,
        final(src).model().seed == old(src).model().seed,
        final(src).model().taken == old(src).model().taken + 1,
        old(src).model().seed matches Some(s) ==> u as int == draw_of(
            s,
            old(src).model().taken,
        ),
{
    rand::Rng::gen_range(&mut src.rng, -JITTER_UNIT..=JITTER_UNIT)
}

/// Exponential backoff configuration. All durations are whole nanoseconds;
/// the growth factor is carried in hundredths (`200` means x2.0) and the
/// symmetric jitter fraction in thousandths (`50` means +-5%).
#[derive(Clone, Copy, Debug)]
pub struct ExpBackoffStrategy {
    pub min_nanos: u64,
    pub max_nanos: Option<u64>,
    pub factor_centi: u32,
    pub jitter_milli: u32,
    pub seed: Option<u64>,
}

/// One growth step of the base delay: multiply by the factor, saturating at
/// `u64::MAX`.
pub open spec fn step_base(b: u64, factor_centi: u32) -> u64 {
    let grown = (b as int) * (factor_centi as int) / 100;
    if grown > u64::MAX as int {
        u64::MAX as u64
    } else {
        grown as u64
    }
}

/// The base delay before the i-th attempt of a burst.
pub open spec fn base_at(min: u64, factor_centi: u32, i: nat) -> u64
    decreases i,
{
    if i == 0 {
        min
    } else {
        step_base(base_at(min, factor_centi, (i - 1) as nat), factor_centi)
    }
}

/// Apply the optional ceiling.
pub open spec fn capped(v: u64, max_nanos: Option<u64>) -> u64 {
    match max_nanos {
        Option::Some(c) => if v <= c { v } else { c },
        Option::None => v,
    }
}

/// The base delay `b` displaced by the jitter sample `u`: the displacement has
/// magnitude `b * (jitter_milli/1000) * (|u|/JITTER_UNIT)`, added for a
/// non-negative sample and subtracted for a negative one. A displacement that
/// would leave `[0, u64::MAX]` is clamped to the nearest bound; in particular
/// a jitter fraction above 1 can no longer produce a negative delay, it
/// produces zero.
pub open spec fn jittered(b: u64, jitter_milli: u32, u: int) -> u64 {
    let mag = (b as int) * (jitter_milli as int) * (if u >= 0 { u } else { -u }) / (1000
        * JITTER_UNIT as int);
    if u >= 0 {
        if b + mag > u64::MAX as int {
            u64::MAX as u64
        } else {
            (b + mag) as u64
        }
    } else {
        if b - mag < 0 {
            0u64
        } else {
            (b - mag) as u64
        }
    }
}

/// The delay produced from base `b` under jitter sample `u` and the ceiling.
pub open spec fn delay_from(b: u64, jitter_milli: u32, max_nanos: Option<u64>, u: int) -> u64 {
    capped(jittered(b, jitter_milli, u), max_nanos)
}

/// The next `n` delays a burst will produce from base `b` when the jitter
/// fraction is zero.
pub open spec fn delays_from(b: u64, s: ExpBackoffStrategy, n: nat) -> Seq<u64>
    decreases n,
{
    if n == 0 {
        Seq::empty()
    } else {
        seq![capped(b, s.max_nanos)] + delays_from(step_base(b, s.factor_centi), s, (n - 1) as nat)
    }
}

impl ExpBackoffStrategy {
    /// Creates a strategy with the given minimum delay (nanoseconds), growth
    /// factor (hundredths) and jitter fraction (thousandths), no ceiling and
    /// an entropy-seeded sampling source.
    pub fn new(min_nanos: u64, factor_centi: u32, jitter_milli: u32) -> (r: Self)
        ensures
            r == (ExpBackoffStrategy {
                min_nanos,
                max_nanos: Option::None,
                factor_centi,
                jitter_milli,
                seed: Option::None,
            }),
    {
        Self { min_nanos, max_nanos: None, factor_centi, jitter_milli, seed: None }
    }

    /// Sets the ceiling: no produced delay exceeds it.
    pub fn with_max(self, max_nanos: u64) -> (r: Self)
        ensures
            r == (ExpBackoffStrategy { max_nanos: Option::Some(max_nanos), ..self }),
    {
        Self { max_nanos: Some(max_nanos), ..self }
    }

    /// Sets a deterministic seed for the jitter sampling source.
    pub fn with_seed(self, seed: u64) -> (r: Self)
        ensures
            r == (ExpBackoffStrategy { seed: Option::Some(seed), ..self }),
    {
        Self { seed: Some(seed), ..self }
    }

    /// Builds the stateful iterator for one connect-retry burst, starting
    /// from the first (minimum) delay.
    pub fn into_iter(self) -> (it: ExpBackoffIter)
        ensures
            it.strategy == self,
            it.cur_base == self.min_nanos,
            self.seed matches Some(s) ==> it.source.model() == (SourceModel {
                seed: Option::Some(s),
                taken: 0,
            }),
            self.seed is None ==> it.source.model().seed is None,
    {
        let source = match self.seed {
            Some(seed) => source_from_seed(seed),
            None => source_from_entropy(),
        };
        ExpBackoffIter { strategy: self, cur_base: self.min_nanos, source }
    }
}

/// The default strategy: four seconds minimum, one minute ceiling, factor 2,
/// jitter +-5%, entropy-seeded.
pub open spec fn default_strategy() -> ExpBackoffStrategy {
    ExpBackoffStrategy {
        min_nanos: 4_000_000_000,
        max_nanos: Option::Some(60_000_000_000),
        factor_centi: 200,
        jitter_milli: 50,
        seed: Option::None,
    }
}

impl Default for ExpBackoffStrategy {
    /// Four seconds minimum, one minute ceiling, factor 2, jitter +-5%,
    /// entropy-seeded.
    fn default() -> (r: Self)
        ensures
            r == default_strategy(),
    {
        Self {
            min_nanos: 4_000_000_000,
            max_nanos: Some(60_000_000_000),
            factor_centi: 200,
            jitter_milli: 50,
            seed: None,
        }
    }
}

/// Restarting a delay iterator so it replays from its first duration.
pub trait ResetIterExt {
    fn reset(&mut self);
}

/// An infinite, restartable source of wait durations in nanoseconds.
pub trait DurationIteratorExt: ResetIterExt {
    fn next_delay(&mut self) -> u64;
}

/// Iterator producing the delays of one connect-retry burst.
pub struct ExpBackoffIter {
    pub strategy: ExpBackoffStrategy,
    pub cur_base: u64,
    pub source: JitterSource,
}

impl ExpBackoffIter {
    /// Replays the burst from the first duration. The sampling source keeps
    /// its state: only the growth is rewound.
    pub fn reset(&mut self)
        ensures
            final(self).strategy == old(self).strategy,
            final(self).cur_base == old(self).strategy.min_nanos,
            final(self).source == old(self).source,
    {
        self.cur_base = self.strategy.min_nanos;
    }

    /// Produces the next delay of the burst; the source is infinite, so there
    /// is always one. The result is the current base displaced by a fresh
    /// jitter sample and held under the ceiling; with a zero jitter fraction
    /// it is exactly the capped base.
    pub fn next(&mut self) -> (d: u64)
        ensures
            final(self).strategy == old(self).strategy,
            final(self).cur_base == step_base(old(self).cur_base, old(self).strategy.factor_centi),
            exists|u: int|
                -(JITTER_UNIT as int) <= u <= JITTER_UNIT as int && d == delay_from(
                    old(self).cur_base,
                    old(self).strategy.jitter_milli,
                    old(self).strategy.max_nanos,
                    u,
                ),
            old(self).strategy.max_nanos matches Some(c) ==> d <= c,
            old(self).strategy.jitter_milli == 0 ==> d == capped(
                old(self).cur_base,
                old(self).strategy.max_nanos,
            ),
            final(self).source.model().seed == old(self).source.model().seed,
            final(self).source.model().taken == old(self).source.model().taken + 1,
            old(self).source.model().seed matches Some(s) ==> d == delay_from(
                old(self).cur_base,
                old(self).strategy.jitter_milli,
                old(self).strategy.max_nanos,
                draw_of(s, old(self).source.model().taken),
            ),
    {
        let b = self.cur_base;
        let s = self.strategy;
        let u = sample_unit(&mut self.source);
        let ua: u64 = if u >= 0 {
            u as u64
        } else {
            (-u) as u64
        };
        proof {
            let bi = b as int;
            let ji = s.jitter_milli as int;
            let ui = ua as int;
            assert(bi * ji <= (u64::MAX as int) * (u32::MAX as int)) by (nonlinear_arith)
                requires
                    0 <= bi <= u64::MAX as int,
                    0 <= ji <= u32::MAX as int,
            ;
            assert(bi * ji * ui <= (u64::MAX as int) * (u32::MAX as int) * (JITTER_UNIT as int))
                by (nonlinear_arith)
                requires
                    0 <= bi * ji <= (u64::MAX as int) * (u32::MAX as int),
                    0 <= ui <= JITTER_UNIT as int,
            ;
        }
        let mag128: u128 = (b as u128) * (s.jitter_milli as u128) * (ua as u128) / (1000
            * (JITTER_UNIT as u128));
        let jit: u64 = if u >= 0 {
            if mag128 > (u64::MAX - b) as u128 {
                u64::MAX
            } else {
                b + (mag128 as u64)
            }
        } else {
            if mag128 > b as u128 {
                0
            } else {
                b - (mag128 as u64)
            }
        };
        let d = match s.max_nanos {
            Some(c) => if jit <= c {
                jit
            } else {
                c
            },
            None => jit,
        };
        proof {
            assert(jit == jittered(b, s.jitter_milli, u as int));
            assert(d == delay_from(b, s.jitter_milli, s.max_nanos, u as int));
            if s.jitter_milli == 0 {
                assert((b as int) * (s.jitter_milli as int) * (ua as int) == 0)
                    by (nonlinear_arith)
                    requires
                        s.jitter_milli == 0,
                ;
                assert(jit == b);
            }
        }
        self.cur_base = step_base_exec(b, s.factor_centi);
        d
    }
}

/// One growth step of the base delay, saturating at `u64::MAX`.
fn step_base_exec(b: u64, factor_centi: u32) -> (r: u64)
    ensures
        r == step_base(b, factor_centi),
{
    proof {
        assert((b as int) * (factor_centi as int) <= (u64::MAX as int) * (u32::MAX as int))
            by (nonlinear_arith)
            requires
                0 <= b <= u64::MAX,
                0 <= factor_centi <= u32::MAX,
        ;
    }
    let grown: u128 = (b as u128) * (factor_centi as u128) / 100;
    if grown > u64::MAX as u128 {
        u64::MAX
    } else {
        grown as u64
    }
}

impl ResetIterExt for ExpBackoffIter {
    /// The trait surface of `ExpBackoffIter::reset`, with its contract.
    fn reset(&mut self)
        ensures
            final(self).strategy == old(self).strategy,
            final(self).cur_base == old(self).strategy.min_nanos,
            final(self).source == old(self).source,
    {
        self.cur_base = self.strategy.min_nanos;
    }
}

impl DurationIteratorExt for ExpBackoffIter {
    /// The trait surface of `ExpBackoffIter::next`, with its contract.
    fn next_delay(&mut self) -> (d: u64)
        ensures
            final(self).strategy == old(self).strategy,
            final(self).cur_base == step_base(old(self).cur_base, old(self).strategy.factor_centi),
            exists|u: int|
                -(JITTER_UNIT as int) <= u <= JITTER_UNIT as int && d == delay_from(
                    old(self).cur_base,
                    old(self).strategy.jitter_milli,
                    old(self).strategy.max_nanos,
                    u,
                ),
            old(self).strategy.max_nanos matches Some(c) ==> d <= c,
            old(self).strategy.jitter_milli == 0 ==> d == capped(
                old(self).cur_base,
                old(self).strategy.max_nanos,
            ),
            old(self).source.model().seed matches Some(s) ==> d == delay_from(
                old(self).cur_base,
                old(self).strategy.jitter_milli,
                old(self).strategy.max_nanos,
                draw_of(s, old(self).source.model().taken),
            ),
    {
        self.next()
    }
}

/// Law: with a zero jitter fraction, an iterator that has just been reset
/// produces exactly the delays of a freshly built iterator of the same
/// strategy: both stand at the minimum base, and `next` returns the capped
/// base while stepping the base, so the upcoming delays of each are
/// `delays_from` of that shared state. With a positive jitter fraction the
/// values differ in general, because a reset keeps the sampling source's
/// state while a fresh build restarts it.
pub proof fn lemma_reset_replays(fresh: ExpBackoffIter, used: ExpBackoffIter, n: nat)
    requires
        fresh.strategy == used.strategy,
        fresh.strategy.jitter_milli == 0,
        fresh.cur_base == fresh.strategy.min_nanos,
        used.cur_base == used.strategy.min_nanos,
    ensures
        delays_from(fresh.cur_base, fresh.strategy, n) == delays_from(
            used.cur_base,
            used.strategy,
            n,
        ),
{
}

/// The next `n` delays of a burst whose source was seeded: from base `b`
/// with the source about to take draw `k`, each delay applies that draw and
/// the base steps, whatever the jitter fraction.
pub open spec fn seeded_delays(b: u64, s: ExpBackoffStrategy, seed: u64, k: int, n: nat) -> Seq<
    u64,
>
    decreases n,
{
    if n == 0 {
        Seq::empty()
    } else {
        seq![delay_from(b, s.jitter_milli, s.max_nanos, draw_of(seed, k))] + seeded_delays(
            step_base(b, s.factor_centi),
            s,
            seed,
            k + 1,
            (n - 1) as nat,
        )
    }
}

/// Law: determinism under a fixed seed. The upcoming delays of a seeded
/// burst are a function of the strategy, the base and the source's position
/// alone: `into_iter` puts every iterator of one seeded strategy at the
/// minimum base with the source before draw zero, and each `next` returns
/// the head of `seeded_delays` (its `draw_of` clause) while stepping the
/// base and the draw index — so two iterators built from the same seeded
/// strategy produce identical delay sequences.
pub proof fn lemma_seeded_determinism(a: ExpBackoffIter, b: ExpBackoffIter, seed: u64, n: nat)
    requires
        a.strategy == b.strategy,
        a.cur_base == b.cur_base,
        a.source.model() == b.source.model(),
        a.source.model().seed == Option::Some(seed),
    ensures
        seeded_delays(a.cur_base, a.strategy, seed, a.source.model().taken, n) == seeded_delays(
            b.cur_base,
            b.strategy,
            seed,
            b.source.model().taken,
            n,
        ),
{
}

} // verus!
