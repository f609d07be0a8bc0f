//! Time-based interpolation in fixed-point arithmetic.
//!
//! Time is counted in whole microseconds. Fractions of a whole (progress,
//! eased progress) and interpolated values are counted in millionths, so that
//! `UNIT` stands for one.

use vstd::prelude::*;

verus! {

/// One whole in the fixed-point scale.
pub const UNIT: u64 = 1_000_000;

/// The shape of the curve that maps elapsed fraction to eased progress.
#[derive(Clone, Copy, Debug, PartialEq, Eq, Structural)]
pub enum AnimationTimingFunction {
    Linear,
    Ease,
}

/// The smooth-step polynomial `t * t * (3 - 2 * t)` on fractions counted in
/// millionths, rounded down to a millionth.
pub open spec fn ease(t: int) -> int {
    (t * t * (3 * UNIT - 2 * t)) / (UNIT * UNIT)
}

/// A fraction cut off at one whole.
pub open spec fn capped(t: int) -> int {
    if t > UNIT { UNIT as int } else { t }
}

impl AnimationTimingFunction {
    /// Eased progress for the elapsed fraction `t`; fractions beyond one whole
    /// count as one whole.
    pub open spec fn spec_value(self, t: int) -> int {
        match self {
            AnimationTimingFunction::Linear => capped(t),
            AnimationTimingFunction::Ease => ease(capped(t)),
        }
    }

    /// Maps an elapsed fraction in millionths to eased progress in millionths.
    pub fn value(&self, duration_linear: u64) -> (r: u64)
        ensures
            r == self.spec_value(duration_linear as int),
            r <= UNIT,
    {
        let t: u64 = if duration_linear > UNIT { UNIT } else { duration_linear };
        match self {
            AnimationTimingFunction::Linear => t,
            AnimationTimingFunction::Ease => {
                proof {
                    lemma_ease_step_bounds(t as int);
                }
                let sq: u64 = t * t;
                let rest: u64 = 3 * UNIT - 2 * t;
                sq * rest / (UNIT * UNIT)
            },
        }
    }
}

/// The smooth-step polynomial before its division never falls between zero
/// and `u`: for `0 <= a <= b <= u`, `a * a * (3 * u - 2 * a)` is at most
/// `b * b * (3 * u - 2 * b)`.
proof fn lemma_smooth_step_rises(a: int, b: int, u: int)
    requires
        0 <= a <= b <= u,
    ensures
        a * a * (3 * u - 2 * a) <= b * b * (3 * u - 2 * b),
{
    let d = b - a;
    let s = a + b;
    let q = a * a + a * b + b * b;
    let k = 3 * (u * s) - 2 * q;
    // The difference of the two sides is d * k.
    assert(b * b - a * a == d * s) by (nonlinear_arith)
        requires
            d == b - a,
            s == a + b,
    ;
    assert(b * b * b - a * a * a == d * q) by (nonlinear_arith)
        requires
            d == b - a,
            q == a * a + a * b + b * b,
    ;
    assert(a * a * (3 * u - 2 * a) == 3 * (u * (a * a)) - 2 * (a * a * a)) by (nonlinear_arith);
    assert(b * b * (3 * u - 2 * b) == 3 * (u * (b * b)) - 2 * (b * b * b)) by (nonlinear_arith);
    assert(u * (b * b) - u * (a * a) == u * (d * s)) by (nonlinear_arith)
        requires
            b * b - a * a == d * s,
    ;
    assert(u * (d * s) == d * (u * s)) by (nonlinear_arith);
    assert(d * k == 3 * (d * (u * s)) - 2 * (d * q)) by (nonlinear_arith)
        requires
            k == 3 * (u * s) - 2 * q,
    ;
    assert(b * b * (3 * u - 2 * b) - a * a * (3 * u - 2 * a) == d * k);
    // Both factors are at least zero.
    assert(u * s >= b * s) by (nonlinear_arith)
        requires
            u >= b,
            s >= 0,
    ;
    assert(b * s == a * b + b * b) by (nonlinear_arith)
        requires
            s == a + b,
    ;
    assert(a * b >= a * a) by (nonlinear_arith)
        requires
            0 <= a <= b,
    ;
    assert(b * b >= a * a) by (nonlinear_arith)
        requires
            0 <= a <= b,
    ;
    assert(k >= 0);
    assert(d * k >= 0) by (nonlinear_arith)
        requires
            d >= 0,
            k >= 0,
    ;
}

/// Bounds on the intermediate products of the smooth-step polynomial.
proof fn lemma_ease_step_bounds(t: int)
    requires
        0 <= t <= UNIT,
    ensures
        0 <= t * t <= UNIT * UNIT,
        UNIT <= 3 * UNIT - 2 * t <= 3 * UNIT,
        0 <= t * t * (3 * UNIT - 2 * t) <= UNIT * UNIT * UNIT,
        0 <= ease(t) <= UNIT,
{
    let u = UNIT as int;
    let f = t * t * (3 * u - 2 * t);
    assert(0 <= t * t <= u * u) by (nonlinear_arith)
        requires
            0 <= t <= u,
    ;
    assert(0 <= f) by (nonlinear_arith)
        requires
            f == t * t * (3 * u - 2 * t),
            0 <= t * t,
            0 <= 3 * u - 2 * t,
    ;
    lemma_smooth_step_rises(t, u, u);
    assert(u * u * (3 * u - 2 * u) == u * u * u) by (nonlinear_arith);
    assert(u * u == 1_000_000_000_000) by (nonlinear_arith)
        requires
            u == 1_000_000,
    ;
    assert(u * u * u == 1_000_000_000_000_000_000) by (nonlinear_arith)
        requires
            u == 1_000_000,
    ;
    assert(0 <= f / 1_000_000_000_000 <= 1_000_000);
}

/// Linear interpolation from `a` to `b` at the fraction `p` (in millionths),
/// with the travelled distance rounded down.
pub open spec fn lerp(a: int, b: int, p: int) -> int {
    if b >= a {
        a + ((b - a) * p) / (UNIT as int)
    } else {
        a - ((a - b) * p) / (UNIT as int)
    }
}

/// The span that a requested duration gives: at least one microsecond, so
/// that a duration of zero finishes on the first advance.
pub open spec fn span_of(duration: nat) -> nat {
    if duration == 0 { 1 } else { duration }
}

/// The sum of a sequence of time steps.
pub open spec fn total(dts: Seq<nat>) -> nat
    decreases dts.len(),
{
    if dts.len() == 0 {
        0
    } else {
        total(dts.drop_last()) + dts.last()
    }
}

/// The clock of an animation: how far it has run, how long it runs and how
/// its progress is eased.
pub struct Timing {
    pub elapsed: nat,
    pub span: nat,
    pub curve: AnimationTimingFunction,
}

impl Timing {
    /// A clock runs for at least one microsecond and never stands past its
    /// end.
    pub open spec fn wf(self) -> bool {
        1 <= self.span && self.elapsed <= self.span
    }

    /// Whether the clock has reached its end.
    pub open spec fn is_done(self) -> bool {
        self.elapsed >= self.span
    }

    /// The elapsed fraction in millionths, rounded down.
    pub open spec fn percent(self) -> int {
        (self.elapsed * UNIT) / (self.span as int)
    }

    /// The eased fraction in millionths.
    pub open spec fn progress(self) -> int {
        self.curve.spec_value(self.percent())
    }

    /// The clock `dt` microseconds later; it stops at its end.
    pub open spec fn tick(self, dt: nat) -> Timing {
        Timing {
            elapsed: if self.elapsed + dt >= self.span { self.span } else { self.elapsed + dt },
            ..self
        }
    }

    /// The clock after the steps `dts`, taken one after the other.
    pub open spec fn tick_all(self, dts: Seq<nat>) -> Timing
        decreases dts.len(),
    {
        if dts.len() == 0 {
            self
        } else {
            self.tick_all(dts.drop_last()).tick(dts.last())
        }
    }

    /// The clock back at its start.
    pub open spec fn reset(self) -> Timing {
        Timing { elapsed: 0, ..self }
    }

    /// The clock at its end.
    pub open spec fn finish(self) -> Timing {
        Timing { elapsed: self.span, ..self }
    }

    /// The same clock stretched to another duration: the elapsed time keeps
    /// its proportion, rounded down.
    pub open spec fn with_duration(self, duration: nat) -> Timing {
        Timing {
            elapsed: (self.elapsed * span_of(duration)) / self.span,
            span: span_of(duration),
            ..self
        }
    }

    /// The same clock with another easing curve.
    pub open spec fn with_curve(self, curve: AnimationTimingFunction) -> Timing {
        Timing { curve, ..self }
    }
}

/// What every animation offers: a clock that is set up, advanced, rewound
/// and skipped to its end.
pub trait Animation: Sized {
    /// The clock of this animation.
    spec fn timing(&self) -> Timing;

    /// Sets the duration in microseconds; zero counts as one microsecond.
    fn duration(self, duration: u64) -> (r: Self)
        ensures
            r.timing() == self.timing().with_duration(duration as nat),
            r.timing().wf(),
    ;

    /// Sets the easing curve.
    fn timing_function(self, timing_function: AnimationTimingFunction) -> (r: Self)
        ensures
            r.timing() == self.timing().with_curve(timing_function),
            r.timing().wf(),
    ;

    /// Advances the clock by `dt` microseconds, stopping at the end, and
    /// returns a copy of the advanced animation.
    fn tick_dt(&mut self, dt: u64) -> (r: Self)
        ensures
            final(self).timing() == old(self).timing().tick(dt as nat),
            final(self).timing().wf(),
            r == *final(self),
    ;

    /// Rewinds the clock to the start and returns a copy.
    fn reset(&mut self) -> (r: Self)
        ensures
            final(self).timing() == old(self).timing().reset(),
            final(self).timing().wf(),
            r == *final(self),
    ;

    /// Skips the clock to the end and returns a copy.
    fn finish(&mut self) -> (r: Self)
        ensures
            final(self).timing() == old(self).timing().finish(),
            final(self).timing().wf(),
            r == *final(self),
    ;

    /// Whether the clock has reached the end.
    fn is_done(&self) -> (r: bool)
        ensures
            r == self.timing().is_done(),
    ;
}

/// The ghost picture of a scalar animation.
pub struct ValueModel {
    pub start: int,
    pub end: int,
    pub timing: Timing,
}

impl ValueModel {
    /// The current value: from `start` towards `end` by the eased progress.
    pub open spec fn value(self) -> int {
        lerp(self.start, self.end, self.timing.progress())
    }
}

/// A scalar that moves from a start value to an end value as time passes.
/// Values are fixed-point numbers in millionths.
#[derive(Clone, Copy, Debug, PartialEq, Eq)]
pub struct AnimateValue {
    start: i64,
    end: i64,
    elapsed: u64,
    duration: u64,
    timing_function: AnimationTimingFunction,
}

impl View for AnimateValue {
    type V = ValueModel;

    closed spec fn view(&self) -> ValueModel {
        ValueModel {
            start: self.start as int,
            end: self.end as int,
            timing: Timing {
                elapsed: self.elapsed as nat,
                span: self.duration as nat,
                curve: self.timing_function,
            },
        }
    }
}

impl AnimateValue {
    /// Every animation keeps a clock that is well formed: it runs for at
    /// least one microsecond and never stands past its end.
    #[verifier::type_invariant]
    pub open spec fn inv(self) -> bool {
        self@.timing.wf()
    }

    /// A fresh animation from zero to one whole, linear, of the shortest
    /// duration.
    pub fn new() -> (r: Self)
        ensures
            r@ == (ValueModel {
                start: 0,
                end: UNIT as int,
                timing: Timing { elapsed: 0, span: 1, curve: AnimationTimingFunction::Linear },
            }),
    {
        AnimateValue {
            start: 0,
            end: 1_000_000,
            elapsed: 0,
            duration: 1,
            timing_function: AnimationTimingFunction::Linear,
        }
    }

    /// Sets the value at the start.
    pub fn start(self, start: i64) -> (r: Self)
        ensures
            r@ == (ValueModel { start: start as int, ..self@ }),
    {
        proof {
            use_type_invariant(&self);
        }
        AnimateValue { start, ..self }
    }

    /// Sets the value at the end.
    pub fn end(self, end: i64) -> (r: Self)
        ensures
            r@ == (ValueModel { end: end as int, ..self@ }),
    {
        proof {
            use_type_invariant(&self);
        }
        AnimateValue { end, ..self }
    }

    /// The elapsed fraction in millionths, rounded down.
    pub fn percent(&self) -> (r: u64)
        ensures
            r == self@.timing.percent(),
            r <= UNIT,
    {
        proof {
            use_type_invariant(self);
        }
        let scaled: u128 = self.elapsed as u128 * UNIT as u128;
        let percent: u128 = scaled / self.duration as u128;
        assert(percent <= UNIT) by (nonlinear_arith)
            requires
                percent == (self.elapsed * UNIT) / (self.duration as int),
                self.elapsed <= self.duration,
                1 <= self.duration,
        ;
        percent as u64
    }

    /// The eased progress in millionths.
    pub fn progress(&self) -> (r: u64)
        ensures
            r == self@.timing.progress(),
            r <= UNIT,
    {
        self.timing_function.value(self.percent())
    }

    /// The current value in millionths.
    pub fn value(&self) -> (r: i64)
        ensures
            r == self@.value(),
    {
        interpolate(self.start, self.end, self.progress())
    }
}

/// Computes `lerp(a, b, p)` for a fraction of at most one whole.
fn interpolate(a: i64, b: i64, p: u64) -> (r: i64)
    requires
        p <= UNIT,
    ensures
        r == lerp(a as int, b as int, p as int),
{
    if b >= a {
        let dist: u128 = (b as i128 - a as i128) as u128;
        assert(dist * p <= 0xffff_ffff_ffff_ffff * 1_000_000) by (nonlinear_arith)
            requires
                0 <= dist <= 0xffff_ffff_ffff_ffff,
                0 <= p <= 1_000_000,
        ;
        let gone: u128 = dist * p as u128 / UNIT as u128;
        assert(gone <= dist) by (nonlinear_arith)
            requires
                gone == (dist * p) / (UNIT as int),
                p <= UNIT,
        ;
        (a as i128 + gone as i128) as i64
    } else {
        let dist: u128 = (a as i128 - b as i128) as u128;
        assert(dist * p <= 0xffff_ffff_ffff_ffff * 1_000_000) by (nonlinear_arith)
            requires
                0 <= dist <= 0xffff_ffff_ffff_ffff,
                0 <= p <= 1_000_000,
        ;
        let gone: u128 = dist * p as u128 / UNIT as u128;
        assert(gone <= dist) by (nonlinear_arith)
            requires
                gone == (dist * p) / (UNIT as int),
                p <= UNIT,
        ;
        (a as i128 - gone as i128) as i64
    }
}

impl Animation for AnimateValue {
    open spec fn timing(&self) -> Timing {
        self@.timing
    }

    fn duration(self, duration: u64) -> (r: Self)
        ensures
            r@ == (ValueModel { timing: self@.timing.with_duration(duration as nat), ..self@ }),
    {
        proof {
            use_type_invariant(&self);
        }
        let span: u64 = if duration == 0 { 1 } else { duration };
        assert(self.elapsed * span <= 0xffff_ffff_ffff_ffff * 0xffff_ffff_ffff_ffff)
            by (nonlinear_arith)
            requires
                0 <= self.elapsed <= 0xffff_ffff_ffff_ffff,
                0 <= span <= 0xffff_ffff_ffff_ffff,
        ;
        let scaled: u128 = self.elapsed as u128 * span as u128;
        let elapsed: u128 = scaled / self.duration as u128;
        assert(elapsed <= span) by (nonlinear_arith)
            requires
                elapsed == (self.elapsed * span) / (self.duration as int),
                self.elapsed <= self.duration,
                1 <= self.duration,
        ;
        AnimateValue { elapsed: elapsed as u64, duration: span, ..self }
    }

    fn timing_function(self, timing_function: AnimationTimingFunction) -> (r: Self)
        ensures
            r@ == (ValueModel { timing: self@.timing.with_curve(timing_function), ..self@ }),
    {
        proof {
            use_type_invariant(&self);
        }
        AnimateValue { timing_function, ..self }
    }

    fn tick_dt(&mut self, dt: u64) -> (r: Self)
        ensures
            final(self)@ == (ValueModel { timing: old(self)@.timing.tick(dt as nat), ..old(self)@ }),
    {
        proof {
            use_type_invariant(&*self);
        }
        if dt >= self.duration - self.elapsed {
            self.elapsed = self.duration;
        } else {
            self.elapsed = self.elapsed + dt;
        }
        *self
    }

    fn reset(&mut self) -> (r: Self)
        ensures
            final(self)@ == (ValueModel { timing: old(self)@.timing.reset(), ..old(self)@ }),
    {
        proof {
            use_type_invariant(&*self);
        }
        self.elapsed = 0;
        *self
    }

    fn finish(&mut self) -> (r: Self)
        ensures
            final(self)@ == (ValueModel { timing: old(self)@.timing.finish(), ..old(self)@ }),
    {
        proof {
            use_type_invariant(&*self);
        }
        self.elapsed = self.duration;
        *self
    }

    fn is_done(&self) -> (r: bool) {
        proof {
            use_type_invariant(self);
        }
        self.elapsed >= self.duration
    }
}

/// The ghost picture of a moving point.
pub struct PositionModel {
    pub start: (int, int),
    pub end: (int, int),
    pub timing: Timing,
}

impl PositionModel {
    /// The current point: each axis goes from its start to its end by the
    /// same eased progress.
    pub open spec fn pos(self) -> (int, int) {
        (
            lerp(self.start.0, self.end.0, self.timing.progress()),
            lerp(self.start.1, self.end.1, self.timing.progress()),
        )
    }
}

/// A point that moves from a start to an end as time passes; both axes share
/// one clock. Coordinates are fixed-point numbers in millionths.
#[derive(Clone, Copy, Debug, PartialEq, Eq)]
pub struct AnimatePosition {
    pub start: (i64, i64),
    pub end: (i64, i64),
    pub animation: AnimateValue,
}

impl View for AnimatePosition {
    type V = PositionModel;

    open spec fn view(&self) -> PositionModel {
        PositionModel {
            start: (self.start.0 as int, self.start.1 as int),
            end: (self.end.0 as int, self.end.1 as int),
            timing: self.animation@.timing,
        }
    }
}

impl AnimatePosition {
    /// A fresh animation that rests at the origin, linear, of the shortest
    /// duration.
    pub fn new() -> (r: Self)
        ensures
            r@ == (PositionModel {
                start: (0, 0),
                end: (0, 0),
                timing: Timing { elapsed: 0, span: 1, curve: AnimationTimingFunction::Linear },
            }),
            r.animation@.start == 0,
            r.animation@.end == UNIT,
    {
        AnimatePosition { start: (0, 0), end: (0, 0), animation: AnimateValue::new() }
    }

    /// Sets the point at the start.
    pub fn start(self, start: (i64, i64)) -> (r: Self)
        ensures
            r@ == (PositionModel { start: (start.0 as int, start.1 as int), ..self@ }),
            r.animation == self.animation,
    {
        AnimatePosition { start, ..self }
    }

    /// Sets the point at the end.
    pub fn end(self, end: (i64, i64)) -> (r: Self)
        ensures
            r@ == (PositionModel { end: (end.0 as int, end.1 as int), ..self@ }),
            r.animation == self.animation,
    {
        AnimatePosition { end, ..self }
    }

    /// The current point in millionths.
    pub fn pos(&self) -> (r: (i64, i64))
        ensures
            (r.0 as int, r.1 as int) == self@.pos(),
    {
        let p = self.animation.progress();
        let x = interpolate(self.start.0, self.end.0, p);
        let y = interpolate(self.start.1, self.end.1, p);
        (x, y)
    }
}

impl Animation for AnimatePosition {
    open spec fn timing(&self) -> Timing {
        self@.timing
    }

    fn duration(self, duration: u64) -> (r: Self)
        ensures
            r@ == (PositionModel { timing: self@.timing.with_duration(duration as nat), ..self@ }),
            r.animation@ == (ValueModel { timing: r@.timing, ..self.animation@ }),
    {
        AnimatePosition { animation: self.animation.duration(duration), ..self }
    }

    fn timing_function(self, timing_function: AnimationTimingFunction) -> (r: Self)
        ensures
            r@ == (PositionModel { timing: self@.timing.with_curve(timing_function), ..self@ }),
            r.animation@ == (ValueModel { timing: r@.timing, ..self.animation@ }),
    {
        AnimatePosition { animation: self.animation.timing_function(timing_function), ..self }
    }

    fn tick_dt(&mut self, dt: u64) -> (r: Self)
        ensures
            final(self)@ == (PositionModel { timing: old(self)@.timing.tick(dt as nat), ..old(self)@ }),
            final(self).animation@ == (ValueModel {
                timing: final(self)@.timing,
                ..old(self).animation@
            }),
    {
        self.animation.tick_dt(dt);
        *self
    }

    fn reset(&mut self) -> (r: Self)
        ensures
            final(self)@ == (PositionModel { timing: old(self)@.timing.reset(), ..old(self)@ }),
            final(self).animation@ == (ValueModel {
                timing: final(self)@.timing,
                ..old(self).animation@
            }),
    {
        self.animation.reset();
        *self
    }

    fn finish(&mut self) -> (r: Self)
        ensures
            final(self)@ == (PositionModel { timing: old(self)@.timing.finish(), ..old(self)@ }),
            final(self).animation@ == (ValueModel {
                timing: final(self)@.timing,
                ..old(self).animation@
            }),
    {
        self.animation.finish();
        *self
    }

    fn is_done(&self) -> (r: bool) {
        self.animation.is_done()
    }
}

/// Both curves start at zero and end at one whole.
pub proof fn lemma_curve_endpoints(curve: AnimationTimingFunction)
    ensures
        curve.spec_value(0) == 0,
        curve.spec_value(UNIT as int) == UNIT,
{
    let u = UNIT as int;
    assert(u * u == 1_000_000_000_000) by (nonlinear_arith)
        requires
            u == 1_000_000,
    ;
    assert(0int * 0int * (3 * u - 2 * 0int) == 0) by (nonlinear_arith);
    assert(u * u * (3 * u - 2 * u) == 1_000_000_000_000_000_000) by (nonlinear_arith)
        requires
            u == 1_000_000,
    ;
    assert(ease(0) == 0);
    assert(ease(u) == u);
}

/// The linear curve is the identity on fractions of at most one whole.
pub proof fn lemma_linear_is_identity(t: int)
    requires
        0 <= t <= UNIT,
    ensures
        AnimationTimingFunction::Linear.spec_value(t) == t,
{
}

/// Both curves never fall as the elapsed fraction grows from zero to one
/// whole, and stay between zero and one whole.
pub proof fn lemma_curve_monotone(curve: AnimationTimingFunction, a: int, b: int)
    requires
        0 <= a <= b <= UNIT,
    ensures
        0 <= curve.spec_value(a) <= curve.spec_value(b) <= UNIT,
{
    let u = UNIT as int;
    lemma_ease_step_bounds(a);
    lemma_ease_step_bounds(b);
    lemma_smooth_step_rises(a, b, u);
    let fa = a * a * (3 * u - 2 * a);
    let fb = b * b * (3 * u - 2 * b);
    assert(fa / (u * u) <= fb / (u * u)) by (nonlinear_arith)
        requires
            fa <= fb,
            u > 0,
    ;
}

/// An interpolation starts at `a`, ends at `b` and stays between the two.
pub proof fn lemma_lerp_range(a: int, b: int, p: int)
    requires
        0 <= p <= UNIT,
    ensures
        lerp(a, b, 0) == a,
        lerp(a, b, UNIT as int) == b,
        a <= b ==> a <= lerp(a, b, p) <= b,
        b <= a ==> b <= lerp(a, b, p) <= a,
{
    let u = UNIT as int;
    if b >= a {
        let d = b - a;
        assert(0 <= (d * p) / u <= d) by (nonlinear_arith)
            requires
                0 <= d,
                0 <= p <= u,
                u > 0,
        ;
        assert((d * 0) / u == 0);
        assert((d * u) / u == d) by (nonlinear_arith)
            requires
                u > 0,
        ;
    } else {
        let d = a - b;
        assert(0 <= (d * p) / u <= d) by (nonlinear_arith)
            requires
                0 <= d,
                0 <= p <= u,
                u > 0,
        ;
        assert((d * 0) / u == 0);
        assert((d * u) / u == d) by (nonlinear_arith)
            requires
                u > 0,
        ;
    }
}

/// The elapsed fraction lies between zero and one whole, and an animation is
/// done exactly when the fraction has reached one whole.
pub proof fn lemma_done_iff_full(m: Timing)
    requires
        m.wf(),
    ensures
        0 <= m.percent() <= UNIT,
        m.is_done() <==> m.percent() >= UNIT,
        m.elapsed == 0 ==> m.percent() == 0,
{
    let e = m.elapsed as int;
    let s = m.span as int;
    let u = UNIT as int;
    assert(0 <= (e * u) / s <= u) by (nonlinear_arith)
        requires
            0 <= e <= s,
            1 <= s,
            u >= 0,
    ;
    if e < s {
        assert((e * u) / s < u) by (nonlinear_arith)
            requires
                0 <= e < s,
                u > 0,
        ;
    } else {
        assert((s * u) / s == u) by (nonlinear_arith)
            requires
                1 <= s,
        ;
    }
    if e == 0 {
        assert((0 * u) / s == 0) by (nonlinear_arith)
            requires
                1 <= s,
        ;
    }
}

/// Advancing step by step comes to the same as advancing once by the sum of
/// the steps: the clock stands at the sum, or at its end if the sum passes it.
pub proof fn lemma_tick_all_sums(m: Timing, dts: Seq<nat>)
    requires
        m.wf(),
    ensures
        m.tick_all(dts) == m.tick(total(dts)),
        m.tick_all(dts).wf(),
    decreases dts.len(),
{
    if dts.len() > 0 {
        lemma_tick_all_sums(m, dts.drop_last());
    }
}

/// However a stretch of time is cut into steps, the animation ends in the
/// same state.
pub proof fn lemma_chunking_is_immaterial(m: Timing, first: Seq<nat>, second: Seq<nat>)
    requires
        m.wf(),
        total(first) == total(second),
    ensures
        m.tick_all(first) == m.tick_all(second),
{
    lemma_tick_all_sums(m, first);
    lemma_tick_all_sums(m, second);
}

/// Steps that add up to exactly the duration bring an animation to one
/// whole, however they are cut.
pub proof fn lemma_exact_duration_reaches_one(m: Timing, dts: Seq<nat>)
    requires
        m.wf(),
        total(dts) == m.span,
    ensures
        m.tick_all(dts).percent() == UNIT,
        m.tick_all(dts).is_done(),
{
    lemma_tick_all_sums(m, dts);
    lemma_done_iff_full(m.tick_all(dts));
}

/// Once the steps add up to the duration or more, the animation is done and
/// its value is the end value.
pub proof fn lemma_enough_time_finishes(v: ValueModel, dts: Seq<nat>)
    requires
        v.timing.wf(),
        total(dts) >= v.timing.span,
    ensures
        v.timing.tick_all(dts).is_done(),
        (ValueModel { timing: v.timing.tick_all(dts), ..v }).value() == v.end,
{
    let after = v.timing.tick_all(dts);
    lemma_tick_all_sums(v.timing, dts);
    lemma_done_iff_full(after);
    lemma_curve_endpoints(after.curve);
    lemma_lerp_range(v.start, v.end, UNIT as int);
}

/// A moving point whose clock is done rests at its end.
pub proof fn lemma_done_rests_at_end(p: PositionModel)
    requires
        p.timing.wf(),
        p.timing.is_done(),
    ensures
        p.pos() == p.end,
{
    lemma_done_iff_full(p.timing);
    lemma_curve_endpoints(p.timing.curve);
    lemma_lerp_range(p.start.0, p.end.0, UNIT as int);
    lemma_lerp_range(p.start.1, p.end.1, UNIT as int);
}

/// Advancing a finished animation changes nothing.
pub proof fn lemma_tick_idempotent_when_done(m: Timing, dt: nat)
    requires
        m.wf(),
        m.is_done(),
    ensures
        m.tick(dt) == m,
{
}

} // verus!
