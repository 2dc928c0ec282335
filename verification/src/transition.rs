//! The scalar interpolation engine: blends a single `i64` quantity between an
//! origin and a target value along a progress parameter, with an optional
//! easing curve and an optional asynchronous offset that delays the onset of
//! the blend.

use vstd::prelude::*;

verus! {

use vstd::arithmetic::div_mod::{lemma_div_is_ordered, lemma_div_multiples_vanish};

/// Number of millionths that make up a complete transition.  Progress is kept
/// as an exact count of millionths of the way from origin to target, so that
/// the endpoints and simple fractions are represented exactly.
pub const PROGRESS_SCALE: u32 = 1_000_000;

/// How far along a transition is: `0` means "still at the origin" and
/// `PROGRESS_SCALE` means "arrived at the target".
#[derive(Clone, Copy, Debug, PartialEq, Eq, Structural)]
pub struct Progress {
    pub millionths: u32,
}

impl Progress {
    /// A progress value is meaningful only inside the closed unit interval.
    pub open spec fn wf(&self) -> bool {
        self.millionths <= PROGRESS_SCALE
    }

    pub fn new(millionths: u32) -> (r: Progress)
        requires
            millionths <= PROGRESS_SCALE,
        ensures
            r.millionths == millionths,
            r.wf(),
    {
        Progress { millionths }
    }

    /// The start of a transition.
    pub fn zero() -> (r: Progress)
        ensures
            r.millionths == 0,
            r.wf(),
    {
        Progress { millionths: 0 }
    }

    /// The end of a transition.
    pub fn one() -> (r: Progress)
        ensures
            r.millionths == PROGRESS_SCALE,
            r.wf(),
    {
        Progress { millionths: PROGRESS_SCALE }
    }

    /// Build a progress value from a whole percentage, for callers that think
    /// of a transition as running from 0 to 100.
    pub fn from_percent(percent: u32) -> (r: Progress)
        requires
            percent <= 100,
        ensures
            r.millionths == percent * 10_000,
            r.wf(),
    {
        Progress { millionths: percent * 10_000 }
    }
}

/// A fixed easing curve applied to normalised progress before blending.
/// Absence of a curve means linear blending.
#[derive(Clone, Copy, Debug, PartialEq, Eq, Structural)]
pub enum Easing {
    /// Progress is cubed: the transition starts slowly and catches up steeply.
    CubicIn,
    /// Progress is raised to the fourth power.
    QuarticIn,
}

/// The cube of a progress value, renormalised to millionths and rounded down.
pub open spec fn cubed_millionths(t: int) -> int {
    (t * t * t) / ((PROGRESS_SCALE * PROGRESS_SCALE) as int)
}

/// The fourth power of a progress value, renormalised to millionths and
/// rounded down.
pub open spec fn quartic_millionths(t: int) -> int {
    (t * t * t * t) / ((PROGRESS_SCALE * PROGRESS_SCALE) as int * PROGRESS_SCALE as int)
}

/// Progress after the easing curve has been applied.
pub open spec fn eased_millionths(ease: Option<Easing>, t: int) -> int {
    match ease {
        None => t,
        Some(Easing::CubicIn) => cubed_millionths(t),
        Some(Easing::QuarticIn) => quartic_millionths(t),
    }
}

/// Every easing curve maps the unit interval into the unit interval.
pub proof fn lemma_eased_in_range(ease: Option<Easing>, t: int)
    requires
        0 <= t <= PROGRESS_SCALE,
    ensures
        0 <= eased_millionths(ease, t) <= PROGRESS_SCALE,
{
    let s = PROGRESS_SCALE as int;
    match ease {
        None => {}
        Some(Easing::CubicIn) => {
            assert(0 <= t * t * t <= (s * s) * s) by (nonlinear_arith)
                requires 0 <= t <= s;
            lemma_div_multiples_vanish(s, s * s);
            lemma_div_is_ordered(t * t * t, (s * s) * s, s * s);
            lemma_div_is_ordered(0, t * t * t, s * s);
        }
        Some(Easing::QuarticIn) => {
            assert(0 <= t * t * t * t <= ((s * s) * s) * s) by (nonlinear_arith)
                requires 0 <= t <= s;
            lemma_div_multiples_vanish(s, (s * s) * s);
            lemma_div_is_ordered(t * t * t * t, ((s * s) * s) * s, (s * s) * s);
            lemma_div_is_ordered(0, t * t * t * t, (s * s) * s);
        }
    }
}

/// Easing curves keep the order of progress values: later raw progress never
/// yields earlier eased progress.
pub proof fn lemma_eased_monotonic(ease: Option<Easing>, t1: int, t2: int)
    requires
        0 <= t1 <= t2,
    ensures
        eased_millionths(ease, t1) <= eased_millionths(ease, t2),
{
    match ease {
        None => {}
        Some(Easing::CubicIn) => {
            assert(t1 * t1 * t1 <= t2 * t2 * t2) by (nonlinear_arith)
                requires 0 <= t1 <= t2;
            lemma_div_is_ordered(t1 * t1 * t1, t2 * t2 * t2, (PROGRESS_SCALE * PROGRESS_SCALE) as int);
        }
        Some(Easing::QuarticIn) => {
            assert(t1 * t1 * t1 * t1 <= t2 * t2 * t2 * t2) by (nonlinear_arith)
                requires 0 <= t1 <= t2;
            lemma_div_is_ordered(
                t1 * t1 * t1 * t1,
                t2 * t2 * t2 * t2,
                (PROGRESS_SCALE * PROGRESS_SCALE) as int * PROGRESS_SCALE as int,
            );
        }
    }
}

/// Easing curves fix the endpoints: an untouched origin stays untouched and a
/// completed transition stays completed.
pub proof fn lemma_eased_endpoints(ease: Option<Easing>)
    ensures
        eased_millionths(ease, 0) == 0,
        eased_millionths(ease, PROGRESS_SCALE as int) == PROGRESS_SCALE as int,
{
    let s = PROGRESS_SCALE as int;
    match ease {
        None => {}
        Some(Easing::CubicIn) => {
            assert(s * s * s == (s * s) * s) by (nonlinear_arith);
            lemma_div_multiples_vanish(s, s * s);
        }
        Some(Easing::QuarticIn) => {
            assert(s * s * s * s == ((s * s) * s) * s) by (nonlinear_arith);
            lemma_div_multiples_vanish(s, (s * s) * s);
        }
    }
}

fn eased_exec(t: Progress, ease: Option<Easing>) -> (e: u32)
    requires
        t.wf(),
    ensures
        e == eased_millionths(ease, t.millionths as int),
        e <= PROGRESS_SCALE,
{
    proof {
        lemma_eased_in_range(ease, t.millionths as int);
    }
    match ease {
        None => t.millionths,
        Some(Easing::CubicIn) => {
            let n: u64 = t.millionths as u64;
            assert(n * n <= 1_000_000_000_000) by (nonlinear_arith)
                requires n <= 1_000_000;
            assert(n * n * n <= 1_000_000_000_000_000_000) by (nonlinear_arith)
                requires n <= 1_000_000;
            let n3: u64 = n * n * n;
            let e64: u64 = n3 / 1_000_000_000_000;
            e64 as u32
        }
        Some(Easing::QuarticIn) => {
            let n: u128 = t.millionths as u128;
            assert(n * n <= 1_000_000_000_000) by (nonlinear_arith)
                requires n <= 1_000_000;
            assert(n * n * n <= 1_000_000_000_000_000_000) by (nonlinear_arith)
                requires n <= 1_000_000;
            assert(n * n * n * n <= 1_000_000_000_000_000_000_000_000) by (nonlinear_arith)
                requires n <= 1_000_000;
            let n4: u128 = n * n * n * n;
            let e128: u128 = n4 / 1_000_000_000_000_000_000;
            e128 as u32
        }
    }
}

/// Where a blended value stands, given origin `a`, target `b` and an eased
/// progress of `e` millionths: the signed difference is scaled by `e` and
/// rounded towards zero, so the result always lies between `a` and `b`.
pub open spec fn lerp_spec(a: int, b: int, e: int) -> int {
    if b >= a {
        a + ((b - a) * e) / (PROGRESS_SCALE as int)
    } else {
        a - ((a - b) * e) / (PROGRESS_SCALE as int)
    }
}

proof fn lemma_scaled_delta_bounds(d: int, e: int)
    requires
        0 <= d,
        0 <= e <= PROGRESS_SCALE,
    ensures
        0 <= (d * e) / (PROGRESS_SCALE as int) <= d,
{
    let s = PROGRESS_SCALE as int;
    assert(0 <= d * e <= d * s) by (nonlinear_arith)
        requires 0 <= d, 0 <= e <= s;
    lemma_div_is_ordered(0, d * e, s);
    lemma_div_multiples_vanish(d, s);
    assert(d * s == s * d) by (nonlinear_arith);
    lemma_div_is_ordered(d * e, d * s, s);
}

/// Blend a single scalar quantity from `a` towards `b`.  With no easing curve
/// the blend is linear in the progress; with one, the eased progress is used
/// instead.
pub fn lerp(a: i64, b: i64, t: Progress, ease: Option<Easing>) -> (r: i64)
    requires
        t.wf(),
    ensures
        r == lerp_spec(a as int, b as int, eased_millionths(ease, t.millionths as int)),
{
    let e: u32 = eased_exec(t, ease);
    if b >= a {
        let d: u128 = (b as i128 - a as i128) as u128;
        assert(d * e < 0x1_0000_0000_0000_0000_0000_0000_0000) by (nonlinear_arith)
            requires d < 0x1_0000_0000_0000_0000_0000, e <= 0x10_0000;
        let q: u128 = d * (e as u128) / (PROGRESS_SCALE as u128);
        proof {
            lemma_scaled_delta_bounds(d as int, e as int);
        }
        (a as i128 + q as i128) as i64
    } else {
        let d: u128 = (a as i128 - b as i128) as u128;
        assert(d * e < 0x1_0000_0000_0000_0000_0000_0000_0000) by (nonlinear_arith)
            requires d < 0x1_0000_0000_0000_0000_0000, e <= 0x10_0000;
        let q: u128 = d * (e as u128) / (PROGRESS_SCALE as u128);
        proof {
            lemma_scaled_delta_bounds(d as int, e as int);
        }
        (a as i128 - q as i128) as i64
    }
}

/// At zero eased progress the blend returns exactly the origin.
pub proof fn lemma_lerp_at_zero(a: int, b: int)
    ensures
        lerp_spec(a, b, 0) == a,
{
}

/// At full eased progress the blend returns exactly the target.
pub proof fn lemma_lerp_at_full(a: int, b: int)
    ensures
        lerp_spec(a, b, PROGRESS_SCALE as int) == b,
{
    let s = PROGRESS_SCALE as int;
    if b >= a {
        lemma_div_multiples_vanish(b - a, s);
        assert((b - a) * s == s * (b - a)) by (nonlinear_arith);
    } else {
        lemma_div_multiples_vanish(a - b, s);
        assert((a - b) * s == s * (a - b)) by (nonlinear_arith);
    }
}

/// Blending a value with itself changes nothing, whatever the progress.
pub proof fn lemma_lerp_self(a: int, e: int)
    ensures
        lerp_spec(a, a, e) == a,
{
}

/// With both endpoints in order, the blended value never leaves the interval
/// between them.
pub proof fn lemma_lerp_in_range(a: int, b: int, e: int)
    requires
        a <= b,
        0 <= e <= PROGRESS_SCALE,
    ensures
        a <= lerp_spec(a, b, e) <= b,
{
    lemma_scaled_delta_bounds(b - a, e);
}

/// Linear blending is monotonic: when the origin does not exceed the target,
/// later eased progress never yields a smaller blended value.
pub proof fn lemma_lerp_monotonic(a: int, b: int, e1: int, e2: int)
    requires
        a <= b,
        0 <= e1 <= e2,
    ensures
        lerp_spec(a, b, e1) <= lerp_spec(a, b, e2),
{
    let s = PROGRESS_SCALE as int;
    assert((b - a) * e1 <= (b - a) * e2) by (nonlinear_arith)
        requires 0 <= b - a, 0 <= e1 <= e2;
    lemma_div_is_ordered((b - a) * e1, (b - a) * e2, s);
}

/// Progress after an asynchronous offset: zero until the raw progress reaches
/// the threshold, then a cubic ease-in of the raw progress.
pub open spec fn offset_millionths(t: int, offset: int) -> int {
    if t >= offset {
        cubed_millionths(t)
    } else {
        0
    }
}

/// Adjust raw progress for a field with an asynchronous offset: the field
/// does not move until the raw progress reaches the threshold, after which it
/// follows a fixed cubic ease-in curve.
pub fn offset_transition(transition: Progress, offset: Progress) -> (r: Progress)
    requires
        transition.wf(),
    ensures
        r.wf(),
        r.millionths == offset_millionths(transition.millionths as int, offset.millionths as int),
{
    if transition.millionths >= offset.millionths {
        let c = eased_exec(transition, Some(Easing::CubicIn));
        Progress { millionths: c }
    } else {
        Progress { millionths: 0 }
    }
}

/// The asynchronous offset keeps the order of progress values: later raw
/// progress never yields earlier adjusted progress.
pub proof fn lemma_offset_monotonic(t1: int, t2: int, offset: int)
    requires
        0 <= t1 <= t2,
    ensures
        offset_millionths(t1, offset) <= offset_millionths(t2, offset),
{
    if t1 >= offset {
        lemma_eased_monotonic(Some(Easing::CubicIn), t1, t2);
    } else if t2 >= offset {
        assert(0 <= t2 * t2 * t2) by (nonlinear_arith)
            requires 0 <= t2;
        lemma_div_is_ordered(0, t2 * t2 * t2, (PROGRESS_SCALE * PROGRESS_SCALE) as int);
    }
}

/// Asynchronous-offset options for a single scalar quantity: the quantity
/// holds its origin value until raw progress reaches the stored threshold.
#[derive(Clone, Copy, Debug)]
pub struct InterpolationAsyncOptions(pub Progress);

/// The progress actually fed into the blend, after any asynchronous offset.
pub open spec fn effective_millionths(t: int, asynchronous_options: Option<InterpolationAsyncOptions>) -> int {
    match asynchronous_options {
        None => t,
        Some(o) => offset_millionths(t, o.0.millionths as int),
    }
}

/// Blend a single scalar quantity, first adjusting the raw progress by the
/// optional asynchronous offset, then applying the optional easing curve.
pub fn interpolate_value(
    a: i64,
    b: i64,
    transition: Progress,
    ease: Option<Easing>,
    asynchronous_options: Option<InterpolationAsyncOptions>,
) -> (r: i64)
    requires
        transition.wf(),
    ensures
        r == lerp_spec(
            a as int,
            b as int,
            eased_millionths(ease, effective_millionths(transition.millionths as int, asynchronous_options)),
        ),
{
    let adjusted = match asynchronous_options {
        None => transition,
        Some(o) => offset_transition(transition, o.0),
    };
    lerp(a, b, adjusted, ease)
}

/// With linear blending and the origin not above the target, the blended
/// value is monotonic in the raw progress, with or without an asynchronous
/// offset.
pub proof fn lemma_interpolation_monotonic(
    a: int,
    b: int,
    t1: int,
    t2: int,
    asynchronous_options: Option<InterpolationAsyncOptions>,
)
    requires
        a <= b,
        0 <= t1 <= t2,
    ensures
        lerp_spec(a, b, effective_millionths(t1, asynchronous_options)) <= lerp_spec(
            a,
            b,
            effective_millionths(t2, asynchronous_options),
        ),
{
    match asynchronous_options {
        None => {
            lemma_lerp_monotonic(a, b, t1, t2);
        }
        Some(o) => {
            let offset = o.0.millionths as int;
            lemma_offset_monotonic(t1, t2, offset);
            if t1 >= offset {
                lemma_eased_monotonic(Some(Easing::CubicIn), 0, t1);
            }
            lemma_lerp_monotonic(
                a,
                b,
                offset_millionths(t1, offset),
                offset_millionths(t2, offset),
            );
        }
    }
}

} // verus!
