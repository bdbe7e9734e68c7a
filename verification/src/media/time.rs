//! Time bases, timestamps in ticks, media time in nanoseconds and the
//! conversions between them.
use vstd::arithmetic::div_mod::{lemma_fundamental_div_mod, lemma_fundamental_div_mod_converse};
use vstd::arithmetic::mul::lemma_mul_upper_bound;
use vstd::prelude::*;

verus! {

/// Greatest common divisor, by Euclid's algorithm.
pub open spec fn gcd_spec(a: nat, b: nat) -> nat
    decreases b,
{
    if b == 0 {
        a
    } else {
        gcd_spec(b, a % b)
    }
}

/// The greatest common divisor divides both arguments, and it is positive
/// whenever the first argument is.
pub proof fn lemma_gcd_divides(a: nat, b: nat)
    ensures
        a > 0 ==> gcd_spec(a, b) > 0,
        gcd_spec(a, b) > 0 ==> a % gcd_spec(a, b) == 0,
        gcd_spec(a, b) > 0 ==> b % gcd_spec(a, b) == 0,
    decreases b,
{
    if b == 0 {
        if a > 0 {
            lemma_fundamental_div_mod_converse(a as int, a as int, 1, 0);
            lemma_fundamental_div_mod_converse(0, a as int, 0, 0);
        }
    } else {
        let r = a % b;
        lemma_gcd_divides(b, r);
        let g = gcd_spec(b, r);
        if g > 0 {
            lemma_fundamental_div_mod(b as int, g as int);
            lemma_fundamental_div_mod(r as int, g as int);
            lemma_fundamental_div_mod(a as int, b as int);
            let x = b as int / g as int;
            let y = r as int / g as int;
            let q = a as int / b as int;
            assert(a as int == (x * q + y) * g + 0) by (nonlinear_arith)
                requires
                    b as int == g * x,
                    r as int == g * y,
                    a as int == b * q + r,
            ;
            lemma_fundamental_div_mod_converse(a as int, g as int, x * q + y, 0);
        }
    }
}

/// Scaling both arguments by `k` scales their greatest common divisor by
/// `k`.
pub proof fn lemma_gcd_scale(k: nat, x: nat, y: nat)
    requires
        k > 0,
    ensures
        gcd_spec(k * x, k * y) == k * gcd_spec(x, y),
    decreases y,
{
    if y == 0 {
        assert(k * y == 0) by (nonlinear_arith)
            requires
                y == 0,
        ;
    } else {
        assert(k * y > 0) by (nonlinear_arith)
            requires
                k > 0,
                y > 0,
        ;
        lemma_fundamental_div_mod(x as int, y as int);
        let q = x as int / y as int;
        let r = x as int % y as int;
        assert(k * x == q * (k * y) + k * r && 0 <= k * r < k * y) by (nonlinear_arith)
            requires
                x as int == y * q + r,
                0 <= r < y,
                k > 0,
        ;
        lemma_fundamental_div_mod_converse((k * x) as int, (k * y) as int, q, k * r);
        assert((k * x) % (k * y) == k * (x % y));
        lemma_gcd_scale(k, y, x % y);
    }
}

/// Two nonzero numbers divided by their greatest common divisor have no
/// common divisor left but one.
pub proof fn lemma_reduced_coprime(n: nat, d: nat)
    requires
        n > 0,
        d > 0,
    ensures
        gcd_spec(n / gcd_spec(n, d), d / gcd_spec(n, d)) == 1,
{
    let g = gcd_spec(n, d);
    lemma_gcd_divides(n, d);
    lemma_fundamental_div_mod(n as int, g as int);
    lemma_fundamental_div_mod(d as int, g as int);
    let a = n / g;
    let b = d / g;
    assert(n == g * a && d == g * b);
    lemma_gcd_scale(g, a, b);
    let c = gcd_spec(a, b);
    assert(g * c == g * 1);
    assert(c == 1) by (nonlinear_arith)
        requires
            g * c == g * 1,
            g > 0,
    ;
}

/// A time base: one tick lasts `numerator / denominator` seconds.
#[derive(Debug, Clone, Copy, PartialEq, Eq)]
pub struct TimeBase {
    numerator: u32,
    denominator: u32,
}

impl TimeBase {
    #[verifier::type_invariant]
    spec fn positive(self) -> bool {
        self.numerator > 0 && self.denominator > 0
    }

    pub closed spec fn spec_numerator(self) -> u32 {
        self.numerator
    }

    pub closed spec fn spec_denominator(self) -> u32 {
        self.denominator
    }

    /// The time base of nanoseconds, 1/1_000_000_000 s.
    pub fn nanoseconds() -> (r: TimeBase)
        ensures
            r.numerator() == 1,
            r.denominator() == 1_000_000_000,
    {
        TimeBase { numerator: 1, denominator: 1_000_000_000 }
    }

    /// Builds a time base reduced to lowest terms. Both parts must be
    /// nonzero.
    pub fn new(numerator: u32, denominator: u32) -> (r: Result<TimeBase, TimeError>)
        ensures
            (numerator == 0 || denominator == 0) <==> r is Err,
            r matches Err(e) ==> e == TimeError::InvalidTimeBase,
            r matches Ok(tb) ==> {
                let g = gcd_spec(numerator as nat, denominator as nat);
                &&& tb.numerator() == numerator as nat / g
                &&& tb.denominator() == denominator as nat / g
                &&& tb.numerator() * denominator == tb.denominator() * numerator
                &&& gcd_spec(tb.numerator() as nat, tb.denominator() as nat) == 1
            },
    {
        if numerator == 0 || denominator == 0 {
            return Err(TimeError::InvalidTimeBase);
        }
        let divisor = gcd(numerator, denominator);
        proof {
            let g = divisor as int;
            lemma_gcd_divides(numerator as nat, denominator as nat);
            lemma_reduced_coprime(numerator as nat, denominator as nat);
            lemma_fundamental_div_mod(numerator as int, g);
            lemma_fundamental_div_mod(denominator as int, g);
            let a = numerator as int / g;
            let b = denominator as int / g;
            assert(a > 0) by {
                if a <= 0 {
                    assert(g * a <= 0) by (nonlinear_arith)
                        requires
                            g > 0,
                            a <= 0,
                    ;
                }
            }
            assert(b > 0) by {
                if b <= 0 {
                    assert(g * b <= 0) by (nonlinear_arith)
                        requires
                            g > 0,
                            b <= 0,
                    ;
                }
            }
            assert(a * (denominator as int) == b * (numerator as int)) by (nonlinear_arith)
                requires
                    numerator as int == g * a,
                    denominator as int == g * b,
            ;
        }
        Ok(TimeBase { numerator: numerator / divisor, denominator: denominator / divisor })
    }

    /// The time base of a clock that ticks `hz` times a second.
    pub fn from_hz(hz: u32) -> (r: Result<TimeBase, TimeError>)
        ensures
            hz == 0 <==> r is Err,
            r matches Err(e) ==> e == TimeError::InvalidTimeBase,
            r matches Ok(tb) ==> tb.numerator() == 1 && tb.denominator() == hz,
    {
        let r = Self::new(1, hz);
        proof {
            if hz != 0 {
                assert(gcd_spec(1, hz as nat) == 1) by {
                    if hz == 1 {
                        assert(gcd_spec(1, 0) == 1);
                    } else {
                        lemma_fundamental_div_mod_converse(1, hz as int, 0, 1);
                        lemma_fundamental_div_mod_converse(hz as int, 1, hz as int, 0);
                        assert(gcd_spec(1, hz as nat) == gcd_spec(hz as nat, 1));
                        assert(gcd_spec(hz as nat, 1) == gcd_spec(1, (hz as nat) % 1));
                        assert(gcd_spec(1, 0) == 1);
                    }
                }
            }
        }
        r
    }

    #[verifier::when_used_as_spec(spec_numerator)]
    pub fn numerator(self) -> (r: u32)
        ensures
            r == self.spec_numerator(),
            r > 0,
    {
        proof {
            use_type_invariant(&self);
        }
        self.numerator
    }

    #[verifier::when_used_as_spec(spec_denominator)]
    pub fn denominator(self) -> (r: u32)
        ensures
            r == self.spec_denominator(),
            r > 0,
    {
        proof {
            use_type_invariant(&self);
        }
        self.denominator
    }
}

/// Greatest common divisor of two integers.
fn gcd(left: u32, right: u32) -> (r: u32)
    ensures
        r == gcd_spec(left as nat, right as nat),
{
    let mut left = left;
    let mut right = right;
    let ghost a = left as nat;
    let ghost b = right as nat;
    while right != 0
        invariant
            gcd_spec(left as nat, right as nat) == gcd_spec(a, b),
        decreases right,
    {
        let remainder = left % right;
        left = right;
        right = remainder;
    }
    left
}

/// A point in time counted in ticks of a time base.
#[derive(Debug, Clone, Copy)]
pub struct Timestamp {
    ticks: i64,
    time_base: TimeBase,
}

/// How a conversion between time bases rounds.
#[derive(Debug, Clone, Copy, PartialEq, Eq)]
pub enum Rounding {
    TowardZero,
    Nearest,
}

/// Integer division that truncates toward zero.
pub open spec fn div_toward_zero(n: int, d: int) -> int {
    if n >= 0 {
        n / d
    } else {
        -((-n) / d)
    }
}

/// Integer division to the nearest integer, halves away from zero.
pub open spec fn div_nearest(n: int, d: int) -> int {
    if n >= 0 {
        (2 * n + d) / (2 * d)
    } else {
        -((2 * (-n) + d) / (2 * d))
    }
}

/// Whether an integer fits in an `i64`.
pub open spec fn fits_i64(v: int) -> bool {
    i64::MIN <= v <= i64::MAX
}

/// The ticks in `target` of `ticks` ticks in `source`, rounded as asked:
/// `ticks * source.num * target.den / (source.den * target.num)`.
pub open spec fn rescaled_ticks(
    ticks: int,
    source: TimeBase,
    target: TimeBase,
    rounding: Rounding,
) -> int {
    rescaled_value(
        ticks,
        source.numerator() as int,
        source.denominator() as int,
        target.numerator() as int,
        target.denominator() as int,
        rounding,
    )
}

/// `ticks` ticks of `sn/sd` seconds expressed in ticks of `tn/td` seconds,
/// rounded as asked.
pub open spec fn rescaled_value(ticks: int, sn: int, sd: int, tn: int, td: int, rounding: Rounding) -> int {
    let n = ticks * sn * td;
    let d = sd * tn;
    match rounding {
        Rounding::TowardZero => div_toward_zero(n, d),
        Rounding::Nearest => div_nearest(n, d),
    }
}

/// Rescaling is symmetric about zero: a timestamp and its negation land on
/// ticks of equal size and opposite signs, under either rounding.
pub proof fn lemma_rescale_is_symmetric(
    ticks: int,
    source: TimeBase,
    target: TimeBase,
    rounding: Rounding,
)
    requires
        source.numerator() > 0,
        source.denominator() > 0,
        target.numerator() > 0,
        target.denominator() > 0,
    ensures
        rescaled_ticks(-ticks, source, target, rounding) == -rescaled_ticks(
            ticks,
            source,
            target,
            rounding,
        ),
{
    let sn = source.numerator() as int;
    let sd = source.denominator() as int;
    let tn = target.numerator() as int;
    let td = target.denominator() as int;
    let n = ticks * sn * td;
    let d = sd * tn;
    assert((-ticks) * sn * td == -n) by (nonlinear_arith)
        requires
            n == ticks * sn * td,
    ;
    assert(d > 0) by (nonlinear_arith)
        requires
            sd > 0,
            tn > 0,
            d == sd * tn,
    ;
    if n == 0 {
        assert(0int / d == 0) by (nonlinear_arith)
            requires
                d > 0,
        ;
        assert((2 * 0 + d) / (2 * d) == 0) by (nonlinear_arith)
            requires
                d > 0,
        ;
    }
}

/// Rounding half away from zero, for a nonnegative dividend.
proof fn lemma_nearest_nonneg(n: int, d: int)
    requires
        n >= 0,
        d > 0,
    ensures
        (2 * n + d) / (2 * d) == n / d + (if 2 * (n % d) >= d {
            1int
        } else {
            0int
        }),
{
    lemma_fundamental_div_mod(n, d);
    let q = n / d;
    let r = n % d;
    if 2 * r >= d {
        assert(2 * n + d == (q + 1) * (2 * d) + (2 * r - d)) by (nonlinear_arith)
            requires
                n == d * q + r,
        ;
        lemma_fundamental_div_mod_converse(2 * n + d, 2 * d, q + 1, 2 * r - d);
    } else {
        assert(2 * n + d == q * (2 * d) + (2 * r + d)) by (nonlinear_arith)
            requires
                n == d * q + r,
        ;
        lemma_fundamental_div_mod_converse(2 * n + d, 2 * d, q, 2 * r + d);
    }
}

/// Bounds of the intermediate products of a rescale.
proof fn lemma_rescale_bounds(ticks: int, a: int, b: int, c: int, e: int)
    requires
        i64::MIN <= ticks <= i64::MAX,
        0 < a <= u32::MAX,
        0 < b <= u32::MAX,
        0 < c <= u32::MAX,
        0 < e <= u32::MAX,
    ensures
        -0x7fff_ffff_ffff_ffff_ffff_ffff_ffff_ffff <= ticks * a <= 0x7fff_ffff_ffff_ffff_ffff_ffff_ffff_ffff,
        -0x7fff_ffff_ffff_ffff_ffff_ffff_ffff_ffff <= ticks * a * b <= 0x7fff_ffff_ffff_ffff_ffff_ffff_ffff_ffff,
        0 < c * e <= 0xffff_fffe_0000_0001,
{
    let m = if ticks >= 0 {
        ticks
    } else {
        -ticks
    };
    lemma_mul_upper_bound(m, 0x8000_0000_0000_0000, a, 0xffff_ffff);
    lemma_mul_upper_bound(m * a, 0x7fff_ffff_8000_0000_0000_0000int, b, 0xffff_ffff);
    lemma_mul_upper_bound(c, 0xffff_ffff, e, 0xffff_ffff);
    assert(0 < c * e) by (nonlinear_arith)
        requires
            0 < c,
            0 < e,
    ;
    if ticks >= 0 {
        assert(ticks * a * b == m * a * b);
        assert(ticks * a * b >= 0) by (nonlinear_arith)
            requires
                ticks >= 0,
                a > 0,
                b > 0,
        ;
        assert(ticks * a >= 0) by (nonlinear_arith)
            requires
                ticks >= 0,
                a > 0,
        ;
    } else {
        assert(ticks * a * b == -(m * a * b)) by (nonlinear_arith)
            requires
                m == -ticks,
        ;
        assert(ticks * a == -(m * a)) by (nonlinear_arith)
            requires
                m == -ticks,
        ;
        assert(m * a >= 0) by (nonlinear_arith)
            requires
                m >= 0,
                a > 0,
        ;
        assert(m * a * b >= 0) by (nonlinear_arith)
            requires
                m >= 0,
                a > 0,
                b > 0,
        ;
    }
}

impl Timestamp {
    pub closed spec fn spec_ticks(self) -> i64 {
        self.ticks
    }

    pub closed spec fn spec_time_base(self) -> TimeBase {
        self.time_base
    }

    pub fn new(ticks: i64, time_base: TimeBase) -> (r: Timestamp)
        ensures
            r.ticks() == ticks,
            r.time_base() == time_base,
    {
        Timestamp { ticks, time_base }
    }

    #[verifier::when_used_as_spec(spec_ticks)]
    pub fn ticks(self) -> (r: i64)
        ensures
            r == self.spec_ticks(),
    {
        self.ticks
    }

    #[verifier::when_used_as_spec(spec_time_base)]
    pub fn time_base(self) -> (r: TimeBase)
        ensures
            r == self.spec_time_base(),
    {
        self.time_base
    }

    /// Converts this timestamp to the time base `target`. Fails with
    /// `Overflow` exactly when the converted tick count does not fit in an
    /// `i64`.
    pub fn rescale(self, target: TimeBase, rounding: Rounding) -> (r: Result<Timestamp, TimeError>)
        ensures
            ({
                let v = rescaled_ticks(self.ticks() as int, self.time_base(), target, rounding);
                match r {
                    Ok(t) => fits_i64(v) && t.ticks() == v && t.time_base() == target,
                    Err(e) => !fits_i64(v) && e == TimeError::Overflow,
                }
            }),
    {
        let source = self.time_base;
        let src_num = source.numerator();
        let src_den = source.denominator();
        let dst_num = target.numerator();
        let dst_den = target.denominator();
        proof {
            lemma_rescale_bounds(
                self.ticks as int,
                src_num as int,
                dst_den as int,
                src_den as int,
                dst_num as int,
            );
        }
        let numerator: i128 = match (self.ticks as i128).checked_mul(src_num as i128) {
            Some(partial) => match partial.checked_mul(dst_den as i128) {
                Some(value) => value,
                None => return Err(TimeError::Overflow),
            },
            None => return Err(TimeError::Overflow),
        };
        let denominator: i128 = match (src_den as i128).checked_mul(dst_num as i128) {
            Some(value) => value,
            None => return Err(TimeError::Overflow),
        };
        let ghost n = numerator as int;
        let ghost d = denominator as int;
        assert(n == self.ticks as int * source.numerator() * target.denominator());
        assert(d == source.denominator() * target.numerator());

        let ticks: i128 = match rounding {
            Rounding::TowardZero => numerator / denominator,
            Rounding::Nearest => {
                let quotient = numerator / denominator;
                let remainder = numerator % denominator;
                let remainder_magnitude = if remainder < 0 {
                    -remainder
                } else {
                    remainder
                };
                let doubled = match remainder_magnitude.checked_mul(2) {
                    Some(value) => value,
                    None => return Err(TimeError::Overflow),
                };
                let should_round_away_from_zero = doubled >= denominator;
                let adjustment: i128 = if numerator < 0 {
                    -1
                } else {
                    1
                };
                proof {
                    let m = if n >= 0 {
                        n
                    } else {
                        -n
                    };
                    lemma_nearest_nonneg(m, d);
                    lemma_fundamental_div_mod(m, d);
                    assert(0 <= m / d <= m) by {
                        vstd::arithmetic::div_mod::lemma_div_pos_is_pos(m, d);
                        vstd::arithmetic::div_mod::lemma_div_is_ordered_by_denominator(m, 1, d);
                    }
                }
                if should_round_away_from_zero {
                    match quotient.checked_add(adjustment) {
                        Some(value) => value,
                        None => return Err(TimeError::Overflow),
                    }
                } else {
                    quotient
                }
            },
        };
        assert(ticks == rescaled_ticks(self.ticks as int, source, target, rounding));
        if ticks < i64::MIN as i128 || ticks > i64::MAX as i128 {
            return Err(TimeError::Overflow);
        }
        Ok(Timestamp::new(ticks as i64, target))
    }

    /// The media time of this timestamp, in nanoseconds.
    pub fn to_media_time(self, rounding: Rounding) -> (r: Result<MediaTime, TimeError>)
        ensures
            ({
                let v = rescaled_value(
                    self.ticks() as int,
                    self.time_base().numerator() as int,
                    self.time_base().denominator() as int,
                    1,
                    1_000_000_000,
                    rounding,
                );
                match r {
                    Ok(t) => fits_i64(v) && t.nanoseconds() == v,
                    Err(e) => !fits_i64(v) && e == TimeError::Overflow,
                }
            }),
    {
        let target = TimeBase::nanoseconds();
        let timestamp = self.rescale(target, rounding)?;
        Ok(MediaTime::from_nanoseconds(timestamp.ticks))
    }
}

/// A point on the media timeline, in nanoseconds.
#[derive(Debug, Clone, Copy, PartialEq, Eq, Structural, Ord)]
pub struct MediaTime {
    nanoseconds: i64,
}

impl MediaTime {
    pub closed spec fn spec_nanoseconds(self) -> i64 {
        self.nanoseconds
    }

    /// Two values are the same exactly when their nanosecond counts are.
    pub proof fn lemma_same_nanoseconds(self, other: MediaTime)
        ensures
            (self == other) <==> (self.nanoseconds() == other.nanoseconds()),
    {
    }

    pub fn from_nanoseconds(nanoseconds: i64) -> (r: MediaTime)
        ensures
            r.nanoseconds() == nanoseconds,
    {
        MediaTime { nanoseconds }
    }

    #[verifier::when_used_as_spec(spec_nanoseconds)]
    pub fn nanoseconds(self) -> (r: i64)
        ensures
            r == self.spec_nanoseconds(),
    {
        self.nanoseconds
    }

    /// The signed distance `self - other`.
    pub fn checked_delta(self, other: MediaTime) -> (r: Result<MediaDelta, TimeError>)
        ensures
            ({
                let v = self.nanoseconds() - other.nanoseconds();
                match r {
                    Ok(delta) => fits_i64(v) && delta.nanoseconds() == v,
                    Err(e) => !fits_i64(v) && e == TimeError::Overflow,
                }
            }),
    {
        match self.nanoseconds.checked_sub(other.nanoseconds) {
            Some(nanoseconds) => Ok(MediaDelta { nanoseconds }),
            None => Err(TimeError::Overflow),
        }
    }

    /// This time moved by `delta`.
    pub fn checked_add(self, delta: MediaDelta) -> (r: Result<MediaTime, TimeError>)
        ensures
            ({
                let v = self.nanoseconds() + delta.nanoseconds();
                match r {
                    Ok(t) => fits_i64(v) && t.nanoseconds() == v,
                    Err(e) => !fits_i64(v) && e == TimeError::Overflow,
                }
            }),
    {
        match self.nanoseconds.checked_add(delta.nanoseconds()) {
            Some(nanoseconds) => Ok(MediaTime::from_nanoseconds(nanoseconds)),
            None => Err(TimeError::Overflow),
        }
    }
}

/// A signed distance on the media timeline, in nanoseconds.
#[derive(Debug, Clone, Copy, PartialEq, Eq, Structural, Ord)]
pub struct MediaDelta {
    nanoseconds: i64,
}

impl MediaDelta {
    pub closed spec fn spec_nanoseconds(self) -> i64 {
        self.nanoseconds
    }

    /// Two values are the same exactly when their nanosecond counts are.
    pub proof fn lemma_same_nanoseconds(self, other: MediaDelta)
        ensures
            (self == other) <==> (self.nanoseconds() == other.nanoseconds()),
    {
    }

    pub fn from_nanoseconds(nanoseconds: i64) -> (r: MediaDelta)
        ensures
            r.nanoseconds() == nanoseconds,
    {
        MediaDelta { nanoseconds }
    }

    #[verifier::when_used_as_spec(spec_nanoseconds)]
    pub fn nanoseconds(self) -> (r: i64)
        ensures
            r == self.spec_nanoseconds(),
    {
        self.nanoseconds
    }
}

/// A nonnegative length of time counted in ticks of a time base.
#[derive(Debug, Clone, Copy, PartialEq, Eq)]
pub struct TimeSpan {
    ticks: u64,
    time_base: TimeBase,
}

impl TimeSpan {
    pub closed spec fn spec_ticks(self) -> u64 {
        self.ticks
    }

    pub closed spec fn spec_time_base(self) -> TimeBase {
        self.time_base
    }

    pub fn new(ticks: u64, time_base: TimeBase) -> (r: TimeSpan)
        ensures
            r.ticks() == ticks,
            r.time_base() == time_base,
    {
        TimeSpan { ticks, time_base }
    }

    #[verifier::when_used_as_spec(spec_ticks)]
    pub fn ticks(self) -> (r: u64)
        ensures
            r == self.spec_ticks(),
    {
        self.ticks
    }

    #[verifier::when_used_as_spec(spec_time_base)]
    pub fn time_base(self) -> (r: TimeBase)
        ensures
            r == self.spec_time_base(),
    {
        self.time_base
    }

    /// The length in whole milliseconds, rounded down.
    pub fn to_milliseconds(self) -> (r: Result<i64, TimeError>)
        ensures
            ({
                let v = self.ticks() * self.time_base().numerator() * 1000
                    / (self.time_base().denominator() as int);
                match r {
                    Ok(ms) => v <= i64::MAX && ms == v,
                    Err(e) => v > i64::MAX && e == TimeError::Overflow,
                }
            }),
    {
        let numerator = self.time_base.numerator() as u128;
        let denominator = self.time_base.denominator() as u128;
        proof {
            lemma_mul_upper_bound(
                self.ticks as int,
                u64::MAX as int,
                numerator as int,
                u32::MAX as int,
            );
        }
        let duration_ms_wide = self.ticks as u128 * numerator * 1000 / denominator;
        if duration_ms_wide > i64::MAX as u128 {
            return Err(TimeError::Overflow);
        }
        Ok(duration_ms_wide as i64)
    }
}

/// Errors of time arithmetic.
#[derive(Debug, Clone, Copy, PartialEq, Eq)]
pub enum TimeError {
    InvalidTimeBase,
    Overflow,
}

} // verus!
