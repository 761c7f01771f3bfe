use vstd::arithmetic::div_mod::{lemma_div_is_ordered, lemma_div_multiples_vanish};
use vstd::arithmetic::mul::lemma_mul_inequality;
use vstd::prelude::*;

verus! {

/// Below this temperature (in millidegrees Celsius) the fan runs at its minimum speed.
pub const MIN_TEMP: i64 = 20_000;

/// Above this temperature (in millidegrees Celsius) the fan runs at full speed.
pub const MAX_TEMP: i64 = 50_000;

/// The lowest duty cycle the control law commands, in parts per million (20%).
pub const MIN_SPEED: u32 = 200_000;

/// The highest duty cycle the control law commands, in parts per million (100%).
pub const MAX_SPEED: u32 = 1_000_000;

/// A whole duty cycle (100% on-time), in parts per million.
pub const FULL_DUTY: u32 = 1_000_000;

/// A temperature reading, kept exactly as the sensor reports it: in
/// millidegrees Celsius. The temperature in degrees is `millidegrees / 1000`.
#[derive(Clone, Copy, Debug, PartialEq, Eq)]
pub struct Temperature {
    pub millidegrees: i64,
}

impl Temperature {
    pub open spec fn view(self) -> int {
        self.millidegrees as int
    }

    pub fn from_millidegrees(millidegrees: i64) -> (r: Temperature)
        ensures
            r@ == millidegrees,
    {
        Temperature { millidegrees }
    }

    pub fn millidegrees(&self) -> (r: i64)
        ensures
            r == self@,
    {
        self.millidegrees
    }
}

/// A PWM duty cycle: the fraction of each period the output is driven high,
/// held in parts per million, so `1_000_000` is 100% on-time.
#[derive(Clone, Copy, Debug, PartialEq, Eq)]
pub struct DutyCycle {
    ppm: u32,
}

impl DutyCycle {
    #[verifier::type_invariant]
    spec fn at_most_full(self) -> bool {
        self.ppm <= FULL_DUTY
    }

    pub closed spec fn view(self) -> int {
        self.ppm as int
    }

    /// The duty cycle of `ppm` parts per million, or `None` above 100%.
    pub fn from_ppm(ppm: u32) -> (r: Option<DutyCycle>)
        ensures
            ppm <= FULL_DUTY <==> r is Some,
            r matches Some(d) ==> d@ == ppm,
    {
        if ppm <= FULL_DUTY {
            Some(DutyCycle { ppm })
        } else {
            None
        }
    }

    /// A duty cycle of a whole `percent` of on-time.
    pub fn from_percent(percent: u32) -> (r: DutyCycle)
        requires
            percent <= 100,
        ensures
            r@ == percent * 10_000,
    {
        DutyCycle { ppm: percent * 10_000 }
    }

    /// The on-time in parts per million.
    pub fn parts_per_million(&self) -> (r: u32)
        ensures
            r == self@,
            r <= FULL_DUTY,
    {
        proof {
            use_type_invariant(self);
        }
        self.ppm
    }
}

/// The rise of the duty cycle above `MIN_SPEED` for a temperature `t` between
/// the two thresholds: proportional to how far `t` lies above `MIN_TEMP`.
pub open spec fn ramp(t: int) -> int {
    (MAX_SPEED - MIN_SPEED) * (t - MIN_TEMP) / (MAX_TEMP - MIN_TEMP)
}

/// The control law, in parts per million of on-time: `MIN_SPEED` below
/// `MIN_TEMP`, `MAX_SPEED` above `MAX_TEMP`, and linear interpolation between
/// the two in between (rounded down to a whole part per million).
pub open spec fn duty_for(t: int) -> int {
    if t < MIN_TEMP {
        MIN_SPEED as int
    } else if t > MAX_TEMP {
        MAX_SPEED as int
    } else {
        MIN_SPEED + ramp(t)
    }
}

proof fn lemma_ramp_bounds(t: int)
    requires
        MIN_TEMP <= t <= MAX_TEMP,
    ensures
        0 <= ramp(t) <= MAX_SPEED - MIN_SPEED,
{
    let span: int = (MAX_TEMP - MIN_TEMP) as int;
    let rise: int = (MAX_SPEED - MIN_SPEED) as int;
    lemma_mul_inequality(0, t - MIN_TEMP, rise);
    lemma_mul_inequality(t - MIN_TEMP, span, rise);
    lemma_div_is_ordered(0, rise * (t - MIN_TEMP), span);
    lemma_div_is_ordered(rise * (t - MIN_TEMP), rise * span, span);
    lemma_div_multiples_vanish(rise, span);
    assert(rise * span == span * rise) by (nonlinear_arith);
    assert((t - MIN_TEMP) * rise == rise * (t - MIN_TEMP)) by (nonlinear_arith);
}

proof fn lemma_ramp_ordered(a: int, b: int)
    requires
        MIN_TEMP <= a <= b <= MAX_TEMP,
    ensures
        ramp(a) <= ramp(b),
{
    let rise: int = (MAX_SPEED - MIN_SPEED) as int;
    lemma_mul_inequality(a - MIN_TEMP, b - MIN_TEMP, rise);
    assert((a - MIN_TEMP) * rise == rise * (a - MIN_TEMP)) by (nonlinear_arith);
    assert((b - MIN_TEMP) * rise == rise * (b - MIN_TEMP)) by (nonlinear_arith);
    lemma_div_is_ordered(rise * (a - MIN_TEMP), rise * (b - MIN_TEMP), (MAX_TEMP - MIN_TEMP) as int);
}

/// The duty cycle the fan is driven at for temperature `temp`.
pub fn compute_duty(temp: Temperature) -> (r: DutyCycle)
    ensures
        r@ == duty_for(temp@),
        MIN_SPEED <= r@ <= MAX_SPEED,
{
    let t = temp.millidegrees;
    if t < MIN_TEMP {
        DutyCycle { ppm: MIN_SPEED }
    } else if t > MAX_TEMP {
        DutyCycle { ppm: MAX_SPEED }
    } else {
        proof {
            lemma_ramp_bounds(t as int);
        }
        let above: u64 = (t - MIN_TEMP) as u64;
        let span: u64 = (MAX_TEMP - MIN_TEMP) as u64;
        let rise: u64 = (MAX_SPEED - MIN_SPEED) as u64;
        assert(rise * above <= rise * span) by (nonlinear_arith)
            requires
                above <= span,
                rise == 800_000,
        ;
        let step: u64 = rise * above / span;
        DutyCycle { ppm: MIN_SPEED + step as u32 }
    }
}

/// Below `MIN_TEMP` the fan runs at exactly `MIN_SPEED`.
pub proof fn lemma_cold_runs_at_min_speed(temp: Temperature)
    requires
        temp@ < MIN_TEMP,
    ensures
        duty_for(temp@) == MIN_SPEED,
{
}

/// Above `MAX_TEMP` the fan runs at exactly `MAX_SPEED`.
pub proof fn lemma_hot_runs_at_max_speed(temp: Temperature)
    requires
        temp@ > MAX_TEMP,
    ensures
        duty_for(temp@) == MAX_SPEED,
{
}

/// A warmer reading never gives a lower duty cycle.
pub proof fn lemma_duty_monotonic(cooler: Temperature, warmer: Temperature)
    requires
        cooler@ <= warmer@,
    ensures
        duty_for(cooler@) <= duty_for(warmer@),
{
    let a = cooler@;
    let b = warmer@;
    if MIN_TEMP <= a && a <= MAX_TEMP {
        lemma_ramp_bounds(a);
    }
    if MIN_TEMP <= b && b <= MAX_TEMP {
        lemma_ramp_bounds(b);
    }
    if MIN_TEMP <= a && b <= MAX_TEMP {
        lemma_ramp_ordered(a, b);
    }
}

/// Whatever the temperature, the duty cycle lies between `MIN_SPEED` and `MAX_SPEED`.
pub proof fn lemma_duty_within_speed_limits(temp: Temperature)
    ensures
        MIN_SPEED <= duty_for(temp@) <= MAX_SPEED,
{
    if MIN_TEMP <= temp@ && temp@ <= MAX_TEMP {
        lemma_ramp_bounds(temp@);
    }
}

} // verus!
