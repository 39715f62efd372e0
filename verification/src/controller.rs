//! The discrete-time PID controller's verifiable core: the modulus that
//! wraps a continuous-input error into its bounded domain, and the
//! input-history flags that gate `at_setpoint` and survive `reset`.

use vstd::prelude::*;
use vstd::arithmetic::div_mod::lemma_fundamental_div_mod;
use vstd::arithmetic::div_mod::lemma_fundamental_div_mod_converse;
use vstd::arithmetic::div_mod::lemma_mod_bound;
use vstd::arithmetic::div_mod::lemma_mod_multiples_basic;
use vstd::arithmetic::div_mod::lemma_small_mod;

verus! {

/// Magnitude bound on the arguments of `input_modulus`, comfortably below
/// `i64::MAX` so every intermediate difference and sum fits in an `i64`.
pub const WRAP_LIMIT: i64 = 0x1000_0000_0000_0000;

/// The value of `x` wrapped into the half-open interval
/// `[minimum_input, maximum_input)`: the unique representative of `x`
/// modulo the interval's width.
pub open spec fn wrap_spec(x: int, minimum_input: int, maximum_input: int) -> int
    recommends
        minimum_input < maximum_input,
{
    minimum_input + (x - minimum_input) % (maximum_input - minimum_input)
}

/// Wraps `input` into `[minimum_input, maximum_input)`, shifting it by the
/// integer multiple of the interval width that lands it in range.
///
/// Boundary behaviour is exact: `maximum_input` wraps to `minimum_input`,
/// and `minimum_input` is returned unchanged.
pub fn input_modulus(input: i64, minimum_input: i64, maximum_input: i64) -> (r: i64)
    requires
        minimum_input < maximum_input,
        -WRAP_LIMIT <= input <= WRAP_LIMIT,
        -WRAP_LIMIT <= minimum_input,
        maximum_input <= WRAP_LIMIT,
    ensures
        r == wrap_spec(input as int, minimum_input as int, maximum_input as int),
        minimum_input <= r < maximum_input,
        (r - input) % ((maximum_input - minimum_input) as int) == 0,
{
    let modulus: i64 = maximum_input - minimum_input;
    let diff: i64 = input - minimum_input;
    let rem: i64 = if diff >= 0 {
        diff % modulus
    } else {
        let excess: i64 = (-diff) % modulus;
        if excess == 0 {
            0
        } else {
            modulus - excess
        }
    };
    proof {
        let m = modulus as int;
        let d = diff as int;
        if d >= 0 {
            assert(rem == d % m);
        } else {
            let q = (-d) / m;
            lemma_fundamental_div_mod(-d, m);
            lemma_mod_bound(-d, m);
            if (-d) % m == 0 {
                assert(d == (-q) * m) by (nonlinear_arith)
                    requires
                        -d == m * q,
                ;
                lemma_mod_multiples_basic(-q, m);
                assert(rem == d % m);
            } else {
                assert(d == (-q - 1) * m + (m - (-d) % m)) by (nonlinear_arith)
                    requires
                        -d == m * q + (-d) % m,
                ;
                lemma_fundamental_div_mod_converse(d, m, -q - 1, m - (-d) % m);
                assert(rem == d % m);
            }
        }
        lemma_mod_bound(d, m);
        lemma_fundamental_div_mod(d, m);
        assert(rem - d == (-(d / m)) * m) by (nonlinear_arith)
            requires
                d == m * (d / m) + rem,
        ;
        lemma_mod_multiples_basic(-(d / m), m);
        assert((rem - d) % m == 0);
    }
    minimum_input + rem
}

/// `input_modulus` is idempotent: wrapping an already wrapped value is the
/// identity, and more generally any `x` already inside
/// `[minimum_input, maximum_input)` is left unchanged.
pub proof fn lemma_input_modulus_idempotent(x: int, minimum_input: int, maximum_input: int)
    requires
        minimum_input < maximum_input,
    ensures
        wrap_spec(wrap_spec(x, minimum_input, maximum_input), minimum_input, maximum_input)
            == wrap_spec(x, minimum_input, maximum_input),
        minimum_input <= x < maximum_input ==> wrap_spec(x, minimum_input, maximum_input) == x,
{
    let m = maximum_input - minimum_input;
    lemma_mod_bound(x - minimum_input, m);
    let w = wrap_spec(x, minimum_input, maximum_input);
    lemma_small_mod((w - minimum_input) as nat, m as nat);
    if minimum_input <= x < maximum_input {
        lemma_small_mod((x - minimum_input) as nat, m as nat);
    }
}

/// The PID controller's non-numeric state: whether continuous-input
/// (wrap-around) error computation is enabled, and whether a setpoint and a
/// measurement have ever been supplied.
///
/// `at_setpoint` may only report true once both inputs have been seen, and
/// `reset` forgets the measurement (but not the setpoint), so the flags are
/// kept and updated here with exact contracts; the controller's
/// floating-point arithmetic lives with its caller, which reports the two
/// tolerance comparisons as booleans.
#[derive(Clone, Copy, Debug, PartialEq, Eq, Structural)]
pub struct PidFlags {
    /// Whether setpoint-minus-measurement errors are wrapped into the
    /// configured input range before use.
    pub continuous: bool,
    /// Whether `set_setpoint` (or a calculate variant taking a setpoint)
    /// has ever been called.
    pub have_setpoint: bool,
    /// Whether `calculate` has been called since construction or the last
    /// `reset`.
    pub have_measurement: bool,
}

impl PidFlags {
    /// Both a setpoint and a measurement have been supplied, so the error
    /// terms compare a real command against a real reading.
    pub open spec fn ready(self) -> bool {
        self.have_setpoint && self.have_measurement
    }

    /// What `at_setpoint` reports, given the outcomes of the position- and
    /// velocity-tolerance comparisons.
    pub open spec fn at_setpoint_spec(
        self,
        position_in_tolerance: bool,
        velocity_in_tolerance: bool,
    ) -> bool {
        self.ready() && position_in_tolerance && velocity_in_tolerance
    }

    /// The flags after `reset`: the measurement is forgotten, the setpoint
    /// and the continuous-input mode are retained.
    pub open spec fn after_reset(self) -> PidFlags {
        PidFlags { have_measurement: false, ..self }
    }

    /// A freshly constructed controller: continuous-input off, no setpoint
    /// and no measurement seen yet.
    pub fn new() -> (r: PidFlags)
        ensures
            !r.continuous,
            !r.have_setpoint,
            !r.have_measurement,
    {
        PidFlags { continuous: false, have_setpoint: false, have_measurement: false }
    }

    /// Switches error computation to the wrap-around form.
    pub fn enable_continuous_input(&mut self)
        ensures
            *final(self) == (PidFlags { continuous: true, ..*old(self) }),
    {
        self.continuous = true;
    }

    /// Switches error computation back to the plain difference.
    pub fn disable_continuous_input(&mut self)
        ensures
            *final(self) == (PidFlags { continuous: false, ..*old(self) }),
    {
        self.continuous = false;
    }

    /// Whether wrap-around error computation is in effect.
    pub fn is_continuous_input_enabled(&self) -> (r: bool)
        ensures
            r == self.continuous,
    {
        self.continuous
    }

    /// Records that a setpoint has been supplied.
    pub fn record_setpoint(&mut self)
        ensures
            *final(self) == (PidFlags { have_setpoint: true, ..*old(self) }),
    {
        self.have_setpoint = true;
    }

    /// Records that `calculate` has consumed a measurement.
    pub fn record_measurement(&mut self)
        ensures
            *final(self) == (PidFlags { have_measurement: true, ..*old(self) }),
    {
        self.have_measurement = true;
    }

    /// `reset` forgets the measurement; the setpoint and the
    /// continuous-input mode survive.
    pub fn reset(&mut self)
        ensures
            *final(self) == old(self).after_reset(),
    {
        self.have_measurement = false;
    }

    /// Whether the controller is at its setpoint, given the outcomes of
    /// the two tolerance comparisons: true only once both a setpoint and a
    /// measurement have been supplied and both comparisons passed.
    pub fn at_setpoint(
        &self,
        position_in_tolerance: bool,
        velocity_in_tolerance: bool,
    ) -> (r: bool)
        ensures
            r == self.at_setpoint_spec(position_in_tolerance, velocity_in_tolerance),
    {
        self.have_measurement && self.have_setpoint && position_in_tolerance
            && velocity_in_tolerance
    }
}

/// Until both a setpoint and a measurement have been supplied at least
/// once, `at_setpoint` is false, whatever the tolerance comparisons say.
pub proof fn lemma_at_setpoint_needs_both_inputs(
    flags: PidFlags,
    position_in_tolerance: bool,
    velocity_in_tolerance: bool,
)
    requires
        !flags.have_setpoint || !flags.have_measurement,
    ensures
        !flags.at_setpoint_spec(position_in_tolerance, velocity_in_tolerance),
{
}

/// After `reset`, `at_setpoint` is false — whatever the tolerance
/// comparisons say, and even though the setpoint (and its supplied flag)
/// is retained — until the next `calculate` records a measurement again.
pub proof fn lemma_reset_forces_not_at_setpoint(
    flags: PidFlags,
    position_in_tolerance: bool,
    velocity_in_tolerance: bool,
)
    ensures
        !flags.after_reset().at_setpoint_spec(position_in_tolerance, velocity_in_tolerance),
        flags.after_reset().have_setpoint == flags.have_setpoint,
        flags.after_reset().continuous == flags.continuous,
{
}

} // verus!
