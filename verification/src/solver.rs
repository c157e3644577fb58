use vstd::prelude::*;

use crate::scalar::Scalar;
use crate::scalar::sub_of;
use crate::scalar::mul_of;
use crate::scalar::div_of;
use crate::scalar::sin_of;
use crate::scalar::cos_of;
use crate::scalar::abs_of;
use crate::scalar::lt_of;
use crate::scalar::one_text;

verus! {

// Newton-Raphson inversion of Kepler's equation.  The function whose root is
// sought is fixed by two parameters: 0 = E - e*sin(E) - M, with eccentricity e
// and mean anomaly M.  The solver iterates x' = x - f(x)/f'(x) and stops early
// once |x' - x| falls below the tolerance; if the iteration budget runs out it
// returns the last estimate (an accepted approximate result, not an error).

/// Kepler's equation with its terms moved to one side:
/// `f(E) = E - e*sin(E) - M`.
pub struct KeplerEquation {
    pub eccentricity: Scalar,
    pub mean_anomaly: Scalar,
}

/// The value of `E - e*sin(E) - M` for eccentricity text `e`, mean anomaly
/// text `m` and eccentric anomaly text `x`.
pub open spec fn kepler_zeroed(e: Seq<char>, m: Seq<char>, x: Seq<char>) -> Seq<char> {
    sub_of(sub_of(x, mul_of(e, sin_of(x))), m)
}

/// The derivative `1 - e*cos(E)` of `kepler_zeroed` in `x`.
pub open spec fn kepler_zeroed_derivative(e: Seq<char>, x: Seq<char>) -> Seq<char> {
    sub_of(one_text(), mul_of(e, cos_of(x)))
}

/// One Newton-Raphson update `x - f(x)/f'(x)` on Kepler's equation.
pub open spec fn newton_update(e: Seq<char>, m: Seq<char>, x: Seq<char>) -> Seq<char> {
    sub_of(x, div_of(kepler_zeroed(e, m, x), kepler_zeroed_derivative(e, x)))
}

/// The estimate after running the Newton-Raphson iteration from `x` with at
/// most `fuel` updates, stopping early when an update moves the estimate by
/// less than `tolerance`.
pub open spec fn newton_iterate(
    e: Seq<char>,
    m: Seq<char>,
    x: Seq<char>,
    tolerance: Seq<char>,
    fuel: nat,
) -> Seq<char>
    decreases fuel,
{
    if fuel == 0 {
        x
    } else {
        let next = newton_update(e, m, x);
        if lt_of(abs_of(sub_of(next, x)), tolerance) {
            next
        } else {
            newton_iterate(e, m, next, tolerance, (fuel - 1) as nat)
        }
    }
}

impl KeplerEquation {
    /// Evaluates `E - e*sin(E) - M` at the eccentric anomaly `x`.
    pub fn eval(&self, x: &Scalar) -> (r: Scalar)
        ensures
            r@ == kepler_zeroed(self.eccentricity@, self.mean_anomaly@, x@),
    {
        x.sub(&self.eccentricity.mul(&x.sin())).sub(&self.mean_anomaly)
    }

    /// Evaluates the derivative `1 - e*cos(E)` at the eccentric anomaly `x`.
    pub fn eval_derivative(&self, x: &Scalar) -> (r: Scalar)
        ensures
            r@ == kepler_zeroed_derivative(self.eccentricity@, x@),
    {
        Scalar::one().sub(&self.eccentricity.mul(&x.cos()))
    }
}

/// Runs the Newton-Raphson iteration on Kepler's equation from
/// `initial_guess`, with early termination below `tolerance` and at most
/// `max_iterations` updates.  When the budget is exhausted the last estimate
/// is returned as an accepted approximation; the caller tolerates it.
pub fn solve_newton_raphson(
    f: &KeplerEquation,
    initial_guess: &Scalar,
    tolerance: &Scalar,
    max_iterations: u32,
) -> (r: Scalar)
    ensures
        r@ == newton_iterate(
            f.eccentricity@,
            f.mean_anomaly@,
            initial_guess@,
            tolerance@,
            max_iterations as nat,
        ),
{
    let mut x = initial_guess.dup();
    let mut i: u32 = 0;
    while i < max_iterations
        invariant
            i <= max_iterations,
            newton_iterate(
                f.eccentricity@,
                f.mean_anomaly@,
                initial_guess@,
                tolerance@,
                max_iterations as nat,
            ) == newton_iterate(
                f.eccentricity@,
                f.mean_anomaly@,
                x@,
                tolerance@,
                (max_iterations - i) as nat,
            ),
        decreases max_iterations - i,
    {
        let next = x.sub(&f.eval(&x).div(&f.eval_derivative(&x)));
        let converged = next.sub(&x).abs().lt(tolerance);
        if converged {
            return next;
        }
        x = next;
        i = i + 1;
    }
    x
}

/// Whether the Newton-Raphson iteration from `x` converges within `fuel`
/// updates: some update moves the estimate by less than the tolerance before
/// the budget runs out.
pub open spec fn newton_converges(
    e: Seq<char>,
    m: Seq<char>,
    x: Seq<char>,
    tolerance: Seq<char>,
    fuel: nat,
) -> bool
    decreases fuel,
{
    if fuel == 0 {
        false
    } else {
        let next = newton_update(e, m, x);
        if lt_of(abs_of(sub_of(next, x)), tolerance) {
            true
        } else {
            newton_converges(e, m, next, tolerance, (fuel - 1) as nat)
        }
    }
}

/// `solve_newton_raphson`, also reporting whether the iteration converged
/// within its budget.  A `false` flag is the recoverable signal of an
/// exhausted budget: the estimate is still returned, and the caller
/// tolerates the approximation.
pub fn solve_newton_raphson_with_convergence(
    f: &KeplerEquation,
    initial_guess: &Scalar,
    tolerance: &Scalar,
    max_iterations: u32,
) -> (r: (Scalar, bool))
    ensures
        r.0@ == newton_iterate(
            f.eccentricity@,
            f.mean_anomaly@,
            initial_guess@,
            tolerance@,
            max_iterations as nat,
        ),
        r.1 == newton_converges(
            f.eccentricity@,
            f.mean_anomaly@,
            initial_guess@,
            tolerance@,
            max_iterations as nat,
        ),
{
    let mut x = initial_guess.dup();
    let mut i: u32 = 0;
    while i < max_iterations
        invariant
            i <= max_iterations,
            newton_iterate(
                f.eccentricity@,
                f.mean_anomaly@,
                initial_guess@,
                tolerance@,
                max_iterations as nat,
            ) == newton_iterate(
                f.eccentricity@,
                f.mean_anomaly@,
                x@,
                tolerance@,
                (max_iterations - i) as nat,
            ),
            newton_converges(
                f.eccentricity@,
                f.mean_anomaly@,
                initial_guess@,
                tolerance@,
                max_iterations as nat,
            ) == newton_converges(
                f.eccentricity@,
                f.mean_anomaly@,
                x@,
                tolerance@,
                (max_iterations - i) as nat,
            ),
        decreases max_iterations - i,
    {
        let next = x.sub(&f.eval(&x).div(&f.eval_derivative(&x)));
        let converged = next.sub(&x).abs().lt(tolerance);
        if converged {
            return (next, true);
        }
        x = next;
        i = i + 1;
    }
    (x, false)
}

} // verus!
