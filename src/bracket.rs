//! Sign tests that keep a bracket around a root, and the failures that the
//! reporting solvers return.
use vstd::prelude::*;

verus! {

/// How a value compares with zero; `Unordered` for a value that compares
/// with nothing (not a number).
#[derive(Clone, Copy, Debug, PartialEq, Eq, Structural)]
pub enum Sign {
    Negative,
    Zero,
    Positive,
    Unordered,
}

/// The class of a reported failure.
#[derive(Clone, Copy, Debug, PartialEq, Eq, Structural)]
pub enum FailureKind {
    /// The iteration budget ran out before the convergence test was met.
    NonConvergence,
    /// The interval does not hold a sign change.
    InvalidBracket,
}

/// A failure with its reason.
#[derive(Clone, Copy, Debug)]
pub struct SolveError {
    pub kind: FailureKind,
    pub reason: &'static str,
}

/// Which half of the bracket keeps the sign change after the midpoint `c` of
/// `[a, b]` was evaluated.
#[derive(Clone, Copy, Debug, PartialEq, Eq, Structural)]
pub enum Half {
    /// `[a, c]`: `c` becomes the right end.
    Left,
    /// `[c, b]`: `c` becomes the left end.
    Right,
}

/// The bisection step, from the signs of `f(a)·f(c)` and `f(b)·f(c)`: the left
/// half when the first is negative, else the right half when the second is,
/// else a failure, since neither half holds a sign change.
pub fn bisect_step(left: Sign, right: Sign) -> (r: Result<Half, SolveError>)
    ensures
        (r == Ok::<Half, SolveError>(Half::Left)) <==> left == Sign::Negative,
        (r == Ok::<Half, SolveError>(Half::Right)) <==> (left != Sign::Negative && right
            == Sign::Negative),
        r is Err <==> (left != Sign::Negative && right != Sign::Negative),
        r is Err ==> r->Err_0.kind == FailureKind::InvalidBracket,
{
    if left == Sign::Negative {
        Ok(Half::Left)
    } else if right == Sign::Negative {
        Ok(Half::Right)
    } else {
        Err(SolveError { kind: FailureKind::InvalidBracket, reason: "the interval does not bracket the root" })
    }
}

/// How Ridder's method starts on `[a, b]`.
#[derive(Clone, Copy, Debug, PartialEq, Eq, Structural)]
pub enum RidderStart {
    /// `a` is an exact root: return it.
    RootAtLeft,
    /// `b` is an exact root: return it.
    RootAtRight,
    /// Iterate on the bracket.
    Iterate,
}

/// The start of Ridder's method, from the signs of `f(a)`, `f(b)` and
/// `f(a)·f(b)`: an endpoint that is an exact root is returned at once (`a`
/// first), and a product of one sign on both ends is an invalid bracket.
pub fn ridder_start(fa: Sign, fb: Sign, fa_fb: Sign) -> (r: Result<RidderStart, SolveError>)
    ensures
        (r == Ok::<RidderStart, SolveError>(RidderStart::RootAtLeft)) <==> fa == Sign::Zero,
        (r == Ok::<RidderStart, SolveError>(RidderStart::RootAtRight)) <==> (fa != Sign::Zero
            && fb == Sign::Zero),
        r is Err <==> (fa != Sign::Zero && fb != Sign::Zero && fa_fb == Sign::Positive),
        r is Err ==> r->Err_0.kind == FailureKind::InvalidBracket,
        (r == Ok::<RidderStart, SolveError>(RidderStart::Iterate)) <==> (fa != Sign::Zero && fb
            != Sign::Zero && fa_fb != Sign::Positive),
{
    if fa == Sign::Zero {
        Ok(RidderStart::RootAtLeft)
    } else if fb == Sign::Zero {
        Ok(RidderStart::RootAtRight)
    } else if fa_fb == Sign::Positive {
        Err(SolveError { kind: FailureKind::InvalidBracket, reason: "root is not bracketed" })
    } else {
        Ok(RidderStart::Iterate)
    }
}

/// The new bracket after a Ridder step, with `c` the midpoint of `[a, b]` and
/// `x` the corrected estimate.
#[derive(Clone, Copy, Debug, PartialEq, Eq, Structural)]
pub enum Rebracket {
    /// `[a, x]`.
    LeftToEstimate,
    /// `[x, b]`.
    EstimateToRight,
    /// `[c, x]`.
    MidpointToEstimate,
}

/// The tightest bracket known to hold a root, from the signs of `f(c)·f(x)`
/// and `f(a)·f(x)`: when `f(c)` and `f(x)` agree in sign, the end whose value
/// differs in sign from `f(x)` is kept; otherwise `[c, x]` holds the change.
pub fn ridder_rebracket(fc_fx: Sign, fa_fx: Sign) -> (r: Rebracket)
    ensures
        (r == Rebracket::LeftToEstimate) <==> (fc_fx == Sign::Positive && fa_fx == Sign::Negative),
        (r == Rebracket::EstimateToRight) <==> (fc_fx == Sign::Positive && fa_fx
            != Sign::Negative),
        (r == Rebracket::MidpointToEstimate) <==> fc_fx != Sign::Positive,
{
    if fc_fx == Sign::Positive {
        if fa_fx == Sign::Negative {
            Rebracket::LeftToEstimate
        } else {
            Rebracket::EstimateToRight
        }
    } else {
        Rebracket::MidpointToEstimate
    }
}

} // verus!
