//! The transitions of the Nelder-Mead simplex method.
//!
//! Objective values arrive as order keys (see `ordering::order_key`): the
//! transitions depend only on how the values compare.
use vstd::prelude::*;

verus! {

/// What the simplex method does next within one iteration.
#[derive(Clone, Copy, Debug, PartialEq, Eq, Structural)]
pub enum Move {
    /// Replace the worst vertex by the reflected point.
    AcceptReflection,
    /// Evaluate the expanded point, then call `expansion_move`.
    TryExpansion,
    /// Evaluate the contracted point, then call `contraction_move`.
    TryContraction,
    /// Replace the worst vertex by the expanded point.
    AcceptExpansion,
    /// Replace the worst vertex by the contracted point.
    AcceptContraction,
    /// Move every vertex but the best halfway towards the best.
    Shrink,
}

/// The move after the reflected point was evaluated, from the keys of the
/// best vertex, the second-worst vertex and the reflected point.
pub fn reflection_move(best: u64, second_worst: u64, reflected: u64) -> (m: Move)
    ensures
        (m == Move::AcceptReflection) <==> (best <= reflected && reflected < second_worst),
        (m == Move::TryExpansion) <==> reflected < best,
        (m == Move::TryContraction) <==> (best <= reflected && second_worst <= reflected),
{
    if best <= reflected && reflected < second_worst {
        Move::AcceptReflection
    } else if reflected < best {
        Move::TryExpansion
    } else {
        Move::TryContraction
    }
}

/// The move after the expanded point was evaluated: it is kept if it is at
/// least as good as the reflected point.
pub fn expansion_move(reflected: u64, expanded: u64) -> (m: Move)
    ensures
        (m == Move::AcceptExpansion) <==> expanded <= reflected,
        (m == Move::AcceptReflection) <==> reflected < expanded,
{
    if expanded <= reflected {
        Move::AcceptExpansion
    } else {
        Move::AcceptReflection
    }
}

/// The move after the contracted point was evaluated: it is kept if it
/// improves on the worst vertex, else the simplex shrinks.
pub fn contraction_move(worst: u64, contracted: u64) -> (m: Move)
    ensures
        (m == Move::AcceptContraction) <==> contracted < worst,
        (m == Move::Shrink) <==> worst <= contracted,
{
    if contracted < worst {
        Move::AcceptContraction
    } else {
        Move::Shrink
    }
}

} // verus!
