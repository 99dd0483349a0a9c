//! The steps of tracing one ray through a scene, with a hard bound on its bounces.
//!
//! The tracer starts with the maximum depth. While depth is left, the ray is cast;
//! what the scene does with it (a miss, a hit that absorbs, a hit that scatters)
//! decides the next step. A scattered ray is traced further with one less depth,
//! and its color is the material's attenuation times the color it brings back.

use vstd::prelude::*;

verus! {

/// What the scene did with a cast ray.
#[derive(Debug, Clone, Copy, PartialEq, Eq, Structural)]
pub enum Outcome {
    /// The ray hit nothing.
    Missed,
    /// The ray hit a material that absorbed it.
    Absorbed,
    /// The ray hit a material that scattered it.
    Scattered,
}

/// The next step of a trace.
#[derive(Debug, Clone, Copy, PartialEq, Eq, Structural)]
pub enum Step {
    /// The trace ends in black.
    Black,
    /// The trace ends in the scene's background, seen along the ray.
    Background,
    /// The scattered ray is traced with the given depth left; its color is
    /// attenuated by the material.
    Bounce(usize),
}

/// Whether a ray with `depth` left is cast at all: at depth 0 it is black.
pub fn casts(depth: usize) -> (b: bool)
    ensures
        b == (depth > 0),
{
    depth > 0
}

/// The step after a ray with `depth` left was cast.
pub open spec fn spec_after_cast(depth: nat, outcome: Outcome) -> Step {
    match outcome {
        Outcome::Missed => Step::Background,
        Outcome::Absorbed => Step::Black,
        Outcome::Scattered => Step::Bounce((depth - 1) as usize),
    }
}

/// Decides the step after a ray with `depth` left was cast.
pub fn after_cast(depth: usize, outcome: Outcome) -> (s: Step)
    requires
        depth > 0,
    ensures
        s == spec_after_cast(depth as nat, outcome),
{
    match outcome {
        Outcome::Missed => Step::Background,
        Outcome::Absorbed => Step::Black,
        Outcome::Scattered => Step::Bounce(depth - 1),
    }
}

/// Number of rays cast by a trace that starts with `depth` left, where the scene
/// answers the casts with `outcomes` in turn (a trace stops when they run out).
pub open spec fn rays_cast(depth: nat, outcomes: Seq<Outcome>) -> nat
    decreases depth,
{
    if depth == 0 || outcomes.len() == 0 {
        0
    } else {
        match spec_after_cast(depth, outcomes[0]) {
            Step::Bounce(d) => 1 + rays_cast(d as nat, outcomes.drop_first()),
            _ => 1,
        }
    }
}

/// A trace that starts with `max_depth` casts at most `max_depth` rays, whatever the
/// scene answers: the recursion ends regardless of the scene's geometry.
pub proof fn lemma_rays_cast_bounded(max_depth: nat, outcomes: Seq<Outcome>)
    ensures
        rays_cast(max_depth, outcomes) <= max_depth,
    decreases max_depth,
{
    if max_depth > 0 && outcomes.len() > 0 {
        match spec_after_cast(max_depth, outcomes[0]) {
            Step::Bounce(d) => {
                lemma_rays_cast_bounded(d as nat, outcomes.drop_first());
            },
            _ => {},
        }
    }
}

/// A trace whose every cast scatters casts exactly `max_depth` rays and ends in black.
pub proof fn lemma_scatter_until_depth(max_depth: nat, outcomes: Seq<Outcome>)
    requires
        max_depth <= usize::MAX,
        outcomes.len() >= max_depth,
        forall|i: int| 0 <= i < outcomes.len() ==> outcomes[i] == Outcome::Scattered,
    ensures
        rays_cast(max_depth, outcomes) == max_depth,
    decreases max_depth,
{
    if max_depth > 0 {
        let rest = outcomes.drop_first();
        assert forall|i: int| 0 <= i < rest.len() implies rest[i] == Outcome::Scattered by {
            assert(rest[i] == outcomes[i + 1]);
        }
        assert(outcomes[0] == Outcome::Scattered);
        assert(((max_depth - 1) as usize) as nat == max_depth - 1);
        lemma_scatter_until_depth((max_depth - 1) as nat, rest);
    }
}

} // verus!
