//! The bookkeeping of one light path: a path may bounce a limited number of
//! times, and ends in black or in the background. The radiance itself is not
//! computed here; this module decides how a path goes on.
use vstd::prelude::*;

verus! {

/// What the scene answered for one ray.
#[derive(Clone, Copy, Debug, PartialEq, Eq, Structural)]
pub enum Surface {
    /// The ray hit nothing.
    Miss,
    /// The ray hit a surface whose material absorbed it.
    Absorbed,
    /// The ray hit a surface whose material scattered it.
    Scattered,
}

/// How a path goes on.
#[derive(Clone, Copy, Debug, PartialEq, Eq, Structural)]
pub enum Step {
    /// The path ends and carries no light.
    Black,
    /// The path ends in the background and carries its light.
    Background,
    /// The path follows the scattered ray with this many bounces left.
    Bounce(i64),
}

/// Whether a path with `depth` bounces left may not ask the scene any more.
pub open spec fn exhausted(depth: i64) -> bool {
    depth <= 0
}

/// How a path with `depth` bounces left goes on after the answer `surface`.
pub open spec fn step_after(depth: i64, surface: Surface) -> Step {
    if exhausted(depth) {
        Step::Black
    } else {
        match surface {
            Surface::Miss => Step::Background,
            Surface::Absorbed => Step::Black,
            Surface::Scattered => Step::Bounce((depth - 1) as i64),
        }
    }
}

/// How a path ends that has `depth` bounces left and gets the answers
/// `surfaces` in turn. A path whose answers run out while it still bounces
/// ends in black.
pub open spec fn path_end(depth: i64, surfaces: Seq<Surface>) -> Step
    decreases surfaces.len(),
{
    if surfaces.len() == 0 {
        Step::Black
    } else {
        match step_after(depth, surfaces[0]) {
            Step::Bounce(left) => path_end(left, surfaces.skip(1)),
            end => end,
        }
    }
}

/// How many answers a path with `depth` bounces left uses of `surfaces`.
pub open spec fn path_len(depth: i64, surfaces: Seq<Surface>) -> nat
    decreases surfaces.len(),
{
    if surfaces.len() == 0 || exhausted(depth) {
        0
    } else {
        match step_after(depth, surfaces[0]) {
            Step::Bounce(left) => 1 + path_len(left, surfaces.skip(1)),
            _ => 1,
        }
    }
}

/// Whether a path with `depth` bounces left is at its end before it asks the
/// scene.
pub fn is_exhausted(depth: i64) -> (spent: bool)
    ensures
        spent == exhausted(depth),
{
    depth <= 0
}

/// Decides how a path with `depth` bounces left goes on after the scene's
/// answer.
pub fn next_step(depth: i64, surface: Surface) -> (step: Step)
    ensures
        step == step_after(depth, surface),
{
    if depth <= 0 {
        Step::Black
    } else {
        match surface {
            Surface::Miss => Step::Background,
            Surface::Absorbed => Step::Black,
            Surface::Scattered => Step::Bounce(depth - 1),
        }
    }
}

/// A path never asks the scene more often than it has bounces, whatever the
/// scene answers, and it ends in black or in the background.
pub proof fn lemma_path_is_bounded(depth: i64, surfaces: Seq<Surface>)
    ensures
        path_len(depth, surfaces) <= (if depth > 0 {
            depth as nat
        } else {
            0
        }),
        path_len(depth, surfaces) <= surfaces.len(),
        path_end(depth, surfaces) == Step::Black || path_end(depth, surfaces) == Step::Background,
    decreases surfaces.len(),
{
    if surfaces.len() > 0 {
        match step_after(depth, surfaces[0]) {
            Step::Bounce(left) => {
                lemma_path_is_bounded(left, surfaces.skip(1));
            },
            _ => {},
        }
    }
}

/// A path reaches the background only through a miss, and only when every
/// answer before it was a scatter.
pub proof fn lemma_background_needs_miss(depth: i64, surfaces: Seq<Surface>)
    requires
        path_end(depth, surfaces) == Step::Background,
    ensures
        path_len(depth, surfaces) >= 1,
        surfaces[path_len(depth, surfaces) - 1] == Surface::Miss,
        forall|k: int|
            0 <= k < path_len(depth, surfaces) - 1 ==> surfaces[k] == Surface::Scattered,
    decreases surfaces.len(),
{
    lemma_path_is_bounded(depth, surfaces);
    match step_after(depth, surfaces[0]) {
        Step::Bounce(left) => {
            let rest = surfaces.skip(1);
            lemma_background_needs_miss(left, rest);
            lemma_path_is_bounded(left, rest);
            assert forall|k: int| 0 <= k < path_len(depth, surfaces) - 1 implies surfaces[k]
                == Surface::Scattered by {
                if k > 0 {
                    assert(rest[k - 1] == surfaces[k]);
                }
            }
            assert(rest[path_len(left, rest) - 1] == surfaces[path_len(depth, surfaces) - 1]);
        },
        _ => {},
    }
}

} // verus!
