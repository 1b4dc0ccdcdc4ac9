//! The decision structure of the recursive light-transport walk.
//!
//! Resolving a ray's color alternates numeric work — intersecting the
//! scene, asking the hit material to scatter — with exact decisions: stop
//! when the depth budget is exhausted, stop when the material absorbs the
//! ray, emit the sky gradient on a miss, and otherwise follow the scattered
//! ray with one less unit of budget. The numeric work is floating point and
//! stays outside this crate; the decisions are made here.

use vstd::prelude::*;

verus! {

/// What one cast of a ray against the scene reported.
#[derive(Clone, Copy, Debug, PartialEq, Eq, Structural)]
pub enum SurfaceEvent {
    /// The ray hit nothing.
    Miss,
    /// The ray hit a surface whose material absorbed it.
    Absorbed,
    /// The ray hit a surface whose material scattered it into a new ray.
    Scattered,
}

/// What the walk does next with the event.
#[derive(Clone, Copy, Debug, PartialEq, Eq, Structural)]
pub enum TraceStep {
    /// Contribute no light: the budget ran out or the ray was absorbed.
    EmitBlack,
    /// Contribute the sky gradient: the ray left the scene.
    EmitSky,
    /// Follow the scattered ray, attenuated, with one less unit of budget.
    Bounce,
}

/// The walk's next move, as a function of the remaining depth budget and
/// the reported event. A budget of zero always ends the walk with black.
pub open spec fn step_of(depth: nat, event: SurfaceEvent) -> TraceStep {
    if depth == 0 {
        TraceStep::EmitBlack
    } else {
        match event {
            SurfaceEvent::Miss => TraceStep::EmitSky,
            SurfaceEvent::Absorbed => TraceStep::EmitBlack,
            SurfaceEvent::Scattered => TraceStep::Bounce,
        }
    }
}

/// Decides the walk's next move from the remaining depth budget and what
/// the scene reported.
pub fn next_step(depth: usize, event: SurfaceEvent) -> (r: TraceStep)
    ensures
        r == step_of(depth as nat, event),
{
    if depth == 0 {
        TraceStep::EmitBlack
    } else {
        match event {
            SurfaceEvent::Miss => TraceStep::EmitSky,
            SurfaceEvent::Absorbed => TraceStep::EmitBlack,
            SurfaceEvent::Scattered => TraceStep::Bounce,
        }
    }
}

/// With an exhausted depth budget the walk contributes black, whatever the
/// scene would have reported.
pub proof fn lemma_zero_depth_is_black(event: SurfaceEvent)
    ensures
        step_of(0, event) == TraceStep::EmitBlack,
{
}

/// How many bounces a walk takes: given the events the scene would report
/// at each successive cast, the walk keeps following scattered rays while
/// the budget lasts and stops at the first terminal step.
pub open spec fn bounces(depth: nat, events: Seq<SurfaceEvent>) -> nat
    decreases depth,
{
    if depth == 0 || events.len() == 0 {
        0
    } else if step_of(depth, events[0]) is Bounce {
        1 + bounces((depth - 1) as nat, events.drop_first())
    } else {
        0
    }
}

/// The depth budget bounds the walk: no sequence of scene events makes it
/// bounce more than `depth` times.
pub proof fn lemma_bounces_bounded(depth: nat, events: Seq<SurfaceEvent>)
    ensures
        bounces(depth, events) <= depth,
    decreases depth,
{
    if depth > 0 && events.len() > 0 && step_of(depth, events[0]) is Bounce {
        lemma_bounces_bounded((depth - 1) as nat, events.drop_first());
    }
}

} // verus!
