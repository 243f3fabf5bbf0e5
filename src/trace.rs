use vstd::prelude::*;

verus! {

/// The deepest recursion level that is still shaded; a call at a greater depth
/// returns black.
pub const MAX_DEPTH: u32 = 5;

/// What one call of the tracer does with its ray.
#[derive(Clone, Copy, Debug, PartialEq, Eq, Structural)]
pub enum TraceStep {
    /// The depth limit is passed: the result is black, nothing more is traced.
    Black,
    /// Nothing was hit: the result is the background colour.
    Background,
    /// A surface was hit: it is shaded, and secondary rays go one level deeper.
    Shade,
}

/// What the refracted term of a shaded hit is made of.
#[derive(Clone, Copy, Debug, PartialEq, Eq, Structural)]
pub enum RefractTerm {
    /// The material is opaque, or the ray is totally internally reflected.
    Black,
    /// A transmitted ray is traced one level deeper.
    Trace,
}

pub open spec fn step_of(depth: nat, hit: bool) -> TraceStep {
    if depth > MAX_DEPTH {
        TraceStep::Black
    } else if hit {
        TraceStep::Shade
    } else {
        TraceStep::Background
    }
}

/// Decides what a call at `depth` does; `hit` says whether the ray meets any
/// primitive of the scene.
pub fn trace_step(depth: u32, hit: bool) -> (r: TraceStep)
    ensures
        r == step_of(depth as nat, hit),
{
    if depth > MAX_DEPTH {
        TraceStep::Black
    } else if hit {
        TraceStep::Shade
    } else {
        TraceStep::Background
    }
}

/// The depth of the secondary rays cast from a shaded hit.
pub fn child_depth(depth: u32) -> (r: u32)
    requires
        depth <= MAX_DEPTH,
    ensures
        r == depth + 1,
{
    depth + 1
}

/// The refracted term is traced only for a transparent material whose
/// refraction yields a transmitted direction.
pub fn refract_term(transparent: bool, transmitted: bool) -> (r: RefractTerm)
    ensures
        r == RefractTerm::Trace <==> (transparent && transmitted),
{
    if transparent && transmitted {
        RefractTerm::Trace
    } else {
        RefractTerm::Black
    }
}

/// The number of nested tracer calls that shade, starting at `depth`, along any
/// chain of secondary rays that all hit.
pub open spec fn shading_levels(depth: nat) -> nat
    decreases MAX_DEPTH + 1 - depth,
{
    if depth > MAX_DEPTH {
        0
    } else {
        1 + shading_levels(depth + 1)
    }
}

/// Any call past the depth limit is black, whatever the ray and the scene.
pub proof fn lemma_cutoff_is_black(depth: nat, hit: bool)
    requires
        depth > MAX_DEPTH,
    ensures
        step_of(depth, hit) == TraceStep::Black,
{
}

/// Recursion is bounded: from any depth at most `MAX_DEPTH + 1` levels shade,
/// and from the top level exactly that many.
pub proof fn lemma_recursion_bounded(depth: nat)
    ensures
        shading_levels(depth) <= MAX_DEPTH + 1,
        depth <= MAX_DEPTH + 1 ==> shading_levels(depth) == MAX_DEPTH + 1 - depth,
    decreases MAX_DEPTH + 1 - depth,
{
    if depth <= MAX_DEPTH {
        lemma_recursion_bounded(depth + 1);
    }
}

} // verus!
