use vstd::prelude::*;

verus! {

/// What the scene did with the ray that a path currently follows.
#[derive(Debug, Clone, Copy, PartialEq, Eq, Structural)]
pub enum Interaction {
    /// Nothing was hit: the ray sees the sky.
    Miss,
    /// A surface was hit and its material absorbed the ray.
    Absorbed,
    /// A surface was hit and its material sent a new ray on.
    Scattered,
}

/// Where the light of a finished path comes from.
#[derive(Debug, Clone, Copy, PartialEq, Eq, Structural)]
pub enum PathEnd {
    /// No light: the bounce budget ran out or a material absorbed the ray.
    Black,
    /// The sky gradient in the direction of the last ray.
    Sky,
}

/// What to do next on a path.
#[derive(Debug, Clone, Copy, PartialEq, Eq, Structural)]
pub enum Decision {
    /// Query the scene with the current ray.
    Trace,
    /// Stop; the path's color is the product of the attenuations gathered so far
    /// times the light that the end gives.
    Finish(PathEnd),
}

/// The bounce budget of one light path: how many more times the scene may be
/// queried before the path counts as black.
#[derive(Debug, Clone, Copy, PartialEq, Eq, Structural)]
pub struct Path {
    pub depth: i32,
}

/// The decision for a path with `depth` bounces left.
pub open spec fn decide(depth: int) -> Decision {
    if depth <= 0 {
        Decision::Finish(PathEnd::Black)
    } else {
        Decision::Trace
    }
}

/// The bounces left, and the decision, after the scene answered `event` on a
/// path that had `depth` bounces left.
pub open spec fn answer(depth: int, event: Interaction) -> (int, Decision) {
    match event {
        Interaction::Miss => (depth, Decision::Finish(PathEnd::Sky)),
        Interaction::Absorbed => (depth, Decision::Finish(PathEnd::Black)),
        Interaction::Scattered => (depth - 1, decide(depth - 1)),
    }
}

/// How a path that starts with `depth` bounces left ends when the scene answers
/// its queries with `events`, in order; `None` while it is still tracing.
pub open spec fn run(depth: int, events: Seq<Interaction>) -> Option<PathEnd>
    decreases events.len(),
{
    if depth <= 0 {
        Some(PathEnd::Black)
    } else if events.len() == 0 {
        None
    } else {
        match events[0] {
            Interaction::Miss => Some(PathEnd::Sky),
            Interaction::Absorbed => Some(PathEnd::Black),
            Interaction::Scattered => run(depth - 1, events.drop_first()),
        }
    }
}

/// How many times that path queries the scene.
pub open spec fn queries(depth: int, events: Seq<Interaction>) -> nat
    decreases events.len(),
{
    if depth <= 0 || events.len() == 0 {
        0
    } else {
        match events[0] {
            Interaction::Scattered => 1 + queries(depth - 1, events.drop_first()),
            _ => 1,
        }
    }
}

impl Path {
    /// A path that may bounce `max_depth` times.
    pub fn new(max_depth: i32) -> (p: Path)
        ensures
            p.depth == max_depth,
    {
        Path { depth: max_depth }
    }

    /// The first decision on the path: trace, unless no bounce is left.
    pub fn begin(&self) -> (d: Decision)
        ensures
            d == decide(self.depth as int),
    {
        if self.depth <= 0 {
            Decision::Finish(PathEnd::Black)
        } else {
            Decision::Trace
        }
    }

    /// Records what the scene did with the current ray and decides what follows.
    pub fn record(&mut self, event: Interaction) -> (d: Decision)
        requires
            old(self).depth > 0,
        ensures
            (final(self).depth as int, d) == answer(old(self).depth as int, event),
    {
        match event {
            Interaction::Miss => Decision::Finish(PathEnd::Sky),
            Interaction::Absorbed => Decision::Finish(PathEnd::Black),
            Interaction::Scattered => {
                self.depth = self.depth - 1;
                self.begin()
            },
        }
    }
}

/// A path with no bounce left is black, whatever the ray and the scene, and the
/// scene is never queried.
pub proof fn lemma_exhausted_path_is_black(depth: int, events: Seq<Interaction>)
    requires
        depth <= 0,
    ensures
        run(depth, events) == Some(PathEnd::Black),
        queries(depth, events) == 0,
{
}

/// The bounce budget is enforced whatever the scene answers, two facing mirrors
/// included: a path starting with `depth` bounces left queries the scene at most
/// `depth` times, and has ended once the scene answered that many queries.
pub proof fn lemma_budget_bounds_path(depth: int, events: Seq<Interaction>)
    ensures
        queries(depth, events) <= if depth > 0 { depth } else { 0 },
        events.len() >= depth ==> run(depth, events) is Some,
    decreases events.len(),
{
    if depth > 0 && events.len() > 0 {
        lemma_budget_bounds_path(depth - 1, events.drop_first());
    }
}

/// Each answer of the scene moves a path along `run`: the decision that `answer`
/// gives is the end of the path, or a further query on the rest of the answers.
pub proof fn lemma_answer_follows_run(depth: int, events: Seq<Interaction>)
    requires
        depth > 0,
        events.len() > 0,
    ensures
        ({
            let (next, d) = answer(depth, events[0]);
            match d {
                Decision::Finish(end) => run(depth, events) == Some(end),
                Decision::Trace => run(depth, events) == run(next, events.drop_first()),
            }
        }),
{
}

} // verus!
