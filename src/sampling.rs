use vstd::prelude::*;

verus! {

/// What to do after one candidate of a rejection-sampling loop was drawn.
#[derive(Debug, Clone, Copy, PartialEq, Eq, Structural)]
pub enum Draw {
    /// The candidate lies inside the target region: keep it.
    Accept,
    /// The candidate lies outside: draw another.
    Retry,
    /// The draw budget is spent, which a working generator practically never
    /// causes: report a numeric fault.
    Fault,
}

/// The draw budget of one rejection-sampling loop (a point in the unit sphere or
/// disk, drawn in its bounding cube or square until one falls inside). About two
/// draws are expected; `limit` guards against a broken generator.
#[derive(Debug, Clone, Copy, PartialEq, Eq, Structural)]
pub struct Rejection {
    pub draws: u32,
    pub limit: u32,
}

/// The draw budget used for sampling points in the unit sphere and disk.
pub const DRAW_LIMIT: u32 = 1000000;

impl Rejection {
    pub open spec fn wf(&self) -> bool {
        self.draws < self.limit
    }

    /// A loop that may draw `limit` candidates at most.
    pub fn new(limit: u32) -> (s: Rejection)
        requires
            limit > 0,
        ensures
            s.wf(),
            s.draws == 0,
            s.limit == limit,
    {
        Rejection { draws: 0, limit }
    }

    /// Records one more drawn candidate, which lies inside the region or not.
    pub fn record(&mut self, inside: bool) -> (d: Draw)
        requires
            old(self).wf(),
        ensures
            final(self).limit == old(self).limit,
            final(self).draws == old(self).draws + 1,
            inside ==> d == Draw::Accept,
            !inside && final(self).draws < final(self).limit ==> d == Draw::Retry,
            !inside && final(self).draws == final(self).limit ==> d == Draw::Fault,
            d == Draw::Retry ==> final(self).wf(),
    {
        self.draws = self.draws + 1;
        if inside {
            Draw::Accept
        } else if self.draws < self.limit {
            Draw::Retry
        } else {
            Draw::Fault
        }
    }
}

} // verus!
