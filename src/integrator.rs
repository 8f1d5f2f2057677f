use vstd::prelude::*;

verus! {

/// What a traced ray met.
#[derive(Clone, Copy, Debug, PartialEq, Eq, Structural)]
pub enum Bounce {
    /// No primitive was hit: the ray sees the sky.
    Miss,
    /// A primitive was hit and its material absorbed the ray.
    Absorbed,
    /// A primitive was hit and its material sent out a new ray.
    Scattered,
}

/// What the integrator does next with a path.
#[derive(Clone, Copy, Debug, PartialEq, Eq, Structural)]
pub enum Step {
    /// Trace the current ray against the scene.
    Trace,
    /// End the path with the accumulated attenuation times the background.
    Sky,
    /// End the path with black.
    Black,
}

/// The step that follows a ray that met `bounce`, when `traced` rays of a
/// path with a budget of `max_depth` have been traced so far.
pub open spec fn step_after(traced: nat, max_depth: nat, bounce: Bounce) -> Step {
    match bounce {
        Bounce::Miss => Step::Sky,
        Bounce::Absorbed => Step::Black,
        Bounce::Scattered => if traced < max_depth {
            Step::Trace
        } else {
            Step::Black
        },
    }
}

/// The bounce budget of one light path: how many rays it may trace, and how
/// many it has traced.
#[derive(Clone, Copy, Debug, PartialEq, Eq, Structural)]
pub struct Path {
    pub max_depth: u32,
    pub traced: u32,
}

impl Path {
    pub open spec fn wf(self) -> bool {
        self.traced <= self.max_depth
    }

    /// A path that has traced nothing yet.
    pub fn new(max_depth: u32) -> (r: Path)
        ensures
            r.max_depth == max_depth,
            r.traced == 0,
            r.wf(),
    {
        Path { max_depth, traced: 0 }
    }

    /// The first step of the path: trace the primary ray, or end in black
    /// when the budget is zero.
    pub fn first(&self) -> (s: Step)
        ensures
            s == (if self.max_depth == 0 {
                Step::Black
            } else {
                Step::Trace
            }),
    {
        if self.max_depth == 0 {
            Step::Black
        } else {
            Step::Trace
        }
    }

    /// Counts a traced ray that met `bounce` and decides what follows: the
    /// sky on a miss, black on absorption, another trace after a scatter
    /// while the budget lasts, and black once it is spent.
    pub fn advance(&mut self, bounce: Bounce) -> (s: Step)
        requires
            old(self).traced < old(self).max_depth,
        ensures
            final(self).max_depth == old(self).max_depth,
            final(self).traced == old(self).traced + 1,
            final(self).wf(),
            s == step_after(final(self).traced as nat, final(self).max_depth as nat, bounce),
            s == Step::Trace ==> final(self).traced < final(self).max_depth,
    {
        self.traced = self.traced + 1;
        match bounce {
            Bounce::Miss => Step::Sky,
            Bounce::Absorbed => Step::Black,
            Bounce::Scattered => if self.traced < self.max_depth {
                Step::Trace
            } else {
                Step::Black
            },
        }
    }
}

} // verus!
