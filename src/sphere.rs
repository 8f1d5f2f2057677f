use vstd::prelude::*;

verus! {

/// The two roots of a ray-sphere quadratic, as ordered keys of the ray
/// parameter: `near` from `-half_b - sqrt(d)`, `far` from `-half_b + sqrt(d)`.
#[derive(Clone, Copy, Debug, PartialEq, Eq, Structural)]
pub struct Roots {
    pub near: u32,
    pub far: u32,
}

impl Roots {
    /// The key of the given root.
    pub open spec fn at(self, root: Root) -> u32 {
        match root {
            Root::Near => self.near,
            Root::Far => self.far,
        }
    }

    /// The smaller root comes first.
    pub open spec fn ordered(self) -> bool {
        self.near <= self.far
    }
}

/// Which root of the quadratic an intersection uses.
#[derive(Clone, Copy, Debug, PartialEq, Eq, Structural)]
pub enum Root {
    Near,
    Far,
}

/// `t` lies in the closed interval `[t_min, t_max]`.
pub open spec fn within(t: u32, t_min: u32, t_max: u32) -> bool {
    t_min <= t && t <= t_max
}

/// The root an intersection takes in `[t_min, t_max]`: the near one when it
/// lies there, else the far one when it lies there, else none.
pub open spec fn root_choice(roots: Roots, t_min: u32, t_max: u32) -> Option<Root> {
    if within(roots.near, t_min, t_max) {
        Some(Root::Near)
    } else if within(roots.far, t_min, t_max) {
        Some(Root::Far)
    } else {
        None
    }
}

/// The ray parameter of the chosen root, if any.
pub open spec fn hit_param(roots: Roots, t_min: u32, t_max: u32) -> Option<u32> {
    match root_choice(roots, t_min, t_max) {
        Some(root) => Some(roots.at(root)),
        None => None,
    }
}

impl Roots {
    pub fn new(near: u32, far: u32) -> (r: Roots)
        ensures
            r.near == near,
            r.far == far,
    {
        Roots { near, far }
    }

    /// The key of the given root.
    pub fn param(&self, root: Root) -> (t: u32)
        ensures
            t == self.at(root),
    {
        match root {
            Root::Near => self.near,
            Root::Far => self.far,
        }
    }
}

/// Picks the root of a sphere intersection inside `[t_min, t_max]`, trying
/// the near root first.
pub fn choose_root(roots: Roots, t_min: u32, t_max: u32) -> (r: Option<Root>)
    ensures
        r == root_choice(roots, t_min, t_max),
{
    if t_min <= roots.near && roots.near <= t_max {
        Some(Root::Near)
    } else if t_min <= roots.far && roots.far <= t_max {
        Some(Root::Far)
    } else {
        None
    }
}

/// Narrowing the interval's upper end keeps a chosen root that still fits and
/// drops it otherwise; no other root can appear.
pub proof fn lemma_narrowed_choice(roots: Roots, t_min: u32, t_max: u32, bound: u32)
    requires
        roots.ordered(),
        bound <= t_max,
    ensures
        root_choice(roots, t_min, bound) == (match root_choice(roots, t_min, t_max) {
            Some(root) => if roots.at(root) <= bound {
                Some(root)
            } else {
                None
            },
            None => None,
        }),
        hit_param(roots, t_min, bound) == (match hit_param(roots, t_min, t_max) {
            Some(t) => if t <= bound {
                Some(t)
            } else {
                None
            },
            None => None,
        }),
{
}

} // verus!
