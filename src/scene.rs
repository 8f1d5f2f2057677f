use vstd::prelude::*;
use crate::sphere::{Roots, Root, root_choice, hit_param, choose_root, lemma_narrowed_choice};

verus! {

/// The closest intersection found over a scene: which primitive, which root
/// of its quadratic, and the key of the ray parameter.
#[derive(Clone, Copy, Debug, PartialEq, Eq, Structural)]
pub struct Contact {
    pub index: usize,
    pub root: Root,
    pub t: u32,
}

/// The ray parameter that primitive `i` offers in `[t_min, t_max]`.
pub open spec fn param_at(roots: Seq<Option<Roots>>, i: int, t_min: u32, t_max: u32) -> Option<u32> {
    match roots[i] {
        Some(rs) => hit_param(rs, t_min, t_max),
        None => None,
    }
}

/// The linear scan over the scene with a shrinking interval: each primitive
/// is tested against `[t_min, t]` where `t` is the closest hit so far (or
/// `t_max` before any hit), and a hit there replaces the one held.
/// `None` in the sequence is a primitive the ray's line misses.
pub open spec fn scan(roots: Seq<Option<Roots>>, t_min: u32, t_max: u32) -> Option<Contact>
    decreases roots.len(),
{
    if roots.len() == 0 {
        None
    } else {
        let prev = scan(roots.drop_last(), t_min, t_max);
        let bound = match prev {
            Some(c) => c.t,
            None => t_max,
        };
        match roots.last() {
            Some(rs) => match root_choice(rs, t_min, bound) {
                Some(root) => Some(Contact {
                    index: (roots.len() - 1) as usize,
                    root,
                    t: rs.at(root),
                }),
                None => prev,
            },
            None => prev,
        }
    }
}

/// The closest hit over all primitives, in scene order, within
/// `[t_min, t_max]`. Each entry holds the roots of one primitive's quadratic,
/// or `None` where its discriminant is negative.
pub fn closest_hit(roots: &Vec<Option<Roots>>, t_min: u32, t_max: u32) -> (r: Option<Contact>)
    ensures
        r == scan(roots@, t_min, t_max),
        r matches Some(c) ==> t_min <= c.t <= t_max && c.index < roots.len(),
{
    let mut closest: Option<Contact> = None;
    let mut i: usize = 0;
    while i < roots.len()
        invariant
            i <= roots.len(),
            closest == scan(roots@.subrange(0, i as int), t_min, t_max),
        decreases roots.len() - i,
    {
        proof {
            lemma_scan_in_range(roots@.subrange(0, i as int), t_min, t_max);
        }
        let bound = match closest {
            Some(c) => c.t,
            None => t_max,
        };
        match roots[i] {
            Some(rs) => match choose_root(rs, t_min, bound) {
                Some(root) => {
                    closest = Some(Contact { index: i, root, t: rs.param(root) });
                },
                None => {},
            },
            None => {},
        }
        assert(roots@.subrange(0, i + 1).drop_last() =~= roots@.subrange(0, i as int));
        i = i + 1;
    }
    assert(roots@.subrange(0, roots.len() as int) =~= roots@);
    proof {
        lemma_scan_in_range(roots@, t_min, t_max);
    }
    closest
}

/// The scan never reports a parameter outside `[t_min, t_max]`, nor an
/// index past the scene's end.
pub proof fn lemma_scan_in_range(roots: Seq<Option<Roots>>, t_min: u32, t_max: u32)
    ensures
        scan(roots, t_min, t_max) matches Some(c) ==> t_min <= c.t <= t_max && c.index < roots.len(),
    decreases roots.len(),
{
    if roots.len() > 0 {
        lemma_scan_in_range(roots.drop_last(), t_min, t_max);
    }
}

/// Every primitive's roots come smaller first.
pub open spec fn all_ordered(roots: Seq<Option<Roots>>) -> bool {
    forall|i: int| 0 <= i < roots.len() ==> (#[trigger] roots[i] matches Some(rs) ==> rs.ordered())
}

/// The shrinking-interval scan agrees with a brute-force look at every
/// primitive over the whole interval `[t_min, t_max]`: it reports a hit
/// exactly when some primitive has one, and then a primitive with the
/// smallest parameter, the root that primitive takes on the whole interval,
/// and the last such primitive in scene order where several tie.
pub proof fn lemma_scan_is_nearest(roots: Seq<Option<Roots>>, t_min: u32, t_max: u32)
    requires
        all_ordered(roots),
        roots.len() <= usize::MAX,
    ensures
        match scan(roots, t_min, t_max) {
            None => forall|i: int| 0 <= i < roots.len() ==> #[trigger] param_at(roots, i, t_min, t_max) is None,
            Some(c) => {
                &&& c.index < roots.len()
                &&& roots[c.index as int] matches Some(rs)
                &&& root_choice(rs, t_min, t_max) == Some(c.root)
                &&& param_at(roots, c.index as int, t_min, t_max) == Some(c.t)
                &&& forall|i: int| 0 <= i < roots.len() ==>
                    (#[trigger] param_at(roots, i, t_min, t_max) matches Some(t) ==> c.t <= t)
                &&& forall|i: int| c.index < i < roots.len() ==>
                    (#[trigger] param_at(roots, i, t_min, t_max) matches Some(t) ==> c.t < t)
            },
        },
    decreases roots.len(),
{
    if roots.len() > 0 {
        let init = roots.drop_last();
        let n = roots.len() - 1;
        assert forall|i: int| 0 <= i < init.len() implies (#[trigger] init[i] matches Some(rs) ==> rs.ordered()) by {
            assert(init[i] == roots[i]);
        }
        lemma_scan_is_nearest(init, t_min, t_max);
        lemma_scan_in_range(init, t_min, t_max);
        assert forall|i: int| 0 <= i < n implies #[trigger] param_at(roots, i, t_min, t_max) == param_at(init, i, t_min, t_max) by {
            assert(init[i] == roots[i]);
        }
        let prev = scan(init, t_min, t_max);
        let bound = match prev {
            Some(c) => c.t,
            None => t_max,
        };
        if let Some(c) = prev {
            assert(roots[c.index as int] == init[c.index as int]);
        }
        match roots.last() {
            Some(rs) => {
                assert(roots[n] == Some(rs));
                lemma_narrowed_choice(rs, t_min, t_max, bound);
                match root_choice(rs, t_min, bound) {
                    Some(root) => {
                        assert(root_choice(rs, t_min, t_max) == Some(root));
                        assert(param_at(roots, n, t_min, t_max) == Some(rs.at(root)));
                    },
                    None => {
                        if prev is None {
                            assert(param_at(roots, n, t_min, t_max) is None);
                        }
                    },
                }
            },
            None => {
                assert(param_at(roots, n, t_min, t_max) is None);
            },
        }
    }
}

} // verus!
