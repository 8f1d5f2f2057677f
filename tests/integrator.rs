use raytracer::integrator::{Bounce, Path, Step};

/// Runs a path over the given bounces and returns its final step and the
/// number of rays it traced.
fn run(max_depth: u32, bounces: &[Bounce]) -> (Step, u32) {
    let mut path = Path::new(max_depth);
    let mut step = path.first();
    let mut it = bounces.iter();
    while step == Step::Trace {
        let b = *it.next().expect("path asked for more rays than given");
        step = path.advance(b);
    }
    (step, path.traced)
}

#[test]
fn zero_budget_is_black() {
    assert_eq!(run(0, &[]), (Step::Black, 0));
}

#[test]
fn opaque_hit_at_depth_one_is_black() {
    assert_eq!(run(1, &[Bounce::Absorbed]), (Step::Black, 1));
}

#[test]
fn miss_at_depth_one_is_sky() {
    assert_eq!(run(1, &[Bounce::Miss]), (Step::Sky, 1));
}

#[test]
fn scatter_with_spent_budget_is_black() {
    assert_eq!(run(1, &[Bounce::Scattered]), (Step::Black, 1));
    assert_eq!(run(3, &[Bounce::Scattered, Bounce::Scattered, Bounce::Scattered]), (Step::Black, 3));
}

#[test]
fn scatters_then_sky() {
    assert_eq!(run(50, &[Bounce::Scattered, Bounce::Scattered, Bounce::Miss]), (Step::Sky, 3));
}

#[test]
fn scatter_then_absorb() {
    assert_eq!(run(5, &[Bounce::Scattered, Bounce::Absorbed]), (Step::Black, 2));
}
