use raytracer::key::order_key;
use raytracer::scene::{closest_hit, Contact};
use raytracer::sphere::{choose_root, Root, Roots};

fn k(t: f32) -> u32 {
    order_key(t.to_bits())
}

#[test]
fn order_key_of_one() {
    assert_eq!(order_key(0x3f80_0000), 0xbf80_0000);
    assert_eq!(order_key(0xbf80_0000), 0x407f_ffff);
}

#[test]
fn order_key_follows_float_order() {
    let values: Vec<f32> = vec![-1000.0, -2.5, -1.0, -1e-3, 0.0, 1e-3, 0.5, 1.0, 2.0, 1e6, f32::MAX];
    for w in values.windows(2) {
        assert!(k(w[0]) < k(w[1]), "{} < {}", w[0], w[1]);
    }
    assert!(k(f32::MIN) < k(-1.0));
}

#[test]
fn near_root_in_range() {
    let r = Roots::new(k(2.0), k(4.0));
    assert_eq!(choose_root(r, k(1e-3), k(f32::MAX)), Some(Root::Near));
    assert_eq!(r.param(Root::Near), k(2.0));
    assert_eq!(r.param(Root::Far), k(4.0));
}

#[test]
fn far_root_when_near_is_behind() {
    // A ray starting inside the sphere: the near root is behind the origin.
    let r = Roots::new(k(-1.0), k(1.0));
    assert_eq!(choose_root(r, k(1e-3), k(f32::MAX)), Some(Root::Far));
}

#[test]
fn no_root_in_range() {
    let r = Roots::new(k(-3.0), k(-1.0));
    assert_eq!(choose_root(r, k(1e-3), k(f32::MAX)), None);
    let r = Roots::new(k(5.0), k(6.0));
    assert_eq!(choose_root(r, k(1e-3), k(4.0)), None);
}

#[test]
fn interval_ends_are_inclusive() {
    let r = Roots::new(k(1.0), k(3.0));
    assert_eq!(choose_root(r, k(1.0), k(1.0)), Some(Root::Near));
    assert_eq!(choose_root(r, k(2.0), k(3.0)), Some(Root::Far));
}

#[test]
fn empty_scene_has_no_hit() {
    assert_eq!(closest_hit(&vec![], k(1e-3), k(f32::MAX)), None);
    assert_eq!(closest_hit(&vec![None, None], k(1e-3), k(f32::MAX)), None);
}

#[test]
fn nearest_primitive_wins() {
    let roots = vec![
        Some(Roots::new(k(10.0), k(12.0))),
        None,
        Some(Roots::new(k(3.0), k(5.0))),
        Some(Roots::new(k(7.0), k(9.0))),
    ];
    let c = closest_hit(&roots, k(1e-3), k(f32::MAX)).unwrap();
    assert_eq!(c, Contact { index: 2, root: Root::Near, t: k(3.0) });
}

#[test]
fn equal_parameters_keep_the_last() {
    let roots = vec![Some(Roots::new(k(3.0), k(5.0))), Some(Roots::new(k(3.0), k(4.0)))];
    let c = closest_hit(&roots, k(1e-3), k(f32::MAX)).unwrap();
    assert_eq!(c.index, 1);
    assert_eq!(c.t, k(3.0));
}

#[test]
fn hit_beyond_t_max_is_ignored() {
    let roots = vec![Some(Roots::new(k(3.0), k(5.0)))];
    assert_eq!(closest_hit(&roots, k(1e-3), k(2.0)), None);
    let c = closest_hit(&roots, k(4.0), k(6.0)).unwrap();
    assert_eq!((c.root, c.t), (Root::Far, k(5.0)));
}

#[test]
fn scan_matches_brute_force_minimum() {
    // A deterministic pseudo-random scene; each primitive is checked alone
    // over the whole interval and the smallest parameter must win.
    let mut state: u64 = 0x2545_f491_4f6c_dd1d;
    let mut next = move || {
        state ^= state << 13;
        state ^= state >> 7;
        state ^= state << 17;
        ((state >> 40) as f32 / (1u64 << 24) as f32) * 40.0 - 10.0
    };
    for _ in 0..200 {
        let mut roots = Vec::new();
        for _ in 0..8 {
            let a = next();
            let b = next();
            if a > 25.0 {
                roots.push(None);
            } else {
                roots.push(Some(Roots::new(k(a.min(b)), k(a.max(b)))));
            }
        }
        let (lo, hi) = (k(1e-3), k(20.0));
        let mut best: Option<(usize, u32)> = None;
        for (i, r) in roots.iter().enumerate() {
            if let Some(r) = r {
                if let Some(root) = choose_root(*r, lo, hi) {
                    let t = r.param(root);
                    if best.map_or(true, |(_, b)| t <= b) {
                        best = Some((i, t));
                    }
                }
            }
        }
        let got = closest_hit(&roots, lo, hi).map(|c| (c.index, c.t));
        assert_eq!(got, best);
        if let Some((_, t)) = got {
            assert!(lo <= t && t <= hi);
        }
    }
}
