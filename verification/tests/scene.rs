use raytracer::hittable::{Crossing, Hit, HittableList};
use raytracer::interval::{Interval, INFINITY, NEG_INFINITY};

/// The key of a scalar: its sign and magnitude read as an integer.
fn scene_key(x: f64) -> i64 {
    assert!(!x.is_nan());
    if x == f64::INFINITY {
        return INFINITY;
    }
    if x == f64::NEG_INFINITY {
        return NEG_INFINITY;
    }
    let bits = x.to_bits();
    let magnitude = (bits & 0x7fff_ffff_ffff_ffff) as i64;
    if bits >> 63 == 1 {
        -magnitude
    } else {
        magnitude
    }
}

/// The crossing of the ray from `origin` along `direction` with the sphere
/// around `center`.
fn sphere_crossing(origin: [f64; 3], direction: [f64; 3], center: [f64; 3], radius: f64) -> Crossing {
    let oc = [center[0] - origin[0], center[1] - origin[1], center[2] - origin[2]];
    let a = direction[0] * direction[0] + direction[1] * direction[1] + direction[2] * direction[2];
    let h = direction[0] * oc[0] + direction[1] * oc[1] + direction[2] * oc[2];
    let c = oc[0] * oc[0] + oc[1] * oc[1] + oc[2] * oc[2] - radius * radius;
    let discriminant = h * h - a * c;
    if discriminant < 0.0 {
        return Crossing::Apart;
    }
    let near = (h - discriminant.sqrt()) / a;
    let far = (h + discriminant.sqrt()) / a;
    Crossing::Through { near: scene_key(near), far: scene_key(far) }
}

#[test]
fn keys_keep_order_sign_and_symmetry() {
    let scalars = [
        f64::NEG_INFINITY,
        -1.0e300,
        -2.5,
        -1.0,
        -1.0e-300,
        0.0,
        1.0e-300,
        0.001,
        1.0,
        2.5,
        1.0e300,
        f64::INFINITY,
    ];
    for pair in scalars.windows(2) {
        assert!(scene_key(pair[0]) < scene_key(pair[1]));
    }
    for x in scalars {
        assert_eq!(scene_key(-x), -scene_key(x));
    }
    assert_eq!(scene_key(0.0), 0);
    assert_eq!(scene_key(-0.0), 0);
}

#[test]
fn interval_excludes_its_bounds() {
    let interval = Interval::new(10, 20);
    assert_eq!(interval.min, 10);
    assert_eq!(interval.max, 20);
    assert!(!interval.contains(9));
    assert!(!interval.contains(10));
    assert!(interval.contains(11));
    assert!(interval.contains(19));
    assert!(!interval.contains(20));
    assert!(!interval.contains(21));
}

#[test]
fn crossed_interval_contains_nothing() {
    let interval = Interval::new(5, 5);
    assert!(!interval.contains(5));
    let interval = Interval::new(6, 4);
    assert!(!interval.contains(5));
}

#[test]
fn clamp_saturates_to_the_bounds() {
    let interval = Interval::new(-3, 8);
    assert_eq!(interval.clamp(-100), -3);
    assert_eq!(interval.clamp(-3), -3);
    assert_eq!(interval.clamp(0), 0);
    assert_eq!(interval.clamp(8), 8);
    assert_eq!(interval.clamp(9), 8);
    let colours = Interval::new(scene_key(0.0), scene_key(0.999));
    assert_eq!(colours.clamp(scene_key(1.7)), scene_key(0.999));
    assert_eq!(colours.clamp(scene_key(-0.2)), scene_key(0.0));
    assert_eq!(colours.clamp(scene_key(0.25)), scene_key(0.25));
}

#[test]
fn unbounded_interval_holds_all_but_the_infinities() {
    let all = Interval::new_inf();
    assert_eq!(all, Interval::new(NEG_INFINITY, INFINITY));
    assert!(all.contains(0));
    assert!(all.contains(scene_key(-1.0e308)));
    assert!(all.contains(scene_key(1.0e308)));
    assert!(!all.contains(scene_key(f64::INFINITY)));
    assert!(!all.contains(scene_key(f64::NEG_INFINITY)));
}

#[test]
fn nearer_root_is_taken_when_inside() {
    let crossing = Crossing::Through { near: 5, far: 9 };
    assert_eq!(crossing.hit(Interval::new(0, 100)), Some(5));
}

#[test]
fn farther_root_is_taken_when_the_nearer_is_outside() {
    let crossing = Crossing::Through { near: -4, far: 9 };
    assert_eq!(crossing.hit(Interval::new(0, 100)), Some(9));
    let crossing = Crossing::Through { near: 0, far: 9 };
    assert_eq!(crossing.hit(Interval::new(0, 100)), Some(9));
}

#[test]
fn no_hit_when_both_roots_are_outside() {
    let interval = Interval::new(0, 100);
    assert_eq!(Crossing::Through { near: -9, far: -4 }.hit(interval), None);
    assert_eq!(Crossing::Through { near: 100, far: 120 }.hit(interval), None);
    assert_eq!(Crossing::Through { near: -1, far: 100 }.hit(interval), None);
    assert_eq!(Crossing::Through { near: 0, far: 0 }.hit(interval), None);
}

#[test]
fn no_hit_when_the_line_passes_by() {
    assert_eq!(Crossing::Apart.hit(Interval::new_inf()), None);
}

#[test]
fn sphere_ahead_is_hit_at_its_near_side() {
    let crossing = sphere_crossing([0.0, 0.0, 0.0], [0.0, 0.0, -1.0], [0.0, 0.0, -1.0], 0.5);
    let window = Interval::new(scene_key(0.001), INFINITY);
    assert_eq!(crossing.hit(window), Some(scene_key(0.5)));
}

#[test]
fn ray_from_inside_leaves_at_the_far_side() {
    let crossing = sphere_crossing([0.0, 0.0, -1.0], [0.0, 0.0, -1.0], [0.0, 0.0, -1.0], 0.5);
    let window = Interval::new(scene_key(0.001), INFINITY);
    assert_eq!(crossing.hit(window), Some(scene_key(0.5)));
    assert_eq!(crossing, Crossing::Through { near: scene_key(-0.5), far: scene_key(0.5) });
}

#[test]
fn sphere_behind_or_aside_is_not_hit() {
    let window = Interval::new(scene_key(0.001), INFINITY);
    let behind = sphere_crossing([0.0, 0.0, 0.0], [0.0, 0.0, -1.0], [0.0, 0.0, 2.0], 0.5);
    assert_eq!(behind.hit(window), None);
    let aside = sphere_crossing([0.0, 0.0, 0.0], [0.0, 0.0, -1.0], [3.0, 0.0, -1.0], 0.5);
    assert_eq!(aside, Crossing::Apart);
    assert_eq!(aside.hit(window), None);
}

#[test]
fn surface_is_not_hit_again_at_the_origin_of_the_ray() {
    let crossing = sphere_crossing([0.0, 0.0, -0.5], [0.0, 0.0, 1.0], [0.0, 0.0, -1.0], 0.5);
    let window = Interval::new(scene_key(0.001), INFINITY);
    assert_eq!(crossing.hit(window), None);
}

#[test]
fn empty_scene_is_never_hit() {
    let scene = HittableList::new();
    assert_eq!(scene.0.len(), 0);
    assert_eq!(scene.hit(Interval::new_inf()), None);
}

#[test]
fn nearest_of_overlapping_spheres_is_found_in_any_order() {
    let origin = [0.0, 0.0, 0.0];
    let direction = [0.0, 0.0, -1.0];
    let window = Interval::new(scene_key(0.001), INFINITY);
    let spheres = [
        ([0.0, 0.0, -3.0], 1.0),
        ([0.0, 0.0, -2.0], 1.0),
        ([0.0, 0.2, -2.5], 1.0),
        ([5.0, 0.0, -1.0], 0.5),
    ];
    let orders: [[usize; 4]; 4] = [[0, 1, 2, 3], [3, 2, 1, 0], [1, 0, 3, 2], [2, 3, 0, 1]];
    for order in orders {
        let mut scene = HittableList::new();
        for &k in order.iter() {
            scene.0.push(sphere_crossing(origin, direction, spheres[k].0, spheres[k].1));
        }
        let found = scene.hit(window).unwrap();
        assert_eq!(order[found.index], 1);
        assert_eq!(found.t, scene_key(1.0));
        for crossing in scene.0.iter() {
            if let Some(t) = crossing.hit(window) {
                assert!(found.t <= t);
            }
        }
    }
}

#[test]
fn first_of_equal_hits_is_kept() {
    let mut scene = HittableList::new();
    scene.0.push(Crossing::Through { near: 7, far: 9 });
    scene.0.push(Crossing::Through { near: 4, far: 6 });
    scene.0.push(Crossing::Through { near: 4, far: 8 });
    scene.0.push(Crossing::Apart);
    assert_eq!(scene.hit(Interval::new(0, 100)), Some(Hit { index: 1, t: 4 }));
}

#[test]
fn scene_is_missed_when_every_surface_is() {
    let mut scene = HittableList::new();
    scene.0.push(Crossing::Apart);
    scene.0.push(Crossing::Through { near: -7, far: -2 });
    scene.0.push(Crossing::Through { near: 100, far: 200 });
    assert_eq!(scene.hit(Interval::new(0, 100)), None);
}

#[test]
fn far_side_of_an_enclosing_surface_loses_to_a_nearer_one() {
    let mut scene = HittableList::new();
    scene.0.push(Crossing::Through { near: -50, far: 50 });
    scene.0.push(Crossing::Through { near: 20, far: 30 });
    assert_eq!(scene.hit(Interval::new(0, 100)), Some(Hit { index: 1, t: 20 }));
}

#[test]
fn outer_shell_of_concentric_spheres_is_hit_first() {
    let center = [-1.1, 0.0, -1.0];
    let origin = [0.0, 0.0, 0.0];
    let direction = [-1.1, 0.0, -1.0];
    let window = Interval::new(scene_key(0.001), INFINITY);
    let mut scene = HittableList::new();
    scene.0.push(sphere_crossing(origin, direction, center, 0.4));
    scene.0.push(sphere_crossing(origin, direction, center, 0.5));
    let found = scene.hit(window).unwrap();
    assert_eq!(found.index, 1);
    let a: f64 = 1.1 * 1.1 + 1.0;
    let h: f64 = a;
    let c: f64 = a - 0.5 * 0.5;
    let analytic = (h - (h * h - a * c).sqrt()) / a;
    assert_eq!(found.t, scene_key(analytic));
    assert!((analytic - (1.0 - 0.5 / a.sqrt())).abs() < 1.0e-12);

    let grazing = [-1.1, 0.45, -1.0];
    let mut scene = HittableList::new();
    scene.0.push(sphere_crossing(origin, grazing, center, 0.4));
    scene.0.push(sphere_crossing(origin, grazing, center, 0.5));
    assert_eq!(scene.0[0], Crossing::Apart);
    let found = scene.hit(window).unwrap();
    assert_eq!(found.index, 1);
}
