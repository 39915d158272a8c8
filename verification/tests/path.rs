use raytracer::camera::{Bounce, Radiance, Trace};

#[test]
fn no_depth_gives_black_at_once() {
    let trace = Trace::begin(0);
    assert_eq!(trace, Trace::Exhausted);
    assert!(trace.is_terminal());
    assert_eq!(trace.radiance(), Some(Radiance::Black));
}

#[test]
fn path_with_depth_begins_tracing() {
    let trace = Trace::begin(50);
    assert_eq!(trace, Trace::Tracing(50));
    assert!(!trace.is_terminal());
    assert_eq!(trace.radiance(), None);
}

#[test]
fn miss_ends_the_path_with_the_background() {
    let trace = Trace::begin(3).step(Bounce::Miss);
    assert_eq!(trace, Trace::Escaped);
    assert_eq!(trace.radiance(), Some(Radiance::Background));
}

#[test]
fn absorption_ends_the_path_in_black() {
    let trace = Trace::begin(3).step(Bounce::Scattered).step(Bounce::Absorbed);
    assert_eq!(trace, Trace::Absorbed);
    assert_eq!(trace.radiance(), Some(Radiance::Black));
}

#[test]
fn scattering_uses_up_the_depth() {
    let mut trace = Trace::begin(3);
    trace = trace.step(Bounce::Scattered);
    assert_eq!(trace, Trace::Tracing(2));
    trace = trace.step(Bounce::Scattered);
    assert_eq!(trace, Trace::Tracing(1));
    trace = trace.step(Bounce::Scattered);
    assert_eq!(trace, Trace::Exhausted);
    assert_eq!(trace.radiance(), Some(Radiance::Black));
}

#[test]
fn last_bounce_may_still_escape() {
    let trace = Trace::begin(2).step(Bounce::Scattered).step(Bounce::Miss);
    assert_eq!(trace, Trace::Escaped);
}

#[test]
fn ended_path_stays_as_it_is() {
    for ended in [Trace::Exhausted, Trace::Escaped, Trace::Absorbed] {
        for bounce in [Bounce::Miss, Bounce::Absorbed, Bounce::Scattered] {
            assert_eq!(ended.step(bounce), ended);
        }
    }
}

#[test]
fn path_ends_within_its_depth() {
    for depth in 0usize..6 {
        let mut trace = Trace::begin(depth);
        let mut bounces = 0;
        while !trace.is_terminal() {
            trace = trace.step(Bounce::Scattered);
            bounces += 1;
        }
        assert_eq!(bounces, depth);
        assert_eq!(trace, Trace::Exhausted);
    }
}
