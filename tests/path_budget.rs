use raytracer::trace::{Decision, Interaction, Path, PathEnd};

#[test]
fn no_bounce_left_is_black() {
    assert_eq!(Path::new(0).begin(), Decision::Finish(PathEnd::Black));
    assert_eq!(Path::new(-3).begin(), Decision::Finish(PathEnd::Black));
}

#[test]
fn miss_ends_in_sky() {
    let mut p = Path::new(50);
    assert_eq!(p.begin(), Decision::Trace);
    assert_eq!(p.record(Interaction::Miss), Decision::Finish(PathEnd::Sky));
    assert_eq!(p.depth, 50);
}

#[test]
fn absorption_ends_black() {
    let mut p = Path::new(5);
    assert_eq!(p.record(Interaction::Absorbed), Decision::Finish(PathEnd::Black));
}

#[test]
fn scatter_spends_one_bounce() {
    let mut p = Path::new(3);
    assert_eq!(p.record(Interaction::Scattered), Decision::Trace);
    assert_eq!(p.depth, 2);
    assert_eq!(p.record(Interaction::Miss), Decision::Finish(PathEnd::Sky));
}

#[test]
fn facing_mirrors_stop_at_the_budget() {
    let mut p = Path::new(4);
    let mut queries = 0;
    let mut d = p.begin();
    while d == Decision::Trace {
        queries += 1;
        d = p.record(Interaction::Scattered);
    }
    assert_eq!(queries, 4);
    assert_eq!(d, Decision::Finish(PathEnd::Black));
    assert_eq!(p.depth, 0);
}
