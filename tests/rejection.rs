use raytracer::sampling::{Draw, Rejection, DRAW_LIMIT};

#[test]
fn inside_candidate_is_kept() {
    let mut r = Rejection::new(DRAW_LIMIT);
    assert_eq!(r.record(false), Draw::Retry);
    assert_eq!(r.record(true), Draw::Accept);
    assert_eq!(r.draws, 2);
}

#[test]
fn spent_budget_is_a_fault() {
    let mut r = Rejection::new(3);
    assert_eq!(r.record(false), Draw::Retry);
    assert_eq!(r.record(false), Draw::Retry);
    assert_eq!(r.record(false), Draw::Fault);
}

#[test]
fn last_draw_inside_is_still_kept() {
    let mut r = Rejection::new(1);
    assert_eq!(r.record(true), Draw::Accept);
}
