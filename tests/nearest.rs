use raytracer::scene::nearest_hit;

#[test]
fn empty_scene_has_no_hit() {
    assert_eq!(nearest_hit(&vec![]), None);
}

#[test]
fn all_misses_give_no_hit() {
    assert_eq!(nearest_hit(&vec![None, None, None]), None);
}

#[test]
fn nearest_wins_whatever_the_order() {
    assert_eq!(nearest_hit(&vec![Some(9), None, Some(3), Some(5)]), Some(2));
    assert_eq!(nearest_hit(&vec![None, Some(1), Some(3)]), Some(1));
    assert_eq!(nearest_hit(&vec![Some(8), Some(7)]), Some(1));
}

#[test]
fn equal_distances_keep_the_first() {
    assert_eq!(nearest_hit(&vec![Some(4), Some(2), None, Some(2)]), Some(1));
}

#[test]
fn keys_of_non_negative_doubles_order_as_distances() {
    let ts = [0.5f64, 0.001, 100.25, 3.0];
    let keys: Vec<Option<u64>> = ts.iter().map(|t| Some(t.to_bits())).collect();
    assert_eq!(nearest_hit(&keys), Some(1));
}
