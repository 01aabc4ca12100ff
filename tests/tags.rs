use river_status::tags::project_tags;

#[test]
fn projection_truncates_longer_bit_sets() {
    let bits = vec![true, false, true, true, false];
    assert_eq!(project_tags(&bits, 3), vec![true, false, true]);
}

#[test]
fn projection_pads_shorter_bit_sets_with_false() {
    let bits = vec![true, true];
    assert_eq!(project_tags(&bits, 4), vec![true, true, false, false]);
    assert_eq!(project_tags(&Vec::new(), 2), vec![false, false]);
}

#[test]
fn projecting_twice_changes_nothing() {
    let bits = vec![false, true, false, true, true, true];
    for n in 1..=32usize {
        let once = project_tags(&bits, n);
        assert_eq!(once.len(), n);
        assert_eq!(project_tags(&once, n), once);
    }
}
