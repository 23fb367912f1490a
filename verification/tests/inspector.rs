use iterascope::inspector::{orbit_tail_range, ORBIT_TAIL_POINTS};

#[test]
fn orbit_overlay_keeps_only_the_recent_tail() {
    assert_eq!(orbit_tail_range(129, 0, 9), 0..1);
    assert_eq!(orbit_tail_range(129, 7, 9), 0..8);
    assert_eq!(orbit_tail_range(129, 27, 9), 19..28);
    assert_eq!(orbit_tail_range(5, usize::MAX, 9), 0..5);
}

#[test]
fn orbit_tail_stays_inside_an_orbit_of_any_length() {
    assert_eq!(orbit_tail_range(0, 3, ORBIT_TAIL_POINTS), 0..0);
    assert_eq!(orbit_tail_range(10, 9, 0), 9..10);
    for count in 0..20usize {
        for selected in 0..25usize {
            let range = orbit_tail_range(count, selected, 4);
            assert!(range.start <= range.end && range.end <= count);
            assert!(range.end - range.start <= 4);
        }
    }
}
