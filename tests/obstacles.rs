use steering::obstacles::{Obstacles, Placement};

#[test]
fn new_sums_the_two_kinds() {
    let o = Obstacles::new(6u32, 3u32);
    assert_eq!(o.total, 9);
    assert_eq!(o.insignificant, 6);
    assert_eq!(o.significant, 3);
}

#[test]
fn details_returns_insignificant_then_significant() {
    assert_eq!(Obstacles::new(4u32, 0u32).details(), (4, 0));
    assert_eq!(Obstacles::new(0u32, 5u32).details(), (0, 5));
}

#[test]
fn new_at_the_largest_total() {
    let o = Obstacles::new(u32::MAX - 1, 1u32);
    assert_eq!(o.total, u32::MAX);
}

#[test]
fn placement_of_insignificant_only() {
    let p = Obstacles::new(3u32, 0u32).placement();
    assert_eq!(p, Some(Placement { count: 3, significant: false }));
}

#[test]
fn placement_of_significant_only() {
    let p = Obstacles::new(0u32, 2u32).placement();
    assert_eq!(p, Some(Placement { count: 2, significant: true }));
}

#[test]
fn placement_of_no_obstacles_is_insignificant() {
    let p = Obstacles::new(0u32, 0u32).placement();
    assert_eq!(p, Some(Placement { count: 0, significant: false }));
}

#[test]
fn placement_of_mixed_counts_is_none() {
    assert_eq!(Obstacles::new(2u32, 2u32).placement(), None);
}

#[test]
fn outcome_with_no_significant_obstacles() {
    let o = Obstacles::new(5u32, 0u32);
    assert!(o.is_met_by(0, false));
    assert!(!o.is_met_by(0, true));
    assert!(!o.is_met_by(1, false));
}

#[test]
fn outcome_with_significant_obstacles() {
    let o = Obstacles::new(0u32, 3u32);
    assert!(o.is_met_by(3, true));
    assert!(!o.is_met_by(3, false));
    assert!(!o.is_met_by(2, true));
}
