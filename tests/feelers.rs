use steering::feelers::{wall_scenario_layout, Degenerate, FeelerShape, FeelerSlot};
use steering::obstacles::Obstacles;

#[test]
fn spear_has_one_centre_feeler() {
    assert_eq!(FeelerShape::Spear.slots(), vec![FeelerSlot::Centre]);
}

#[test]
fn fork_has_left_and_right_feelers() {
    assert_eq!(FeelerShape::Fork.slots(), vec![FeelerSlot::Left, FeelerSlot::Right]);
}

#[test]
fn trident_has_three_feelers_in_order() {
    assert_eq!(
        FeelerShape::Trident.slots(),
        vec![FeelerSlot::Left, FeelerSlot::Centre, FeelerSlot::Right]
    );
}

#[test]
fn wall_layouts_clear_of_the_feelers() {
    assert_eq!(wall_scenario_layout(&Obstacles::new(1, 0)), Some((FeelerShape::Spear, false)));
    assert_eq!(wall_scenario_layout(&Obstacles::new(4, 0)), Some((FeelerShape::Fork, false)));
    assert_eq!(wall_scenario_layout(&Obstacles::new(9, 0)), Some((FeelerShape::Trident, false)));
}

#[test]
fn wall_layouts_crossing_the_feelers() {
    assert_eq!(wall_scenario_layout(&Obstacles::new(0, 1)), Some((FeelerShape::Spear, true)));
    assert_eq!(wall_scenario_layout(&Obstacles::new(2, 2)), Some((FeelerShape::Fork, true)));
    assert_eq!(wall_scenario_layout(&Obstacles::new(6, 3)), Some((FeelerShape::Trident, true)));
}

#[test]
fn wall_layout_without_an_arrangement() {
    assert_eq!(wall_scenario_layout(&Obstacles::new(3, 3)), None);
    assert_eq!(wall_scenario_layout(&Obstacles::new(0, 0)), None);
    assert_eq!(wall_scenario_layout(&Obstacles::new(2, 0)), None);
}

#[test]
fn degenerate_is_a_plain_marker() {
    assert_eq!(Degenerate, Degenerate.clone());
    assert_eq!(format!("{:?}", Degenerate), "Degenerate");
}
