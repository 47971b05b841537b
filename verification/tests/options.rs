use bot::options::{MovementMode, Options};

#[test]
fn default_options_search_without_bounds() {
    let options = Options::default();
    assert_eq!(options.mode, MovementMode::ZeroG);
    assert!(options.use_hold);
    assert!(options.speculate);
    assert_eq!(options.min_nodes, 0);
    assert_eq!(options.max_nodes, usize::MAX);
}

#[test]
fn default_options_are_well_formed() {
    assert!(Options::default().is_well_formed());
}

#[test]
fn floor_may_meet_the_ceiling() {
    let options = Options { min_nodes: 7, max_nodes: 7, ..Options::default() };
    assert!(options.is_well_formed());
}

#[test]
fn floor_above_the_ceiling_is_not_well_formed() {
    let options = Options { min_nodes: 8, max_nodes: 7, ..Options::default() };
    assert!(!options.is_well_formed());
}
