use rust_gpiozero::Polarity;

fn polarity(active_high: bool) -> Polarity {
    let mut p = Polarity::new();
    p.set_active_high(active_high);
    p
}

#[test]
fn new_polarity_is_active_high() {
    let p = Polarity::new();
    assert!(p.active_high());
    assert!(p.value_to_state(true));
    assert!(!p.value_to_state(false));
}

#[test]
fn active_low_inverts_levels() {
    let p = polarity(false);
    assert!(!p.active_high());
    assert!(!p.value_to_state(true));
    assert!(p.value_to_state(false));
    assert!(p.state_to_value(false));
    assert!(!p.state_to_value(true));
}

#[test]
fn mappings_are_inverse_for_both_polarities() {
    for active_high in [true, false] {
        let p = polarity(active_high);
        for x in [true, false] {
            assert_eq!(p.value_to_state(p.state_to_value(x)), x);
            assert_eq!(p.state_to_value(p.value_to_state(x)), x);
        }
    }
}

#[test]
fn toggling_twice_restores_the_level_and_value() {
    for active_high in [true, false] {
        let p = polarity(active_high);
        for level in [true, false] {
            let once = p.value_to_state(!p.state_to_value(level));
            assert_eq!(once, !level);
            let twice = p.value_to_state(!p.state_to_value(once));
            assert_eq!(twice, level);
            assert_eq!(p.state_to_value(twice), p.state_to_value(level));
        }
    }
}

#[test]
fn active_high_round_trip_restores_the_mapping() {
    let mut p = Polarity::new();
    let before: Vec<bool> = [true, false].iter().map(|&v| p.value_to_state(v)).collect();
    p.set_active_high(true);
    p.set_active_high(false);
    p.set_active_high(true);
    assert!(p.active_high());
    let after: Vec<bool> = [true, false].iter().map(|&v| p.value_to_state(v)).collect();
    assert_eq!(before, after);
}

#[test]
fn on_then_polarity_flip_then_on_again() {
    let mut p = Polarity::new();
    // The pin starts low and the device active-high.
    let mut level = false;
    assert!(!p.state_to_value(level));
    level = p.value_to_state(true);
    assert!(level);
    assert!(p.state_to_value(level));
    p.set_active_high(false);
    assert!(level);
    assert!(!p.state_to_value(level));
    level = p.value_to_state(true);
    assert!(!level);
    assert!(p.state_to_value(level));
}

#[test]
fn on_twice_drives_the_same_level() {
    for active_high in [true, false] {
        let p = polarity(active_high);
        assert_eq!(p.value_to_state(true), p.value_to_state(true));
        assert_eq!(p.value_to_state(false), p.value_to_state(false));
        assert_eq!(p.value_to_state(true), active_high);
    }
}
