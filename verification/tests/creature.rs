use creature_combat::creature::{wiggle_period_from_sample, Creature};

#[test]
fn fresh_creature_is_at_full_health() {
    let c = Creature::new("Jeff".to_string());
    assert_eq!(c.get_health(), 100);
    assert_eq!(c.get_max_health(), 100);
    assert_eq!(c.get_name(), "Jeff");
    assert!(!c.is_dead());
}

#[test]
fn damage_scenario_saturates_at_zero() {
    let mut c = Creature::new("Jeff".to_string());
    assert_eq!(c.get_health(), 100);
    assert_eq!(c.get_max_health(), 100);
    c.take_damage(30);
    assert_eq!(c.get_health(), 70);
    c.take_damage(80);
    assert_eq!(c.get_health(), 0);
    assert!(c.is_dead());
}

#[test]
fn damage_equal_to_health_kills() {
    let mut c = Creature::new("Jeff".to_string());
    c.take_damage(100);
    assert_eq!(c.get_health(), 0);
    assert!(c.is_dead());
}

#[test]
fn zero_damage_changes_nothing() {
    let mut c = Creature::new("Jeff".to_string());
    c.take_damage(0);
    assert_eq!(c.get_health(), 100);
    assert!(!c.is_dead());
}

#[test]
fn huge_damage_saturates() {
    let mut c = Creature::new("Jeff".to_string());
    c.take_damage(u32::MAX);
    assert_eq!(c.get_health(), 0);
    assert!(c.is_dead());
}

#[test]
fn is_dead_only_at_zero_health() {
    let mut c = Creature::new("Jeff".to_string());
    c.take_damage(99);
    assert_eq!(c.get_health(), 1);
    assert!(!c.is_dead());
    c.take_damage(1);
    assert!(c.is_dead());
}

#[test]
fn tags_of_distinct_creatures_differ() {
    let jeff = Creature::new("Jeff".to_string());
    let bilbo = Creature::new("Bilbo".to_string());
    let t1 = jeff.get_creature_tag();
    let t2 = bilbo.get_creature_tag();
    assert_ne!(t1, t2);
    assert_eq!(t1, jeff.get_creature_tag());
}

#[test]
fn tag_is_stable_across_mutation() {
    let mut jeff = Creature::new("Jeff".to_string());
    let before = jeff.get_creature_tag();
    jeff.take_damage(42);
    jeff.set_wiggle_period(300);
    let after = jeff.get_creature_tag();
    assert_eq!(before, after);
}

#[test]
fn health_percentage_tracks_health() {
    let mut c = Creature::new("Jeff".to_string());
    assert_eq!(c.health_percentage(), 100);
    c.take_damage(30);
    assert_eq!(c.health_percentage(), 70);
    c.take_damage(69);
    assert_eq!(c.health_percentage(), 1);
    c.take_damage(1);
    assert_eq!(c.health_percentage(), 0);
}

#[test]
fn spawned_wiggle_period_is_at_least_700_ms() {
    for _ in 0..50 {
        let c = Creature::new("Jeff".to_string());
        let period = c.get_wiggle_period();
        assert!(period >= 700);
        assert!(period <= 1199);
    }
}

#[test]
fn set_wiggle_period_overwrites() {
    let mut c = Creature::new("Jeff".to_string());
    c.set_wiggle_period(925);
    assert_eq!(c.get_wiggle_period(), 925);
    assert_eq!(c.get_health(), 100);
    assert_eq!(c.get_name(), "Jeff");
}

#[test]
fn spawn_period_from_sample_exact_values() {
    assert_eq!(wiggle_period_from_sample(0), 700);
    assert_eq!(wiggle_period_from_sample(499), 700);
    assert_eq!(wiggle_period_from_sample(500), 700);
    assert_eq!(wiggle_period_from_sample(600), 800);
    assert_eq!(wiggle_period_from_sample(999), 1199);
    assert_eq!(wiggle_period_from_sample(1234), 700);
    assert_eq!(wiggle_period_from_sample(4999), 1199);
}
