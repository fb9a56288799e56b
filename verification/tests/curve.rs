use als_core::mapping::{ConfigError, MappingConfig, map_level, LIGHT_BOUND, SCALE, SCREEN_MAX_BOUND};

fn demo_config() -> MappingConfig {
    // light range 100..900, screen_min = 0.1 * 1000, square curve
    MappingConfig::new(100, 900, 1000, 2, 1000).unwrap()
}

#[test]
fn end_to_end_scenario() {
    // raw 500 -> t = 0.5 -> t^2 = 0.25 -> round(0.25 * 900 + 100) = 325
    let c = demo_config();
    assert_eq!(map_level(&c, 500), 325);
}

#[test]
fn clamping_at_extremes() {
    let c = demo_config();
    // below light_min: round(screen_min) = 100
    assert_eq!(map_level(&c, 0), 100);
    assert_eq!(map_level(&c, 100), 100);
    // at and above light_max: screen_max
    assert_eq!(map_level(&c, 900), 1000);
    assert_eq!(map_level(&c, 100_000), 1000);
}

#[test]
fn monotone_over_sweep() {
    let c = demo_config();
    let mut prev = 0;
    for raw in 0..1200u64 {
        let level = map_level(&c, raw);
        assert!(level >= prev, "level dipped at raw={raw}");
        prev = level;
    }
}

#[test]
fn range_over_sweep() {
    let c = demo_config();
    for raw in (0..5000u64).step_by(37) {
        let level = map_level(&c, raw);
        assert!((100..=1000).contains(&level));
    }
}

#[test]
fn linear_curve_is_identity_on_matching_ranges() {
    // power 1, light range 0..1000, screen range 0..1000: raw maps to itself
    let c = MappingConfig::new(0, 1000, 0, 1, 1000).unwrap();
    for raw in 0..=1000u64 {
        assert_eq!(map_level(&c, raw), raw);
    }
}

#[test]
fn linear_curve_affine_points() {
    // power 1, light range 0..100, screen 240..1200: level = raw * 9.6 + 240
    let c = MappingConfig::new(0, 100, 2000, 1, 1200).unwrap();
    assert_eq!(map_level(&c, 0), 240);
    assert_eq!(map_level(&c, 50), 720);
    assert_eq!(map_level(&c, 100), 1200);
}

#[test]
fn config_rejects_each_fault() {
    assert_eq!(
        MappingConfig::new(5, 5, 0, 1, 100),
        Err(ConfigError::EmptyLightRange)
    );
    assert_eq!(
        MappingConfig::new(0, LIGHT_BOUND + 1, 0, 1, 100),
        Err(ConfigError::LightMaxTooLarge)
    );
    assert_eq!(
        MappingConfig::new(0, 10, SCALE, 1, 100),
        Err(ConfigError::FractionTooLarge)
    );
    assert_eq!(
        MappingConfig::new(0, 10, 0, 0, 100),
        Err(ConfigError::PowerZero)
    );
    assert_eq!(
        MappingConfig::new(0, 10, 0, 1, 0),
        Err(ConfigError::ScreenMaxZero)
    );
    assert_eq!(
        MappingConfig::new(0, 10, 0, 1, SCREEN_MAX_BOUND + 1),
        Err(ConfigError::ScreenMaxTooLarge)
    );
}

#[test]
fn config_accepts_valid_bundle() {
    let c = MappingConfig::new(100, 900, 1000, 2, 1000).unwrap();
    assert_eq!(c.light_min, 100);
    assert_eq!(c.light_max, 900);
    assert_eq!(c.screen_min_fraction, 1000);
    assert_eq!(c.screen_power, 2);
    assert_eq!(c.screen_max, 1000);
}

#[test]
fn screen_min_rounds_to_nearest() {
    // screen_min = 0.15 * 999 = 149.85, which rounds to 150
    let c = MappingConfig::new(0, 10, 1500, 1, 999).unwrap();
    assert_eq!(map_level(&c, 0), 150);
    assert_eq!(map_level(&c, 10), 999);
}

#[test]
fn steep_curve_stays_in_range() {
    // a high exponent hugs the bottom of the range until near light_max
    let c = MappingConfig::new(0, 1000, 0, 8, 1000).unwrap();
    assert_eq!(map_level(&c, 0), 0);
    assert!(map_level(&c, 500) < 10);
    assert_eq!(map_level(&c, 1000), 1000);
}
