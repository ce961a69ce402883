use audio_network::config::{
    check_positive, ConfigError, GenerationConfig, DEFAULT_FREQUENCY, DEFAULT_TICK_PERIOD,
};

#[test]
fn default_configuration() {
    let config = GenerationConfig::new();
    assert_eq!(f64::from_bits(DEFAULT_FREQUENCY), 50.0);
    assert_eq!(DEFAULT_TICK_PERIOD, 50);
    assert_eq!(config.get_frequency(), 50.0f64.to_bits());
    assert_eq!(config.get_tick_period(), 50);
}

#[test]
fn frequency_round_trip() {
    let mut config = GenerationConfig::new();
    for frequency in [1.0f64, 0.001, 100.0, 440.0, 1e-300, 1e300, std::f64::consts::PI] {
        assert_eq!(config.set_frequency(frequency.to_bits()), Ok(()));
        assert_eq!(config.get_frequency(), frequency.to_bits());
        assert_eq!(f64::from_bits(config.get_frequency()), frequency);
        assert_eq!(config.get_tick_period(), DEFAULT_TICK_PERIOD);
    }
}

#[test]
fn invalid_frequency_leaves_the_prior_value() {
    let mut config = GenerationConfig::new();
    assert_eq!(config.set_frequency(2.5f64.to_bits()), Ok(()));
    for frequency in [0.0f64, -0.0, -1.0, -1e-300, f64::NEG_INFINITY, f64::NAN, -f64::NAN] {
        assert_eq!(config.set_frequency(frequency.to_bits()), Err(ConfigError::InvalidConfig));
        assert_eq!(f64::from_bits(config.get_frequency()), 2.5);
    }
    assert_eq!(config.get_tick_period(), DEFAULT_TICK_PERIOD);
}

#[test]
fn frequency_limits() {
    let mut config = GenerationConfig::new();
    // The smallest and the largest numbers greater than zero.
    assert_eq!(config.set_frequency(1), Ok(()));
    assert_eq!(f64::from_bits(config.get_frequency()), 5e-324);
    assert_eq!(config.set_frequency(f64::MIN_POSITIVE.to_bits()), Ok(()));
    assert_eq!(config.set_frequency(f64::MAX.to_bits()), Ok(()));
    assert_eq!(config.set_frequency(f64::INFINITY.to_bits()), Ok(()));
    assert_eq!(config.get_frequency(), 0x7ff0_0000_0000_0000);
    // One past positive infinity the bit patterns are NaNs.
    assert_eq!(config.set_frequency(0x7ff0_0000_0000_0001), Err(ConfigError::InvalidConfig));
    assert_eq!(config.set_frequency(0x7fff_ffff_ffff_ffff), Err(ConfigError::InvalidConfig));
    assert_eq!(config.set_frequency(0x8000_0000_0000_0000), Err(ConfigError::InvalidConfig));
    assert_eq!(config.set_frequency(0x8000_0000_0000_0001), Err(ConfigError::InvalidConfig));
    assert_eq!(config.set_frequency(u64::MAX), Err(ConfigError::InvalidConfig));
    assert_eq!(config.get_frequency(), f64::INFINITY.to_bits());
}

#[test]
fn positive_means_greater_than_zero() {
    let mut words: Vec<u64> = vec![
        0,
        1,
        2,
        0x000f_ffff_ffff_ffff,
        0x0010_0000_0000_0000,
        0x3ff0_0000_0000_0000,
        0x7fef_ffff_ffff_ffff,
        0x7ff0_0000_0000_0000,
        0x7ff0_0000_0000_0001,
        0x7ff8_0000_0000_0000,
        0x7fff_ffff_ffff_ffff,
    ];
    let negatives: Vec<u64> = words.iter().map(|w| w | 0x8000_0000_0000_0000).collect();
    words.extend(negatives);
    // A spread of further patterns from a fixed multiplicative walk.
    let mut word: u64 = 0x9e37_79b9_7f4a_7c15;
    for _ in 0..2000 {
        word = word.wrapping_mul(0x5851_f42d_4c95_7f2d).wrapping_add(0x1405_7b7e_f767_814f);
        words.push(word);
    }
    for word in words {
        assert_eq!(check_positive(word), f64::from_bits(word) > 0.0, "word {:#x}", word);
    }
}

#[test]
fn tick_period_round_trip() {
    let mut config = GenerationConfig::new();
    for period in [1u64, 50, 1000, u64::MAX] {
        assert_eq!(config.set_tick_period(period), Ok(()));
        assert_eq!(config.get_tick_period(), period);
        assert_eq!(config.get_frequency(), DEFAULT_FREQUENCY);
    }
}

#[test]
fn invalid_tick_period_leaves_the_prior_value() {
    let mut config = GenerationConfig::new();
    assert_eq!(config.set_tick_period(250), Ok(()));
    assert_eq!(config.set_tick_period(0), Err(ConfigError::InvalidConfig));
    assert_eq!(config.get_tick_period(), 250);
    assert_eq!(config.get_frequency(), DEFAULT_FREQUENCY);
}

#[test]
fn configuration_is_copied_by_value() {
    let mut config = GenerationConfig::new();
    let copy = config;
    assert_eq!(config.set_frequency(3.0f64.to_bits()), Ok(()));
    assert_eq!(f64::from_bits(copy.get_frequency()), 50.0);
    assert_eq!(f64::from_bits(config.get_frequency()), 3.0);
}
