use procedural_terrain::config::{ConfigError, TerrainConfig, FRACTION_ONE};

fn base() -> TerrainConfig {
    TerrainConfig::default()
}

#[test]
fn default_config_values() {
    let c = TerrainConfig::default();
    assert_eq!(c.half_size, 100);
    assert_eq!(c.seed, 42);
    assert_eq!(c.frequency, FRACTION_ONE);
    assert_eq!(c.octaves, 6);
    assert_eq!(c.density, 500_000);
    assert_eq!(c.max_steepness, 500_000);
    assert!(!c.use_depth_map);
    assert_eq!(c.rotation, 0);
    assert_eq!(c.validate(), Ok(()));
}

#[test]
fn zero_half_size_is_rejected() {
    let c = TerrainConfig { half_size: 0, ..base() };
    assert_eq!(c.validate(), Err(ConfigError::ZeroHalfSize));
}

#[test]
fn grid_too_large_for_u32_indices_is_rejected() {
    let c = TerrainConfig { half_size: 32768, ..base() };
    assert_eq!(c.validate(), Err(ConfigError::GridTooLarge));
    let c = TerrainConfig { half_size: 32767, ..base() };
    assert_eq!(c.validate(), Ok(()));
}

#[test]
fn zero_octaves_is_rejected() {
    let c = TerrainConfig { octaves: 0, ..base() };
    assert_eq!(c.validate(), Err(ConfigError::ZeroOctaves));
}

#[test]
fn negative_frequency_is_rejected() {
    let c = TerrainConfig { frequency: -1, ..base() };
    assert_eq!(c.validate(), Err(ConfigError::NegativeFrequency));
}

#[test]
fn negative_density_is_rejected() {
    let c = TerrainConfig { density: -5, ..base() };
    assert_eq!(c.validate(), Err(ConfigError::NegativeDensity));
}

#[test]
fn first_failing_check_is_reported() {
    let c = TerrainConfig { half_size: 0, octaves: 0, density: -1, ..base() };
    assert_eq!(c.validate(), Err(ConfigError::ZeroHalfSize));
}

#[test]
fn density_is_clamped_before_use() {
    assert_eq!(TerrainConfig { density: 2 * FRACTION_ONE, ..base() }.effective_density(), FRACTION_ONE);
    assert_eq!(TerrainConfig { density: -3, ..base() }.effective_density(), 0);
    assert_eq!(TerrainConfig { density: 250_000, ..base() }.effective_density(), 250_000);
}
