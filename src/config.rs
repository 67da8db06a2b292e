//! The terrain configuration and its validation.
use vstd::prelude::*;

verus! {

/// One whole unit of a fraction held in millionths.
pub const FRACTION_ONE: i64 = 1_000_000;

/// Height units per world unit: heights are held in thousandths.
pub const HEIGHT_SCALE: i64 = 1_000;

/// The largest grid whose vertices can all be addressed by a `u32` index.
pub const MAX_VERTEX_COUNT: u64 = 4_294_967_295;

/// A configuration snapshot for one generation pass.
///
/// `frequency`, `density` and `max_steepness` are fractions in millionths
/// (`FRACTION_ONE` is 1.0); `rotation` is a yaw in microradians.
#[derive(Clone, Copy, Debug, PartialEq, Eq, Structural)]
pub struct TerrainConfig {
    pub half_size: u32,
    pub seed: u32,
    pub frequency: i64,
    pub octaves: usize,
    pub density: i64,
    pub max_steepness: i64,
    pub use_depth_map: bool,
    pub rotation: i64,
}

/// Why a configuration cannot be used for generation.
#[derive(Clone, Copy, Debug, PartialEq, Eq, Structural)]
pub enum ConfigError {
    ZeroHalfSize,
    GridTooLarge,
    ZeroOctaves,
    NegativeFrequency,
    NegativeDensity,
}

/// Vertices along one side of the grid: `2 * half_size + 1`.
pub open spec fn side_len(half_size: nat) -> nat {
    2 * half_size + 1
}

/// Vertices of the whole grid.
pub open spec fn vertex_count(half_size: nat) -> nat {
    side_len(half_size) * side_len(half_size)
}

/// The error that validation reports first, if any; checks run in field order.
pub open spec fn config_error(c: TerrainConfig) -> Option<ConfigError> {
    if c.half_size == 0 {
        Some(ConfigError::ZeroHalfSize)
    } else if vertex_count(c.half_size as nat) > MAX_VERTEX_COUNT {
        Some(ConfigError::GridTooLarge)
    } else if c.octaves == 0 {
        Some(ConfigError::ZeroOctaves)
    } else if c.frequency < 0 {
        Some(ConfigError::NegativeFrequency)
    } else if c.density < 0 {
        Some(ConfigError::NegativeDensity)
    } else {
        None
    }
}

pub open spec fn is_valid(c: TerrainConfig) -> bool {
    config_error(c).is_none()
}

/// The density actually used: clamped into `[0, FRACTION_ONE]`.
pub open spec fn clamped_density(c: TerrainConfig) -> int {
    if c.density < 0 {
        0
    } else if c.density > FRACTION_ONE {
        FRACTION_ONE as int
    } else {
        c.density as int
    }
}

impl TerrainConfig {
    /// Checks the configuration before any generation runs.
    pub fn validate(&self) -> (r: Result<(), ConfigError>)
        ensures
            r is Ok <==> is_valid(*self),
            r matches Err(e) ==> config_error(*self) == Some(e),
    {
        if self.half_size == 0 {
            return Err(ConfigError::ZeroHalfSize);
        }
        let side: u128 = 2 * (self.half_size as u128) + 1;
        assert(side * side <= u128::MAX) by (nonlinear_arith)
            requires
                side <= 2 * (u32::MAX as u128) + 1,
        ;
        if side * side > MAX_VERTEX_COUNT as u128 {
            return Err(ConfigError::GridTooLarge);
        }
        if self.octaves == 0 {
            return Err(ConfigError::ZeroOctaves);
        }
        if self.frequency < 0 {
            return Err(ConfigError::NegativeFrequency);
        }
        if self.density < 0 {
            return Err(ConfigError::NegativeDensity);
        }
        Ok(())
    }

    /// The density clamped into `[0, FRACTION_ONE]`.
    pub fn effective_density(&self) -> (r: i64)
        ensures
            r == clamped_density(*self),
            0 <= r <= FRACTION_ONE,
    {
        if self.density < 0 {
            0
        } else if self.density > FRACTION_ONE {
            FRACTION_ONE
        } else {
            self.density
        }
    }
}

impl Default for TerrainConfig {
    fn default() -> (r: TerrainConfig)
        ensures
            r == (TerrainConfig {
                half_size: 100,
                seed: 42,
                frequency: FRACTION_ONE,
                octaves: 6,
                density: 500_000,
                max_steepness: 500_000,
                use_depth_map: false,
                rotation: 0,
            }),
    {
        TerrainConfig {
            half_size: 100,
            seed: 42,
            frequency: FRACTION_ONE,
            octaves: 6,
            density: 500_000,
            max_steepness: 500_000,
            use_depth_map: false,
            rotation: 0,
        }
    }
}

} // verus!
