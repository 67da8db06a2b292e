//! One generation pass: validate the configuration, build the mesh from the
//! sampled heights, and scatter the instances on it, all or nothing.
use crate::config::{config_error, is_valid, vertex_count, ConfigError, TerrainConfig};
use crate::mesh::{generate_terrain_mesh, mesh_matches, TerrainMesh};
use crate::scatter::{scatter, scatter_outcome, PlacementInstance};
use vstd::prelude::*;

verus! {

/// The output of one pass, installed as a unit.
#[derive(Clone, Debug)]
pub struct GeneratedTerrain {
    pub mesh: TerrainMesh,
    pub instances: Vec<PlacementInstance>,
}

/// Why a pass produced nothing.
#[derive(Clone, Copy, Debug, PartialEq, Eq, Structural)]
pub enum GenerationError {
    InvalidConfig(ConfigError),
    /// The height samples do not cover the grid one for one.
    SampleCountMismatch,
    /// More variants than a draw can index.
    TooManyVariants,
}

/// The pass succeeds on these inputs.
pub open spec fn generation_succeeds(
    config: TerrainConfig,
    heights: Seq<i32>,
    variant_count: int,
) -> bool {
    is_valid(config) && heights.len() == vertex_count(config.half_size as nat) && variant_count
        <= i64::MAX
}

/// Runs one pass for `config` over `heights`, the grid's samples in vertex
/// order (see `grid_point`), in thousandths. The scatter's stream is seeded with
/// the configuration's seed and picks among `variant_count` variants; with none,
/// the terrain carries no instances.
pub fn generate_terrain(config: &TerrainConfig, heights: &Vec<i32>, variant_count: usize) -> (r:
    Result<GeneratedTerrain, GenerationError>)
    ensures
        config_error(*config) matches Some(e) ==> r == Err::<GeneratedTerrain, GenerationError>(
            GenerationError::InvalidConfig(e),
        ),
        is_valid(*config) && heights@.len() != vertex_count(config.half_size as nat) ==> r
            == Err::<GeneratedTerrain, GenerationError>(GenerationError::SampleCountMismatch),
        is_valid(*config) && heights@.len() == vertex_count(config.half_size as nat)
            && variant_count > i64::MAX ==> r == Err::<GeneratedTerrain, GenerationError>(
            GenerationError::TooManyVariants,
        ),
        r is Ok <==> generation_succeeds(*config, heights@, variant_count as int),
        r matches Ok(t) ==> {
            &&& mesh_matches(t.mesh, config.half_size as nat, heights@)
            &&& scatter_outcome(
                t.instances@,
                t.mesh.positions@,
                t.mesh.normals@,
                *config,
                variant_count as int,
            )
        },
{
    match config.validate() {
        Err(e) => {
            return Err(GenerationError::InvalidConfig(e));
        },
        Ok(()) => {},
    }
    let n = 2 * (config.half_size as u64) + 1;
    assert(n * n <= u64::MAX) by (nonlinear_arith)
        requires
            n * n <= 4_294_967_295,
    ;
    if heights.len() as u64 != n * n {
        return Err(GenerationError::SampleCountMismatch);
    }
    if variant_count as u64 > i64::MAX as u64 {
        return Err(GenerationError::TooManyVariants);
    }
    let mesh = generate_terrain_mesh(config.half_size, heights);
    let instances = scatter(&mesh.positions, &mesh.normals, config, config.seed as u64, variant_count);
    Ok(GeneratedTerrain { mesh, instances })
}

} // verus!
