use noise::{Fbm, MultiFractal, NoiseFn, Simplex};
use procedural_terrain::config::{ConfigError, TerrainConfig};
use procedural_terrain::mesh::grid_point;
use procedural_terrain::terrain::{generate_terrain, GenerationError};

fn noise_samples(c: &TerrainConfig) -> Vec<i32> {
    let fbm = Fbm::<Simplex>::new(c.seed)
        .set_frequency(c.frequency as f64 / 1_000_000.0)
        .set_octaves(c.octaves);
    let side = (2 * c.half_size + 1) as usize;
    (0..side * side)
        .map(|i| {
            let (x, z) = grid_point(c.half_size, i);
            let h = fbm.get([x as f64 * 0.05, z as f64 * 0.05]) * 100.0;
            (h * 1000.0).round() as i32
        })
        .collect()
}

#[test]
fn example_config_gives_81_vertices_and_no_instances() {
    let c = TerrainConfig { half_size: 4, seed: 42, density: 0, ..TerrainConfig::default() };
    let hs = noise_samples(&c);
    let t = generate_terrain(&c, &hs, 3).unwrap();
    assert_eq!(t.mesh.positions.len(), 81);
    assert_eq!(t.mesh.indices.len(), 3 * 128);
    assert!(t.instances.is_empty());
}

#[test]
fn noise_heights_are_deterministic() {
    let c = TerrainConfig { half_size: 8, ..TerrainConfig::default() };
    assert_eq!(noise_samples(&c), noise_samples(&c));
}

#[test]
fn generation_is_reproducible() {
    let c = TerrainConfig { half_size: 30, density: 800_000, max_steepness: 900_000, ..TerrainConfig::default() };
    let hs = noise_samples(&c);
    let a = generate_terrain(&c, &hs, 3).unwrap();
    let b = generate_terrain(&c, &hs, 3).unwrap();
    assert_eq!(a.mesh.positions, b.mesh.positions);
    assert_eq!(a.mesh.normals, b.mesh.normals);
    assert_eq!(a.instances, b.instances);
}

#[test]
fn invalid_config_is_reported() {
    let c = TerrainConfig { octaves: 0, ..TerrainConfig::default() };
    let r = generate_terrain(&c, &vec![0; 201 * 201], 3);
    assert_eq!(r.err(), Some(GenerationError::InvalidConfig(ConfigError::ZeroOctaves)));
}

#[test]
fn sample_count_must_match_the_grid() {
    let c = TerrainConfig { half_size: 4, ..TerrainConfig::default() };
    let r = generate_terrain(&c, &vec![0; 80], 3);
    assert_eq!(r.err(), Some(GenerationError::SampleCountMismatch));
}

#[test]
fn too_many_variants_is_reported() {
    let c = TerrainConfig { half_size: 1, ..TerrainConfig::default() };
    let r = generate_terrain(&c, &vec![0; 9], usize::MAX);
    assert_eq!(r.err(), Some(GenerationError::TooManyVariants));
}
