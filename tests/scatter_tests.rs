use procedural_terrain::config::{TerrainConfig, FRACTION_ONE, HEIGHT_SCALE};
use procedural_terrain::mesh::{generate_terrain_mesh, grid_point, GridVertex, Normal, TerrainMesh};
use procedural_terrain::scatter::{
    admits, place_instance, scatter, InstanceDraws, FULL_TURN, JITTER_SPAN, MIN_PLACEMENT_HEIGHT,
    SCALE_MAX, SINK_SPAN,
};

/// A rolling surface: ridges along x and z, partly below the waterline.
fn rolling(half_size: u32) -> TerrainMesh {
    let side = (2 * half_size + 1) as usize;
    let hs: Vec<i32> = (0..side * side)
        .map(|i| {
            let (x, z) = grid_point(half_size, i);
            ((x * 7 + z * 11).rem_euclid(200) * 5 - 200) as i32
        })
        .collect();
    generate_terrain_mesh(half_size, &hs)
}

fn config(density: i64, max_steepness: i64) -> TerrainConfig {
    TerrainConfig { density, max_steepness, ..TerrainConfig::default() }
}

fn eligible(m: &TerrainMesh) -> Vec<usize> {
    (0..m.positions.len()).filter(|&i| m.positions[i].height > MIN_PLACEMENT_HEIGHT).collect()
}

#[test]
fn zero_density_seeds_nothing() {
    let m = rolling(20);
    let c = config(0, FRACTION_ONE);
    assert!(scatter(&m.positions, &m.normals, &c, 7, 3).is_empty());
}

#[test]
fn full_density_seeds_every_eligible_vertex() {
    let m = rolling(200);
    let c = config(FRACTION_ONE, FRACTION_ONE);
    let r = scatter(&m.positions, &m.normals, &c, 42, 3);
    let sources: Vec<usize> = r.iter().map(|x| x.source).collect();
    let expected = eligible(&m);
    assert!(!expected.is_empty());
    assert_eq!(sources, expected);
}

#[test]
fn no_variants_no_instances() {
    let m = rolling(10);
    let c = config(FRACTION_ONE, FRACTION_ONE);
    assert!(scatter(&m.positions, &m.normals, &c, 42, 0).is_empty());
}

#[test]
fn half_density_admits_some_and_rejects_some() {
    let m = rolling(30);
    let c = config(500_000, FRACTION_ONE);
    let r = scatter(&m.positions, &m.normals, &c, 9, 2);
    let total = eligible(&m).len();
    assert!(!r.is_empty());
    assert!(r.len() < total);
    // the yaw and jitter are drawn, not constant
    assert!(r.iter().any(|x| x.yaw != r[0].yaw));
    assert!(r.iter().any(|x| x.variant != r[0].variant));
}

#[test]
fn instances_clear_the_gates_and_stay_near_their_vertex() {
    let m = rolling(40);
    let c = config(700_000, 400_000);
    let r = scatter(&m.positions, &m.normals, &c, 1234, 3);
    assert!(!r.is_empty());
    let mut last: Option<usize> = None;
    for x in &r {
        let p = m.positions[x.source];
        assert!(p.height > MIN_PLACEMENT_HEIGHT);
        assert!(admits(&c, &p, &m.normals[x.source], FRACTION_ONE - 1));
        assert!((x.x - p.x * HEIGHT_SCALE).abs() <= JITTER_SPAN);
        assert!((x.z - p.z * HEIGHT_SCALE).abs() <= JITTER_SPAN);
        assert!(x.y < p.height && x.y >= p.height - SINK_SPAN);
        assert!(x.variant < 3);
        assert!(x.yaw >= 0 && x.yaw < FULL_TURN);
        assert!(x.scale >= 0 && x.scale < SCALE_MAX);
        if let Some(l) = last {
            assert!(l < x.source);
        }
        last = Some(x.source);
    }
}

#[test]
fn no_instance_below_the_waterline() {
    let m = rolling(25);
    let c = config(FRACTION_ONE, FRACTION_ONE);
    let r = scatter(&m.positions, &m.normals, &c, 5, 4);
    assert!(r.iter().all(|x| m.positions[x.source].height > MIN_PLACEMENT_HEIGHT));
    assert!(m.positions.iter().any(|p| p.height <= MIN_PLACEMENT_HEIGHT));
}

#[test]
fn same_inputs_give_identical_instances() {
    let m = rolling(50);
    let c = config(600_000, 500_000);
    let a = scatter(&m.positions, &m.normals, &c, 77, 3);
    let b = scatter(&m.positions, &m.normals, &c, 77, 3);
    assert!(!a.is_empty());
    assert_eq!(a, b);
}

#[test]
fn steepness_gate_uses_the_sine_of_the_tilt() {
    let c = config(FRACTION_ONE, 500_000);
    let p = GridVertex { x: 0, height: 5_000, z: 0 };
    // (1, 0, 0) is a vertical wall; (3000, 5197) tilts just under 30 degrees
    let at_limit = Normal { x: 1, y: 0, z: 0 };
    assert!(!admits(&c, &p, &at_limit, 0));
    let half = Normal { x: 3000, y: 5197, z: 0 };
    assert!(admits(&c, &p, &half, 0));
    let steeper = Normal { x: 3000, y: 5000, z: 0 };
    assert!(!admits(&c, &p, &steeper, 0));
    let negative = config(FRACTION_ONE, -1);
    assert!(!admits(&negative, &p, &Normal { x: 0, y: 1000, z: 0 }, 0));
}

#[test]
fn density_coin_threshold() {
    let c = config(250_000, FRACTION_ONE);
    let p = GridVertex { x: 0, height: 5_000, z: 0 };
    let up = Normal { x: 0, y: 6000, z: 0 };
    assert!(admits(&c, &p, &up, 750_000));
    assert!(!admits(&c, &p, &up, 749_999));
    let low = GridVertex { x: 0, height: MIN_PLACEMENT_HEIGHT, z: 0 };
    assert!(!admits(&c, &low, &up, 999_999));
}

#[test]
fn instance_is_jittered_and_shrinks_with_height() {
    let p = GridVertex { x: -3, height: 50_000, z: 2 };
    let d = InstanceDraws {
        coin: 0,
        jitter_x: -250,
        jitter_y: -50,
        jitter_z: 249,
        variant: 2,
        scale: 24_000,
        yaw: 1_570_796,
    };
    let x = place_instance(11, &p, &d);
    assert_eq!(x.source, 11);
    assert_eq!(x.x, -3250);
    assert_eq!(x.y, 49_950);
    assert_eq!(x.z, 2249);
    assert_eq!(x.scale, 12_000);
    assert_eq!(x.yaw, 1_570_796);
    assert_eq!(x.variant, 2);
    let top = GridVertex { x: 0, height: 150_000, z: 0 };
    assert_eq!(place_instance(0, &top, &d).scale, 0);
}
