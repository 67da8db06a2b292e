//! The placement sampler: walks the mesh vertices in index order and seeds a
//! vegetation instance on each vertex that clears the height, density and slope
//! gates, jittered and randomly scaled, turned and chosen among the variants.
//!
//! The slope gate follows one convention: the steepness of a vertex is the sine
//! of its normal's tilt from the vertical, `|n x up| / |n|`, and the vertex is
//! rejected when that exceeds `max_steepness`.
use crate::config::{clamped_density, TerrainConfig, FRACTION_ONE, HEIGHT_SCALE};
use crate::mesh::{normal_in_range, surface_in_range, vertex_in_range, GridVertex, Normal};
use crate::rng::{draw_between, seeded_rng};
use vstd::prelude::*;

verus! {

/// Heights at or below this (0.01 world units) never receive an instance.
pub const MIN_PLACEMENT_HEIGHT: i64 = 10;

/// Horizontal jitter is drawn from `[-JITTER_SPAN, JITTER_SPAN)` thousandths.
pub const JITTER_SPAN: i64 = 250;

/// Vertical jitter is drawn from `[-SINK_SPAN, 0)` thousandths.
pub const SINK_SPAN: i64 = 50;

/// The raw scale is drawn from `[SCALE_MIN, SCALE_MAX)` millionths.
pub const SCALE_MIN: i64 = 20_000;

pub const SCALE_MAX: i64 = 25_000;

/// The vertical amplitude of the terrain, in thousandths: instances shrink
/// linearly to nothing as the height approaches it.
pub const HEIGHT_AMPLITUDE: i64 = 100_000;

/// Yaw is drawn from `[0, FULL_TURN)` microradians.
pub const FULL_TURN: i64 = 6_283_185;

/// One seeded object. The translation is in thousandths of a world unit, the
/// scale in millionths, the yaw in microradians; `source` is the vertex it was
/// seeded on and `variant` picks one of the interchangeable visual variants.
#[derive(Clone, Copy, Debug, PartialEq, Eq, Structural)]
pub struct PlacementInstance {
    pub source: usize,
    pub x: i64,
    pub y: i64,
    pub z: i64,
    pub scale: i64,
    pub yaw: i64,
    pub variant: usize,
}

/// The random values that one vertex consumes: the density coin, then, for an
/// admitted vertex, the jitter, the variant, the raw scale and the yaw.
#[derive(Clone, Copy, Debug, PartialEq, Eq, Structural)]
pub struct InstanceDraws {
    pub coin: i64,
    pub jitter_x: i64,
    pub jitter_y: i64,
    pub jitter_z: i64,
    pub variant: i64,
    pub scale: i64,
    pub yaw: i64,
}

/// Each draw lies in the range it is drawn from.
pub open spec fn draws_in_range(d: InstanceDraws, variant_count: int) -> bool {
    &&& 0 <= d.coin < FRACTION_ONE
    &&& -JITTER_SPAN <= d.jitter_x < JITTER_SPAN
    &&& -SINK_SPAN <= d.jitter_y < 0
    &&& -JITTER_SPAN <= d.jitter_z < JITTER_SPAN
    &&& 0 <= d.variant < variant_count
    &&& SCALE_MIN <= d.scale < SCALE_MAX
    &&& 0 <= d.yaw < FULL_TURN
}

pub open spec fn above_waterline(p: GridVertex) -> bool {
    p.height > MIN_PLACEMENT_HEIGHT
}

/// The density coin admits the vertex: the coin, uniform in `[0, FRACTION_ONE)`,
/// is not below `FRACTION_ONE - density`.
pub open spec fn coin_admits(c: TerrainConfig, coin: int) -> bool {
    coin >= FRACTION_ONE - clamped_density(c)
}

/// The steepness of `n` is at most `max_steepness`:
/// `(nx^2 + nz^2) / |n|^2 <= (max_steepness / FRACTION_ONE)^2`.
pub open spec fn slope_admits(c: TerrainConfig, n: Normal) -> bool {
    let flat = n.x * n.x + n.z * n.z;
    let whole = flat + n.y * n.y;
    c.max_steepness >= 0 && flat * FRACTION_ONE * FRACTION_ONE <= c.max_steepness
        * c.max_steepness * whole
}

/// Vertex `p` with normal `n` receives an instance when the coin is `coin`.
pub open spec fn admitted(c: TerrainConfig, p: GridVertex, n: Normal, coin: int) -> bool {
    above_waterline(p) && coin_admits(c, coin) && slope_admits(c, n)
}

/// How much of the raw scale is kept at height `h`: `1 - h / HEIGHT_AMPLITUDE`,
/// as a numerator over `HEIGHT_AMPLITUDE`, and nothing above the amplitude.
pub open spec fn attenuation(h: int) -> int {
    if h < HEIGHT_AMPLITUDE {
        HEIGHT_AMPLITUDE - h
    } else {
        0
    }
}

/// The instance seeded on vertex `source`, at `p`, with draws `d`.
pub open spec fn instance_of(source: int, p: GridVertex, d: InstanceDraws) -> PlacementInstance {
    PlacementInstance {
        source: source as usize,
        x: (p.x * HEIGHT_SCALE + d.jitter_x) as i64,
        y: (p.height + d.jitter_y) as i64,
        z: (p.z * HEIGHT_SCALE + d.jitter_z) as i64,
        scale: (d.scale * attenuation(p.height as int) / (HEIGHT_AMPLITUDE as int)) as i64,
        yaw: d.yaw,
        variant: d.variant as usize,
    }
}

/// The instances seeded on the first `k` vertices, in vertex order, when vertex
/// `i` consumes the draws `ds[i]`.
pub open spec fn scatter_model(
    c: TerrainConfig,
    ps: Seq<GridVertex>,
    ns: Seq<Normal>,
    ds: Seq<InstanceDraws>,
    k: nat,
) -> Seq<PlacementInstance>
    decreases k,
{
    if k == 0 {
        Seq::empty()
    } else {
        let i = k - 1;
        let before = scatter_model(c, ps, ns, ds, i as nat);
        if admitted(c, ps[i], ns[i], ds[i].coin as int) {
            before.push(instance_of(i, ps[i], ds[i]))
        } else {
            before
        }
    }
}

/// Decides whether vertex `p` with normal `n` receives an instance when the
/// density coin came out as `coin`.
pub fn admits(config: &TerrainConfig, p: &GridVertex, n: &Normal, coin: i64) -> (r: bool)
    requires
        normal_in_range(*n),
    ensures
        r == admitted(*config, *p, *n, coin as int),
{
    p.height > MIN_PLACEMENT_HEIGHT && coin >= FRACTION_ONE - config.effective_density()
        && within_steepness(config, n)
}

/// The slope gate of `admits`.
fn within_steepness(config: &TerrainConfig, n: &Normal) -> (r: bool)
    requires
        normal_in_range(*n),
    ensures
        r == slope_admits(*config, *n),
{
    if config.max_steepness < 0 {
        return false;
    }
    let limit: i128 = if config.max_steepness > FRACTION_ONE {
        FRACTION_ONE as i128
    } else {
        config.max_steepness as i128
    };
    let x = n.x as i128;
    let y = n.y as i128;
    let z = n.z as i128;
    let one = FRACTION_ONE as i128;
    proof {
        assert(0 <= x * x < 0x40_0000_0000_0000_0000) by (nonlinear_arith)
            requires
                -0x8_0000_0000 < x < 0x8_0000_0000,
        ;
        assert(0 <= z * z < 0x40_0000_0000_0000_0000) by (nonlinear_arith)
            requires
                -0x8_0000_0000 < z < 0x8_0000_0000,
        ;
        assert(0 <= y * y <= 36_000_000) by (nonlinear_arith)
            requires
                0 <= y <= 6000,
        ;
    }
    let flat = x * x + z * z;
    let whole = flat + y * y;
    proof {
        assert(0 <= flat * one < 0x1000_0000_0000_0000_0000_0000) by (nonlinear_arith)
            requires
                0 <= flat < 0x80_0000_0000_0000_0000,
                one == 1_000_000,
        ;
        assert(0 <= flat * one * one < 0x1_0000_0000_0000_0000_0000_0000_0000) by (
        nonlinear_arith)
            requires
                0 <= flat * one < 0x1000_0000_0000_0000_0000_0000,
                one == 1_000_000,
        ;
        assert(0 <= limit * limit <= 1_000_000_000_000) by (nonlinear_arith)
            requires
                0 <= limit <= 1_000_000,
        ;
        assert(0 <= limit * limit * whole < 0x1_0000_0000_0000_0000_0000_0000_0000) by (
        nonlinear_arith)
            requires
                0 <= whole < 0x81_0000_0000_0000_0000,
                0 <= limit * limit <= 1_000_000_000_000,
        ;
        let m = config.max_steepness as int;
        if m > FRACTION_ONE {
            assert(flat * one * one <= m * m * whole <==> true) by (nonlinear_arith)
                requires
                    0 <= flat <= whole,
                    m > one,
                    one > 0,
            ;
            assert(flat * one * one <= limit * limit * whole) by (nonlinear_arith)
                requires
                    0 <= flat <= whole,
                    limit == one,
            ;
        }
    }
    flat * one * one <= limit * limit * whole
}

/// Builds the instance seeded on vertex `source` at `p` with draws `d`, whose
/// values lie in their ranges for any variant count above the drawn variant.
pub fn place_instance(source: usize, p: &GridVertex, d: &InstanceDraws) -> (r: PlacementInstance)
    requires
        vertex_in_range(*p),
        draws_in_range(*d, d.variant + 1),
    ensures
        r == instance_of(source as int, *p, *d),
{
    let kept: i64 = if p.height < HEIGHT_AMPLITUDE {
        HEIGHT_AMPLITUDE - p.height
    } else {
        0
    };
    proof {
        assert(0 <= d.scale * kept <= 25_000 * 0x1_0000_0000) by (nonlinear_arith)
            requires
                0 <= d.scale < 25_000,
                0 <= kept <= 100_000 + 0x8000_0000,
        ;
    }
    let scale = d.scale * kept / HEIGHT_AMPLITUDE;
    PlacementInstance {
        source,
        x: p.x * HEIGHT_SCALE + d.jitter_x,
        y: p.height + d.jitter_y,
        z: p.z * HEIGHT_SCALE + d.jitter_z,
        scale,
        yaw: d.yaw,
        variant: d.variant as usize,
    }
}

/// The vertices among the first `k` that clear the height gate, in order.
pub open spec fn eligible_sources(ps: Seq<GridVertex>, k: nat) -> Seq<int>
    decreases k,
{
    if k == 0 {
        Seq::empty()
    } else {
        let i = k - 1;
        if above_waterline(ps[i]) {
            eligible_sources(ps, i as nat).push(i)
        } else {
            eligible_sources(ps, i as nat)
        }
    }
}

/// The source vertex of each instance, in order.
pub open spec fn sources_of(xs: Seq<PlacementInstance>) -> Seq<int> {
    xs.map_values(|x: PlacementInstance| x.source as int)
}

/// The scatter over the first `k` vertices reads no draws past vertex `k`.
pub proof fn lemma_model_reads_prefix(
    c: TerrainConfig,
    ps: Seq<GridVertex>,
    ns: Seq<Normal>,
    ds1: Seq<InstanceDraws>,
    ds2: Seq<InstanceDraws>,
    k: nat,
)
    requires
        forall|i: int| 0 <= i < k ==> ds1[i] == ds2[i],
    ensures
        scatter_model(c, ps, ns, ds1, k) == scatter_model(c, ps, ns, ds2, k),
    decreases k,
{
    if k > 0 {
        lemma_model_reads_prefix(c, ps, ns, ds1, ds2, (k - 1) as nat);
    }
}

/// Every seeded instance comes from a vertex that clears the height, density
/// and slope gates of the configuration, is built from that vertex's own
/// draws, and the instances follow the vertex order.
pub proof fn lemma_instances_clear_the_gates(
    c: TerrainConfig,
    ps: Seq<GridVertex>,
    ns: Seq<Normal>,
    ds: Seq<InstanceDraws>,
    k: nat,
)
    requires
        k <= ps.len(),
        k <= usize::MAX,
    ensures
        forall|j: int|
            0 <= j < scatter_model(c, ps, ns, ds, k).len() ==> {
                let x = #[trigger] scatter_model(c, ps, ns, ds, k)[j];
                let s = x.source as int;
                &&& 0 <= s < k
                &&& admitted(c, ps[s], ns[s], ds[s].coin as int)
                &&& x == instance_of(s, ps[s], ds[s])
            },
        forall|j1: int, j2: int|
            0 <= j1 < j2 < scatter_model(c, ps, ns, ds, k).len() ==> (#[trigger] scatter_model(
                c,
                ps,
                ns,
                ds,
                k,
            )[j1]).source < (#[trigger] scatter_model(c, ps, ns, ds, k)[j2]).source,
    decreases k,
{
    if k > 0 {
        let i = k - 1;
        lemma_instances_clear_the_gates(c, ps, ns, ds, i as nat);
        let before = scatter_model(c, ps, ns, ds, i as nat);
        let after = scatter_model(c, ps, ns, ds, k);
        if admitted(c, ps[i], ns[i], ds[i].coin as int) {
            let x = instance_of(i, ps[i], ds[i]);
            assert(after == before.push(x));
            assert(x.source as int == i);
            assert forall|j: int| 0 <= j < before.len() implies #[trigger] after[j] == before[j]
                && (before[j].source as int) < i by {
                assert(before[j] == scatter_model(c, ps, ns, ds, i as nat)[j]);
            }
            assert forall|j1: int, j2: int| 0 <= j1 < j2 < after.len() implies (
            #[trigger] after[j1]).source < (#[trigger] after[j2]).source by {
                assert(after[j1] == before[j1]);
                if j2 < before.len() {
                    assert(after[j2] == before[j2]);
                    assert(before[j1] == scatter_model(c, ps, ns, ds, i as nat)[j1]);
                    assert(before[j2] == scatter_model(c, ps, ns, ds, i as nat)[j2]);
                }
            }
            assert forall|j: int| 0 <= j < after.len() implies {
                let x = #[trigger] after[j];
                let s = x.source as int;
                &&& 0 <= s < k
                &&& admitted(c, ps[s], ns[s], ds[s].coin as int)
                &&& x == instance_of(s, ps[s], ds[s])
            } by {
                if j < before.len() {
                    assert(before[j] == scatter_model(c, ps, ns, ds, i as nat)[j]);
                }
            }
        }
    }
}

/// With the density at zero no vertex is admitted, whatever the draws.
pub proof fn lemma_zero_density_seeds_nothing(
    c: TerrainConfig,
    ps: Seq<GridVertex>,
    ns: Seq<Normal>,
    ds: Seq<InstanceDraws>,
    k: nat,
)
    requires
        clamped_density(c) == 0,
        k <= ds.len(),
        forall|i: int| 0 <= i < k ==> 0 <= (#[trigger] ds[i]).coin < FRACTION_ONE,
    ensures
        scatter_model(c, ps, ns, ds, k).len() == 0,
    decreases k,
{
    if k > 0 {
        lemma_zero_density_seeds_nothing(c, ps, ns, ds, (k - 1) as nat);
    }
}

/// With full density and a steepness limit that every normal meets, every vertex
/// above the waterline is seeded, whatever the draws, and no other.
pub proof fn lemma_full_density_seeds_every_eligible_vertex(
    c: TerrainConfig,
    ps: Seq<GridVertex>,
    ns: Seq<Normal>,
    ds: Seq<InstanceDraws>,
    k: nat,
)
    requires
        c.density >= FRACTION_ONE,
        c.max_steepness >= FRACTION_ONE,
        k <= ds.len(),
        k <= usize::MAX,
        forall|i: int| 0 <= i < k ==> 0 <= (#[trigger] ds[i]).coin < FRACTION_ONE,
    ensures
        sources_of(scatter_model(c, ps, ns, ds, k)) == eligible_sources(ps, k),
    decreases k,
{
    if k > 0 {
        let i = k - 1;
        lemma_full_density_seeds_every_eligible_vertex(c, ps, ns, ds, i as nat);
        let n = ns[i];
        let m = c.max_steepness as int;
        let flat = n.x * n.x + n.z * n.z;
        let whole = flat + n.y * n.y;
        assert(flat * FRACTION_ONE * FRACTION_ONE <= m * m * whole) by (nonlinear_arith)
            requires
                flat == n.x * n.x + n.z * n.z,
                whole == flat + n.y * n.y,
                m >= FRACTION_ONE,
        ;
        assert(slope_admits(c, n));
        let before = scatter_model(c, ps, ns, ds, i as nat);
        if above_waterline(ps[i]) {
            assert(sources_of(before.push(instance_of(i, ps[i], ds[i]))) =~= sources_of(
                before,
            ).push(i));
        }
    }
}

/// What a scatter over `ps` and `ns` returns: the model's instances for draws
/// that each lie in their range, which clear the gates, follow the vertex order,
/// vanish at zero density, and cover every vertex above the waterline at full
/// density with an accept-all steepness limit; nothing without variants.
pub open spec fn scatter_outcome(
    r: Seq<PlacementInstance>,
    ps: Seq<GridVertex>,
    ns: Seq<Normal>,
    c: TerrainConfig,
    variant_count: int,
) -> bool {
    &&& variant_count == 0 ==> r.len() == 0
    &&& variant_count > 0 ==> exists|ds: Seq<InstanceDraws>|
        {
            &&& ds.len() == ps.len()
            &&& forall|i: int| 0 <= i < ds.len() ==> draws_in_range(#[trigger] ds[i], variant_count)
            &&& r == scatter_model(c, ps, ns, ds, ds.len())
        }
    &&& forall|j: int|
        0 <= j < r.len() ==> {
            let s = (#[trigger] r[j]).source as int;
            &&& 0 <= s < ps.len()
            &&& above_waterline(ps[s])
            &&& slope_admits(c, ns[s])
            &&& clamped_density(c) > 0
        }
    &&& forall|j1: int, j2: int|
        0 <= j1 < j2 < r.len() ==> (#[trigger] r[j1]).source < (#[trigger] r[j2]).source
    &&& clamped_density(c) == 0 ==> r.len() == 0
    &&& variant_count > 0 && c.density >= FRACTION_ONE && c.max_steepness >= FRACTION_ONE
        ==> sources_of(r) == eligible_sources(ps, ps.len())
}

/// Scatters instances over the vertices `positions` with normals `normals`,
/// drawing from a stream seeded with `rng_seed`. No instance is produced when
/// there are no variants to choose from.
pub fn scatter(
    positions: &Vec<GridVertex>,
    normals: &Vec<Normal>,
    config: &TerrainConfig,
    rng_seed: u64,
    variant_count: usize,
) -> (r: Vec<PlacementInstance>)
    requires
        surface_in_range(positions@, normals@),
        variant_count <= i64::MAX,
    ensures
        scatter_outcome(r@, positions@, normals@, *config, variant_count as int),
{
    let mut out: Vec<PlacementInstance> = Vec::new();
    if variant_count == 0 {
        return out;
    }
    let mut rng = seeded_rng(rng_seed);
    let count = positions.len();
    let ghost mut ds: Seq<InstanceDraws> = Seq::empty();
    let mut i: usize = 0;
    while i < count
        invariant
            count == positions@.len(),
            surface_in_range(positions@, normals@),
            0 < variant_count <= i64::MAX,
            0 <= i <= count,
            ds.len() == i,
            forall|j: int| 0 <= j < i ==> draws_in_range(#[trigger] ds[j], variant_count as int),
            out@ == scatter_model(*config, positions@, normals@, ds, i as nat),
        decreases count - i,
    {
        let p = positions[i];
        let n = normals[i];
        let mut d = InstanceDraws {
            coin: 0,
            jitter_x: 0,
            jitter_y: -1,
            jitter_z: 0,
            variant: 0,
            scale: SCALE_MIN,
            yaw: 0,
        };
        if p.height > MIN_PLACEMENT_HEIGHT {
            d.coin = draw_between(&mut rng, 0, FRACTION_ONE);
            if admits(config, &p, &n, d.coin) {
                d.jitter_x = draw_between(&mut rng, -JITTER_SPAN, JITTER_SPAN);
                d.jitter_y = draw_between(&mut rng, -SINK_SPAN, 0);
                d.jitter_z = draw_between(&mut rng, -JITTER_SPAN, JITTER_SPAN);
                d.variant = draw_between(&mut rng, 0, variant_count as i64);
                d.scale = draw_between(&mut rng, SCALE_MIN, SCALE_MAX);
                d.yaw = draw_between(&mut rng, 0, FULL_TURN);
                out.push(place_instance(i, &p, &d));
            }
        }
        proof {
            let next = ds.push(d);
            lemma_model_reads_prefix(*config, positions@, normals@, ds, next, i as nat);
            ds = next;
        }
        i = i + 1;
    }
    proof {
        let k = count as nat;
        lemma_instances_clear_the_gates(*config, positions@, normals@, ds, k);
        if clamped_density(*config) == 0 {
            lemma_zero_density_seeds_nothing(*config, positions@, normals@, ds, k);
        }
        if config.density >= FRACTION_ONE && config.max_steepness >= FRACTION_ONE {
            lemma_full_density_seeds_every_eligible_vertex(*config, positions@, normals@, ds, k);
        }
        assert(ds.len() == positions@.len());
    }
    out
}

} // verus!
