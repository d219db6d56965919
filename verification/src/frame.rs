use vstd::prelude::*;

use crate::field::HeightField;
use crate::field::OSC_LIMIT_MILLI;
use crate::grid::SamplingGrid;
use crate::rng::JobRng;

verus! {

/// One mesh vertex: horizontal coordinates as grid numerators over the
/// mesh density, elevation in milli-units.
#[derive(Clone, Copy, PartialEq, Eq, Structural, Debug)]
pub struct Vertex {
    pub x_num: i64,
    pub z_num: i64,
    pub elevation_milli: i64,
}

/// One frame's surface mesh: the full cross product of the two sampling
/// grids, row-major, with exactly one elevation per horizontal sample —
/// a strict function surface with no overhangs. Adjacent quads share
/// their corner vertices, so the rasterized surface has no seams.
#[derive(Clone, PartialEq, Eq, Debug)]
pub struct FrameMesh {
    pub density: u32,
    pub x_first_num: i64,
    pub x_count: usize,
    pub z_first_num: i64,
    pub z_count: usize,
    pub vertices: Vec<Vertex>,
}

impl FrameMesh {
    /// Row-major cross product: vertex `k` samples horizontal position
    /// `(x_first + k / z_count, z_first + k % z_count)`, so every grid
    /// point carries exactly one vertex.
    pub open spec fn wf(self) -> bool {
        &&& self.density > 0
        &&& self.x_count >= 1
        &&& self.z_count >= 1
        &&& self.vertices@.len() == self.x_count * self.z_count
        &&& forall|k: int|
            0 <= k < self.vertices@.len() ==> (#[trigger] self.vertices@[k]).x_num
                == self.x_first_num + k / (self.z_count as int) && self.vertices@[k].z_num
                == self.z_first_num + k % (self.z_count as int)
    }

    /// Every elevation lies inside the given bounds.
    pub open spec fn elevations_within(self, lo: int, hi: int) -> bool {
        forall|k: int|
            0 <= k < self.vertices@.len() ==> lo <= (#[trigger] self.vertices@[k]).elevation_milli
                <= hi
    }

    pub fn vertex_count(&self) -> (r: usize)
        ensures
            r == self.vertices@.len(),
    {
        self.vertices.len()
    }
}

/// Rasterizes the mesh of a flat field: every vertex sits exactly at the
/// baseline elevation.
pub fn build_mesh_flat(gx: &SamplingGrid, gz: &SamplingGrid, field: &HeightField) -> (m: FrameMesh)
    requires
        gx.wf(),
        gz.wf(),
        gx.density == gz.density,
        field is Flat,
        field.wf(),
        gx.samples@.len() * gz.samples@.len() <= usize::MAX,
    ensures
        m.wf(),
        m.density == gx.density,
        m.x_first_num == gx.samples@[0],
        m.z_first_num == gz.samples@[0],
        m.x_count == gx.samples@.len(),
        m.z_count == gz.samples@.len(),
        forall|k: int|
            0 <= k < m.vertices@.len() ==> (#[trigger] m.vertices@[k]).elevation_milli
                == field.spec_baseline(),
{
    let y = field.flat_elevation();
    let xc = gx.len();
    let zc = gz.len();
    let total = xc * zc;
    let x_first = gx.sample_num(0);
    let z_first = gz.sample_num(0);
    let mut vertices: Vec<Vertex> = Vec::new();
    let mut k: usize = 0;
    while k < total
        invariant
            gx.wf(),
            gz.wf(),
            xc == gx.samples@.len(),
            zc == gz.samples@.len(),
            total == xc * zc,
            x_first == gx.samples@[0],
            z_first == gz.samples@[0],
            k <= total,
            vertices@.len() == k,
            forall|p: int|
                0 <= p < k ==> (#[trigger] vertices@[p]).x_num == x_first + p / (zc as int)
                    && vertices@[p].z_num == z_first + p % (zc as int)
                    && vertices@[p].elevation_milli == y,
        decreases total - k,
    {
        proof {
            assert(k < zc * xc) by (nonlinear_arith)
                requires
                    k < total,
                    total == xc * zc,
            ;
            vstd::arithmetic::div_mod::lemma_multiply_divide_lt(k as int, zc as int, xc as int);
        }
        let i = k / zc;
        let j = k % zc;
        let x = gx.sample_num(i);
        let z = gz.sample_num(j);
        vertices.push(Vertex { x_num: x, z_num: z, elevation_milli: y });
        k = k + 1;
    }
    FrameMesh {
        density: gx.density,
        x_first_num: x_first,
        x_count: xc,
        z_first_num: z_first,
        z_count: zc,
        vertices,
    }
}

/// Rasterizes the mesh of a stochastic-flat field: every vertex draws an
/// independent uniform offset from `[0, 1)` above the baseline, from the
/// random source this job owns.
pub fn build_mesh_stochastic(
    gx: &SamplingGrid,
    gz: &SamplingGrid,
    field: &HeightField,
    rng: &mut JobRng,
) -> (m: FrameMesh)
    requires
        gx.wf(),
        gz.wf(),
        gx.density == gz.density,
        field is StochasticFlat,
        field.wf(),
        gx.samples@.len() * gz.samples@.len() <= usize::MAX,
    ensures
        m.wf(),
        m.density == gx.density,
        m.x_first_num == gx.samples@[0],
        m.z_first_num == gz.samples@[0],
        m.x_count == gx.samples@.len(),
        m.z_count == gz.samples@.len(),
        m.elevations_within(field.spec_baseline() as int, field.spec_baseline() + 999),
{
    let xc = gx.len();
    let zc = gz.len();
    let total = xc * zc;
    let x_first = gx.sample_num(0);
    let z_first = gz.sample_num(0);
    let mut vertices: Vec<Vertex> = Vec::new();
    let mut k: usize = 0;
    while k < total
        invariant
            gx.wf(),
            gz.wf(),
            field is StochasticFlat,
            field.wf(),
            xc == gx.samples@.len(),
            zc == gz.samples@.len(),
            total == xc * zc,
            x_first == gx.samples@[0],
            z_first == gz.samples@[0],
            k <= total,
            vertices@.len() == k,
            forall|p: int|
                0 <= p < k ==> (#[trigger] vertices@[p]).x_num == x_first + p / (zc as int)
                    && vertices@[p].z_num == z_first + p % (zc as int) && field.spec_baseline()
                    <= vertices@[p].elevation_milli <= field.spec_baseline() + 999,
        decreases total - k,
    {
        proof {
            assert(k < zc * xc) by (nonlinear_arith)
                requires
                    k < total,
                    total == xc * zc,
            ;
            vstd::arithmetic::div_mod::lemma_multiply_divide_lt(k as int, zc as int, xc as int);
        }
        let i = k / zc;
        let j = k % zc;
        let x = gx.sample_num(i);
        let z = gz.sample_num(j);
        let y = field.stochastic_elevation(rng);
        vertices.push(Vertex { x_num: x, z_num: z, elevation_milli: y });
        k = k + 1;
    }
    FrameMesh {
        density: gx.density,
        x_first_num: x_first,
        x_count: xc,
        z_first_num: z_first,
        z_count: zc,
        vertices,
    }
}

/// Rasterizes the mesh of an oscillating field from one outside oscillator
/// sample per grid point (row-major, matching the mesh's vertex order):
/// vertex `k` carries exactly the composition of sample `k`.
pub fn build_mesh_composed(
    gx: &SamplingGrid,
    gz: &SamplingGrid,
    field: &HeightField,
    oscs: &Vec<i64>,
) -> (m: FrameMesh)
    requires
        gx.wf(),
        gz.wf(),
        gx.density == gz.density,
        field.spec_has_oscillator(),
        field.wf(),
        gx.samples@.len() * gz.samples@.len() <= usize::MAX,
        oscs@.len() == gx.samples@.len() * gz.samples@.len(),
        forall|k: int|
            0 <= k < oscs@.len() ==> -OSC_LIMIT_MILLI <= #[trigger] oscs@[k] <= OSC_LIMIT_MILLI,
    ensures
        m.wf(),
        m.density == gx.density,
        m.x_first_num == gx.samples@[0],
        m.z_first_num == gz.samples@[0],
        m.x_count == gx.samples@.len(),
        m.z_count == gz.samples@.len(),
        forall|k: int|
            0 <= k < m.vertices@.len() ==> (#[trigger] m.vertices@[k]).elevation_milli
                == field.spec_compose(oscs@[k]),
{
    let xc = gx.len();
    let zc = gz.len();
    let total = xc * zc;
    let x_first = gx.sample_num(0);
    let z_first = gz.sample_num(0);
    let mut vertices: Vec<Vertex> = Vec::new();
    let mut k: usize = 0;
    while k < total
        invariant
            gx.wf(),
            gz.wf(),
            field.spec_has_oscillator(),
            field.wf(),
            xc == gx.samples@.len(),
            zc == gz.samples@.len(),
            total == xc * zc,
            x_first == gx.samples@[0],
            z_first == gz.samples@[0],
            oscs@.len() == total,
            forall|p: int|
                0 <= p < oscs@.len() ==> -OSC_LIMIT_MILLI <= #[trigger] oscs@[p]
                    <= OSC_LIMIT_MILLI,
            k <= total,
            vertices@.len() == k,
            forall|p: int|
                0 <= p < k ==> (#[trigger] vertices@[p]).x_num == x_first + p / (zc as int)
                    && vertices@[p].z_num == z_first + p % (zc as int)
                    && vertices@[p].elevation_milli == field.spec_compose(oscs@[p]),
        decreases total - k,
    {
        proof {
            assert(k < zc * xc) by (nonlinear_arith)
                requires
                    k < total,
                    total == xc * zc,
            ;
            vstd::arithmetic::div_mod::lemma_multiply_divide_lt(k as int, zc as int, xc as int);
        }
        let i = k / zc;
        let j = k % zc;
        let x = gx.sample_num(i);
        let z = gz.sample_num(j);
        let y = field.compose(oscs[k]);
        vertices.push(Vertex { x_num: x, z_num: z, elevation_milli: y });
        k = k + 1;
    }
    FrameMesh {
        density: gx.density,
        x_first_num: x_first,
        x_count: xc,
        z_first_num: z_first,
        z_count: zc,
        vertices,
    }
}

} // verus!
