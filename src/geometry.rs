//! Annular wedges: the needle and the target zone, as triangle fans in polar form.
//!
//! Angles are integers in microradians, measured from the positive y axis;
//! radii are in world units. A wedge of resolution `n` sweeps its angular span
//! in `n` equal steps and has `n + 1` pairs of vertices, each pair an inner and
//! an outer point at the same angle.
use vstd::prelude::*;

verus! {

/// The largest resolution whose vertex indices still fit in `u32`.
pub const MAX_RESOLUTION: u32 = 0x7fff_ffff;

/// Radii of the needle.
pub const NEEDLE_INNER_RADIUS: u32 = 40;
pub const NEEDLE_OUTER_RADIUS: u32 = 55;
/// Half the needle's angular width: pi / 64 rad.
pub const NEEDLE_HALF_WIDTH: u32 = 49_087;
pub const NEEDLE_RESOLUTION: u32 = 1;

/// Radii of the target zone.
pub const TARGET_INNER_RADIUS: u32 = 43;
pub const TARGET_OUTER_RADIUS: u32 = 52;
/// Half the target zone's angular width: 25 degrees.
pub const TARGET_HALF_WIDTH: u32 = 436_332;
pub const TARGET_RESOLUTION: u32 = 5;

/// Radii of the background ring that the needle sweeps.
pub const RING_INNER_RADIUS: u32 = 45;
pub const RING_OUTER_RADIUS: u32 = 50;

/// A vertex in polar coordinates.
#[derive(Clone, Copy, Debug, PartialEq, Eq, Structural)]
pub struct PolarVertex {
    /// Angle in microradians.
    pub angle: i64,
    /// Distance from the ring's centre.
    pub radius: u32,
}

/// A wedge of a ring: vertices, and a flat list of triangle indices into them.
#[derive(Debug)]
pub struct Wedge {
    pub vertices: Vec<PolarVertex>,
    pub indices: Vec<u32>,
}

#[derive(Clone, Copy, Debug, PartialEq, Eq, Structural)]
pub enum GeometryError {
    /// The resolution is zero or the angular span is empty.
    InvalidGeometry,
}

/// Angle of the `i`-th pair of vertices of a wedge spanning
/// `[-half_width, half_width]` in `resolution` steps.
pub open spec fn vertex_angle(half_width: int, resolution: int, i: int) -> int {
    -half_width + (i * (2 * half_width)) / resolution
}

/// Radius of vertex `k`: even vertices lie on the inner circle, odd ones on the outer.
pub open spec fn vertex_radius(inner: int, outer: int, k: int) -> int {
    if k % 2 == 0 { inner } else { outer }
}

/// Position of a vertex inside a quad, for each of the six indices that
/// make the quad's two triangles `(0, 2, 1)` and `(1, 2, 3)`.
pub open spec fn quad_corner(r: int) -> int {
    if r == 0 { 0 }
    else if r == 1 { 2 }
    else if r == 2 { 1 }
    else if r == 3 { 1 }
    else if r == 4 { 2 }
    else { 3 }
}

/// The `j`-th entry of a wedge's index list: quad `j / 6` starts at vertex `2 * (j / 6)`.
pub open spec fn fan_index(j: int) -> int {
    2 * (j / 6) + quad_corner(j % 6)
}

impl Wedge {
    /// The wedge is exactly the fan that `build_wedge` makes from these parameters.
    pub open spec fn is_fan(self, inner: int, outer: int, half_width: int, resolution: int) -> bool {
        &&& self.vertices@.len() == 2 * (resolution + 1)
        &&& self.indices@.len() == 6 * resolution
        &&& forall|k: int| #![trigger self.vertices@[k]]
            0 <= k < self.vertices@.len() ==> {
                &&& self.vertices@[k].angle == vertex_angle(half_width, resolution, k / 2)
                &&& self.vertices@[k].radius == vertex_radius(inner, outer, k)
            }
        &&& forall|j: int| #![trigger self.indices@[j]]
            0 <= j < self.indices@.len() ==> self.indices@[j] == fan_index(j)
    }

    /// Number of triangles: three indices each.
    pub open spec fn triangle_count(self) -> nat {
        self.indices@.len() / 3
    }

    /// Every index names a vertex of the wedge.
    pub open spec fn indices_in_bounds(self) -> bool {
        forall|j: int| #![trigger self.indices@[j]]
            0 <= j < self.indices@.len() ==> self.indices@[j] < self.vertices@.len()
    }
}

/// Builds the wedge of a ring between radii `inner` and `outer` that spans
/// `[-half_width, half_width]` microradians in `resolution` quads.
///
/// Vertex `2 * i` is the inner and vertex `2 * i + 1` the outer point at the
/// `i`-th angle; quad `q` is made of the triangles `(2q, 2q + 2, 2q + 1)` and
/// `(2q + 1, 2q + 2, 2q + 3)`. A zero resolution or a zero half-width would
/// give a wedge without area and is refused.
pub fn build_wedge(inner: u32, outer: u32, half_width: u32, resolution: u32) -> (r: Result<
    Wedge,
    GeometryError,
>)
    requires
        resolution <= MAX_RESOLUTION,
    ensures
        r is Err <==> (resolution == 0 || half_width == 0),
        r matches Ok(w) ==> {
            &&& w.is_fan(inner as int, outer as int, half_width as int, resolution as int)
            &&& w.vertices@.len() == 2 * (resolution + 1)
            &&& w.triangle_count() == 2 * resolution
            &&& w.indices_in_bounds()
        },
{
    if resolution == 0 || half_width == 0 {
        return Err(GeometryError::InvalidGeometry);
    }
    let span: u64 = 2 * (half_width as u64);
    let mut vertices: Vec<PolarVertex> = Vec::new();
    let mut i: u32 = 0;
    while i <= resolution
        invariant
            0 < resolution <= MAX_RESOLUTION,
            span == 2 * half_width,
            i <= resolution + 1,
            vertices@.len() == 2 * i,
            forall|k: int| #![trigger vertices@[k]]
                0 <= k < vertices@.len() ==> {
                    &&& vertices@[k].angle == vertex_angle(half_width as int, resolution as int, k / 2)
                    &&& vertices@[k].radius == vertex_radius(inner as int, outer as int, k)
                },
        decreases resolution + 1 - i,
    {
        assert((i as int) * (span as int) <= (resolution as int) * (span as int)) by (nonlinear_arith)
            requires i <= resolution;
        assert((resolution as int) * (span as int) < 0x1_0000_0000_0000_0000) by (nonlinear_arith)
            requires resolution <= MAX_RESOLUTION, span == 2 * half_width, half_width <= u32::MAX;
        let offset: u64 = (i as u64) * span / (resolution as u64);
        assert(offset <= span) by (nonlinear_arith)
            requires offset as int == (i as int) * (span as int) / (resolution as int), i <= resolution, resolution > 0;
        let angle: i64 = offset as i64 - half_width as i64;
        let ghost before = vertices@;
        vertices.push(PolarVertex { angle, radius: inner });
        vertices.push(PolarVertex { angle, radius: outer });
        assert forall|k: int| #![trigger vertices@[k]]
            0 <= k < vertices@.len() implies {
                &&& vertices@[k].angle == vertex_angle(half_width as int, resolution as int, k / 2)
                &&& vertices@[k].radius == vertex_radius(inner as int, outer as int, k)
            } by {
            if k >= before.len() {
                assert(k / 2 == i);
            } else {
                assert(vertices@[k] == before[k]);
            }
        }
        i = i + 1;
    }
    let mut indices: Vec<u32> = Vec::new();
    let mut q: u32 = 0;
    while q < resolution
        invariant
            0 < resolution <= MAX_RESOLUTION,
            q <= resolution,
            indices@.len() == 6 * q,
            forall|j: int| #![trigger indices@[j]]
                0 <= j < indices@.len() ==> indices@[j] == fan_index(j),
        decreases resolution - q,
    {
        let b: u32 = 2 * q;
        let ghost before = indices@;
        indices.push(b);
        indices.push(b + 2);
        indices.push(b + 1);
        indices.push(b + 1);
        indices.push(b + 2);
        indices.push(b + 3);
        assert forall|j: int| #![trigger indices@[j]]
            0 <= j < indices@.len() implies indices@[j] == fan_index(j) by {
            if j >= before.len() {
                assert(j / 6 == q);
            } else {
                assert(indices@[j] == before[j]);
            }
        }
        q = q + 1;
    }
    let w = Wedge { vertices, indices };
    assert(w.indices_in_bounds()) by {
        assert forall|j: int| #![trigger w.indices@[j]]
            0 <= j < w.indices@.len() implies w.indices@[j] < w.vertices@.len() by {
            assert(j / 6 < resolution);
        }
    }
    Ok(w)
}

impl Wedge {
    /// The index list cut into triangles, three consecutive indices each,
    /// as a collision outline wants them.
    pub fn triangles(&self) -> (r: Vec<(u32, u32, u32)>)
        ensures
            r@.len() == self.indices@.len() / 3,
            forall|t: int| #![trigger r@[t]]
                0 <= t < r@.len() ==> r@[t] == (
                    self.indices@[3 * t],
                    self.indices@[3 * t + 1],
                    self.indices@[3 * t + 2],
                ),
    {
        let len: usize = self.indices.len();
        let n: usize = len / 3;
        let mut r: Vec<(u32, u32, u32)> = Vec::new();
        let mut t: usize = 0;
        while t < n
            invariant
                n == self.indices@.len() / 3,
                len == self.indices@.len(),
                t <= n,
                r@.len() == t,
                forall|u: int| #![trigger r@[u]]
                    0 <= u < t ==> r@[u] == (
                        self.indices@[3 * u],
                        self.indices@[3 * u + 1],
                        self.indices@[3 * u + 2],
                    ),
            decreases n - t,
        {
            let b: usize = 3 * t;
            r.push((self.indices[b], self.indices[b + 1], self.indices[b + 2]));
            t = t + 1;
        }
        r
    }
}

/// The needle: a single quad, pi / 32 rad wide, between radii 40 and 55.
pub fn needle_wedge() -> (r: Result<Wedge, GeometryError>)
    ensures
        r matches Ok(w) && w.is_fan(
            NEEDLE_INNER_RADIUS as int,
            NEEDLE_OUTER_RADIUS as int,
            NEEDLE_HALF_WIDTH as int,
            NEEDLE_RESOLUTION as int,
        ),
{
    build_wedge(NEEDLE_INNER_RADIUS, NEEDLE_OUTER_RADIUS, NEEDLE_HALF_WIDTH, NEEDLE_RESOLUTION)
}

/// The target zone: five quads spanning 50 degrees, between radii 43 and 52.
pub fn target_wedge() -> (r: Result<Wedge, GeometryError>)
    ensures
        r matches Ok(w) && w.is_fan(
            TARGET_INNER_RADIUS as int,
            TARGET_OUTER_RADIUS as int,
            TARGET_HALF_WIDTH as int,
            TARGET_RESOLUTION as int,
        ),
{
    build_wedge(TARGET_INNER_RADIUS, TARGET_OUTER_RADIUS, TARGET_HALF_WIDTH, TARGET_RESOLUTION)
}

} // verus!
