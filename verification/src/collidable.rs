//! The `Collidable` shape value: circles and polygons with per-edge outward
//! normals, as consumed by a separating-axis collision tester.

use vstd::prelude::*;
use crate::fbits::add_of;
use crate::fbits::sub_of;
use crate::fbits::mul_of;
use crate::fbits::div_of;
use crate::fbits::lt_of;
use crate::fbits::floor_of;
use crate::fbits::usize_of;
use crate::fbits::sin_of;
use crate::fbits::cos_of;
use crate::fbits::sqrt_of;
use crate::fbits::neg_of;
use crate::fbits::neg_bits;
use crate::fbits::add_bits;
use crate::fbits::sub_bits;
use crate::fbits::mul_bits;
use crate::fbits::div_bits;
use crate::fbits::lt_bits;
use crate::fbits::floor_bits;
use crate::fbits::trunc_to_usize;
use crate::fbits::sin_bits;
use crate::fbits::cos_bits;
use crate::fbits::sqrt_bits;
use crate::fbits::TWO_BITS;
use crate::fbits::HALF_BITS;

verus! {

/// Bit pattern of the binary32 value closest to pi / 16 radians: the fixed
/// angular step between consecutive samples on an arc's rim. It silently
/// sets tessellation density, and with it collision fidelity against vertex
/// count, for every arc.
pub const MINOR_ARC_BITS: u32 = 0x3E49_0FDB;

/// The two shape families a `Collidable` can take.
#[derive(Copy, Clone, Debug, PartialEq, Eq, Structural)]
pub enum CollidableShape {
    Circle,
    Polygon,
}

/// A shape that can be tested for overlap: either a circle or a polygon,
/// in one flat layout.
///
/// All coordinates are binary32 bit patterns (see `fbits`). For polygons the
/// vertex ring is cyclic: edge `i` connects vertex `i` to vertex
/// `(i + 1) % nvert`, and `normx`/`normy` hold that edge's outward normal
/// components, index-aligned with the vertices. The normals are only as
/// fresh as the last construction or `update_normals` call: a caller that
/// replaces vertices in place must refresh them itself.
#[derive(Clone, Debug)]
pub struct Collidable {
    /// Caller-defined classification (say, player against wall), opaque here.
    pub collidable_type: u8,
    /// Which shape family the value belongs to.
    pub collidable_shape: CollidableShape,
    /// Caller-assigned stable identity.
    pub collidable_id: usize,

    /// Centroid x: the circle centre, or the polygon's bounding-box centre.
    pub centrex: u32,
    /// Centroid y: the circle centre, or the polygon's bounding-box centre.
    pub centrey: u32,
    /// Circle radius; zero for every polygon variant, arcs included.
    pub radius: u32,
    /// Axis-aligned bounding extent along x.
    pub width: u32,
    /// Axis-aligned bounding extent along y.
    pub height: u32,

    /// Number of vertices; zero for a circle.
    pub nvert: usize,
    /// Vertex x coordinates, index-aligned with `verty`.
    pub vertx: Vec<u32>,
    /// Vertex y coordinates, index-aligned with `vertx`.
    pub verty: Vec<u32>,
    /// Outward normal x components, one per edge, index-aligned with vertices.
    pub normx: Vec<u32>,
    /// Outward normal y components, one per edge, index-aligned with vertices.
    pub normy: Vec<u32>,
}

/// The vertex index that edge `i` leads to on a cyclic ring of `n` vertices.
pub open spec fn next_vertex(i: int, n: int) -> int {
    if i + 1 == n {
        0
    } else {
        i + 1
    }
}

/// The per-edge normal x components derived from the vertex y coordinates:
/// for each edge the rise `y[next] - y[i]` of the edge, which is the x
/// component of a perpendicular to it.
pub open spec fn norm_x_seq(vy: Seq<u32>) -> Seq<u32> {
    Seq::new(vy.len(), |i: int| sub_of(vy[next_vertex(i, vy.len() as int)], vy[i]))
}

/// The per-edge normal y components derived from the vertex x coordinates:
/// for each edge the negated run `-(x[next] - x[i])` of the edge, so that
/// paired with `norm_x_seq` it forms the edge's perpendicular.
pub open spec fn norm_y_seq(vx: Seq<u32>) -> Seq<u32> {
    Seq::new(vx.len(), |i: int| neg_of(sub_of(vx[next_vertex(i, vx.len() as int)], vx[i])))
}

impl Collidable {
    /// The structural invariant every constructor establishes: the four
    /// polygon arrays are index-aligned with `nvert`, and a circle carries
    /// no vertices.
    pub open spec fn wf(self) -> bool {
        &&& self.vertx@.len() == self.nvert
        &&& self.verty@.len() == self.nvert
        &&& self.normx@.len() == self.nvert
        &&& self.normy@.len() == self.nvert
        &&& (self.collidable_shape is Circle ==> self.nvert == 0)
    }

    /// The normals match the current vertex ring, as `update_normals`
    /// leaves them.
    pub open spec fn normals_fresh(self) -> bool {
        &&& self.normx@ == norm_x_seq(self.verty@)
        &&& self.normy@ == norm_y_seq(self.vertx@)
    }

    /// What `new_arc(t, id, cx, cy, r, dx, dy, sector)` builds: a fan
    /// polygon whose apex, vertex zero, is the centre itself, followed by
    /// the rim samples of `arc_dir_of` offset from the centre, and closed
    /// by the exact ending-edge boundary point; the bounding metrics are
    /// the enclosing circle's, taken from the inputs rather than the
    /// vertices.
    pub open spec fn is_arc_of(
        self,
        t: u8,
        id: usize,
        cx: u32,
        cy: u32,
        r: u32,
        dx: u32,
        dy: u32,
        sector: u32,
    ) -> bool {
        &&& self.collidable_type == t
        &&& self.collidable_shape is Polygon
        &&& self.collidable_id == id
        &&& self.centrex == cx
        &&& self.centrey == cy
        &&& self.radius == 0u32
        &&& self.width == mul_of(r, TWO_BITS)
        &&& self.height == mul_of(r, TWO_BITS)
        &&& self.nvert == arc_samples_of(sector) + 2
        &&& self.vertx@.len() == self.nvert
        &&& self.verty@.len() == self.nvert
        &&& self.vertx@[0] == cx
        &&& self.verty@[0] == cy
        &&& forall|j: int|
            1 <= j < self.nvert - 1 ==> self.vertx@[j] == add_of(
                cx,
                arc_dir_of(dx, dy, r, sector, (j - 1) as nat).0,
            )
        &&& forall|j: int|
            1 <= j < self.nvert - 1 ==> self.verty@[j] == add_of(
                cy,
                arc_dir_of(dx, dy, r, sector, (j - 1) as nat).1,
            )
        &&& self.vertx@[self.nvert - 1] == add_of(cx, arc_edge_x_of(dx, dy, r, arc_end_of(sector)))
        &&& self.verty@[self.nvert - 1] == add_of(cy, arc_edge_y_of(dx, dy, r, arc_end_of(sector)))
        &&& self.wf()
        &&& self.normals_fresh()
    }
}

/// The per-edge normal x components for a ring of `nvert` vertices with the
/// given y coordinates.
pub fn calc_normx(nvert: usize, verty: &Vec<u32>) -> (r: Vec<u32>)
    requires
        verty@.len() == nvert,
    ensures
        r@ == norm_x_seq(verty@),
{
    let mut r: Vec<u32> = Vec::with_capacity(nvert);
    let mut i: usize = 0;
    while i < nvert
        invariant
            verty@.len() == nvert,
            i <= nvert,
            r@.len() == i,
            forall|j: int| 0 <= j < i ==> r@[j] == norm_x_seq(verty@)[j],
        decreases nvert - i,
    {
        let next: usize = if i + 1 == nvert {
            0
        } else {
            i + 1
        };
        r.push(sub_bits(verty[next], verty[i]));
        i = i + 1;
    }
    proof {
        assert(r@ =~= norm_x_seq(verty@));
    }
    r
}

/// The per-edge normal y components for a ring of `nvert` vertices with the
/// given x coordinates.
pub fn calc_normy(nvert: usize, vertx: &Vec<u32>) -> (r: Vec<u32>)
    requires
        vertx@.len() == nvert,
    ensures
        r@ == norm_y_seq(vertx@),
{
    let mut r: Vec<u32> = Vec::with_capacity(nvert);
    let mut i: usize = 0;
    while i < nvert
        invariant
            vertx@.len() == nvert,
            i <= nvert,
            r@.len() == i,
            forall|j: int| 0 <= j < i ==> r@[j] == norm_y_seq(vertx@)[j],
        decreases nvert - i,
    {
        let next: usize = if i + 1 == nvert {
            0
        } else {
            i + 1
        };
        r.push(neg_bits(sub_bits(vertx[next], vertx[i])));
        i = i + 1;
    }
    proof {
        assert(r@ =~= norm_y_seq(vertx@));
    }
    r
}

/// The binary32 Euclidean norm of the vector `(x, y)`, with the products
/// summed in that order, as a bit pattern.
pub open spec fn vec_norm_of(x: u32, y: u32) -> u32 {
    sqrt_of(add_of(mul_of(x, x), mul_of(y, y)))
}

/// The x component of `(x, y)` scaled to unit length by dividing through
/// its norm.
pub open spec fn unit_x_of(x: u32, y: u32) -> u32 {
    div_of(x, vec_norm_of(x, y))
}

/// The y component of `(x, y)` scaled to unit length by dividing through
/// its norm.
pub open spec fn unit_y_of(x: u32, y: u32) -> u32 {
    div_of(y, vec_norm_of(x, y))
}

/// The x component of `(x, y)` rotated counter-clockwise by the angle `a`
/// (radians, as a bit pattern): `cos(a) * x - sin(a) * y` in binary32.
pub open spec fn rot_x_of(a: u32, x: u32, y: u32) -> u32 {
    sub_of(mul_of(cos_of(a), x), mul_of(sin_of(a), y))
}

/// The y component of `(x, y)` rotated counter-clockwise by the angle `a`
/// (radians, as a bit pattern): `sin(a) * x + cos(a) * y` in binary32.
pub open spec fn rot_y_of(a: u32, x: u32, y: u32) -> u32 {
    add_of(mul_of(sin_of(a), x), mul_of(cos_of(a), y))
}

/// The angle of a sector's starting edge relative to its bisector:
/// `-sector / 2` in binary32.
pub open spec fn arc_start_of(sector: u32) -> u32 {
    div_of(neg_of(sector), TWO_BITS)
}

/// The angle of a sector's ending edge relative to its bisector:
/// `sector / 2` in binary32.
pub open spec fn arc_end_of(sector: u32) -> u32 {
    div_of(sector, TWO_BITS)
}

/// The x offset from an arc's centre to the boundary point in the bisector
/// direction `(dx, dy)` rotated by angle `a`: the direction is normalized,
/// rotated, then scaled by the radius `r`.
pub open spec fn arc_edge_x_of(dx: u32, dy: u32, r: u32, a: u32) -> u32 {
    mul_of(rot_x_of(a, unit_x_of(dx, dy), unit_y_of(dx, dy)), r)
}

/// The y offset from an arc's centre to the boundary point in the bisector
/// direction `(dx, dy)` rotated by angle `a`.
pub open spec fn arc_edge_y_of(dx: u32, dy: u32, r: u32, a: u32) -> u32 {
    mul_of(rot_y_of(a, unit_x_of(dx, dy), unit_y_of(dx, dy)), r)
}

/// The offset from an arc's centre to its `k`-th rim sample: the starting
/// edge offset for `k = 0`, then one fixed angular step of `MINOR_ARC_BITS`
/// radians applied to the previous, already scaled, offset for each further
/// sample.
pub open spec fn arc_dir_of(dx: u32, dy: u32, r: u32, sector: u32, k: nat) -> (u32, u32)
    decreases k,
{
    if k == 0 {
        (arc_edge_x_of(dx, dy, r, arc_start_of(sector)), arc_edge_y_of(
            dx,
            dy,
            r,
            arc_start_of(sector),
        ))
    } else {
        let d = arc_dir_of(dx, dy, r, sector, (k - 1) as nat);
        (rot_x_of(MINOR_ARC_BITS, d.0, d.1), rot_y_of(MINOR_ARC_BITS, d.0, d.1))
    }
}

/// How many rim samples an arc of the given sector angle gets before its
/// final boundary point: the sector divided by the fixed angular step,
/// rounded down, in binary32.
pub open spec fn arc_samples_of(sector: u32) -> usize {
    usize_of(floor_of(div_of(sector, MINOR_ARC_BITS)))
}

/// Whether an arc's vertex count, two more than its sample count, fits a
/// `usize`: the one machine limit on `new_arc`.
pub open spec fn arc_count_fits(sector: u32) -> bool {
    arc_samples_of(sector) <= usize::MAX - 2
}

/// The smallest element of `s` under the binary32 `<` comparison, found by
/// a left-to-right scan that keeps the incumbent unless the next element
/// compares strictly below it; the empty sequence yields the bit pattern of
/// zero. Because a NaN compares below nothing and nothing compares below a
/// NaN, a NaN never displaces the incumbent: the defined tie-break for
/// unordered values.
pub open spec fn seq_min(s: Seq<u32>) -> u32
    decreases s.len(),
{
    if s.len() == 0 {
        0u32
    } else if s.len() == 1 {
        s[0]
    } else {
        let m = seq_min(s.drop_last());
        if lt_of(s.last(), m) {
            s.last()
        } else {
            m
        }
    }
}

/// The largest element of `s` under the binary32 `<` comparison, by the
/// same scan as `seq_min` with the test reversed; the empty sequence yields
/// the bit pattern of zero.
pub open spec fn seq_max(s: Seq<u32>) -> u32
    decreases s.len(),
{
    if s.len() == 0 {
        0u32
    } else if s.len() == 1 {
        s[0]
    } else {
        let m = seq_max(s.drop_last());
        if lt_of(m, s.last()) {
            s.last()
        } else {
            m
        }
    }
}

/// Scans `v` for its smallest element under the binary32 `<` comparison.
fn vec_min(v: &Vec<u32>) -> (r: u32)
    ensures
        r == seq_min(v@),
{
    if v.len() == 0 {
        return 0u32;
    }
    let mut m: u32 = v[0];
    let mut i: usize = 1;
    while i < v.len()
        invariant
            1 <= i <= v@.len(),
            m == seq_min(v@.take(i as int)),
        decreases v@.len() - i,
    {
        if lt_bits(v[i], m) {
            m = v[i];
        }
        i = i + 1;
        proof {
            assert(v@.take(i as int).drop_last() =~= v@.take(i - 1));
            assert(v@.take(i as int).last() == v@[i - 1]);
        }
    }
    proof {
        assert(v@.take(v@.len() as int) =~= v@);
    }
    m
}

/// Scans `v` for its largest element under the binary32 `<` comparison.
fn vec_max(v: &Vec<u32>) -> (r: u32)
    ensures
        r == seq_max(v@),
{
    if v.len() == 0 {
        return 0u32;
    }
    let mut m: u32 = v[0];
    let mut i: usize = 1;
    while i < v.len()
        invariant
            1 <= i <= v@.len(),
            m == seq_max(v@.take(i as int)),
        decreases v@.len() - i,
    {
        if lt_bits(m, v[i]) {
            m = v[i];
        }
        i = i + 1;
        proof {
            assert(v@.take(i as int).drop_last() =~= v@.take(i - 1));
            assert(v@.take(i as int).last() == v@[i - 1]);
        }
    }
    proof {
        assert(v@.take(v@.len() as int) =~= v@);
    }
    m
}

impl Collidable {
    /// Builds a circle of radius `r` centred at `(cx, cy)`: its bounding
    /// extents are twice the radius and it carries no vertex ring. Total
    /// over its inputs; a non-positive radius is the caller's business.
    pub fn new_circle(t: u8, i: usize, cx: u32, cy: u32, r: u32) -> (c: Collidable)
        ensures
            c.collidable_type == t,
            c.collidable_shape is Circle,
            c.collidable_id == i,
            c.centrex == cx,
            c.centrey == cy,
            c.radius == r,
            c.width == mul_of(r, TWO_BITS),
            c.height == mul_of(r, TWO_BITS),
            c.nvert == 0,
            c.vertx@ == Seq::<u32>::empty(),
            c.verty@ == Seq::<u32>::empty(),
            c.normx@ == Seq::<u32>::empty(),
            c.normy@ == Seq::<u32>::empty(),
            c.wf(),
            c.normals_fresh(),
    {
        let diameter = mul_bits(r, TWO_BITS);
        let c = Collidable {
            collidable_type: t,
            collidable_shape: CollidableShape::Circle,
            collidable_id: i,

            centrex: cx,
            centrey: cy,
            radius: r,
            width: diameter,
            height: diameter,

            nvert: 0,
            vertx: Vec::new(),
            verty: Vec::new(),
            normx: Vec::new(),
            normy: Vec::new(),
        };
        proof {
            assert(c.vertx@ =~= Seq::<u32>::empty());
            assert(c.verty@ =~= Seq::<u32>::empty());
            assert(c.normx@ =~= Seq::<u32>::empty());
            assert(c.normy@ =~= Seq::<u32>::empty());
            assert(c.normx@ =~= norm_x_seq(c.verty@));
            assert(c.normy@ =~= norm_y_seq(c.vertx@));
        }
        c
    }

    /// Approximates a circular sector of angular width `sector` radians,
    /// bisected by the direction `(dirx, diry)` (which need not be
    /// normalized), centred at `(cx, cy)` with radius `r`, as a fan
    /// polygon: the apex is the centre, the first rim vertex sits on the
    /// sector's starting edge, each further sample steps forward by the
    /// fixed `MINOR_ARC_BITS` angle, and the final vertex sits exactly on
    /// the ending edge. The bounding metrics are the enclosing circle's
    /// box, deliberately not recomputed from the smaller true footprint. A
    /// zero sector still yields two vertices, apex plus one duplicated
    /// boundary point: a degenerate polygon callers must tolerate. The one
    /// precondition is the machine limit that the vertex count fits a
    /// `usize`; `try_new_arc` checks it at run time.
    pub fn new_arc(
        t: u8,
        id: usize,
        cx: u32,
        cy: u32,
        r: u32,
        dirx: u32,
        diry: u32,
        sector: u32,
    ) -> (c: Collidable)
        requires
            arc_count_fits(sector),
        ensures
            c.is_arc_of(t, id, cx, cy, r, dirx, diry, sector),
    {
        let samples = trunc_to_usize(floor_bits(div_bits(sector, MINOR_ARC_BITS)));
        let nvert = samples + 2;

        let mut vertx: Vec<u32> = Vec::with_capacity(nvert);
        let mut verty: Vec<u32> = Vec::with_capacity(nvert);
        vertx.push(cx);
        verty.push(cy);

        let norm = sqrt_bits(add_bits(mul_bits(dirx, dirx), mul_bits(diry, diry)));
        let ux = div_bits(dirx, norm);
        let uy = div_bits(diry, norm);

        let a0 = div_bits(neg_bits(sector), TWO_BITS);
        let c0 = cos_bits(a0);
        let s0 = sin_bits(a0);
        let mut dx = mul_bits(sub_bits(mul_bits(c0, ux), mul_bits(s0, uy)), r);
        let mut dy = mul_bits(add_bits(mul_bits(s0, ux), mul_bits(c0, uy)), r);

        let cs = cos_bits(MINOR_ARC_BITS);
        let ss = sin_bits(MINOR_ARC_BITS);

        let mut k: usize = 0;
        while k < nvert - 2
            invariant
                nvert == arc_samples_of(sector) + 2,
                k <= nvert - 2,
                vertx@.len() == k + 1,
                verty@.len() == k + 1,
                vertx@[0] == cx,
                verty@[0] == cy,
                dx == arc_dir_of(dirx, diry, r, sector, k as nat).0,
                dy == arc_dir_of(dirx, diry, r, sector, k as nat).1,
                forall|j: int|
                    1 <= j <= k ==> vertx@[j] == add_of(
                        cx,
                        arc_dir_of(dirx, diry, r, sector, (j - 1) as nat).0,
                    ),
                forall|j: int|
                    1 <= j <= k ==> verty@[j] == add_of(
                        cy,
                        arc_dir_of(dirx, diry, r, sector, (j - 1) as nat).1,
                    ),
                cs == cos_of(MINOR_ARC_BITS),
                ss == sin_of(MINOR_ARC_BITS),
            decreases nvert - 2 - k,
        {
            vertx.push(add_bits(cx, dx));
            verty.push(add_bits(cy, dy));
            let ndx = sub_bits(mul_bits(cs, dx), mul_bits(ss, dy));
            let ndy = add_bits(mul_bits(ss, dx), mul_bits(cs, dy));
            dx = ndx;
            dy = ndy;
            k = k + 1;
        }

        let af = div_bits(sector, TWO_BITS);
        let cf = cos_bits(af);
        let sf = sin_bits(af);
        let ldx = mul_bits(sub_bits(mul_bits(cf, ux), mul_bits(sf, uy)), r);
        let ldy = mul_bits(add_bits(mul_bits(sf, ux), mul_bits(cf, uy)), r);
        vertx.push(add_bits(cx, ldx));
        verty.push(add_bits(cy, ldy));

        let normx = calc_normx(nvert, &verty);
        let normy = calc_normy(nvert, &vertx);
        let diameter = mul_bits(r, TWO_BITS);

        Collidable {
            collidable_type: t,
            collidable_shape: CollidableShape::Polygon,
            collidable_id: id,

            centrex: cx,
            centrey: cy,
            radius: 0u32,
            width: diameter,
            height: diameter,

            nvert,
            vertx,
            verty,
            normx,
            normy,
        }
    }

    /// Builds the fan polygon of `new_arc` after checking, at run time, the
    /// one bound `new_arc` asks of its caller: that the vertex count fits a
    /// `usize`. Returns `None` exactly when it does not; for every sector a
    /// physical caller produces it returns the arc.
    pub fn try_new_arc(
        t: u8,
        id: usize,
        cx: u32,
        cy: u32,
        r: u32,
        dirx: u32,
        diry: u32,
        sector: u32,
    ) -> (res: Option<Collidable>)
        ensures
            res is Some <==> arc_count_fits(sector),
            res matches Some(c) ==> c.is_arc_of(t, id, cx, cy, r, dirx, diry, sector),
    {
        let samples = trunc_to_usize(floor_bits(div_bits(sector, MINOR_ARC_BITS)));
        if samples <= usize::MAX - 2 {
            Some(Self::new_arc(t, id, cx, cy, r, dirx, diry, sector))
        } else {
            None
        }
    }

    /// Builds a polygon from caller-owned vertex arrays taken verbatim: no
    /// reordering and no check of simplicity, convexity or winding. The
    /// extents are those of the vertex set's bounding box, per axis, and
    /// the centre is that box's midpoint, not an area centroid; with no
    /// vertices both fall back to zero. Nearly duplicate vertices therefore
    /// distort the metrics; that is accepted behaviour, not corrected here.
    pub fn new_poly(t: u8, i: usize, nvert: usize, vertx: Vec<u32>, verty: Vec<u32>) -> (c:
        Collidable)
        requires
            vertx@.len() == nvert,
            verty@.len() == nvert,
        ensures
            c.collidable_type == t,
            c.collidable_shape is Polygon,
            c.collidable_id == i,
            c.centrex == add_of(seq_min(vertx@), mul_of(sub_of(seq_max(vertx@), seq_min(vertx@)), HALF_BITS)),
            c.centrey == add_of(seq_min(verty@), mul_of(sub_of(seq_max(verty@), seq_min(verty@)), HALF_BITS)),
            c.radius == 0u32,
            c.width == sub_of(seq_max(vertx@), seq_min(vertx@)),
            c.height == sub_of(seq_max(verty@), seq_min(verty@)),
            c.nvert == nvert,
            c.vertx@ == vertx@,
            c.verty@ == verty@,
            c.wf(),
            c.normals_fresh(),
    {
        let minx = vec_min(&vertx);
        let maxx = vec_max(&vertx);
        let width = sub_bits(maxx, minx);
        let miny = vec_min(&verty);
        let maxy = vec_max(&verty);
        let height = sub_bits(maxy, miny);

        let normx = calc_normx(nvert, &verty);
        let normy = calc_normy(nvert, &vertx);
        Collidable {
            collidable_type: t,
            collidable_shape: CollidableShape::Polygon,
            collidable_id: i,

            centrex: add_bits(minx, mul_bits(width, HALF_BITS)),
            centrey: add_bits(miny, mul_bits(height, HALF_BITS)),
            radius: 0u32,
            width,
            height,

            nvert,
            vertx,
            verty,
            normx,
            normy,
        }
    }

    /// Builds the axis-aligned rectangle with one corner at `(x, y)` and
    /// the opposite one at `(x + w, y + h)`, as the four-vertex ring
    /// `(x, y)`, `(x + w, y)`, `(x + w, y + h)`, `(x, y + h)` in that fixed
    /// winding order; whether that reads clockwise is the caller's
    /// coordinate-system convention. The centre is the rectangle's midpoint
    /// and the extents are `w` and `h` verbatim, not re-derived from the
    /// vertices.
    pub fn new_rect(t: u8, i: usize, x: u32, y: u32, w: u32, h: u32) -> (c: Collidable)
        ensures
            c.collidable_type == t,
            c.collidable_shape is Polygon,
            c.collidable_id == i,
            c.centrex == add_of(x, mul_of(w, HALF_BITS)),
            c.centrey == add_of(y, mul_of(h, HALF_BITS)),
            c.radius == 0u32,
            c.width == w,
            c.height == h,
            c.nvert == 4,
            c.vertx@ == seq![x, add_of(x, w), add_of(x, w), x],
            c.verty@ == seq![y, y, add_of(y, h), add_of(y, h)],
            c.wf(),
            c.normals_fresh(),
    {
        let nvert: usize = 4;
        let xw = add_bits(x, w);
        let yh = add_bits(y, h);
        let mut vertx: Vec<u32> = Vec::with_capacity(nvert);
        vertx.push(x);
        vertx.push(xw);
        vertx.push(xw);
        vertx.push(x);
        let mut verty: Vec<u32> = Vec::with_capacity(nvert);
        verty.push(y);
        verty.push(y);
        verty.push(yh);
        verty.push(yh);
        proof {
            assert(vertx@ =~= seq![x, add_of(x, w), add_of(x, w), x]);
            assert(verty@ =~= seq![y, y, add_of(y, h), add_of(y, h)]);
        }
        let normx = calc_normx(nvert, &verty);
        let normy = calc_normy(nvert, &vertx);
        Collidable {
            collidable_type: t,
            collidable_shape: CollidableShape::Polygon,
            collidable_id: i,

            centrex: add_bits(x, mul_bits(w, HALF_BITS)),
            centrey: add_bits(y, mul_bits(h, HALF_BITS)),
            radius: 0u32,
            width: w,
            height: h,

            nvert,
            vertx,
            verty,
            normx,
            normy,
        }
    }

    /// Recomputes the per-edge normals in place from the current vertex
    /// ring, leaving the vertices and every other field untouched. The
    /// owning collision system must call this after mutating vertices in
    /// place; nothing tracks staleness automatically. Idempotent: the
    /// normals depend on the vertex ring alone.
    pub fn update_normals(&mut self)
        requires
            old(self).vertx@.len() == old(self).nvert,
            old(self).verty@.len() == old(self).nvert,
        ensures
            final(self).normals_fresh(),
            final(self).normx@.len() == old(self).nvert,
            final(self).normy@.len() == old(self).nvert,
            final(self).vertx@ == old(self).vertx@,
            final(self).verty@ == old(self).verty@,
            final(self).nvert == old(self).nvert,
            final(self).collidable_type == old(self).collidable_type,
            final(self).collidable_shape == old(self).collidable_shape,
            final(self).collidable_id == old(self).collidable_id,
            final(self).centrex == old(self).centrex,
            final(self).centrey == old(self).centrey,
            final(self).radius == old(self).radius,
            final(self).width == old(self).width,
            final(self).height == old(self).height,
    {
        self.normx = calc_normx(self.nvert, &self.verty);
        self.normy = calc_normy(self.nvert, &self.vertx);
    }
}

/// Refreshing normals twice from the same vertex ring changes nothing: the
/// normals `update_normals` leaves behind are a function of the vertices
/// alone, so a second call on an unmodified shape reproduces them bit for
/// bit.
pub proof fn lemma_update_normals_idempotent(once: Collidable, twice: Collidable)
    requires
        once.normals_fresh(),
        twice.normals_fresh(),
        twice.vertx@ == once.vertx@,
        twice.verty@ == once.verty@,
    ensures
        twice.normx@ == once.normx@,
        twice.normy@ == once.normy@,
{
}

} // verus!

