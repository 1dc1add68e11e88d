//! The retained 2D geometry builder: accumulates transformed primitives into
//! a CPU mesh of vertices and triangle-list indices, tracking the bounding
//! rectangle of everything emitted.
//!
//! The builder is append-only and transform-first: positions pass through the
//! model's affine transform as they are recorded, so widgets can set a
//! transform once and emit primitives in local coordinates. Appends that
//! would push a vertex index past the 32-bit range are ignored, so every
//! stored index always addresses a stored vertex.

use vstd::prelude::*;
use crate::fx::{Fx, mul_div_sat, sat64, tdiv};
use crate::geom::{
    FxVec,
    Rect,
    Transform,
    spec_vadd,
    spec_vsub,
    spec_apply,
    spec_expand,
    spec_empty_rect,
    spec_identity,
    rect_contains,
    fx_mul_spec,
    fx_add_spec,
    fx_sub_spec,
    fx_frac_spec,
    sin_turn_spec,
    cos_turn_spec,
    fx_len,
    vec_len,
    sin_turn,
    cos_turn,
};

verus! {

/// An external node handle: resolved to a color by the simulator at shader
/// time.
#[derive(Clone, Copy, Debug, PartialEq, Eq, Structural)]
pub struct NodeAddr(pub u32);

/// A packed 32-bit RGBA color.
#[derive(Clone, Copy, Debug, PartialEq, Eq, Structural)]
pub struct Color(pub u32);

/// A vertex's color source: either a literal color or a node handle looked up
/// at shader time.
#[derive(Clone, Copy, Debug, PartialEq, Eq, Structural)]
pub enum ColorSrc {
    Node(NodeAddr),
    Solid(Color),
}

/// Texture coordinates for up to four corners of a primitive.
#[derive(Clone, Copy, Debug, PartialEq, Eq)]
pub struct TexCoords {
    pub uv_coords: [FxVec; 4],
}

/// The texture coordinates of the solid white texel.
pub open spec fn spec_white_tex() -> TexCoords {
    TexCoords {
        uv_coords: [
            FxVec { x: Fx(0), y: Fx(0) },
            FxVec { x: Fx(0), y: Fx(0) },
            FxVec { x: Fx(0), y: Fx(0) },
            FxVec { x: Fx(0), y: Fx(0) },
        ],
    }
}

impl TexCoords {
    /// The coordinates of the solid white texel, used by primitives that
    /// carry no texture of their own.
    pub fn white() -> (t: TexCoords)
        ensures
            t == spec_white_tex(),
    {
        let z = FxVec { x: Fx(0), y: Fx(0) };
        TexCoords { uv_coords: [z, z, z, z] }
    }
}

/// One mesh vertex: a position, texture coordinates, and a color source
/// packed as a 32-bit word plus a flag word (1 when the word is a node
/// handle, 0 when it is a literal color).
#[derive(Clone, Copy, Debug, PartialEq, Eq, Structural)]
pub struct Vertex {
    pub pos: FxVec,
    pub uv: FxVec,
    pub color_or_node: u32,
    pub is_node_addr: u32,
}

/// A vertex assembled from a position, texture coordinates and a color
/// source.
pub open spec fn spec_vertex_new(pos: FxVec, uv: FxVec, color: ColorSrc) -> Vertex {
    match color {
        ColorSrc::Node(addr) => Vertex { pos, uv, color_or_node: addr.0, is_node_addr: 1 },
        ColorSrc::Solid(c) => Vertex { pos, uv, color_or_node: c.0, is_node_addr: 0 },
    }
}

impl Vertex {
    /// Assembles a vertex, packing the color source into its two words.
    pub fn new(pos: FxVec, uv: FxVec, color: ColorSrc) -> (v: Vertex)
        ensures
            v == spec_vertex_new(pos, uv, color),
    {
        let (color_or_node, is_node_addr) = match color {
            ColorSrc::Node(addr) => (addr.0, 1),
            ColorSrc::Solid(c) => (c.0, 0),
        };
        Vertex { pos, uv, color_or_node, is_node_addr }
    }
}

/// The geometry builder.
pub struct Model {
    /// Applied to every incoming position.
    pub transform: Transform,
    /// The mesh vertices, in emission order.
    pub vertices: Vec<Vertex>,
    /// Triangle-list indices into `vertices`.
    pub indices: Vec<u32>,
    /// The union of all emitted positions; the empty sentinel after a clear.
    pub bounds: Rect,
}

/// The geometry builder's state, mathematically.
#[verifier::ext_equal]
pub struct ModelView {
    pub transform: Transform,
    pub vertices: Seq<Vertex>,
    pub indices: Seq<u32>,
    pub bounds: Rect,
}

impl View for Model {
    type V = ModelView;

    open spec fn view(&self) -> ModelView {
        ModelView {
            transform: self.transform,
            vertices: self.vertices@,
            indices: self.indices@,
            bounds: self.bounds,
        }
    }
}

impl ModelView {
    /// Every stored index addresses a stored vertex, and the bounds contain
    /// every stored vertex position.
    pub open spec fn wf(self) -> bool {
        &&& forall|i: int|
            0 <= i < self.indices.len() ==> (#[trigger] self.indices[i]) < self.vertices.len()
        &&& forall|j: int|
            0 <= j < self.vertices.len() ==> rect_contains(
                self.bounds,
                (#[trigger] self.vertices[j]).pos,
            )
    }
}

/// Whether `k` more vertices still fit under the 32-bit index limit.
pub open spec fn fits(len: nat, k: nat) -> bool {
    len + k <= 0xFFFF_FFFF
}

/// An empty mesh under the given transform: what `clear` leaves behind.
pub open spec fn spec_clear(m: ModelView) -> ModelView {
    ModelView {
        transform: m.transform,
        vertices: Seq::empty(),
        indices: Seq::empty(),
        bounds: spec_empty_rect(),
    }
}

/// A raw triangle: its three vertices pass through the transform, grow the
/// bounds, and are appended with consecutive indices.
#[verifier::opaque]
pub open spec fn spec_raw_tri(m: ModelView, vs: [Vertex; 3]) -> ModelView {
    if fits(m.vertices.len(), 3) {
        let t0 = Vertex { pos: spec_apply(m.transform, vs[0].pos), ..vs[0] };
        let t1 = Vertex { pos: spec_apply(m.transform, vs[1].pos), ..vs[1] };
        let t2 = Vertex { pos: spec_apply(m.transform, vs[2].pos), ..vs[2] };
        let n = m.vertices.len() as u32;
        ModelView {
            transform: m.transform,
            vertices: m.vertices + seq![t0, t1, t2],
            indices: m.indices + seq![n, (n + 1) as u32, (n + 2) as u32],
            bounds: spec_expand(spec_expand(spec_expand(m.bounds, t0.pos), t1.pos), t2.pos),
        }
    } else {
        m
    }
}

/// A raw quad: four vertices and the two triangles `0 1 2` and `0 2 3`.
#[verifier::opaque]
pub open spec fn spec_raw_quad(m: ModelView, vs: [Vertex; 4]) -> ModelView {
    if fits(m.vertices.len(), 4) {
        let t0 = Vertex { pos: spec_apply(m.transform, vs[0].pos), ..vs[0] };
        let t1 = Vertex { pos: spec_apply(m.transform, vs[1].pos), ..vs[1] };
        let t2 = Vertex { pos: spec_apply(m.transform, vs[2].pos), ..vs[2] };
        let t3 = Vertex { pos: spec_apply(m.transform, vs[3].pos), ..vs[3] };
        let n = m.vertices.len() as u32;
        ModelView {
            transform: m.transform,
            vertices: m.vertices + seq![t0, t1, t2, t3],
            indices: m.indices + seq![
                n,
                (n + 1) as u32,
                (n + 2) as u32,
                n,
                (n + 2) as u32,
                (n + 3) as u32,
            ],
            bounds: spec_expand(
                spec_expand(spec_expand(spec_expand(m.bounds, t0.pos), t1.pos), t2.pos),
                t3.pos,
            ),
        }
    } else {
        m
    }
}

/// A textured triangle from three positions.
pub open spec fn spec_tri(m: ModelView, points: [FxVec; 3], tex: TexCoords, color: ColorSrc) -> ModelView {
    spec_raw_tri(
        m,
        [
            spec_vertex_new(points[0], tex.uv_coords[0], color),
            spec_vertex_new(points[1], tex.uv_coords[1], color),
            spec_vertex_new(points[2], tex.uv_coords[2], color),
        ],
    )
}

/// A textured quad from four positions.
pub open spec fn spec_quad(m: ModelView, points: [FxVec; 4], tex: TexCoords, color: ColorSrc) -> ModelView {
    spec_raw_quad(
        m,
        [
            spec_vertex_new(points[0], tex.uv_coords[0], color),
            spec_vertex_new(points[1], tex.uv_coords[1], color),
            spec_vertex_new(points[2], tex.uv_coords[2], color),
            spec_vertex_new(points[3], tex.uv_coords[3], color),
        ],
    )
}

/// The corners of a rectangle in drawing order.
pub open spec fn spec_rect_corners(r: Rect) -> [FxVec; 4] {
    [r.min, FxVec { x: r.max.x, y: r.min.y }, r.max, FxVec { x: r.min.x, y: r.max.y }]
}

/// A filled rectangle.
pub open spec fn spec_rect(m: ModelView, r: Rect, tex: TexCoords, color: ColorSrc) -> ModelView {
    spec_quad(m, spec_rect_corners(r), tex, color)
}

/// The four corners of a line's quad: the segment's perpendicular, normalized
/// and scaled to half the width, offsets both endpoints to either side. A
/// zero-length segment gets a zero offset.
#[verifier::opaque]
pub open spec fn spec_line_corners(a: FxVec, b: FxVec, w: Fx) -> [FxVec; 4] {
    let d = spec_vsub(b, a);
    let perp = FxVec { x: Fx(sat64(-d.y.0)), y: d.x };
    let len = fx_len(perp);
    let off = if len == 0 {
        FxVec { x: Fx(0), y: Fx(0) }
    } else {
        FxVec {
            x: Fx(sat64(tdiv(perp.x.0 * w.0, 2 * len))),
            y: Fx(sat64(tdiv(perp.y.0 * w.0, 2 * len))),
        }
    };
    [spec_vsub(b, off), spec_vadd(b, off), spec_vadd(a, off), spec_vsub(a, off)]
}

/// A line segment drawn as a quad of the given width.
pub open spec fn spec_line(m: ModelView, a: FxVec, b: FxVec, w: Fx, tex: TexCoords, color: ColorSrc) -> ModelView {
    spec_quad(m, spec_line_corners(a, b, w), tex, color)
}

/// A raw triangle preserves well-formedness.
pub proof fn lemma_wf_raw_tri(m: ModelView, vs: [Vertex; 3])
    requires
        m.wf(),
    ensures
        spec_raw_tri(m, vs).wf(),
{
    reveal(spec_raw_tri);
    if fits(m.vertices.len(), 3) {
        let m2 = spec_raw_tri(m, vs);
        assert forall|i: int| 0 <= i < m2.indices.len() implies (#[trigger] m2.indices[i])
            < m2.vertices.len() by {
            if i < m.indices.len() {
                assert(m.indices[i] < m.vertices.len());
            }
        }
        assert forall|j: int| 0 <= j < m2.vertices.len() implies rect_contains(
            m2.bounds,
            (#[trigger] m2.vertices[j]).pos,
        ) by {
            let t0 = Vertex { pos: spec_apply(m.transform, vs[0].pos), ..vs[0] };
            let t1 = Vertex { pos: spec_apply(m.transform, vs[1].pos), ..vs[1] };
            let t2 = Vertex { pos: spec_apply(m.transform, vs[2].pos), ..vs[2] };
            let b1 = spec_expand(m.bounds, t0.pos);
            let b2 = spec_expand(b1, t1.pos);
            let b3 = spec_expand(b2, t2.pos);
            if j < m.vertices.len() {
                assert(rect_contains(m.bounds, m.vertices[j].pos));
            }
        }
    }
}

/// A raw quad preserves well-formedness.
pub proof fn lemma_wf_raw_quad(m: ModelView, vs: [Vertex; 4])
    requires
        m.wf(),
    ensures
        spec_raw_quad(m, vs).wf(),
{
    reveal(spec_raw_quad);
    if fits(m.vertices.len(), 4) {
        let m2 = spec_raw_quad(m, vs);
        assert forall|i: int| 0 <= i < m2.indices.len() implies (#[trigger] m2.indices[i])
            < m2.vertices.len() by {
            if i < m.indices.len() {
                assert(m.indices[i] < m.vertices.len());
            }
        }
        assert forall|j: int| 0 <= j < m2.vertices.len() implies rect_contains(
            m2.bounds,
            (#[trigger] m2.vertices[j]).pos,
        ) by {
            if j < m.vertices.len() {
                assert(rect_contains(m.bounds, m.vertices[j].pos));
            }
        }
    }
}

impl Model {
    /// Resets the mesh and the bounds; the transform stays.
    pub fn clear(&mut self)
        ensures
            final(self)@ == spec_clear(old(self)@),
            final(self)@.wf(),
    {
        self.vertices.clear();
        self.indices.clear();
        self.bounds = Rect::default();
    }

    /// Appends a raw triangle: the three vertices pass through the transform,
    /// grow the bounds, and gain consecutive triangle-list indices.
    pub fn raw_tri(&mut self, vertices: [Vertex; 3])
        ensures
            final(self)@ == spec_raw_tri(old(self)@, vertices),
            old(self)@.wf() ==> final(self)@.wf(),
    {
        proof {
            reveal(spec_raw_tri);
            if old(self)@.wf() {
                lemma_wf_raw_tri(old(self)@, vertices);
            }
        }
        if self.vertices.len() > 0xFFFF_FFFFusize - 3 {
            return;
        }
        let v0 = Vertex { pos: self.transform.apply(vertices[0].pos), ..vertices[0] };
        let v1 = Vertex { pos: self.transform.apply(vertices[1].pos), ..vertices[1] };
        let v2 = Vertex { pos: self.transform.apply(vertices[2].pos), ..vertices[2] };
        let n = self.vertices.len() as u32;
        self.bounds.expand_to_contain(v0.pos);
        self.bounds.expand_to_contain(v1.pos);
        self.bounds.expand_to_contain(v2.pos);
        self.vertices.push(v0);
        self.vertices.push(v1);
        self.vertices.push(v2);
        self.indices.push(n);
        self.indices.push(n + 1);
        self.indices.push(n + 2);
    }

    /// Appends a raw quad: four vertices and the triangles `0 1 2`, `0 2 3`.
    pub fn raw_quad(&mut self, vertices: [Vertex; 4])
        ensures
            final(self)@ == spec_raw_quad(old(self)@, vertices),
            old(self)@.wf() ==> final(self)@.wf(),
    {
        proof {
            reveal(spec_raw_quad);
            if old(self)@.wf() {
                lemma_wf_raw_quad(old(self)@, vertices);
            }
        }
        if self.vertices.len() > 0xFFFF_FFFFusize - 4 {
            return;
        }
        let v0 = Vertex { pos: self.transform.apply(vertices[0].pos), ..vertices[0] };
        let v1 = Vertex { pos: self.transform.apply(vertices[1].pos), ..vertices[1] };
        let v2 = Vertex { pos: self.transform.apply(vertices[2].pos), ..vertices[2] };
        let v3 = Vertex { pos: self.transform.apply(vertices[3].pos), ..vertices[3] };
        let n = self.vertices.len() as u32;
        self.bounds.expand_to_contain(v0.pos);
        self.bounds.expand_to_contain(v1.pos);
        self.bounds.expand_to_contain(v2.pos);
        self.bounds.expand_to_contain(v3.pos);
        self.vertices.push(v0);
        self.vertices.push(v1);
        self.vertices.push(v2);
        self.vertices.push(v3);
        self.indices.push(n);
        self.indices.push(n + 1);
        self.indices.push(n + 2);
        self.indices.push(n);
        self.indices.push(n + 2);
        self.indices.push(n + 3);
    }

    /// A textured triangle from three positions.
    pub fn tri(&mut self, points: [FxVec; 3], tex: &TexCoords, color: ColorSrc)
        ensures
            final(self)@ == spec_tri(old(self)@, points, *tex, color),
            old(self)@.wf() ==> final(self)@.wf(),
    {
        self.raw_tri(
            [
                Vertex::new(points[0], tex.uv_coords[0], color),
                Vertex::new(points[1], tex.uv_coords[1], color),
                Vertex::new(points[2], tex.uv_coords[2], color),
            ],
        );
    }

    /// A textured quad from four positions.
    pub fn quad(&mut self, points: [FxVec; 4], tex: &TexCoords, color: ColorSrc)
        ensures
            final(self)@ == spec_quad(old(self)@, points, *tex, color),
            old(self)@.wf() ==> final(self)@.wf(),
    {
        self.raw_quad(
            [
                Vertex::new(points[0], tex.uv_coords[0], color),
                Vertex::new(points[1], tex.uv_coords[1], color),
                Vertex::new(points[2], tex.uv_coords[2], color),
                Vertex::new(points[3], tex.uv_coords[3], color),
            ],
        );
    }

    /// A filled rectangle.
    pub fn rect(&mut self, rect: Rect, tex: &TexCoords, color: ColorSrc)
        ensures
            final(self)@ == spec_rect(old(self)@, rect, *tex, color),
            old(self)@.wf() ==> final(self)@.wf(),
    {
        self.quad(rect.corners(), tex, color);
    }

    /// A line segment drawn as a quad of width `w`.
    pub fn line(&mut self, points: [FxVec; 2], w: Fx, tex: &TexCoords, color: ColorSrc)
        ensures
            final(self)@ == spec_line(old(self)@, points[0], points[1], w, *tex, color),
            old(self)@.wf() ==> final(self)@.wf(),
    {
        proof {
            reveal(spec_line_corners);
        }
        let a = points[0];
        let b = points[1];
        let d = b.sub(a);
        let perp = FxVec { x: d.y.neg(), y: d.x };
        let len = vec_len(perp);
        let off = if len == 0 {
            FxVec { x: Fx(0), y: Fx(0) }
        } else {
            FxVec {
                x: Fx(mul_div_sat(perp.x.0, w.0, 2 * (len as u128))),
                y: Fx(mul_div_sat(perp.y.0, w.0, 2 * (len as u128))),
            }
        };
        let quad = [b.sub(off), b.add(off), a.add(off), a.sub(off)];
        self.quad(quad, tex, color);
    }
}

/// Linear interpolation of one coordinate: `a - (a - b) * num / den`.
pub open spec fn spec_lerp1(a: Fx, b: Fx, num: u32, den: u32) -> Fx {
    fx_sub_spec(a, fx_frac_spec(fx_sub_spec(a, b), num, den))
}

/// Linear interpolation of a point along a segment at parameter `num / den`.
pub open spec fn spec_lerp(a: FxVec, b: FxVec, num: u32, den: u32) -> FxVec {
    FxVec { x: spec_lerp1(a.x, b.x, num, den), y: spec_lerp1(a.y, b.y, num, den) }
}

/// A point of the quadratic Bezier through `p0 p1 p2`, by de Casteljau.
pub open spec fn spec_lerp_quad(p0: FxVec, p1: FxVec, p2: FxVec, num: u32, den: u32) -> FxVec {
    spec_lerp(spec_lerp(p0, p1, num, den), spec_lerp(p1, p2, num, den), num, den)
}

/// A point of the cubic Bezier through `p0 p1 p2 p3`, by de Casteljau.
pub open spec fn spec_lerp_cube(
    p0: FxVec,
    p1: FxVec,
    p2: FxVec,
    p3: FxVec,
    num: u32,
    den: u32,
) -> FxVec {
    spec_lerp(
        spec_lerp_quad(p0, p1, p2, num, den),
        spec_lerp_quad(p1, p2, p3, num, den),
        num,
        den,
    )
}

/// Linear interpolation of a point along a segment.
pub fn lerp_line(a: FxVec, b: FxVec, num: u32, den: u32) -> (r: FxVec)
    requires
        den > 0,
    ensures
        r == spec_lerp(a, b, num, den),
{
    FxVec {
        x: a.x.sub(a.x.sub(b.x).mul_frac(num, den)),
        y: a.y.sub(a.y.sub(b.y).mul_frac(num, den)),
    }
}

/// A point of the quadratic Bezier, by de Casteljau.
pub fn lerp_quad(p0: FxVec, p1: FxVec, p2: FxVec, num: u32, den: u32) -> (r: FxVec)
    requires
        den > 0,
    ensures
        r == spec_lerp_quad(p0, p1, p2, num, den),
{
    let a = lerp_line(p0, p1, num, den);
    let b = lerp_line(p1, p2, num, den);
    lerp_line(a, b, num, den)
}

/// A point of the cubic Bezier, by de Casteljau.
pub fn lerp_cube(p0: FxVec, p1: FxVec, p2: FxVec, p3: FxVec, num: u32, den: u32) -> (r: FxVec)
    requires
        den > 0,
    ensures
        r == spec_lerp_cube(p0, p1, p2, p3, num, den),
{
    let a = lerp_quad(p0, p1, p2, num, den);
    let b = lerp_quad(p1, p2, p3, num, den);
    lerp_line(a, b, num, den)
}

/// The point of a circle at turn fraction `t`: the center offset by
/// `(sin, cos)` times the radius.
pub open spec fn spec_circle_point(center: FxVec, r: Fx, t: Fx) -> FxVec {
    spec_vadd(
        center,
        FxVec {
            x: fx_mul_spec(Fx(sin_turn_spec(t.0 as int) as i64), r),
            y: fx_mul_spec(Fx(cos_turn_spec(t.0 as int) as i64), r),
        },
    )
}

/// The turn fraction of the `step`th of `detail` samples across the range
/// `r0..r1` of a turn.
pub open spec fn spec_arc_turn(r0: Fx, r1: Fx, step: u32, detail: u32) -> Fx {
    fx_add_spec(
        r0,
        fx_frac_spec(fx_sub_spec(r1, r0), step, detail),
    )
}

/// Computes the point of a circle at a turn fraction.
pub fn arc_point(center: FxVec, r: Fx, t: Fx) -> (p: FxVec)
    ensures
        p == spec_circle_point(center, r, t),
{
    let s = sin_turn(t);
    let c = cos_turn(t);
    center.add(FxVec { x: s.mul(r), y: c.mul(r) })
}

/// Computes the turn fraction of one radial sample.
pub fn arc_turn(r0: Fx, r1: Fx, step: u32, detail: u32) -> (t: Fx)
    requires
        detail > 0,
    ensures
        t == spec_arc_turn(r0, r1, step, detail),
{
    r0.add(r1.sub(r0).mul_frac(step, detail))
}

/// The remaining steps of a quadratic-Bezier stroke: from `step` up to
/// `detail`, each sample extends the stroke by one line quad of width `w`.
pub open spec fn spec_curve_from(
    m: ModelView,
    a: FxVec,
    ctrl: FxVec,
    b: FxVec,
    detail: u32,
    w: Fx,
    color: ColorSrc,
    step: int,
    prev: FxVec,
) -> ModelView
    decreases detail + 1 - step,
{
    if detail == 0 || step > detail || step < 1 {
        m
    } else {
        let p = spec_lerp_quad(a, ctrl, b, step as u32, detail);
        spec_curve_from(
            spec_line(m, prev, p, w, spec_white_tex(), color),
            a,
            ctrl,
            b,
            detail,
            w,
            color,
            step + 1,
            p,
        )
    }
}

/// A quadratic Bezier stroked as `detail` line quads.
pub open spec fn spec_curve(
    m: ModelView,
    a: FxVec,
    ctrl: FxVec,
    b: FxVec,
    detail: u32,
    w: Fx,
    color: ColorSrc,
) -> ModelView {
    spec_curve_from(m, a, ctrl, b, detail, w, color, 1, a)
}

/// The remaining steps of a cubic-Bezier stroke.
pub open spec fn spec_cubic_from(
    m: ModelView,
    a: FxVec,
    c0: FxVec,
    c1: FxVec,
    b: FxVec,
    detail: u32,
    w: Fx,
    color: ColorSrc,
    step: int,
    prev: FxVec,
) -> ModelView
    decreases detail + 1 - step,
{
    if detail == 0 || step > detail || step < 1 {
        m
    } else {
        let p = spec_lerp_cube(a, c0, c1, b, step as u32, detail);
        spec_cubic_from(
            spec_line(m, prev, p, w, spec_white_tex(), color),
            a,
            c0,
            c1,
            b,
            detail,
            w,
            color,
            step + 1,
            p,
        )
    }
}

/// A cubic Bezier stroked as `detail` line quads.
pub open spec fn spec_cubic_curve(
    m: ModelView,
    a: FxVec,
    c0: FxVec,
    c1: FxVec,
    b: FxVec,
    detail: u32,
    w: Fx,
    color: ColorSrc,
) -> ModelView {
    spec_cubic_from(m, a, c0, c1, b, detail, w, color, 1, a)
}

/// The remaining steps of a filled arc fan: each radial sample adds the
/// triangle `prev, sample, center`.
pub open spec fn spec_fan_from(
    m: ModelView,
    center: FxVec,
    r: Fx,
    detail: u32,
    r0: Fx,
    r1: Fx,
    color: ColorSrc,
    step: int,
    prev: FxVec,
) -> ModelView
    decreases detail + 1 - step,
{
    if detail == 0 || step > detail || step < 1 {
        m
    } else {
        let p = spec_circle_point(center, r, spec_arc_turn(r0, r1, step as u32, detail));
        spec_fan_from(
            spec_tri(m, [prev, p, center], spec_white_tex(), color),
            center,
            r,
            detail,
            r0,
            r1,
            color,
            step + 1,
            p,
        )
    }
}

/// A filled section of a circle covering the turn range `r0..r1`, as a fan of
/// `detail` triangles.
pub open spec fn spec_circle_section(
    m: ModelView,
    center: FxVec,
    r: Fx,
    detail: u32,
    r0: Fx,
    r1: Fx,
    color: ColorSrc,
) -> ModelView {
    spec_fan_from(m, center, r, detail, r0, r1, color, 1, spec_circle_point(center, r, r0))
}

/// A full filled circle: the fan across the whole turn.
pub open spec fn spec_circle(m: ModelView, center: FxVec, r: Fx, detail: u32, color: ColorSrc) -> ModelView {
    spec_circle_section(m, center, r, detail, Fx(0), Fx(65536), color)
}

/// The remaining steps of a stroked arc: each radial sample extends the chain
/// by one line quad of width `w`.
pub open spec fn spec_arc_from(
    m: ModelView,
    center: FxVec,
    r: Fx,
    w: Fx,
    detail: u32,
    r0: Fx,
    r1: Fx,
    color: ColorSrc,
    step: int,
    prev: FxVec,
) -> ModelView
    decreases detail + 1 - step,
{
    if detail == 0 || step > detail || step < 1 {
        m
    } else {
        let p = spec_circle_point(center, r, spec_arc_turn(r0, r1, step as u32, detail));
        spec_arc_from(
            spec_line(m, prev, p, w, spec_white_tex(), color),
            center,
            r,
            w,
            detail,
            r0,
            r1,
            color,
            step + 1,
            p,
        )
    }
}

/// A stroked section of a circle covering the turn range `r0..r1`.
pub open spec fn spec_circle_outline_section(
    m: ModelView,
    center: FxVec,
    r: Fx,
    w: Fx,
    detail: u32,
    r0: Fx,
    r1: Fx,
    color: ColorSrc,
) -> ModelView {
    spec_arc_from(m, center, r, w, detail, r0, r1, color, 1, spec_circle_point(center, r, r0))
}

/// A full stroked circle: the chain across the whole turn.
pub open spec fn spec_circle_outline(
    m: ModelView,
    center: FxVec,
    r: Fx,
    w: Fx,
    detail: u32,
    color: ColorSrc,
) -> ModelView {
    spec_circle_outline_section(m, center, r, w, detail, Fx(0), Fx(65536), color)
}

/// A rectangle outline: its four edges stroked as line quads.
pub open spec fn spec_rect_outline(m: ModelView, r: Rect, w: Fx, color: ColorSrc) -> ModelView {
    let tl = r.min;
    let tr = FxVec { x: r.max.x, y: r.min.y };
    let bl = FxVec { x: r.min.x, y: r.max.y };
    let br = r.max;
    let m1 = spec_line(m, tl, tr, w, spec_white_tex(), color);
    let m2 = spec_line(m1, tr, br, w, spec_white_tex(), color);
    let m3 = spec_line(m2, bl, br, w, spec_white_tex(), color);
    spec_line(m3, tl, bl, w, spec_white_tex(), color)
}

/// A filled rounded rectangle: the center rectangle, four edge rectangles,
/// and a quarter-turn fan in each corner.
pub open spec fn spec_rounded_rect(
    m: ModelView,
    rect: Rect,
    r: Fx,
    detail: u32,
    tex: TexCoords,
    color: ColorSrc,
) -> ModelView {
    let tl = rect.min;
    let tr = FxVec { x: rect.max.x, y: rect.min.y };
    let bl = FxVec { x: rect.min.x, y: rect.max.y };
    let br = rect.max;
    let rv = FxVec { x: r, y: r };
    let xr = FxVec { x: r, y: Fx(0) };
    let yr = FxVec { x: Fx(0), y: r };
    let inner = Rect { min: spec_vadd(rect.min, rv), max: spec_vsub(rect.max, rv) };
    let itl = inner.min;
    let itr = FxVec { x: inner.max.x, y: inner.min.y };
    let ibl = FxVec { x: inner.min.x, y: inner.max.y };
    let ibr = inner.max;
    let lrect = Rect { min: spec_vsub(itl, xr), max: ibl };
    let trect = Rect { min: spec_vsub(itl, yr), max: itr };
    let rrect = Rect { min: ibr, max: spec_vadd(itr, xr) };
    let brect = Rect { min: spec_vadd(ibl, yr), max: ibr };
    let m1 = spec_rect(m, inner, tex, color);
    let m2 = spec_rect(m1, lrect, tex, color);
    let m3 = spec_rect(m2, trect, tex, color);
    let m4 = spec_rect(m3, rrect, tex, color);
    let m5 = spec_rect(m4, brect, tex, color);
    let m6 = spec_circle_section(m5, spec_vadd(tl, rv), r, detail, Fx(32768), Fx(49152), color);
    let m7 = spec_circle_section(
        m6,
        FxVec { x: fx_sub_spec(tr.x, r), y: fx_add_spec(tr.y, r) },
        r,
        detail,
        Fx(16384),
        Fx(32768),
        color,
    );
    let m8 = spec_circle_section(m7, spec_vsub(br, rv), r, detail, Fx(0), Fx(16384), color);
    spec_circle_section(
        m8,
        FxVec { x: fx_add_spec(bl.x, r), y: fx_sub_spec(bl.y, r) },
        r,
        detail,
        Fx(49152),
        Fx(65536),
        color,
    )
}

/// A stroked rounded rectangle: a quarter-turn arc in each corner and the
/// four straight edges between them.
pub open spec fn spec_rounded_rect_outline(
    m: ModelView,
    rect: Rect,
    w: Fx,
    r: Fx,
    detail: u32,
    color: ColorSrc,
) -> ModelView {
    let tl = rect.min;
    let tr = FxVec { x: rect.max.x, y: rect.min.y };
    let bl = FxVec { x: rect.min.x, y: rect.max.y };
    let br = rect.max;
    let rv = FxVec { x: r, y: r };
    let xr = FxVec { x: r, y: Fx(0) };
    let yr = FxVec { x: Fx(0), y: r };
    let m1 = spec_circle_outline_section(
        m,
        spec_vadd(tl, rv),
        r,
        w,
        detail,
        Fx(32768),
        Fx(49152),
        color,
    );
    let m2 = spec_circle_outline_section(
        m1,
        FxVec { x: fx_sub_spec(tr.x, r), y: fx_add_spec(tr.y, r) },
        r,
        w,
        detail,
        Fx(16384),
        Fx(32768),
        color,
    );
    let m3 = spec_circle_outline_section(m2, spec_vsub(br, rv), r, w, detail, Fx(0), Fx(16384), color);
    let m4 = spec_circle_outline_section(
        m3,
        FxVec { x: fx_add_spec(bl.x, r), y: fx_sub_spec(bl.y, r) },
        r,
        w,
        detail,
        Fx(49152),
        Fx(65536),
        color,
    );
    let m5 = spec_line(m4, spec_vadd(tl, xr), spec_vsub(tr, xr), w, spec_white_tex(), color);
    let m6 = spec_line(m5, spec_vadd(tr, yr), spec_vsub(br, yr), w, spec_white_tex(), color);
    let m7 = spec_line(m6, spec_vadd(bl, xr), spec_vsub(br, xr), w, spec_white_tex(), color);
    spec_line(m7, spec_vadd(tl, yr), spec_vsub(bl, yr), w, spec_white_tex(), color)
}

/// A textured triangle preserves well-formedness.
pub proof fn lemma_wf_tri(m: ModelView, points: [FxVec; 3], tex: TexCoords, color: ColorSrc)
    requires
        m.wf(),
    ensures
        spec_tri(m, points, tex, color).wf(),
{
    lemma_wf_raw_tri(
        m,
        [
            spec_vertex_new(points[0], tex.uv_coords[0], color),
            spec_vertex_new(points[1], tex.uv_coords[1], color),
            spec_vertex_new(points[2], tex.uv_coords[2], color),
        ],
    );
}

/// A textured quad preserves well-formedness.
pub proof fn lemma_wf_quad(m: ModelView, points: [FxVec; 4], tex: TexCoords, color: ColorSrc)
    requires
        m.wf(),
    ensures
        spec_quad(m, points, tex, color).wf(),
{
    lemma_wf_raw_quad(
        m,
        [
            spec_vertex_new(points[0], tex.uv_coords[0], color),
            spec_vertex_new(points[1], tex.uv_coords[1], color),
            spec_vertex_new(points[2], tex.uv_coords[2], color),
            spec_vertex_new(points[3], tex.uv_coords[3], color),
        ],
    );
}

/// A line quad preserves well-formedness.
pub proof fn lemma_wf_line(m: ModelView, a: FxVec, b: FxVec, w: Fx, tex: TexCoords, color: ColorSrc)
    requires
        m.wf(),
    ensures
        spec_line(m, a, b, w, tex, color).wf(),
{
    lemma_wf_quad(m, spec_line_corners(a, b, w), tex, color);
}

/// A curve stroke preserves well-formedness.
pub proof fn lemma_wf_curve_from(
    m: ModelView,
    a: FxVec,
    ctrl: FxVec,
    b: FxVec,
    detail: u32,
    w: Fx,
    color: ColorSrc,
    step: int,
    prev: FxVec,
)
    requires
        m.wf(),
    ensures
        spec_curve_from(m, a, ctrl, b, detail, w, color, step, prev).wf(),
    decreases detail + 1 - step,
{
    if !(detail == 0 || step > detail || step < 1) {
        let p = spec_lerp_quad(a, ctrl, b, step as u32, detail);
        lemma_wf_line(m, prev, p, w, spec_white_tex(), color);
        lemma_wf_curve_from(
            spec_line(m, prev, p, w, spec_white_tex(), color),
            a,
            ctrl,
            b,
            detail,
            w,
            color,
            step + 1,
            p,
        );
    }
}

/// A cubic stroke preserves well-formedness.
pub proof fn lemma_wf_cubic_from(
    m: ModelView,
    a: FxVec,
    c0: FxVec,
    c1: FxVec,
    b: FxVec,
    detail: u32,
    w: Fx,
    color: ColorSrc,
    step: int,
    prev: FxVec,
)
    requires
        m.wf(),
    ensures
        spec_cubic_from(m, a, c0, c1, b, detail, w, color, step, prev).wf(),
    decreases detail + 1 - step,
{
    if !(detail == 0 || step > detail || step < 1) {
        let p = spec_lerp_cube(a, c0, c1, b, step as u32, detail);
        lemma_wf_line(m, prev, p, w, spec_white_tex(), color);
        lemma_wf_cubic_from(
            spec_line(m, prev, p, w, spec_white_tex(), color),
            a,
            c0,
            c1,
            b,
            detail,
            w,
            color,
            step + 1,
            p,
        );
    }
}

/// An arc fan preserves well-formedness.
pub proof fn lemma_wf_fan_from(
    m: ModelView,
    center: FxVec,
    r: Fx,
    detail: u32,
    r0: Fx,
    r1: Fx,
    color: ColorSrc,
    step: int,
    prev: FxVec,
)
    requires
        m.wf(),
    ensures
        spec_fan_from(m, center, r, detail, r0, r1, color, step, prev).wf(),
    decreases detail + 1 - step,
{
    if !(detail == 0 || step > detail || step < 1) {
        let p = spec_circle_point(center, r, spec_arc_turn(r0, r1, step as u32, detail));
        lemma_wf_tri(m, [prev, p, center], spec_white_tex(), color);
        lemma_wf_fan_from(
            spec_tri(m, [prev, p, center], spec_white_tex(), color),
            center,
            r,
            detail,
            r0,
            r1,
            color,
            step + 1,
            p,
        );
    }
}

/// A stroked arc preserves well-formedness.
pub proof fn lemma_wf_arc_from(
    m: ModelView,
    center: FxVec,
    r: Fx,
    w: Fx,
    detail: u32,
    r0: Fx,
    r1: Fx,
    color: ColorSrc,
    step: int,
    prev: FxVec,
)
    requires
        m.wf(),
    ensures
        spec_arc_from(m, center, r, w, detail, r0, r1, color, step, prev).wf(),
    decreases detail + 1 - step,
{
    if !(detail == 0 || step > detail || step < 1) {
        let p = spec_circle_point(center, r, spec_arc_turn(r0, r1, step as u32, detail));
        lemma_wf_line(m, prev, p, w, spec_white_tex(), color);
        lemma_wf_arc_from(
            spec_line(m, prev, p, w, spec_white_tex(), color),
            center,
            r,
            w,
            detail,
            r0,
            r1,
            color,
            step + 1,
            p,
        );
    }
}

/// A rectangle outline preserves well-formedness.
pub proof fn lemma_wf_rect_outline(m: ModelView, r: Rect, w: Fx, color: ColorSrc)
    requires
        m.wf(),
    ensures
        spec_rect_outline(m, r, w, color).wf(),
{
    let tl = r.min;
    let tr = FxVec { x: r.max.x, y: r.min.y };
    let bl = FxVec { x: r.min.x, y: r.max.y };
    let br = r.max;
    let m1 = spec_line(m, tl, tr, w, spec_white_tex(), color);
    let m2 = spec_line(m1, tr, br, w, spec_white_tex(), color);
    let m3 = spec_line(m2, bl, br, w, spec_white_tex(), color);
    lemma_wf_line(m, tl, tr, w, spec_white_tex(), color);
    lemma_wf_line(m1, tr, br, w, spec_white_tex(), color);
    lemma_wf_line(m2, bl, br, w, spec_white_tex(), color);
    lemma_wf_line(m3, tl, bl, w, spec_white_tex(), color);
}

/// A rounded rectangle preserves well-formedness.
pub proof fn lemma_wf_rounded_rect(
    m: ModelView,
    rect: Rect,
    r: Fx,
    detail: u32,
    tex: TexCoords,
    color: ColorSrc,
)
    requires
        m.wf(),
    ensures
        spec_rounded_rect(m, rect, r, detail, tex, color).wf(),
{
    let tl = rect.min;
    let tr = FxVec { x: rect.max.x, y: rect.min.y };
    let bl = FxVec { x: rect.min.x, y: rect.max.y };
    let br = rect.max;
    let rv = FxVec { x: r, y: r };
    let xr = FxVec { x: r, y: Fx(0) };
    let yr = FxVec { x: Fx(0), y: r };
    let inner = Rect { min: spec_vadd(rect.min, rv), max: spec_vsub(rect.max, rv) };
    let itl = inner.min;
    let itr = FxVec { x: inner.max.x, y: inner.min.y };
    let ibl = FxVec { x: inner.min.x, y: inner.max.y };
    let ibr = inner.max;
    let lrect = Rect { min: spec_vsub(itl, xr), max: ibl };
    let trect = Rect { min: spec_vsub(itl, yr), max: itr };
    let rrect = Rect { min: ibr, max: spec_vadd(itr, xr) };
    let brect = Rect { min: spec_vadd(ibl, yr), max: ibr };
    let m1 = spec_rect(m, inner, tex, color);
    let m2 = spec_rect(m1, lrect, tex, color);
    let m3 = spec_rect(m2, trect, tex, color);
    let m4 = spec_rect(m3, rrect, tex, color);
    let m5 = spec_rect(m4, brect, tex, color);
    let c1 = spec_vadd(tl, rv);
    let c2 = FxVec { x: fx_sub_spec(tr.x, r), y: fx_add_spec(tr.y, r) };
    let c3 = spec_vsub(br, rv);
    let c4 = FxVec { x: fx_add_spec(bl.x, r), y: fx_sub_spec(bl.y, r) };
    let m6 = spec_circle_section(m5, c1, r, detail, Fx(32768), Fx(49152), color);
    let m7 = spec_circle_section(m6, c2, r, detail, Fx(16384), Fx(32768), color);
    let m8 = spec_circle_section(m7, c3, r, detail, Fx(0), Fx(16384), color);
    lemma_wf_quad(m, spec_rect_corners(inner), tex, color);
    lemma_wf_quad(m1, spec_rect_corners(lrect), tex, color);
    lemma_wf_quad(m2, spec_rect_corners(trect), tex, color);
    lemma_wf_quad(m3, spec_rect_corners(rrect), tex, color);
    lemma_wf_quad(m4, spec_rect_corners(brect), tex, color);
    lemma_wf_fan_from(m5, c1, r, detail, Fx(32768), Fx(49152), color, 1, spec_circle_point(c1, r, Fx(32768)));
    lemma_wf_fan_from(m6, c2, r, detail, Fx(16384), Fx(32768), color, 1, spec_circle_point(c2, r, Fx(16384)));
    lemma_wf_fan_from(m7, c3, r, detail, Fx(0), Fx(16384), color, 1, spec_circle_point(c3, r, Fx(0)));
    lemma_wf_fan_from(m8, c4, r, detail, Fx(49152), Fx(65536), color, 1, spec_circle_point(c4, r, Fx(49152)));
}

/// A rounded rectangle outline preserves well-formedness.
pub proof fn lemma_wf_rounded_rect_outline(
    m: ModelView,
    rect: Rect,
    w: Fx,
    r: Fx,
    detail: u32,
    color: ColorSrc,
)
    requires
        m.wf(),
    ensures
        spec_rounded_rect_outline(m, rect, w, r, detail, color).wf(),
{
    let tl = rect.min;
    let tr = FxVec { x: rect.max.x, y: rect.min.y };
    let bl = FxVec { x: rect.min.x, y: rect.max.y };
    let br = rect.max;
    let rv = FxVec { x: r, y: r };
    let xr = FxVec { x: r, y: Fx(0) };
    let yr = FxVec { x: Fx(0), y: r };
    let c1 = spec_vadd(tl, rv);
    let c2 = FxVec { x: fx_sub_spec(tr.x, r), y: fx_add_spec(tr.y, r) };
    let c3 = spec_vsub(br, rv);
    let c4 = FxVec { x: fx_add_spec(bl.x, r), y: fx_sub_spec(bl.y, r) };
    let m1 = spec_circle_outline_section(m, c1, r, w, detail, Fx(32768), Fx(49152), color);
    let m2 = spec_circle_outline_section(m1, c2, r, w, detail, Fx(16384), Fx(32768), color);
    let m3 = spec_circle_outline_section(m2, c3, r, w, detail, Fx(0), Fx(16384), color);
    let m4 = spec_circle_outline_section(m3, c4, r, w, detail, Fx(49152), Fx(65536), color);
    let m5 = spec_line(m4, spec_vadd(tl, xr), spec_vsub(tr, xr), w, spec_white_tex(), color);
    let m6 = spec_line(m5, spec_vadd(tr, yr), spec_vsub(br, yr), w, spec_white_tex(), color);
    let m7 = spec_line(m6, spec_vadd(bl, xr), spec_vsub(br, xr), w, spec_white_tex(), color);
    lemma_wf_arc_from(m, c1, r, w, detail, Fx(32768), Fx(49152), color, 1, spec_circle_point(c1, r, Fx(32768)));
    lemma_wf_arc_from(m1, c2, r, w, detail, Fx(16384), Fx(32768), color, 1, spec_circle_point(c2, r, Fx(16384)));
    lemma_wf_arc_from(m2, c3, r, w, detail, Fx(0), Fx(16384), color, 1, spec_circle_point(c3, r, Fx(0)));
    lemma_wf_arc_from(m3, c4, r, w, detail, Fx(49152), Fx(65536), color, 1, spec_circle_point(c4, r, Fx(49152)));
    lemma_wf_line(m4, spec_vadd(tl, xr), spec_vsub(tr, xr), w, spec_white_tex(), color);
    lemma_wf_line(m5, spec_vadd(tr, yr), spec_vsub(br, yr), w, spec_white_tex(), color);
    lemma_wf_line(m6, spec_vadd(bl, xr), spec_vsub(br, xr), w, spec_white_tex(), color);
    lemma_wf_line(m7, spec_vadd(tl, yr), spec_vsub(bl, yr), w, spec_white_tex(), color);
}

impl Model {
    /// A quadratic Bezier sampled at `detail` equal parameter steps, each
    /// segment stroked as a line quad of width `w`.
    #[verifier::rlimit(100)]
    pub fn curve(&mut self, points: [FxVec; 3], detail: u32, w: Fx, color: ColorSrc)
        ensures
            final(self)@ == spec_curve(old(self)@, points[0], points[1], points[2], detail, w, color),
            old(self)@.wf() ==> final(self)@.wf(),
    {
        proof {
            if old(self)@.wf() {
                lemma_wf_curve_from(old(self)@, points[0], points[1], points[2], detail, w, color, 1, points[0]);
            }
        }
        let a = points[0];
        let ctrl = points[1];
        let b = points[2];
        let tex = TexCoords::white();
        let mut prev = a;
        let mut step: u64 = 1;
        while step <= detail as u64
            invariant
                1 <= step <= detail as u64 + 1,
                tex == spec_white_tex(),
                spec_curve_from(self@, a, ctrl, b, detail, w, color, step as int, prev)
                    == spec_curve_from(old(self)@, a, ctrl, b, detail, w, color, 1, a),
            decreases detail as u64 + 1 - step,
        {
            let ghost pre = self@;
            let p = lerp_quad(a, ctrl, b, step as u32, detail);
            self.line([prev, p], w, &tex, color);
            proof {
                assert(spec_curve_from(pre, a, ctrl, b, detail, w, color, step as int, prev)
                    == spec_curve_from(self@, a, ctrl, b, detail, w, color, step as int + 1, p));
            }
            prev = p;
            step = step + 1;
        }
    }

    /// A cubic Bezier sampled at `detail` equal parameter steps, each segment
    /// stroked as a line quad of width `w`.
    #[verifier::rlimit(100)]
    pub fn cubic_curve(&mut self, points: [FxVec; 4], detail: u32, w: Fx, color: ColorSrc)
        ensures
            final(self)@ == spec_cubic_curve(
                old(self)@,
                points[0],
                points[1],
                points[2],
                points[3],
                detail,
                w,
                color,
            ),
            old(self)@.wf() ==> final(self)@.wf(),
    {
        proof {
            if old(self)@.wf() {
                lemma_wf_cubic_from(
                    old(self)@,
                    points[0],
                    points[1],
                    points[2],
                    points[3],
                    detail,
                    w,
                    color,
                    1,
                    points[0],
                );
            }
        }
        let a = points[0];
        let c0 = points[1];
        let c1 = points[2];
        let b = points[3];
        let tex = TexCoords::white();
        let mut prev = a;
        let mut step: u64 = 1;
        while step <= detail as u64
            invariant
                1 <= step <= detail as u64 + 1,
                tex == spec_white_tex(),
                spec_cubic_from(self@, a, c0, c1, b, detail, w, color, step as int, prev)
                    == spec_cubic_from(old(self)@, a, c0, c1, b, detail, w, color, 1, a),
            decreases detail as u64 + 1 - step,
        {
            let ghost pre = self@;
            let p = lerp_cube(a, c0, c1, b, step as u32, detail);
            self.line([prev, p], w, &tex, color);
            proof {
                assert(spec_cubic_from(pre, a, c0, c1, b, detail, w, color, step as int, prev)
                    == spec_cubic_from(self@, a, c0, c1, b, detail, w, color, step as int + 1, p));
            }
            prev = p;
            step = step + 1;
        }
    }

    /// A filled section of a circle covering the turn range `range[0]` to
    /// `range[1]`, as a fan of `detail` triangles around the center.
    #[verifier::rlimit(100)]
    pub fn circle_section(
        &mut self,
        center: FxVec,
        r: Fx,
        detail: u32,
        range: [Fx; 2],
        color: ColorSrc,
    )
        ensures
            final(self)@ == spec_circle_section(
                old(self)@,
                center,
                r,
                detail,
                range[0],
                range[1],
                color,
            ),
            old(self)@.wf() ==> final(self)@.wf(),
    {
        proof {
            if old(self)@.wf() {
                lemma_wf_fan_from(
                    old(self)@,
                    center,
                    r,
                    detail,
                    range[0],
                    range[1],
                    color,
                    1,
                    spec_circle_point(center, r, range[0]),
                );
            }
        }
        let tex = TexCoords::white();
        let mut prev = arc_point(center, r, range[0]);
        let mut step: u64 = 1;
        while step <= detail as u64
            invariant
                1 <= step <= detail as u64 + 1,
                tex == spec_white_tex(),
                spec_fan_from(self@, center, r, detail, range[0], range[1], color, step as int, prev)
                    == spec_fan_from(
                    old(self)@,
                    center,
                    r,
                    detail,
                    range[0],
                    range[1],
                    color,
                    1,
                    spec_circle_point(center, r, range[0]),
                ),
            decreases detail as u64 + 1 - step,
        {
            let ghost pre = self@;
            let t = arc_turn(range[0], range[1], step as u32, detail);
            let p = arc_point(center, r, t);
            self.tri([prev, p, center], &tex, color);
            proof {
                assert(spec_fan_from(pre, center, r, detail, range[0], range[1], color, step as int, prev)
                    == spec_fan_from(
                    self@,
                    center,
                    r,
                    detail,
                    range[0],
                    range[1],
                    color,
                    step as int + 1,
                    p,
                ));
            }
            prev = p;
            step = step + 1;
        }
    }

    /// A stroked section of a circle covering the turn range `range[0]` to
    /// `range[1]`, as a chain of `detail` line quads of width `w`.
    #[verifier::rlimit(100)]
    pub fn circle_outline_section(
        &mut self,
        center: FxVec,
        r: Fx,
        w: Fx,
        detail: u32,
        range: [Fx; 2],
        color: ColorSrc,
    )
        ensures
            final(self)@ == spec_circle_outline_section(
                old(self)@,
                center,
                r,
                w,
                detail,
                range[0],
                range[1],
                color,
            ),
            old(self)@.wf() ==> final(self)@.wf(),
    {
        proof {
            if old(self)@.wf() {
                lemma_wf_arc_from(
                    old(self)@,
                    center,
                    r,
                    w,
                    detail,
                    range[0],
                    range[1],
                    color,
                    1,
                    spec_circle_point(center, r, range[0]),
                );
            }
        }
        let tex = TexCoords::white();
        let mut prev = arc_point(center, r, range[0]);
        let mut step: u64 = 1;
        while step <= detail as u64
            invariant
                1 <= step <= detail as u64 + 1,
                tex == spec_white_tex(),
                spec_arc_from(self@, center, r, w, detail, range[0], range[1], color, step as int, prev)
                    == spec_arc_from(
                    old(self)@,
                    center,
                    r,
                    w,
                    detail,
                    range[0],
                    range[1],
                    color,
                    1,
                    spec_circle_point(center, r, range[0]),
                ),
            decreases detail as u64 + 1 - step,
        {
            let ghost pre = self@;
            let t = arc_turn(range[0], range[1], step as u32, detail);
            let p = arc_point(center, r, t);
            self.line([prev, p], w, &tex, color);
            proof {
                assert(spec_arc_from(pre, center, r, w, detail, range[0], range[1], color, step as int, prev)
                    == spec_arc_from(
                    self@,
                    center,
                    r,
                    w,
                    detail,
                    range[0],
                    range[1],
                    color,
                    step as int + 1,
                    p,
                ));
            }
            prev = p;
            step = step + 1;
        }
    }

    /// A full filled circle: the triangle fan across the whole turn, with the
    /// first sample at turn fraction zero.
    pub fn circle(&mut self, center: FxVec, r: Fx, detail: u32, color: ColorSrc)
        ensures
            final(self)@ == spec_circle(old(self)@, center, r, detail, color),
            old(self)@.wf() ==> final(self)@.wf(),
    {
        self.circle_section(center, r, detail, [Fx(0), Fx(65536)], color);
    }

    /// A full stroked circle: the line chain across the whole turn.
    pub fn circle_outline(&mut self, center: FxVec, r: Fx, w: Fx, detail: u32, color: ColorSrc)
        ensures
            final(self)@ == spec_circle_outline(old(self)@, center, r, w, detail, color),
            old(self)@.wf() ==> final(self)@.wf(),
    {
        self.circle_outline_section(center, r, w, detail, [Fx(0), Fx(65536)], color);
    }

    /// A rectangle outline: its four edges stroked as line quads of width
    /// `w`.
    #[verifier::rlimit(100)]
    pub fn rect_outline(&mut self, rect: Rect, w: Fx, color: ColorSrc)
        ensures
            final(self)@ == spec_rect_outline(old(self)@, rect, w, color),
            old(self)@.wf() ==> final(self)@.wf(),
    {
        proof {
            if old(self)@.wf() {
                lemma_wf_rect_outline(old(self)@, rect, w, color);
            }
        }
        let tex = TexCoords::white();
        let tl = rect.tl();
        let tr = rect.tr();
        let bl = rect.bl();
        let br = rect.br();
        self.line([tl, tr], w, &tex, color);
        self.line([tr, br], w, &tex, color);
        self.line([bl, br], w, &tex, color);
        self.line([tl, bl], w, &tex, color);
    }

    /// A filled rounded rectangle: a center rectangle, four edge rectangles,
    /// and a quarter-turn fan in each corner.
    #[verifier::rlimit(100)]
    pub fn rounded_rect(&mut self, rect: Rect, r: Fx, detail: u32, tex: &TexCoords, color: ColorSrc)
        ensures
            final(self)@ == spec_rounded_rect(old(self)@, rect, r, detail, *tex, color),
            old(self)@.wf() ==> final(self)@.wf(),
    {
        proof {
            if old(self)@.wf() {
                lemma_wf_rounded_rect(old(self)@, rect, r, detail, *tex, color);
            }
        }
        let tl = rect.tl();
        let tr = rect.tr();
        let bl = rect.bl();
        let br = rect.br();
        let rv = FxVec { x: r, y: r };
        let xr = FxVec { x: r, y: Fx(0) };
        let yr = FxVec { x: Fx(0), y: r };

        let inner = Rect::from_min_max(rect.min.add(rv), rect.max.sub(rv));
        self.rect(inner, tex, color);

        let lrect = Rect::from_min_max(inner.tl().sub(xr), inner.bl());
        let trect = Rect::from_min_max(inner.tl().sub(yr), inner.tr());
        let rrect = Rect::from_min_max(inner.br(), inner.tr().add(xr));
        let brect = Rect::from_min_max(inner.bl().add(yr), inner.br());
        self.rect(lrect, tex, color);
        self.rect(trect, tex, color);
        self.rect(rrect, tex, color);
        self.rect(brect, tex, color);

        self.circle_section(tl.add(rv), r, detail, [Fx(32768), Fx(49152)], color);
        self.circle_section(
            FxVec { x: tr.x.sub(r), y: tr.y.add(r) },
            r,
            detail,
            [Fx(16384), Fx(32768)],
            color,
        );
        self.circle_section(br.sub(rv), r, detail, [Fx(0), Fx(16384)], color);
        self.circle_section(
            FxVec { x: bl.x.add(r), y: bl.y.sub(r) },
            r,
            detail,
            [Fx(49152), Fx(65536)],
            color,
        );
    }

    /// A stroked rounded rectangle: a quarter-turn arc in each corner and the
    /// four straight edges between them.
    #[verifier::rlimit(100)]
    pub fn rounded_rect_outline(&mut self, rect: Rect, w: Fx, r: Fx, detail: u32, color: ColorSrc)
        ensures
            final(self)@ == spec_rounded_rect_outline(old(self)@, rect, w, r, detail, color),
            old(self)@.wf() ==> final(self)@.wf(),
    {
        proof {
            if old(self)@.wf() {
                lemma_wf_rounded_rect_outline(old(self)@, rect, w, r, detail, color);
            }
        }
        let tex = TexCoords::white();
        let tl = rect.tl();
        let tr = rect.tr();
        let bl = rect.bl();
        let br = rect.br();
        let rv = FxVec { x: r, y: r };
        let xr = FxVec { x: r, y: Fx(0) };
        let yr = FxVec { x: Fx(0), y: r };

        let ghost s0 = self@;
        let c1 = tl.add(rv);
        let c2 = FxVec { x: tr.x.sub(r), y: tr.y.add(r) };
        let c3 = br.sub(rv);
        let c4 = FxVec { x: bl.x.add(r), y: bl.y.sub(r) };

        self.circle_outline_section(c1, r, w, detail, [Fx(32768), Fx(49152)], color);
        let ghost s1 = self@;
        self.circle_outline_section(c2, r, w, detail, [Fx(16384), Fx(32768)], color);
        let ghost s2 = self@;
        self.circle_outline_section(c3, r, w, detail, [Fx(0), Fx(16384)], color);
        let ghost s3 = self@;
        self.circle_outline_section(c4, r, w, detail, [Fx(49152), Fx(65536)], color);
        let ghost s4 = self@;
        let e1a = tl.add(xr);
        let e1b = tr.sub(xr);
        let e2a = tr.add(yr);
        let e2b = br.sub(yr);
        let e3a = bl.add(xr);
        let e3b = br.sub(xr);
        let e4a = tl.add(yr);
        let e4b = bl.sub(yr);
        self.line([e1a, e1b], w, &tex, color);
        let ghost s5 = self@;
        self.line([e2a, e2b], w, &tex, color);
        let ghost s6 = self@;
        self.line([e3a, e3b], w, &tex, color);
        let ghost s7 = self@;
        self.line([e4a, e4b], w, &tex, color);
        proof {
            assert(s1 == spec_circle_outline_section(s0, c1, r, w, detail, Fx(32768), Fx(49152), color));
            assert(s2 == spec_circle_outline_section(s1, c2, r, w, detail, Fx(16384), Fx(32768), color));
            assert(s3 == spec_circle_outline_section(s2, c3, r, w, detail, Fx(0), Fx(16384), color));
            assert(s4 == spec_circle_outline_section(s3, c4, r, w, detail, Fx(49152), Fx(65536), color));
            assert(s5 == spec_line(s4, e1a, e1b, w, spec_white_tex(), color));
            assert(s6 == spec_line(s5, e2a, e2b, w, spec_white_tex(), color));
            assert(s7 == spec_line(s6, e3a, e3b, w, spec_white_tex(), color));
            assert(self@ == spec_line(s7, e4a, e4b, w, spec_white_tex(), color));
            assert(self@ == spec_rounded_rect_outline(s0, rect, w, r, detail, color));
        }
    }
}

impl Default for Model {
    /// An empty builder under the identity transform.
    fn default() -> (m: Model)
        ensures
            m@ == (ModelView {
                transform: spec_identity(),
                vertices: Seq::empty(),
                indices: Seq::empty(),
                bounds: spec_empty_rect(),
            }),
            m@.wf(),
    {
        Model {
            transform: Transform::identity(),
            vertices: Vec::new(),
            indices: Vec::new(),
            bounds: Rect::empty(),
        }
    }
}

/// One recorded builder call: the replay law quantifies over sequences of
/// these.
#[derive(Clone, Copy, Debug)]
pub enum PrimOp {
    RawTri([Vertex; 3]),
    RawQuad([Vertex; 4]),
    Tri([FxVec; 3], TexCoords, ColorSrc),
    Quad([FxVec; 4], TexCoords, ColorSrc),
    Rect(Rect, TexCoords, ColorSrc),
    RectOutline(Rect, Fx, ColorSrc),
    Line([FxVec; 2], Fx, TexCoords, ColorSrc),
    Curve([FxVec; 3], u32, Fx, ColorSrc),
    CubicCurve([FxVec; 4], u32, Fx, ColorSrc),
    Circle(FxVec, Fx, u32, ColorSrc),
    CircleOutline(FxVec, Fx, Fx, u32, ColorSrc),
    CircleSection(FxVec, Fx, u32, [Fx; 2], ColorSrc),
    CircleOutlineSection(FxVec, Fx, Fx, u32, [Fx; 2], ColorSrc),
    RoundedRect(Rect, Fx, u32, TexCoords, ColorSrc),
    RoundedRectOutline(Rect, Fx, Fx, u32, ColorSrc),
}

/// The builder state after one recorded call.
pub open spec fn apply_op(m: ModelView, op: PrimOp) -> ModelView {
    match op {
        PrimOp::RawTri(vs) => spec_raw_tri(m, vs),
        PrimOp::RawQuad(vs) => spec_raw_quad(m, vs),
        PrimOp::Tri(pts, tex, color) => spec_tri(m, pts, tex, color),
        PrimOp::Quad(pts, tex, color) => spec_quad(m, pts, tex, color),
        PrimOp::Rect(r, tex, color) => spec_rect(m, r, tex, color),
        PrimOp::RectOutline(r, w, color) => spec_rect_outline(m, r, w, color),
        PrimOp::Line(pts, w, tex, color) => spec_line(m, pts[0], pts[1], w, tex, color),
        PrimOp::Curve(pts, detail, w, color) => spec_curve(m, pts[0], pts[1], pts[2], detail, w, color),
        PrimOp::CubicCurve(pts, detail, w, color) => spec_cubic_curve(
            m,
            pts[0],
            pts[1],
            pts[2],
            pts[3],
            detail,
            w,
            color,
        ),
        PrimOp::Circle(c, r, detail, color) => spec_circle(m, c, r, detail, color),
        PrimOp::CircleOutline(c, r, w, detail, color) => spec_circle_outline(m, c, r, w, detail, color),
        PrimOp::CircleSection(c, r, detail, range, color) => spec_circle_section(
            m,
            c,
            r,
            detail,
            range[0],
            range[1],
            color,
        ),
        PrimOp::CircleOutlineSection(c, r, w, detail, range, color) => spec_circle_outline_section(
            m,
            c,
            r,
            w,
            detail,
            range[0],
            range[1],
            color,
        ),
        PrimOp::RoundedRect(rect, r, detail, tex, color) => spec_rounded_rect(m, rect, r, detail, tex, color),
        PrimOp::RoundedRectOutline(rect, w, r, detail, color) => spec_rounded_rect_outline(
            m,
            rect,
            w,
            r,
            detail,
            color,
        ),
    }
}

/// The builder state after a whole sequence of recorded calls.
pub open spec fn apply_ops(m: ModelView, ops: Seq<PrimOp>) -> ModelView
    decreases ops.len(),
{
    if ops.len() == 0 {
        m
    } else {
        apply_ops(apply_op(m, ops[0]), ops.skip(1))
    }
}

/// One recorded call preserves well-formedness.
pub proof fn lemma_wf_apply_op(m: ModelView, op: PrimOp)
    requires
        m.wf(),
    ensures
        apply_op(m, op).wf(),
{
    match op {
        PrimOp::RawTri(vs) => lemma_wf_raw_tri(m, vs),
        PrimOp::RawQuad(vs) => lemma_wf_raw_quad(m, vs),
        PrimOp::Tri(pts, tex, color) => lemma_wf_tri(m, pts, tex, color),
        PrimOp::Quad(pts, tex, color) => lemma_wf_quad(m, pts, tex, color),
        PrimOp::Rect(r, tex, color) => lemma_wf_quad(m, spec_rect_corners(r), tex, color),
        PrimOp::RectOutline(r, w, color) => lemma_wf_rect_outline(m, r, w, color),
        PrimOp::Line(pts, w, tex, color) => lemma_wf_line(m, pts[0], pts[1], w, tex, color),
        PrimOp::Curve(pts, detail, w, color) => lemma_wf_curve_from(
            m,
            pts[0],
            pts[1],
            pts[2],
            detail,
            w,
            color,
            1,
            pts[0],
        ),
        PrimOp::CubicCurve(pts, detail, w, color) => lemma_wf_cubic_from(
            m,
            pts[0],
            pts[1],
            pts[2],
            pts[3],
            detail,
            w,
            color,
            1,
            pts[0],
        ),
        PrimOp::Circle(c, r, detail, color) => lemma_wf_fan_from(
            m,
            c,
            r,
            detail,
            Fx(0),
            Fx(65536),
            color,
            1,
            spec_circle_point(c, r, Fx(0)),
        ),
        PrimOp::CircleOutline(c, r, w, detail, color) => lemma_wf_arc_from(
            m,
            c,
            r,
            w,
            detail,
            Fx(0),
            Fx(65536),
            color,
            1,
            spec_circle_point(c, r, Fx(0)),
        ),
        PrimOp::CircleSection(c, r, detail, range, color) => lemma_wf_fan_from(
            m,
            c,
            r,
            detail,
            range[0],
            range[1],
            color,
            1,
            spec_circle_point(c, r, range[0]),
        ),
        PrimOp::CircleOutlineSection(c, r, w, detail, range, color) => lemma_wf_arc_from(
            m,
            c,
            r,
            w,
            detail,
            range[0],
            range[1],
            color,
            1,
            spec_circle_point(c, r, range[0]),
        ),
        PrimOp::RoundedRect(rect, r, detail, tex, color) => lemma_wf_rounded_rect(
            m,
            rect,
            r,
            detail,
            tex,
            color,
        ),
        PrimOp::RoundedRectOutline(rect, w, r, detail, color) => lemma_wf_rounded_rect_outline(
            m,
            rect,
            w,
            r,
            detail,
            color,
        ),
    }
}

/// The bounds law: from a well-formed builder, any sequence of recorded calls
/// leaves a well-formed builder, so the bounds contain every emitted vertex
/// position and every index addresses a vertex.
pub proof fn lemma_ops_preserve_wf(m: ModelView, ops: Seq<PrimOp>)
    requires
        m.wf(),
    ensures
        apply_ops(m, ops).wf(),
        forall|j: int|
            0 <= j < apply_ops(m, ops).vertices.len() ==> rect_contains(
                apply_ops(m, ops).bounds,
                (#[trigger] apply_ops(m, ops).vertices[j]).pos,
            ),
    decreases ops.len(),
{
    if ops.len() > 0 {
        lemma_wf_apply_op(m, ops[0]);
        lemma_ops_preserve_wf(apply_op(m, ops[0]), ops.skip(1));
    }
}

/// The replay law: clearing and replaying the same recorded calls under the
/// same transform rebuilds identical vertices, indices and bounds, whatever
/// was in the builder before each clear.
pub proof fn lemma_clear_replay(m1: ModelView, m2: ModelView, ops: Seq<PrimOp>)
    requires
        m1.transform == m2.transform,
    ensures
        apply_ops(spec_clear(m1), ops) == apply_ops(spec_clear(m2), ops),
{
    assert(spec_clear(m1) == spec_clear(m2));
}

} // verus!
