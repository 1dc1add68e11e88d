use logisim_shell::fx::{Fx, FX_ONE};
use logisim_shell::geom::{cos_turn, sin_turn, vec_len, FxVec, Rect, Transform};
use logisim_shell::model::{Color, ColorSrc, Model, NodeAddr, TexCoords, Vertex};

fn v(x: i32, y: i32) -> FxVec {
    FxVec::from_ints(x, y)
}

fn white() -> ColorSrc {
    ColorSrc::Solid(Color(0xFFFF_FFFF))
}

#[test]
fn raw_quad_unit_square() {
    // An axis-aligned unit quad under the identity transform: four vertices,
    // the two triangles 0 1 2 and 0 2 3, and bounds from the origin to (1, 1).
    let mut m = Model::default();
    let tex = TexCoords::white();
    m.raw_quad([
        Vertex::new(v(0, 0), tex.uv_coords[0], white()),
        Vertex::new(v(1, 0), tex.uv_coords[1], white()),
        Vertex::new(v(1, 1), tex.uv_coords[2], white()),
        Vertex::new(v(0, 1), tex.uv_coords[3], white()),
    ]);
    assert_eq!(m.vertices.len(), 4);
    assert_eq!(m.indices, vec![0, 1, 2, 0, 2, 3]);
    assert_eq!(m.bounds.min, v(0, 0));
    assert_eq!(m.bounds.max, v(1, 1));
    assert_eq!(m.vertices[0].pos, v(0, 0));
    assert_eq!(m.vertices[1].pos, v(1, 0));
    assert_eq!(m.vertices[2].pos, v(1, 1));
    assert_eq!(m.vertices[3].pos, v(0, 1));
}

#[test]
fn line_width_offsets_perpendicular() {
    // A horizontal line of width 2 yields a quad one unit above and below the
    // segment: vertices at y = -1 and y = 1, x in {0, 10}.
    let mut m = Model::default();
    m.line([v(0, 0), v(10, 0)], Fx::from_int(2), &TexCoords::white(), white());
    assert_eq!(m.vertices.len(), 4);
    assert_eq!(m.vertices[0].pos, v(10, -1));
    assert_eq!(m.vertices[1].pos, v(10, 1));
    assert_eq!(m.vertices[2].pos, v(0, 1));
    assert_eq!(m.vertices[3].pos, v(0, -1));
    assert_eq!(m.bounds.min, v(0, -1));
    assert_eq!(m.bounds.max, v(10, 1));
}

#[test]
fn clear_and_replay_rebuilds_identical_mesh() {
    // The replay law on concrete calls: clearing and replaying the same
    // primitives under the same transform rebuilds the identical mesh.
    let mut m = Model::default();
    let tex = TexCoords::white();
    m.rect(
        Rect::from_min_max(v(0, 0), v(4, 3)),
        &tex,
        ColorSrc::Node(NodeAddr(7)),
    );
    m.line([v(0, 0), v(10, 0)], Fx::from_int(2), &tex, white());
    m.circle(v(5, 5), Fx::from_int(3), 8, white());
    let vertices = m.vertices.clone();
    let indices = m.indices.clone();
    let bounds = m.bounds;

    m.clear();
    assert_eq!(m.vertices.len(), 0);
    assert_eq!(m.indices.len(), 0);

    m.rect(
        Rect::from_min_max(v(0, 0), v(4, 3)),
        &tex,
        ColorSrc::Node(NodeAddr(7)),
    );
    m.line([v(0, 0), v(10, 0)], Fx::from_int(2), &tex, white());
    m.circle(v(5, 5), Fx::from_int(3), 8, white());
    assert_eq!(m.vertices, vertices);
    assert_eq!(m.indices, indices);
    assert_eq!(m.bounds, bounds);
}

#[test]
fn bounds_contain_every_vertex() {
    // The bounds law on concrete calls: after a mixed batch of primitives,
    // every emitted vertex position lies inside the bounds, and every index
    // addresses a vertex.
    let mut m = Model::default();
    let tex = TexCoords::white();
    m.curve([v(0, 0), v(5, 10), v(10, 0)], 6, Fx::from_int(1), white());
    m.rounded_rect(
        Rect::from_min_max(v(-20, -20), v(-2, -2)),
        Fx::from_int(2),
        3,
        &tex,
        white(),
    );
    m.circle_outline(v(30, 30), Fx::from_int(4), Fx::from_int(1), 12, white());
    assert!(!m.vertices.is_empty());
    for vert in &m.vertices {
        assert!(m.bounds.min.x.0 <= vert.pos.x.0 && vert.pos.x.0 <= m.bounds.max.x.0);
        assert!(m.bounds.min.y.0 <= vert.pos.y.0 && vert.pos.y.0 <= m.bounds.max.y.0);
    }
    for ix in &m.indices {
        assert!((*ix as usize) < m.vertices.len());
    }
}

#[test]
fn transform_scales_and_translates() {
    // A transform of scale 2 and offset (100, 0) maps (3, 4) to (106, 8).
    let mut m = Model::default();
    m.transform = Transform {
        xx: Fx::from_int(2),
        xy: Fx(0),
        yx: Fx(0),
        yy: Fx::from_int(2),
        tx: Fx::from_int(100),
        ty: Fx(0),
    };
    m.tri([v(3, 4), v(0, 0), v(1, 0)], &TexCoords::white(), white());
    assert_eq!(m.vertices[0].pos, v(106, 8));
    assert_eq!(m.vertices[1].pos, v(100, 0));
    assert_eq!(m.vertices[2].pos, v(102, 0));
}

#[test]
fn vertex_packs_color_source() {
    let lit = Vertex::new(v(0, 0), v(0, 0), ColorSrc::Solid(Color(0xAABBCCDD)));
    assert_eq!(lit.color_or_node, 0xAABBCCDD);
    assert_eq!(lit.is_node_addr, 0);
    let node = Vertex::new(v(0, 0), v(0, 0), ColorSrc::Node(NodeAddr(42)));
    assert_eq!(node.color_or_node, 42);
    assert_eq!(node.is_node_addr, 1);
}

#[test]
fn circle_cardinal_points_are_exact() {
    // With four samples, the circle's fan touches the four cardinal points of
    // the circle exactly: the turn sine and cosine are exact at quarters.
    let mut m = Model::default();
    m.circle(v(0, 0), Fx::from_int(10), 4, white());
    // Each fan step is [prev, sample, center]; samples sit at quarter turns.
    // Sample at a quarter turn: (sin, cos) = (1, 0) -> (10, 0).
    assert_eq!(m.vertices[1].pos, v(10, 0));
    // Half turn: (0, -1) -> (0, -10).
    assert_eq!(m.vertices[4].pos, v(0, -10));
    // Three quarters: (-1, 0) -> (-10, 0).
    assert_eq!(m.vertices[7].pos, v(-10, 0));
    // Full turn: (0, 1) -> (0, 10), equal to the starting sample.
    assert_eq!(m.vertices[10].pos, v(0, 10));
    assert_eq!(m.vertices[0].pos, v(0, 10));
    // 4 triangles of 3 vertices each.
    assert_eq!(m.vertices.len(), 12);
    assert_eq!(m.indices.len(), 12);
}

#[test]
fn trig_quarter_values() {
    assert_eq!(sin_turn(Fx(0)).0, 0);
    assert_eq!(sin_turn(Fx(16384)).0, FX_ONE);
    assert_eq!(sin_turn(Fx(32768)).0, 0);
    assert_eq!(sin_turn(Fx(49152)).0, -FX_ONE);
    assert_eq!(sin_turn(Fx(65536)).0, 0);
    assert_eq!(cos_turn(Fx(0)).0, FX_ONE);
    assert_eq!(cos_turn(Fx(16384)).0, 0);
    assert_eq!(cos_turn(Fx(32768)).0, -FX_ONE);
    // The sine never leaves the unit range.
    let mut t: i64 = -70000;
    while t < 70000 {
        let s = sin_turn(Fx(t)).0;
        assert!(-FX_ONE <= s && s <= FX_ONE);
        t += 1234;
    }
}

#[test]
fn fixed_point_arithmetic_is_exact() {
    assert_eq!(Fx::from_int(3).mul(Fx::from_int(2)).0, 6 * FX_ONE);
    assert_eq!(Fx::from_int(-3).mul(Fx::from_int(2)).0, -6 * FX_ONE);
    assert_eq!(Fx::from_int(7).trunc(), 7);
    assert_eq!(Fx(-3 * FX_ONE / 2).trunc(), -1);
    assert_eq!(Fx::from_int(10).mul_frac(1, 4).0, (10 * FX_ONE) / 4);
    assert_eq!(Fx(i64::MAX).add(Fx(1)).0, i64::MAX);
    assert_eq!(Fx(i64::MIN).sub(Fx(1)).0, i64::MIN);
    // A 3-4-5 triangle: the vector length is exact.
    assert_eq!(vec_len(v(3, 4)), 5 * FX_ONE as u64);
}

#[test]
fn cubic_curve_strokes_detail_segments() {
    let mut m = Model::default();
    m.cubic_curve(
        [v(0, 0), v(0, 10), v(10, 10), v(10, 0)],
        5,
        Fx::from_int(1),
        white(),
    );
    // One line quad per parameter step; each quad is the segment offset by
    // half the width to either side.
    assert_eq!(m.vertices.len(), 5 * 4);
    assert_eq!(m.indices.len(), 5 * 6);
}

#[test]
fn circle_section_quarter_is_exact() {
    // A quarter-turn section from the top of the circle to its right, with one
    // sample: a single triangle touching both cardinal points.
    let mut m = Model::default();
    m.circle_section(v(0, 0), Fx::from_int(8), 1, [Fx(0), Fx(16384)], white());
    assert_eq!(m.vertices.len(), 3);
    assert_eq!(m.vertices[0].pos, v(0, 8));
    assert_eq!(m.vertices[1].pos, v(8, 0));
    assert_eq!(m.vertices[2].pos, v(0, 0));
}

#[test]
fn rect_outline_strokes_four_edges() {
    let mut m = Model::default();
    m.rect_outline(Rect::from_min_max(v(0, 0), v(10, 10)), Fx::from_int(2), white());
    // Four line quads.
    assert_eq!(m.vertices.len(), 16);
    assert_eq!(m.indices.len(), 24);
}

#[test]
fn rounded_rect_mesh_counts() {
    let mut m = Model::default();
    m.rounded_rect(
        Rect::from_min_max(v(0, 0), v(20, 10)),
        Fx::from_int(2),
        1,
        &TexCoords::white(),
        white(),
    );
    // Five rectangles (4 vertices each) and four one-triangle corner fans.
    assert_eq!(m.vertices.len(), 5 * 4 + 4 * 3);
    assert_eq!(m.indices.len(), 5 * 6 + 4 * 3);
}
