use fcv::scalar::{Color4, Mat4, Point3};
use fcv::shapes::shape_base::{ColorType, IndicesType, InitType, ShapeBase};
use fcv::shapes::RenderType;

fn b(x: f32) -> u32 {
    x.to_bits()
}

fn p3(x: f32, y: f32, z: f32) -> Point3 {
    Point3 { x: b(x), y: b(y), z: b(z) }
}

fn color(r: f32, g: f32, bl: f32, a: f32) -> Color4 {
    Color4 { r: b(r), g: b(g), b: b(bl), a: b(a) }
}

fn white() -> Color4 {
    color(1.0, 1.0, 1.0, 1.0)
}

fn red() -> Color4 {
    color(1.0, 0.0, 0.0, 1.0)
}

fn assert_consistent(s: &ShapeBase) {
    assert_eq!(s.colors.len(), s.points.len());
    for &i in s.indices.iter() {
        assert!((i as usize) < s.points.len());
    }
    assert!(s.check());
}

#[test]
fn square_wire_scenario() {
    let s = ShapeBase::new_square(b(2.0), red(), true);
    assert_eq!(s.points.len(), 4);
    assert_eq!(s.points[0], p3(-1.0, -1.0, 0.0));
    assert_eq!(s.points[1], p3(1.0, -1.0, 0.0));
    assert_eq!(s.points[2], p3(1.0, 1.0, 0.0));
    assert_eq!(s.points[3], p3(-1.0, 1.0, 0.0));
    assert_eq!(s.indices, vec![0, 1, 2, 3, 0]);
    assert!(matches!(s.render_type, RenderType::LineStrip));
    assert!(!s.transparent);
    assert!(s.modified);
    assert_consistent(&s);
}

#[test]
fn square_filled_two_triangles() {
    let s = ShapeBase::new_square(b(2.0), red(), false);
    assert_eq!(s.points.len(), 4);
    assert_eq!(s.indices, vec![0, 1, 2, 2, 3, 0]);
    assert_eq!(s.indices.len(), 6);
    // the two triangles cover all four corners
    for corner in 0u32..4 {
        assert!(s.indices.contains(&corner));
    }
    assert!(matches!(s.render_type, RenderType::Triangle));
    assert_eq!(s.colors, vec![red(); 4]);
    assert_consistent(&s);
}

#[test]
fn cube_filled() {
    let faces = [
        color(1.0, 0.0, 0.0, 1.0),
        color(0.0, 1.0, 0.0, 1.0),
        color(0.0, 0.0, 1.0, 1.0),
        color(1.0, 1.0, 0.0, 1.0),
        color(0.0, 1.0, 1.0, 1.0),
        color(1.0, 0.0, 1.0, 1.0),
    ];
    let s = ShapeBase::new_cube(b(3.0), faces, false);
    assert_eq!(s.points.len(), 24);
    assert!(matches!(s.render_type, RenderType::Triangle));
    assert_eq!(s.indices.len(), 36);
    // per-face pattern replicated with +4*face
    for f in 0..6u32 {
        let base: Vec<u32> = vec![0, 1, 2, 2, 3, 0].iter().map(|i| i + 4 * f).collect();
        assert_eq!(&s.indices[(f as usize) * 6..(f as usize) * 6 + 6], &base[..]);
    }
    // +X face corners all at x == 1.5
    for i in 0..4 {
        assert_eq!(s.points[i].x, b(1.5));
    }
    // each face carries its own flat color
    for i in 0..24 {
        assert_eq!(s.colors[i], faces[i / 4]);
    }
    assert_consistent(&s);
}

#[test]
fn cube_wire() {
    let faces = [white(); 6];
    let s = ShapeBase::new_cube(b(1.0), faces, true);
    assert_eq!(s.points.len(), 24);
    assert!(matches!(s.render_type, RenderType::Line));
    assert_eq!(s.indices.len(), 48);
    for f in 0..6u32 {
        let base: Vec<u32> = vec![0, 1, 1, 2, 2, 3, 3, 0].iter().map(|i| i + 4 * f).collect();
        assert_eq!(&s.indices[(f as usize) * 8..(f as usize) * 8 + 8], &base[..]);
    }
    assert_consistent(&s);
}

#[test]
fn circle_filled_scenario() {
    let s = ShapeBase::new_circle(b(1.0), 8, white(), false);
    assert_eq!(s.points.len(), 9);
    assert_eq!(s.indices.len(), 24);
    assert!(matches!(s.render_type, RenderType::Triangle));
    assert_eq!(s.points[0], p3(0.0, 0.0, 0.0));
    // rim points follow the generator's own angle steps
    let d = 2.0f32 * std::f32::consts::PI / 8u32 as f32;
    for i in 0..8u32 {
        let rad = d * (i as f32);
        let expect = p3(rad.cos() * 1.0, rad.sin() * 1.0, 0.0);
        assert_eq!(s.points[(i + 1) as usize], expect);
    }
    // fan triangles with a wrap at the last segment
    for i in 0..8u32 {
        let next = if i == 7 { 1 } else { i + 2 };
        assert_eq!(
            &s.indices[(i as usize) * 3..(i as usize) * 3 + 3],
            &[0, i + 1, next][..]
        );
    }
    assert_consistent(&s);
}

#[test]
fn circle_wire_rim_loop() {
    let s = ShapeBase::new_circle(b(2.0), 4, white(), true);
    assert_eq!(s.points.len(), 5);
    assert!(matches!(s.render_type, RenderType::LineStrip));
    assert_eq!(s.indices, vec![1, 2, 2, 3, 3, 4, 4, 1]);
    // the center point is unused by the index list
    assert!(!s.indices.contains(&0));
    // radius scaling reaches the rim: first rim point at (2, 0, 0)
    assert_eq!(s.points[1], p3(2.0, 0.0, 0.0));
    assert_consistent(&s);
}

#[test]
fn circle_clamps_small_subdivision() {
    let s = ShapeBase::new_circle(b(1.0), 0, white(), false);
    assert_eq!(s.points.len(), 4); // center + 3 rim points
    assert_eq!(s.indices.len(), 9);
    assert_consistent(&s);
}

#[test]
fn sphere_point_count_and_poles() {
    // v_sub == 4 is rounded up to the odd 5: 4 * (5 - 2) + 2 points
    let s = ShapeBase::new_sphere(b(1.0), 4, 4, white(), false);
    assert_eq!(s.points.len(), 14);
    assert_eq!(s.indices.len(), 6 * 4 * 3);
    assert!(matches!(s.render_type, RenderType::Triangle));
    assert_eq!(s.points[0], p3(0.0, 0.0, 1.0));
    assert_eq!(s.points[13], p3(0.0, 0.0, -1.0));
    // each pole appears in exactly u_sub triangles
    let count = |x: u32| {
        s.indices
            .chunks(3)
            .filter(|t| t.contains(&x))
            .count()
    };
    assert_eq!(count(0), 4);
    assert_eq!(count(13), 4);
    assert_consistent(&s);
}

#[test]
fn sphere_wire_counts() {
    let s = ShapeBase::new_sphere(b(1.0), 5, 5, white(), true);
    assert_eq!(s.points.len(), 5 * 3 + 2);
    assert_eq!(s.indices.len(), 2 * 5 + 4 * 5 * 3);
    assert!(matches!(s.render_type, RenderType::Line));
    // north spokes first
    assert_eq!(&s.indices[0..4], &[0, 1, 0, 2][..]);
    assert_consistent(&s);
}

#[test]
fn sphere_clamps_and_rounds() {
    // u_sub, v_sub below 3 are clamped to the minimal mesh (u = v = 3)
    let s = ShapeBase::new_sphere(b(1.0), 1, 2, white(), false);
    assert_eq!(s.points.len(), 3 * (3 - 2) + 2);
    assert_consistent(&s);
}

#[test]
fn cone_filled() {
    let s = ShapeBase::new_cone(b(1.0), 3, b(2.0), white(), false);
    assert_eq!(s.points.len(), 5);
    assert_eq!(s.points[0], p3(0.0, 0.0, 0.0));
    assert_eq!(s.points[1], p3(0.0, 0.0, 2.0));
    assert!(matches!(s.render_type, RenderType::Triangle));
    // per segment: side (apex, rim i, rim i+1), base cap (center, rim i+1, rim i)
    assert_eq!(
        s.indices,
        vec![1, 2, 3, 0, 3, 2, 1, 3, 4, 0, 4, 3, 1, 4, 2, 0, 2, 4]
    );
    assert_consistent(&s);
}

#[test]
fn cone_wire() {
    let s = ShapeBase::new_cone(b(1.0), 4, b(1.0), white(), true);
    assert_eq!(s.points.len(), 6);
    assert!(matches!(s.render_type, RenderType::Line));
    // per segment: apex spoke and rim edge
    assert_eq!(
        s.indices,
        vec![1, 2, 2, 3, 1, 3, 3, 4, 1, 4, 4, 5, 1, 5, 5, 2]
    );
    assert_consistent(&s);
}

#[test]
fn cylinder_filled() {
    let s = ShapeBase::new_cylinder(b(1.0), 4, b(2.0), white(), false);
    assert_eq!(s.points.len(), 10);
    assert_eq!(s.points[0], p3(0.0, 0.0, 1.0));
    assert_eq!(s.points[1], p3(0.0, 0.0, -1.0));
    assert!(matches!(s.render_type, RenderType::Triangle));
    assert_eq!(s.indices.len(), 12 * 4);
    // top and bottom rim share x/y and mirror z
    for i in 0..4 {
        assert_eq!(s.points[2 + i].x, s.points[6 + i].x);
        assert_eq!(s.points[2 + i].y, s.points[6 + i].y);
        assert_eq!(s.points[2 + i].z, b(1.0));
        assert_eq!(s.points[6 + i].z, b(-1.0));
    }
    // first segment: top cap, two side triangles, bottom cap
    assert_eq!(&s.indices[0..12], &[2, 3, 0, 2, 6, 7, 7, 3, 2, 6, 1, 7][..]);
    assert_consistent(&s);
}

#[test]
fn cylinder_wire() {
    let s = ShapeBase::new_cylinder(b(1.0), 3, b(2.0), white(), true);
    assert_eq!(s.points.len(), 8);
    assert!(matches!(s.render_type, RenderType::Line));
    // per segment: vertical edge, top rim edge, bottom rim edge
    assert_eq!(
        s.indices,
        vec![2, 5, 2, 3, 5, 6, 3, 6, 3, 4, 6, 7, 4, 7, 4, 2, 7, 5]
    );
    assert_consistent(&s);
}

#[test]
fn arrow_wire() {
    // head: cone of height 2.0 * (1 - 0.5) over 3 rim points; tail: one segment
    let s = ShapeBase::new_arrow(b(0.5), b(2.0), b(0.25), b(0.5), 3, white(), true);
    assert_eq!(s.points.len(), 5 + 2);
    assert!(matches!(s.render_type, RenderType::Line));
    let ch = 2.0f32 * 0.5;
    let half = ch / 2.0;
    // head points lifted by the shaft height
    assert_eq!(s.points[0], p3(0.0, 0.0, 0.0 + ch));
    assert_eq!(s.points[1], p3(0.0, 0.0, 2.0 * (1.0 - 0.5) + ch));
    // the wire shaft: one axial segment recentered by half the height
    assert_eq!(s.points[5], p3(0.0, 0.0, 0.0 + half));
    assert_eq!(s.points[6], p3(0.0, 0.0, ch + half));
    // the head's cone indices, then the segment shifted by the head's point count
    let head = ShapeBase::new_cone(b(0.5), 3, b(2.0f32 * (1.0 - 0.5)), white(), true);
    let mut expect = head.indices.clone();
    expect.push(5);
    expect.push(6);
    assert_eq!(s.indices, expect);
    assert_consistent(&s);
}

#[test]
fn arrow_filled() {
    let s = ShapeBase::new_arrow(b(0.5), b(2.0), b(0.25), b(0.5), 4, white(), false);
    // head: 4 + 2 points; tail cylinder: 2 * 4 + 2 points
    assert_eq!(s.points.len(), 6 + 10);
    assert!(matches!(s.render_type, RenderType::Triangle));
    let head = ShapeBase::new_cone(b(0.5), 4, b(2.0f32 * (1.0 - 0.5)), white(), false);
    let tail = ShapeBase::new_cylinder(b(0.5f32 * 0.25), 4, b(2.0f32 * 0.5), white(), false);
    let mut expect = head.indices.clone();
    for i in tail.indices.iter() {
        expect.push(i + 6);
    }
    assert_eq!(s.indices, expect);
    // shaft rim points are the cylinder's, recentered by half its height
    let half = (2.0f32 * 0.5) / 2.0;
    for (k, p) in tail.points.iter().enumerate() {
        let shifted = Point3 {
            x: p.x,
            y: p.y,
            z: (f32::from_bits(p.z) + half).to_bits(),
        };
        assert_eq!(s.points[6 + k], shifted);
    }
    assert_consistent(&s);
}

#[test]
fn raw_identity_indices_and_uniform_colors() {
    let pts = vec![p3(0.0, 0.0, 0.0), p3(1.0, 0.0, 0.0), p3(0.0, 1.0, 0.0)];
    let s = ShapeBase::new_raw(
        InitType::Move(pts.clone()),
        ColorType::new_uniform(white()),
        IndicesType::new_all(),
        RenderType::Points,
    );
    assert_eq!(s.points, pts);
    assert_eq!(s.colors, vec![white(); 3]);
    assert_eq!(s.indices, vec![0, 1, 2]);
    assert!(matches!(s.render_type, RenderType::Points));
    assert!(s.modified);
    assert_consistent(&s);
}

#[test]
fn raw_borrowed_points_and_explicit_indices() {
    let pts = [p3(0.0, 0.0, 0.0), p3(1.0, 1.0, 1.0)];
    let cols = [white(), red()];
    let ids = [0u32, 1, 1, 0];
    let s = ShapeBase::new_raw(
        InitType::Ref(&pts),
        ColorType::new_each_ref(&cols),
        IndicesType::new_ref(&ids),
        RenderType::Line,
    );
    assert_eq!(s.points, pts.to_vec());
    assert_eq!(s.colors, vec![white(), red()]);
    assert_eq!(s.indices, ids.to_vec());
    assert_consistent(&s);
}

#[test]
fn raw_inconsistent_shape_fails_check() {
    let pts = vec![p3(0.0, 0.0, 0.0)];
    let s = ShapeBase::new_raw(
        InitType::Move(pts),
        ColorType::new_uniform(white()),
        IndicesType::new(vec![0, 7]),
        RenderType::Line,
    );
    assert!(!s.check());
}

#[test]
fn combination_appends_transformed_children() {
    let mut base = ShapeBase::new_square(b(2.0), red(), false);
    let child = ShapeBase::new_square(b(2.0), white(), false);
    let glam_m = glam::Mat4::from_translation(glam::Vec3::new(1.0, 2.0, 3.0));
    let mut e = [0u32; 16];
    for (k, v) in glam_m.to_cols_array().iter().enumerate() {
        e[k] = v.to_bits();
    }
    let m = Mat4 { e };
    let child_points = child.points.clone();
    let child_indices = child.indices.clone();
    base.combination(vec![(child, m)]);
    assert_eq!(base.points.len(), 4 + 4);
    assert_eq!(base.colors.len(), 8);
    assert_eq!(base.indices.len(), 6 + 6);
    // the base's own data is unchanged in front
    assert_eq!(&base.indices[0..6], &[0, 1, 2, 2, 3, 0][..]);
    // the child's indices are shifted by exactly the base's point count
    for (k, &i) in child_indices.iter().enumerate() {
        assert_eq!(base.indices[6 + k], i + 4);
    }
    // the child's points went through the supplied transform before the merge
    for (k, p) in child_points.iter().enumerate() {
        let v = glam::Vec3::new(
            f32::from_bits(p.x),
            f32::from_bits(p.y),
            f32::from_bits(p.z),
        );
        let t = glam_m.transform_point3(v);
        assert_eq!(base.points[4 + k], p3(t.x, t.y, t.z));
        // the translation really moved the point
        assert_ne!(base.points[4 + k], *p);
    }
    assert!(base.modified);
    assert_consistent(&base);
}

#[test]
fn identity_matrix_bits() {
    let m = Mat4::identity();
    for c in 0..4 {
        for r in 0..4 {
            let expect = if c == r { 1.0f32 } else { 0.0 };
            assert_eq!(m.e[c * 4 + r], expect.to_bits());
        }
    }
}

#[test]
fn shape_flags() {
    let mut s = ShapeBase::new_square(b(1.0), white(), false);
    assert!(s.should_repaint());
    s.set_repaint(false);
    assert!(!s.should_repaint());
    assert!(!s.transparent);
    s.set_transparent(true);
    assert!(s.transparent);
    assert!(matches!(s.get_render_type(), RenderType::Triangle));
}

#[test]
fn init_type_len() {
    let pts = [p3(0.0, 0.0, 0.0), p3(1.0, 0.0, 0.0)];
    assert_eq!(InitType::Ref(&pts).len(), 2);
    assert_eq!(InitType::Move(pts.to_vec()).len(), 2);
}

#[test]
fn cone_clamps_small_subdivision() {
    let s = ShapeBase::new_cone(b(1.0), 0, b(1.0), white(), false);
    assert_eq!(s.points.len(), 5); // 2 centers + 3 rim points
    assert_eq!(s.indices.len(), 18);
    assert_consistent(&s);
}

#[test]
fn cylinder_clamps_small_subdivision() {
    let s = ShapeBase::new_cylinder(b(1.0), 2, b(1.0), white(), true);
    assert_eq!(s.points.len(), 8); // 2 centers + 2 * 3 rim points
    assert_eq!(s.indices.len(), 18);
    assert_consistent(&s);
}

#[test]
fn combination_merges_children_in_order() {
    let mut base = ShapeBase::new_square(b(2.0), red(), false);
    let c1 = ShapeBase::new_square(b(2.0), white(), false);
    let c2 = ShapeBase::new_square(b(4.0), white(), true);
    let m = Mat4::identity();
    base.combination(vec![(c1, m), (c2, m)]);
    assert_eq!(base.points.len(), 12);
    assert_eq!(base.colors.len(), 12);
    assert_eq!(base.indices.len(), 6 + 6 + 5);
    // the first child's indices shift by 4, the second child's by 8
    assert_eq!(&base.indices[6..12], &[4, 5, 6, 6, 7, 4][..]);
    assert_eq!(&base.indices[12..17], &[8, 9, 10, 11, 8][..]);
    // an identity transform keeps the children's points
    assert_eq!(base.points[4], p3(-1.0, -1.0, 0.0));
    assert_eq!(base.points[8], p3(-2.0, -2.0, 0.0));
    assert_consistent(&base);
}
