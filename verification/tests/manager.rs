use fcv::renders::shape_manager::{DrawPass, ShapeManager};
use fcv::renders::shape_renderer::ShapeRenderer;
use fcv::renders::BufferUsageType;
use fcv::scalar::{Color4, Mat4, Point3};
use fcv::shapes::shape_base::{ColorType, IndicesType, InitType, ShapeBase};
use fcv::shapes::RenderType;

fn bits(x: f32) -> u32 {
    x.to_bits()
}

fn pt(x: f32, y: f32, z: f32) -> Point3 {
    Point3 { x: bits(x), y: bits(y), z: bits(z) }
}

fn grey() -> Color4 {
    Color4 { r: bits(0.5), g: bits(0.5), b: bits(0.5), a: bits(1.0) }
}

fn square(wire: bool) -> ShapeBase {
    ShapeBase::new_square(bits(2.0), grey(), wire)
}

#[test]
fn renderer_uploads_once_per_change() {
    let mut r = ShapeRenderer::new(square(false));
    let first = r.render();
    assert!(first.upload);
    assert!(first.draw);
    assert_eq!(first.index_count, 6);
    assert_eq!(first.instance_count, 1);
    // no intervening change: the second call reuses the buffers unchanged
    let second = r.render();
    assert!(!second.upload);
    assert!(second.draw);
    assert_eq!(second.index_count, first.index_count);
    assert_eq!(second.instance_count, first.instance_count);
    let third = r.render();
    assert!(!third.upload);
}

#[test]
fn renderer_instance_edits_mark_changed() {
    let mut r = ShapeRenderer::new(square(false));
    r.render();
    r.add_instance(Mat4::identity());
    let a = r.render();
    assert!(a.upload);
    assert_eq!(a.instance_count, 2);
    r.remove_instance(1);
    let a = r.render();
    assert!(a.upload);
    assert_eq!(a.instance_count, 1);
    let mats = [Mat4::identity(), Mat4::identity(), Mat4::identity()];
    r.set_instances(&mats);
    let a = r.render();
    assert!(a.upload);
    assert_eq!(a.instance_count, 3);
}

#[test]
fn renderer_geometry_edit_marks_dirty() {
    let mut r = ShapeRenderer::new(square(false));
    r.render();
    r.shape_mut().set_repaint(true);
    let a = r.render();
    assert!(a.upload);
    assert!(!r.render().upload);
}

#[test]
fn renderer_skips_empty_geometry() {
    let empty = ShapeBase::new_raw(
        InitType::Move(Vec::new()),
        ColorType::new_uniform(grey()),
        IndicesType::new_all(),
        RenderType::Points,
    );
    let mut r = ShapeRenderer::new(empty);
    let a = r.render();
    assert!(a.upload);
    assert!(!a.draw);
    assert_eq!(a.index_count, 0);
}

#[test]
fn renderer_skips_inconsistent_shape() {
    let bad = ShapeBase::new_raw(
        InitType::Move(vec![pt(0.0, 0.0, 0.0)]),
        ColorType::new_uniform(grey()),
        IndicesType::new(vec![0, 9]),
        RenderType::Line,
    );
    let mut r = ShapeRenderer::new(bad);
    let a = r.render();
    assert!(a.upload);
    assert!(!a.draw);
}

#[test]
fn renderer_explicit_instances() {
    let mats = [Mat4::identity(), Mat4::identity()];
    let mut r = ShapeRenderer::new_instances(square(false), &mats);
    let a = r.render();
    assert_eq!(a.instance_count, 2);
    assert!(matches!(r.get_render_type(), RenderType::Triangle));
}

#[test]
fn manager_handles_are_stable_and_unique() {
    let mut m = ShapeManager::new();
    let a = m.add_item(ShapeRenderer::new(square(false)), None);
    let b = m.add_item(ShapeRenderer::new(square(true)), None);
    assert_eq!(a, 1);
    assert_eq!(b, 2);
    assert!(m.entry(&a).is_some());
    assert!(m.entry(&b).is_some());
    assert!(m.entry(&3).is_none());
    assert_eq!(m.request_index(), 3);
}

#[test]
fn manager_first_writer_wins() {
    let mut m = ShapeManager::new();
    let got = m.add_item(ShapeRenderer::new(square(false)), Some(9));
    assert_eq!(got, 9);
    // re-registering the same handle is a no-op
    let again = m.add_item(ShapeRenderer::new(square(true)), Some(9));
    assert_eq!(again, 9);
    let kept = m.entry(&9).unwrap();
    assert!(matches!(kept.get_render_type(), RenderType::Triangle));
}

#[test]
fn manager_remove_is_idempotent() {
    let mut m = ShapeManager::new();
    let a = m.add_item(ShapeRenderer::new(square(false)), None);
    m.remove_item(a);
    assert!(m.entry(&a).is_none());
    m.remove_item(a);
    assert!(m.entry(&a).is_none());
}

#[test]
fn manager_entry_mut_edits_in_place() {
    let mut m = ShapeManager::new();
    let a = m.add_item(ShapeRenderer::new(square(false)), None);
    assert!(m.entry_mut(&7).is_none());
    {
        let r = m.entry_mut(&a).unwrap();
        r.add_instance(Mat4::identity());
    }
    let passes = m.render();
    let item = passes[3].items[0];
    assert_eq!(item.id, Some(a));
    assert_eq!(item.action.instance_count, 2);
}

#[test]
fn manager_pass_order_and_attachments() {
    let mut m = ShapeManager::new();
    let passes: Vec<DrawPass> = m.render();
    assert_eq!(passes.len(), 7);
    let order = [
        RenderType::Points,
        RenderType::Line,
        RenderType::LineStrip,
        RenderType::Triangle,
        RenderType::TriangleStrip,
        RenderType::TriangleTransparent,
        RenderType::TriangleStripTransparent,
    ];
    for (k, pass) in passes.iter().enumerate() {
        assert_eq!(pass.class, order[k]);
        assert_eq!(pass.clear_color, k == 0);
        assert_eq!(pass.use_depth, k < 5);
        assert!(pass.items.is_empty());
    }
}

#[test]
fn manager_routes_transparent_after_opaque() {
    let mut m = ShapeManager::new();
    // register the transparent shape FIRST: pass order must not care
    let mut see_through = square(false);
    see_through.set_transparent(true);
    let t = m.add_item(ShapeRenderer::new(see_through), None);
    let o = m.add_item(ShapeRenderer::new(square(false)), None);
    let passes = m.render();
    // the opaque triangle draws in the depth-tested triangle pass
    assert_eq!(passes[3].items.len(), 1);
    assert_eq!(passes[3].items[0].id, Some(o));
    assert!(passes[3].use_depth);
    // the transparent one draws later, without depth testing
    assert_eq!(passes[5].items.len(), 1);
    assert_eq!(passes[5].items[0].id, Some(t));
    assert!(!passes[5].use_depth);
    for k in [0usize, 1, 2, 4, 6] {
        assert!(passes[k].items.is_empty());
    }
}

#[test]
fn manager_transparent_strip_bucket() {
    let mut m = ShapeManager::new();
    let mut s = square(true); // LineStrip topology
    s.set_transparent(true);
    let h = m.add_item(ShapeRenderer::new(s), None);
    let passes = m.render();
    // a transparent non-Triangle shape lands in the strip-transparent pass
    assert_eq!(passes[6].items.len(), 1);
    assert_eq!(passes[6].items[0].id, Some(h));
}

#[test]
fn manager_renders_every_shape_once() {
    let mut m = ShapeManager::new();
    let a = m.add_item(ShapeRenderer::new(square(false)), None);
    let passes = m.render();
    assert!(passes[3].items[0].action.upload);
    // the shape was marked clean by the first frame
    let passes = m.render();
    assert_eq!(passes[3].items[0].id, Some(a));
    assert!(!passes[3].items[0].action.upload);
    assert!(passes[3].items[0].action.draw);
}

#[test]
fn scratch_draws_accumulate_and_clear() {
    let mut m = ShapeManager::new();
    m.draw_point(pt(0.0, 0.0, 0.0), grey());
    m.draw_point(pt(1.0, 0.0, 0.0), grey());
    m.draw_line(pt(0.0, 0.0, 0.0), pt(1.0, 1.0, 1.0), grey());
    let tri_p = [pt(0.0, 0.0, 0.0), pt(1.0, 0.0, 0.0), pt(0.0, 1.0, 0.0)];
    let tri_c = [grey(), grey(), grey()];
    m.draw_triangle(&tri_p, &tri_c);
    let passes = m.render();
    // scratch points: two vertices, sequential indices
    assert_eq!(passes[0].items.len(), 1);
    let p0 = passes[0].items[0];
    assert_eq!(p0.id, None);
    assert!(p0.action.upload);
    assert!(p0.action.draw);
    assert_eq!(p0.action.index_count, 2);
    assert_eq!(p0.action.instance_count, 1);
    // scratch line: one segment
    assert_eq!(passes[1].items[0].action.index_count, 2);
    // scratch triangle
    assert_eq!(passes[3].items[0].action.index_count, 3);
    // a new frame starts clean
    m.clear_single();
    let passes = m.render();
    for pass in passes.iter() {
        assert!(pass.items.is_empty());
    }
}

#[test]
fn scratch_draws_after_registered_shapes() {
    let mut m = ShapeManager::new();
    let h = m.add_item(ShapeRenderer::new(square(false)), None);
    m.draw_triangle(
        &[pt(0.0, 0.0, 0.0), pt(1.0, 0.0, 0.0), pt(0.0, 1.0, 0.0)],
        &[grey(), grey(), grey()],
    );
    let passes = m.render();
    assert_eq!(passes[3].items.len(), 2);
    assert_eq!(passes[3].items[0].id, Some(h));
    assert_eq!(passes[3].items[1].id, None);
}

#[test]
fn render_type_table() {
    assert_eq!(RenderType::len(), 7);
    let all = RenderType::iter();
    assert_eq!(all.len(), 7);
    for (k, t) in all.iter().enumerate() {
        assert_eq!(t.class_id(), k);
        assert_eq!(RenderType::from_id(k), *t);
    }
    assert_eq!(RenderType::from_id(42), RenderType::Points);
    assert_eq!(RenderType::Points.pipeline_label(), "Points Pipeline");
    assert_eq!(
        RenderType::TriangleStripTransparent.pipeline_label(),
        "Transparent TriangleStrip Pipeline"
    );
}

#[test]
fn buffer_usage_type_variants() {
    let kinds = [
        BufferUsageType::Points,
        BufferUsageType::Colors,
        BufferUsageType::PointsAndColors,
        BufferUsageType::Indices,
    ];
    assert_eq!(kinds.len(), 4);
    assert_eq!(kinds[0], BufferUsageType::Points);
    assert_ne!(kinds[1], BufferUsageType::Indices);
}

#[test]
fn manager_readds_after_remove_under_new_handle() {
    let mut m = ShapeManager::new();
    let a = m.add_item(ShapeRenderer::new(square(false)), None);
    m.remove_item(a);
    let b2 = m.add_item(ShapeRenderer::new(square(false)), None);
    // handles are never reused
    assert_ne!(a, b2);
    assert!(m.entry(&a).is_none());
    assert!(m.entry(&b2).is_some());
}

#[test]
fn manager_convenience_generators_register() {
    let mut m = ShapeManager::new();
    let s = m.add_square(bits(2.0), grey(), false);
    let c = m.add_circle(bits(1.0), 8, grey(), false);
    let sp = m.add_sphere(bits(1.0), 4, 5, grey(), false);
    let k = m.add_cube(bits(1.0), [grey(); 6], true);
    let co = m.add_cone(bits(1.0), 3, bits(1.0), grey(), false);
    let cy = m.add_cylinder(bits(1.0), 3, bits(1.0), grey(), true);
    let ar = m.add_arrow(bits(0.5), bits(2.0), bits(0.25), bits(0.5), 3, grey(), false);
    assert_eq!(vec![s, c, sp, k, co, cy, ar], vec![1, 2, 3, 4, 5, 6, 7]);
    assert_eq!(m.entry(&sp).unwrap().shape().points.len(), 4 * 3 + 2);
    assert!(matches!(m.entry(&cy).unwrap().get_render_type(), RenderType::Line));
}
