use piet_wgpu::context::{Brush, PathEl, RenderError, Shape, Vertex, WgpuRenderContext};
use piet_wgpu::geom::{Affine, Color, Rect};
use piet_wgpu::image::CachedImage;

fn red() -> Color {
    Color::rgba8(255, 0, 0, 255)
}

#[test]
fn save_restore_round_trip_keeps_transform_and_clip_depth() {
    let mut ctx = WgpuRenderContext::new();
    ctx.transform(Affine::translate(3, 4));
    ctx.clip(&Shape::Rect(Rect::new(0, 0, 50, 50)));
    let t0 = ctx.current_transform();
    let d0 = ctx.clip_depth();
    ctx.save().unwrap();
    ctx.transform(Affine::new(2, 0, 0, 2, 7, 9));
    ctx.clip(&Shape::Rect(Rect::new(1, 1, 5, 5)));
    ctx.save().unwrap();
    ctx.clip(&Shape::Rect(Rect::new(2, 2, 3, 3)));
    ctx.transform(Affine::translate(-1, 1));
    ctx.restore().unwrap();
    ctx.restore().unwrap();
    assert_eq!(ctx.current_transform(), t0);
    assert_eq!(ctx.clip_depth(), d0);
    assert_eq!(ctx.save_depth(), 0);
}

#[test]
fn restore_on_empty_stack_is_unbalanced() {
    let mut ctx = WgpuRenderContext::new();
    ctx.clip(&Shape::Rect(Rect::new(0, 0, 10, 10)));
    let prims = ctx.primitives().len();
    assert_eq!(ctx.restore(), Err(RenderError::StackUnbalanced));
    assert_eq!(ctx.clip_depth(), 1);
    assert_eq!(ctx.primitives().len(), prims);
}

#[test]
fn fill_rect_gives_two_triangles_over_four_corners() {
    let mut ctx = WgpuRenderContext::new();
    ctx.fill(&Shape::Rect(Rect::new(1, 2, 11, 22)), &Brush::Solid(red()));
    let v = ctx.vertices();
    assert_eq!(v.len(), 4);
    assert_eq!(ctx.indices().clone(), vec![0u32, 1, 2, 0, 2, 3]);
    let corners: Vec<(i64, i64)> = v.iter().map(|p| (p.x, p.y)).collect();
    assert_eq!(corners, vec![(1, 2), (1, 22), (11, 22), (11, 2)]);
    assert_eq!(ctx.primitives().len(), 1);
    assert!(v.iter().all(|p| p.primitive_id == 0 && p.color == red()));
}

#[test]
fn second_fill_offsets_indices_past_existing_vertices() {
    let mut ctx = WgpuRenderContext::new();
    ctx.fill(&Shape::Rect(Rect::new(0, 0, 1, 1)), &Brush::Solid(red()));
    ctx.fill(&Shape::Rect(Rect::new(5, 5, 6, 6)), &Brush::Solid(red()));
    assert_eq!(ctx.vertices().len(), 8);
    assert_eq!(ctx.indices()[6..].to_vec(), vec![4u32, 5, 6, 4, 6, 7]);
}

#[test]
fn fill_of_a_line_draws_nothing() {
    let mut ctx = WgpuRenderContext::new();
    ctx.fill(&Shape::Line(0, 0, 10, 10), &Brush::Solid(red()));
    assert_eq!(ctx.vertices().len(), 0);
    assert_eq!(ctx.primitives().len(), 0);
}

fn distance_to_rect_boundary(x: f64, y: f64, r: (f64, f64, f64, f64)) -> f64 {
    let (x0, y0, x1, y1) = r;
    let dx = if x < x0 { x0 - x } else if x > x1 { x - x1 } else { 0.0 };
    let dy = if y < y0 { y0 - y } else if y > y1 { y - y1 } else { 0.0 };
    if dx > 0.0 || dy > 0.0 {
        (dx * dx + dy * dy).sqrt()
    } else {
        (x - x0).min(x1 - x).min(y - y0).min(y1 - y)
    }
}

#[test]
fn stroke_rect_vertices_lie_near_the_boundary() {
    let mut ctx = WgpuRenderContext::new();
    ctx.stroke(&Shape::Rect(Rect::new(10, 10, 110, 60)), &Brush::Solid(red()), 8);
    let v = ctx.vertices();
    assert!(v.len() >= 4);
    assert_eq!(ctx.indices().len() % 3, 0);
    for p in v.iter() {
        let d = distance_to_rect_boundary(p.x as f64, p.y as f64, (10.0, 10.0, 110.0, 60.0));
        // half the width, plus one unit for the integer grid
        assert!(d <= 5.0, "vertex ({}, {}) is {} from the boundary", p.x, p.y, d);
    }
    assert!(ctx.indices().iter().all(|&i| (i as usize) < v.len()));
}

#[test]
fn stroke_line_and_path_produce_triangles() {
    let mut ctx = WgpuRenderContext::new();
    ctx.stroke(&Shape::Line(0, 0, 100, 0), &Brush::Solid(red()), 4);
    let after_line = ctx.vertices().len();
    assert!(after_line > 0);
    let path = vec![
        PathEl::MoveTo(0, 0),
        PathEl::LineTo(50, 0),
        PathEl::QuadTo(75, 25, 50, 50),
        PathEl::CurveTo(40, 60, 10, 60, 0, 50),
        PathEl::ClosePath,
    ];
    ctx.stroke(&Shape::Path(path), &Brush::Solid(red()), 2);
    assert!(ctx.vertices().len() > after_line);
    assert_eq!(ctx.indices().len() % 3, 0);
    let n = ctx.vertices().len();
    assert!(ctx.indices().iter().all(|&i| (i as usize) < n));
}

#[test]
fn malformed_path_strokes_nothing() {
    let mut ctx = WgpuRenderContext::new();
    ctx.stroke(&Shape::Path(vec![PathEl::LineTo(5, 5)]), &Brush::Solid(red()), 2);
    assert_eq!(ctx.vertices().len(), 0);
    assert_eq!(ctx.primitives().len(), 0);
}

#[test]
fn clip_twice_tags_the_last_rectangle_only() {
    let mut ctx = WgpuRenderContext::new();
    ctx.transform(Affine::translate(10, 20));
    ctx.clip(&Shape::Rect(Rect::new(0, 0, 100, 100)));
    ctx.clip(&Shape::Rect(Rect::new(5, 5, 15, 15)));
    ctx.fill(&Shape::Rect(Rect::new(0, 0, 4, 4)), &Brush::Solid(red()));
    let id = ctx.vertices()[0].primitive_id as usize;
    let p = ctx.primitives()[id];
    assert!(p.clip);
    assert_eq!(p.clip_rect, Rect::new(15, 25, 25, 35));
}

fn sample_image() -> CachedImage {
    let v = |x: i64, y: i64, id: u32| Vertex {
        x,
        y,
        translate_x: 0,
        translate_y: 0,
        color: Color::rgba8(0, 0, 255, 255),
        primitive_id: id,
    };
    CachedImage {
        view_box: Rect::new(0, 0, 10, 20),
        vertices: vec![v(0, 0, 0), v(10, 0, 1), v(10, 20, 2)],
        indices: vec![0, 1, 2],
        transforms: vec![Affine::translate(1, 2), Affine::new(2, 0, 0, 3, 4, 5)],
    }
}

#[test]
fn drawing_a_cached_image_twice_leaves_the_entry_unchanged() {
    let mut ctx = WgpuRenderContext::new();
    assert!(ctx.cache_image(7, sample_image()));
    let before = ctx.images().get(7).unwrap().clone();
    ctx.draw_svg(7, Rect::new(0, 0, 100, 100), None);
    ctx.draw_svg(7, Rect::new(30, 40, 50, 200), Some(red()));
    let after = ctx.images().get(7).unwrap();
    assert_eq!(after.vertices, before.vertices);
    assert_eq!(after.indices, before.indices);
    assert_eq!(after.transforms, before.transforms);
    assert_eq!(after.view_box, before.view_box);
}

#[test]
fn draw_svg_rebases_ids_and_scales_to_fit() {
    let mut ctx = WgpuRenderContext::new();
    ctx.fill(&Shape::Rect(Rect::new(0, 0, 1, 1)), &Brush::Solid(red()));
    assert!(ctx.cache_image(1, sample_image()));
    // 100 wide over 10 is 10, 100 high over 20 is 5: the scale is 100/20.
    ctx.draw_svg(1, Rect::new(3, 4, 103, 104), Some(red()));
    let prims = ctx.primitives();
    assert_eq!(prims.len(), 1 + 3);
    assert_eq!(prims[2].transform, Affine::new(200, 0, 0, 300, 400, 500));
    assert_eq!(prims[2].transform_den, 20);
    assert_eq!(prims[1].transform, Affine::new(100, 0, 0, 100, 100, 200));
    let v = &ctx.vertices()[4..];
    assert_eq!(v.len(), 3);
    assert_eq!(v[0].primitive_id, 1);
    assert_eq!(v[2].primitive_id, 3);
    assert!(v.iter().all(|p| p.translate_x == 3 && p.translate_y == 4 && p.color == red()));
    assert_eq!(ctx.indices()[6..].to_vec(), vec![4u32, 5, 6]);
}

#[test]
fn draw_svg_of_an_unknown_image_does_nothing() {
    let mut ctx = WgpuRenderContext::new();
    ctx.draw_svg(3, Rect::new(0, 0, 10, 10), None);
    assert_eq!(ctx.primitives().len(), 0);
    assert_eq!(ctx.vertices().len(), 0);
}

#[test]
fn an_image_is_cached_once() {
    let mut ctx = WgpuRenderContext::new();
    assert!(ctx.cache_image(1, sample_image()));
    let mut other = sample_image();
    other.indices = vec![2, 1, 0];
    assert!(!ctx.cache_image(1, other));
    assert_eq!(ctx.images().get(1).unwrap().indices, vec![0, 1, 2]);
    let mut bad = sample_image();
    bad.indices = vec![0, 1, 9];
    assert!(!ctx.cache_image(2, bad));
}

#[test]
fn current_transform_read_twice_is_identical() {
    let mut ctx = WgpuRenderContext::new();
    ctx.transform(Affine::new(1, 2, 3, 4, 5, 6));
    let a = ctx.current_transform();
    let b = ctx.current_transform();
    assert_eq!(a, b);
    assert_eq!(a, Affine::new(1, 2, 3, 4, 5, 6));
}

#[test]
fn transforms_compose_with_the_new_one_applied_first() {
    let mut ctx = WgpuRenderContext::new();
    ctx.transform(Affine::new(2, 0, 0, 2, 0, 0));
    ctx.transform(Affine::translate(5, 7));
    assert_eq!(ctx.current_transform(), Affine::new(2, 0, 0, 2, 10, 14));
}

#[test]
fn fill_after_translated_scope_uses_reverted_transform() {
    let mut ctx = WgpuRenderContext::new();
    ctx.save().unwrap();
    ctx.transform(Affine::translate(5, 5));
    ctx.restore().unwrap();
    ctx.fill(&Shape::Rect(Rect::new(0, 0, 10, 10)), &Brush::Solid(red()));
    let v = ctx.vertices();
    assert_eq!(v.len(), 4);
    let p = ctx.primitives()[v[0].primitive_id as usize];
    assert_eq!((p.translate_x, p.translate_y), (0, 0));
    assert!(v.iter().all(|q| q.color == red()));
}

#[test]
fn restore_pops_both_clips_of_one_scope() {
    let mut ctx = WgpuRenderContext::new();
    ctx.save().unwrap();
    ctx.clip(&Shape::Rect(Rect::new(0, 0, 10, 10)));
    ctx.clip(&Shape::Rect(Rect::new(2, 2, 8, 8)));
    assert_eq!(ctx.clip_depth(), 2);
    ctx.restore().unwrap();
    assert_eq!(ctx.clip_depth(), 0);
    assert_eq!(ctx.current_clip(), None);
    assert!(!ctx.primitives().last().unwrap().clip);
}

#[test]
fn blurred_rect_grows_by_three_radii_and_records_the_core() {
    let mut ctx = WgpuRenderContext::new();
    ctx.blurred_rect(Rect::new(20, 10, 0, 0), 2, &Brush::Solid(red()));
    let prims = ctx.primitives();
    assert_eq!(prims.len(), 2);
    assert_eq!(prims[0].blur_radius, 2);
    assert_eq!(prims[0].blur_rect, Rect::new(0, 0, 20, 10));
    assert_eq!(prims[1].blur_radius, 0);
    let corners: Vec<(i64, i64)> = ctx.vertices().iter().map(|p| (p.x, p.y)).collect();
    assert_eq!(corners, vec![(-6, -6), (-6, 16), (26, 16), (26, -6)]);
    assert!(ctx.vertices().iter().all(|p| p.primitive_id == 0));
}

#[test]
fn clip_with_a_path_changes_nothing() {
    let mut ctx = WgpuRenderContext::new();
    ctx.clip(&Shape::Path(vec![PathEl::MoveTo(0, 0), PathEl::LineTo(1, 1)]));
    assert_eq!(ctx.clip_depth(), 0);
    assert_eq!(ctx.primitives().len(), 0);
}

#[test]
fn unsupported_operations_report_or_draw_nothing() {
    let mut ctx = WgpuRenderContext::new();
    assert_eq!(ctx.gradient(), Err(RenderError::Unsupported));
    assert!(matches!(ctx.make_image(2, 2, &vec![0u8; 16]), Err(RenderError::Unsupported)));
    assert!(matches!(ctx.capture_image_area(Rect::new(0, 0, 1, 1)), Err(RenderError::Unsupported)));
    ctx.fill_even_odd(&Shape::Rect(Rect::new(0, 0, 5, 5)), &Brush::Solid(red()));
    ctx.stroke_styled(&Shape::Rect(Rect::new(0, 0, 5, 5)), &Brush::Solid(red()), 2);
    assert_eq!(ctx.vertices().len(), 0);
    assert_eq!(ctx.solid_brush(red()), Brush::Solid(red()));
}

#[test]
fn clip_under_a_scale_is_transformed_by_it() {
    let mut ctx = WgpuRenderContext::new();
    ctx.transform(Affine::new(2, 0, 0, 2, 0, 0));
    ctx.clip(&Shape::Rect(Rect::new(0, 0, 5, 5)));
    ctx.clip(&Shape::Rect(Rect::new(1, 1, 10, 10)));
    assert_eq!(ctx.current_clip(), Some(Rect::new(2, 2, 20, 20)));
    ctx.fill(&Shape::Rect(Rect::new(0, 0, 4, 4)), &Brush::Solid(red()));
    let id = ctx.vertices()[0].primitive_id as usize;
    assert_eq!(ctx.primitives()[id].clip_rect, Rect::new(2, 2, 20, 20));
}

#[test]
fn appending_a_mesh_moves_indices_past_the_batch() {
    let mut ctx = WgpuRenderContext::new();
    ctx.fill(&Shape::Rect(Rect::new(0, 0, 1, 1)), &Brush::Solid(red()));
    assert!(ctx.append_mesh(&vec![(0, 0), (1, 0), (0, 1)], &vec![0, 2, 1], red(), 0));
    assert_eq!(ctx.indices()[6..].to_vec(), vec![4u32, 6, 5]);
    assert_eq!(ctx.vertices()[5].x, 1);
}

#[test]
fn stroke_of_a_line_stays_near_the_segment() {
    let mut ctx = WgpuRenderContext::new();
    ctx.stroke(&Shape::Line(0, 0, 100, 0), &Brush::Solid(red()), 10);
    assert!(ctx.vertices().len() > 0);
    for p in ctx.vertices().iter() {
        let dx = if p.x < 0 { -p.x } else if p.x > 100 { p.x - 100 } else { 0 } as f64;
        let d = (dx * dx + (p.y as f64) * (p.y as f64)).sqrt();
        // half the width, plus half a unit diagonal for rounding to the grid
        assert!(d <= 5.0 + 0.75, "vertex ({}, {}) is {} from the segment", p.x, p.y, d);
    }
}
