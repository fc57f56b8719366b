use piet_wgpu::context::{Brush, RenderError, Shape, WgpuRenderContext};
use piet_wgpu::frame::{FrameStep, RenderPassCtx, Viewport};
use piet_wgpu::geom::{Color, Rect};

#[test]
fn finish_with_geometry_draws_then_custom_passes_then_presents() {
    let mut ctx = WgpuRenderContext::new();
    ctx.fill(&Shape::Rect(Rect::new(0, 0, 2, 2)), &Brush::Solid(Color::rgba8(1, 2, 3, 4)));
    assert!(ctx.view_needed());
    ctx.view_result(true).unwrap();
    assert!(!ctx.view_needed());
    ctx.custom_pass_queued();
    ctx.custom_pass_queued();
    let plan = ctx.finish_plan();
    assert_eq!(
        plan,
        vec![
            FrameStep::UploadGeometry,
            FrameStep::DrawMain,
            FrameStep::FinishStaging,
            FrameStep::SubmitMain,
            FrameStep::SubmitCustom(2),
            FrameStep::Present,
            FrameStep::RecallStaging,
        ]
    );
    ctx.end_frame();
    assert!(ctx.view_needed());
}

#[test]
fn finish_without_geometry_still_presents_once() {
    let mut ctx = WgpuRenderContext::new();
    ctx.view_result(true).unwrap();
    let plan = ctx.finish_plan();
    assert_eq!(
        plan,
        vec![FrameStep::SubmitCustom(0), FrameStep::Present, FrameStep::RecallStaging]
    );
    assert_eq!(plan.iter().filter(|s| **s == FrameStep::Present).count(), 1);
}

#[test]
fn failed_acquisition_reports_surface_unavailable() {
    let mut ctx = WgpuRenderContext::new();
    assert_eq!(ctx.view_result(false), Err(RenderError::SurfaceUnavailable));
    assert!(ctx.view_needed());
}

#[test]
fn render_pass_needs_a_viewport() {
    let mut pass = RenderPassCtx::new();
    assert_eq!(pass.render_pass_viewport(), Err(RenderError::MissingViewport));
    pass.configure_viewport((10, 20), (300, 200), 2);
    assert_eq!(
        pass.render_pass_viewport(),
        Ok(Viewport { x: 20, y: 40, width: 600, height: 400 })
    );
    pass.configure_viewport((1, 1), (1, 1), -1);
    assert_eq!(
        pass.render_pass_viewport(),
        Ok(Viewport { x: -1, y: -1, width: -1, height: -1 })
    );
}
