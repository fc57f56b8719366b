use vstd::prelude::*;
use crate::context::RenderError;

verus! {

/// One piece of outside work in finishing a frame, in the order given.
#[derive(Clone, Copy, Debug, PartialEq, Eq, Structural)]
pub enum FrameStep {
    /// Write the geometry batch and the primitive table to staging memory.
    UploadGeometry,
    /// Draw the batch into the multisampled target resolved into the view.
    DrawMain,
    /// Close the staging memory of this frame.
    FinishStaging,
    /// Submit the primary command buffer.
    SubmitMain,
    /// Submit the custom passes queued this frame, this many of them.
    SubmitCustom(usize),
    /// Present the acquired surface.
    Present,
    /// Reclaim staging memory and run pending background work until it stalls.
    RecallStaging,
}

/// What a frame has acquired and queued so far.
#[derive(Clone, Copy, Debug, PartialEq, Eq, Structural)]
pub struct FrameState {
    pub view_acquired: bool,
    pub pending_passes: usize,
}

/// The steps of `finish` once the view is there: the main draw only with
/// geometry, then the custom passes, one present, the recall.
pub open spec fn finish_steps(has_geometry: bool, pending: usize) -> Seq<FrameStep> {
    let tail = seq![FrameStep::SubmitCustom(pending), FrameStep::Present, FrameStep::RecallStaging];
    if has_geometry {
        seq![
            FrameStep::UploadGeometry,
            FrameStep::DrawMain,
            FrameStep::FinishStaging,
            FrameStep::SubmitMain,
        ] + tail
    } else {
        tail
    }
}

impl FrameState {
    pub fn new() -> (f: FrameState)
        ensures
            !f.view_acquired,
            f.pending_passes == 0,
    {
        FrameState { view_acquired: false, pending_passes: 0 }
    }

    /// Whether the target surface still has to be acquired this frame; once
    /// it is, the cached view is used again.
    pub fn view_needed(&self) -> (b: bool)
        ensures
            b == !self.view_acquired,
    {
        !self.view_acquired
    }

    /// Takes the outcome of acquiring the surface: on success the view is
    /// cached for the rest of the frame, on failure nothing changes and the
    /// frame reports `SurfaceUnavailable`.
    pub fn view_result(&mut self, acquired: bool) -> (r: Result<(), RenderError>)
        ensures
            acquired ==> r is Ok && *final(self) == (FrameState { view_acquired: true, ..*old(self) }),
            !acquired ==> r == Err::<(), RenderError>(RenderError::SurfaceUnavailable)
                && *final(self) == *old(self),
    {
        if acquired {
            self.view_acquired = true;
            Ok(())
        } else {
            Err(RenderError::SurfaceUnavailable)
        }
    }

    /// Queues the command buffer of a finished custom pass.
    pub fn pass_queued(&mut self)
        requires
            old(self).view_acquired,
            old(self).pending_passes < usize::MAX,
        ensures
            *final(self) == (FrameState { pending_passes: (old(self).pending_passes + 1) as usize, ..*old(self) }),
    {
        self.pending_passes = self.pending_passes + 1;
    }

    /// The outside work of `finish` after the view was acquired.
    pub fn finish_plan(&self, has_geometry: bool) -> (steps: Vec<FrameStep>)
        requires
            self.view_acquired,
        ensures
            steps@ == finish_steps(has_geometry, self.pending_passes),
    {
        let mut steps: Vec<FrameStep> = Vec::new();
        if has_geometry {
            steps.push(FrameStep::UploadGeometry);
            steps.push(FrameStep::DrawMain);
            steps.push(FrameStep::FinishStaging);
            steps.push(FrameStep::SubmitMain);
        }
        steps.push(FrameStep::SubmitCustom(self.pending_passes));
        steps.push(FrameStep::Present);
        steps.push(FrameStep::RecallStaging);
        assert(steps@ =~= finish_steps(has_geometry, self.pending_passes));
        steps
    }

    /// After present: the view is dropped and nothing is queued.
    pub fn end_frame(&mut self)
        ensures
            *final(self) == FrameState::new_spec(),
    {
        self.view_acquired = false;
        self.pending_passes = 0;
    }

    pub open spec fn new_spec() -> FrameState {
        FrameState { view_acquired: false, pending_passes: 0 }
    }
}

/// Every finish presents exactly once, as its second step from the end, and
/// submits custom passes only after the main draw was submitted.
pub proof fn law_one_present_per_frame(has_geometry: bool, pending: usize)
    ensures
        finish_steps(has_geometry, pending).filter(|s: FrameStep| s == FrameStep::Present).len() == 1,
        finish_steps(has_geometry, pending)[finish_steps(has_geometry, pending).len() - 2]
            == FrameStep::Present,
        has_geometry ==> finish_steps(has_geometry, pending)[3] == FrameStep::SubmitMain
            && finish_steps(has_geometry, pending)[4] == FrameStep::SubmitCustom(pending),
{
    let s = finish_steps(has_geometry, pending);
    reveal_with_fuel(Seq::filter, 8);
    if has_geometry {
        assert(s =~= seq![
            FrameStep::UploadGeometry,
            FrameStep::DrawMain,
            FrameStep::FinishStaging,
            FrameStep::SubmitMain,
            FrameStep::SubmitCustom(pending),
            FrameStep::Present,
            FrameStep::RecallStaging,
        ]);
    }
    assert(s.filter(|x: FrameStep| x == FrameStep::Present) =~= seq![FrameStep::Present]);
}

/// A custom pass's viewport in pixels: origin and size.
#[derive(Clone, Copy, Debug, PartialEq, Eq, Structural)]
pub struct Viewport {
    pub x: i64,
    pub y: i64,
    pub width: i64,
    pub height: i64,
}

/// The state of one custom render pass that the library decides on.
pub struct RenderPassCtx {
    pub viewport_info: Option<Viewport>,
}

pub open spec fn scaled_ok(v: i64, scale: i64) -> bool {
    -2147483648 <= v <= 2147483648 && -2147483648 <= scale <= 2147483648
}

impl RenderPassCtx {
    pub fn new() -> (c: RenderPassCtx)
        ensures
            c.viewport_info is None,
    {
        RenderPassCtx { viewport_info: None }
    }

    /// Sets the viewport to `origin` and `size` in logical units times `scale`.
    /// Values too large for the product to be exact leave it as it was.
    pub fn configure_viewport(&mut self, origin: (i64, i64), size: (i64, i64), scale: i64)
        ensures
            scaled_ok(origin.0, scale) && scaled_ok(origin.1, scale) && scaled_ok(size.0, scale)
                && scaled_ok(size.1, scale) ==> final(self).viewport_info == Some(
                Viewport {
                    x: (origin.0 * scale) as i64,
                    y: (origin.1 * scale) as i64,
                    width: (size.0 * scale) as i64,
                    height: (size.1 * scale) as i64,
                },
            ),
            !(scaled_ok(origin.0, scale) && scaled_ok(origin.1, scale) && scaled_ok(size.0, scale)
                && scaled_ok(size.1, scale)) ==> final(self).viewport_info == old(self).viewport_info,
    {
        if !(-2147483648 <= origin.0 && origin.0 <= 2147483648 && -2147483648 <= origin.1
            && origin.1 <= 2147483648 && -2147483648 <= size.0 && size.0 <= 2147483648
            && -2147483648 <= size.1 && size.1 <= 2147483648 && -2147483648 <= scale && scale
            <= 2147483648) {
            return;
        }
        proof {
            lemma_scaled_fits(origin.0 as int, scale as int);
            lemma_scaled_fits(origin.1 as int, scale as int);
            lemma_scaled_fits(size.0 as int, scale as int);
            lemma_scaled_fits(size.1 as int, scale as int);
        }
        self.viewport_info = Some(
            Viewport {
                x: origin.0 * scale,
                y: origin.1 * scale,
                width: size.0 * scale,
                height: size.1 * scale,
            },
        );
    }

    /// The viewport a render pass is set to; `MissingViewport` before one was
    /// configured.
    pub fn render_pass_viewport(&self) -> (r: Result<Viewport, RenderError>)
        ensures
            match self.viewport_info {
                Some(v) => r == Ok::<Viewport, RenderError>(v),
                None => r == Err::<Viewport, RenderError>(RenderError::MissingViewport),
            },
    {
        match self.viewport_info {
            Some(v) => Ok(v),
            None => Err(RenderError::MissingViewport),
        }
    }
}

proof fn lemma_scaled_fits(v: int, s: int)
    requires
        -2147483648 <= v <= 2147483648,
        -2147483648 <= s <= 2147483648,
    ensures
        -4611686018427387904 <= v * s <= 4611686018427387904,
{
    assert(-4611686018427387904 <= v * s <= 4611686018427387904) by (nonlinear_arith)
        requires
            -2147483648 <= v <= 2147483648,
            -2147483648 <= s <= 2147483648,
    ;
}

} // verus!
