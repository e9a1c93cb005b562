//! The frame compositor: the two-pass protocol that turns the current
//! state into one presented frame.
//!
//! A composed frame is described as a plan: two render passes over the
//! same texture view, recorded in order into one encoder, then submitted
//! once and presented.  The background pass clears the attachment to the
//! current color and stores it; the foreground pass preserves those
//! contents, binds the selected pipeline and issues exactly one draw call
//! (indexed over the full index range when geometry is present, a plain
//! three-vertex draw otherwise).  A pass's load operation is chosen once
//! at pass begin, so clearing and preserving cannot share one pass: the
//! split composes the two effects with a single acquisition and a single
//! submission.
//!
//! Acquiring the presentable texture can fail; the composer classifies
//! the outcome: a lost or outdated surface is recovered by reapplying the
//! current configuration and skipping the frame, exhaustion of memory
//! requests a close, a timeout or any other error only skips the frame.

use vstd::prelude::*;

use crate::bank::PipelineBank;
use crate::color::RgbaColor;
use crate::geometry::GeometryBuffers;
use crate::session::SurfaceConfig;
use crate::session::SurfaceSession;

verus! {

/// What a render pass does with the attachment's previous contents when
/// it begins: clear them to a color, or load and preserve them.
#[derive(Clone, Copy, Debug, PartialEq, Eq, Structural)]
pub enum LoadOp {
    Clear(RgbaColor),
    Preserve,
}

/// Whether the pass's results are written back to the attachment when it
/// ends.
#[derive(Clone, Copy, Debug, PartialEq, Eq, Structural)]
pub enum StoreOp {
    Retain,
    Discard,
}

/// Which pipeline of the bank a pass binds, by selection index.
#[derive(Clone, Copy, Debug, PartialEq, Eq, Structural)]
pub enum PassPipeline {
    Unbound,
    Selected(usize),
}

/// The one draw call a pass issues, if any.
#[derive(Clone, Copy, Debug, PartialEq, Eq, Structural)]
pub enum PassDraw {
    NoDraw,
    Draw { vertex_count: u32, instance_count: u32 },
    DrawIndexed { index_count: u32, instance_count: u32 },
}

/// One recorded render pass over the frame's texture view.
#[derive(Clone, Copy, Debug, PartialEq, Eq, Structural)]
pub struct PassAction {
    pub load: LoadOp,
    pub store: StoreOp,
    pub pipeline: PassPipeline,
    pub bind_geometry: bool,
    pub draw: PassDraw,
}

/// One composed frame: the background pass, then the foreground pass,
/// both over the same view, finished into one submission and presented.
#[derive(Clone, Copy, Debug, PartialEq, Eq, Structural)]
pub struct FramePlan {
    pub background: PassAction,
    pub foreground: PassAction,
}

/// How many draw calls one pass issues.
pub open spec fn pass_draw_calls(draw: PassDraw) -> nat {
    match draw {
        PassDraw::NoDraw => 0,
        PassDraw::Draw { .. } => 1,
        PassDraw::DrawIndexed { .. } => 1,
    }
}

/// How many draw calls the whole frame issues.
pub open spec fn total_draw_calls(plan: FramePlan) -> nat {
    pass_draw_calls(plan.background.draw) + pass_draw_calls(plan.foreground.draw)
}

/// The index count of the optional geometry, as the draw call takes it.
pub open spec fn geom_index_count(geometry: Option<&GeometryBuffers>) -> Option<u32> {
    match geometry {
        Some(g) => Some(g.indices.len() as u32),
        None => None,
    }
}

/// The frame plan composed from a background color, a pipeline selection
/// and the index count of the optional geometry.
pub open spec fn plan_spec(color: RgbaColor, selection: usize, index_count: Option<u32>) -> FramePlan {
    FramePlan {
        background: PassAction {
            load: LoadOp::Clear(color),
            store: StoreOp::Retain,
            pipeline: PassPipeline::Unbound,
            bind_geometry: false,
            draw: PassDraw::NoDraw,
        },
        foreground: PassAction {
            load: LoadOp::Preserve,
            store: StoreOp::Retain,
            pipeline: PassPipeline::Selected(selection),
            bind_geometry: index_count is Some,
            draw: match index_count {
                Some(n) => PassDraw::DrawIndexed { index_count: n, instance_count: 1 },
                None => PassDraw::Draw { vertex_count: 3, instance_count: 1 },
            },
        },
    }
}

/// Compose one frame from the current state: a background pass clearing
/// to `color`, then a foreground pass that preserves it, binds the
/// bank's selected pipeline and issues the frame's single draw call.
pub fn compose(color: RgbaColor, bank: &PipelineBank, geometry: Option<&GeometryBuffers>) -> (r:
    FramePlan)
    requires
        bank.wf(),
        geometry matches Some(g) ==> g.wf(),
    ensures
        r == plan_spec(color, bank.selection, geom_index_count(geometry)),
        r.background.load == LoadOp::Clear(color),
        r.background.store == StoreOp::Retain,
        r.background.pipeline == PassPipeline::Unbound,
        r.background.draw == PassDraw::NoDraw,
        r.foreground.load == LoadOp::Preserve,
        r.foreground.store == StoreOp::Retain,
        r.foreground.pipeline == PassPipeline::Selected(bank.selection),
        total_draw_calls(r) == 1,
        geometry is None ==> r.foreground.draw == (PassDraw::Draw {
            vertex_count: 3,
            instance_count: 1,
        }),
        geometry matches Some(g) ==> r.foreground.draw == (PassDraw::DrawIndexed {
            index_count: g.indices.len() as u32,
            instance_count: 1,
        }),
    {
    let draw = match geometry {
        Some(g) => PassDraw::DrawIndexed { index_count: g.index_count(), instance_count: 1 },
        None => PassDraw::Draw { vertex_count: 3, instance_count: 1 },
    };
    FramePlan {
        background: PassAction {
            load: LoadOp::Clear(color),
            store: StoreOp::Retain,
            pipeline: PassPipeline::Unbound,
            bind_geometry: false,
            draw: PassDraw::NoDraw,
        },
        foreground: PassAction {
            load: LoadOp::Preserve,
            store: StoreOp::Retain,
            pipeline: PassPipeline::Selected(bank.selected()),
            bind_geometry: match geometry {
                Some(_) => true,
                None => false,
            },
            draw,
        },
    }
}

/// How one attempt to acquire the next presentable texture ended, as the
/// surface reports it.
#[derive(Clone, Copy, Debug, PartialEq, Eq, Structural)]
pub enum AcquireOutcome {
    Acquired,
    Lost,
    Outdated,
    OutOfMemory,
    Timeout,
    OtherError,
}

/// What one composition attempt decided: present a composed frame;
/// reapply the given configuration and skip the frame (recoverable
/// failure); request a close (fatal failure); or only skip the frame.
#[derive(Clone, Copy, Debug, PartialEq, Eq, Structural)]
pub enum FrameOutcome {
    Presented(FramePlan),
    Reconfigure(SurfaceConfig),
    CloseRequested,
    Skipped,
}

/// The composition decision for each acquisition outcome.
pub open spec fn composition_spec(
    outcome: AcquireOutcome,
    config: SurfaceConfig,
    color: RgbaColor,
    selection: usize,
    index_count: Option<u32>,
) -> FrameOutcome {
    match outcome {
        AcquireOutcome::Acquired => FrameOutcome::Presented(plan_spec(color, selection, index_count)),
        AcquireOutcome::Lost => FrameOutcome::Reconfigure(config),
        AcquireOutcome::Outdated => FrameOutcome::Reconfigure(config),
        AcquireOutcome::OutOfMemory => FrameOutcome::CloseRequested,
        AcquireOutcome::Timeout => FrameOutcome::Skipped,
        AcquireOutcome::OtherError => FrameOutcome::Skipped,
    }
}

/// Compose one frame against the session, classifying how the texture
/// acquisition ended: a successful acquisition is composed and presented;
/// a lost or outdated surface has the session's current configuration
/// reapplied and the frame skipped; memory exhaustion requests a close;
/// a timeout or any other error skips the frame and the loop goes on.
pub fn compose_frame(
    outcome: AcquireOutcome,
    session: &SurfaceSession,
    color: RgbaColor,
    bank: &PipelineBank,
    geometry: Option<&GeometryBuffers>,
) -> (r: FrameOutcome)
    requires
        session.wf(),
        bank.wf(),
        geometry matches Some(g) ==> g.wf(),
    ensures
        r == composition_spec(outcome, session.config, color, bank.selection, geom_index_count(geometry)),
{
    match outcome {
        AcquireOutcome::Acquired => FrameOutcome::Presented(compose(color, bank, geometry)),
        AcquireOutcome::Lost => FrameOutcome::Reconfigure(session.config),
        AcquireOutcome::Outdated => FrameOutcome::Reconfigure(session.config),
        AcquireOutcome::OutOfMemory => FrameOutcome::CloseRequested,
        AcquireOutcome::Timeout => FrameOutcome::Skipped,
        AcquireOutcome::OtherError => FrameOutcome::Skipped,
    }
}

/// Law: composing a frame with no geometry issues exactly one draw call,
/// of three vertices and one instance; composing with geometry issues
/// exactly one indexed draw over the full index count, one instance.
pub proof fn lemma_single_draw_call(color: RgbaColor, selection: usize, index_count: Option<u32>)
    ensures
        total_draw_calls(plan_spec(color, selection, index_count)) == 1,
        index_count is None ==> plan_spec(color, selection, index_count).foreground.draw
            == (PassDraw::Draw { vertex_count: 3, instance_count: 1 }),
        index_count matches Some(n) ==> plan_spec(color, selection, index_count).foreground.draw
            == (PassDraw::DrawIndexed { index_count: n, instance_count: 1 }),
{
}

/// Law: frame composition is deterministic.  Two compositions from equal
/// render state (color and pipeline selection) and equal geometry produce
/// the same plan, so consecutive frames with unchanged state reach their
/// attachment contents by the same operation sequence.
pub proof fn lemma_composition_deterministic(
    color1: RgbaColor,
    color2: RgbaColor,
    selection1: usize,
    selection2: usize,
    index_count1: Option<u32>,
    index_count2: Option<u32>,
)
    requires
        color1 == color2,
        selection1 == selection2,
        index_count1 == index_count2,
    ensures
        plan_spec(color1, selection1, index_count1) == plan_spec(color2, selection2, index_count2),
{
}

/// Law: a recoverable acquisition failure (surface lost or outdated) is
/// answered by reapplying the session's current configuration, never by a
/// close request; and the following composition, once acquisition
/// succeeds, presents a composed frame.
pub proof fn lemma_recoverable_failure_recovers(
    outcome: AcquireOutcome,
    config: SurfaceConfig,
    color: RgbaColor,
    selection: usize,
    index_count: Option<u32>,
)
    requires
        outcome == AcquireOutcome::Lost || outcome == AcquireOutcome::Outdated,
    ensures
        composition_spec(outcome, config, color, selection, index_count)
            == FrameOutcome::Reconfigure(config),
        composition_spec(outcome, config, color, selection, index_count)
            != FrameOutcome::CloseRequested,
        composition_spec(AcquireOutcome::Acquired, config, color, selection, index_count)
            == FrameOutcome::Presented(plan_spec(color, selection, index_count)),
{
}

} // verus!
