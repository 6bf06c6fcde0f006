//! The render surface: one GPU surface bound to a native view, a fixed
//! triangle pipeline, and a mutable surface configuration.
//!
//! The GPU itself is an external collaborator.  Every operation here
//! returns the exact sequence of backend operations the host must perform
//! against it, in order, while the verified state tracks what the surface
//! configuration and the uniform buffer will hold once the host has done
//! so.  The uniform carries the logical (scale-independent) width, kept in
//! thousandths so that the contracts stay in integer arithmetic; the host
//! divides by a thousand when it writes the real buffer.

use vstd::prelude::*;

use crate::frame_counter::FpsReport;
use crate::frame_counter::FrameCounterState;
use crate::frame_counter::counter_after_update;
use crate::frame_counter::report_of_update;

verus! {

/// How acquired textures are presented: aligned to the display's refresh
/// interval, or as fast as possible.
#[derive(Clone, Copy, Debug, PartialEq, Eq)]
pub enum PresentMode {
    /// Presentation waits for the display's vertical sync.
    Vsync,
    /// Presentation does not wait.
    Immediate,
}

/// The configuration under which the surface produces presentable
/// textures.
#[derive(Clone, Copy, Debug, PartialEq, Eq)]
pub struct SurfaceConfig {
    /// Backing-store pixel width.
    pub width: u32,
    /// Backing-store pixel height.
    pub height: u32,
    /// Presentation mode chosen at creation; resizes keep it.
    pub present_mode: PresentMode,
}

/// One operation the host must perform against the GPU backend.
#[derive(Clone, Copy, Debug, PartialEq, Eq)]
pub enum BackendOp {
    /// Acquire the GPU instance.
    CreateInstance,
    /// Bind a drawable surface to the native view.
    CreateSurface,
    /// Select an adapter compatible with the surface; fatal if none.
    RequestAdapter,
    /// Obtain the device and queue from the adapter; fatal if none.
    RequestDevice,
    /// Compile the fixed triangle shader.
    CreateShaderModule,
    /// Build the uniform buffer, seeded with the logical width in
    /// thousandths.
    CreateUniformBuffer {
        /// Initial buffer contents: logical width in thousandths.
        value_milli: u64,
    },
    /// Build the render pipeline against the shader and uniform layout.
    CreatePipeline,
    /// Overwrite the uniform buffer with a new logical width in
    /// thousandths.
    WriteUniform {
        /// New buffer contents: logical width in thousandths.
        value_milli: u64,
    },
    /// Configure the surface for presentation at the given pixel size.
    Configure {
        /// Backing-store pixel width.
        width: u32,
        /// Backing-store pixel height.
        height: u32,
        /// Presentation mode.
        present_mode: PresentMode,
    },
    /// Acquire the next presentable texture; fatal if the surface is not
    /// configured.
    AcquireTexture,
    /// Begin a render pass that clears the acquired texture.
    BeginRenderPass,
    /// Issue a non-indexed draw of the given vertex count.
    Draw {
        /// Number of vertices drawn.
        vertex_count: u32,
    },
    /// Submit the recorded commands to the queue.
    Submit,
    /// Present the acquired texture.
    Present,
    /// Release the render pipeline.
    ReleasePipeline,
    /// Release the device and queue.
    ReleaseDevice,
    /// Release the drawable surface.
    ReleaseSurface,
    /// Release the GPU instance.
    ReleaseInstance,
}

/// The verified surface state: the configuration and uniform value that
/// the backend holds once the host has performed the emitted operations,
/// plus the frame counter advanced on every redraw.
#[derive(Clone, Copy, Debug, PartialEq, Eq)]
pub struct RenderSurface {
    /// Configuration in effect; always reflects the last resize.
    pub config: SurfaceConfig,
    /// Backing scale factor of the last resize, in thousandths.
    pub scale_milli: u64,
    /// Uniform buffer contents: logical width in thousandths.
    pub uniform_milli: u64,
    /// Rolling frame counter, advanced by `redraw`.
    pub counter: FrameCounterState,
}

/// The uniform buffer value for a pixel width and a backing scale factor
/// (in thousandths): the logical width, in thousandths.
pub open spec fn uniform_milli_of(width_px: u32, scale_milli: u64) -> u64 {
    (width_px * 1_000_000 / scale_milli as int) as u64
}

/// The surface state right after creation.
pub open spec fn created(
    width_px: u32,
    height_px: u32,
    scale_milli: u64,
    present_mode: PresentMode,
    now_ms: u64,
) -> RenderSurface {
    RenderSurface {
        config: SurfaceConfig { width: width_px, height: height_px, present_mode },
        scale_milli,
        uniform_milli: uniform_milli_of(width_px, scale_milli),
        counter: FrameCounterState { last_printed_ms: now_ms, frame_count: 0 },
    }
}

/// The backend operations that creation asks the host to perform, in
/// order: acquire the GPU stack, build shader, uniform and pipeline, then
/// configure the surface.
pub open spec fn create_ops(
    width_px: u32,
    height_px: u32,
    scale_milli: u64,
    present_mode: PresentMode,
) -> Seq<BackendOp> {
    seq![
        BackendOp::CreateInstance,
        BackendOp::CreateSurface,
        BackendOp::RequestAdapter,
        BackendOp::RequestDevice,
        BackendOp::CreateShaderModule,
        BackendOp::CreateUniformBuffer { value_milli: uniform_milli_of(width_px, scale_milli) },
        BackendOp::CreatePipeline,
        BackendOp::Configure { width: width_px, height: height_px, present_mode },
    ]
}

/// The surface state after a resize: new dimensions and scale, new
/// uniform value, presentation mode and frame counter untouched.
pub open spec fn resized(
    s: RenderSurface,
    width_px: u32,
    height_px: u32,
    scale_milli: u64,
) -> RenderSurface {
    RenderSurface {
        config: SurfaceConfig { width: width_px, height: height_px, present_mode: s.config.present_mode },
        scale_milli,
        uniform_milli: uniform_milli_of(width_px, scale_milli),
        counter: s.counter,
    }
}

/// The backend operations of a resize, in order: write the new uniform
/// value, then reconfigure the surface.
pub open spec fn resize_ops(
    width_px: u32,
    height_px: u32,
    scale_milli: u64,
    present_mode: PresentMode,
) -> Seq<BackendOp> {
    seq![
        BackendOp::WriteUniform { value_milli: uniform_milli_of(width_px, scale_milli) },
        BackendOp::Configure { width: width_px, height: height_px, present_mode },
    ]
}

/// The surface state after one redraw at time `now_ms`: only the frame
/// counter moves; configuration, scale and uniform value stay.
pub open spec fn redrawn(s: RenderSurface, now_ms: u64) -> RenderSurface {
    RenderSurface {
        config: s.config,
        scale_milli: s.scale_milli,
        uniform_milli: s.uniform_milli,
        counter: counter_after_update(s.counter, now_ms),
    }
}

/// The backend operations of one frame, in order: acquire the next
/// texture, record a clearing pass with a three-vertex draw, submit, and
/// present.
pub open spec fn redraw_ops() -> Seq<BackendOp> {
    seq![
        BackendOp::AcquireTexture,
        BackendOp::BeginRenderPass,
        BackendOp::Draw { vertex_count: 3u32 },
        BackendOp::Submit,
        BackendOp::Present,
    ]
}

/// The backend operations that release the GPU resources, in
/// reverse-dependency order: pipeline, device and queue, surface,
/// instance.
pub open spec fn release_ops() -> Seq<BackendOp> {
    seq![
        BackendOp::ReleasePipeline,
        BackendOp::ReleaseDevice,
        BackendOp::ReleaseSurface,
        BackendOp::ReleaseInstance,
    ]
}

/// The uniform buffer value for a pixel width under a backing scale
/// factor given in thousandths: the logical width, in thousandths.
pub fn uniform_value_milli(width_px: u32, scale_milli: u64) -> (v: u64)
    requires
        0 < scale_milli,
    ensures
        v == uniform_milli_of(width_px, scale_milli),
{
    (width_px as u64) * 1_000_000 / scale_milli
}

impl RenderSurface {
    /// Create the surface state for a drawable of the given pixel size and
    /// backing scale factor, and the backend operations that realise it.
    ///
    /// The host must perform the operations on the thread that owns the
    /// native view; adapter or device selection failing there is fatal.
    pub fn create(
        width_px: u32,
        height_px: u32,
        scale_milli: u64,
        present_mode: PresentMode,
        now_ms: u64,
    ) -> (res: (RenderSurface, Vec<BackendOp>))
        requires
            0 < width_px,
            0 < height_px,
            0 < scale_milli,
        ensures
            res.0 == created(width_px, height_px, scale_milli, present_mode, now_ms),
            res.1@ == create_ops(width_px, height_px, scale_milli, present_mode),
    {
        let value_milli = uniform_value_milli(width_px, scale_milli);
        let surface = RenderSurface {
            config: SurfaceConfig { width: width_px, height: height_px, present_mode },
            scale_milli,
            uniform_milli: value_milli,
            counter: FrameCounterState::new(now_ms),
        };
        let mut ops: Vec<BackendOp> = Vec::new();
        ops.push(BackendOp::CreateInstance);
        ops.push(BackendOp::CreateSurface);
        ops.push(BackendOp::RequestAdapter);
        ops.push(BackendOp::RequestDevice);
        ops.push(BackendOp::CreateShaderModule);
        ops.push(BackendOp::CreateUniformBuffer { value_milli });
        ops.push(BackendOp::CreatePipeline);
        ops.push(BackendOp::Configure { width: width_px, height: height_px, present_mode });
        proof {
            assert(ops@ =~= create_ops(width_px, height_px, scale_milli, present_mode));
        }
        (surface, ops)
    }

    /// Update the uniform value and the stored configuration to the new
    /// dimensions, and emit the operations that reconfigure the drawable.
    ///
    /// Idempotent: repeating a resize with identical arguments leaves the
    /// same state.  A zero dimension is stored faithfully; callers must
    /// then skip `redraw` until a later resize restores a drawable size.
    pub fn resize(&mut self, width_px: u32, height_px: u32, scale_milli: u64) -> (ops: Vec<
        BackendOp,
    >)
        requires
            0 < scale_milli,
        ensures
            *final(self) == resized(*old(self), width_px, height_px, scale_milli),
            ops@ == resize_ops(width_px, height_px, scale_milli, old(self).config.present_mode),
    {
        let value_milli = uniform_value_milli(width_px, scale_milli);
        let mut ops: Vec<BackendOp> = Vec::new();
        ops.push(BackendOp::WriteUniform { value_milli });
        ops.push(BackendOp::Configure {
            width: width_px,
            height: height_px,
            present_mode: self.config.present_mode,
        });
        self.config.width = width_px;
        self.config.height = height_px;
        self.scale_milli = scale_milli;
        self.uniform_milli = value_milli;
        proof {
            assert(ops@ =~= resize_ops(
                width_px,
                height_px,
                scale_milli,
                old(self).config.present_mode,
            ));
        }
        ops
    }

    /// Emit the operations of one frame and advance the frame counter,
    /// handing back a frame-rate report when one falls due.
    ///
    /// Requires a drawable configuration: acquiring a texture against a
    /// zero-sized configuration fails in the backend, so callers skip the
    /// redraw instead.
    pub fn redraw(&mut self, now_ms: u64) -> (res: (Vec<BackendOp>, Option<FpsReport>))
        requires
            0 < old(self).config.width,
            0 < old(self).config.height,
            old(self).counter.frame_count < u32::MAX,
            old(self).counter.last_printed_ms <= now_ms,
        ensures
            *final(self) == redrawn(*old(self), now_ms),
            res.0@ == redraw_ops(),
            res.1 == report_of_update(old(self).counter, now_ms),
    {
        let mut ops: Vec<BackendOp> = Vec::new();
        ops.push(BackendOp::AcquireTexture);
        ops.push(BackendOp::BeginRenderPass);
        ops.push(BackendOp::Draw { vertex_count: 3 });
        ops.push(BackendOp::Submit);
        ops.push(BackendOp::Present);
        let report = self.counter.update(now_ms);
        proof {
            assert(ops@ =~= redraw_ops());
        }
        (ops, report)
    }
}

/// One recorded `resize` call, for stating laws over call sequences.
#[derive(Clone, Copy, Debug, PartialEq, Eq)]
pub struct ResizeCall {
    /// Backing-store pixel width passed to the call.
    pub width_px: u32,
    /// Backing-store pixel height passed to the call.
    pub height_px: u32,
    /// Backing scale factor passed to the call, in thousandths.
    pub scale_milli: u64,
}

/// The surface state after a whole sequence of resizes, in order.
pub open spec fn resized_all(s: RenderSurface, calls: Seq<ResizeCall>) -> RenderSurface
    decreases calls.len(),
{
    if calls.len() == 0 {
        s
    } else {
        resized(
            resized_all(s, calls.drop_last()),
            calls.last().width_px,
            calls.last().height_px,
            calls.last().scale_milli,
        )
    }
}

/// Law (last write wins): after any sequence of resizes to positive
/// dimensions, the configuration, scale and uniform value are exactly
/// those of the last call, and the presentation mode is still the one the
/// surface was created with.
pub proof fn lemma_resize_last_write_wins(s: RenderSurface, calls: Seq<ResizeCall>)
    requires
        0 < calls.len(),
        forall|i: int|
            0 <= i < calls.len() ==> 0 < (#[trigger] calls[i]).width_px && 0 < calls[i].height_px
                && 0 < calls[i].scale_milli,
    ensures
        resized_all(s, calls).config.width == calls.last().width_px,
        resized_all(s, calls).config.height == calls.last().height_px,
        resized_all(s, calls).scale_milli == calls.last().scale_milli,
        resized_all(s, calls).uniform_milli == uniform_milli_of(
            calls.last().width_px,
            calls.last().scale_milli,
        ),
        resized_all(s, calls).config.present_mode == s.config.present_mode,
    decreases calls.len(),
{
    if calls.len() > 1 {
        let prefix = calls.drop_last();
        assert(forall|i: int|
            0 <= i < prefix.len() ==> 0 < (#[trigger] prefix[i]).width_px && 0
                < prefix[i].height_px && 0 < prefix[i].scale_milli);
        lemma_resize_last_write_wins(s, prefix);
    } else {
        assert(resized_all(s, calls.drop_last()) == s);
    }
}

/// Law (idempotence): resizing twice in a row with the same arguments
/// leaves exactly the state that one resize leaves.
pub proof fn lemma_resize_idempotent(
    s: RenderSurface,
    width_px: u32,
    height_px: u32,
    scale_milli: u64,
)
    ensures
        resized(resized(s, width_px, height_px, scale_milli), width_px, height_px, scale_milli)
            == resized(s, width_px, height_px, scale_milli),
{
}

/// Law: a resize to positive dimensions re-establishes the precondition
/// of `redraw`, so a resize followed by a redraw never meets a
/// zero-sized or stale configuration.
pub proof fn lemma_resize_enables_redraw(
    s: RenderSurface,
    width_px: u32,
    height_px: u32,
    scale_milli: u64,
)
    requires
        0 < width_px,
        0 < height_px,
    ensures
        0 < resized(s, width_px, height_px, scale_milli).config.width,
        0 < resized(s, width_px, height_px, scale_milli).config.height,
{
}

} // verus!
