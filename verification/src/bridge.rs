//! The platform view bridge: the native drawable object that owns one
//! render surface and decides, for every windowing-toolkit callback, what
//! the surface and the toolkit must do next.
//!
//! Callbacks arrive serialized on the UI thread in three trigger classes:
//! OS paint callbacks, resize or backing-scale notifications, and an
//! optional vsync-aligned timer tick.  Each handler returns the exact
//! action sequence the host must perform, and the contracts pin the
//! ordering rules down: a resize reconfigures before any redraw it
//! requests, a zero-sized configuration never reaches a texture
//! acquisition, and teardown removes timer and notification registrations
//! before any GPU resource is released.

use vstd::prelude::*;

use crate::frame_counter::FrameCounterState;
use crate::frame_counter::report_of_update;
use crate::surface::BackendOp;
use crate::surface::PresentMode;
use crate::surface::RenderSurface;
use crate::surface::create_ops;
use crate::surface::created;
use crate::surface::redraw_ops;
use crate::surface::redrawn;
use crate::surface::release_ops;
use crate::surface::resize_ops;
use crate::surface::resized;
use crate::surface::uniform_milli_of;

verus! {

/// Which windowing toolkit hosts the view.
#[derive(Clone, Copy, Debug, PartialEq, Eq)]
pub enum Platform {
    /// A desktop toolkit: resize notifications must be subscribed to
    /// explicitly, and unsubscribed at teardown.
    Desktop,
    /// A touch-device toolkit: the layout pass delivers resizes
    /// implicitly, with nothing to subscribe or unsubscribe.
    Touch,
}

/// Which style of OS paint callback the view answers (desktop only;
/// exactly one is active per build).
#[derive(Clone, Copy, Debug, PartialEq, Eq)]
pub enum PaintStyle {
    /// The layer-backed update callback.
    LayerBacked,
    /// The legacy immediate-mode draw callback.
    ImmediateMode,
}

/// The compile-time build variants of the demo, carried as plain state so
/// that every combination is verified.
#[derive(Clone, Copy, Debug, PartialEq, Eq)]
pub struct BuildConfig {
    /// Hosting toolkit.
    pub platform: Platform,
    /// Paint-callback style the view answers.
    pub paint_style: PaintStyle,
    /// Presentation mode the surface is created with.
    pub present_mode: PresentMode,
    /// Redraw eagerly inside resize events and timer ticks, instead of
    /// waiting for an OS paint callback.
    pub immediate_redraw: bool,
    /// Drive redraws from a vsync-aligned timer.
    pub display_link: bool,
    /// After each paint, queue a deferred request for another one through
    /// the main-thread dispatcher.
    pub queue_display: bool,
}

/// Where the view stands in its lifecycle.
#[derive(Clone, Copy, Debug, PartialEq, Eq)]
pub enum LifecyclePhase {
    /// Constructed, render surface not yet created.
    Unattached,
    /// Render surface created; callbacks are being served.
    Ready,
    /// Registrations removed and GPU resources released.
    TornDown,
}

/// One action the host must perform on behalf of the bridge, in the order
/// emitted.
#[derive(Clone, Copy, Debug, PartialEq, Eq)]
pub enum BridgeAction {
    /// Perform a GPU backend operation.
    Backend(BackendOp),
    /// Log a frame-rate report.
    EmitFpsReport(crate::frame_counter::FpsReport),
    /// Mark the view as needing an OS-driven paint, letting the OS
    /// coalesce pending requests.
    SetNeedsDisplay,
    /// Schedule a one-shot "mark needing paint" on the main-thread
    /// dispatcher, deferring it out of the current callback.
    QueueSetNeedsDisplay,
    /// Subscribe to the toolkit's frame-change notifications.
    RegisterFrameNotifications,
    /// Attach the vsync-aligned timer to the run loop.
    AttachDisplayLink,
    /// Remove the vsync-aligned timer from its run loop.
    RemoveDisplayLink,
    /// Unsubscribe from the frame-change notifications.
    RemoveFrameObserver,
}

/// The bridge: build variants, lifecycle phase, and the one render
/// surface it owns while ready.
#[derive(Clone, Copy, Debug, PartialEq, Eq)]
pub struct PlatformViewBridge {
    /// Build variants, fixed at construction.
    pub cfg: BuildConfig,
    /// Lifecycle phase.
    pub phase: LifecyclePhase,
    /// The render surface; present exactly while the phase is ready.
    pub surface: Option<RenderSurface>,
}

/// A configuration with both dimensions positive: only then may a frame
/// be drawn against it.
pub open spec fn surface_drawable(s: RenderSurface) -> bool {
    0 < s.config.width && 0 < s.config.height
}

/// Backend operations lifted into bridge actions, keeping their order.
pub open spec fn backend_actions(ops: Seq<BackendOp>) -> Seq<BridgeAction> {
    ops.map_values(|op: BackendOp| BridgeAction::Backend(op))
}

/// The report action a redraw at time `now_ms` appends: one entry when a
/// report falls due, none otherwise.
pub open spec fn report_actions(c: FrameCounterState, now_ms: u64) -> Seq<BridgeAction> {
    match report_of_update(c, now_ms) {
        Some(r) => seq![BridgeAction::EmitFpsReport(r)],
        None => Seq::empty(),
    }
}

/// The deferred-repaint action appended after a paint when the build asks
/// for it.
pub open spec fn queue_actions(cfg: BuildConfig) -> Seq<BridgeAction> {
    if cfg.queue_display {
        seq![BridgeAction::QueueSetNeedsDisplay]
    } else {
        Seq::empty()
    }
}

/// The surface state once `attach` has run: freshly created, plus one
/// recorded frame when the build redraws eagerly at attach time.
pub open spec fn attached_surface(
    cfg: BuildConfig,
    width_px: u32,
    height_px: u32,
    scale_milli: u64,
    now_ms: u64,
) -> RenderSurface {
    let s = created(width_px, height_px, scale_milli, cfg.present_mode, now_ms);
    if cfg.immediate_redraw {
        redrawn(s, now_ms)
    } else {
        s
    }
}

/// The actions `attach` emits, in order: create the GPU stack, optionally
/// draw a first frame, subscribe to resize notifications on desktop, and
/// attach the vsync timer when the build uses one.
pub open spec fn attach_actions(
    cfg: BuildConfig,
    width_px: u32,
    height_px: u32,
    scale_milli: u64,
) -> Seq<BridgeAction> {
    backend_actions(create_ops(width_px, height_px, scale_milli, cfg.present_mode)) + (
    if cfg.immediate_redraw {
        backend_actions(redraw_ops())
    } else {
        Seq::empty()
    }) + (if cfg.platform is Desktop {
        seq![BridgeAction::RegisterFrameNotifications]
    } else {
        Seq::empty()
    }) + (if cfg.display_link {
        seq![BridgeAction::AttachDisplayLink]
    } else {
        Seq::empty()
    })
}

/// The surface state once `paint` has run: one frame recorded when the
/// configuration was drawable, untouched otherwise.
pub open spec fn paint_surface(b: PlatformViewBridge, now_ms: u64) -> RenderSurface {
    if surface_drawable(b.surface_spec()) {
        redrawn(b.surface_spec(), now_ms)
    } else {
        b.surface_spec()
    }
}

/// The actions `paint` emits: a full frame plus any due report, then the
/// deferred-repaint request when the build asks for one; nothing at all
/// against a zero-sized configuration.
pub open spec fn paint_actions(b: PlatformViewBridge, now_ms: u64) -> Seq<BridgeAction> {
    if surface_drawable(b.surface_spec()) {
        backend_actions(redraw_ops()) + report_actions(b.surface_spec().counter, now_ms)
            + queue_actions(b.cfg)
    } else {
        Seq::empty()
    }
}

/// Whether a resize event also draws eagerly: only when the build redraws
/// immediately, is not timer-driven, and the new size is drawable.
pub open spec fn resize_event_redraws(
    cfg: BuildConfig,
    width_px: u32,
    height_px: u32,
) -> bool {
    cfg.immediate_redraw && !cfg.display_link && 0 < width_px && 0 < height_px
}

/// The surface state once `resize_event` has run: resized, plus one frame
/// recorded when the event also drew.
pub open spec fn resize_event_surface(
    b: PlatformViewBridge,
    width_px: u32,
    height_px: u32,
    scale_milli: u64,
    now_ms: u64,
) -> RenderSurface {
    let s1 = resized(b.surface_spec(), width_px, height_px, scale_milli);
    if resize_event_redraws(b.cfg, width_px, height_px) {
        redrawn(s1, now_ms)
    } else {
        s1
    }
}

/// The actions `resize_event` emits, in order: the uniform write and the
/// reconfiguration, then, only when the build draws eagerly, a full frame
/// against the configuration just installed.
pub open spec fn resize_event_actions(
    b: PlatformViewBridge,
    width_px: u32,
    height_px: u32,
    scale_milli: u64,
    now_ms: u64,
) -> Seq<BridgeAction> {
    let s1 = resized(b.surface_spec(), width_px, height_px, scale_milli);
    backend_actions(resize_ops(width_px, height_px, scale_milli, b.surface_spec().config.present_mode))
        + (if resize_event_redraws(b.cfg, width_px, height_px) {
        backend_actions(redraw_ops()) + report_actions(s1.counter, now_ms)
    } else {
        Seq::empty()
    })
}

/// The surface state once `display_link_step` has run: one frame recorded
/// when the build redraws eagerly against a drawable configuration,
/// untouched otherwise.
pub open spec fn step_surface(b: PlatformViewBridge, now_ms: u64) -> RenderSurface {
    if b.cfg.immediate_redraw && surface_drawable(b.surface_spec()) {
        redrawn(b.surface_spec(), now_ms)
    } else {
        b.surface_spec()
    }
}

/// The actions `display_link_step` emits: a full frame when the build
/// redraws eagerly and the configuration is drawable; otherwise a single
/// request for an OS-driven paint, which lets the OS coalesce several
/// pending ticks into one paint.
pub open spec fn step_actions(b: PlatformViewBridge, now_ms: u64) -> Seq<BridgeAction> {
    if b.cfg.immediate_redraw {
        if surface_drawable(b.surface_spec()) {
            backend_actions(redraw_ops()) + report_actions(b.surface_spec().counter, now_ms)
        } else {
            Seq::empty()
        }
    } else {
        seq![BridgeAction::SetNeedsDisplay]
    }
}

/// The actions `teardown` emits, in order: remove the vsync timer if one
/// was attached, unsubscribe from frame notifications on desktop, and
/// only then release the GPU resources in reverse-dependency order.
pub open spec fn teardown_actions(cfg: BuildConfig) -> Seq<BridgeAction> {
    (if cfg.display_link {
        seq![BridgeAction::RemoveDisplayLink]
    } else {
        Seq::empty()
    }) + (if cfg.platform is Desktop {
        seq![BridgeAction::RemoveFrameObserver]
    } else {
        Seq::empty()
    }) + backend_actions(release_ops())
}

/// Append one bridge action per backend operation, keeping the order.
fn push_backend(actions: &mut Vec<BridgeAction>, ops: &Vec<BackendOp>)
    ensures
        final(actions)@ == old(actions)@ + backend_actions(ops@),
{
    let ghost base = actions@;
    let n = ops.len();
    let mut i: usize = 0;
    while i < n
        invariant
            i <= n,
            n == ops@.len(),
            actions@ == base + backend_actions(ops@.take(i as int)),
        decreases n - i,
    {
        actions.push(BridgeAction::Backend(ops[i]));
        proof {
            assert(backend_actions(ops@.take(i + 1)) =~= backend_actions(
                ops@.take(i as int),
            ).push(BridgeAction::Backend(ops@[i as int])));
            assert(base + backend_actions(ops@.take(i + 1)) =~= (base + backend_actions(
                ops@.take(i as int),
            )).push(BridgeAction::Backend(ops@[i as int])));
        }
        i = i + 1;
    }
    proof {
        assert(ops@.take(n as int) =~= ops@);
    }
}

/// The backing-store pixel extent of a logical extent (in thousandths of
/// a point) under a backing scale factor (in thousandths): logical size
/// times scale, truncated to whole pixels.  Passing the logical size
/// through unscaled is exactly the mistake that produces blurry output on
/// high-density displays.
pub fn backing_pixel_size(logical_milli: u64, scale_milli: u64) -> (px: u32)
    requires
        logical_milli * scale_milli < 0x1_0000_0000 * 1_000_000,
    ensures
        px == logical_milli * scale_milli / 1_000_000,
{
    let prod: u64 = logical_milli * scale_milli;
    (prod / 1_000_000) as u32
}

impl PlatformViewBridge {
    /// The render surface owned while ready.  Meaningful only when the
    /// invariant holds and the phase is ready.
    pub open spec fn surface_spec(self) -> RenderSurface {
        self.surface->Some_0
    }

    /// Structural invariant: the surface exists exactly while the bridge
    /// is ready.
    pub open spec fn inv(self) -> bool {
        self.surface is Some <==> self.phase is Ready
    }

    /// A bridge for the given build variants, with no surface yet.
    pub fn new(cfg: BuildConfig) -> (b: Self)
        ensures
            b.inv(),
            b.phase is Unattached,
            b.surface is None,
            b.cfg == cfg,
    {
        PlatformViewBridge { cfg, phase: LifecyclePhase::Unattached, surface: None }
    }

    /// Whether the view answers the layer-backed update callback rather
    /// than the immediate-mode draw callback.
    pub fn wants_update_layer(&self) -> (r: bool)
        ensures
            r == (self.cfg.paint_style is LayerBacked),
    {
        match self.cfg.paint_style {
            PaintStyle::LayerBacked => true,
            PaintStyle::ImmediateMode => false,
        }
    }

    /// First layout with a real backing-store pixel size: create the
    /// render surface, optionally draw a first frame, and register the
    /// callbacks the build needs.  May run only once.
    pub fn attach(
        &mut self,
        width_px: u32,
        height_px: u32,
        scale_milli: u64,
        now_ms: u64,
    ) -> (actions: Vec<BridgeAction>)
        requires
            old(self).inv(),
            old(self).phase is Unattached,
            0 < width_px,
            0 < height_px,
            0 < scale_milli,
        ensures
            final(self).inv(),
            final(self).phase is Ready,
            final(self).cfg == old(self).cfg,
            final(self).surface == Some(
                attached_surface(old(self).cfg, width_px, height_px, scale_milli, now_ms),
            ),
            actions@ == attach_actions(old(self).cfg, width_px, height_px, scale_milli),
    {
        let (surface, create_op_vec) = RenderSurface::create(
            width_px,
            height_px,
            scale_milli,
            self.cfg.present_mode,
            now_ms,
        );
        let mut s = surface;
        let mut actions: Vec<BridgeAction> = Vec::new();
        push_backend(&mut actions, &create_op_vec);
        if self.cfg.immediate_redraw {
            let (redraw_op_vec, report) = s.redraw(now_ms);
            push_backend(&mut actions, &redraw_op_vec);
            if let Some(r) = report {
                actions.push(BridgeAction::EmitFpsReport(r));
            }
        }
        match self.cfg.platform {
            Platform::Desktop => {
                actions.push(BridgeAction::RegisterFrameNotifications);
            },
            Platform::Touch => {},
        }
        if self.cfg.display_link {
            actions.push(BridgeAction::AttachDisplayLink);
        }
        self.surface = Some(s);
        self.phase = LifecyclePhase::Ready;
        proof {
            assert(actions@ =~= attach_actions(old(self).cfg, width_px, height_px, scale_milli));
        }
        actions
    }

    /// An OS paint callback (layer-backed update or immediate-mode draw):
    /// draw one frame, unless the configuration is zero-sized, in which
    /// case the paint is skipped entirely.
    pub fn paint(&mut self, now_ms: u64) -> (actions: Vec<BridgeAction>)
        requires
            old(self).inv(),
            old(self).phase is Ready,
            old(self).surface_spec().counter.frame_count < u32::MAX,
            old(self).surface_spec().counter.last_printed_ms <= now_ms,
        ensures
            final(self).inv(),
            final(self).phase is Ready,
            final(self).cfg == old(self).cfg,
            final(self).surface == Some(paint_surface(*old(self), now_ms)),
            actions@ == paint_actions(*old(self), now_ms),
    {
        let mut actions: Vec<BridgeAction> = Vec::new();
        if let Some(s0) = self.surface {
            let mut s = s0;
            if s.config.width > 0 && s.config.height > 0 {
                let (redraw_op_vec, report) = s.redraw(now_ms);
                push_backend(&mut actions, &redraw_op_vec);
                if let Some(r) = report {
                    actions.push(BridgeAction::EmitFpsReport(r));
                }
                if self.cfg.queue_display {
                    actions.push(BridgeAction::QueueSetNeedsDisplay);
                }
                self.surface = Some(s);
            }
        }
        proof {
            assert(actions@ =~= paint_actions(*old(self), now_ms));
        }
        actions
    }

    /// A resize or backing-scale notification carrying the new
    /// backing-store pixel size and scale: reconfigure the surface first,
    /// and only then, when the build draws eagerly and is not
    /// timer-driven, draw a frame against the new configuration.
    pub fn resize_event(
        &mut self,
        width_px: u32,
        height_px: u32,
        scale_milli: u64,
        now_ms: u64,
    ) -> (actions: Vec<BridgeAction>)
        requires
            old(self).inv(),
            old(self).phase is Ready,
            0 < scale_milli,
            old(self).surface_spec().counter.frame_count < u32::MAX,
            old(self).surface_spec().counter.last_printed_ms <= now_ms,
        ensures
            final(self).inv(),
            final(self).phase is Ready,
            final(self).cfg == old(self).cfg,
            final(self).surface == Some(
                resize_event_surface(*old(self), width_px, height_px, scale_milli, now_ms),
            ),
            actions@ == resize_event_actions(
                *old(self),
                width_px,
                height_px,
                scale_milli,
                now_ms,
            ),
    {
        let mut actions: Vec<BridgeAction> = Vec::new();
        if let Some(s0) = self.surface {
            let mut s = s0;
            let resize_op_vec = s.resize(width_px, height_px, scale_milli);
            push_backend(&mut actions, &resize_op_vec);
            if self.cfg.immediate_redraw && !self.cfg.display_link && width_px > 0 && height_px
                > 0 {
                let (redraw_op_vec, report) = s.redraw(now_ms);
                push_backend(&mut actions, &redraw_op_vec);
                if let Some(r) = report {
                    actions.push(BridgeAction::EmitFpsReport(r));
                }
            }
            self.surface = Some(s);
        }
        proof {
            assert(actions@ =~= resize_event_actions(
                *old(self),
                width_px,
                height_px,
                scale_milli,
                now_ms,
            ));
        }
        actions
    }

    /// A vsync-timer tick: draw a frame directly when the build redraws
    /// eagerly (skipped against a zero-sized configuration), or defer to
    /// an OS-driven paint so that the OS may coalesce pending requests.
    pub fn display_link_step(&mut self, now_ms: u64) -> (actions: Vec<BridgeAction>)
        requires
            old(self).inv(),
            old(self).phase is Ready,
            old(self).surface_spec().counter.frame_count < u32::MAX,
            old(self).surface_spec().counter.last_printed_ms <= now_ms,
        ensures
            final(self).inv(),
            final(self).phase is Ready,
            final(self).cfg == old(self).cfg,
            final(self).surface == Some(step_surface(*old(self), now_ms)),
            actions@ == step_actions(*old(self), now_ms),
    {
        let mut actions: Vec<BridgeAction> = Vec::new();
        if self.cfg.immediate_redraw {
            if let Some(s0) = self.surface {
                let mut s = s0;
                if s.config.width > 0 && s.config.height > 0 {
                    let (redraw_op_vec, report) = s.redraw(now_ms);
                    push_backend(&mut actions, &redraw_op_vec);
                    if let Some(r) = report {
                        actions.push(BridgeAction::EmitFpsReport(r));
                    }
                    self.surface = Some(s);
                }
            }
        } else {
            actions.push(BridgeAction::SetNeedsDisplay);
        }
        proof {
            assert(actions@ =~= step_actions(*old(self), now_ms));
        }
        actions
    }

    /// View deallocation: remove the timer and notification registrations
    /// first — they must never outlive the view or its run loop — and
    /// only then release the GPU resources, in reverse-dependency order.
    pub fn teardown(&mut self) -> (actions: Vec<BridgeAction>)
        requires
            old(self).inv(),
            old(self).phase is Ready,
        ensures
            final(self).inv(),
            final(self).phase is TornDown,
            final(self).cfg == old(self).cfg,
            final(self).surface is None,
            actions@ == teardown_actions(old(self).cfg),
    {
        let mut actions: Vec<BridgeAction> = Vec::new();
        if self.cfg.display_link {
            actions.push(BridgeAction::RemoveDisplayLink);
        }
        match self.cfg.platform {
            Platform::Desktop => {
                actions.push(BridgeAction::RemoveFrameObserver);
            },
            Platform::Touch => {},
        }
        actions.push(BridgeAction::Backend(BackendOp::ReleasePipeline));
        actions.push(BridgeAction::Backend(BackendOp::ReleaseDevice));
        actions.push(BridgeAction::Backend(BackendOp::ReleaseSurface));
        actions.push(BridgeAction::Backend(BackendOp::ReleaseInstance));
        self.surface = None;
        self.phase = LifecyclePhase::TornDown;
        proof {
            assert(actions@ =~= teardown_actions(old(self).cfg));
        }
        actions
    }
}

/// Whether an action sequence contains a texture acquisition — the one
/// backend operation that fails against an unconfigured or zero-sized
/// surface.
pub open spec fn contains_acquire(acts: Seq<BridgeAction>) -> bool {
    exists|j: int| 0 <= j < acts.len() && acts[j] == BridgeAction::Backend(BackendOp::AcquireTexture)
}

/// Whether every texture acquisition in `acts` is preceded by a
/// reconfiguration to exactly the given dimensions.
pub open spec fn acquire_preceded_by_configure(
    acts: Seq<BridgeAction>,
    width_px: u32,
    height_px: u32,
    present_mode: PresentMode,
) -> bool {
    forall|j: int|
        0 <= j < acts.len() && acts[j] == BridgeAction::Backend(BackendOp::AcquireTexture)
            ==> exists|i: int|
            0 <= i < j && acts[i] == BridgeAction::Backend(
                BackendOp::Configure { width: width_px, height: height_px, present_mode },
            )
}

/// An action that cancels a callback registration.
pub open spec fn is_deregistration(a: BridgeAction) -> bool {
    a == BridgeAction::RemoveDisplayLink || a == BridgeAction::RemoveFrameObserver
}

/// An action that releases a GPU resource.
pub open spec fn is_resource_release(a: BridgeAction) -> bool {
    a == BridgeAction::Backend(BackendOp::ReleasePipeline) || a == BridgeAction::Backend(
        BackendOp::ReleaseDevice,
    ) || a == BridgeAction::Backend(BackendOp::ReleaseSurface) || a == BridgeAction::Backend(
        BackendOp::ReleaseInstance,
    )
}

/// Law (resize precedes redraw): when a resize event draws eagerly, the
/// frame is drawn against the configuration the event just installed,
/// never the prior one — every texture acquisition in the emitted actions
/// comes after a reconfiguration to exactly the event's dimensions.
pub proof fn lemma_resize_event_draws_new_size(
    b: PlatformViewBridge,
    width_px: u32,
    height_px: u32,
    scale_milli: u64,
    now_ms: u64,
)
    requires
        b.inv(),
        b.phase is Ready,
    ensures
        acquire_preceded_by_configure(
            resize_event_actions(b, width_px, height_px, scale_milli, now_ms),
            width_px,
            height_px,
            b.surface_spec().config.present_mode,
        ),
        resize_event_redraws(b.cfg, width_px, height_px) ==> resize_event_actions(
            b,
            width_px,
            height_px,
            scale_milli,
            now_ms,
        )[2] == BridgeAction::Backend(BackendOp::AcquireTexture),
{
    let acts = resize_event_actions(b, width_px, height_px, scale_milli, now_ms);
    let pm = b.surface_spec().config.present_mode;
    let conf = BridgeAction::Backend(
        BackendOp::Configure { width: width_px, height: height_px, present_mode: pm },
    );
    assert(acts[1] == conf);
    assert forall|j: int|
        0 <= j < acts.len() && acts[j] == BridgeAction::Backend(
            BackendOp::AcquireTexture,
        ) implies exists|i: int| 0 <= i < j && acts[i] == conf by {
        assert(acts[0] == BridgeAction::Backend(
            BackendOp::WriteUniform { value_milli: uniform_milli_of(width_px, scale_milli) },
        ));
        assert(j >= 2);
        assert(0 <= 1 < j && acts[1] == conf);
    }
}

/// Law (zero-size guard, paint): a paint callback against a zero-sized
/// configuration does nothing at all; in particular it never reaches the
/// backend.
pub proof fn lemma_paint_guards_zero_size(b: PlatformViewBridge, now_ms: u64)
    requires
        b.inv(),
        b.phase is Ready,
        !surface_drawable(b.surface_spec()),
    ensures
        paint_actions(b, now_ms) == Seq::<BridgeAction>::empty(),
{
}

/// Law (zero-size guard, timer): a vsync tick never acquires a texture
/// against a zero-sized configuration; at most it requests an OS-driven
/// paint.
pub proof fn lemma_step_guards_zero_size(b: PlatformViewBridge, now_ms: u64)
    requires
        b.inv(),
        b.phase is Ready,
        !surface_drawable(b.surface_spec()),
    ensures
        !contains_acquire(step_actions(b, now_ms)),
{
    let acts = step_actions(b, now_ms);
    assert forall|j: int| 0 <= j < acts.len() implies acts[j] != BridgeAction::Backend(
        BackendOp::AcquireTexture,
    ) by {
        if !b.cfg.immediate_redraw {
            assert(acts[j] == BridgeAction::SetNeedsDisplay);
        }
    }
}

/// Law (zero-size guard, resize): a resize event that installs a zero
/// dimension reconfigures the surface but never draws against it.
pub proof fn lemma_resize_event_guards_zero_size(
    b: PlatformViewBridge,
    width_px: u32,
    height_px: u32,
    scale_milli: u64,
    now_ms: u64,
)
    requires
        b.inv(),
        b.phase is Ready,
        width_px == 0 || height_px == 0,
    ensures
        !contains_acquire(resize_event_actions(b, width_px, height_px, scale_milli, now_ms)),
{
    let acts = resize_event_actions(b, width_px, height_px, scale_milli, now_ms);
    let pm = b.surface_spec().config.present_mode;
    assert forall|j: int| 0 <= j < acts.len() implies acts[j] != BridgeAction::Backend(
        BackendOp::AcquireTexture,
    ) by {
        assert(acts.len() == 2);
        assert(acts[0] == BridgeAction::Backend(
            BackendOp::WriteUniform { value_milli: uniform_milli_of(width_px, scale_milli) },
        ));
        assert(acts[1] == BridgeAction::Backend(
            BackendOp::Configure { width: width_px, height: height_px, present_mode: pm },
        ));
    }
}

/// Law (attach draws the size it configured): when attaching draws a
/// first frame eagerly, the texture acquisition comes after the surface
/// was configured to the attach dimensions.
pub proof fn lemma_attach_configures_before_draw(
    cfg: BuildConfig,
    width_px: u32,
    height_px: u32,
    scale_milli: u64,
)
    ensures
        acquire_preceded_by_configure(
            attach_actions(cfg, width_px, height_px, scale_milli),
            width_px,
            height_px,
            cfg.present_mode,
        ),
{
    let acts = attach_actions(cfg, width_px, height_px, scale_milli);
    let conf = BridgeAction::Backend(
        BackendOp::Configure { width: width_px, height: height_px, present_mode: cfg.present_mode },
    );
    assert(acts[7] == conf);
    assert forall|j: int|
        0 <= j < acts.len() && acts[j] == BridgeAction::Backend(
            BackendOp::AcquireTexture,
        ) implies exists|i: int| 0 <= i < j && acts[i] == conf by {
        if j < 8 {
            assert(acts[j] == backend_actions(
                create_ops(width_px, height_px, scale_milli, cfg.present_mode),
            )[j]);
            assert(create_ops(width_px, height_px, scale_milli, cfg.present_mode)[j]
                != BackendOp::AcquireTexture);
        }
        assert(j >= 8);
        assert(0 <= 7 < j && acts[7] == conf);
    }
}

/// Law (teardown order): in the actions of a teardown, every
/// deregistration comes strictly before every resource release, and the
/// releases themselves stand in reverse-dependency order: pipeline,
/// device and queue, surface, instance.
pub proof fn lemma_teardown_deregisters_before_release(cfg: BuildConfig)
    ensures
        forall|i: int, j: int|
            0 <= i < teardown_actions(cfg).len() && 0 <= j < teardown_actions(cfg).len()
                && is_deregistration(#[trigger] teardown_actions(cfg)[i]) && is_resource_release(
                #[trigger] teardown_actions(cfg)[j],
            ) ==> i < j,
        teardown_actions(cfg).subrange(
            teardown_actions(cfg).len() - 4,
            teardown_actions(cfg).len() as int,
        ) == backend_actions(release_ops()),
{
    let acts = teardown_actions(cfg);
    let releases = backend_actions(release_ops());
    let dereg_count: int = acts.len() - 4;
    assert(releases.len() == 4);
    assert(acts.subrange(dereg_count, acts.len() as int) =~= releases);
    assert forall|i: int, j: int|
        0 <= i < acts.len() && 0 <= j < acts.len() && is_deregistration(#[trigger] acts[i])
            && is_resource_release(#[trigger] acts[j]) implies i < j by {
        assert(i < dereg_count);
        assert(j >= dereg_count);
    }
}

} // verus!
