use render_bridge::bridge::BridgeAction;
use render_bridge::bridge::BuildConfig;
use render_bridge::bridge::PaintStyle;
use render_bridge::bridge::Platform;
use render_bridge::bridge::PlatformViewBridge;
use render_bridge::bridge::backing_pixel_size;
use render_bridge::surface::BackendOp;
use render_bridge::surface::PresentMode;

fn desktop_cfg() -> BuildConfig {
    BuildConfig {
        platform: Platform::Desktop,
        paint_style: PaintStyle::LayerBacked,
        present_mode: PresentMode::Vsync,
        immediate_redraw: false,
        display_link: false,
        queue_display: false,
    }
}

/// Test double for the backend: walks an action list and records the
/// configuration in effect at the moment each texture acquisition
/// happens.
fn configs_at_acquire(actions: &[BridgeAction], initial: Option<(u32, u32)>) -> Vec<(u32, u32)> {
    let mut current = initial;
    let mut recorded = Vec::new();
    for a in actions {
        match a {
            BridgeAction::Backend(BackendOp::Configure { width, height, .. }) => {
                current = Some((*width, *height));
            }
            BridgeAction::Backend(BackendOp::AcquireTexture) => {
                recorded.push(current.expect("acquire before any configure"));
            }
            _ => {}
        }
    }
    recorded
}

#[test]
fn attach_creates_then_registers_desktop_notifications() {
    let mut b = PlatformViewBridge::new(desktop_cfg());
    let actions = b.attach(1024, 768, 1000, 0);
    assert_eq!(actions.len(), 9);
    assert_eq!(actions[0], BridgeAction::Backend(BackendOp::CreateInstance));
    assert_eq!(
        actions[7],
        BridgeAction::Backend(BackendOp::Configure {
            width: 1024,
            height: 768,
            present_mode: PresentMode::Vsync,
        })
    );
    assert_eq!(actions[8], BridgeAction::RegisterFrameNotifications);
}

#[test]
fn attach_touch_with_display_link_attaches_timer() {
    let cfg = BuildConfig {
        platform: Platform::Touch,
        display_link: true,
        ..desktop_cfg()
    };
    let mut b = PlatformViewBridge::new(cfg);
    let actions = b.attach(390, 844, 3000, 0);
    // No desktop notification subscription on the touch toolkit.
    assert!(!actions.contains(&BridgeAction::RegisterFrameNotifications));
    assert_eq!(actions.last(), Some(&BridgeAction::AttachDisplayLink));
}

#[test]
fn attach_immediate_redraw_draws_first_frame_after_configure() {
    let cfg = BuildConfig { immediate_redraw: true, ..desktop_cfg() };
    let mut b = PlatformViewBridge::new(cfg);
    let actions = b.attach(800, 600, 2000, 0);
    let seen = configs_at_acquire(&actions, None);
    assert_eq!(seen, vec![(800, 600)]);
}

#[test]
fn paint_draws_one_frame() {
    let mut b = PlatformViewBridge::new(desktop_cfg());
    b.attach(640, 480, 1000, 0);
    let actions = b.paint(16);
    assert_eq!(
        actions,
        vec![
            BridgeAction::Backend(BackendOp::AcquireTexture),
            BridgeAction::Backend(BackendOp::BeginRenderPass),
            BridgeAction::Backend(BackendOp::Draw { vertex_count: 3 }),
            BridgeAction::Backend(BackendOp::Submit),
            BridgeAction::Backend(BackendOp::Present),
        ]
    );
}

#[test]
fn paint_queues_deferred_repaint_when_configured() {
    let cfg = BuildConfig { queue_display: true, ..desktop_cfg() };
    let mut b = PlatformViewBridge::new(cfg);
    b.attach(640, 480, 1000, 0);
    let actions = b.paint(16);
    assert_eq!(actions.last(), Some(&BridgeAction::QueueSetNeedsDisplay));
}

#[test]
fn paint_skips_zero_sized_configuration() {
    let mut b = PlatformViewBridge::new(desktop_cfg());
    b.attach(640, 480, 1000, 0);
    b.resize_event(0, 480, 1000, 10);
    let actions = b.paint(16);
    assert!(actions.is_empty());
}

#[test]
fn resize_event_reconfigures_before_eager_redraw() {
    let cfg = BuildConfig { immediate_redraw: true, ..desktop_cfg() };
    let mut b = PlatformViewBridge::new(cfg);
    b.attach(800, 600, 2000, 0);
    let actions = b.resize_event(1600, 1200, 2000, 20);
    // The frame drawn by the resize callback observes the new
    // dimensions, never the prior ones.
    let seen = configs_at_acquire(&actions, Some((800, 600)));
    assert_eq!(seen, vec![(1600, 1200)]);
}

#[test]
fn resize_event_under_display_link_defers_drawing() {
    let cfg = BuildConfig {
        immediate_redraw: true,
        display_link: true,
        ..desktop_cfg()
    };
    let mut b = PlatformViewBridge::new(cfg);
    b.attach(800, 600, 2000, 0);
    let actions = b.resize_event(1600, 1200, 2000, 20);
    // Timer-driven builds leave the drawing to the next tick.
    assert_eq!(
        actions,
        vec![
            BridgeAction::Backend(BackendOp::WriteUniform { value_milli: 800_000 }),
            BridgeAction::Backend(BackendOp::Configure {
                width: 1600,
                height: 1200,
                present_mode: PresentMode::Vsync,
            }),
        ]
    );
}

#[test]
fn resize_event_to_zero_size_never_draws() {
    let cfg = BuildConfig { immediate_redraw: true, ..desktop_cfg() };
    let mut b = PlatformViewBridge::new(cfg);
    b.attach(800, 600, 2000, 0);
    let actions = b.resize_event(800, 0, 2000, 20);
    assert!(configs_at_acquire(&actions, Some((800, 600))).is_empty());
}

#[test]
fn display_link_step_draws_directly_in_eager_mode() {
    let cfg = BuildConfig {
        immediate_redraw: true,
        display_link: true,
        ..desktop_cfg()
    };
    let mut b = PlatformViewBridge::new(cfg);
    b.attach(800, 600, 2000, 0);
    let actions = b.display_link_step(16);
    assert_eq!(actions[0], BridgeAction::Backend(BackendOp::AcquireTexture));
}

#[test]
fn display_link_step_defers_to_os_paint_otherwise() {
    let cfg = BuildConfig { display_link: true, ..desktop_cfg() };
    let mut b = PlatformViewBridge::new(cfg);
    b.attach(800, 600, 2000, 0);
    let actions = b.display_link_step(16);
    assert_eq!(actions, vec![BridgeAction::SetNeedsDisplay]);
}

#[test]
fn overlapping_triggers_may_draw_one_redundant_frame() {
    // A resize-driven eager frame and a timer tick are independent by
    // design: two frames for one resize is accepted, not deduplicated.
    let cfg = BuildConfig { immediate_redraw: true, ..desktop_cfg() };
    let mut b = PlatformViewBridge::new(cfg);
    b.attach(800, 600, 2000, 0);
    let resize_actions = b.resize_event(1600, 1200, 2000, 20);
    let paint_actions = b.paint(21);
    let acquires = |acts: &[BridgeAction]| {
        acts.iter()
            .filter(|a| **a == BridgeAction::Backend(BackendOp::AcquireTexture))
            .count()
    };
    assert_eq!(acquires(&resize_actions) + acquires(&paint_actions), 2);
}

#[test]
fn teardown_deregisters_before_releasing_gpu_resources() {
    let cfg = BuildConfig {
        immediate_redraw: true,
        display_link: true,
        ..desktop_cfg()
    };
    let mut b = PlatformViewBridge::new(cfg);
    b.attach(800, 600, 2000, 0);
    let actions = b.teardown();

    // Test double: every deregistration must strictly precede every
    // resource release.
    let is_dereg = |a: &BridgeAction| {
        *a == BridgeAction::RemoveDisplayLink || *a == BridgeAction::RemoveFrameObserver
    };
    let is_release = |a: &BridgeAction| {
        matches!(
            a,
            BridgeAction::Backend(
                BackendOp::ReleasePipeline
                | BackendOp::ReleaseDevice
                | BackendOp::ReleaseSurface
                | BackendOp::ReleaseInstance
            )
        )
    };
    let last_dereg = actions.iter().rposition(|a| is_dereg(a)).expect("deregistrations present");
    let first_release = actions.iter().position(|a| is_release(a)).expect("releases present");
    assert!(last_dereg < first_release);

    // Releases stand in reverse-dependency order.
    assert_eq!(
        &actions[first_release..],
        &[
            BridgeAction::Backend(BackendOp::ReleasePipeline),
            BridgeAction::Backend(BackendOp::ReleaseDevice),
            BridgeAction::Backend(BackendOp::ReleaseSurface),
            BridgeAction::Backend(BackendOp::ReleaseInstance),
        ]
    );
}

#[test]
fn teardown_on_touch_without_timer_only_releases() {
    let cfg = BuildConfig { platform: Platform::Touch, ..desktop_cfg() };
    let mut b = PlatformViewBridge::new(cfg);
    b.attach(390, 844, 3000, 0);
    let actions = b.teardown();
    assert_eq!(actions.len(), 4);
    assert_eq!(actions[0], BridgeAction::Backend(BackendOp::ReleasePipeline));
}

#[test]
fn wants_update_layer_follows_paint_style() {
    let layer = PlatformViewBridge::new(desktop_cfg());
    assert!(layer.wants_update_layer());
    let immediate = PlatformViewBridge::new(BuildConfig {
        paint_style: PaintStyle::ImmediateMode,
        ..desktop_cfg()
    });
    assert!(!immediate.wants_update_layer());
}

#[test]
fn backing_pixel_size_scales_logical_points() {
    // 800.0 logical points at backing scale 2.0: 1600 device pixels.
    assert_eq!(backing_pixel_size(800_000, 2000), 1600);
    // Fractional results truncate to whole pixels: 10.5 points at 1.0.
    assert_eq!(backing_pixel_size(10_500, 1000), 10);
    // Scale 1.0 passes the size through.
    assert_eq!(backing_pixel_size(1_024_000, 1000), 1024);
}

#[test]
fn end_to_end_uniform_tracks_logical_width() {
    // Create at 800x600 scale 2.0, resize to 1600x1200 scale 2.0: the
    // uniform goes from 400.0 to 800.0.
    let cfg = desktop_cfg();
    let mut b = PlatformViewBridge::new(cfg);
    let create_actions = b.attach(800, 600, 2000, 0);
    assert!(create_actions
        .contains(&BridgeAction::Backend(BackendOp::CreateUniformBuffer { value_milli: 400_000 })));
    let resize_actions = b.resize_event(1600, 1200, 2000, 100);
    assert_eq!(
        resize_actions[0],
        BridgeAction::Backend(BackendOp::WriteUniform { value_milli: 800_000 })
    );
}
