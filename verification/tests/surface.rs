use render_bridge::surface::BackendOp;
use render_bridge::surface::PresentMode;
use render_bridge::surface::RenderSurface;
use render_bridge::surface::uniform_value_milli;

#[test]
fn create_seeds_uniform_from_scaled_width() {
    // 800 px wide at backing scale 2.0: the uniform holds the logical
    // width, 400.0, carried in thousandths.
    let (s, _ops) = RenderSurface::create(800, 600, 2000, PresentMode::Vsync, 0);
    assert_eq!(s.uniform_milli, 400_000);
    assert_eq!(s.uniform_milli as f32 / 1000.0, 400.0);
    assert_eq!(s.config.width, 800);
    assert_eq!(s.config.height, 600);
    assert_eq!(s.config.present_mode, PresentMode::Vsync);
}

#[test]
fn resize_updates_uniform_and_config() {
    let (mut s, _ops) = RenderSurface::create(800, 600, 2000, PresentMode::Vsync, 0);
    let ops = s.resize(1600, 1200, 2000);
    assert_eq!(s.uniform_milli, 800_000);
    assert_eq!(s.uniform_milli as f32 / 1000.0, 800.0);
    assert_eq!(s.config.width, 1600);
    assert_eq!(s.config.height, 1200);
    assert_eq!(
        ops,
        vec![
            BackendOp::WriteUniform { value_milli: 800_000 },
            BackendOp::Configure { width: 1600, height: 1200, present_mode: PresentMode::Vsync },
        ]
    );
}

#[test]
fn resize_sequence_last_write_wins() {
    let (mut s, _ops) = RenderSurface::create(100, 100, 1000, PresentMode::Immediate, 0);
    let calls: [(u32, u32, u64); 4] = [(300, 200, 1000), (1, 1, 2000), (640, 480, 1500), (1920, 1080, 2000)];
    for (w, h, sc) in calls {
        s.resize(w, h, sc);
    }
    assert_eq!(s.config.width, 1920);
    assert_eq!(s.config.height, 1080);
    assert_eq!(s.scale_milli, 2000);
    assert_eq!(s.uniform_milli, 1920 * 1_000_000 / 2000);
    // The presentation mode chosen at creation is untouched.
    assert_eq!(s.config.present_mode, PresentMode::Immediate);
}

#[test]
fn resize_twice_is_idempotent() {
    let (mut once, _) = RenderSurface::create(50, 50, 1000, PresentMode::Vsync, 0);
    let (mut twice, _) = RenderSurface::create(50, 50, 1000, PresentMode::Vsync, 0);
    once.resize(100, 100, 1000);
    twice.resize(100, 100, 1000);
    twice.resize(100, 100, 1000);
    assert_eq!(once, twice);
}

#[test]
fn resize_then_redraw_draws_without_failure() {
    let (mut s, _) = RenderSurface::create(320, 240, 1000, PresentMode::Vsync, 0);
    s.resize(640, 480, 1000);
    // The configuration is drawable again, so a redraw is permitted and
    // produces a full frame.
    let (ops, report) = s.redraw(16);
    assert_eq!(
        ops,
        vec![
            BackendOp::AcquireTexture,
            BackendOp::BeginRenderPass,
            BackendOp::Draw { vertex_count: 3 },
            BackendOp::Submit,
            BackendOp::Present,
        ]
    );
    assert!(report.is_none());
    assert_eq!(s.counter.frame_count, 1);
    assert_eq!(s.config.width, 640);
}

#[test]
fn create_emits_backend_setup_in_order() {
    let (_s, ops) = RenderSurface::create(800, 600, 2000, PresentMode::Vsync, 0);
    assert_eq!(
        ops,
        vec![
            BackendOp::CreateInstance,
            BackendOp::CreateSurface,
            BackendOp::RequestAdapter,
            BackendOp::RequestDevice,
            BackendOp::CreateShaderModule,
            BackendOp::CreateUniformBuffer { value_milli: 400_000 },
            BackendOp::CreatePipeline,
            BackendOp::Configure { width: 800, height: 600, present_mode: PresentMode::Vsync },
        ]
    );
}

#[test]
fn uniform_value_truncates_to_thousandths() {
    // 485 px at scale 1.33: 364661.654... truncated to thousandths.
    assert_eq!(uniform_value_milli(485, 1330), 485 * 1_000_000 / 1330);
    // Scale 1.0 passes the width through.
    assert_eq!(uniform_value_milli(1024, 1000), 1_024_000);
}
