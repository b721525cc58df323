use triangle_renderer::frame::{
    clear_color, frame_plan, AcquireOutcome, ClearColor, DrawCall, FrameAction, FramePlan, Phase,
    PresentMode, Renderer, Stage, SurfaceConfig,
};

fn fixed_plan() -> FramePlan {
    FramePlan {
        clear: ClearColor { r_tenths: 1, g_tenths: 2, b_tenths: 3, a_tenths: 10 },
        vertex_slot: 0,
        draw: DrawCall { first_vertex: 0, vertex_count: 3, first_instance: 0, instance_count: 1 },
    }
}

/// Runs one frame in which every acquisition reports `outcomes` in turn, and
/// returns the actions taken.
fn run(r: &mut Renderer, outcomes: &[AcquireOutcome]) -> Vec<FrameAction> {
    let mut actions = vec![r.begin_frame()];
    let mut next = outcomes.iter();
    loop {
        match actions.last().unwrap() {
            FrameAction::Acquire | FrameAction::Reconfigure(_) => {
                let o = *next.next().expect("an outcome for each acquisition");
                actions.push(r.on_acquire(o));
            }
            _ => return actions,
        }
    }
}

fn draws(actions: &[FrameAction]) -> usize {
    actions.iter().filter(|a| matches!(a, FrameAction::Draw(_))).count()
}

#[test]
fn new_with_valid_size_is_configured() {
    let r = Renderer::new(800, 600, 1, 0);
    assert_eq!(r.phase, Phase::Configured);
    assert_eq!(r.stage, Stage::Idle);
    assert_eq!(r.size.width, 800);
    assert_eq!(r.size.height, 600);
    assert_eq!(
        r.surface_config(),
        Some(SurfaceConfig {
            width: 800,
            height: 600,
            format: 1,
            present_mode: PresentMode::Fifo,
            alpha_mode: 0,
            max_frame_latency: 2,
        })
    );
    assert_eq!(r.num_vertices, 3);
}

#[test]
fn new_with_zero_size_is_unconfigured() {
    let mut r = Renderer::new(0, 600, 0, 0);
    assert_eq!(r.phase, Phase::Unconfigured);
    assert_eq!(r.surface_config(), None);
    assert_eq!(run(&mut r, &[]), vec![FrameAction::Skip]);
}

#[test]
fn resize_sequence_stores_last_size() {
    let mut r = Renderer::new(800, 600, 0, 0);
    for (w, h) in [(1024u32, 768u32), (1, 1), (u32::MAX, 3), (640, 480)] {
        let c = r.resize(w, h).expect("a valid size configures the surface");
        assert_eq!((c.width, c.height), (w, h));
        assert_eq!((r.config.width, r.config.height), (w, h));
        assert_eq!((r.size.width, r.size.height), (w, h));
        assert_eq!(r.phase, Phase::Configured);
        assert_eq!(c.present_mode, PresentMode::Fifo);
        assert_eq!(c.max_frame_latency, 2);
    }
}

#[test]
fn zero_resize_keeps_config_and_skips() {
    for (w, h) in [(0u32, 600u32), (800, 0), (0, 0)] {
        let mut r = Renderer::new(800, 600, 0, 0);
        r.resize(1280, 720);
        assert_eq!(r.resize(w, h), None);
        assert_eq!(r.phase, Phase::Unconfigured);
        assert_eq!((r.config.width, r.config.height), (1280, 720));
        assert_eq!((r.size.width, r.size.height), (1280, 720));
        assert_eq!(run(&mut r, &[]), vec![FrameAction::Skip]);
        assert_eq!(r.on_acquire(AcquireOutcome::Acquired), FrameAction::Skip);
    }
}

#[test]
fn one_draw_per_successful_render() {
    let mut r = Renderer::new(800, 600, 0, 0);
    for _ in 0..5 {
        let actions = run(&mut r, &[AcquireOutcome::Acquired]);
        assert_eq!(actions, vec![FrameAction::Acquire, FrameAction::Draw(fixed_plan())]);
        assert_eq!(draws(&actions), 1);
        // A stray outcome after the frame draws nothing more.
        assert_eq!(r.on_acquire(AcquireOutcome::Acquired), FrameAction::Skip);
    }
}

#[test]
fn clear_color_is_fixed() {
    let c = clear_color();
    assert_eq!(c, ClearColor { r_tenths: 1, g_tenths: 2, b_tenths: 3, a_tenths: 10 });
    assert_eq!(c.r_tenths as f64 / 10.0, 0.1);
    assert_eq!(c.g_tenths as f64 / 10.0, 0.2);
    assert_eq!(c.b_tenths as f64 / 10.0, 0.3);
    assert_eq!(c.a_tenths as f64 / 10.0, 1.0);
    assert_eq!(frame_plan(3), fixed_plan());
    let mut r = Renderer::new(800, 600, 0, 0);
    let first = run(&mut r, &[AcquireOutcome::Acquired]);
    let second = run(&mut r, &[AcquireOutcome::Acquired]);
    assert_eq!(first, second);
}

#[test]
fn outdated_retries_once_then_drops_frame() {
    let mut r = Renderer::new(800, 600, 0, 0);
    let config = r.config;
    let actions = run(&mut r, &[AcquireOutcome::Outdated, AcquireOutcome::Outdated]);
    assert_eq!(
        actions,
        vec![FrameAction::Acquire, FrameAction::Reconfigure(config), FrameAction::DropFrame]
    );
    assert_eq!(r.phase, Phase::Configured);
    assert_eq!(r.stage, Stage::Idle);
    assert_eq!(r.begin_frame(), FrameAction::Acquire);
}

#[test]
fn lost_then_acquired_draws() {
    let mut r = Renderer::new(800, 600, 0, 0);
    let config = r.config;
    let actions = run(&mut r, &[AcquireOutcome::Lost, AcquireOutcome::Acquired]);
    assert_eq!(
        actions,
        vec![FrameAction::Acquire, FrameAction::Reconfigure(config), FrameAction::Draw(fixed_plan())]
    );
}

#[test]
fn timeout_twice_drops_frame() {
    let mut r = Renderer::new(800, 600, 0, 0);
    let actions = run(&mut r, &[AcquireOutcome::Timeout, AcquireOutcome::Lost]);
    assert_eq!(actions.last(), Some(&FrameAction::DropFrame));
    assert_eq!(draws(&actions), 0);
    assert_eq!(r.phase, Phase::Configured);
}

#[test]
fn out_of_memory_is_fatal() {
    let mut r = Renderer::new(800, 600, 0, 0);
    assert_eq!(
        run(&mut r, &[AcquireOutcome::OutOfMemory]),
        vec![FrameAction::Acquire, FrameAction::Fatal]
    );
    let mut r = Renderer::new(800, 600, 0, 0);
    let actions = run(&mut r, &[AcquireOutcome::Outdated, AcquireOutcome::OutOfMemory]);
    assert_eq!(actions.last(), Some(&FrameAction::Fatal));
}

#[test]
fn resize_render_scenario() {
    let mut r = Renderer::new(800, 600, 0, 0);
    assert_eq!(draws(&run(&mut r, &[AcquireOutcome::Acquired])), 1);
    assert_eq!(r.resize(0, 600), None);
    assert_eq!(run(&mut r, &[]), vec![FrameAction::Skip]);
    let c = r.resize(800, 600).unwrap();
    assert_eq!((c.width, c.height), (800, 600));
    let actions = run(&mut r, &[AcquireOutcome::Acquired]);
    assert_eq!(draws(&actions), 1);
    assert_eq!(actions[1], FrameAction::Draw(fixed_plan()));
}
