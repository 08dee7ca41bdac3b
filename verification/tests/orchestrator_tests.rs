use framehost::clamp_dim;
use framehost::depth::DepthFormat;
use framehost::orchestrator::AcquireOutcome;
use framehost::orchestrator::FrameOrchestrator;
use framehost::orchestrator::FrameState;
use framehost::uniform::FRAME_COUNTER_OFFSET;

fn ortho_words(width: u32, height: u32) -> [u32; 16] {
    let aspect = width as f32 / height as f32;
    let m = glam::Mat4::orthographic_lh(0.0, aspect, 0.0, 1.0, 0.0, 100.0);
    m.to_cols_array().map(f32::to_bits)
}

fn orchestrator(width: u32, height: u32) -> FrameOrchestrator {
    let w = clamp_dim(width);
    let h = clamp_dim(height);
    FrameOrchestrator::new(width, height, 7, 36, ortho_words(w, h))
}

/// Drive one whole successful frame and return the plan's uniform bytes.
fn one_frame(o: &mut FrameOrchestrator, delta: u64) -> Vec<u8> {
    o.begin_frame(delta);
    let plan = o.resolve_acquire(AcquireOutcome::Acquired).expect("acquired");
    o.submit_frame();
    o.present_frame();
    o.end_frame();
    plan.uniform_block
}

#[test]
fn resize_scenario_updates_depth_and_projection() {
    // Start at 1280×720, resize to 640×480: the depth target follows
    // the surface exactly and the projection ratio becomes 640/480;
    // the next frame records with matching dimensions.
    let mut o = orchestrator(1280, 720);
    assert_eq!((o.depth.width, o.depth.height), (1280, 720));
    o.handle_resize(640, 480, ortho_words(640, 480));
    assert_eq!((o.surface.width, o.surface.height), (640, 480));
    assert_eq!((o.depth.width, o.depth.height), (640, 480));
    assert_eq!(o.depth.format, DepthFormat::Depth32Float);
    assert_eq!(o.depth.mip_level_count, 1);
    assert_eq!(o.depth.sample_count, 1);
    assert_eq!(o.channel.cpu.proj.num, 640);
    assert_eq!(o.channel.cpu.proj.den, 480);
    // 640/480 = 4/3 ≈ 1.333 exactly as a ratio.
    assert_eq!(o.channel.cpu.proj.num * 3, o.channel.cpu.proj.den * 4);

    o.begin_frame(16_000);
    let plan = o.resolve_acquire(AcquireOutcome::Acquired).expect("acquired");
    let scene = &plan.stream.passes[0];
    let depth = scene.depth.as_ref().expect("depth attachment");
    // No dimension mismatch: color target and depth target agree.
    assert_eq!((scene.color.width, scene.color.height), (640, 480));
    assert_eq!((depth.width, depth.height), (640, 480));
}

#[test]
fn resize_clamps_zero_dimensions() {
    let mut o = orchestrator(1280, 720);
    o.handle_resize(0, 0, ortho_words(1, 1));
    assert_eq!((o.surface.width, o.surface.height), (1, 1));
    assert_eq!((o.depth.width, o.depth.height), (1, 1));
    assert_eq!(o.channel.cpu.proj.num, 1);
    assert_eq!(o.channel.cpu.proj.den, 1);
}

#[test]
fn repeated_resize_is_idempotent() {
    // Configuring twice with identical dimensions leaves surface and
    // depth target bit-identical to configuring once.
    let mut a = orchestrator(800, 600);
    let mut b = orchestrator(800, 600);
    let first = a.handle_resize(333, 222, ortho_words(333, 222));
    let _ = b.handle_resize(333, 222, ortho_words(333, 222));
    let second = b.handle_resize(333, 222, ortho_words(333, 222));
    assert_eq!((a.surface.width, a.surface.height), (b.surface.width, b.surface.height));
    assert_eq!((a.depth.width, a.depth.height), (b.depth.width, b.depth.height));
    assert_eq!(a.surface.format, b.surface.format);
    assert_eq!(a.channel.cpu.proj.num, b.channel.cpu.proj.num);
    assert_eq!(a.channel.cpu.proj.den, b.channel.cpu.proj.den);
    assert_eq!(first, second, "the flushed block is bit-identical");
}

#[test]
fn frame_counter_advances_by_one_per_successful_frame() {
    // Over five consecutive successful frames the GPU-visible counter
    // increases by exactly five, one step per frame.
    let mut o = orchestrator(1280, 720);
    assert_eq!(o.channel.device.time, 0);
    for n in 1u32..=5 {
        let bytes = one_frame(&mut o, 16_000);
        assert_eq!(o.channel.device.time, n);
        assert_eq!(
            &bytes[FRAME_COUNTER_OFFSET..FRAME_COUNTER_OFFSET + 4],
            &n.to_le_bytes()
        );
    }
}

#[test]
fn unavailable_surface_skips_frame_whole() {
    // The transient failure: nothing is drawn, nothing advances, and
    // the orchestrator is back at idle for the next event.
    let mut o = orchestrator(1280, 720);
    o.begin_frame(16_000);
    assert_eq!(o.state, FrameState::Acquiring);
    let plan = o.resolve_acquire(AcquireOutcome::Unavailable);
    assert!(plan.is_none());
    assert_eq!(o.state, FrameState::Idle);
    assert_eq!(o.channel.cpu.time, 0);
    assert_eq!(o.channel.device.time, 0);
    // The next frame succeeds normally.
    let bytes = one_frame(&mut o, 16_000);
    assert_eq!(o.channel.device.time, 1);
    assert_eq!(bytes.len(), 96);
}

#[test]
fn state_machine_walks_the_five_states() {
    let mut o = orchestrator(320, 240);
    assert_eq!(o.state, FrameState::Idle);
    o.begin_frame(1_000);
    assert_eq!(o.state, FrameState::Acquiring);
    o.resolve_acquire(AcquireOutcome::Acquired).expect("acquired");
    assert_eq!(o.state, FrameState::Recording);
    o.submit_frame();
    assert_eq!(o.state, FrameState::Submitted);
    o.present_frame();
    assert_eq!(o.state, FrameState::Presented);
    o.end_frame();
    assert_eq!(o.state, FrameState::Idle);
}

#[test]
fn begin_frame_hands_delta_to_overlay_timing() {
    let mut o = orchestrator(320, 240);
    let delta = o.begin_frame(12_345);
    assert_eq!(delta, 12_345);
    assert_eq!(o.clock.accumulated_micros, 12_345);
}
