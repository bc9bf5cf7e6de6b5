use two_pass_renderer::{Command, FrameError, PassDestination, Renderer, UniformRecord};
use two_pass_renderer::command::init_target_bytes;

fn expected_commands(width: u32, height: u32) -> Vec<Command> {
    let resolution = width.max(height);
    vec![
        Command::InitTargetZero { width, height, bytes_per_row: width * 4 },
        Command::WriteUniform(UniformRecord { pass_index: 0, resolution }),
        Command::DrawPass {
            source_target: 0,
            destination: PassDestination::Target(1),
            vertices: 3,
            instances: 1,
        },
        Command::WriteUniform(UniformRecord { pass_index: 1, resolution }),
        Command::DrawPass {
            source_target: 1,
            destination: PassDestination::Surface,
            vertices: 3,
            instances: 1,
        },
        Command::Submit,
        Command::Present,
    ]
}

#[test]
fn initialize_then_render_one_frame() {
    let mut r = Renderer::new(800, 600);
    assert_eq!(r.config.width, 800);
    assert_eq!(r.config.height, 600);
    assert_eq!(r.targets.len(), 2);
    for t in &r.targets {
        assert_eq!(t.width, 800);
        assert_eq!(t.height, 600);
    }
    let cmds = r.render(true).expect("frame should render");
    assert_eq!(cmds, expected_commands(800, 600));
    assert_eq!(r.frame, 1);
}

#[test]
fn zero_request_clamps_to_one() {
    let mut r = Renderer::new(800, 600);
    r.resize(0, 0);
    assert_eq!(r.config.width, 1);
    assert_eq!(r.config.height, 1);
    for t in &r.targets {
        assert_eq!(t.width, 1);
        assert_eq!(t.height, 1);
    }
}

#[test]
fn mid_session_resize_rebuilds_both_targets() {
    let mut r = Renderer::new(800, 600);
    let old = [r.targets[0], r.targets[1]];
    r.resize(1920, 1080);
    for t in &r.targets {
        assert_eq!(t.width, 1920);
        assert_eq!(t.height, 1080);
        for o in &old {
            assert_ne!(t.generation, o.generation);
        }
    }
    let cmds = r.render(true).expect("frame should render after resize");
    assert_eq!(cmds, expected_commands(1920, 1080));
    assert_eq!(r.frame, 1);
}

#[test]
fn failed_acquisition_skips_the_frame() {
    let mut r = Renderer::new(640, 480);
    assert_eq!(r.render(false), Err(FrameError::AcquireFailed));
    assert_eq!(r.frame, 0);
    let cmds = r.render(true).expect("retry should render");
    assert_eq!(cmds, expected_commands(640, 480));
    assert_eq!(r.frame, 1);
}

#[test]
fn repeated_resize_with_unchanged_size_is_fresh() {
    let mut r = Renderer::new(300, 200);
    r.resize(300, 200);
    let first = [r.targets[0], r.targets[1]];
    r.resize(300, 200);
    for t in &r.targets {
        assert_eq!(t.width, 300);
        assert_eq!(t.height, 200);
        for f in &first {
            assert_ne!(t.generation, f.generation);
        }
    }
    assert_ne!(r.targets[0].generation, r.targets[1].generation);
}

#[test]
fn uniform_writes_precede_their_passes() {
    let mut r = Renderer::new(1024, 768);
    let cmds = r.render(true).expect("frame should render");
    let mut draws_seen: u32 = 0;
    for (j, c) in cmds.iter().enumerate() {
        if let Command::DrawPass { source_target, .. } = c {
            assert!(j >= 1);
            match cmds[j - 1] {
                Command::WriteUniform(u) => {
                    assert_eq!(u.pass_index, draws_seen);
                    assert_eq!(u.resolution, 1024);
                }
                _ => panic!("draw pass not preceded by a uniform write"),
            }
            // the pass reading a target comes after a write of it
            let wrote_earlier = cmds[..j].iter().any(|e| match e {
                Command::InitTargetZero { .. } => *source_target == 0,
                Command::DrawPass { destination, .. } => {
                    *destination == PassDestination::Target(*source_target)
                }
                _ => false,
            });
            assert!(wrote_earlier);
            draws_seen += 1;
        }
    }
    assert_eq!(draws_seen, 2);
}

#[test]
fn frame_counter_counts_presented_frames_only() {
    let mut r = Renderer::new(16, 16);
    assert_eq!(r.frame, 0);
    r.render(true).unwrap();
    r.render(false).unwrap_err();
    r.render(true).unwrap();
    r.render(true).unwrap();
    assert_eq!(r.frame, 3);
}

#[test]
fn init_payload_is_all_zero_with_exact_size() {
    let bytes = init_target_bytes(3, 2);
    assert_eq!(bytes.len(), 3 * 2 * 4);
    assert!(bytes.iter().all(|b| *b == 0));
    let bytes = init_target_bytes(1, 1);
    assert_eq!(bytes.len(), 4);
    assert!(bytes.iter().all(|b| *b == 0));
}
