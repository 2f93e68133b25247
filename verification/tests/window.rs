use swerve_sim_3d::camera::{CameraController, KeyCode};
use swerve_sim_3d::window::{frame_outcome, handle_key, CurrentSurfaceTexture, FrameOutcome, SurfaceState};

#[test]
fn a_new_surface_is_not_configured() {
    let s = SurfaceState::new(800, 600);
    assert_eq!(s, SurfaceState { width: 800, height: 600, is_surface_configured: false });
}

#[test]
fn resize_records_a_nonzero_size() {
    let mut s = SurfaceState::new(800, 600);
    assert!(s.resize(1024, 768));
    assert_eq!(s, SurfaceState { width: 1024, height: 768, is_surface_configured: true });
}

#[test]
fn resize_ignores_a_zero_side() {
    let mut s = SurfaceState::new(800, 600);
    assert!(!s.resize(0, 768));
    assert!(!s.resize(1024, 0));
    assert_eq!(s, SurfaceState::new(800, 600));
}

#[test]
fn frame_outcomes() {
    assert!(matches!(
        frame_outcome(CurrentSurfaceTexture::Success(7)),
        FrameOutcome::Draw { texture: 7, reconfigure: false }
    ));
    assert!(matches!(
        frame_outcome(CurrentSurfaceTexture::Suboptimal(8)),
        FrameOutcome::Draw { texture: 8, reconfigure: true }
    ));
    for t in [
        CurrentSurfaceTexture::<u8>::Timeout,
        CurrentSurfaceTexture::Occluded,
        CurrentSurfaceTexture::Validation,
    ] {
        assert!(matches!(frame_outcome(t), FrameOutcome::Skip { reconfigure: false }));
    }
    assert!(matches!(
        frame_outcome(CurrentSurfaceTexture::<u8>::Outdated),
        FrameOutcome::Skip { reconfigure: true }
    ));
    assert!(matches!(frame_outcome(CurrentSurfaceTexture::<u8>::Lost), FrameOutcome::Lost));
}

#[test]
fn escape_closes_the_window() {
    let mut c = CameraController::new(0.2f32, 0.05f32);
    assert!(handle_key(&mut c, KeyCode::Escape, true));
    assert!(!handle_key(&mut c, KeyCode::Escape, false));
    assert!(!handle_key(&mut c, KeyCode::KeyW, true));
    assert!(c.is_forward_pressed);
}
