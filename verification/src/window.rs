//! Decisions of the debug window: when the drawing surface must be
//! configured, what to do with the texture the surface hands out for a
//! frame, and which key closes the window.
use crate::camera::{CameraController, KeyCode};
use vstd::prelude::*;

verus! {

/// The size of the drawing surface and whether it has been configured.
#[derive(Clone, Copy, Debug, PartialEq, Eq, Structural)]
pub struct SurfaceState {
    pub width: u32,
    pub height: u32,
    pub is_surface_configured: bool,
}

impl SurfaceState {
    /// The surface of a new window of the given size, not configured yet.
    pub fn new(width: u32, height: u32) -> (state: Self)
        ensures
            state.width == width,
            state.height == height,
            !state.is_surface_configured,
    {
        SurfaceState { width, height, is_surface_configured: false }
    }

    /// Takes a new window size. A size with a zero side is ignored; any
    /// other size is recorded and the surface counts as configured. Returns
    /// whether the surface must be configured anew with the recorded size.
    pub fn resize(&mut self, width: u32, height: u32) -> (reconfigure: bool)
        ensures
            reconfigure == (width > 0 && height > 0),
            reconfigure ==> *final(self) == (SurfaceState {
                width,
                height,
                is_surface_configured: true,
            }),
            !reconfigure ==> *final(self) == *old(self),
    {
        if width > 0 && height > 0 {
            self.width = width;
            self.height = height;
            self.is_surface_configured = true;
            true
        } else {
            false
        }
    }
}

/// What the surface hands out when a frame is requested; `T` is the
/// texture to draw into.
#[derive(Debug)]
pub enum CurrentSurfaceTexture<T> {
    Success(T),
    Suboptimal(T),
    Timeout,
    Occluded,
    Validation,
    Outdated,
    Lost,
}

/// What the window does with a frame.
#[derive(Debug)]
pub enum FrameOutcome<T> {
    /// Draw into `texture`, configuring the surface anew first when
    /// `reconfigure` is set.
    Draw { texture: T, reconfigure: bool },
    /// Draw nothing this frame, configuring the surface anew when
    /// `reconfigure` is set.
    Skip { reconfigure: bool },
    /// The device is lost: rendering fails.
    Lost,
}

/// Decides a frame from the surface's answer: a texture is drawn into (a
/// suboptimal one after configuring the surface anew), a timed-out,
/// occluded or invalid frame is skipped, an outdated surface is configured
/// anew and the frame skipped, and a lost surface ends rendering with an
/// error.
pub fn frame_outcome<T>(texture: CurrentSurfaceTexture<T>) -> (outcome: FrameOutcome<T>)
    ensures
        match texture {
            CurrentSurfaceTexture::Success(t) => outcome == FrameOutcome::Draw {
                texture: t,
                reconfigure: false,
            },
            CurrentSurfaceTexture::Suboptimal(t) => outcome == FrameOutcome::Draw {
                texture: t,
                reconfigure: true,
            },
            CurrentSurfaceTexture::Timeout => outcome == FrameOutcome::<T>::Skip {
                reconfigure: false,
            },
            CurrentSurfaceTexture::Occluded => outcome == FrameOutcome::<T>::Skip {
                reconfigure: false,
            },
            CurrentSurfaceTexture::Validation => outcome == FrameOutcome::<T>::Skip {
                reconfigure: false,
            },
            CurrentSurfaceTexture::Outdated => outcome == FrameOutcome::<T>::Skip {
                reconfigure: true,
            },
            CurrentSurfaceTexture::Lost => outcome == FrameOutcome::<T>::Lost,
        },
{
    match texture {
        CurrentSurfaceTexture::Success(t) => FrameOutcome::Draw { texture: t, reconfigure: false },
        CurrentSurfaceTexture::Suboptimal(t) => FrameOutcome::Draw { texture: t, reconfigure: true },
        CurrentSurfaceTexture::Timeout
        | CurrentSurfaceTexture::Occluded
        | CurrentSurfaceTexture::Validation => FrameOutcome::Skip { reconfigure: false },
        CurrentSurfaceTexture::Outdated => FrameOutcome::Skip { reconfigure: true },
        CurrentSurfaceTexture::Lost => FrameOutcome::Lost,
    }
}

/// Passes a key event to the camera controller and says whether the window
/// must close: it closes when Escape goes down.
pub fn handle_key<S>(controller: &mut CameraController<S>, code: KeyCode, is_pressed: bool) -> (exit:
    bool)
    ensures
        *final(controller) == old(controller).with_key(code, is_pressed),
        exit == (code == KeyCode::Escape && is_pressed),
{
    controller.handle_key(code, is_pressed);
    match code {
        KeyCode::Escape => is_pressed,
        _ => false,
    }
}

} // verus!
