use vstd::prelude::*;

verus! {

/// A size in physical pixels.
#[derive(Clone, Copy, Debug, PartialEq, Eq, Structural)]
pub struct Extent {
    pub width: u32,
    pub height: u32,
}

/// A window event, reduced to what the renderer reacts to.
#[derive(Clone, Copy, Debug, PartialEq, Eq, Structural)]
pub enum WindowEventKind {
    CloseRequested,
    /// The window's client area now has this size, in physical pixels.
    Resized { width: u32, height: u32 },
    ScaleFactorChanged,
    RedrawRequested,
    /// Any event the renderer does not react to.
    Other,
}

/// What the renderer does about a window event.
#[derive(Clone, Copy, Debug, PartialEq, Eq, Structural)]
pub enum WindowEventResponse {
    /// Nothing.
    Ignore,
    /// Leave the event loop.
    Exit,
    /// Reconfigure the surface for the given size, or for the window's current inner
    /// size where none is given, then ask for a redraw.
    Reconfigure { size: Option<Extent> },
    /// Render and present a frame, then ask for the next redraw.
    Render,
}

/// The response to a window event: nothing before the GPU is set up; otherwise exit on
/// a close request, reconfigure on a resize or a change of scale factor (with the new
/// size in the first case and the window's inner size in the second), and render on a
/// redraw request.
pub open spec fn spec_window_event_response(
    initialized: bool,
    event: WindowEventKind,
) -> WindowEventResponse {
    if !initialized {
        WindowEventResponse::Ignore
    } else {
        match event {
            WindowEventKind::CloseRequested => WindowEventResponse::Exit,
            WindowEventKind::Resized { width, height } => WindowEventResponse::Reconfigure {
                size: Some(Extent { width, height }),
            },
            WindowEventKind::ScaleFactorChanged => WindowEventResponse::Reconfigure { size: None },
            WindowEventKind::RedrawRequested => WindowEventResponse::Render,
            WindowEventKind::Other => WindowEventResponse::Ignore,
        }
    }
}

/// Decides what to do about a window event; see `spec_window_event_response`.
pub fn window_event_response(initialized: bool, event: WindowEventKind) -> (response:
    WindowEventResponse)
    ensures
        response == spec_window_event_response(initialized, event),
{
    if !initialized {
        return WindowEventResponse::Ignore;
    }
    match event {
        WindowEventKind::CloseRequested => WindowEventResponse::Exit,
        WindowEventKind::Resized { width, height } => WindowEventResponse::Reconfigure {
            size: Some(Extent { width, height }),
        },
        WindowEventKind::ScaleFactorChanged => WindowEventResponse::Reconfigure { size: None },
        WindowEventKind::RedrawRequested => WindowEventResponse::Render,
        WindowEventKind::Other => WindowEventResponse::Ignore,
    }
}

/// What to do when the application is resumed.
#[derive(Clone, Copy, Debug, PartialEq, Eq, Structural)]
pub enum ResumeResponse {
    /// Create the window, the GPU device and the renderer, then configure the surface.
    Initialize,
    /// Everything exists already: only reconfigure the surface for the window's size.
    Reconfigure,
}

/// The first resume sets everything up; every later one only reconfigures the surface.
pub fn resume_response(initialized: bool) -> (response: ResumeResponse)
    ensures
        response == (if initialized {
            ResumeResponse::Reconfigure
        } else {
            ResumeResponse::Initialize
        }),
{
    if initialized {
        ResumeResponse::Reconfigure
    } else {
        ResumeResponse::Initialize
    }
}

/// Why the surface could not hand out the next frame's texture.
#[derive(Clone, Copy, Debug, PartialEq, Eq, Structural)]
pub enum SurfaceErrorKind {
    Timeout,
    Outdated,
    Lost,
    OutOfMemory,
    Other,
}

/// What to do when the surface could not hand out a texture.
#[derive(Clone, Copy, Debug, PartialEq, Eq, Structural)]
pub enum SurfaceErrorResponse {
    /// Skip this frame and ask for another redraw.
    Redraw,
    /// Report the error, skip this frame and ask for another redraw.
    ReportAndRedraw,
    /// Give up: the renderer cannot go on.
    Abort,
}

/// A lost or outdated surface is retried silently, running out of memory ends the
/// program, and any other error is reported and retried.
pub open spec fn spec_surface_error_response(kind: SurfaceErrorKind) -> SurfaceErrorResponse {
    match kind {
        SurfaceErrorKind::Lost | SurfaceErrorKind::Outdated => SurfaceErrorResponse::Redraw,
        SurfaceErrorKind::OutOfMemory => SurfaceErrorResponse::Abort,
        SurfaceErrorKind::Timeout | SurfaceErrorKind::Other => SurfaceErrorResponse::ReportAndRedraw,
    }
}

/// Decides what to do about a failure to get the surface texture.
pub fn surface_error_response(kind: SurfaceErrorKind) -> (response: SurfaceErrorResponse)
    ensures
        response == spec_surface_error_response(kind),
{
    match kind {
        SurfaceErrorKind::Lost | SurfaceErrorKind::Outdated => SurfaceErrorResponse::Redraw,
        SurfaceErrorKind::OutOfMemory => SurfaceErrorResponse::Abort,
        _ => SurfaceErrorResponse::ReportAndRedraw,
    }
}

/// The extent to give the surface and the depth texture for a window of the given size:
/// none while either side is zero (a minimised window), else the size itself.
pub fn surface_extent(width: u32, height: u32) -> (extent: Option<Extent>)
    ensures
        extent == (if width > 0 && height > 0 {
            Some(Extent { width, height })
        } else {
            None
        }),
{
    if height > 0 && width > 0 {
        Some(Extent { width, height })
    } else {
        None
    }
}

/// Once the GPU is set up: a close request exits; a resize reconfigures the surface for
/// exactly the new width and height, in that order; a change of scale factor
/// reconfigures for the window's own size; a redraw request renders; anything else is
/// ignored.
pub proof fn responses_after_setup(width: u32, height: u32)
    ensures
        spec_window_event_response(true, WindowEventKind::CloseRequested)
            == WindowEventResponse::Exit,
        spec_window_event_response(true, WindowEventKind::Resized { width, height })
            == (WindowEventResponse::Reconfigure { size: Some(Extent { width, height }) }),
        spec_window_event_response(true, WindowEventKind::ScaleFactorChanged)
            == (WindowEventResponse::Reconfigure { size: None }),
        spec_window_event_response(true, WindowEventKind::RedrawRequested)
            == WindowEventResponse::Render,
        spec_window_event_response(true, WindowEventKind::Other) == WindowEventResponse::Ignore,
{
}

/// A lost or outdated surface is retried silently, running out of memory aborts, and a
/// timeout or any other error is reported and retried.
pub proof fn surface_error_responses()
    ensures
        spec_surface_error_response(SurfaceErrorKind::Lost) == SurfaceErrorResponse::Redraw,
        spec_surface_error_response(SurfaceErrorKind::Outdated) == SurfaceErrorResponse::Redraw,
        spec_surface_error_response(SurfaceErrorKind::OutOfMemory) == SurfaceErrorResponse::Abort,
        spec_surface_error_response(SurfaceErrorKind::Timeout)
            == SurfaceErrorResponse::ReportAndRedraw,
        spec_surface_error_response(SurfaceErrorKind::Other)
            == SurfaceErrorResponse::ReportAndRedraw,
{
}

/// Nothing reacts to window events before the GPU is set up.
pub proof fn events_before_setup_are_ignored(event: WindowEventKind)
    ensures
        spec_window_event_response(false, event) == WindowEventResponse::Ignore,
{
}

} // verus!
