use vstd::prelude::*;

use crate::errors::FatalError;

verus! {

// Display-mode and style bits of the host windowing subsystem, as its headers
// define them.
pub const DM_BITSPERPEL: u32 = 0x40000;
pub const DM_PELSWIDTH: u32 = 0x80000;
pub const DM_PELSHEIGHT: u32 = 0x100000;
pub const CDS_FULLSCREEN: u32 = 0x4;
pub const DISP_CHANGE_SUCCESSFUL: i32 = 0;
pub const WS_EX_APPWINDOW: u32 = 0x40000;
pub const WS_POPUP: u32 = 0x80000000;
pub const WS_CLIPSIBLINGS: u32 = 0x04000000;
pub const WS_CLIPCHILDREN: u32 = 0x02000000;
pub const SM_CXSCREEN: i32 = 0;
pub const SM_CYSCREEN: i32 = 1;
pub const SW_SHOW: i32 = 5;

/// The fixed color depth requested for the exclusive fullscreen mode.
pub const BITS_PER_PIXEL: u32 = 32;

/// The display-mode descriptor handed to the host for the exclusive
/// fullscreen switch: the primary display's resolution at the fixed color
/// depth, with exactly the width, height and depth fields marked valid.
#[derive(Clone, Copy, Debug, PartialEq, Eq, Structural)]
pub struct DisplayMode {
    pub pels_width: u32,
    pub pels_height: u32,
    pub bits_per_pel: u32,
    pub fields: u32,
}

/// Build the display-mode descriptor from the primary display's metrics.
/// The host reports metrics as signed values; a real display never reports a
/// negative one.
pub fn display_mode(width: i32, height: i32) -> (m: DisplayMode)
    requires
        0 <= width,
        0 <= height,
    ensures
        m.pels_width == width,
        m.pels_height == height,
        m.bits_per_pel == BITS_PER_PIXEL,
        m.fields == (DM_BITSPERPEL | DM_PELSWIDTH | DM_PELSHEIGHT),
{
    DisplayMode {
        pels_width: width as u32,
        pels_height: height as u32,
        bits_per_pel: BITS_PER_PIXEL,
        fields: DM_BITSPERPEL | DM_PELSWIDTH | DM_PELSHEIGHT,
    }
}

/// The creation request for the surface: a borderless, clipping popup with
/// the application-window extended style, covering the primary display from
/// the origin, carrying the owner reference as opaque creation data so the
/// dispatch entry point can recover it on the first message.
#[derive(Clone, Copy, Debug, PartialEq, Eq, Structural)]
pub struct SurfaceRequest {
    pub ex_style: u32,
    pub style: u32,
    pub x: i32,
    pub y: i32,
    pub width: i32,
    pub height: i32,
    pub instance: usize,
    pub creation_param: usize,
}

/// Build the surface-creation request: geometry `(0,0)`–`(width,height)`,
/// the fixed borderless topmost-popup style, and the owner reference as
/// creation data.
pub fn surface_request(width: i32, height: i32, instance: usize, owner: usize) -> (q:
    SurfaceRequest)
    ensures
        q.ex_style == WS_EX_APPWINDOW,
        q.style == (WS_CLIPSIBLINGS | WS_CLIPCHILDREN | WS_POPUP),
        q.x == 0,
        q.y == 0,
        q.width == width,
        q.height == height,
        q.instance == instance,
        q.creation_param == owner,
{
    SurfaceRequest {
        ex_style: WS_EX_APPWINDOW,
        style: WS_CLIPSIBLINGS | WS_CLIPCHILDREN | WS_POPUP,
        x: 0,
        y: 0,
        width,
        height,
        instance,
        creation_param: owner,
    }
}

/// Outcome of the exclusive fullscreen mode switch. A rejected switch is a
/// degraded, user-visible but non-fatal condition: the surface is still
/// created at the same geometry, without exclusive fullscreen guarantees.
#[derive(Clone, Copy, Debug, PartialEq, Eq, Structural)]
pub enum FullscreenStatus {
    Exclusive,
    Degraded,
}

/// Judge the host's answer to the mode-switch request: only the successful
/// answer yields exclusive fullscreen; any other answer degrades.
pub fn evaluate_mode_switch(result: i32) -> (s: FullscreenStatus)
    ensures
        s is Exclusive <==> result == DISP_CHANGE_SUCCESSFUL,
{
    if result == DISP_CHANGE_SUCCESSFUL {
        FullscreenStatus::Exclusive
    } else {
        FullscreenStatus::Degraded
    }
}

/// The display surface: the negotiated fullscreen geometry, the owning
/// process module's handle, and the created surface's native handle. All
/// fields are set once at creation and never mutated afterward; at most one
/// surface exists per process.
#[derive(Clone, Copy, Debug, PartialEq, Eq, Structural)]
pub struct Window {
    /// Width read once from the primary display's metrics.
    pub screen_width: i32,
    /// Height read once from the primary display's metrics.
    pub screen_height: i32,
    /// Opaque handle of the owning process module.
    pub instance: usize,
    /// Opaque native handle of the created surface; never zero.
    pub window: usize,
}

impl Window {
    /// A created surface holds a live native handle and the nonnegative
    /// geometry the host metrics reported.
    pub open spec fn wf(self) -> bool {
        &&& self.window != 0
        &&& 0 <= self.screen_width
        &&& 0 <= self.screen_height
    }

    /// Conclude surface creation from the host's answers: the metrics read in
    /// step three and the native handle the creation call returned. A zero
    /// handle means the host failed to create the surface, which is fatal.
    /// On success the geometry equals the metrics exactly, as read at the
    /// time of the call.
    pub fn new(screen_width: i32, screen_height: i32, instance: usize, native_handle: usize) -> (r:
        Result<Window, FatalError>)
        requires
            0 <= screen_width,
            0 <= screen_height,
        ensures
            native_handle != 0 ==> (r matches Ok(w) && w.screen_width == screen_width
                && w.screen_height == screen_height && w.instance == instance && w.window
                == native_handle && w.wf()),
            native_handle == 0 ==> r == Err::<Window, FatalError>(FatalError::SurfaceCreation),
    {
        if native_handle == 0 {
            Err(FatalError::SurfaceCreation)
        } else {
            Ok(
                Window {
                    screen_width,
                    screen_height,
                    instance,
                    window: native_handle,
                },
            )
        }
    }
}

} // verus!
