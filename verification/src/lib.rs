//! Headless GPU rasterization session, modelled and verified.
//!
//! The library holds the decision logic of a headless rendering session:
//! which pixel configuration a session asks the platform driver for, how a
//! scene's logical view-box turns into an integer output size and a
//! translation to the origin, when the cached GPU render target is reused,
//! resized or first created, how a pixel readback is validated and packed
//! into an RGBA buffer, and when each failure of the taxonomy is reported.
//! The driver and GPU calls themselves live outside the library, which
//! receives their outcomes as plain values.

use vstd::prelude::*;

pub mod cache;
pub mod context;
pub mod export;
pub mod geom;
pub mod readback;
pub mod session;

verus! {

/// Everything that can go wrong in a session, from construction through
/// rendering to teardown.
///
/// Construction failures (`DriverLoad` through `ProcAddress`) are fatal to
/// session creation. Per-render failures (`DeviceOutOfMemory`,
/// `UnsupportedPixelFormat`, `BufferSizeMismatch`) leave the session
/// unusable. `Terminate` is reported, not escalated, at teardown.
#[derive(Clone, Copy, Debug, PartialEq, Eq, Structural)]
pub enum RenderError {
    /// The platform graphics driver could not be located and loaded.
    DriverLoad,
    /// The driver rejected initialization of the default display connection.
    DisplayInit,
    /// The driver reported no pixel configuration matching the request.
    NoMatchingConfig,
    /// The off-screen pixel-buffer surface could not be created.
    SurfaceCreation,
    /// Selecting the client API or creating the rendering context failed.
    ContextCreation,
    /// A required GPU entry point was missing from the driver's lookup.
    ProcAddress,
    /// The GPU could not allocate the render target.
    DeviceOutOfMemory,
    /// The pixel readback returned a format other than 8 bits per channel.
    UnsupportedPixelFormat,
    /// The readback byte count did not match `width * height * 4`.
    BufferSizeMismatch { expected: u64, actual: u64 },
    /// The driver reported an error while releasing the connection.
    Terminate,
}

impl RenderError {
    /// A short human-readable name of the failing stage, so an operator can
    /// tell a bad scene from a missing driver.
    pub fn stage(&self) -> (s: &'static str)
        ensures
            *self is DriverLoad ==> s@ == "driver load"@,
            *self is DisplayInit ==> s@ == "display initialization"@,
            *self is NoMatchingConfig ==> s@ == "pixel configuration choice"@,
            *self is SurfaceCreation ==> s@ == "surface creation"@,
            *self is ContextCreation ==> s@ == "context creation"@,
            *self is ProcAddress ==> s@ == "GPU function loading"@,
            *self is DeviceOutOfMemory ==> s@ == "render target allocation"@,
            *self is UnsupportedPixelFormat ==> s@ == "pixel readback format"@,
            *self is BufferSizeMismatch ==> s@ == "pixel buffer packing"@,
            *self is Terminate ==> s@ == "session teardown"@,
    {
        match self {
            RenderError::DriverLoad => "driver load",
            RenderError::DisplayInit => "display initialization",
            RenderError::NoMatchingConfig => "pixel configuration choice",
            RenderError::SurfaceCreation => "surface creation",
            RenderError::ContextCreation => "context creation",
            RenderError::ProcAddress => "GPU function loading",
            RenderError::DeviceOutOfMemory => "render target allocation",
            RenderError::UnsupportedPixelFormat => "pixel readback format",
            RenderError::BufferSizeMismatch { .. } => "pixel buffer packing",
            RenderError::Terminate => "session teardown",
        }
    }
}

} // verus!
