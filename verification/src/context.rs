//! Context-provider decisions: the pixel configuration a session demands of
//! the platform driver, the client API and version per render level, and the
//! ordered construction steps with the failure each one reports.
//!
//! The driver calls themselves happen outside the library; it supplies the
//! values they are made with and turns each step's outcome into the next
//! step or the step's error.

use vstd::prelude::*;
use crate::RenderError;

verus! {

/// The GPU capability tier a session renders through.
#[derive(Clone, Copy, Debug, PartialEq, Eq, Structural)]
pub enum RenderLevel {
    /// The baseline tier.
    Baseline,
    /// The advanced tier.
    Advanced,
}

/// The client GL API a render level targets.
#[derive(Clone, Copy, Debug, PartialEq, Eq, Structural)]
pub enum GlApi {
    /// OpenGL ES 3, for the baseline tier.
    Gles3,
    /// OpenGL 4, for the advanced tier.
    Gl4,
}

/// The API of each level.
pub open spec fn spec_api_for_level(level: RenderLevel) -> GlApi {
    match level {
        RenderLevel::Baseline => GlApi::Gles3,
        RenderLevel::Advanced => GlApi::Gl4,
    }
}

/// Selects the client API for a render level: ES 3 for the baseline tier,
/// GL 4 for the advanced one.
pub fn api_for_level(level: RenderLevel) -> (api: GlApi)
    ensures
        api == spec_api_for_level(level),
{
    match level {
        RenderLevel::Baseline => GlApi::Gles3,
        RenderLevel::Advanced => GlApi::Gl4,
    }
}

/// What the session demands of the driver's pixel configuration.
#[derive(Clone, Copy, Debug, PartialEq, Eq, Structural)]
pub struct ConfigRequest {
    pub red_bits: u32,
    pub green_bits: u32,
    pub blue_bits: u32,
    pub depth_bits: u32,
    pub pbuffer_surface: bool,
    pub api: GlApi,
}

/// The configuration a session asks the driver for: an off-screen
/// pixel-buffer surface with at least 8 bits each of red, green, blue and
/// depth, renderable through the API of the requested level.
pub fn required_config(level: RenderLevel) -> (c: ConfigRequest)
    ensures
        c.red_bits == 8 && c.green_bits == 8 && c.blue_bits == 8,
        c.depth_bits == 8,
        c.pbuffer_surface,
        c.api == spec_api_for_level(level),
{
    ConfigRequest {
        red_bits: 8,
        green_bits: 8,
        blue_bits: 8,
        depth_bits: 8,
        pbuffer_surface: true,
        api: api_for_level(level),
    }
}

/// The client version requested when the rendering context is created.
pub fn client_version() -> (v: u32)
    ensures
        v == 3,
{
    3
}

/// The steps of session construction, in the order they run.
#[derive(Clone, Copy, Debug, PartialEq, Eq, Structural)]
pub enum SetupStep {
    /// Load the platform graphics driver dynamically.
    LoadDriver,
    /// Obtain and initialize the default display connection.
    InitDisplay,
    /// Choose a pixel configuration matching `required_config`.
    ChooseConfig,
    /// Create the off-screen pixel-buffer surface.
    CreateSurface,
    /// Select the client API and create the rendering context.
    CreateContext,
    /// Make the context current and load the GPU function table.
    LoadFunctions,
}

/// The step after `step`, or `None` after the last.
pub open spec fn spec_next_step(step: SetupStep) -> Option<SetupStep> {
    match step {
        SetupStep::LoadDriver => Some(SetupStep::InitDisplay),
        SetupStep::InitDisplay => Some(SetupStep::ChooseConfig),
        SetupStep::ChooseConfig => Some(SetupStep::CreateSurface),
        SetupStep::CreateSurface => Some(SetupStep::CreateContext),
        SetupStep::CreateContext => Some(SetupStep::LoadFunctions),
        SetupStep::LoadFunctions => None,
    }
}

/// The error of the taxonomy each construction step fails with.
pub open spec fn spec_setup_error(step: SetupStep) -> RenderError {
    match step {
        SetupStep::LoadDriver => RenderError::DriverLoad,
        SetupStep::InitDisplay => RenderError::DisplayInit,
        SetupStep::ChooseConfig => RenderError::NoMatchingConfig,
        SetupStep::CreateSurface => RenderError::SurfaceCreation,
        SetupStep::CreateContext => RenderError::ContextCreation,
        SetupStep::LoadFunctions => RenderError::ProcAddress,
    }
}

/// Drives construction one step at a time: a step that succeeded leads to
/// the next step, or to completion after the last; a step that failed ends
/// construction with that step's error, and no other.
pub fn advance_setup(step: SetupStep, succeeded: bool) -> (r: Result<Option<SetupStep>,
    RenderError>)
    ensures
        succeeded ==> r == Ok::<Option<SetupStep>, RenderError>(spec_next_step(step)),
        !succeeded ==> r == Err::<Option<SetupStep>, RenderError>(spec_setup_error(step)),
{
    if succeeded {
        Ok(
            match step {
                SetupStep::LoadDriver => Some(SetupStep::InitDisplay),
                SetupStep::InitDisplay => Some(SetupStep::ChooseConfig),
                SetupStep::ChooseConfig => Some(SetupStep::CreateSurface),
                SetupStep::CreateSurface => Some(SetupStep::CreateContext),
                SetupStep::CreateContext => Some(SetupStep::LoadFunctions),
                SetupStep::LoadFunctions => None,
            },
        )
    } else {
        Err(
            match step {
                SetupStep::LoadDriver => RenderError::DriverLoad,
                SetupStep::InitDisplay => RenderError::DisplayInit,
                SetupStep::ChooseConfig => RenderError::NoMatchingConfig,
                SetupStep::CreateSurface => RenderError::SurfaceCreation,
                SetupStep::CreateContext => RenderError::ContextCreation,
                SetupStep::LoadFunctions => RenderError::ProcAddress,
            },
        )
    }
}

} // verus!
