use headless_raster::context::{
    advance_setup, api_for_level, client_version, required_config, GlApi, RenderLevel, SetupStep,
};
use headless_raster::RenderError;

#[test]
fn construction_steps_run_in_order() {
    assert_eq!(advance_setup(SetupStep::LoadDriver, true), Ok(Some(SetupStep::InitDisplay)));
    assert_eq!(advance_setup(SetupStep::InitDisplay, true), Ok(Some(SetupStep::ChooseConfig)));
    assert_eq!(advance_setup(SetupStep::ChooseConfig, true), Ok(Some(SetupStep::CreateSurface)));
    assert_eq!(advance_setup(SetupStep::CreateSurface, true), Ok(Some(SetupStep::CreateContext)));
    assert_eq!(advance_setup(SetupStep::CreateContext, true), Ok(Some(SetupStep::LoadFunctions)));
    assert_eq!(advance_setup(SetupStep::LoadFunctions, true), Ok(None));
}

#[test]
fn each_step_fails_with_its_own_error() {
    assert_eq!(advance_setup(SetupStep::LoadDriver, false), Err(RenderError::DriverLoad));
    assert_eq!(advance_setup(SetupStep::InitDisplay, false), Err(RenderError::DisplayInit));
    assert_eq!(advance_setup(SetupStep::ChooseConfig, false), Err(RenderError::NoMatchingConfig));
    assert_eq!(advance_setup(SetupStep::CreateSurface, false), Err(RenderError::SurfaceCreation));
    assert_eq!(advance_setup(SetupStep::CreateContext, false), Err(RenderError::ContextCreation));
    assert_eq!(advance_setup(SetupStep::LoadFunctions, false), Err(RenderError::ProcAddress));
}

#[test]
fn the_config_demands_eight_bit_channels_and_a_pbuffer() {
    let config = required_config(RenderLevel::Baseline);
    assert_eq!(config.red_bits, 8);
    assert_eq!(config.green_bits, 8);
    assert_eq!(config.blue_bits, 8);
    assert_eq!(config.depth_bits, 8);
    assert!(config.pbuffer_surface);
    assert_eq!(config.api, GlApi::Gles3);
}

#[test]
fn each_level_targets_its_api() {
    assert_eq!(api_for_level(RenderLevel::Baseline), GlApi::Gles3);
    assert_eq!(api_for_level(RenderLevel::Advanced), GlApi::Gl4);
    assert_eq!(required_config(RenderLevel::Advanced).api, GlApi::Gl4);
    assert_eq!(client_version(), 3);
}
