use rendering_engine::model::{
    default_true, DirtyState, ModelRenderingOptions, PbrRenderingType, RenderingPass,
};
use rendering_engine::window_events::{RenderingAction, WindowEventHandlingAction, WindowEventHandlingResult};

#[test]
fn defaults_of_rendering_settings() {
    assert!(default_true());
    assert_eq!(DirtyState::default(), DirtyState::NothingChanged);
    assert_eq!(RenderingPass::default(), RenderingPass::DeferredMain);
    assert_eq!(PbrRenderingType::default(), PbrRenderingType::Textures);
    let options = ModelRenderingOptions::default();
    assert_eq!(options.pass, RenderingPass::DeferredMain);
    assert!(options.use_depth_test);
    assert!(options.cast_shadows);
    assert_eq!(options.pbr_resource_type, PbrRenderingType::Textures);
}

#[test]
fn event_handling_results_compare_by_kind() {
    let exit = WindowEventHandlingResult::RequestAction(WindowEventHandlingAction::Exit);
    assert_eq!(exit, WindowEventHandlingResult::RequestAction(WindowEventHandlingAction::Exit));
    assert_ne!(exit, WindowEventHandlingResult::Handled);
    assert_ne!(RenderingAction::BakeDiffuseIrradianceMap, RenderingAction::SaveDiffuseIrradianceMapToFile);
}
