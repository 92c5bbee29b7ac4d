use rendering_engine::gbuffer_pipelines::{GBufferPipelines, GBufferRenderingParams, PipelineWithObjects};
use rendering_engine::model::PbrRenderingType;

fn textured() -> GBufferRenderingParams {
    GBufferRenderingParams { use_depth_test: true, pbr_rendering_type: PbrRenderingType::Textures }
}

fn flat() -> GBufferRenderingParams {
    GBufferRenderingParams { use_depth_test: true, pbr_rendering_type: PbrRenderingType::FlatParameters }
}

#[test]
fn new_pipeline_draws_nothing() {
    let pipeline = PipelineWithObjects::new("p");
    assert_eq!(pipeline.render_pipeline, "p");
    assert!(pipeline.objects.is_empty());
}

#[test]
fn first_object_of_new_settings_makes_pipeline_only() {
    let mut pipelines: GBufferPipelines<&str> = GBufferPipelines::new();
    let result: Result<(), String> = pipelines.add_renderable(textured(), 1, |_| Ok("textured"));
    assert!(result.is_ok());
    assert_eq!(pipelines.pipelines.len(), 1);
    assert_eq!(pipelines.pipelines[0].0, textured());
    assert_eq!(pipelines.pipelines[0].1.render_pipeline, "textured");
    // the object that caused the pipeline is not added to it
    assert!(pipelines.pipelines[0].1.objects.is_empty());
}

#[test]
fn objects_go_to_the_pipeline_of_their_settings() {
    let mut pipelines: GBufferPipelines<&str> = GBufferPipelines::new();
    let _: Result<(), String> = pipelines.add_renderable(textured(), 1, |_| Ok("textured"));
    let _: Result<(), String> = pipelines.add_renderable(flat(), 2, |_| Ok("flat"));
    let _: Result<(), String> = pipelines.add_renderable(textured(), 3, |_| panic!("no new pipeline expected"));
    let _: Result<(), String> = pipelines.add_renderable(flat(), 4, |_| panic!("no new pipeline expected"));
    assert_eq!(pipelines.pipelines.len(), 2);
    assert!(pipelines.pipelines[0].1.objects.contains(&3));
    assert!(pipelines.pipelines[1].1.objects.contains(&4));
    assert_eq!(pipelines.pipelines[0].1.objects.len(), 1);
}

#[test]
fn failed_pipeline_creation_changes_nothing() {
    let mut pipelines: GBufferPipelines<&str> = GBufferPipelines::new();
    let result = pipelines.add_renderable(flat(), 9, |_| Err("shader did not compile"));
    assert_eq!(result, Err("shader did not compile"));
    assert!(pipelines.pipelines.is_empty());
}

#[test]
fn removing_an_object_after_adding_it_restores_the_pipelines() {
    let mut pipelines: GBufferPipelines<&str> = GBufferPipelines::new();
    let _: Result<(), String> = pipelines.add_renderable(flat(), 1, |_| Ok("flat"));
    let _: Result<(), String> = pipelines.add_renderable(flat(), 2, |_| Ok("unused"));
    assert!(pipelines.pipelines[0].1.objects.contains(&2));
    pipelines.remove_renderable(&2);
    assert!(pipelines.pipelines[0].1.objects.is_empty());
    // removing an object that no pipeline draws changes nothing
    pipelines.remove_renderable(&77);
    assert_eq!(pipelines.pipelines.len(), 1);
    assert!(pipelines.pipelines[0].1.objects.is_empty());
}

#[test]
fn pipelines_keep_their_render_pipeline() {
    let mut pipelines: GBufferPipelines<&str> = GBufferPipelines::new();
    pipelines.add_renderable(textured(), 1, |_| Ok::<&str, ()>("textured")).unwrap();
    pipelines.add_renderable(flat(), 2, |_| Ok::<&str, ()>("flat")).unwrap();
    pipelines.add_renderable(textured(), 3, |_| Ok::<&str, ()>("unused")).unwrap();
    pipelines.add_renderable(flat(), 4, |_| Ok::<&str, ()>("unused")).unwrap();
    pipelines.remove_renderable(&3);
    assert_eq!(pipelines.pipelines.len(), 2);
    assert_eq!(pipelines.pipelines[0].0, textured());
    assert_eq!(pipelines.pipelines[0].1.render_pipeline, "textured");
    assert_eq!(pipelines.pipelines[1].0, flat());
    assert_eq!(pipelines.pipelines[1].1.render_pipeline, "flat");
    assert!(pipelines.pipelines[1].1.objects.contains(&4));
}
