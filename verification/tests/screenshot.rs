use woodpecker::screenshot::{
    additional_pipeline_status, destination_state, failed, fixed_2d_camera_supported,
    fixed_3d_camera_supported, output_ready, path_error, pipeline_status, select, upscaling_key,
    validate, BlitKey, CachedState, Choice, Fixed3dCamera, ImagePipeline, ImageTarget, IoFailure,
    IoKind, OutputMode, OutputView, PipelineStatus, Verification,
};

#[test]
fn normalized_paths_and_unavailable_renderer() {
    for path in [
        "",
        "/a.png",
        "a//b.png",
        "./a.png",
        "a/../b.png",
        "a/./b.png",
        "a.png/",
        "C:/a.png",
        "a\\b.png",
        "a.PNG",
        "a.png\0",
        "a.jpg",
    ] {
        let error = validate(path).unwrap_err();
        assert_eq!(error.code, "invalid_screenshot_path", "{path}");
        assert_eq!(error.message, "expected a normalized relative .png path");
    }
    for path in ["a.png", "screenshots/Grüße.png"] {
        assert!(validate(path).is_ok());
    }
}

#[test]
fn rendered_window_wins_even_with_a_configured_image_camera() {
    let window = 41;
    assert_eq!(select(Some(window), true), Choice::Window(window));
}

#[test]
fn image_requires_explicit_configuration_and_every_2d_constraint() {
    assert_eq!(select(None, false), Choice::Unavailable);
    assert_eq!(select(None, true), Choice::Image);
    assert!(fixed_2d_camera_supported(true, true, true, true, true, true, true));
    for unsupported in 0..7 {
        let mut conditions = [true; 7];
        conditions[unsupported] = false;
        assert!(!fixed_2d_camera_supported(
            conditions[0],
            conditions[1],
            conditions[2],
            conditions[3],
            conditions[4],
            conditions[5],
            conditions[6],
        ));
    }
}

#[test]
fn fixed_3d_requires_explicit_perspective_and_every_target_constraint() {
    let supported = Fixed3dCamera {
        marked: true,
        camera_3d: true,
        perspective: true,
        active: true,
        full_viewport: true,
        writes_output: true,
        valid_scale: true,
        dimensions_match: true,
        valid_projection: true,
    };
    assert!(fixed_3d_camera_supported(supported));
    for unsupported in [
        Fixed3dCamera { marked: false, ..supported },
        Fixed3dCamera { camera_3d: false, ..supported },
        Fixed3dCamera { perspective: false, ..supported },
        Fixed3dCamera { active: false, ..supported },
        Fixed3dCamera { full_viewport: false, ..supported },
        Fixed3dCamera { writes_output: false, ..supported },
        Fixed3dCamera { valid_scale: false, ..supported },
        Fixed3dCamera { dimensions_match: false, ..supported },
        Fixed3dCamera { valid_projection: false, ..supported },
    ] {
        assert!(!fixed_3d_camera_supported(unsupported));
    }
}

#[test]
fn warmup_cannot_verify_a_later_capture_entity() {
    let mut verification = Verification::new();
    verification.record_frame(None, true);
    assert!(verification.warmup_ready());
    let entity = 7;
    verification.begin_capture(entity);
    assert_eq!(verification.capture_result(entity), None);
    verification.record_frame(Some(entity), false);
    assert_eq!(verification.capture_result(entity), Some(false));
    verification.record_frame(Some(entity), true);
    assert_eq!(
        verification.capture_result(entity),
        Some(false),
        "a later frame must not repair the rejected capture frame"
    );
}

#[test]
fn only_the_correlated_capture_entity_can_be_verified() {
    let mut verification = Verification::new();
    let entity = 9;
    verification.begin_capture(entity);
    verification.record_frame(Some(10), true);
    assert_eq!(verification.capture_result(entity), None);
    verification.record_frame(Some(entity), true);
    assert_eq!(verification.capture_result(entity), Some(true));
}

#[test]
fn warmup_readiness_follows_the_latest_frame() {
    let mut verification = Verification::new();
    assert!(!verification.warmup_ready());
    verification.record_frame(None, true);
    verification.record_frame(None, false);
    assert!(!verification.warmup_ready());
    verification.record_frame(Some(3), true);
    assert!(!verification.warmup_ready());
}

// Stand-ins for the renderer's texture format, blend state and compositing space.
const RGBA8_SRGB: u32 = 1;
const REPLACE: u32 = 10;
const ALPHA_BLENDING: u32 = 11;
const SRGB: u32 = 20;

type Key = BlitKey<u32, u32, u32>;

fn key() -> Key {
    upscaling_key(OutputMode::Write { blend_state: None }, 0, Some(RGBA8_SRGB), None::<u32>, ALPHA_BLENDING)
        .unwrap()
}

fn target(scale: f32) -> ImageTarget {
    ImageTarget { image: 0, uuid: false, scale_bits: scale.to_bits() }
}

fn view(pipeline: ImagePipeline) -> OutputView<Key> {
    OutputView {
        target: Some(target(1.5)),
        pipeline: Some(pipeline),
        has_3d_depth_texture: pipeline == ImagePipeline::ThreeD,
        opaque_3d_items: if pipeline == ImagePipeline::ThreeD { Some(true) } else { None },
        has_upscaling_pipeline: true,
        attachment_selected: true,
        key: Some(key()),
    }
}

fn ready(pipeline: ImagePipeline, views: Vec<OutputView<Key>>) -> bool {
    output_ready(target(1.5), pipeline, views, |_| PipelineStatus::Ready, vec![PipelineStatus::Ready])
}

fn forbidden(_: Key) -> PipelineStatus {
    panic!("incomplete output resolved a pipeline")
}

#[test]
fn arbitrary_ready_pipelines_cannot_replace_the_final_upscaling_pipeline() {
    for final_status in [PipelineStatus::Missing, PipelineStatus::Waiting, PipelineStatus::Failed] {
        assert!(!output_ready(
            target(1.5),
            ImagePipeline::TwoD,
            vec![view(ImagePipeline::TwoD)],
            |_| final_status,
            vec![PipelineStatus::Ready]
        ));
    }
    assert!(!output_ready(
        target(1.5),
        ImagePipeline::TwoD,
        vec![view(ImagePipeline::TwoD)],
        |_| PipelineStatus::Ready,
        vec![PipelineStatus::Failed]
    ));
    assert!(ready(ImagePipeline::TwoD, vec![view(ImagePipeline::TwoD)]));
}

#[test]
fn real_cached_failure_states_feed_the_final_pipeline_decision() {
    for state in [CachedState::Queued, CachedState::Creating, CachedState::Failed] {
        assert_ne!(additional_pipeline_status(state), PipelineStatus::Ready);
        assert!(!output_ready(
            target(1.5),
            ImagePipeline::TwoD,
            vec![view(ImagePipeline::TwoD)],
            |_| pipeline_status(Some(state)),
            vec![]
        ));
    }
}

#[test]
fn pipeline_states_map_to_statuses() {
    assert_eq!(pipeline_status(None), PipelineStatus::Missing);
    assert_eq!(pipeline_status(Some(CachedState::Queued)), PipelineStatus::Waiting);
    assert_eq!(pipeline_status(Some(CachedState::Creating)), PipelineStatus::Waiting);
    assert_eq!(pipeline_status(Some(CachedState::Failed)), PipelineStatus::Failed);
    assert_eq!(pipeline_status(Some(CachedState::RenderPipeline)), PipelineStatus::Ready);
    assert_eq!(pipeline_status(Some(CachedState::ComputePipeline)), PipelineStatus::Failed);
    assert_eq!(additional_pipeline_status(CachedState::ComputePipeline), PipelineStatus::Ready);
    assert_eq!(additional_pipeline_status(CachedState::RenderPipeline), PipelineStatus::Ready);
}

#[test]
fn target_component_attachment_and_write_output_are_all_required() {
    assert!(!output_ready(target(1.5), ImagePipeline::TwoD, vec![], forbidden, vec![]));
    let mut missing = view(ImagePipeline::TwoD);
    missing.has_upscaling_pipeline = false;
    assert!(!output_ready(target(1.5), ImagePipeline::TwoD, vec![missing], forbidden, vec![]));
    let mut unselected = view(ImagePipeline::TwoD);
    unselected.attachment_selected = false;
    assert!(!output_ready(target(1.5), ImagePipeline::TwoD, vec![unselected], forbidden, vec![]));
    let mut skipped = view(ImagePipeline::TwoD);
    skipped.key = upscaling_key(OutputMode::Skip, 0, Some(RGBA8_SRGB), None::<u32>, ALPHA_BLENDING);
    assert!(!output_ready(target(1.5), ImagePipeline::TwoD, vec![skipped], forbidden, vec![]));
}

#[test]
fn perspective_3d_requires_its_graph_depth_and_opaque_mesh_phase() {
    let mut wrong_pipeline = view(ImagePipeline::TwoD);
    wrong_pipeline.has_3d_depth_texture = true;
    wrong_pipeline.opaque_3d_items = Some(true);
    assert!(!output_ready(target(1.5), ImagePipeline::ThreeD, vec![wrong_pipeline], forbidden, vec![]));
    let mut missing_depth = view(ImagePipeline::ThreeD);
    missing_depth.has_3d_depth_texture = false;
    assert!(!output_ready(target(1.5), ImagePipeline::ThreeD, vec![missing_depth], forbidden, vec![]));
    let mut empty_phase = view(ImagePipeline::ThreeD);
    empty_phase.opaque_3d_items = Some(false);
    assert!(!output_ready(target(1.5), ImagePipeline::ThreeD, vec![empty_phase], forbidden, vec![]));
    assert!(ready(ImagePipeline::ThreeD, vec![view(ImagePipeline::ThreeD)]));
}

#[test]
fn missing_opaque_3d_phase_resource_does_not_block_2d_but_fails_3d_closed() {
    let mut two_d = view(ImagePipeline::TwoD);
    two_d.opaque_3d_items = None;
    assert!(ready(ImagePipeline::TwoD, vec![two_d]));
    let mut three_d = view(ImagePipeline::ThreeD);
    three_d.opaque_3d_items = None;
    assert!(!output_ready(target(1.5), ImagePipeline::ThreeD, vec![three_d], forbidden, vec![]));
}

#[test]
fn same_image_handle_at_another_scale_is_not_the_capture_target() {
    assert!(!output_ready(target(1.0), ImagePipeline::TwoD, vec![view(ImagePipeline::TwoD)], forbidden, vec![]));
    assert!(ready(ImagePipeline::TwoD, vec![view(ImagePipeline::TwoD)]));
}

#[test]
fn target_is_unique_and_specialization_key_matches_bevy() {
    assert!(!ready(ImagePipeline::TwoD, vec![view(ImagePipeline::TwoD), view(ImagePipeline::TwoD)]));
    let explicit = upscaling_key(
        OutputMode::Write { blend_state: Some(REPLACE) },
        1,
        Some(RGBA8_SRGB),
        Some(SRGB),
        ALPHA_BLENDING,
    )
    .unwrap();
    assert_eq!(explicit.blend_state, Some(REPLACE));
    assert_eq!(explicit.samples, 1);
    assert_eq!(explicit.source_space, Some(SRGB));
    let later = upscaling_key(OutputMode::Write { blend_state: None }, 1, Some(RGBA8_SRGB), None::<u32>, ALPHA_BLENDING)
        .unwrap();
    assert_eq!(later.blend_state, Some(ALPHA_BLENDING));
    assert_eq!(key().blend_state, None);
    assert!(upscaling_key(OutputMode::Write { blend_state: None }, 0, None::<u32>, None::<u32>, ALPHA_BLENDING).is_none());
}

#[test]
fn a_view_of_another_target_does_not_make_the_capture_ambiguous() {
    let mut other = view(ImagePipeline::TwoD);
    other.target = Some(ImageTarget { image: 5, uuid: false, scale_bits: 1.5f32.to_bits() });
    let mut window = view(ImagePipeline::TwoD);
    window.target = None;
    assert!(ready(ImagePipeline::TwoD, vec![other, view(ImagePipeline::TwoD), window]));
}

#[test]
fn destination_errors_and_existing_files() {
    let not_found = || IoFailure { kind: IoKind::NotFound, message: "missing".into() };
    assert_eq!(destination_state(Ok(true), false).unwrap(), true);
    let directory = destination_state(Ok(false), false).unwrap_err();
    assert_eq!(directory.code, "screenshot_failed");
    assert_eq!(directory.message, "screenshot destination is not a regular file");
    assert_eq!(destination_state(Err(not_found()), false).unwrap(), false);
    assert_eq!(destination_state(Err(not_found()), true).unwrap(), true);
    let denied = destination_state(
        Err(IoFailure { kind: IoKind::PermissionDenied, message: "escape".into() }),
        false,
    )
    .unwrap_err();
    assert_eq!((denied.code.as_str(), denied.message.as_str()), ("invalid_screenshot_path", "escape"));
    let other = path_error(IoFailure { kind: IoKind::Other, message: "disk".into() });
    assert_eq!((other.code.as_str(), other.message.as_str()), ("screenshot_failed", "disk"));
    let f = failed("GPU readback timed out".into());
    assert_eq!(f.code, "screenshot_failed");
}
