use woodpecker::capture::{
    capture_target, image_target, rendered_window, Action, ImageCamera, Output, Perspective, Poll,
    RenderedWindow, Selected, Service, Target,
};
use woodpecker::protocol::Diagnostic;
use woodpecker::screenshot::{destination_state, ImagePipeline, ImageTarget};

const WINDOW: u64 = 3;
const ENTITY: u64 = 70;

fn fixture() -> Service {
    let mut service = Service::new();
    service.enqueue(17, "images/a.png".into(), Target::Window(WINDOW));
    let poll = service.poll(vec![], None, false, Some(Target::Window(WINDOW)));
    assert!(poll.responses.is_empty());
    assert_eq!(poll.spawn, Some(Target::Window(WINDOW)));
    service.spawned(ENTITY);
    assert!(service.pending(17));
    service
}

fn rejection(poll: &Poll) -> (u64, String) {
    assert_eq!(poll.responses.len(), 1, "{poll:?}");
    let response = &poll.responses[0];
    (response.id, response.result.as_ref().unwrap_err().code.clone())
}

fn encodes(poll: &Poll) -> bool {
    poll.actions.iter().any(|action| matches!(action, Action::Encode { .. }))
}

#[test]
fn prepared_readback_without_render_surface_is_rejected_not_encoded() {
    let mut service = fixture();
    assert_eq!(service.surface_frame(), Some((17, WINDOW)));
    service.surface_checked(17, false);
    let poll = service.poll(vec![ENTITY], None, false, Some(Target::Window(WINDOW)));
    assert_eq!(rejection(&poll), (17, "screenshot_window_unavailable".to_string()));
    assert!(!encodes(&poll));
    assert!(matches!(poll.actions[0], Action::Despawn(ENTITY)));
    assert!(matches!(poll.actions[1], Action::Forward(0)));
    assert!(!service.pending(17));
    let late = service.poll(vec![ENTITY], None, false, Some(Target::Window(WINDOW)));
    assert!(late.responses.is_empty(), "late readback revived a rejected capture");
}

#[test]
fn verified_black_image_is_valid_even_if_a_later_frame_loses_its_surface() {
    let mut service = fixture();
    service.surface_checked(17, true);
    service.surface_checked(17, false);
    assert_eq!(service.surface_frame(), None);
    let poll = service.poll(vec![ENTITY], None, false, Some(Target::Window(WINDOW)));
    assert!(poll.responses.is_empty());
    assert!(matches!(&poll.actions[..], [Action::Despawn(ENTITY), Action::Encode { image: 0, path }] if path == "images/a.png"));
    assert!(service.writing());
    let done = Output { path: "images/a.png".into(), width: 2, height: 1, overwritten: false };
    let poll = service.poll(vec![], Some(Ok(done)), false, Some(Target::Window(WINDOW)));
    assert_eq!(poll.responses.len(), 1);
    assert_eq!(poll.responses[0].id, 17);
    assert!(poll.responses[0].result.is_ok());
}

#[test]
fn unavailable_surface_preserves_existing_file_without_waiting_for_readback() {
    let mut service = fixture();
    service.surface_checked(17, false);
    // A later available frame cannot approve an earlier uncopied buffer.
    service.surface_checked(17, true);
    let poll = service.poll(vec![], None, false, Some(Target::Window(WINDOW)));
    assert_eq!(rejection(&poll), (17, "screenshot_window_unavailable".to_string()));
    let late = service.poll(vec![ENTITY], None, false, Some(Target::Window(WINDOW)));
    assert!(late.responses.is_empty());
    assert!(!encodes(&late));
}

#[test]
fn unverified_readback_fails_closed() {
    let mut service = fixture();
    let poll = service.poll(vec![ENTITY], None, false, Some(Target::Window(WINDOW)));
    assert_eq!(rejection(&poll), (17, "screenshot_failed".to_string()));
    assert_eq!(
        poll.responses[0].result.as_ref().unwrap_err().message,
        "capture frame output was not verified"
    );
    assert!(!encodes(&poll));
}

#[test]
fn response_waits_for_readback_and_decodable_png_without_advancing_time() {
    let mut service = fixture();
    let poll = service.poll(vec![], None, false, Some(Target::Window(WINDOW)));
    assert!(poll.responses.is_empty());
    assert!(service.pending(17));
    service.surface_checked(17, true);
    let poll = service.poll(vec![ENTITY], None, false, Some(Target::Window(WINDOW)));
    assert!(poll.responses.is_empty());
    assert!(encodes(&poll));
    let done = Output { path: "images/a.png".into(), width: 2, height: 1, overwritten: false };
    let poll = service.poll(vec![], Some(Ok(done)), false, Some(Target::Window(WINDOW)));
    let output = poll.responses[0].result.as_ref().unwrap();
    assert_eq!((output.path.as_str(), output.width, output.height, output.overwritten), ("images/a.png", 2, 1, false));
    assert!(!service.pending(17));
    assert!(service.poll(vec![], None, false, Some(Target::Window(WINDOW))).responses.is_empty());
}

#[test]
fn readback_timeout_cleans_up_and_ignores_late_images() {
    let mut service = fixture();
    let poll = service.poll(vec![], None, true, Some(Target::Window(WINDOW)));
    assert_eq!(rejection(&poll), (17, "screenshot_failed".to_string()));
    assert_eq!(poll.responses[0].result.as_ref().unwrap_err().message, "GPU readback timed out");
    assert!(matches!(&poll.actions[..], [Action::Despawn(ENTITY)]));
    assert!(service.poll(vec![ENTITY], None, false, Some(Target::Window(WINDOW))).responses.is_empty());
}

#[test]
fn a_write_in_progress_does_not_time_out() {
    let mut service = fixture();
    service.surface_checked(17, true);
    service.poll(vec![ENTITY], None, false, Some(Target::Window(WINDOW)));
    let poll = service.poll(vec![], None, true, Some(Target::Window(WINDOW)));
    assert!(poll.responses.is_empty());
    assert!(service.pending(17));
}

fn selected(scale: f32, projection: Option<Perspective>) -> Selected {
    Selected {
        target: ImageTarget { image: 1, uuid: false, scale_bits: scale.to_bits() },
        pipeline: if projection.is_some() { ImagePipeline::ThreeD } else { ImagePipeline::TwoD },
        camera: 12,
        projection,
    }
}

fn perspective(fov: f32) -> Perspective {
    Perspective {
        fov: fov.to_bits(),
        aspect_ratio: (321.0f32 / 181.0).to_bits(),
        near: 0.1f32.to_bits(),
        far: 100.0f32.to_bits(),
        clip_x: 0,
        clip_y: 0,
        clip_z: 0,
        clip_w: 0,
    }
}

#[test]
fn queued_3d_capture_rejects_projection_change_before_activation() {
    let mut service = Service::new();
    service.enqueue(31, "fixed-3d.png".into(), Target::Image(selected(1.5, Some(perspective(0.8)))));
    let changed = Target::Image(selected(1.5, Some(perspective(0.6))));
    let poll = service.poll(vec![], None, false, Some(changed));
    assert_eq!(rejection(&poll), (31, "screenshot_target_unavailable".to_string()));
}

#[test]
fn queued_image_capture_rejects_a_scale_change_before_activation() {
    let mut service = Service::new();
    service.enqueue(24, "fixed.png".into(), Target::Image(selected(1.5, None)));
    let poll = service.poll(vec![], None, false, Some(Target::Image(selected(1.0, None))));
    assert_eq!(rejection(&poll), (24, "screenshot_target_unavailable".to_string()));
    assert_eq!(poll.responses[0].result.as_ref().unwrap_err().message, "image target changed before capture");
    assert!(service.image_request().is_none());
    assert!(!service.pending(24));
}

#[test]
fn image_capture_spawns_screenshot_with_the_selected_camera_target() {
    let mut service = Service::new();
    let camera_target = selected(1.5, None);
    service.enqueue(23, "fixed.png".into(), Target::Image(camera_target));
    let poll = service.poll(vec![], None, false, Some(Target::Image(camera_target)));
    assert!(poll.responses.is_empty());
    assert_eq!(poll.spawn, None);
    assert_eq!(service.image_request(), Some((23, camera_target, None)));
    service.frame_recorded(23, None, true);
    let poll = service.poll(vec![], None, false, Some(Target::Image(camera_target)));
    assert!(poll.responses.is_empty());
    assert_eq!(poll.spawn, Some(Target::Image(camera_target)));
    service.spawned(90);
    assert_eq!(service.image_request(), Some((23, camera_target, Some(90))));
    service.frame_recorded(23, Some(90), true);
    let poll = service.poll(vec![90], None, false, Some(Target::Image(camera_target)));
    assert!(encodes(&poll));
}

#[test]
fn failed_capture_frame_of_an_image_target_is_rejected() {
    let mut service = Service::new();
    let camera_target = selected(1.5, None);
    service.enqueue(25, "fixed.png".into(), Target::Image(camera_target));
    service.poll(vec![], None, false, Some(Target::Image(camera_target)));
    service.frame_recorded(25, None, true);
    service.poll(vec![], None, false, Some(Target::Image(camera_target)));
    service.spawned(91);
    service.frame_recorded(25, Some(91), false);
    service.frame_recorded(25, Some(91), true);
    let poll = service.poll(vec![], None, false, Some(Target::Image(camera_target)));
    assert_eq!(rejection(&poll), (25, "screenshot_failed".to_string()));
    assert!(matches!(&poll.actions[..], [Action::Despawn(91)]));
}

#[test]
fn captures_are_serialised_and_a_changed_window_rejects_only_its_jobs() {
    let mut service = fixture();
    service.enqueue(18, "b.png".into(), Target::Window(WINDOW));
    service.enqueue(19, "c.png".into(), Target::Window(WINDOW + 1));
    service.enqueue(20, "d.png".into(), Target::Window(WINDOW));
    assert!(service.pending(18) && service.pending(19) && service.pending(20));
    service.surface_checked(17, false);
    let poll = service.poll(vec![], None, false, Some(Target::Window(WINDOW)));
    assert_eq!(poll.responses.len(), 1);
    assert_eq!(poll.responses[0].id, 17);
    assert_eq!(poll.spawn, Some(Target::Window(WINDOW)));
    assert_eq!(service.surface_frame(), Some((18, WINDOW)));
    service.spawned(71);
    service.surface_checked(18, false);
    let poll = service.poll(vec![], None, false, Some(Target::Window(WINDOW)));
    let ids: Vec<u64> = poll.responses.iter().map(|r| r.id).collect();
    assert_eq!(ids, vec![18, 19]);
    assert_eq!(poll.responses[1].result.as_ref().unwrap_err().message, "primary window changed before capture");
    assert_eq!(service.surface_frame(), Some((20, WINDOW)));
}


fn camera_2d() -> ImageCamera {
    ImageCamera {
        camera: 12,
        target: ImageTarget { image: 1, uuid: false, scale_bits: 1.5f32.to_bits() },
        marked_2d: true,
        marked_3d: false,
        has_camera_2d: true,
        has_camera_3d: false,
        active: true,
        full_viewport: true,
        writes_output: true,
        valid_scale: true,
        dimensions_match: true,
        perspective: None,
    }
}

fn camera_3d() -> ImageCamera {
    ImageCamera {
        marked_2d: false,
        marked_3d: true,
        has_camera_2d: false,
        has_camera_3d: true,
        perspective: Some((perspective(0.8), true)),
        ..camera_2d()
    }
}

fn unavailable(result: Result<Selected, woodpecker::protocol::Diagnostic>) -> String {
    let error = result.unwrap_err();
    assert_eq!(error.code, "screenshot_target_unavailable");
    error.message
}

#[test]
fn unmarked_image_camera_is_not_accepted_as_the_fixed_2d_target() {
    let unmarked = ImageCamera { marked_2d: false, ..camera_2d() };
    assert!(unavailable(image_target(false, &[unmarked])).starts_with("selected image target requires"));
}

#[test]
fn image_target_requires_one_initialized_full_image_writing_camera() {
    let uninitialized = ImageCamera { dimensions_match: false, ..camera_2d() };
    unavailable(image_target(false, &[uninitialized]));
    let selected = image_target(false, &[camera_2d()]).unwrap();
    assert_eq!(selected.pipeline, ImagePipeline::TwoD);
    assert_eq!(selected.target.scale_bits, 1.5f32.to_bits());
    let other = ImageCamera { marked_2d: false, camera: 13, ..camera_2d() };
    assert_eq!(
        unavailable(image_target(false, &[camera_2d(), other])),
        "expected one explicitly selected image-target camera"
    );
    assert_eq!(
        unavailable(image_target(true, &[camera_2d()])),
        "headless image capture does not support Window entities"
    );
}

#[test]
fn fixed_3d_target_is_explicit_perspective_and_preserves_full_identity() {
    let selected = image_target(false, &[camera_3d()]).unwrap();
    assert_eq!(selected.pipeline, ImagePipeline::ThreeD);
    assert_eq!(selected.projection, Some(perspective(0.8)));
    unavailable(image_target(false, &[ImageCamera { marked_3d: false, ..camera_3d() }]));
    unavailable(image_target(false, &[ImageCamera { perspective: None, ..camera_3d() }]));
    unavailable(image_target(false, &[ImageCamera { perspective: Some((perspective(0.8), false)), ..camera_3d() }]));
    unavailable(image_target(false, &[ImageCamera { has_camera_2d: true, ..camera_3d() }]));
}

#[test]
fn fixed_3d_rejects_ambiguous_image_cameras_and_window_still_wins() {
    let window = 72;
    let target = capture_target(Ok(window), true, || panic!("image configuration must not be evaluated"));
    assert_eq!(target.unwrap(), Target::Window(window));
    let plain = ImageCamera { marked_3d: false, ..camera_3d() };
    unavailable(image_target(false, &[camera_3d(), plain]));
}

#[test]
fn rendered_window_remains_primary_when_an_image_target_also_exists() {
    let window = rendered_window(Some(RenderedWindow { entity: 41, has_handle: true, width: 800, height: 600 }));
    let target = capture_target(window, true, || image_target(false, &[camera_2d()]));
    assert_eq!(target.unwrap(), Target::Window(41));
}

#[test]
fn missing_ambiguous_or_unrendered_windows_are_rejected() {
    for primary in [
        None,
        Some(RenderedWindow { entity: 1, has_handle: false, width: 800, height: 600 }),
        Some(RenderedWindow { entity: 1, has_handle: true, width: 0, height: 600 }),
    ] {
        let error = capture_target(rendered_window(primary), false, || panic!("not configured")).unwrap_err();
        assert_eq!(error.code, "screenshot_window_unavailable");
        assert_eq!(error.message, "expected one primary rendered window");
    }
    let target = capture_target(rendered_window(None), true, || image_target(false, &[camera_2d()]));
    assert!(matches!(target.unwrap(), Target::Image(s) if s.pipeline == ImagePipeline::TwoD));
}

#[test]
fn png_and_destination_errors_do_not_claim_success() {
    let mut service = fixture();
    service.surface_checked(17, true);
    let poll = service.poll(vec![ENTITY], None, false, Some(Target::Window(WINDOW)));
    assert!(encodes(&poll));
    let failed = Diagnostic::new("screenshot_failed", "unsupported texture format Rg32Uint".into());
    let poll = service.poll(vec![], Some(Err(failed)), false, Some(Target::Window(WINDOW)));
    assert_eq!(rejection(&poll), (17, "screenshot_failed".to_string()));
    assert!(!service.pending(17));
    let directory = destination_state(Ok(false), false).unwrap_err();
    assert_eq!(directory.code, "screenshot_failed");
}
