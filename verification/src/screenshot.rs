//! Screenshot requests: the artifact path rule, the choice of capture target,
//! the record that verifies a capture frame, the readiness of a fixed image
//! output and the queue that serialises captures.
use vstd::prelude::*;
use vstd::utf8::encode_utf8;
use crate::paths::{is_normalized_relative, normalized_relative};
use crate::protocol::Diagnostic;

verus! {

/// Bytes of the screenshot file extension `.png`.
pub open spec fn png() -> Seq<u8> {
    seq![46u8, 112u8, 110u8, 103u8]
}

/// Whether a screenshot path is acceptable: a normalized relative `.png` path.
pub open spec fn valid_screenshot_path(path: Seq<char>) -> bool {
    normalized_relative(encode_utf8(path), png())
}

/// Checks a screenshot path before any capture or file work.
pub fn validate(path: &str) -> (r: Result<(), Diagnostic>)
    ensures
        r is Ok <==> valid_screenshot_path(path@),
        r is Err ==> r->Err_0.code@ == "invalid_screenshot_path"@ && r->Err_0.message@
            == "expected a normalized relative .png path"@,
{
    let ext: [u8; 4] = [46u8, 112u8, 110u8, 103u8];
    let e = ext.as_slice();
    assert(e@ =~= png());
    if is_normalized_relative(path.as_bytes(), e) {
        Ok(())
    } else {
        Err(
            Diagnostic::new(
                "invalid_screenshot_path",
                String::from_str("expected a normalized relative .png path"),
            ),
        )
    }
}

/// The diagnostic of a capture or write that failed.
pub fn failed(message: String) -> (d: Diagnostic)
    ensures
        d.code@ == "screenshot_failed"@,
        d.message == message,
{
    Diagnostic::new("screenshot_failed", message)
}

/// The kinds of file-system failure that the destination rules tell apart.
#[derive(Debug, Clone, Copy, PartialEq, Eq, Structural)]
pub enum IoKind {
    NotFound,
    PermissionDenied,
    AlreadyExists,
    Other,
}

/// A file-system failure: its kind and its text.
#[derive(Debug)]
pub struct IoFailure {
    pub kind: IoKind,
    pub message: String,
}

/// The diagnostic of a failure on the way to the destination: a refused
/// permission names the path as invalid, as an escape from the artifact
/// directory does; any other failure is a failed capture.
pub fn path_error(error: IoFailure) -> (d: Diagnostic)
    ensures
        d.code@ == (if error.kind == IoKind::PermissionDenied {
            "invalid_screenshot_path"@
        } else {
            "screenshot_failed"@
        }),
        d.message == error.message,
{
    if error.kind == IoKind::PermissionDenied {
        Diagnostic::new("invalid_screenshot_path", error.message)
    } else {
        failed(error.message)
    }
}

/// What the destination's metadata says of a prepared path: `Ok(true)` when a
/// regular file will be replaced, `Ok(false)` when nothing is there yet.
///
/// `metadata` is the lookup that follows links inside the artifact directory
/// (`Ok(is_file)`), and `link_present` whether a lookup that does not follow
/// links finds an entry, which is asked only when the first found nothing.
pub fn destination_state(metadata: Result<bool, IoFailure>, link_present: bool) -> (r: Result<
    bool,
    Diagnostic,
>)
    ensures
        match metadata {
            Ok(true) => r == Ok::<bool, Diagnostic>(true),
            Ok(false) => r is Err && r->Err_0.code@ == "screenshot_failed"@
                && r->Err_0.message@ == "screenshot destination is not a regular file"@,
            Err(e) => if e.kind == IoKind::NotFound {
                r == Ok::<bool, Diagnostic>(link_present)
            } else {
                r is Err && r->Err_0.code@ == (if e.kind == IoKind::PermissionDenied {
                    "invalid_screenshot_path"@
                } else {
                    "screenshot_failed"@
                }) && r->Err_0.message == e.message
            },
        },
{
    match metadata {
        Ok(true) => Ok(true),
        Ok(false) => Err(failed(String::from_str("screenshot destination is not a regular file"))),
        Err(e) => if e.kind == IoKind::NotFound {
            Ok(link_present)
        } else {
            Err(path_error(e))
        },
    }
}

/// The render pipeline of a fixed image camera.
#[derive(Debug, Clone, Copy, PartialEq, Eq, Structural)]
pub enum ImagePipeline {
    TwoD,
    ThreeD,
}

/// Where a capture goes: to the primary rendered window (its entity), to the
/// configured image camera, or nowhere.
#[derive(Debug, Clone, Copy, PartialEq, Eq, Structural)]
pub enum Choice {
    Window(u64),
    Image,
    Unavailable,
}

/// A rendered primary window wins; otherwise a configured image camera is
/// used; otherwise no target is available.
pub fn select(window: Option<u64>, image_configured: bool) -> (c: Choice)
    ensures
        c == (match window {
            Some(w) => Choice::Window(w),
            None => if image_configured {
                Choice::Image
            } else {
                Choice::Unavailable
            },
        }),
{
    match window {
        Some(w) => Choice::Window(w),
        None => if image_configured {
            Choice::Image
        } else {
            Choice::Unavailable
        },
    }
}

/// A fixed 2D image camera is supported only when it is marked, is a 2D camera,
/// is active, covers the full viewport, writes its output, has a valid scale and
/// matches its image's dimensions.
pub fn fixed_2d_camera_supported(
    marked: bool,
    camera_2d: bool,
    active: bool,
    full_viewport: bool,
    writes_output: bool,
    valid_scale: bool,
    dimensions_match: bool,
) -> (r: bool)
    ensures
        r == (marked && camera_2d && active && full_viewport && writes_output && valid_scale
            && dimensions_match),
{
    marked && camera_2d && active && full_viewport && writes_output && valid_scale
        && dimensions_match
}

/// What the selection reads of a candidate fixed 3D camera.
#[derive(Debug, Clone, Copy, PartialEq, Eq, Structural)]
pub struct Fixed3dCamera {
    pub marked: bool,
    pub camera_3d: bool,
    pub perspective: bool,
    pub active: bool,
    pub full_viewport: bool,
    pub writes_output: bool,
    pub valid_scale: bool,
    pub dimensions_match: bool,
    pub valid_projection: bool,
}

/// Every constraint on a fixed 3D camera holds, an explicit perspective
/// projection among them.
pub open spec fn fixed_3d_ok(c: Fixed3dCamera) -> bool {
    c.marked && c.camera_3d && c.perspective && c.active && c.full_viewport && c.writes_output
        && c.valid_scale && c.dimensions_match && c.valid_projection
}

/// Whether a fixed 3D camera meets every constraint of a capture target.
pub fn fixed_3d_camera_supported(camera: Fixed3dCamera) -> (r: bool)
    ensures
        r == fixed_3d_ok(camera),
{
    camera.marked && camera.camera_3d && camera.perspective && camera.active
        && camera.full_viewport && camera.writes_output && camera.valid_scale
        && camera.dimensions_match && camera.valid_projection
}

/// The verification of an image capture: a warm-up that waits for a ready
/// frame, then the capture of one screenshot entity with the verdict of its
/// first rendered frame.
#[derive(Debug, Clone, Copy, PartialEq, Eq, Structural)]
pub enum Stage {
    Warmup { ready: bool },
    Capture { entity: u64, result: Option<bool> },
}

/// The frame verdicts of one image capture request.
#[derive(Debug)]
pub struct Verification {
    stage: Stage,
}

/// The stage after a frame report for `entity` (none during warm-up): a warm-up
/// takes the latest readiness, a capture keeps the first verdict for its own
/// entity, and any other report changes nothing.
pub open spec fn after_frame(stage: Stage, entity: Option<u64>, ready: bool) -> Stage {
    match (stage, entity) {
        (Stage::Warmup { .. }, None) => Stage::Warmup { ready },
        (Stage::Capture { entity: expected, result: None }, Some(actual)) => if expected
            == actual {
            Stage::Capture { entity: expected, result: Some(ready) }
        } else {
            stage
        },
        _ => stage,
    }
}

/// The verdict of the capture frame of `entity`, if there is one yet.
pub open spec fn verdict(stage: Stage, entity: u64) -> Option<bool> {
    match stage {
        Stage::Capture { entity: expected, result } => if expected == entity {
            result
        } else {
            None
        },
        _ => None,
    }
}

impl Verification {
    /// The current stage.
    pub closed spec fn stage(&self) -> Stage {
        self.stage
    }

    /// A verification in warm-up that has not seen a ready frame.
    pub fn new() -> (v: Verification)
        ensures
            v.stage() == (Stage::Warmup { ready: false }),
    {
        Verification { stage: Stage::Warmup { ready: false } }
    }

    /// Whether the warm-up has seen a ready frame last.
    pub fn warmup_ready(&self) -> (r: bool)
        ensures
            r == (self.stage() == Stage::Warmup { ready: true }),
    {
        match self.stage {
            Stage::Warmup { ready } => ready,
            _ => false,
        }
    }

    /// Starts the capture of a screenshot entity, with no verdict yet.
    pub fn begin_capture(&mut self, entity: u64)
        ensures
            final(self).stage() == (Stage::Capture { entity, result: None }),
    {
        self.stage = Stage::Capture { entity, result: None };
    }

    /// The verdict of the capture frame of `entity`.
    pub fn capture_result(&self, entity: u64) -> (r: Option<bool>)
        ensures
            r == verdict(self.stage(), entity),
    {
        match self.stage {
            Stage::Capture { entity: expected, result } => if expected == entity {
                result
            } else {
                None
            },
            _ => None,
        }
    }

    /// Records whether a rendered frame was ready, for the screenshot entity it
    /// belongs to (none during warm-up).
    pub fn record_frame(&mut self, entity: Option<u64>, ready: bool)
        ensures
            final(self).stage() == after_frame(old(self).stage(), entity, ready),
    {
        match (self.stage, entity) {
            (Stage::Warmup { .. }, None) => {
                self.stage = Stage::Warmup { ready };
            },
            (Stage::Capture { entity: expected, result: None }, Some(actual)) => {
                if expected == actual {
                    self.stage = Stage::Capture { entity: expected, result: Some(ready) };
                }
            },
            _ => {},
        }
    }
}

/// Once a capture frame has its verdict, no later frame report changes it.
pub proof fn lemma_verdict_is_final(stage: Stage, entity: u64, other: Option<u64>, ready: bool)
    requires
        verdict(stage, entity) is Some,
    ensures
        verdict(after_frame(stage, other, ready), entity) == verdict(stage, entity),
{
}

/// Only a report for the capture's own entity gives it a verdict.
pub proof fn lemma_only_correlated_frame_verifies(
    stage: Stage,
    entity: u64,
    other: Option<u64>,
    ready: bool,
)
    requires
        other != Some(entity),
    ensures
        verdict(after_frame(stage, other, ready), entity) == verdict(stage, entity),
{
}

/// A warm-up report never gives a capture a verdict.
pub proof fn lemma_warmup_never_verifies(stage: Stage, entity: u64, ready: bool)
    ensures
        verdict(after_frame(stage, None, ready), entity) == verdict(stage, entity),
{
}

/// The state of a compiled pipeline, as the pipeline cache reports it.
#[derive(Debug, Clone, Copy, PartialEq, Eq, Structural)]
pub enum CachedState {
    Queued,
    Creating,
    Failed,
    RenderPipeline,
    ComputePipeline,
}

/// Whether a pipeline can be used this frame.
#[derive(Debug, Clone, Copy, PartialEq, Eq, Structural)]
pub enum PipelineStatus {
    Missing,
    Waiting,
    Failed,
    Ready,
}

/// The status of the final output pipeline: absent, still compiling, failed,
/// or ready when it compiled to a render pipeline (a compute pipeline there is
/// a failure).
pub open spec fn status_of(state: Option<CachedState>) -> PipelineStatus {
    match state {
        None => PipelineStatus::Missing,
        Some(CachedState::Queued) => PipelineStatus::Waiting,
        Some(CachedState::Creating) => PipelineStatus::Waiting,
        Some(CachedState::Failed) => PipelineStatus::Failed,
        Some(CachedState::RenderPipeline) => PipelineStatus::Ready,
        Some(CachedState::ComputePipeline) => PipelineStatus::Failed,
    }
}

/// The status of the final output pipeline.
pub fn pipeline_status(state: Option<CachedState>) -> (s: PipelineStatus)
    ensures
        s == status_of(state),
{
    match state {
        None => PipelineStatus::Missing,
        Some(CachedState::Queued) => PipelineStatus::Waiting,
        Some(CachedState::Creating) => PipelineStatus::Waiting,
        Some(CachedState::Failed) => PipelineStatus::Failed,
        Some(CachedState::RenderPipeline) => PipelineStatus::Ready,
        Some(CachedState::ComputePipeline) => PipelineStatus::Failed,
    }
}

/// The status of any other cached pipeline: every compiled pipeline is ready.
pub fn additional_pipeline_status(state: CachedState) -> (s: PipelineStatus)
    ensures
        s == (if state == CachedState::RenderPipeline || state == CachedState::ComputePipeline {
            PipelineStatus::Ready
        } else {
            status_of(Some(state))
        }),
{
    match state {
        CachedState::RenderPipeline => PipelineStatus::Ready,
        CachedState::ComputePipeline => PipelineStatus::Ready,
        _ => pipeline_status(Some(state)),
    }
}

/// How a camera writes its output: with an optional blend state, or not at all.
#[derive(Debug)]
pub enum OutputMode<B> {
    Write { blend_state: Option<B> },
    Skip,
}

/// The specialisation key of the final blit from a view to its target.
#[derive(Debug)]
pub struct BlitKey<F, B, S> {
    pub target_format: F,
    pub blend_state: Option<B>,
    pub samples: u32,
    pub source_space: Option<S>,
}

/// The blit key that the renderer specialises for a view's final output: none
/// for a camera that skips its output or a view without an output format; the
/// camera's own blend state, else alpha blending behind the first camera of a
/// target, else none; one sample.
pub open spec fn key_of<F, B, S>(
    mode: OutputMode<B>,
    sorted_camera_index: usize,
    target_format: Option<F>,
    source_space: Option<S>,
    alpha_blending: B,
) -> Option<BlitKey<F, B, S>> {
    match (mode, target_format) {
        (OutputMode::Write { blend_state }, Some(format)) => Some(
            BlitKey {
                target_format: format,
                blend_state: match blend_state {
                    Some(b) => Some(b),
                    None => if sorted_camera_index > 0 {
                        Some(alpha_blending)
                    } else {
                        None
                    },
                },
                samples: 1,
                source_space,
            },
        ),
        _ => None,
    }
}

/// The blit key of a view's final output.
pub fn upscaling_key<F, B, S>(
    mode: OutputMode<B>,
    sorted_camera_index: usize,
    target_format: Option<F>,
    source_space: Option<S>,
    alpha_blending: B,
) -> (k: Option<BlitKey<F, B, S>>)
    ensures
        k == key_of(mode, sorted_camera_index, target_format, source_space, alpha_blending),
{
    match mode {
        OutputMode::Write { blend_state } => match target_format {
            Some(format) => {
                let blend = match blend_state {
                    Some(b) => Some(b),
                    None => if sorted_camera_index > 0 {
                        Some(alpha_blending)
                    } else {
                        None
                    },
                };
                Some(BlitKey { target_format: format, blend_state: blend, samples: 1, source_space })
            },
            None => None,
        },
        OutputMode::Skip => None,
    }
}

/// An image render target: the image asset's identity and the bits of its
/// scale factor.
#[derive(Debug, Clone, Copy, PartialEq, Eq, Structural)]
pub struct ImageTarget {
    pub image: u128,
    pub uuid: bool,
    pub scale_bits: u32,
}

/// What the readiness decision reads of one extracted camera view.
#[derive(Debug)]
pub struct OutputView<K> {
    pub target: Option<ImageTarget>,
    pub pipeline: Option<ImagePipeline>,
    pub has_3d_depth_texture: bool,
    pub opaque_3d_items: Option<bool>,
    pub has_upscaling_pipeline: bool,
    pub attachment_selected: bool,
    pub key: Option<K>,
}

/// Whether view `i` is the only view that renders into `target`.
pub open spec fn sole_view<K>(views: Seq<OutputView<K>>, target: ImageTarget, i: int) -> bool {
    &&& 0 <= i < views.len()
    &&& views[i].target == Some(target)
    &&& forall|j: int| 0 <= j < views.len() && j != i ==> views[j].target != Some(target)
}

/// Whether a view renders its target through the expected pipeline with every
/// prerequisite of its final output in place; attachment selection alone is
/// never enough.
pub open spec fn view_complete<K>(v: OutputView<K>, pipeline: ImagePipeline) -> bool {
    &&& v.pipeline == Some(pipeline)
    &&& v.has_upscaling_pipeline
    &&& v.attachment_selected
    &&& (pipeline == ImagePipeline::ThreeD ==> v.has_3d_depth_texture && v.opaque_3d_items
        == Some(true))
    &&& v.key is Some
}

/// The key of the final output pipeline to resolve: that of the one complete
/// view of the target, if exactly one view renders into it.
pub open spec fn final_key<K>(views: Seq<OutputView<K>>, target: ImageTarget, pipeline: ImagePipeline) -> Option<K> {
    if exists|i: int| sole_view(views, target, i) && view_complete(views[i], pipeline) {
        let i = choose|i: int| sole_view(views, target, i) && view_complete(views[i], pipeline);
        views[i].key
    } else {
        None
    }
}

/// Whether every listed pipeline is ready.
pub open spec fn all_ready(s: Seq<PipelineStatus>) -> bool {
    forall|i: int| 0 <= i < s.len() ==> s[i] == PipelineStatus::Ready
}

/// Whether the fixed image output of a capture is ready this frame: exactly
/// one view renders into the target, completely, and its final output
/// pipeline and every other pipeline are ready. The final pipeline is resolved
/// only for such a view.
pub fn output_ready<K, R: FnOnce(K) -> PipelineStatus>(
    target: ImageTarget,
    pipeline: ImagePipeline,
    views: Vec<OutputView<K>>,
    resolve: R,
    additional_pipelines: Vec<PipelineStatus>,
) -> (r: bool)
    requires
        forall|k: K| call_requires(resolve, (k,)),
    ensures
        final_key(views@, target, pipeline) is None ==> !r,
        r ==> all_ready(additional_pipelines@) && call_ensures(
            resolve,
            (final_key(views@, target, pipeline)->0,),
            PipelineStatus::Ready,
        ),
        final_key(views@, target, pipeline) is Some && all_ready(additional_pipelines@) && (forall|
            s: PipelineStatus,
        |
            call_ensures(resolve, (final_key(views@, target, pipeline)->0,), s) ==> s
                == PipelineStatus::Ready) ==> r,
{
    let mut remaining = views;
    assert(remaining@ == views@);
    let n = remaining.len();
    let mut found: Option<usize> = None;
    let mut i: usize = 0;
    while i < n
        invariant
            n == remaining@.len(),
            remaining@ == views@,
            i <= n,
            match found {
                None => forall|j: int| 0 <= j < i ==> remaining@[j].target != Some(target),
                Some(f) => {
                    &&& f < i
                    &&& remaining@[f as int].target == Some(target)
                    &&& forall|j: int| 0 <= j < i && j != f ==> remaining@[j].target != Some(target)
                },
            },
        decreases n - i,
    {
        let matches = match remaining[i].target {
            Some(t) => t == target,
            None => false,
        };
        if matches {
            if found.is_some() {
                proof {
                    let f = found->0 as int;
                    assert forall|k: int| !sole_view(remaining@, target, k) by {
                        if sole_view(remaining@, target, k) {
                            if k == f {
                                assert(remaining@[i as int].target == Some(target));
                            } else {
                                assert(remaining@[f].target == Some(target));
                            }
                        }
                    }
                }
                return false;
            }
            found = Some(i);
        }
        i = i + 1;
    }
    let f = match found {
        Some(f) => f,
        None => {
            assert forall|k: int| !sole_view(remaining@, target, k) by {
                if sole_view(remaining@, target, k) {
                    assert(remaining@[k].target == Some(target));
                }
            }
            return false;
        },
    };
    assert(sole_view(remaining@, target, f as int));
    assert forall|k: int| sole_view(remaining@, target, k) implies k == f by {
        if k != f {
            assert(remaining@[f as int].target != Some(target));
        }
    }
    let ghost vs = remaining@;
    let view = remaining.remove(f);
    assert(view == vs[f as int]);
    let complete = match view.pipeline {
        Some(p) => p == pipeline,
        None => false,
    } && view.has_upscaling_pipeline && view.attachment_selected && (match pipeline {
        ImagePipeline::ThreeD => view.has_3d_depth_texture && match view.opaque_3d_items {
            Some(true) => true,
            _ => false,
        },
        ImagePipeline::TwoD => true,
    });
    if !complete {
        assert(!view_complete(vs[f as int], pipeline));
        return false;
    }
    let key = match view.key {
        Some(k) => k,
        None => {
            return false;
        },
    };
    assert(view_complete(vs[f as int], pipeline));
    assert(final_key(vs, target, pipeline) == Some(key));
    let status = resolve(key);
    if status != PipelineStatus::Ready {
        return false;
    }
    let m = additional_pipelines.len();
    let mut j: usize = 0;
    while j < m
        invariant
            m == additional_pipelines@.len(),
            j <= m,
            forall|q: int| 0 <= q < j ==> additional_pipelines@[q] == PipelineStatus::Ready,
        decreases m - j,
    {
        if additional_pipelines[j] != PipelineStatus::Ready {
            return false;
        }
        j = j + 1;
    }
    true
}

} // verus!
