//! The capture service: queued screenshot requests, the one active capture,
//! and the decisions of each poll. The game side spawns and despawns the
//! screenshot entities, forwards foreign images, encodes and writes files and
//! watches the clock; it hands the results back here.
use vstd::prelude::*;
use std::collections::VecDeque;
use crate::protocol::Diagnostic;
use crate::screenshot::{
    Choice, Fixed3dCamera, ImagePipeline, ImageTarget, Stage, Verification, fixed_2d_camera_supported,
    fixed_3d_camera_supported, fixed_3d_ok, select, verdict,
};

verus! {

/// The projection of a fixed 3D camera, as the bits of its numbers.
#[derive(Debug, Clone, Copy, PartialEq, Eq, Structural)]
pub struct Perspective {
    pub fov: u32,
    pub aspect_ratio: u32,
    pub near: u32,
    pub far: u32,
    pub clip_x: u32,
    pub clip_y: u32,
    pub clip_z: u32,
    pub clip_w: u32,
}

/// A selected fixed image target: the image, the pipeline, the camera entity
/// and, for a 3D camera, its projection.
#[derive(Debug, Clone, Copy, PartialEq, Eq, Structural)]
pub struct Selected {
    pub target: ImageTarget,
    pub pipeline: ImagePipeline,
    pub camera: u64,
    pub projection: Option<Perspective>,
}

/// The target of a capture: a window entity or a fixed image camera.
#[derive(Debug, Clone, Copy, PartialEq, Eq, Structural)]
pub enum Target {
    Window(u64),
    Image(Selected),
}

/// A queued capture request.
#[derive(Debug)]
pub struct Job {
    pub id: u64,
    pub path: String,
    pub target: Target,
}

/// How the frame of the active capture is verified: a window's render surface
/// verdict, set once, or an image camera's verification record.
#[derive(Debug)]
pub enum Check {
    Window { surface: Option<bool> },
    Image(Verification),
}

/// The capture in progress.
#[derive(Debug)]
pub struct Active {
    pub job: Job,
    pub entity: Option<u64>,
    pub writing: bool,
    pub check: Check,
}

/// The written file of a finished capture.
#[derive(Debug)]
pub struct Output {
    pub path: String,
    pub width: u32,
    pub height: u32,
    pub overwritten: bool,
}

/// The answer to a capture request.
#[derive(Debug)]
pub struct Response {
    pub id: u64,
    pub result: Result<Output, Diagnostic>,
}

/// What the game side does during a poll, in order: despawn a screenshot
/// entity, encode and write the image at an index of the poll's images, or
/// hand such an image on to its other observers.
#[derive(Debug)]
pub enum Action {
    Despawn(u64),
    Encode { image: usize, path: String },
    Forward(usize),
}

/// The decisions of one poll: the answers, the actions in order, and the
/// screenshot to spawn for the active capture, if one is due.
#[derive(Debug)]
pub struct Poll {
    pub responses: Vec<Response>,
    pub actions: Vec<Action>,
    pub spawn: Option<Target>,
}

/// The mathematical value of a job.
pub struct JobView {
    pub id: u64,
    pub path: Seq<char>,
    pub target: Target,
}

/// The mathematical value of a verification.
pub enum CheckView {
    Window(Option<bool>),
    Image(Stage),
}

/// The mathematical value of the active capture.
pub struct ActiveView {
    pub job: JobView,
    pub entity: Option<u64>,
    pub writing: bool,
    pub check: CheckView,
}

/// The mathematical value of a capture service.
pub struct ServiceView {
    pub queue: Seq<JobView>,
    pub active: Option<ActiveView>,
}

/// The mathematical value of an answer: the request and the output or the
/// diagnostic's code and message.
pub struct ResponseView {
    pub id: u64,
    pub result: Result<(Seq<char>, u32, u32, bool), (Seq<char>, Seq<char>)>,
}

/// The mathematical value of an action.
pub enum ActionView {
    Despawn(u64),
    Encode { image: usize, path: Seq<char> },
    Forward(usize),
}

/// A poll in progress: the service, the answers and actions so far, and the
/// screenshot due.
pub struct PollView {
    pub service: ServiceView,
    pub responses: Seq<ResponseView>,
    pub actions: Seq<ActionView>,
    pub spawn: Option<Target>,
}

impl Job {
    pub open spec fn view(&self) -> JobView {
        JobView { id: self.id, path: self.path@, target: self.target }
    }
}

impl Check {
    pub open spec fn view(&self) -> CheckView {
        match self {
            Check::Window { surface } => CheckView::Window(*surface),
            Check::Image(v) => CheckView::Image(v.stage()),
        }
    }
}

impl Active {
    pub open spec fn view(&self) -> ActiveView {
        ActiveView {
            job: self.job.view(),
            entity: self.entity,
            writing: self.writing,
            check: self.check.view(),
        }
    }
}

/// The mathematical value of a capture result.
pub open spec fn result_view(r: Result<Output, Diagnostic>) -> Result<
    (Seq<char>, u32, u32, bool),
    (Seq<char>, Seq<char>),
> {
    match r {
        Ok(o) => Ok((o.path@, o.width, o.height, o.overwritten)),
        Err(d) => Err((d.code@, d.message@)),
    }
}

impl Response {
    pub open spec fn view(&self) -> ResponseView {
        ResponseView { id: self.id, result: result_view(self.result) }
    }
}

impl Action {
    pub open spec fn view(&self) -> ActionView {
        match self {
            Action::Despawn(e) => ActionView::Despawn(*e),
            Action::Encode { image, path } => ActionView::Encode { image: *image, path: path@ },
            Action::Forward(i) => ActionView::Forward(*i),
        }
    }
}

/// The answers of a sequence, by value.
pub open spec fn responses_view(s: Seq<Response>) -> Seq<ResponseView> {
    s.map_values(|r: Response| r.view())
}

/// The actions of a sequence, by value.
pub open spec fn actions_view(s: Seq<Action>) -> Seq<ActionView> {
    s.map_values(|a: Action| a.view())
}

/// A rejection of request `id`.
pub open spec fn rejection(id: u64, code: Seq<char>, message: Seq<char>) -> ResponseView {
    ResponseView { id, result: Err((code, message)) }
}

/// The despawn of a screenshot entity, if there is one.
pub open spec fn despawn_of(entity: Option<u64>) -> Seq<ActionView> {
    match entity {
        Some(e) => seq![ActionView::Despawn(e)],
        None => Seq::empty(),
    }
}

/// The service with no active capture.
pub open spec fn cleared(s: ServiceView) -> ServiceView {
    ServiceView { queue: s.queue, active: None }
}

/// A window capture whose frame had no render surface is rejected, before any
/// readback is awaited.
pub open spec fn surface_phase(p: PollView) -> PollView {
    match p.service.active {
        Some(a) => if !a.writing && a.check == CheckView::Window(Some(false)) {
            PollView {
                service: cleared(p.service),
                responses: p.responses.push(
                    rejection(
                        a.job.id,
                        "screenshot_window_unavailable"@,
                        "primary window has no render surface for this capture frame"@,
                    ),
                ),
                actions: p.actions + despawn_of(a.entity),
                spawn: p.spawn,
            }
        } else {
            p
        },
        None => p,
    }
}

/// An image capture whose frame failed its verification is rejected.
pub open spec fn verdict_phase(p: PollView) -> PollView {
    match p.service.active {
        Some(a) => match (a.entity, a.check) {
            (Some(e), CheckView::Image(stage)) => if verdict(stage, e) == Some(false) {
                PollView {
                    service: cleared(p.service),
                    responses: p.responses.push(
                        rejection(
                            a.job.id,
                            "screenshot_failed"@,
                            "capture frame output was not verified"@,
                        ),
                    ),
                    actions: p.actions.push(ActionView::Despawn(e)),
                    spawn: p.spawn,
                }
            } else {
                p
            },
            _ => p,
        },
        None => p,
    }
}

/// Whether the frame of the active capture was verified for `entity`.
pub open spec fn verified(check: CheckView, entity: u64) -> bool {
    match check {
        CheckView::Window(surface) => surface == Some(true),
        CheckView::Image(stage) => verdict(stage, entity) == Some(true),
    }
}

/// The step for image `k` of a poll, captured for entity `e`: the awaited
/// readback of the active capture is written if its frame was verified and
/// rejected otherwise; any other image is handed on.
pub open spec fn image_step(p: PollView, k: usize, e: u64) -> PollView {
    match p.service.active {
        Some(a) => if a.entity == Some(e) && !a.writing {
            if !verified(a.check, e) {
                PollView {
                    service: cleared(p.service),
                    responses: p.responses.push(
                        rejection(
                            a.job.id,
                            "screenshot_failed"@,
                            "capture frame output was not verified"@,
                        ),
                    ),
                    actions: p.actions.push(ActionView::Despawn(e)),
                    spawn: p.spawn,
                }
            } else {
                PollView {
                    service: ServiceView {
                        queue: p.service.queue,
                        active: Some(ActiveView { writing: true, ..a }),
                    },
                    responses: p.responses,
                    actions: p.actions.push(ActionView::Despawn(e)).push(
                        ActionView::Encode { image: k, path: a.job.path },
                    ),
                    spawn: p.spawn,
                }
            }
        } else {
            PollView { actions: p.actions.push(ActionView::Forward(k)), ..p }
        },
        None => PollView { actions: p.actions.push(ActionView::Forward(k)), ..p },
    }
}

/// The first `n` images of a poll, taken in order.
pub open spec fn images_phase(p: PollView, images: Seq<u64>, n: nat) -> PollView
    decreases n,
{
    if n == 0 {
        p
    } else {
        let q = images_phase(p, images, (n - 1) as nat);
        image_step(q, (n - 1) as usize, images[n - 1])
    }
}

/// A finished write answers the active capture.
pub open spec fn completion_phase(
    p: PollView,
    completion: Option<Result<(Seq<char>, u32, u32, bool), (Seq<char>, Seq<char>)>>,
) -> PollView {
    match (completion, p.service.active) {
        (Some(result), Some(a)) => PollView {
            service: cleared(p.service),
            responses: p.responses.push(ResponseView { id: a.job.id, result }),
            ..p
        },
        _ => p,
    }
}

/// An image capture whose warm-up saw a ready frame is due its screenshot.
pub open spec fn warmup_phase(p: PollView) -> PollView {
    match p.service.active {
        Some(a) => if !a.writing && a.entity is None && a.check == CheckView::Image(
            Stage::Warmup { ready: true },
        ) {
            PollView { spawn: Some(a.job.target), ..p }
        } else {
            p
        },
        None => p,
    }
}

/// A capture that waited too long for its readback is rejected; a write in
/// progress is not.
pub open spec fn timeout_phase(p: PollView, timed_out: bool) -> PollView {
    match p.service.active {
        Some(a) => if timed_out && !a.writing {
            PollView {
                service: cleared(p.service),
                responses: p.responses.push(
                    rejection(a.job.id, "screenshot_failed"@, "GPU readback timed out"@),
                ),
                actions: p.actions + despawn_of(a.entity),
                spawn: None,
            }
        } else {
            p
        },
        None => p,
    }
}

/// The rejection of a queued job whose target changed before its capture.
pub open spec fn changed(job: JobView) -> ResponseView {
    match job.target {
        Target::Window(_) => rejection(
            job.id,
            "screenshot_window_unavailable"@,
            "primary window changed before capture"@,
        ),
        Target::Image(_) => rejection(
            job.id,
            "screenshot_target_unavailable"@,
            "image target changed before capture"@,
        ),
    }
}

/// The active capture that a job starts: no entity yet, no verdict yet.
pub open spec fn started(job: JobView) -> ActiveView {
    ActiveView {
        job,
        entity: None,
        writing: false,
        check: match job.target {
            Target::Window(_) => CheckView::Window(None),
            Target::Image(_) => CheckView::Image(Stage::Warmup { ready: false }),
        },
    }
}

/// The screenshot due when a job starts: a window's at once, an image's after
/// its warm-up.
pub open spec fn spawn_at_start(target: Target) -> Option<Target> {
    match target {
        Target::Window(_) => Some(target),
        Target::Image(_) => None,
    }
}

/// With no active capture, queued jobs are taken in order: each whose target
/// is no longer the current one is rejected, and the first whose target is
/// still current starts.
pub open spec fn activation(p: PollView, current: Option<Target>) -> PollView
    decreases p.service.queue.len(),
{
    if p.service.active is Some || p.service.queue.len() == 0 {
        p
    } else {
        let job = p.service.queue[0];
        let rest = p.service.queue.drop_first();
        if current != Some(job.target) {
            activation(
                PollView {
                    service: ServiceView { queue: rest, active: None },
                    responses: p.responses.push(changed(job)),
                    ..p
                },
                current,
            )
        } else {
            PollView {
                service: ServiceView { queue: rest, active: Some(started(job)) },
                spawn: spawn_at_start(job.target),
                ..p
            }
        }
    }
}

/// The whole of a poll, phase by phase.
pub open spec fn poll_of(
    s: ServiceView,
    images: Seq<u64>,
    completion: Option<Result<(Seq<char>, u32, u32, bool), (Seq<char>, Seq<char>)>>,
    timed_out: bool,
    current: Option<Target>,
) -> PollView {
    let p0 = PollView { service: s, responses: Seq::empty(), actions: Seq::empty(), spawn: None };
    let p1 = verdict_phase(surface_phase(p0));
    let p2 = images_phase(p1, images, images.len());
    let p3 = warmup_phase(completion_phase(p2, completion));
    activation(timeout_phase(p3, timed_out), current)
}

/// A poll in progress, from its parts.
pub open spec fn poll_view(
    s: ServiceView,
    responses: Seq<Response>,
    actions: Seq<Action>,
    spawn: Option<Target>,
) -> PollView {
    PollView {
        service: s,
        responses: responses_view(responses),
        actions: actions_view(actions),
        spawn,
    }
}

/// The value of an optional capture result.
pub open spec fn completion_view(c: Option<Result<Output, Diagnostic>>) -> Option<
    Result<(Seq<char>, u32, u32, bool), (Seq<char>, Seq<char>)>,
> {
    match c {
        Some(r) => Some(result_view(r)),
        None => None,
    }
}

proof fn lemma_push_response(s: Seq<Response>, r: Response)
    ensures
        responses_view(s.push(r)) == responses_view(s).push(r.view()),
{
    assert(responses_view(s.push(r)) =~= responses_view(s).push(r.view()));
}

proof fn lemma_push_action(s: Seq<Action>, a: Action)
    ensures
        actions_view(s.push(a)) == actions_view(s).push(a.view()),
{
    assert(actions_view(s.push(a)) =~= actions_view(s).push(a.view()));
}

/// Queued screenshot requests and the one capture in progress; captures of a
/// target are serialised, since the renderer drops concurrent ones.
#[derive(Debug)]
pub struct Service {
    queue: VecDeque<Job>,
    active: Option<Active>,
}

impl View for Service {
    type V = ServiceView;

    closed spec fn view(&self) -> ServiceView {
        ServiceView {
            queue: self.queue@.map_values(|j: Job| j.view()),
            active: match self.active {
                Some(a) => Some(a.view()),
                None => None,
            },
        }
    }
}

fn reject(id: u64, code: &str, message: &str) -> (r: Response)
    ensures
        r.view() == rejection(id, code@, message@),
{
    Response { id, result: Err(Diagnostic::new(code, String::from_str(message))) }
}

impl Service {
    /// A service with nothing queued and nothing in progress.
    pub fn new() -> (s: Service)
        ensures
            s@.queue.len() == 0,
            s@.active is None,
    {
        let s = Service { queue: VecDeque::new(), active: None };
        assert(s@.queue =~= Seq::<JobView>::empty());
        s
    }

    /// Whether request `id` is queued or in progress.
    pub fn pending(&self, id: u64) -> (r: bool)
        ensures
            r == ((self@.active is Some && self@.active->0.job.id == id) || exists|i: int|
                0 <= i < self@.queue.len() && #[trigger] self@.queue[i].id == id),
    {
        let in_progress = match &self.active {
            Some(a) => a.job.id == id,
            None => false,
        };
        if in_progress {
            return true;
        }
        let n = self.queue.len();
        let mut i: usize = 0;
        while i < n
            invariant
                n == self.queue@.len(),
                n == self@.queue.len(),
                i <= n,
                forall|j: int| 0 <= j < i ==> #[trigger] self@.queue[j].id != id,
            decreases n - i,
        {
            assert(self@.queue[i as int] == self.queue@[i as int].view());
            if self.queue[i].id == id {
                assert(self@.queue[i as int].id == id);
                return true;
            }
            i = i + 1;
        }
        false
    }

    /// Queues a capture request behind the others.
    pub fn enqueue(&mut self, id: u64, path: String, target: Target)
        ensures
            final(self)@.queue == old(self)@.queue.push(JobView { id, path: path@, target }),
            final(self)@.active == old(self)@.active,
    {
        let job = Job { id, path, target };
        self.queue.push_back(job);
        assert(final(self)@.queue =~= old(self)@.queue.push(JobView { id, path: path@, target }));
    }

    /// Whether the capture in progress is writing its file.
    pub fn writing(&self) -> (r: bool)
        ensures
            r == (self@.active is Some && self@.active->0.writing),
    {
        match &self.active {
            Some(a) => a.writing,
            None => false,
        }
    }

    /// The request and window whose render surface the next frame must
    /// report: that of a window capture without a surface verdict.
    pub fn surface_frame(&self) -> (r: Option<(u64, u64)>)
        ensures
            r == (match self@.active {
                Some(a) => match (a.job.target, a.check) {
                    (Target::Window(w), CheckView::Window(None)) => Some((a.job.id, w)),
                    _ => None,
                },
                None => None,
            }),
    {
        match &self.active {
            Some(a) => match (a.job.target, &a.check) {
                (Target::Window(w), Check::Window { surface: None }) => Some((a.job.id, w)),
                _ => None,
            },
            None => None,
        }
    }

    /// Records whether the frame that served request `id` had its window's
    /// render surface. Only the first report counts: a later frame cannot
    /// approve an earlier readback.
    pub fn surface_checked(&mut self, id: u64, available: bool)
        ensures
            final(self)@.queue == old(self)@.queue,
            final(self)@.active == (match old(self)@.active {
                Some(a) => if a.job.id == id && a.check == CheckView::Window(None) {
                    Some(ActiveView { check: CheckView::Window(Some(available)), ..a })
                } else {
                    Some(a)
                },
                None => None,
            }),
    {
        let mut slot: Option<Active> = None;
        std::mem::swap(&mut slot, &mut self.active);
        match slot {
            Some(a) => {
                let Active { job, entity, writing, check } = a;
                let check = match check {
                    Check::Window { surface: None } => if job.id == id {
                        Check::Window { surface: Some(available) }
                    } else {
                        Check::Window { surface: None }
                    },
                    other => other,
                };
                self.active = Some(Active { job, entity, writing, check });
            },
            None => {},
        }
    }

    /// The request, image target and screenshot entity whose rendered frames
    /// the render side must judge: those of an image capture in progress.
    pub fn image_request(&self) -> (r: Option<(u64, Selected, Option<u64>)>)
        ensures
            r == (match self@.active {
                Some(a) => match (a.job.target, a.check) {
                    (Target::Image(s), CheckView::Image(_)) => Some((a.job.id, s, a.entity)),
                    _ => None,
                },
                None => None,
            }),
    {
        match &self.active {
            Some(a) => match (a.job.target, &a.check) {
                (Target::Image(s), Check::Image(_)) => Some((a.job.id, s, a.entity)),
                _ => None,
            },
            None => None,
        }
    }

    /// Records whether a frame rendered for request `id` (and screenshot
    /// entity, none during warm-up) was ready.
    pub fn frame_recorded(&mut self, id: u64, entity: Option<u64>, ready: bool)
        ensures
            final(self)@.queue == old(self)@.queue,
            final(self)@.active == (match old(self)@.active {
                Some(a) => match a.check {
                    CheckView::Image(stage) => if a.job.id == id {
                        Some(
                            ActiveView {
                                check: CheckView::Image(
                                    crate::screenshot::after_frame(stage, entity, ready),
                                ),
                                ..a
                            },
                        )
                    } else {
                        Some(a)
                    },
                    _ => Some(a),
                },
                None => None,
            }),
    {
        let mut slot: Option<Active> = None;
        std::mem::swap(&mut slot, &mut self.active);
        match slot {
            Some(a) => {
                let Active { job, entity: e, writing, check } = a;
                let check = match check {
                    Check::Image(mut v) => {
                        if job.id == id {
                            v.record_frame(entity, ready);
                        }
                        Check::Image(v)
                    },
                    other => other,
                };
                self.active = Some(Active { job, entity: e, writing, check });
            },
            None => {},
        }
    }

    /// Whether the capture in progress awaits its screenshot entity.
    pub open spec fn awaiting_spawn(&self) -> bool {
        &&& self@.active is Some
        &&& self@.active->0.entity is None
        &&& !self@.active->0.writing
    }

    /// Records the screenshot entity spawned for the capture in progress; an
    /// image capture then awaits that entity's frame verdict.
    pub fn spawned(&mut self, entity: u64)
        requires
            old(self).awaiting_spawn(),
        ensures
            final(self)@.queue == old(self)@.queue,
            final(self)@.active == Some(
                ActiveView {
                    entity: Some(entity),
                    check: match old(self)@.active->0.check {
                        CheckView::Image(_) => CheckView::Image(
                            Stage::Capture { entity, result: None },
                        ),
                        other => other,
                    },
                    ..old(self)@.active->0
                },
            ),
    {
        let mut slot: Option<Active> = None;
        std::mem::swap(&mut slot, &mut self.active);
        match slot {
            Some(a) => {
                let Active { job, entity: _, writing, check } = a;
                let check = match check {
                    Check::Image(mut v) => {
                        v.begin_capture(entity);
                        Check::Image(v)
                    },
                    other => other,
                };
                self.active = Some(Active { job, entity: Some(entity), writing, check });
            },
            None => {},
        }
    }
}

impl Poll {
    /// This poll's value together with a service.
    pub open spec fn with(&self, s: ServiceView) -> PollView {
        poll_view(s, self.responses@, self.actions@, self.spawn)
    }
}

fn changed_response(job: &Job) -> (r: Response)
    ensures
        r.view() == changed(job.view()),
{
    match job.target {
        Target::Window(_) => reject(
            job.id,
            "screenshot_window_unavailable",
            "primary window changed before capture",
        ),
        Target::Image(_) => reject(
            job.id,
            "screenshot_target_unavailable",
            "image target changed before capture",
        ),
    }
}

impl Service {
    fn take_active(&mut self) -> (a: Option<Active>)
        ensures
            final(self)@ == cleared(old(self)@),
            a == old(self).active,
            match a {
                Some(x) => old(self)@.active == Some(x.view()),
                None => old(self)@.active is None,
            },
    {
        let mut slot: Option<Active> = None;
        std::mem::swap(&mut slot, &mut self.active);
        slot
    }

    fn despawn_into(entity: Option<u64>, out: &mut Poll)
        ensures
            final(out).responses == old(out).responses,
            final(out).spawn == old(out).spawn,
            actions_view(final(out).actions@) == actions_view(old(out).actions@) + despawn_of(
                entity,
            ),
    {
        match entity {
            Some(e) => {
                proof {
                    lemma_push_action(out.actions@, Action::Despawn(e));
                }
                out.actions.push(Action::Despawn(e));
                assert(actions_view(old(out).actions@).push(ActionView::Despawn(e)) =~= actions_view(
                    old(out).actions@,
                ) + despawn_of(entity));
            },
            None => {
                assert(actions_view(old(out).actions@) =~= actions_view(old(out).actions@)
                    + despawn_of(entity));
            },
        }
    }

    fn respond(r: Response, out: &mut Poll)
        ensures
            final(out).actions == old(out).actions,
            final(out).spawn == old(out).spawn,
            responses_view(final(out).responses@) == responses_view(old(out).responses@).push(
                r.view(),
            ),
    {
        proof {
            lemma_push_response(out.responses@, r);
        }
        out.responses.push(r);
    }

    fn surface_step(&mut self, out: &mut Poll)
        ensures
            final(out).with(final(self)@) == surface_phase(old(out).with(old(self)@)),
    {
        let due = match &self.active {
            Some(a) => !a.writing && match a.check {
                Check::Window { surface: Some(false) } => true,
                _ => false,
            },
            None => false,
        };
        if due {
            let a = self.take_active().unwrap();
            let r = reject(
                a.job.id,
                "screenshot_window_unavailable",
                "primary window has no render surface for this capture frame",
            );
            Self::respond(r, out);
            Self::despawn_into(a.entity, out);
        }
    }

    fn verdict_step(&mut self, out: &mut Poll)
        ensures
            final(out).with(final(self)@) == verdict_phase(old(out).with(old(self)@)),
    {
        let due = match &self.active {
            Some(a) => match (a.entity, &a.check) {
                (Some(e), Check::Image(v)) => match v.capture_result(e) {
                    Some(false) => true,
                    _ => false,
                },
                _ => false,
            },
            None => false,
        };
        if due {
            let a = self.take_active().unwrap();
            let e = a.entity.unwrap();
            let r = reject(a.job.id, "screenshot_failed", "capture frame output was not verified");
            Self::respond(r, out);
            proof {
                lemma_push_action(out.actions@, Action::Despawn(e));
            }
            out.actions.push(Action::Despawn(e));
        }
    }

    fn image_one(&mut self, k: usize, e: u64, out: &mut Poll)
        ensures
            final(out).with(final(self)@) == image_step(old(out).with(old(self)@), k, e),
    {
        let ours = match &self.active {
            Some(a) => a.entity == Some(e) && !a.writing,
            None => false,
        };
        if !ours {
            proof {
                lemma_push_action(out.actions@, Action::Forward(k));
            }
            out.actions.push(Action::Forward(k));
            return;
        }
        let a = self.take_active().unwrap();
        let ok = match &a.check {
            Check::Window { surface } => match surface {
                Some(true) => true,
                _ => false,
            },
            Check::Image(v) => match v.capture_result(e) {
                Some(true) => true,
                _ => false,
            },
        };
        if !ok {
            let r = reject(a.job.id, "screenshot_failed", "capture frame output was not verified");
            Self::respond(r, out);
            proof {
                lemma_push_action(out.actions@, Action::Despawn(e));
            }
            out.actions.push(Action::Despawn(e));
        } else {
            let Active { job, entity, writing: _, check } = a;
            let path = job.path.clone();
            proof {
                lemma_push_action(out.actions@, Action::Despawn(e));
            }
            out.actions.push(Action::Despawn(e));
            let act = Action::Encode { image: k, path };
            proof {
                lemma_push_action(out.actions@, act);
            }
            out.actions.push(act);
            self.active = Some(Active { job, entity, writing: true, check });
        }
    }

    fn images_step(&mut self, images: &Vec<u64>, out: &mut Poll)
        ensures
            final(out).with(final(self)@) == images_phase(
                old(out).with(old(self)@),
                images@,
                images@.len(),
            ),
    {
        let ghost p0 = out.with(self@);
        let n = images.len();
        let mut k: usize = 0;
        while k < n
            invariant
                n == images@.len(),
                k <= n,
                out.with(self@) == images_phase(p0, images@, k as nat),
            decreases n - k,
        {
            self.image_one(k, images[k], out);
            k = k + 1;
        }
    }

    fn completion_step(&mut self, completion: Option<Result<Output, Diagnostic>>, out: &mut Poll)
        ensures
            final(out).with(final(self)@) == completion_phase(
                old(out).with(old(self)@),
                completion_view(completion),
            ),
    {
        match completion {
            Some(result) => {
                if self.active.is_some() {
                    let a = self.take_active().unwrap();
                    let r = Response { id: a.job.id, result };
                    Self::respond(r, out);
                }
            },
            None => {},
        }
    }

    fn warmup_step(&mut self, out: &mut Poll)
        ensures
            final(self)@ == old(self)@,
            final(out).with(final(self)@) == warmup_phase(old(out).with(old(self)@)),
    {
        match &self.active {
            Some(a) => {
                if !a.writing && a.entity.is_none() {
                    match &a.check {
                        Check::Image(v) => {
                            if v.warmup_ready() {
                                out.spawn = Some(a.job.target);
                            }
                        },
                        _ => {},
                    }
                }
            },
            None => {},
        }
    }

    fn timeout_step(&mut self, timed_out: bool, out: &mut Poll)
        ensures
            final(out).with(final(self)@) == timeout_phase(old(out).with(old(self)@), timed_out),
    {
        let due = match &self.active {
            Some(a) => timed_out && !a.writing,
            None => false,
        };
        if due {
            let a = self.take_active().unwrap();
            let r = reject(a.job.id, "screenshot_failed", "GPU readback timed out");
            Self::respond(r, out);
            Self::despawn_into(a.entity, out);
            out.spawn = None;
        }
    }

    fn activation_step(&mut self, current: Option<Target>, out: &mut Poll)
        ensures
            final(out).with(final(self)@) == activation(old(out).with(old(self)@), current),
    {
        if self.active.is_some() {
            return;
        }
        let ghost goal = activation(out.with(self@), current);
        let mut done = false;
        while !done && self.queue.len() > 0
            invariant
                !done ==> self@.active is None,
                done ==> self@.active is Some,
                activation(out.with(self@), current) == goal,
            decreases self.queue@.len(),
        {
            let ghost q0 = self.queue@;
            let job = self.queue.pop_front().unwrap();
            assert(self.queue@.map_values(|j: Job| j.view()) =~= q0.map_values(|j: Job| j.view()).drop_first());
            assert(q0.map_values(|j: Job| j.view())[0] == job.view());
            let same = match current {
                Some(t) => t == job.target,
                None => false,
            };
            if !same {
                let r = changed_response(&job);
                Self::respond(r, out);
            } else {
                let check = match job.target {
                    Target::Window(_) => Check::Window { surface: None },
                    Target::Image(_) => Check::Image(Verification::new()),
                };
                let spawn = match job.target {
                    Target::Window(_) => Some(job.target),
                    Target::Image(_) => None,
                };
                self.active = Some(Active { job, entity: None, writing: false, check });
                out.spawn = spawn;
                done = true;
            }
        }
    }

    /// One poll of the service, with the screenshot entities whose images
    /// arrived since the last poll (in order), the result of the file write if
    /// it finished, whether the capture in progress waited past its readback
    /// time, and the capture target as it stands now. The service takes the
    /// phases of [`poll_of`] in turn.
    pub fn poll(
        &mut self,
        images: Vec<u64>,
        completion: Option<Result<Output, Diagnostic>>,
        timed_out: bool,
        current: Option<Target>,
    ) -> (p: Poll)
        ensures
            p.with(final(self)@) == poll_of(
                old(self)@,
                images@,
                completion_view(completion),
                timed_out,
                current,
            ),
    {
        let mut out = Poll { responses: Vec::new(), actions: Vec::new(), spawn: None };
        assert(responses_view(out.responses@) =~= Seq::<ResponseView>::empty());
        assert(actions_view(out.actions@) =~= Seq::<ActionView>::empty());
        self.surface_step(&mut out);
        self.verdict_step(&mut out);
        self.images_step(&images, &mut out);
        self.completion_step(completion, &mut out);
        self.warmup_step(&mut out);
        self.timeout_step(timed_out, &mut out);
        self.activation_step(current, &mut out);
        out
    }
}

/// Whether request `id` is in progress or queued.
pub open spec fn pending_in(s: ServiceView, id: u64) -> bool {
    (s.active is Some && s.active->0.job.id == id) || exists|i: int|
        0 <= i < s.queue.len() && #[trigger] s.queue[i].id == id
}

/// Every answer so far names a request pending in `s`, and every request
/// pending in the poll's service was pending in `s`.
pub open spec fn answers_within(p: PollView, s: ServiceView) -> bool {
    &&& forall|i: int| 0 <= i < p.responses.len() ==> pending_in(s, #[trigger] p.responses[i].id)
    &&& forall|id: u64| pending_in(p.service, id) ==> pending_in(s, id)
}

proof fn lemma_cleared_within(p: PollView, s: ServiceView)
    requires
        answers_within(p, s),
        p.service.active is Some,
    ensures
        pending_in(s, p.service.active->0.job.id),
        forall|id: u64| pending_in(cleared(p.service), id) ==> pending_in(s, id),
{
    assert forall|id: u64| pending_in(cleared(p.service), id) implies pending_in(s, id) by {
        let c = cleared(p.service);
        let i = choose|i: int| 0 <= i < c.queue.len() && #[trigger] c.queue[i].id == id;
        assert(p.service.queue[i].id == id);
        assert(pending_in(p.service, id));
    }
    assert(pending_in(p.service, p.service.active->0.job.id));
}

proof fn lemma_steps_within(p: PollView, s: ServiceView, timed_out: bool)
    requires
        answers_within(p, s),
    ensures
        answers_within(surface_phase(p), s),
        answers_within(verdict_phase(p), s),
        answers_within(warmup_phase(p), s),
        answers_within(timeout_phase(p, timed_out), s),
{
    if p.service.active is Some {
        lemma_cleared_within(p, s);
        let a = p.service.active->0;
        assert forall|id: u64| pending_in(
            ServiceView { queue: p.service.queue, active: Some(ActiveView { writing: true, ..a }) },
            id,
        ) implies pending_in(s, id) by {
            assert(pending_in(p.service, id));
        }
    }
}

proof fn lemma_image_within(p: PollView, s: ServiceView, k: usize, e: u64)
    requires
        answers_within(p, s),
    ensures
        answers_within(image_step(p, k, e), s),
{
    if p.service.active is Some {
        lemma_cleared_within(p, s);
        let a = p.service.active->0;
        assert forall|id: u64| pending_in(
            ServiceView { queue: p.service.queue, active: Some(ActiveView { writing: true, ..a }) },
            id,
        ) implies pending_in(s, id) by {
            assert(pending_in(p.service, id));
        }
    }
}

proof fn lemma_images_within(p: PollView, s: ServiceView, images: Seq<u64>, n: nat)
    requires
        answers_within(p, s),
    ensures
        answers_within(images_phase(p, images, n), s),
    decreases n,
{
    if n > 0 {
        lemma_images_within(p, s, images, (n - 1) as nat);
        lemma_image_within(
            images_phase(p, images, (n - 1) as nat),
            s,
            (n - 1) as usize,
            images[n - 1],
        );
    }
}

proof fn lemma_activation_within(p: PollView, s: ServiceView, current: Option<Target>)
    requires
        answers_within(p, s),
    ensures
        answers_within(activation(p, current), s),
    decreases p.service.queue.len(),
{
    if !(p.service.active is Some || p.service.queue.len() == 0) {
        let job = p.service.queue[0];
        let rest = p.service.queue.drop_first();
        assert(pending_in(p.service, job.id));
        assert forall|id: u64| pending_in(ServiceView { queue: rest, active: None }, id) implies pending_in(
            s,
            id,
        ) by {
            let i = choose|i: int| 0 <= i < rest.len() && #[trigger] rest[i].id == id;
            assert(p.service.queue[i + 1].id == id);
            assert(pending_in(p.service, id));
        }
        if current != Some(job.target) {
            let q = PollView {
                service: ServiceView { queue: rest, active: None },
                responses: p.responses.push(changed(job)),
                ..p
            };
            assert forall|i: int| 0 <= i < q.responses.len() implies pending_in(
                s,
                #[trigger] q.responses[i].id,
            ) by {
                if i < p.responses.len() {
                    assert(q.responses[i] == p.responses[i]);
                }
            }
            lemma_activation_within(q, s, current);
        } else {
            assert forall|id: u64| pending_in(
                ServiceView { queue: rest, active: Some(started(job)) },
                id,
            ) implies pending_in(s, id) by {
                if id != job.id {
                    let i = choose|i: int| 0 <= i < rest.len() && #[trigger] rest[i].id == id;
                    assert(p.service.queue[i + 1].id == id);
                    assert(pending_in(p.service, id));
                }
            }
        }
    }
}

/// Every answer of a poll names a request that was queued or in progress
/// before it: a late image or a late write result for a request already
/// answered or never made brings no answer.
pub proof fn lemma_poll_answers_only_pending(
    s: ServiceView,
    images: Seq<u64>,
    completion: Option<Result<(Seq<char>, u32, u32, bool), (Seq<char>, Seq<char>)>>,
    timed_out: bool,
    current: Option<Target>,
)
    ensures
        forall|i: int|
            0 <= i < poll_of(s, images, completion, timed_out, current).responses.len()
                ==> pending_in(
                s,
                #[trigger] poll_of(s, images, completion, timed_out, current).responses[i].id,
            ),
{
    let p0 = PollView { service: s, responses: Seq::empty(), actions: Seq::empty(), spawn: None };
    assert(answers_within(p0, s));
    lemma_steps_within(p0, s, timed_out);
    let a = surface_phase(p0);
    lemma_steps_within(a, s, timed_out);
    let p1 = verdict_phase(a);
    lemma_images_within(p1, s, images, images.len());
    let p2 = images_phase(p1, images, images.len());
    let c = completion_phase(p2, completion);
    if completion is Some && p2.service.active is Some {
        lemma_cleared_within(p2, s);
        assert forall|i: int| 0 <= i < c.responses.len() implies pending_in(
            s,
            #[trigger] c.responses[i].id,
        ) by {
            if i < p2.responses.len() {
                assert(c.responses[i] == p2.responses[i]);
            }
        }
    }
    assert(answers_within(c, s));
    lemma_steps_within(c, s, timed_out);
    let p3 = warmup_phase(c);
    lemma_steps_within(p3, s, timed_out);
    lemma_activation_within(timeout_phase(p3, timed_out), s, current);
}

/// The number of file writes among actions.
pub open spec fn writes(actions: Seq<ActionView>) -> nat
    decreases actions.len(),
{
    if actions.len() == 0 {
        0
    } else {
        writes(actions.drop_last()) + if actions.last() is Encode {
            1nat
        } else {
            0nat
        }
    }
}

/// Whether the capture in progress is writing its file.
pub open spec fn writing_in(s: ServiceView) -> bool {
    s.active is Some && s.active->0.writing
}

proof fn lemma_writes_push(a: Seq<ActionView>, x: ActionView)
    ensures
        writes(a.push(x)) == writes(a) + if x is Encode {
            1nat
        } else {
            0nat
        },
{
    assert(a.push(x).drop_last() =~= a);
}

proof fn lemma_writes_concat_despawns(a: Seq<ActionView>, e: Option<u64>)
    ensures
        writes(a + despawn_of(e)) == writes(a),
{
    match e {
        Some(x) => {
            assert((a + despawn_of(e)) =~= a.push(ActionView::Despawn(x)));
            lemma_writes_push(a, ActionView::Despawn(x));
        },
        None => {
            assert((a + despawn_of(e)) =~= a);
        },
    }
}

proof fn lemma_images_write_once(p: PollView, images: Seq<u64>, n: nat)
    ensures
        ({
            let q = images_phase(p, images, n);
            &&& writes(q.actions) <= writes(p.actions) + 1
            &&& writing_in(p.service) ==> writes(q.actions) == writes(p.actions) && writing_in(
                q.service,
            )
            &&& writes(q.actions) > writes(p.actions) ==> writing_in(q.service)
            &&& p.service.active is None ==> writes(q.actions) == writes(p.actions)
                && q.service.active is None
        }),
    decreases n,
{
    if n > 0 {
        lemma_images_write_once(p, images, (n - 1) as nat);
        let q = images_phase(p, images, (n - 1) as nat);
        let k = (n - 1) as usize;
        let e = images[n - 1];
        match q.service.active {
            Some(a) => if a.entity == Some(e) && !a.writing {
                if !verified(a.check, e) {
                    lemma_writes_push(q.actions, ActionView::Despawn(e));
                } else {
                    lemma_writes_push(q.actions, ActionView::Despawn(e));
                    lemma_writes_push(
                        q.actions.push(ActionView::Despawn(e)),
                        ActionView::Encode { image: k, path: a.job.path },
                    );
                }
            } else {
                lemma_writes_push(q.actions, ActionView::Forward(k));
            },
            None => {
                lemma_writes_push(q.actions, ActionView::Forward(k));
            },
        }
    }
}

proof fn lemma_activation_writes_nothing(p: PollView, current: Option<Target>)
    ensures
        writes(activation(p, current).actions) == writes(p.actions),
    decreases p.service.queue.len(),
{
    if !(p.service.active is Some || p.service.queue.len() == 0) {
        let job = p.service.queue[0];
        let rest = p.service.queue.drop_first();
        if current != Some(job.target) {
            lemma_activation_writes_nothing(
                PollView {
                    service: ServiceView { queue: rest, active: None },
                    responses: p.responses.push(changed(job)),
                    ..p
                },
                current,
            );
        }
    }
}

/// Captures are serialised: a poll starts at most one file write, and none
/// while the write of the capture in progress is unfinished.
pub proof fn lemma_poll_writes_at_most_once(
    s: ServiceView,
    images: Seq<u64>,
    completion: Option<Result<(Seq<char>, u32, u32, bool), (Seq<char>, Seq<char>)>>,
    timed_out: bool,
    current: Option<Target>,
)
    ensures
        writes(poll_of(s, images, completion, timed_out, current).actions) <= 1,
        writing_in(s) ==> writes(poll_of(s, images, completion, timed_out, current).actions) == 0,
{
    let p0 = PollView { service: s, responses: Seq::empty(), actions: Seq::empty(), spawn: None };
    let a = surface_phase(p0);
    match p0.service.active {
        Some(x) => if !x.writing && x.check == CheckView::Window(Some(false)) {
            lemma_writes_concat_despawns(p0.actions, x.entity);
        },
        None => {},
    }
    let p1 = verdict_phase(a);
    match a.service.active {
        Some(x) => match (x.entity, x.check) {
            (Some(e), CheckView::Image(stage)) => if verdict(stage, e) == Some(false) {
                lemma_writes_push(a.actions, ActionView::Despawn(e));
            },
            _ => {},
        },
        None => {},
    }
    assert(writes(p1.actions) == 0);
    assert(writing_in(s) ==> writing_in(p1.service) || p1.service.active is None);
    lemma_images_write_once(p1, images, images.len());
    let p2 = images_phase(p1, images, images.len());
    let c = completion_phase(p2, completion);
    let p3 = warmup_phase(c);
    let t = timeout_phase(p3, timed_out);
    match p3.service.active {
        Some(x) => if timed_out && !x.writing {
            lemma_writes_concat_despawns(p3.actions, x.entity);
        },
        None => {},
    }
    lemma_activation_writes_nothing(t, current);
}

/// What target selection reads of a camera that renders into an image.
#[derive(Debug, Clone, Copy)]
pub struct ImageCamera {
    pub camera: u64,
    pub target: ImageTarget,
    pub marked_2d: bool,
    pub marked_3d: bool,
    pub has_camera_2d: bool,
    pub has_camera_3d: bool,
    pub active: bool,
    pub full_viewport: bool,
    pub writes_output: bool,
    /// The image target's scale factor is finite and positive.
    pub valid_scale: bool,
    /// The image exists, is not empty, and matches the camera's physical size and scale.
    pub dimensions_match: bool,
    /// A perspective projection, if the camera has one, and whether its parameters
    /// are finite, ordered and fit the target's aspect ratio.
    pub perspective: Option<(Perspective, bool)>,
}

/// Whether a camera is a supported fixed 2D target.
pub open spec fn fixed_2d_ok(c: ImageCamera) -> bool {
    c.marked_2d && (c.has_camera_2d && !c.has_camera_3d) && c.active && c.full_viewport
        && c.writes_output && c.valid_scale && c.dimensions_match
}

/// The camera's perspective projection.
pub open spec fn projection_of(c: ImageCamera) -> Perspective {
    match c.perspective {
        Some((p, _)) => p,
        None => arbitrary(),
    }
}

/// Whether the camera's perspective projection is valid.
pub open spec fn projection_valid(c: ImageCamera) -> bool {
    match c.perspective {
        Some((_, valid)) => valid,
        None => false,
    }
}

/// What the 3D rule reads of a camera with a perspective projection.
pub open spec fn as_fixed_3d(c: ImageCamera, valid_projection: bool) -> Fixed3dCamera {
    Fixed3dCamera {
        marked: c.marked_3d,
        camera_3d: c.has_camera_3d && !c.has_camera_2d,
        perspective: true,
        active: c.active,
        full_viewport: c.full_viewport,
        writes_output: c.writes_output,
        valid_scale: c.valid_scale,
        dimensions_match: c.dimensions_match,
        valid_projection,
    }
}

/// The diagnostic of an unavailable image target.
pub open spec fn target_unavailable(d: Diagnostic, message: Seq<char>) -> bool {
    d.code@ == "screenshot_target_unavailable"@ && d.message@ == message
}

/// Selects the fixed image target: no window may exist, exactly one camera
/// may render into an image, and it must be a supported fixed 2D camera or a
/// supported perspective 3D camera, the 2D rule first.
pub fn image_target(any_window: bool, cameras: &[ImageCamera]) -> (r: Result<Selected, Diagnostic>)
    ensures
        any_window ==> r is Err && target_unavailable(
            r->Err_0,
            "headless image capture does not support Window entities"@,
        ),
        !any_window && cameras@.len() != 1 ==> r is Err && target_unavailable(
            r->Err_0,
            "expected one explicitly selected image-target camera"@,
        ),
        !any_window && cameras@.len() == 1 ==> {
            let c = cameras@[0];
            if fixed_2d_ok(c) {
                r == Ok::<Selected, Diagnostic>(
                    Selected {
                        target: c.target,
                        pipeline: ImagePipeline::TwoD,
                        camera: c.camera,
                        projection: None,
                    },
                )
            } else if c.perspective is Some && fixed_3d_ok(as_fixed_3d(c, projection_valid(c))) {
                r == Ok::<Selected, Diagnostic>(
                    Selected {
                        target: c.target,
                        pipeline: ImagePipeline::ThreeD,
                        camera: c.camera,
                        projection: Some(projection_of(c)),
                    },
                )
            } else {
                r is Err && target_unavailable(
                    r->Err_0,
                    "selected image target requires one initialized active full-image writing camera of an enabled fixed 2D or perspective 3D kind"@,
                )
            }
        },
{
    if any_window {
        return Err(
            Diagnostic::new(
                "screenshot_target_unavailable",
                String::from_str("headless image capture does not support Window entities"),
            ),
        );
    }
    if cameras.len() != 1 {
        return Err(
            Diagnostic::new(
                "screenshot_target_unavailable",
                String::from_str("expected one explicitly selected image-target camera"),
            ),
        );
    }
    let c = cameras[0];
    if fixed_2d_camera_supported(
        c.marked_2d,
        c.has_camera_2d && !c.has_camera_3d,
        c.active,
        c.full_viewport,
        c.writes_output,
        c.valid_scale,
        c.dimensions_match,
    ) {
        return Ok(
            Selected { target: c.target, pipeline: ImagePipeline::TwoD, camera: c.camera, projection: None },
        );
    }
    match c.perspective {
        Some((projection, valid)) => {
            let candidate = Fixed3dCamera {
                marked: c.marked_3d,
                camera_3d: c.has_camera_3d && !c.has_camera_2d,
                perspective: true,
                active: c.active,
                full_viewport: c.full_viewport,
                writes_output: c.writes_output,
                valid_scale: c.valid_scale,
                dimensions_match: c.dimensions_match,
                valid_projection: valid,
            };
            if fixed_3d_camera_supported(candidate) {
                return Ok(
                    Selected {
                        target: c.target,
                        pipeline: ImagePipeline::ThreeD,
                        camera: c.camera,
                        projection: Some(projection),
                    },
                );
            }
        },
        None => {},
    }
    Err(
        Diagnostic::new(
            "screenshot_target_unavailable",
            String::from_str(
                "selected image target requires one initialized active full-image writing camera of an enabled fixed 2D or perspective 3D kind",
            ),
        ),
    )
}

/// What window capture reads of the primary window: its entity, whether it
/// has a native handle, and its physical size.
#[derive(Debug, Clone, Copy)]
pub struct RenderedWindow {
    pub entity: u64,
    pub has_handle: bool,
    pub width: u32,
    pub height: u32,
}

/// The window to capture: the one primary window, when it is rendered.
pub fn rendered_window(primary: Option<RenderedWindow>) -> (r: Result<u64, Diagnostic>)
    ensures
        match primary {
            Some(w) if w.has_handle && w.width > 0 && w.height > 0 => r == Ok::<u64, Diagnostic>(
                w.entity,
            ),
            _ => r is Err && r->Err_0.code@ == "screenshot_window_unavailable"@ && r->Err_0.message@
                == "expected one primary rendered window"@,
        },
{
    match primary {
        Some(w) => {
            if w.has_handle && w.width > 0 && w.height > 0 {
                return Ok(w.entity);
            }
        },
        None => {},
    }
    Err(
        Diagnostic::new(
            "screenshot_window_unavailable",
            String::from_str("expected one primary rendered window"),
        ),
    )
}

/// The target of a new capture: a rendered window wins; without one, a
/// configured image camera is selected by `image`; otherwise the window's
/// failure stands.
pub fn capture_target<F: FnOnce() -> Result<Selected, Diagnostic>>(
    window: Result<u64, Diagnostic>,
    image_configured: bool,
    image: F,
) -> (r: Result<Target, Diagnostic>)
    requires
        call_requires(image, ()),
    ensures
        match window {
            Ok(w) => r == Ok::<Target, Diagnostic>(Target::Window(w)),
            Err(d) => if image_configured {
                exists|s: Result<Selected, Diagnostic>|
                    call_ensures(image, (), s) && r == match s {
                        Ok(t) => Ok::<Target, Diagnostic>(Target::Image(t)),
                        Err(e) => Err::<Target, Diagnostic>(e),
                    }
            } else {
                r == Err::<Target, Diagnostic>(d)
            },
        },
{
    let chosen = match &window {
        Ok(w) => Some(*w),
        Err(_) => None,
    };
    match select(chosen, image_configured) {
        Choice::Window(w) => Ok(Target::Window(w)),
        Choice::Image => {
            let s = image();
            let r = match s {
                Ok(t) => Ok(Target::Image(t)),
                Err(e) => Err(e),
            };
            r
        },
        Choice::Unavailable => match window {
            Ok(w) => Ok(Target::Window(w)),
            Err(d) => Err(d),
        },
    }
}

} // verus!
