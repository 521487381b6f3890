//! The game-side tick bridge: warps run the game's schedules a bounded number
//! of ticks; between warps the game does not advance.
use vstd::prelude::*;
use crate::error::{Error, ErrorView};
use crate::loader::{WarpCompletion, WarpOutcome, warp_completion_fits};
use crate::protocol::{Capabilities, Diagnostic};

verus! {

/// The warp that is running.
#[derive(Debug, Clone, Copy)]
pub struct Warp {
    pub id: u64,
    pub requested: u64,
    pub executed: u64,
}

/// The completion of a warp, for the request that started it.
#[derive(Debug, Clone, Copy)]
pub struct Finished {
    pub id: u64,
    pub completion: WarpCompletion,
}

/// The tick state of a game.
pub struct Bridge {
    active: Option<Warp>,
    ticks: u64,
}

/// Whether `f` finishes the warp `w` with the given outcome.
pub open spec fn finishes(w: Warp, outcome: WarpOutcome, f: Finished) -> bool {
    &&& f.id == w.id
    &&& f.completion.requested_ticks == w.requested
    &&& f.completion.executed_ticks == w.executed
    &&& f.completion.outcome == outcome
}

impl Bridge {
    /// The running warp.
    pub closed spec fn active_spec(&self) -> Option<Warp> {
        self.active
    }

    /// Ticks executed by this game so far.
    pub closed spec fn ticks_spec(&self) -> u64 {
        self.ticks
    }

    /// A running warp has ticks left.
    pub open spec fn wf(&self) -> bool {
        match self.active_spec() {
            Some(w) => w.executed < w.requested,
            None => true,
        }
    }

    /// A game that has not ticked.
    pub fn new() -> (b: Bridge)
        ensures
            b.wf(),
            b.active_spec() is None,
            b.ticks_spec() == 0,
    {
        Bridge { active: None, ticks: 0 }
    }

    /// Whether a warp is running.
    pub fn running(&self) -> (r: bool)
        ensures
            r == self.active_spec() is Some,
    {
        self.active.is_some()
    }

    /// Whether `id` is the request of the running warp.
    pub fn is_running_request(&self, id: u64) -> (r: bool)
        ensures
            r == (self.active_spec() is Some && self.active_spec()->0.id == id),
    {
        match &self.active {
            Some(w) => w.id == id,
            None => false,
        }
    }

    /// Starts a warp of `ticks` ticks. Zero ticks, an invalid pace and a warp
    /// that is already running are refused in that order.
    pub fn start(&mut self, id: u64, ticks: u64, pace_valid: bool) -> (r: Result<(), Diagnostic>)
        requires
            old(self).wf(),
        ensures
            final(self).wf(),
            final(self).ticks_spec() == old(self).ticks_spec(),
            if ticks == 0 {
                r is Err && r->Err_0.code@ == "invalid_tick_count"@ && r->Err_0.message@
                    == "ticks must be positive"@ && final(self).active_spec() == old(
                    self,
                ).active_spec()
            } else if !pace_valid {
                r is Err && r->Err_0.code@ == "invalid_pace"@ && r->Err_0.message@
                    == "pace must be finite and positive"@ && final(self).active_spec() == old(
                    self,
                ).active_spec()
            } else if old(self).active_spec() is Some {
                r is Err && r->Err_0.code@ == "warp_already_running"@ && r->Err_0.message@
                    == "warp is active"@ && final(self).active_spec() == old(self).active_spec()
            } else {
                r is Ok && final(self).active_spec() == Some(
                    Warp { id, requested: ticks, executed: 0 },
                )
            },
    {
        if ticks == 0 {
            return Err(
                Diagnostic::new("invalid_tick_count", String::from_str("ticks must be positive")),
            );
        }
        if !pace_valid {
            return Err(
                Diagnostic::new(
                    "invalid_pace",
                    String::from_str("pace must be finite and positive"),
                ),
            );
        }
        if self.active.is_some() {
            return Err(Diagnostic::new("warp_already_running", String::from_str("warp is active")));
        }
        self.active = Some(Warp { id, requested: ticks, executed: 0 });
        Ok(())
    }

    /// Accepts a pace change; an invalid pace is refused. Returns whether a
    /// warp is running, whose pacing then restarts.
    pub fn set_pace(&self, pace_valid: bool) -> (r: Result<bool, Diagnostic>)
        ensures
            if !pace_valid {
                r is Err && r->Err_0.code@ == "invalid_pace"@ && r->Err_0.message@
                    == "pace must be finite and positive"@
            } else {
                r == Ok::<bool, Diagnostic>(self.active_spec() is Some)
            },
    {
        if !pace_valid {
            return Err(
                Diagnostic::new(
                    "invalid_pace",
                    String::from_str("pace must be finite and positive"),
                ),
            );
        }
        Ok(self.active.is_some())
    }

    /// Stops the running warp, if any. Returns whether one was running and, if
    /// so, its completion as stopped.
    pub fn stop(&mut self) -> (r: (bool, Option<Finished>))
        requires
            old(self).wf(),
        ensures
            final(self).wf(),
            final(self).active_spec() is None,
            final(self).ticks_spec() == old(self).ticks_spec(),
            r.0 == old(self).active_spec() is Some,
            match old(self).active_spec() {
                Some(w) => r.1 is Some && finishes(w, WarpOutcome::Stopped, r.1->0)
                    && warp_completion_fits(w.requested, r.1->0.completion),
                None => r.1 is None,
            },
    {
        match self.active {
            Some(w) => {
                self.active = None;
                (
                    true,
                    Some(
                        Finished {
                            id: w.id,
                            completion: WarpCompletion {
                                requested_ticks: w.requested,
                                executed_ticks: w.executed,
                                outcome: WarpOutcome::Stopped,
                            },
                        },
                    ),
                )
            },
            None => (false, None),
        }
    }

    /// Records one executed tick of the running warp. The warp completes when
    /// it has executed every requested tick.
    pub fn tick(&mut self) -> (r: Option<Finished>)
        requires
            old(self).wf(),
            old(self).active_spec() is Some,
            old(self).ticks_spec() < u64::MAX,
        ensures
            final(self).wf(),
            final(self).ticks_spec() == old(self).ticks_spec() + 1,
            ({
                let w = old(self).active_spec()->0;
                let done = Warp { executed: (w.executed + 1) as u64, ..w };
                if done.executed == w.requested {
                    &&& final(self).active_spec() is None
                    &&& r is Some
                    &&& finishes(done, WarpOutcome::Completed, r->0)
                    &&& warp_completion_fits(w.requested, r->0.completion)
                } else {
                    final(self).active_spec() == Some(done) && r is None
                }
            }),
    {
        self.ticks = self.ticks + 1;
        match self.active {
            Some(w) => {
                let done = Warp { executed: w.executed + 1, ..w };
                if done.executed == done.requested {
                    self.active = None;
                    Some(
                        Finished {
                            id: done.id,
                            completion: WarpCompletion {
                                requested_ticks: done.requested,
                                executed_ticks: done.executed,
                                outcome: WarpOutcome::Completed,
                            },
                        },
                    )
                } else {
                    self.active = Some(done);
                    None
                }
            },
            None => None,
        }
    }
}

/// A warp of `n` ticks that runs to its end completes with exactly `n`
/// executed ticks, and that completion is accepted when it is replayed.
pub proof fn lemma_completed_warp_replays(w: Warp)
    requires
        w.executed + 1 == w.requested,
    ensures
        warp_completion_fits(
            w.requested,
            WarpCompletion {
                requested_ticks: w.requested,
                executed_ticks: (w.executed + 1) as u64,
                outcome: WarpOutcome::Completed,
            },
        ),
{
}

/// The readiness handshake of a game: its Ready message and, when error
/// tracing is wanted, the confirmation that the tracing layer is installed.
pub struct ReadyGate {
    wire_ready: Option<Capabilities>,
    layer: Option<bool>,
    tracing: bool,
    initialized: bool,
}

/// The handshake state, as a mathematical value.
pub struct GateView {
    pub wire_ready: Option<Capabilities>,
    pub layer: Option<bool>,
    pub tracing: bool,
    pub initialized: bool,
}

/// The result of a confirmation step: the handshake state, and the capabilities to
/// announce if the session became ready just now, or the launch failure.
pub open spec fn confirm_spec(g: GateView) -> (GateView, Result<Option<Capabilities>, ()>) {
    if g.initialized {
        (g, Ok(None))
    } else if g.tracing && g.layer == Some(false) {
        (g, Err(()))
    } else if g.wire_ready is Some && (!g.tracing || g.layer == Some(true)) {
        (GateView { initialized: true, ..g }, Ok(g.wire_ready))
    } else {
        (g, Ok(None))
    }
}

/// The handshake state after the game's Ready message.
pub open spec fn ready_spec(g: GateView, c: Capabilities) -> (GateView, Result<Option<Capabilities>, ()>) {
    if g.wire_ready is Some {
        (g, Err(()))
    } else {
        confirm_spec(GateView { wire_ready: Some(c), ..g })
    }
}

/// The handshake state after the tracing layer reported whether it is installed.
pub open spec fn layer_spec(g: GateView, installed: bool) -> (GateView, Result<Option<Capabilities>, ()>) {
    confirm_spec(GateView { layer: Some(installed), ..g })
}

impl ReadyGate {
    pub closed spec fn view(&self) -> GateView {
        GateView {
            wire_ready: self.wire_ready,
            layer: self.layer,
            tracing: self.tracing,
            initialized: self.initialized,
        }
    }

    /// A handshake before any message.
    pub fn new(tracing: bool) -> (g: ReadyGate)
        ensures
            g.view() == (GateView { wire_ready: None, layer: None, tracing, initialized: false }),
    {
        ReadyGate { wire_ready: None, layer: None, tracing, initialized: false }
    }

    /// Whether the session became ready.
    pub fn initialized(&self) -> (r: bool)
        ensures
            r == self.view().initialized,
    {
        self.initialized
    }

    fn confirm(&mut self) -> (r: Result<Option<Capabilities>, Error>)
        ensures
            final(self).view() == confirm_spec(old(self).view()).0,
            match confirm_spec(old(self).view()).1 {
                Ok(c) => r == Ok::<Option<Capabilities>, Error>(c),
                Err(_) => r is Err && r->Err_0@ == (ErrorView::Launch {
                    message: "tracing error layer was not installed"@,
                }),
            },
    {
        if self.initialized {
            return Ok(None);
        }
        if self.tracing && self.layer == Some(false) {
            return Err(
                Error::Launch { message: String::from_str("tracing error layer was not installed") },
            );
        }
        if self.wire_ready.is_some() && (!self.tracing || self.layer == Some(true)) {
            self.initialized = true;
            return Ok(self.wire_ready);
        }
        Ok(None)
    }

    /// The game's Ready message. A second Ready is invalid. Returns the
    /// capabilities to announce if the session became ready now.
    pub fn ready(&mut self, capabilities: Capabilities) -> (r: Result<Option<Capabilities>, Error>)
        ensures
            final(self).view() == ready_spec(old(self).view(), capabilities).0,
            match ready_spec(old(self).view(), capabilities).1 {
                Ok(c) => r == Ok::<Option<Capabilities>, Error>(c),
                Err(_) => r is Err && (r->Err_0@ == (ErrorView::Protocol {
                    code: "invalid_ready"@,
                    message: "duplicate Ready during handshake"@,
                }) || r->Err_0@ == (ErrorView::Launch {
                    message: "tracing error layer was not installed"@,
                })),
            },
    {
        if self.wire_ready.is_some() {
            return Err(
                Error::Protocol {
                    code: String::from_str("invalid_ready"),
                    message: String::from_str("duplicate Ready during handshake"),
                },
            );
        }
        self.wire_ready = Some(capabilities);
        self.confirm()
    }

    /// The tracing layer's report. Returns the capabilities to announce if the
    /// session became ready now.
    pub fn layer_status(&mut self, installed: bool) -> (r: Result<Option<Capabilities>, Error>)
        ensures
            final(self).view() == layer_spec(old(self).view(), installed).0,
            match layer_spec(old(self).view(), installed).1 {
                Ok(c) => r == Ok::<Option<Capabilities>, Error>(c),
                Err(_) => r is Err && r->Err_0@ == (ErrorView::Launch {
                    message: "tracing error layer was not installed"@,
                }),
            },
    {
        self.layer = Some(installed);
        self.confirm()
    }
}

/// With tracing wanted, the session becomes ready exactly once both the Ready
/// message and a positive layer confirmation arrived, in either order.
pub proof fn lemma_ready_in_either_order(c: Capabilities)
    ensures
        ({
            let g = GateView { wire_ready: None, layer: None, tracing: true, initialized: false };
            let (g1, r1) = ready_spec(g, c);
            let (g2, r2) = layer_spec(g1, true);
            let (h1, s1) = layer_spec(g, true);
            let (h2, s2) = ready_spec(h1, c);
            &&& r1 == Ok::<Option<Capabilities>, ()>(None)
            &&& r2 == Ok::<Option<Capabilities>, ()>(Some(c))
            &&& s1 == Ok::<Option<Capabilities>, ()>(None)
            &&& s2 == Ok::<Option<Capabilities>, ()>(Some(c))
            &&& g2.initialized && h2.initialized
            &&& layer_spec(g2, true).1 == Ok::<Option<Capabilities>, ()>(None)
        }),
{
}

} // verus!
