//! Request correlation, results, events and history of one session.
use vstd::prelude::*;
use std::collections::{BTreeMap, BTreeSet, VecDeque};
use crate::command::Command;
use crate::error::{Error, ErrorView};
use crate::history::{Entry, Outcome, Recorded, record_of, recorded_of};

verus! {

broadcast use {vstd::std_specs::btree::group_btree_axioms, vstd::laws_cmp::group_laws_cmp};

/// The identifier that the session gave an accepted command.
#[derive(Clone, Copy, Debug, PartialEq, Eq, PartialOrd, Ord, Hash)]
pub struct RequestId(u64);

impl RequestId {
    /// The identifier with the given number.
    pub fn new(id: u64) -> (r: RequestId)
        ensures
            r.number() == id,
    {
        RequestId(id)
    }

    /// The number of this identifier.
    pub fn as_u64(self) -> (r: u64)
        ensures
            r == self.number(),
    {
        self.0
    }

    /// The number of this identifier.
    pub closed spec fn number(self) -> u64 {
        self.0
    }
}

/// The number of events a session queues before it ends for overflow.
pub const EVENT_CAPACITY: usize = 256;

/// The number of recent commands a session keeps in its history.
pub const HISTORY_CAPACITY: usize = 50;

/// Why a session ended.
#[derive(Debug)]
pub enum EndReason {
    ProcessExit { status: String },
    TransportClosed { channel: String },
    TransportFailed { channel: String, message: String },
    EventQueueOverflow { capacity: u32, dropped_events: u64 },
}

/// Something a session reports that answers no request.
#[derive(Debug)]
pub enum Event {
    ProtocolError { code: String, message: String },
    RecordingFailed { path: String, message: String },
    Ended { reason: EndReason },
}

/// A command that was accepted and whose outcome has not yet been taken.
#[derive(Debug)]
pub struct Pending {
    id: RequestId,
    command: Command,
    consumed: bool,
}

impl Pending {
    /// A pending answer for the command accepted under `id`.
    pub fn new(id: u64, command: Command) -> (p: Pending)
        ensures
            p.id_spec() == id,
            p.command_spec() == command,
            !p.is_consumed_spec(),
    {
        Pending { id: RequestId(id), command, consumed: false }
    }

    pub closed spec fn id_spec(&self) -> u64 {
        self.id.0
    }

    pub closed spec fn command_spec(&self) -> Command {
        self.command
    }

    pub closed spec fn is_consumed_spec(&self) -> bool {
        self.consumed
    }

    /// The identifier of the accepted command.
    pub fn request_id(&self) -> (r: RequestId)
        ensures
            r.number() == self.id_spec(),
    {
        self.id
    }

    /// The accepted command.
    pub fn command(&self) -> (r: &Command)
        ensures
            *r == self.command_spec(),
    {
        &self.command
    }

    /// Whether the outcome has already been taken.
    pub fn is_consumed(&self) -> (r: bool)
        ensures
            r == self.is_consumed_spec(),
    {
        self.consumed
    }
}

/// The correlation state of a session, as a mathematical value.
pub struct Ledger {
    /// Outcomes that arrived and were not yet taken.
    pub results: Map<u64, Outcome>,
    /// Requests whose pending answer was dropped before their outcome arrived.
    pub abandoned: Set<u64>,
    /// Whether the session has ended.
    pub ended: bool,
}

/// The ledger after an outcome arrives: a request whose pending answer was
/// dropped leaves no result behind; any other result waits to be taken.
pub open spec fn ledger_complete(l: Ledger, id: u64, outcome: Outcome) -> Ledger {
    if l.abandoned.contains(id) {
        Ledger { abandoned: l.abandoned.remove(id), ..l }
    } else {
        Ledger { results: l.results.insert(id, outcome), ..l }
    }
}

/// The ledger after a pending answer is dropped before it was taken.
pub open spec fn ledger_drop(l: Ledger, id: u64) -> Ledger {
    if l.results.contains_key(id) {
        Ledger { results: l.results.remove(id), ..l }
    } else if !l.ended {
        Ledger { abandoned: l.abandoned.insert(id), ..l }
    } else {
        l
    }
}

/// The ledger after an outcome is taken.
pub open spec fn ledger_take(l: Ledger, id: u64) -> Ledger {
    Ledger { results: l.results.remove(id), ..l }
}

/// The message of the error for a pending answer that cannot be used here.
pub open spec fn invalid_pending_message() -> Seq<char> {
    "pending belongs to another session or was consumed"@
}

/// What asking for the result of request `id` does to the ledger (`l0`
/// before, `l1` after) and to whether its pending is consumed. A pending of
/// another session, or one already consumed, is refused and stays as it was; a
/// result is handed out once and consumes the pending; after the end of the
/// session a request without a result ends with the end; otherwise nothing
/// is there yet.
pub open spec fn receive_effect(
    l0: Ledger,
    l1: Ledger,
    consumed0: bool,
    consumed1: bool,
    id: u64,
    owned: bool,
    r: Result<Option<String>, Error>,
) -> bool {
    if !owned || consumed0 {
        &&& r is Err
        &&& r->Err_0@ == (ErrorView::InvalidPending { message: invalid_pending_message() })
        &&& l1 == l0
        &&& consumed1 == consumed0
    } else if l0.results.contains_key(id) {
        &&& l1 == ledger_take(l0, id)
        &&& consumed1
        &&& match l0.results[id] {
            Ok(output) => r == Ok::<Option<String>, Error>(Some(output)),
            Err(e) => r == Err::<Option<String>, Error>(e),
        }
    } else if l0.ended {
        &&& r is Err
        &&& r->Err_0@ == ErrorView::Ended
        &&& l1 == l0
        &&& consumed1
    } else {
        &&& r == Ok::<Option<String>, Error>(None)
        &&& l1 == l0
        &&& !consumed1
    }
}

/// What taking the oldest event does to the queue (`e0` before, `e1` after):
/// a queued event is handed out in order; an empty queue answers nothing yet,
/// or, once the session ended, that it ended.
pub open spec fn event_receive_effect(
    e0: Seq<Event>,
    e1: Seq<Event>,
    ended: bool,
    r: Result<Option<Event>, Error>,
) -> bool {
    if e0.len() > 0 {
        &&& r == Ok::<Option<Event>, Error>(Some(e0[0]))
        &&& e1 == e0.drop_first()
    } else {
        &&& e1 == e0
        &&& if ended {
            r is Err && r->Err_0@ == ErrorView::Ended
        } else {
            r == Ok::<Option<Event>, Error>(None)
        }
    }
}

/// The history after accepting the commands `commands` under the identifiers
/// `ids`, one after the other.
pub open spec fn history_accept_all(
    h: Seq<(u64, Entry)>,
    ids: Seq<u64>,
    commands: Seq<Command>,
) -> Seq<(u64, Entry)>
    decreases ids.len(),
{
    if ids.len() == 0 || commands.len() == 0 {
        h
    } else {
        history_accept(
            history_accept_all(h, ids.drop_last(), commands.drop_last()),
            ids.last(),
            commands.last(),
        )
    }
}

/// The unanswered history entries of commands accepted under `ids`.
pub open spec fn unanswered_entries(ids: Seq<u64>, commands: Seq<Command>) -> Seq<(u64, Entry)> {
    Seq::new(
        ids.len(),
        |i: int| (ids[i], Entry { command: commands[i], outcome: Recorded::Unanswered }),
    )
}

/// The queue and end reason after the events `new` are offered, one after
/// the other.
pub open spec fn events_offer_all(
    events: Seq<Event>,
    reason: Option<EndReason>,
    new: Seq<Event>,
) -> (Seq<Event>, Option<EndReason>)
    decreases new.len(),
{
    if new.len() == 0 {
        (events, reason)
    } else {
        let (e, r) = events_offer_all(events, reason, new.drop_last());
        events_offer(e, r, new.last())
    }
}

/// The history after a command is accepted: the newest entry is appended and,
/// at capacity, the oldest is dropped.
pub open spec fn history_accept(h: Seq<(u64, Entry)>, id: u64, command: Command) -> Seq<
    (u64, Entry),
> {
    let kept = if h.len() >= HISTORY_CAPACITY {
        h.drop_first()
    } else {
        h
    };
    kept.push((id, Entry { command, outcome: Recorded::Unanswered }))
}

/// Whether `i` is the first position of `id` in the history.
pub open spec fn first_position(h: Seq<(u64, Entry)>, id: u64, i: int) -> bool {
    &&& 0 <= i < h.len()
    &&& h[i].0 == id
    &&& forall|k: int| 0 <= k < i ==> h[k].0 != id
}

/// The history after an outcome arrives: the first entry of that request takes
/// the persisted shape of the outcome; everything else is unchanged.
pub open spec fn history_completed(
    before: Seq<(u64, Entry)>,
    after: Seq<(u64, Entry)>,
    id: u64,
    outcome: Outcome,
) -> bool {
    &&& after.len() == before.len()
    &&& forall|i: int|
        0 <= i < before.len() ==> {
            &&& (#[trigger] after[i]).0 == before[i].0
            &&& after[i].1.command == before[i].1.command
            &&& if first_position(before, id, i) {
                after[i].1.outcome@ == recorded_of(Some(outcome))
            } else {
                after[i].1.outcome == before[i].1.outcome
            }
        }
}

/// The queue after an event is offered: below capacity it is appended; at
/// capacity the session ends for overflow and later drops are counted.
pub open spec fn events_offer(
    events: Seq<Event>,
    reason: Option<EndReason>,
    event: Event,
) -> (Seq<Event>, Option<EndReason>) {
    if events.len() < EVENT_CAPACITY {
        (events.push(event), reason)
    } else {
        match reason {
            Some(EndReason::EventQueueOverflow { capacity, dropped_events }) => (
                events,
                Some(
                    EndReason::EventQueueOverflow {
                        capacity,
                        dropped_events: if dropped_events < u64::MAX {
                            (dropped_events + 1) as u64
                        } else {
                            dropped_events
                        },
                    },
                ),
            ),
            None => (
                events,
                Some(EndReason::EventQueueOverflow { capacity: 256, dropped_events: 1 }),
            ),
            Some(other) => (events, Some(other)),
        }
    }
}

/// Results, abandoned requests, events and history of a session.
pub struct SessionState {
    results: BTreeMap<u64, Outcome>,
    abandoned: BTreeSet<u64>,
    events: VecDeque<Event>,
    history: Vec<(u64, Entry)>,
    ended: bool,
}

impl SessionState {
    /// The correlation state.
    pub closed spec fn ledger(&self) -> Ledger {
        Ledger { results: self.results@, abandoned: self.abandoned@, ended: self.ended }
    }

    /// The queued events, oldest first.
    pub closed spec fn events_spec(&self) -> Seq<Event> {
        self.events@
    }

    /// The recent history, oldest first.
    pub closed spec fn history_spec(&self) -> Seq<(u64, Entry)> {
        self.history@
    }

    /// The history never exceeds its capacity.
    pub closed spec fn wf(&self) -> bool {
        self.history@.len() <= HISTORY_CAPACITY
    }

    /// A fresh session state.
    pub fn new() -> (s: SessionState)
        ensures
            s.wf(),
            s.ledger().results == Map::<u64, Outcome>::empty(),
            s.ledger().abandoned == Set::<u64>::empty(),
            !s.ledger().ended,
            s.events_spec() == Seq::<Event>::empty(),
            s.history_spec() == Seq::<(u64, Entry)>::empty(),
    {
        SessionState {
            results: BTreeMap::new(),
            abandoned: BTreeSet::new(),
            events: VecDeque::new(),
            history: Vec::new(),
            ended: false,
        }
    }

    /// Whether the session has ended.
    pub fn is_ended(&self) -> (r: bool)
        ensures
            r == self.ledger().ended,
    {
        self.ended
    }

    /// Whether an outcome for `id` waits to be taken.
    pub fn has_result(&self, id: u64) -> (r: bool)
        ensures
            r == self.ledger().results.contains_key(id),
    {
        self.results.contains_key(&id)
    }

    /// Whether no event is queued.
    pub fn events_empty(&self) -> (r: bool)
        ensures
            r == (self.events_spec().len() == 0),
    {
        self.events.len() == 0
    }

    /// Adds a just accepted command to the history as unanswered.
    pub fn accept(&mut self, id: u64, command: Command)
        requires
            old(self).wf(),
        ensures
            final(self).wf(),
            final(self).history_spec() == history_accept(old(self).history_spec(), id, command),
            final(self).ledger() == old(self).ledger(),
            final(self).events_spec() == old(self).events_spec(),
    {
        if self.history.len() >= HISTORY_CAPACITY {
            self.history.remove(0);
        }
        self.history.push((id, Entry { command, outcome: Recorded::Unanswered }));
        proof {
            let h = old(self).history@;
            if h.len() >= HISTORY_CAPACITY {
                assert(h.remove(0) =~= h.drop_first());
            }
        }
    }

    /// Records the outcome of request `id`: its history entry takes the outcome,
    /// and the outcome waits to be taken unless its pending answer was dropped.
    pub fn complete(&mut self, id: u64, outcome: Outcome)
        requires
            old(self).wf(),
        ensures
            final(self).wf(),
            final(self).ledger() == ledger_complete(old(self).ledger(), id, outcome),
            history_completed(old(self).history_spec(), final(self).history_spec(), id, outcome),
            final(self).events_spec() == old(self).events_spec(),
    {
        let ghost h0 = self.history@;
        let mut i: usize = 0;
        let n = self.history.len();
        let mut found = false;
        while i < n && !found
            invariant
                n == self.history@.len(),
                self.history@ == h0,
                i <= n,
                found ==> i < n && h0[i as int].0 == id,
                forall|k: int| 0 <= k < i ==> h0[k].0 != id,
            decreases n - i, (if found { 0int } else { 1int }),
        {
            if self.history[i].0 == id {
                found = true;
            } else {
                i = i + 1;
            }
        }
        if found {
            let (key, entry) = self.history.remove(i);
            let recorded = record_of(Some(&outcome));
            self.history.insert(i, (key, Entry { command: entry.command, outcome: recorded }));
            assert(first_position(h0, id, i as int));
            assert forall|j: int| 0 <= j < h0.len() implies {
                &&& (#[trigger] self.history@[j]).0 == h0[j].0
                &&& self.history@[j].1.command == h0[j].1.command
                &&& if first_position(h0, id, j) {
                    self.history@[j].1.outcome@ == recorded_of(Some(outcome))
                } else {
                    self.history@[j].1.outcome == h0[j].1.outcome
                }
            } by {
                if j != i {
                    assert(!first_position(h0, id, j));
                }
            }
        } else {
            assert forall|j: int| 0 <= j < h0.len() implies !first_position(h0, id, j) by {}
        }
        if self.abandoned.contains(&id) {
            self.abandoned.remove(&id);
        } else {
            self.results.insert(id, outcome);
        }
    }

    /// Offers an event: below capacity it is queued; at capacity the session is
    /// marked to end for overflow, and later drops are counted.
    pub fn push_event(&mut self, reason: &mut Option<EndReason>, event: Event)
        ensures
            (final(self).events_spec(), *final(reason)) == events_offer(
                old(self).events_spec(),
                *old(reason),
                event,
            ),
            final(self).ledger() == old(self).ledger(),
            final(self).history_spec() == old(self).history_spec(),
            final(self).wf() == old(self).wf(),
    {
        if self.events.len() < EVENT_CAPACITY {
            self.events.push_back(event);
        } else {
            match reason {
                Some(EndReason::EventQueueOverflow { dropped_events, .. }) => {
                    if *dropped_events < u64::MAX {
                        *dropped_events = *dropped_events + 1;
                    }
                },
                None => {
                    *reason = Some(EndReason::EventQueueOverflow { capacity: 256, dropped_events: 1 });
                },
                Some(_) => {},
            }
        }
    }

    /// Takes the outcome of a pending answer: an answer from another session or
    /// one already taken is refused; a waiting outcome is handed out once; after
    /// the end of the session nothing more will come.
    pub fn try_receive(&mut self, pending: &mut Pending, owned: bool) -> (r: Result<
        Option<String>,
        Error,
    >)
        ensures
            final(pending).id_spec() == old(pending).id_spec(),
            final(pending).command_spec() == old(pending).command_spec(),
            final(self).events_spec() == old(self).events_spec(),
            final(self).history_spec() == old(self).history_spec(),
            final(self).wf() == old(self).wf(),
            receive_effect(
                old(self).ledger(),
                final(self).ledger(),
                old(pending).is_consumed_spec(),
                final(pending).is_consumed_spec(),
                old(pending).id_spec(),
                owned,
                r,
            ),
    {
        if !owned || pending.consumed {
            return Err(
                Error::InvalidPending {
                    message: String::from_str("pending belongs to another session or was consumed"),
                },
            );
        }
        let id = pending.id.0;
        match self.results.remove(&id) {
            Some(result) => {
                pending.consumed = true;
                match result {
                    Ok(output) => Ok(Some(output)),
                    Err(e) => Err(e),
                }
            },
            None => {
                assert(self.results@ =~= old(self).results@);
                if self.ended {
                    pending.consumed = true;
                    Err(Error::ended())
                } else {
                    Ok(None)
                }
            },
        }
    }

    /// Releases a pending answer that will never be taken.
    pub fn drop_pending(&mut self, pending: Pending)
        ensures
            final(self).ledger() == if pending.is_consumed_spec() {
                old(self).ledger()
            } else {
                ledger_drop(old(self).ledger(), pending.id_spec())
            },
            final(self).events_spec() == old(self).events_spec(),
            final(self).history_spec() == old(self).history_spec(),
            final(self).wf() == old(self).wf(),
    {
        if !pending.consumed {
            let id = pending.id.0;
            let removed = self.results.remove(&id);
            if removed.is_none() {
                assert(self.results@ =~= old(self).results@);
                if !self.ended {
                    self.abandoned.insert(id);
                }
            }
        }
    }

    /// Takes the oldest event; after the end of the session an empty queue is an error.
    pub fn try_receive_event(&mut self) -> (r: Result<Option<Event>, Error>)
        ensures
            final(self).ledger() == old(self).ledger(),
            final(self).history_spec() == old(self).history_spec(),
            final(self).wf() == old(self).wf(),
            event_receive_effect(
                old(self).events_spec(),
                final(self).events_spec(),
                old(self).ledger().ended,
                r,
            ),
    {
        match self.events.pop_front() {
            Some(event) => {
                assert(old(self).events@.subrange(1, old(self).events@.len() as int)
                    =~= old(self).events@.drop_first());
                Ok(Some(event))
            },
            None => {
                if self.ended {
                    Err(Error::ended())
                } else {
                    Ok(None)
                }
            },
        }
    }

    /// Ends the session, queueing its end reason where there is one.
    pub fn end(&mut self, reason: Option<EndReason>)
        ensures
            final(self).ledger() == (Ledger { ended: true, ..old(self).ledger() }),
            final(self).history_spec() == old(self).history_spec(),
            final(self).wf() == old(self).wf(),
            final(self).events_spec() == match reason {
                Some(r) => old(self).events_spec().push(Event::Ended { reason: r }),
                None => old(self).events_spec(),
            },
    {
        if let Some(reason) = reason {
            self.events.push_back(Event::Ended { reason });
        }
        self.ended = true;
    }

    /// Copies of the history entries, oldest first.
    pub fn history(&self) -> (r: Vec<Entry>)
        ensures
            r@.len() == self.history_spec().len(),
            forall|i: int| 0 <= i < r@.len() ==> r@[i] == self.history_spec()[i].1,
    {
        let mut out: Vec<Entry> = Vec::new();
        let mut i: usize = 0;
        while i < self.history.len()
            invariant
                i <= self.history@.len(),
                out@.len() == i,
                forall|k: int| 0 <= k < i ==> out@[k] == self.history@[k].1,
            decreases self.history@.len() - i,
        {
            out.push(self.history[i].1.duplicate());
            i = i + 1;
        }
        out
    }
}

/// A dropped pending answer never leaves a result behind: once its outcome
/// arrives, neither a result nor an abandoned mark remains for it.
pub proof fn lemma_dropped_pending_leaves_nothing(l: Ledger, id: u64, outcome: Outcome)
    requires
        !l.results.contains_key(id),
        !l.abandoned.contains(id),
        !l.ended,
    ensures
        !ledger_complete(ledger_drop(l, id), id, outcome).results.contains_key(id),
        !ledger_complete(ledger_drop(l, id), id, outcome).abandoned.contains(id),
        ledger_complete(ledger_drop(l, id), id, outcome).results == l.results,
        ledger_complete(ledger_drop(l, id), id, outcome).abandoned =~= l.abandoned,
{
}

/// An outcome that arrives for a request whose answer is still wanted is
/// handed out exactly as it arrived, and is gone afterwards.
pub proof fn lemma_complete_then_take(l: Ledger, id: u64, outcome: Outcome)
    requires
        !l.abandoned.contains(id),
    ensures
        ledger_complete(l, id, outcome).results.contains_key(id),
        ledger_complete(l, id, outcome).results[id] == outcome,
        !ledger_take(ledger_complete(l, id, outcome), id).results.contains_key(id),
{
}

/// The event queue grows by at most one and never beyond its capacity while
/// it is below it; at capacity the session always has an end reason.
pub proof fn lemma_event_queue_bounded(
    events: Seq<Event>,
    reason: Option<EndReason>,
    event: Event,
)
    requires
        events.len() <= EVENT_CAPACITY,
    ensures
        events_offer(events, reason, event).0.len() <= EVENT_CAPACITY,
        events.len() == EVENT_CAPACITY ==> events_offer(events, reason, event).1 is Some,
        reason is Some ==> events_offer(events, reason, event).1 is Some,
{
}

/// The history never exceeds its capacity and always ends with the newest command.
pub proof fn lemma_history_bounded(h: Seq<(u64, Entry)>, id: u64, command: Command)
    requires
        h.len() <= HISTORY_CAPACITY,
    ensures
        history_accept(h, id, command).len() <= HISTORY_CAPACITY,
        history_accept(h, id, command).last().0 == id,
        history_accept(h, id, command).last().1.command == command,
{
}

/// A result is delivered at most once, and only to the session that accepted
/// its request: a pending of another session is refused and stays usable; an
/// owned pending that was handed its result, or the end of the session, is
/// consumed, and every later request with it is refused and changes nothing.
pub proof fn results_are_delivered_once(
    l0: Ledger,
    l1: Ledger,
    l2: Ledger,
    c0: bool,
    c1: bool,
    c2: bool,
    id: u64,
    owned: bool,
    r1: Result<Option<String>, Error>,
    again: bool,
    r2: Result<Option<String>, Error>,
)
    requires
        receive_effect(l0, l1, c0, c1, id, owned, r1),
        receive_effect(l1, l2, c1, c2, id, again, r2),
    ensures
        !owned ==> l1 == l0 && c1 == c0 && r1 is Err,
        owned && !c0 && r1 != Ok::<Option<String>, Error>(None) ==> c1,
        c1 ==> {
            &&& r2 is Err
            &&& r2->Err_0@ == (ErrorView::InvalidPending { message: invalid_pending_message() })
            &&& l2 == l1
            &&& c2
        },
{
}

/// The history keeps the most recent commands in acceptance order: after
/// commands are accepted one after the other, it holds the last
/// `HISTORY_CAPACITY` of the earlier entries followed by the new ones, each
/// new one unanswered; the oldest leave first.
pub proof fn history_keeps_the_latest(h: Seq<(u64, Entry)>, ids: Seq<u64>, commands: Seq<Command>)
    requires
        h.len() <= HISTORY_CAPACITY,
        ids.len() == commands.len(),
    ensures
        ({
            let all = h + unanswered_entries(ids, commands);
            let kept = if all.len() < HISTORY_CAPACITY {
                all.len() as int
            } else {
                HISTORY_CAPACITY as int
            };
            history_accept_all(h, ids, commands) == all.subrange(all.len() - kept, all.len() as int)
        }),
    decreases ids.len(),
{
    let all = h + unanswered_entries(ids, commands);
    if ids.len() == 0 {
        assert(all =~= h);
        assert(all.subrange(0, all.len() as int) =~= all);
    } else {
        let (pi, pc) = (ids.drop_last(), commands.drop_last());
        history_keeps_the_latest(h, pi, pc);
        let before = h + unanswered_entries(pi, pc);
        let entry = (ids.last(), Entry { command: commands.last(), outcome: Recorded::Unanswered });
        assert(all =~= before.push(entry)) by {
            assert forall|i: int| 0 <= i < all.len() implies all[i] == before.push(entry)[i] by {
                if i >= h.len() && i < all.len() - 1 {
                    assert(unanswered_entries(ids, commands)[i - h.len()] == unanswered_entries(
                        pi,
                        pc,
                    )[i - h.len()]);
                }
            }
        }
        let kb = if before.len() < HISTORY_CAPACITY {
            before.len() as int
        } else {
            HISTORY_CAPACITY as int
        };
        let prev = before.subrange(before.len() - kb, before.len() as int);
        assert(history_accept_all(h, ids, commands) == history_accept(prev, ids.last(), commands.last()));
        if prev.len() >= HISTORY_CAPACITY {
            assert(prev.drop_first().push(entry) =~= all.subrange(
                all.len() - HISTORY_CAPACITY,
                all.len() as int,
            ));
        } else {
            assert(prev.push(entry) =~= all.subrange(0, all.len() as int));
        }
    }
}

/// Offered events fill the queue up to its capacity in order; every later one
/// is dropped and counted, and the session ends for overflow with the number
/// dropped (the count stops at `u64::MAX`). No event is reordered or lost
/// below capacity.
pub proof fn overflow_keeps_the_first_events(events: Seq<Event>, new: Seq<Event>)
    requires
        events.len() <= EVENT_CAPACITY,
    ensures
        ({
            let room = EVENT_CAPACITY - events.len();
            let (queue, reason) = events_offer_all(events, None, new);
            if new.len() <= room {
                &&& queue == events + new
                &&& reason is None
            } else {
                &&& queue == events + new.take(room)
                &&& reason == Some(
                    EndReason::EventQueueOverflow {
                        capacity: 256,
                        dropped_events: if new.len() - room < u64::MAX {
                            (new.len() - room) as u64
                        } else {
                            u64::MAX
                        },
                    },
                )
            }
        }),
    decreases new.len(),
{
    let room = EVENT_CAPACITY - events.len();
    if new.len() == 0 {
        assert(events + new =~= events);
    } else {
        let prev = new.drop_last();
        overflow_keeps_the_first_events(events, prev);
        if prev.len() < room {
            assert(events + new =~= (events + prev).push(new.last()));
        } else {
            assert(new.take(room) =~= prev.take(room));
            if prev.len() == room {
                assert(prev.take(room) =~= prev);
            }
        }
    }
}

/// After the end of a session its events are handed out in order; the end
/// event comes exactly once, after all earlier events; then every request
/// for an event answers that the session ended.
pub proof fn events_drain_then_end_once(
    earlier: Seq<Event>,
    reason: EndReason,
    queues: Seq<Seq<Event>>,
    answers: Seq<Result<Option<Event>, Error>>,
)
    requires
        forall|i: int| 0 <= i < earlier.len() ==> !(#[trigger] earlier[i] is Ended),
        queues.len() == answers.len() + 1,
        queues[0] == earlier.push(Event::Ended { reason }),
        forall|i: int|
            0 <= i < answers.len() ==> event_receive_effect(
                #[trigger] queues[i],
                queues[i + 1],
                true,
                answers[i],
            ),
    ensures
        forall|i: int|
            0 <= i < answers.len() ==> {
                &&& i < earlier.len() ==> answers[i] == Ok::<Option<Event>, Error>(
                    Some(earlier[i]),
                )
                &&& i == earlier.len() ==> answers[i] == Ok::<Option<Event>, Error>(
                    Some(Event::Ended { reason }),
                )
                &&& i > earlier.len() ==> #[trigger] answers[i] is Err && answers[i]->Err_0@
                    == ErrorView::Ended
            },
    decreases answers.len(),
{
    let q = earlier.push(Event::Ended { reason });
    if answers.len() > 0 {
        let n = answers.len() - 1;
        events_drain_then_end_once(earlier, reason, queues.drop_last(), answers.drop_last());
        lemma_queue_after(q, queues, answers, true, n);
        assert forall|i: int| 0 <= i < answers.len() implies {
            &&& i < earlier.len() ==> answers[i] == Ok::<Option<Event>, Error>(Some(earlier[i]))
            &&& i == earlier.len() ==> answers[i] == Ok::<Option<Event>, Error>(
                Some(Event::Ended { reason }),
            )
            &&& i > earlier.len() ==> #[trigger] answers[i] is Err && answers[i]->Err_0@
                == ErrorView::Ended
        } by {
            if i < n {
                assert(answers.drop_last()[i] == answers[i]);
            } else {
                assert(event_receive_effect(queues[n], queues[n + 1], true, answers[n]));
                if n < q.len() {
                    assert(queues[n][0] == q[n]);
                }
            }
        }
    }
}

proof fn lemma_queue_after(
    q: Seq<Event>,
    queues: Seq<Seq<Event>>,
    answers: Seq<Result<Option<Event>, Error>>,
    ended: bool,
    n: int,
)
    requires
        0 <= n < queues.len(),
        queues.len() <= answers.len() + 1,
        queues[0] == q,
        forall|i: int|
            0 <= i < answers.len() && i + 1 < queues.len() ==> event_receive_effect(
                #[trigger] queues[i],
                queues[i + 1],
                ended,
                answers[i],
            ),
    ensures
        queues[n] == q.skip(if n < q.len() { n } else { q.len() as int }),
    decreases n,
{
    if n == 0 {
        assert(q.skip(0) =~= q);
    } else {
        lemma_queue_after(q, queues, answers, ended, n - 1);
        assert(event_receive_effect(queues[n - 1], queues[n], ended, answers[n - 1]));
        if n - 1 < q.len() {
            assert(q.skip(n - 1).drop_first() =~= q.skip(n));
        }
    }
}

/// Outcomes that arrived before the end of a session are still handed out
/// after it.
pub proof fn results_survive_the_end(
    l0: Ledger,
    l1: Ledger,
    id: u64,
    r: Result<Option<String>, Error>,
    consumed: bool,
)
    requires
        l0.results.contains_key(id),
        receive_effect(Ledger { ended: true, ..l0 }, l1, false, consumed, id, true, r),
    ensures
        match l0.results[id] {
            Ok(output) => r == Ok::<Option<String>, Error>(Some(output)),
            Err(e) => r == Err::<Option<String>, Error>(e),
        },
        consumed,
{
}

} // verus!
