//! The virtual keyboard: accepted key transitions between ticks, and how
//! queued key edges update the physical and logical key state on a tick.
use vstd::prelude::*;
use std::collections::BTreeSet;
use crate::protocol::Diagnostic;

verus! {

broadcast use {vstd::std_specs::btree::group_btree_axioms, vstd::laws_cmp::group_laws_cmp};

/// Where keyboard input goes.
#[derive(Debug, PartialEq, Eq, Structural, Clone, Copy)]
pub enum Target {
    /// The primary window entity.
    Window(u64),
    /// The one fixed headless capture camera.
    Headless,
}

/// What the application observed about the fixed headless capture camera
/// candidate, the only entity marked as a 2D or 3D capture camera.
#[derive(Debug, Clone, Copy)]
pub struct Candidate {
    pub marked_2d: bool,
    pub marked_3d: bool,
    pub camera_2d: bool,
    pub camera_3d: bool,
    pub image_target: bool,
    /// The image target's scale factor is finite and positive.
    pub valid_scale: bool,
    /// The camera is active, covers the whole target and writes its output.
    pub camera_ready: bool,
    /// The camera has a perspective projection with finite, ordered parameters.
    pub valid_projection: bool,
}

/// Whether the candidate is an acceptable headless keyboard target: exactly
/// one kind of marker, and then either a 2D camera on an image, or a 3D-only
/// camera on a validly scaled image, ready to write, with a valid perspective.
pub open spec fn headless_candidate(c: Candidate) -> bool {
    &&& c.marked_2d != c.marked_3d
    &&& {
        ||| (c.marked_2d && c.camera_2d && c.image_target)
        ||| (c.marked_3d && c.camera_3d && !c.camera_2d && c.image_target && c.valid_scale
            && c.camera_ready && c.valid_projection)
    }
}

/// The message of an unavailable keyboard target.
pub open spec fn keyboard_unavailable_message() -> Seq<char> {
    "expected exactly one primary window or fixed headless 2D/perspective 3D target"@
}

/// Chooses where keyboard input goes: the unique primary window; otherwise,
/// when no window exists at all, a single acceptable headless camera.
pub fn target(
    primary_window: Option<u64>,
    any_window: bool,
    marked: &[Candidate],
) -> (r: Result<Target, Diagnostic>)
    ensures
        match primary_window {
            Some(w) => r == Ok::<Target, Diagnostic>(Target::Window(w)),
            None => if !any_window && marked@.len() == 1 && headless_candidate(marked@[0]) {
                r == Ok::<Target, Diagnostic>(Target::Headless)
            } else {
                &&& r is Err
                &&& r->Err_0.code@ == "keyboard_window_unavailable"@
                &&& r->Err_0.message@ == keyboard_unavailable_message()
            },
        },
{
    if let Some(w) = primary_window {
        return Ok(Target::Window(w));
    }
    if !any_window && marked.len() == 1 {
        let c = marked[0];
        if c.marked_2d != c.marked_3d {
            if c.marked_2d && c.camera_2d && c.image_target {
                return Ok(Target::Headless);
            }
            if c.marked_3d && c.camera_3d && !c.camera_2d && c.image_target && c.valid_scale
                && c.camera_ready && c.valid_projection {
                return Ok(Target::Headless);
            }
        }
    }
    Err(
        Diagnostic::new(
            "keyboard_window_unavailable",
            String::from_str(
                "expected exactly one primary window or fixed headless 2D/perspective 3D target",
            ),
        ),
    )
}

/// A key edge accepted between ticks.
#[derive(Debug, PartialEq, Eq, Structural, Clone, Copy)]
pub struct Edge {
    pub physical: u32,
    pub logical: u32,
    pub target: Target,
    pub pressed: bool,
}

/// Accepted keyboard state: the keys held by the virtual keyboard and the
/// edges waiting for the next tick.
pub struct State {
    pressed: BTreeSet<u32>,
    pending: Vec<Edge>,
}

impl State {
    /// The physical keys held.
    pub closed spec fn pressed_spec(&self) -> Set<u32> {
        self.pressed@
    }

    /// The edges waiting for the next tick.
    pub closed spec fn pending_spec(&self) -> Seq<Edge> {
        self.pending@
    }

    /// A keyboard with no key held.
    pub fn new() -> (s: State)
        ensures
            s.pressed_spec() == Set::<u32>::empty(),
            s.pending_spec().len() == 0,
    {
        State { pressed: BTreeSet::new(), pending: Vec::new() }
    }

    /// Accepts a key press (`down`) or release. A token that names no key, a
    /// missing target, a press of a held key and a release of a free key are
    /// refused in that order, and a refusal changes nothing. `resolved` is the
    /// physical and logical key the token names, if any.
    pub fn key(
        &mut self,
        token: &str,
        resolved: Option<(u32, u32)>,
        target: Result<Target, Diagnostic>,
        down: bool,
    ) -> (r: Result<(), Diagnostic>)
        ensures
            r is Err ==> final(self).pressed_spec() == old(self).pressed_spec()
                && final(self).pending_spec() == old(self).pending_spec(),
            match resolved {
                None => r is Err && r->Err_0.code@ == "invalid_key"@ && r->Err_0.message@
                    == token@,
                Some((physical, logical)) => match target {
                    Err(d) => r == Err::<(), Diagnostic>(d),
                    Ok(t) => if old(self).pressed_spec().contains(physical) == down {
                        &&& r is Err
                        &&& r->Err_0.code@ == if down {
                            "key_already_pressed"@
                        } else {
                            "key_not_pressed"@
                        }
                        &&& r->Err_0.message@ == token@
                    } else {
                        &&& r is Ok
                        &&& final(self).pressed_spec() == if down {
                            old(self).pressed_spec().insert(physical)
                        } else {
                            old(self).pressed_spec().remove(physical)
                        }
                        &&& final(self).pending_spec() == old(self).pending_spec().push(
                            Edge { physical, logical, target: t, pressed: down },
                        )
                    },
                },
            },
    {
        let (physical, logical) = match resolved {
            None => {
                return Err(Diagnostic::new("invalid_key", String::from_str(token)));
            },
            Some(k) => k,
        };
        let t = match target {
            Err(d) => {
                return Err(d);
            },
            Ok(t) => t,
        };
        if self.pressed.contains(&physical) == down {
            let code = if down {
                "key_already_pressed"
            } else {
                "key_not_pressed"
            };
            return Err(Diagnostic::new(code, String::from_str(token)));
        }
        if down {
            self.pressed.insert(physical);
        } else {
            self.pressed.remove(&physical);
        }
        self.pending.push(Edge { physical, logical, target: t, pressed: down });
        Ok(())
    }

    /// Whether a physical key is held by the virtual keyboard.
    pub fn is_pressed(&self, physical: u32) -> (r: bool)
        ensures
            r == self.pressed_spec().contains(physical),
    {
        self.pressed.contains(&physical)
    }

    /// The edges waiting for the next tick, oldest first.
    pub fn pending(&self) -> (r: &Vec<Edge>)
        ensures
            r@ == self.pending_spec(),
    {
        &self.pending
    }

    /// Hands the waiting edges to the next tick, oldest first.
    pub fn flush(&mut self) -> (r: Vec<Edge>)
        ensures
            r@ == old(self).pending_spec(),
            final(self).pending_spec().len() == 0,
            final(self).pressed_spec() == old(self).pressed_spec(),
    {
        let mut out: Vec<Edge> = Vec::new();
        std::mem::swap(&mut out, &mut self.pending);
        out
    }
}

/// The state of a set of buttons during one tick.
pub struct Buttons {
    pub pressed: Set<u32>,
    pub just_pressed: Set<u32>,
    pub just_released: Set<u32>,
}

/// A press: a button that was up goes down and was just pressed.
pub open spec fn press(b: Buttons, k: u32) -> Buttons {
    if b.pressed.contains(k) {
        b
    } else {
        Buttons { pressed: b.pressed.insert(k), just_pressed: b.just_pressed.insert(k), ..b }
    }
}

/// A release: a button that was down goes up and was just released.
pub open spec fn release(b: Buttons, k: u32) -> Buttons {
    if b.pressed.contains(k) {
        Buttons { pressed: b.pressed.remove(k), just_released: b.just_released.insert(k), ..b }
    } else {
        b
    }
}

/// The key state on a tick: physical and logical buttons, and which logical
/// key each held physical key produces.
pub struct KeyState {
    pub physical: Buttons,
    pub logical: Buttons,
    pub held: Map<u32, u32>,
}

/// Applies one key edge. A press holds both keys. A release frees the physical
/// key, and the logical key only when no other held physical key produces it.
pub open spec fn apply(s: KeyState, e: Edge) -> KeyState {
    if e.pressed {
        KeyState {
            physical: press(s.physical, e.physical),
            logical: press(s.logical, e.logical),
            held: s.held.insert(e.physical, e.logical),
        }
    } else {
        let held = s.held.remove(e.physical);
        KeyState {
            physical: release(s.physical, e.physical),
            logical: if exists|k: u32| #[trigger] held.contains_key(k) && held[k] == e.logical {
                s.logical
            } else {
                release(s.logical, e.logical)
            },
            held,
        }
    }
}

/// Releasing one of two held physical keys that produce the same logical key
/// (the two Shift keys, say) leaves that logical key held.
pub proof fn lemma_shared_logical_key_survives_one_release(
    s: KeyState,
    first: u32,
    second: u32,
    logical: u32,
    target: Target,
)
    requires
        first != second,
        s.held.contains_key(first) && s.held[first] == logical,
        s.held.contains_key(second) && s.held[second] == logical,
        s.logical.pressed.contains(logical),
    ensures
        apply(s, Edge { physical: first, logical, target, pressed: false }).logical.pressed.contains(
            logical,
        ),
        !apply(s, Edge { physical: first, logical, target, pressed: false }).held.contains_key(
            first,
        ),
{
    let held = s.held.remove(first);
    assert(held.contains_key(second) && held[second] == logical);
}

/// Releasing the last held physical key of a logical key releases it, and it
/// counts as just released on that tick.
pub proof fn lemma_last_release_frees_logical_key(
    s: KeyState,
    physical: u32,
    logical: u32,
    target: Target,
)
    requires
        s.held.contains_key(physical) && s.held[physical] == logical,
        forall|k: u32| s.held.contains_key(k) && k != physical ==> s.held[k] != logical,
        s.logical.pressed.contains(logical),
    ensures
        !apply(s, Edge { physical, logical, target, pressed: false }).logical.pressed.contains(
            logical,
        ),
        apply(s, Edge { physical, logical, target, pressed: false }).logical.just_released.contains(
            logical,
        ),
{
}

/// Buttons as a tick sees them: held, and pressed or released since the last
/// clear.
pub struct Input {
    pressed: BTreeSet<u32>,
    just_pressed: BTreeSet<u32>,
    just_released: BTreeSet<u32>,
}

impl Input {
    /// The buttons' state.
    pub closed spec fn view(&self) -> Buttons {
        Buttons {
            pressed: self.pressed@,
            just_pressed: self.just_pressed@,
            just_released: self.just_released@,
        }
    }

    /// No button held or changed.
    pub fn new() -> (i: Input)
        ensures
            i.view().pressed == Set::<u32>::empty(),
            i.view().just_pressed == Set::<u32>::empty(),
            i.view().just_released == Set::<u32>::empty(),
    {
        Input { pressed: BTreeSet::new(), just_pressed: BTreeSet::new(), just_released: BTreeSet::new() }
    }

    /// Whether a button is held.
    pub fn is_pressed(&self, k: u32) -> (r: bool)
        ensures
            r == self.view().pressed.contains(k),
    {
        self.pressed.contains(&k)
    }

    /// Whether a button was pressed since the last clear.
    pub fn just_pressed(&self, k: u32) -> (r: bool)
        ensures
            r == self.view().just_pressed.contains(k),
    {
        self.just_pressed.contains(&k)
    }

    /// Whether a button was released since the last clear.
    pub fn just_released(&self, k: u32) -> (r: bool)
        ensures
            r == self.view().just_released.contains(k),
    {
        self.just_released.contains(&k)
    }

    fn press(&mut self, k: u32)
        ensures
            final(self).view() == press(old(self).view(), k),
    {
        if !self.pressed.contains(&k) {
            self.pressed.insert(k);
            self.just_pressed.insert(k);
        }
        assert(final(self).view().pressed =~= press(old(self).view(), k).pressed);
        assert(final(self).view().just_pressed =~= press(old(self).view(), k).just_pressed);
    }

    fn release(&mut self, k: u32)
        ensures
            final(self).view() == release(old(self).view(), k),
    {
        if self.pressed.contains(&k) {
            self.pressed.remove(&k);
            self.just_released.insert(k);
        }
        assert(final(self).view().pressed =~= release(old(self).view(), k).pressed);
        assert(final(self).view().just_released =~= release(old(self).view(), k).just_released);
    }

    fn clear(&mut self)
        ensures
            final(self).view() == cleared(old(self).view()),
    {
        self.just_pressed = BTreeSet::new();
        self.just_released = BTreeSet::new();
        assert(final(self).view().just_pressed =~= Set::<u32>::empty());
    }
}

/// Buttons at the start of a tick: still held, nothing just changed.
pub open spec fn cleared(b: Buttons) -> Buttons {
    Buttons { pressed: b.pressed, just_pressed: Set::empty(), just_released: Set::empty() }
}

/// The map of held physical keys to the logical keys they produce.
pub open spec fn held_map(v: Seq<(u32, u32)>) -> Map<u32, u32> {
    Map::new(
        |k: u32| exists|i: int| 0 <= i < v.len() && (#[trigger] v[i]).0 == k,
        |k: u32| v[choose|i: int| 0 <= i < v.len() && (#[trigger] v[i]).0 == k].1,
    )
}

/// Whether no physical key occurs twice.
pub open spec fn distinct_keys(v: Seq<(u32, u32)>) -> bool {
    forall|i: int, j: int| 0 <= i < v.len() && 0 <= j < v.len() && i != j ==> (#[trigger] v[i]).0
        != (#[trigger] v[j]).0
}

/// The key state of the game: physical and logical buttons and the logical
/// key of each held physical key.
pub struct Keys {
    physical: Input,
    logical: Input,
    held: Vec<(u32, u32)>,
}

/// Applies edges in order.
pub open spec fn apply_all(s: KeyState, edges: Seq<Edge>) -> KeyState
    decreases edges.len(),
{
    if edges.len() == 0 {
        s
    } else {
        apply(apply_all(s, edges.drop_last()), edges.last())
    }
}

/// The key state at the start of a tick.
pub open spec fn tick_start(s: KeyState) -> KeyState {
    KeyState { physical: cleared(s.physical), logical: cleared(s.logical), held: s.held }
}

impl Keys {
    /// The key state.
    pub closed spec fn view(&self) -> KeyState {
        KeyState {
            physical: self.physical.view(),
            logical: self.logical.view(),
            held: held_map(self.held@),
        }
    }

    /// The tracker's own invariant.
    pub closed spec fn wf(&self) -> bool {
        distinct_keys(self.held@)
    }

    /// No key held.
    pub fn new() -> (k: Keys)
        ensures
            k.wf(),
            k.view().physical.pressed == Set::<u32>::empty(),
            k.view().physical.just_pressed == Set::<u32>::empty(),
            k.view().physical.just_released == Set::<u32>::empty(),
            k.view().logical.pressed == Set::<u32>::empty(),
            k.view().logical.just_pressed == Set::<u32>::empty(),
            k.view().logical.just_released == Set::<u32>::empty(),
            k.view().held == Map::<u32, u32>::empty(),
    {
        let k = Keys { physical: Input::new(), logical: Input::new(), held: Vec::new() };
        assert(k.view().held =~= Map::<u32, u32>::empty());
        k
    }

    /// The physical keys.
    pub fn physical(&self) -> (r: &Input)
        ensures
            r.view() == self.view().physical,
    {
        &self.physical
    }

    /// The logical keys.
    pub fn logical(&self) -> (r: &Input)
        ensures
            r.view() == self.view().logical,
    {
        &self.logical
    }

    fn position(&self, k: u32) -> (r: Option<usize>)
        ensures
            match r {
                Some(i) => i < self.held@.len() && self.held@[i as int].0 == k,
                None => forall|i: int| 0 <= i < self.held@.len() ==> (#[trigger] self.held@[i]).0
                    != k,
            },
    {
        let n = self.held.len();
        let mut i: usize = 0;
        while i < n
            invariant
                n == self.held@.len(),
                i <= n,
                forall|j: int| 0 <= j < i ==> (#[trigger] self.held@[j]).0 != k,
            decreases n - i,
        {
            if self.held[i].0 == k {
                return Some(i);
            }
            i = i + 1;
        }
        None
    }

    fn produces(&self, logical: u32) -> (r: bool)
        requires
            self.wf(),
        ensures
            r == exists|k: u32| #[trigger] self.view().held.contains_key(k) && self.view().held[k]
                == logical,
    {
        let n = self.held.len();
        let mut i: usize = 0;
        while i < n
            invariant
                n == self.held@.len(),
                i <= n,
                self.wf(),
                forall|j: int| 0 <= j < i ==> (#[trigger] self.held@[j]).1 != logical,
            decreases n - i,
        {
            if self.held[i].1 == logical {
                proof {
                    let k = self.held@[i as int].0;
                    assert(self.view().held.contains_key(k));
                    let c = choose|q: int| 0 <= q < self.held@.len() && (#[trigger] self.held@[q]).0
                        == k;
                    assert(c == i);
                }
                return true;
            }
            i = i + 1;
        }
        assert forall|k: u32| #[trigger] self.view().held.contains_key(k) implies self.view().held[k]
            != logical by {
            let c = choose|q: int| 0 <= q < self.held@.len() && (#[trigger] self.held@[q]).0 == k;
            assert(self.held@[c].1 != logical);
        }
        false
    }

    /// Applies one key edge: a press holds both keys; a release frees the
    /// physical key and the logical key only when no other held physical key
    /// produces it.
    pub fn apply(&mut self, e: Edge)
        requires
            old(self).wf(),
        ensures
            final(self).wf(),
            final(self).view() == apply(old(self).view(), e),
    {
        let ghost h0 = self.held@;
        let at = self.position(e.physical);
        if e.pressed {
            self.physical.press(e.physical);
            self.logical.press(e.logical);
            match at {
                Some(i) => {
                    self.held.set(i, (e.physical, e.logical));
                },
                None => {
                    self.held.push((e.physical, e.logical));
                },
            }
            proof {
                let h = self.held@;
                assert forall|i: int, j: int|
                    0 <= i < h.len() && 0 <= j < h.len() && i != j implies (#[trigger] h[i]).0
                    != (#[trigger] h[j]).0 by {
                    if i < h0.len() && j < h0.len() {
                        assert(h0[i].0 != h0[j].0 || i == j);
                    }
                }
                let target = held_map(h0).insert(e.physical, e.logical);
                assert forall|k: u32| #[trigger] held_map(h).contains_key(k) <==> target.contains_key(k) by {
                    if target.contains_key(k) && k != e.physical {
                        let c = choose|q: int| 0 <= q < h0.len() && (#[trigger] h0[q]).0 == k;
                        assert(h[c].0 == k);
                    }
                    if k == e.physical {
                        match at {
                            Some(i) => assert(h[i as int].0 == k),
                            None => assert(h[h.len() - 1].0 == k),
                        }
                    }
                    if held_map(h).contains_key(k) && k != e.physical {
                        let c = choose|q: int| 0 <= q < h.len() && (#[trigger] h[q]).0 == k;
                        assert(h0[c].0 == k);
                    }
                }
                assert forall|k: u32| #[trigger] held_map(h).contains_key(k) implies held_map(h)[k]
                    == target[k] by {
                    let c = choose|q: int| 0 <= q < h.len() && (#[trigger] h[q]).0 == k;
                    if k != e.physical {
                        assert(h0[c].0 == k);
                        let c0 = choose|q: int| 0 <= q < h0.len() && (#[trigger] h0[q]).0 == k;
                        assert(c0 == c);
                    } else {
                        match at {
                            Some(i) => assert(c == i),
                            None => assert(c == h.len() - 1),
                        }
                    }
                }
                assert(held_map(h) =~= target);
            }
        } else {
            self.physical.release(e.physical);
            match at {
                Some(i) => {
                    self.held.remove(i);
                },
                None => {},
            }
            proof {
                let h = self.held@;
                assert forall|i: int, j: int|
                    0 <= i < h.len() && 0 <= j < h.len() && i != j implies (#[trigger] h[i]).0
                    != (#[trigger] h[j]).0 by {
                    match at {
                        Some(p) => {
                            let a = if i < p { i } else { i + 1 };
                            let b = if j < p { j } else { j + 1 };
                            assert(h[i] == h0[a] && h[j] == h0[b]);
                        },
                        None => {},
                    }
                }
                let target = held_map(h0).remove(e.physical);
                assert forall|k: u32| #[trigger] held_map(h).contains_key(k) <==> target.contains_key(k) by {
                    match at {
                        Some(p) => {
                            if target.contains_key(k) {
                                let c = choose|q: int| 0 <= q < h0.len() && (#[trigger] h0[q]).0 == k;
                                assert(c != p);
                                if c < p {
                                    assert(h[c].0 == k);
                                } else {
                                    assert(h[c - 1].0 == k);
                                }
                            }
                            if held_map(h).contains_key(k) {
                                let c = choose|q: int| 0 <= q < h.len() && (#[trigger] h[q]).0 == k;
                                if c < p {
                                    assert(h0[c].0 == k);
                                } else {
                                    assert(h0[c + 1].0 == k);
                                }
                            }
                        },
                        None => {
                            if target.contains_key(k) {
                                let c = choose|q: int| 0 <= q < h0.len() && (#[trigger] h0[q]).0 == k;
                                assert(h[c].0 == k);
                            }
                        },
                    }
                }
                assert forall|k: u32| #[trigger] held_map(h).contains_key(k) implies held_map(h)[k]
                    == target[k] by {
                    let c = choose|q: int| 0 <= q < h.len() && (#[trigger] h[q]).0 == k;
                    let c0 = choose|q: int| 0 <= q < h0.len() && (#[trigger] h0[q]).0 == k;
                    match at {
                        Some(p) => {
                            if c < p {
                                assert(h0[c].0 == k);
                                assert(c0 == c);
                            } else {
                                assert(h0[c + 1].0 == k);
                                assert(c0 == c + 1);
                            }
                        },
                        None => {
                            assert(h0[c].0 == k);
                            assert(c0 == c);
                        },
                    }
                }
                assert(held_map(h) =~= target);
            }
            let shared = self.produces(e.logical);
            proof {
                let held = old(self).view().held.remove(e.physical);
                assert(self.view().held == held);
                assert(shared == exists|k: u32| #[trigger] held.contains_key(k) && held[k]
                    == e.logical);
            }
            if !shared {
                self.logical.release(e.logical);
            }
        }
    }

    /// One tick of key input: what was just pressed or released is cleared,
    /// then the edges of the tick are applied in order.
    pub fn update(&mut self, edges: &Vec<Edge>)
        requires
            old(self).wf(),
        ensures
            final(self).wf(),
            final(self).view() == apply_all(tick_start(old(self).view()), edges@),
    {
        self.physical.clear();
        self.logical.clear();
        let ghost start = self.view();
        let n = edges.len();
        let mut i: usize = 0;
        while i < n
            invariant
                n == edges@.len(),
                i <= n,
                self.wf(),
                self.view() == apply_all(start, edges@.subrange(0, i as int)),
            decreases n - i,
        {
            self.apply(edges[i]);
            assert(edges@.subrange(0, i + 1).drop_last() =~= edges@.subrange(0, i as int));
            i = i + 1;
        }
        assert(edges@.subrange(0, n as int) =~= edges@);
    }
}

} // verus!
