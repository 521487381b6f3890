//! The primary window of a game world.
use vstd::prelude::*;

verus! {

/// An entity of the world as far as window selection sees it.
#[derive(Debug, Clone, Copy)]
pub struct WindowEntity {
    pub id: u64,
    /// The entity carries the primary window marker.
    pub primary: bool,
    /// The entity carries a window.
    pub window: bool,
}

/// Whether an entity is a primary window.
pub open spec fn is_primary(e: WindowEntity) -> bool {
    e.primary && e.window
}

/// The number of primary windows among the first `n` entities.
pub open spec fn primaries(s: Seq<WindowEntity>, n: int) -> nat
    decreases n,
{
    if n <= 0 {
        0
    } else {
        primaries(s, n - 1) + if is_primary(s[n - 1]) {
            1nat
        } else {
            0nat
        }
    }
}

/// The primary window, when there is exactly one.
pub fn primary(entities: &[WindowEntity]) -> (r: Option<u64>)
    ensures
        match r {
            Some(id) => primaries(entities@, entities@.len() as int) == 1 && exists|i: int|
                0 <= i < entities@.len() && is_primary(entities@[i]) && entities@[i].id == id,
            None => primaries(entities@, entities@.len() as int) != 1,
        },
{
    let mut found: Option<u64> = None;
    let mut count: usize = 0;
    let mut i: usize = 0;
    while i < entities.len()
        invariant
            i <= entities@.len(),
            count == primaries(entities@, i as int),
            count <= 1,
            count == 0 <==> found is None,
            found is Some ==> exists|j: int|
                0 <= j < i && is_primary(entities@[j]) && entities@[j].id == found->0,
        decreases entities@.len() - i,
    {
        if entities[i].primary && entities[i].window {
            if count == 1 {
                proof {
                    lemma_primaries_grow(entities@, i as int + 1, entities@.len() as int);
                }
                return None;
            }
            count = 1;
            found = Some(entities[i].id);
        }
        i = i + 1;
    }
    found
}

proof fn lemma_primaries_grow(s: Seq<WindowEntity>, a: int, b: int)
    requires
        0 <= a <= b <= s.len(),
    ensures
        primaries(s, a) <= primaries(s, b),
    decreases b - a,
{
    if a < b {
        lemma_primaries_grow(s, a, b - 1);
    }
}

} // verus!
