//! Inspect queries over plain facts of the world. Entity selection: every
//! type path is validated before any handle is resolved, resource entities are
//! never selected, the `with` and `without` filters apply, and entities come
//! ordered by their handles. Projections: the hierarchy below an entity, the
//! order of its components and the listed ones it holds. Resource queries:
//! which resources are reported, in type path order.
use vstd::prelude::*;
use vstd::utf8::encode_utf8;
use crate::protocol::Diagnostic;

verus! {

/// What a query reads of one entity of the world: its identity, its handle
/// (index and generation), whether it holds a resource, its components, and
/// the identifiers its `Children` component lists, in order.
#[derive(Debug)]
pub struct EntityFacts {
    pub entity: u64,
    pub index: u32,
    pub generation: u32,
    pub resource: bool,
    pub components: Vec<u64>,
    pub children: Vec<u64>,
}

/// A type path as the registry resolved it: unknown (its text), or registered
/// with the component identifier it has in this world, if any.
pub type ResolvedPath = Result<Option<u64>, String>;

/// The first unknown type path among `with`, then `without`, then the listed
/// component paths.
pub open spec fn first_unknown(paths: Seq<ResolvedPath>) -> Option<int> {
    if exists|i: int| 0 <= i < paths.len() && paths[i] is Err {
        Some(choose|i: int| 0 <= i < paths.len() && paths[i] is Err && forall|j: int| 0 <= j < i ==> paths[j] is Ok)
    } else {
        None
    }
}

/// Checks every type path before anything else: the first unknown one is
/// refused with its text.
pub fn validate_paths(paths: &Vec<ResolvedPath>) -> (r: Result<(), Diagnostic>)
    ensures
        r is Ok <==> forall|i: int| 0 <= i < paths@.len() ==> paths@[i] is Ok,
        r is Err ==> exists|i: int|
            0 <= i < paths@.len() && paths@[i] is Err && (forall|j: int| 0 <= j < i ==> paths@[j] is Ok)
                && r->Err_0.code@ == "unknown_type_path"@ && r->Err_0.message@ == paths@[i]->Err_0@,
{
    let n = paths.len();
    let mut i: usize = 0;
    while i < n
        invariant
            n == paths@.len(),
            i <= n,
            forall|j: int| 0 <= j < i ==> paths@[j] is Ok,
        decreases n - i,
    {
        match &paths[i] {
            Err(path) => {
                return Err(Diagnostic::new("unknown_type_path", path.clone()));
            },
            Ok(_) => {},
        }
        i = i + 1;
    }
    Ok(())
}

/// Whether an entity holds the component a resolved path names.
pub open spec fn holds(e: EntityFacts, path: Option<u64>) -> bool {
    match path {
        Some(c) => e.components@.contains(c),
        None => false,
    }
}

/// Whether an entity passes the filters: it holds every `with` component and
/// none of the `without` components.
pub open spec fn passes(e: EntityFacts, with: Seq<Option<u64>>, without: Seq<Option<u64>>) -> bool {
    &&& forall|i: int| 0 <= i < with.len() ==> holds(e, #[trigger] with[i])
    &&& forall|i: int| 0 <= i < without.len() ==> !holds(e, #[trigger] without[i])
}

/// Whether position `p` of the world's entities is selected: a non-resource
/// entity, the requested one if there is a request, that passes the filters.
pub open spec fn selected(
    entities: Seq<EntityFacts>,
    requested: Option<u64>,
    with: Seq<Option<u64>>,
    without: Seq<Option<u64>>,
    p: int,
) -> bool {
    &&& 0 <= p < entities.len()
    &&& !entities[p].resource
    &&& (requested is Some ==> entities[p].entity == requested->0)
    &&& passes(entities[p], with, without)
}

/// The order of selected entities: by handle index, then generation, then
/// position in the world.
pub open spec fn before(entities: Seq<EntityFacts>, p: int, q: int) -> bool {
    let a = entities[p];
    let b = entities[q];
    a.index < b.index || (a.index == b.index && (a.generation < b.generation || (a.generation
        == b.generation && p < q)))
}

/// Whether a requested entity resolves to a live entity that is no resource.
pub open spec fn request_found(entities: Seq<EntityFacts>, requested: Option<u64>) -> bool {
    match requested {
        Some(id) => exists|p: int|
            0 <= p < entities.len() && entities[p].entity == id && !entities[p].resource,
        None => true,
    }
}

fn holds_exec(e: &EntityFacts, path: Option<u64>) -> (r: bool)
    ensures
        r == holds(*e, path),
{
    match path {
        Some(c) => {
            let n = e.components.len();
            let mut i: usize = 0;
            while i < n
                invariant
                    n == e.components@.len(),
                    path == Some(c),
                    i <= n,
                    forall|j: int| 0 <= j < i ==> e.components@[j] != c,
                decreases n - i,
            {
                if e.components[i] == c {
                    assert(e.components@[i as int] == c);
                    assert(e.components@.contains(c));
                    return true;
                }
                i = i + 1;
            }
            false
        },
        None => false,
    }
}

fn passes_exec(e: &EntityFacts, with: &Vec<Option<u64>>, without: &Vec<Option<u64>>) -> (r: bool)
    ensures
        r == passes(*e, with@, without@),
{
    let mut i: usize = 0;
    while i < with.len()
        invariant
            i <= with@.len(),
            forall|j: int| 0 <= j < i ==> holds(*e, #[trigger] with@[j]),
        decreases with@.len() - i,
    {
        if !holds_exec(e, with[i]) {
            return false;
        }
        i = i + 1;
    }
    let mut k: usize = 0;
    while k < without.len()
        invariant
            k <= without@.len(),
            forall|j: int| 0 <= j < k ==> !holds(*e, #[trigger] without@[j]),
        decreases without@.len() - k,
    {
        if holds_exec(e, without[k]) {
            return false;
        }
        k = k + 1;
    }
    true
}

fn earlier(entities: &Vec<EntityFacts>, p: usize, q: usize) -> (r: bool)
    requires
        p < entities@.len(),
        q < entities@.len(),
    ensures
        r == before(entities@, p as int, q as int),
{
    let a = &entities[p];
    let b = &entities[q];
    a.index < b.index || (a.index == b.index && (a.generation < b.generation || (a.generation
        == b.generation && p < q)))
}

/// Selects the entities of an inspect query, ordered by handle. A request
/// for one entity (`requested`, resolved to its identifier, or `None` when its
/// handle resolves to nothing) that finds no live non-resource entity is
/// refused with the handle's text.
pub fn select_entities(
    entities: &Vec<EntityFacts>,
    requested: Option<(Option<u64>, String)>,
    with: &Vec<Option<u64>>,
    without: &Vec<Option<u64>>,
) -> (r: Result<Vec<usize>, Diagnostic>)
    ensures
        match requested {
            Some((None, text)) => r is Err && r->Err_0.code@ == "entity_not_found"@
                && r->Err_0.message == text,
            Some((Some(id), text)) if !request_found(entities@, Some(id)) => r is Err
                && r->Err_0.code@ == "entity_not_found"@ && r->Err_0.message == text,
            _ => r is Ok,
        },
        r is Ok ==> {
            let req = match requested {
                Some((Some(id), _)) => Some(id),
                _ => None,
            };
            let s = r->Ok_0@;
            &&& forall|p: usize|
                selected(entities@, req, with@, without@, p as int) <==> #[trigger] s.contains(p)
            &&& forall|i: int, j: int| 0 <= i < j < s.len() ==> before(entities@, s[i] as int, s[j] as int)
        },
{
    let req = match &requested {
        Some((resolved, text)) => match resolved {
            None => {
                return Err(Diagnostic::new("entity_not_found", text.clone()));
            },
            Some(id) => Some(*id),
        },
        None => None,
    };
    let n = entities.len();
    let mut out: Vec<usize> = Vec::new();
    let mut found = false;
    let mut i: usize = 0;
    while i < n
        invariant
            n == entities@.len(),
            i <= n,
            found <==> (req is Some && exists|p: int|
                0 <= p < i && entities@[p].entity == req->0 && !entities@[p].resource),
            forall|p: usize|
                p < i && selected(entities@, req, with@, without@, p as int) <==> #[trigger] out@.contains(p),
            forall|k: int| 0 <= k < out@.len() ==> out@[k] < i,
            forall|a: int, b: int| 0 <= a < b < out@.len() ==> before(entities@, out@[a] as int, out@[b] as int),
        decreases n - i,
    {
        let e = &entities[i];
        let wanted = !e.resource && match req {
            Some(id) => e.entity == id,
            None => true,
        };
        if wanted && req.is_some() {
            found = true;
        }
        if wanted && passes_exec(e, with, without) {
            let ghost before_insert = out@;
            let m = out.len();
            let mut pos: usize = 0;
            while pos < m && earlier(entities, out[pos], i)
                invariant
                    m == out@.len(),
                    out@ == before_insert,
                    pos <= m,
                    i < n,
                    n == entities@.len(),
                    forall|k: int| 0 <= k < out@.len() ==> out@[k] < i,
                    forall|k: int| 0 <= k < pos ==> before(entities@, out@[k] as int, i as int),
                decreases m - pos,
            {
                pos = pos + 1;
            }
            proof {
                // Every element from `pos` on comes after the new one.
                assert forall|k: int| pos <= k < m implies before(entities@, i as int, #[trigger] out@[k] as int) by {
                    assert(out@[pos as int] < i);
                    assert(!before(entities@, out@[pos as int] as int, i as int));
                    if k > pos {
                        assert(before(entities@, out@[pos as int] as int, out@[k] as int));
                    }
                }
            }
            out.insert(pos, i);
            proof {
                let s = out@;
                assert forall|a: int, b: int| 0 <= a < b < s.len() implies before(entities@, s[a] as int, s[b] as int) by {
                    if b < pos {
                        assert(s[a] == before_insert[a] && s[b] == before_insert[b]);
                    } else if b == pos {
                        assert(s[a] == before_insert[a]);
                    } else if a < pos {
                        assert(s[a] == before_insert[a] && s[b] == before_insert[b - 1]);
                        assert(before(entities@, i as int, before_insert[b - 1] as int));
                    } else if a == pos {
                        assert(s[b] == before_insert[b - 1]);
                    } else {
                        assert(s[a] == before_insert[a - 1] && s[b] == before_insert[b - 1]);
                    }
                }
                assert forall|p: usize|
                    p < i + 1 && selected(entities@, req, with@, without@, p as int) <==> #[trigger] s.contains(p) by {
                    if s.contains(p) {
                        let k = choose|k: int| 0 <= k < s.len() && s[k] == p;
                        if k < pos {
                            assert(before_insert[k] == p);
                            assert(before_insert.contains(p));
                        } else if k > pos {
                            assert(before_insert[k - 1] == p);
                            assert(before_insert.contains(p));
                        }
                    }
                    if p < i && selected(entities@, req, with@, without@, p as int) {
                        assert(before_insert.contains(p));
                        let k = choose|k: int| 0 <= k < before_insert.len() && before_insert[k] == p;
                        if k < pos {
                            assert(s[k] == p);
                        } else {
                            assert(s[k + 1] == p);
                        }
                    }
                    if p == i {
                        assert(s[pos as int] == i);
                    }
                }
                assert forall|k: int| 0 <= k < s.len() implies s[k] < i + 1 by {
                    if k < pos {
                        assert(s[k] == before_insert[k]);
                    } else if k > pos {
                        assert(s[k] == before_insert[k - 1]);
                    }
                }
            }
        } else {
            proof {
                assert forall|p: usize|
                    p < i + 1 && selected(entities@, req, with@, without@, p as int) <==> #[trigger] out@.contains(p) by {
                    if out@.contains(p) {
                        let k = choose|k: int| 0 <= k < out@.len() && out@[k] == p;
                        assert(out@[k] < i);
                    }
                }
            }
        }
        i = i + 1;
    }
    match requested {
        Some((Some(_), text)) => {
            if !found {
                return Err(Diagnostic::new("entity_not_found", text));
            }
        },
        _ => {},
    }
    Ok(out)
}

/// The component identifiers of type paths that all resolved.
pub open spec fn known(paths: Seq<ResolvedPath>) -> Seq<Option<u64>> {
    paths.map_values(|r: ResolvedPath| r->Ok_0)
}

fn known_exec(paths: &Vec<ResolvedPath>) -> (r: Vec<Option<u64>>)
    requires
        forall|i: int| 0 <= i < paths@.len() ==> paths@[i] is Ok,
    ensures
        r@ == known(paths@),
{
    let mut out: Vec<Option<u64>> = Vec::new();
    let n = paths.len();
    let mut i: usize = 0;
    while i < n
        invariant
            n == paths@.len(),
            i <= n,
            forall|j: int| 0 <= j < paths@.len() ==> paths@[j] is Ok,
            out@ == known(paths@.take(i as int)),
        decreases n - i,
    {
        let c = match &paths[i] {
            Ok(c) => *c,
            Err(_) => None,
        };
        proof {
            assert(paths@.take(i as int + 1) =~= paths@.take(i as int).push(paths@[i as int]));
        }
        out.push(c);
        proof {
            assert(out@ =~= known(paths@.take(i as int + 1)));
        }
        i = i + 1;
    }
    proof {
        assert(paths@.take(n as int) =~= paths@);
    }
    out
}

/// Runs the selection of an entity query. Every type path, those of `with`,
/// then `without`, then the listed components, is checked before the request
/// is resolved or any entity is filtered: the first unknown one refuses the
/// query. Otherwise the query selects as [`select_entities`] does.
pub fn query(
    entities: &Vec<EntityFacts>,
    requested: Option<(Option<u64>, String)>,
    with: &Vec<ResolvedPath>,
    without: &Vec<ResolvedPath>,
    listed: &Vec<ResolvedPath>,
) -> (r: Result<Vec<usize>, Diagnostic>)
    ensures
        ({
            let all = with@ + without@ + listed@;
            if exists|i: int| 0 <= i < all.len() && all[i] is Err {
                &&& r is Err
                &&& exists|i: int|
                    0 <= i < all.len() && all[i] is Err && (forall|j: int|
                        0 <= j < i ==> all[j] is Ok) && r->Err_0.code@ == "unknown_type_path"@
                        && r->Err_0.message@ == all[i]->Err_0@
            } else {
                &&& match requested {
                    Some((None, text)) => r is Err && r->Err_0.code@ == "entity_not_found"@
                        && r->Err_0.message == text,
                    Some((Some(id), text)) if !request_found(entities@, Some(id)) => r is Err
                        && r->Err_0.code@ == "entity_not_found"@ && r->Err_0.message == text,
                    _ => r is Ok,
                }
                &&& r is Ok ==> {
                    let req = match requested {
                        Some((Some(id), _)) => Some(id),
                        _ => None,
                    };
                    let s = r->Ok_0@;
                    &&& forall|p: usize|
                        selected(entities@, req, known(with@), known(without@), p as int)
                            <==> #[trigger] s.contains(p)
                    &&& forall|i: int, j: int|
                        0 <= i < j < s.len() ==> before(entities@, s[i] as int, s[j] as int)
                }
            }
        }),
{
    let ghost all = with@ + without@ + listed@;
    let ghost (nw, no) = (with@.len() as int, without@.len() as int);
    match validate_paths(with) {
        Err(d) => {
            proof {
                let i = choose|i: int|
                    0 <= i < with@.len() && with@[i] is Err && (forall|j: int|
                        0 <= j < i ==> with@[j] is Ok) && d.code@ == "unknown_type_path"@
                        && d.message@ == with@[i]->Err_0@;
                assert(all[i] == with@[i]);
                assert(forall|j: int| 0 <= j < i ==> all[j] == with@[j]);
            }
            return Err(d);
        },
        Ok(()) => {},
    }
    match validate_paths(without) {
        Err(d) => {
            proof {
                let i = choose|i: int|
                    0 <= i < without@.len() && without@[i] is Err && (forall|j: int|
                        0 <= j < i ==> without@[j] is Ok) && d.code@ == "unknown_type_path"@
                        && d.message@ == without@[i]->Err_0@;
                assert(all[nw + i] == without@[i]);
                assert forall|j: int| 0 <= j < nw + i implies all[j] is Ok by {
                    if j < nw {
                        assert(all[j] == with@[j]);
                    } else {
                        assert(all[j] == without@[j - nw]);
                    }
                }
            }
            return Err(d);
        },
        Ok(()) => {},
    }
    match validate_paths(listed) {
        Err(d) => {
            proof {
                let i = choose|i: int|
                    0 <= i < listed@.len() && listed@[i] is Err && (forall|j: int|
                        0 <= j < i ==> listed@[j] is Ok) && d.code@ == "unknown_type_path"@
                        && d.message@ == listed@[i]->Err_0@;
                assert(all[nw + no + i] == listed@[i]);
                assert forall|j: int| 0 <= j < nw + no + i implies all[j] is Ok by {
                    if j < nw {
                        assert(all[j] == with@[j]);
                    } else if j < nw + no {
                        assert(all[j] == without@[j - nw]);
                    } else {
                        assert(all[j] == listed@[j - nw - no]);
                    }
                }
            }
            return Err(d);
        },
        Ok(()) => {},
    }
    proof {
        assert forall|j: int| 0 <= j < all.len() implies !(all[j] is Err) by {
            if j < nw {
                assert(all[j] == with@[j]);
            } else if j < nw + no {
                assert(all[j] == without@[j - nw]);
            } else {
                assert(all[j] == listed@[j - nw - no]);
            }
        }
    }
    let w = known_exec(with);
    let wo = known_exec(without);
    select_entities(entities, requested, &w, &wo)
}

/// The position of the entity with identifier `id`, if it is alive: the first
/// position that holds it.
pub open spec fn locate(entities: Seq<EntityFacts>, id: u64) -> Option<int> {
    if exists|p: int| 0 <= p < entities.len() && entities[p].entity == id {
        Some(
            choose|p: int|
                0 <= p < entities.len() && entities[p].entity == id && forall|q: int|
                    0 <= q < p ==> entities[q].entity != id,
        )
    } else {
        None
    }
}

/// Looks up a live entity by its identifier.
pub fn locate_entity(entities: &Vec<EntityFacts>, id: u64) -> (r: Option<usize>)
    ensures
        match r {
            Some(p) => p < entities@.len() && locate(entities@, id) == Some(p as int),
            None => locate(entities@, id) is None,
        },
{
    let n = entities.len();
    let mut i: usize = 0;
    while i < n
        invariant
            n == entities@.len(),
            i <= n,
            forall|q: int| 0 <= q < i ==> entities@[q].entity != id,
        decreases n - i,
    {
        if entities[i].entity == id {
            proof {
                let c = choose|p: int|
                    0 <= p < entities@.len() && entities@[p].entity == id && forall|q: int|
                        0 <= q < p ==> entities@[q].entity != id;
                assert(0 <= i < entities@.len() && entities@[i as int].entity == id);
                if c < i {
                    assert(entities@[c].entity != id);
                } else if c > i {
                    assert(entities@[i as int].entity != id);
                }
            }
            return Some(i);
        }
        i = i + 1;
    }
    None
}

/// The positions of the children shown in a hierarchy, in the order the
/// entity lists them: live entities that hold no resource.
pub open spec fn shown_children(entities: Seq<EntityFacts>, ids: Seq<u64>) -> Seq<int>
    decreases ids.len(),
{
    if ids.len() == 0 {
        seq![]
    } else {
        let rest = shown_children(entities, ids.drop_last());
        match locate(entities, ids.last()) {
            Some(q) => if entities[q].resource {
                rest
            } else {
                rest.push(q)
            },
            None => rest,
        }
    }
}

/// One node of a hierarchy: the position of its entity and its children.
#[derive(Debug)]
pub struct Node {
    pub position: usize,
    pub children: Vec<Node>,
}

/// Whether `n` is the hierarchy below position `p` down to `depth` levels:
/// at depth zero a node has no children, otherwise its children are the
/// shown children of its entity, in order, each `depth - 1` levels deep.
pub open spec fn describes(entities: Seq<EntityFacts>, n: Node, p: int, depth: nat) -> bool
    decreases depth,
{
    &&& n.position == p
    &&& if depth == 0 {
        n.children@.len() == 0
    } else {
        let kids = shown_children(entities, entities[p].children@);
        &&& n.children@.len() == kids.len()
        &&& forall|i: int|
            0 <= i < kids.len() ==> describes(
                entities,
                #[trigger] n.children@[i],
                kids[i],
                (depth - 1) as nat,
            )
    }
}

/// The hierarchy projection of the entity at position `p`, `depth` levels deep.
pub fn hierarchy(entities: &Vec<EntityFacts>, p: usize, depth: u8) -> (n: Node)
    requires
        p < entities@.len(),
    ensures
        describes(entities@, n, p as int, depth as nat),
    decreases depth,
{
    let mut children: Vec<Node> = Vec::new();
    if depth > 0 {
        let ids = &entities[p].children;
        let m = ids.len();
        let mut i: usize = 0;
        while i < m
            invariant
                m == ids@.len(),
                ids@ == entities@[p as int].children@,
                i <= m,
                0 < depth,
                children@.len() == shown_children(entities@, ids@.take(i as int)).len(),
                forall|k: int|
                    0 <= k < children@.len() ==> describes(
                        entities@,
                        #[trigger] children@[k],
                        shown_children(entities@, ids@.take(i as int))[k],
                        (depth - 1) as nat,
                    ),
            decreases m - i,
        {
            let ghost before = shown_children(entities@, ids@.take(i as int));
            proof {
                assert(ids@.take(i as int + 1).drop_last() =~= ids@.take(i as int));
                assert(ids@.take(i as int + 1).last() == ids@[i as int]);
            }
            match locate_entity(entities, ids[i]) {
                Some(q) => {
                    if !entities[q].resource {
                        let child = hierarchy(entities, q, depth - 1);
                        children.push(child);
                        proof {
                            let after = shown_children(entities@, ids@.take(i as int + 1));
                            assert(after == before.push(q as int));
                            assert forall|k: int| 0 <= k < children@.len() implies describes(
                                entities@,
                                #[trigger] children@[k],
                                after[k],
                                (depth - 1) as nat,
                            ) by {
                                if k < before.len() {
                                    assert(after[k] == before[k]);
                                }
                            }
                        }
                    } else {
                        proof {
                            assert(shown_children(entities@, ids@.take(i as int + 1)) == before);
                        }
                    }
                },
                None => {
                    proof {
                        assert(shown_children(entities@, ids@.take(i as int + 1)) == before);
                    }
                },
            }
            i = i + 1;
        }
        proof {
            assert(ids@.take(m as int) =~= ids@);
        }
    }
    Node { position: p, children }
}

/// Byte-wise lexicographic order, the order of Rust strings.
pub open spec fn bytes_below(a: Seq<u8>, b: Seq<u8>) -> bool
    decreases a.len(),
{
    if a.len() == 0 {
        b.len() > 0
    } else if b.len() == 0 {
        false
    } else if a[0] != b[0] {
        a[0] < b[0]
    } else {
        bytes_below(a.drop_first(), b.drop_first())
    }
}

proof fn lemma_bytes_trichotomy(a: Seq<u8>, b: Seq<u8>)
    ensures
        a == b || bytes_below(a, b) || bytes_below(b, a),
        !(bytes_below(a, b) && bytes_below(b, a)),
        a == b ==> !bytes_below(a, b),
    decreases a.len(),
{
    if a.len() == 0 && b.len() == 0 {
        assert(a =~= b);
    } else if a.len() > 0 && b.len() > 0 && a[0] == b[0] {
        lemma_bytes_trichotomy(a.drop_first(), b.drop_first());
        if a.drop_first() == b.drop_first() {
            assert(a =~= b) by {
                assert forall|i: int| 0 < i < a.len() implies a[i] == b[i] by {
                    assert(a[i] == a.drop_first()[i - 1]);
                    assert(b[i] == b.drop_first()[i - 1]);
                }
            }
        }
        if a == b {
            assert(a.drop_first() == b.drop_first());
        }
    }
}

proof fn lemma_bytes_transitive(a: Seq<u8>, b: Seq<u8>, c: Seq<u8>)
    requires
        bytes_below(a, b),
        bytes_below(b, c),
    ensures
        bytes_below(a, c),
    decreases a.len(),
{
    if a.len() > 0 && a[0] == b[0] && b[0] == c[0] {
        lemma_bytes_transitive(a.drop_first(), b.drop_first(), c.drop_first());
    }
}

/// Whether the bytes of `a` come before those of `b`.
fn bytes_less(a: &[u8], b: &[u8]) -> (r: bool)
    ensures
        r == bytes_below(a@, b@),
{
    let mut i: usize = 0;
    proof {
        assert(a@.skip(0) =~= a@);
        assert(b@.skip(0) =~= b@);
    }
    while i < a.len() && i < b.len() && a[i] == b[i]
        invariant
            i <= a@.len(),
            i <= b@.len(),
            bytes_below(a@, b@) == bytes_below(a@.skip(i as int), b@.skip(i as int)),
        decreases a@.len() - i,
    {
        proof {
            assert(a@.skip(i as int).drop_first() =~= a@.skip(i as int + 1));
            assert(b@.skip(i as int).drop_first() =~= b@.skip(i as int + 1));
        }
        i = i + 1;
    }
    if i == a.len() {
        i < b.len()
    } else if i == b.len() {
        false
    } else {
        a[i] < b[i]
    }
}

/// The name and type path of a component, as the registry reports them.
#[derive(Debug)]
pub struct Metadata {
    pub name: String,
    pub type_path: Option<String>,
}

/// The text components are ordered by: the type path, or the name without one.
pub open spec fn order_text(m: Metadata) -> Seq<u8> {
    match m.type_path {
        Some(t) => encode_utf8(t@),
        None => encode_utf8(m.name@),
    }
}

/// The order of an entity's components: by type path (or name), then by
/// name, and components with equal keys in the order the entity holds them.
pub open spec fn listed_before(ms: Seq<Metadata>, p: int, q: int) -> bool {
    let (a, b) = (order_text(ms[p]), order_text(ms[q]));
    let (x, y) = (encode_utf8(ms[p].name@), encode_utf8(ms[q].name@));
    bytes_below(a, b) || (a == b && (bytes_below(x, y) || (x == y && p < q)))
}

proof fn lemma_listed_order(ms: Seq<Metadata>, p: int, q: int, r: int)
    ensures
        p != q ==> listed_before(ms, p, q) || listed_before(ms, q, p),
        !(listed_before(ms, p, q) && listed_before(ms, q, p)),
        listed_before(ms, p, q) && listed_before(ms, q, r) ==> listed_before(ms, p, r),
{
    let (a, b, c) = (order_text(ms[p]), order_text(ms[q]), order_text(ms[r]));
    let (x, y, z) = (encode_utf8(ms[p].name@), encode_utf8(ms[q].name@), encode_utf8(ms[r].name@));
    lemma_bytes_trichotomy(a, b);
    lemma_bytes_trichotomy(b, c);
    lemma_bytes_trichotomy(a, c);
    lemma_bytes_trichotomy(x, y);
    lemma_bytes_trichotomy(y, z);
    lemma_bytes_trichotomy(x, z);
    if bytes_below(a, b) && bytes_below(b, c) {
        lemma_bytes_transitive(a, b, c);
    }
    if bytes_below(x, y) && bytes_below(y, z) {
        lemma_bytes_transitive(x, y, z);
    }
}

fn text_of(m: &Metadata) -> (r: &str)
    ensures
        encode_utf8(r@) == order_text(*m),
{
    match &m.type_path {
        Some(t) => t.as_str(),
        None => m.name.as_str(),
    }
}

fn listed_earlier(ms: &Vec<Metadata>, p: usize, q: usize) -> (r: bool)
    requires
        p < ms@.len(),
        q < ms@.len(),
    ensures
        r == listed_before(ms@, p as int, q as int),
{
    let a = text_of(&ms[p]).as_bytes();
    let b = text_of(&ms[q]).as_bytes();
    let x = ms[p].name.as_str().as_bytes();
    let y = ms[q].name.as_str().as_bytes();
    proof {
        lemma_bytes_trichotomy(a@, b@);
        lemma_bytes_trichotomy(x@, y@);
    }
    if bytes_less(a, b) {
        return true;
    }
    if bytes_less(b, a) {
        return false;
    }
    if bytes_less(x, y) {
        return true;
    }
    if bytes_less(y, x) {
        return false;
    }
    p < q
}

/// The order in which an entity's components are reported: a permutation of
/// their positions, sorted by type path (or name), then name, ties kept in
/// the order the entity holds them.
pub fn component_order(ms: &Vec<Metadata>) -> (r: Vec<usize>)
    ensures
        r@.len() == ms@.len(),
        forall|p: usize| p < ms@.len() <==> #[trigger] r@.contains(p),
        forall|i: int, j: int| 0 <= i < j < r@.len() ==> listed_before(ms@, r@[i] as int, r@[j] as int),
{
    let n = ms.len();
    let mut out: Vec<usize> = Vec::new();
    let mut i: usize = 0;
    while i < n
        invariant
            n == ms@.len(),
            i <= n,
            out@.len() == i,
            forall|p: usize| p < i <==> #[trigger] out@.contains(p),
            forall|a: int, b: int| 0 <= a < b < out@.len() ==> listed_before(ms@, out@[a] as int, out@[b] as int),
        decreases n - i,
    {
        let ghost before_insert = out@;
        let m = out.len();
        let mut pos: usize = 0;
        proof {
            assert forall|k: int| 0 <= k < m implies before_insert[k] < i by {
                assert(before_insert.contains(before_insert[k]));
            }
        }
        while pos < m && listed_earlier(ms, out[pos], i)
            invariant
                m == out@.len(),
                out@ == before_insert,
                pos <= m,
                i < n,
                n == ms@.len(),
                forall|k: int| 0 <= k < out@.len() ==> out@[k] < i,
                forall|k: int| 0 <= k < pos ==> listed_before(ms@, out@[k] as int, i as int),
            decreases m - pos,
        {
            pos = pos + 1;
        }
        proof {
            assert forall|k: int| pos <= k < m implies listed_before(ms@, i as int, #[trigger] out@[k] as int) by {
                lemma_listed_order(ms@, out@[pos as int] as int, i as int, out@[k] as int);
                lemma_listed_order(ms@, i as int, out@[pos as int] as int, out@[k] as int);
                if k > pos {
                    assert(listed_before(ms@, out@[pos as int] as int, out@[k] as int));
                }
            }
        }
        out.insert(pos, i);
        proof {
            let s = out@;
            assert forall|a: int, b: int| 0 <= a < b < s.len() implies listed_before(ms@, s[a] as int, s[b] as int) by {
                if b < pos {
                    assert(s[a] == before_insert[a] && s[b] == before_insert[b]);
                } else if b == pos {
                    assert(s[a] == before_insert[a]);
                } else if a < pos {
                    assert(s[a] == before_insert[a] && s[b] == before_insert[b - 1]);
                    lemma_listed_order(ms@, s[a] as int, i as int, s[b] as int);
                } else if a == pos {
                    assert(s[b] == before_insert[b - 1]);
                } else {
                    assert(s[a] == before_insert[a - 1] && s[b] == before_insert[b - 1]);
                }
            }
            assert forall|p: usize| p < i + 1 <==> #[trigger] s.contains(p) by {
                if s.contains(p) {
                    let k = choose|k: int| 0 <= k < s.len() && s[k] == p;
                    if k < pos {
                        assert(before_insert[k] == p);
                        assert(before_insert.contains(p));
                    } else if k > pos {
                        assert(before_insert[k - 1] == p);
                        assert(before_insert.contains(p));
                    }
                }
                if p < i {
                    assert(before_insert.contains(p));
                    let k = choose|k: int| 0 <= k < before_insert.len() && before_insert[k] == p;
                    if k < pos {
                        assert(s[k] == p);
                    } else {
                        assert(s[k + 1] == p);
                    }
                }
                if p == i {
                    assert(s[pos as int] == i);
                }
            }
        }
        i = i + 1;
    }
    out
}

/// The listed components of a `Listed` projection, in the listed order and
/// with repeats kept: whether the entity holds each one, so that its value is
/// read, or it is reported missing.
pub fn listed_presence(e: &EntityFacts, listed: &Vec<Option<u64>>) -> (r: Vec<bool>)
    ensures
        r@.len() == listed@.len(),
        forall|i: int| 0 <= i < listed@.len() ==> r@[i] == holds(*e, #[trigger] listed@[i]),
{
    let mut out: Vec<bool> = Vec::new();
    let n = listed.len();
    let mut i: usize = 0;
    while i < n
        invariant
            n == listed@.len(),
            i <= n,
            out@.len() == i,
            forall|k: int| 0 <= k < i ==> out@[k] == holds(*e, #[trigger] listed@[k]),
        decreases n - i,
    {
        let held = holds_exec(e, listed[i]);
        out.push(held);
        i = i + 1;
    }
    out
}

/// A registered type that a resource query considers: its type path and
/// whether the world holds the resource.
#[derive(Debug)]
pub struct ResourceFacts {
    pub type_path: String,
    pub present: bool,
}

/// Whether candidate `p` is reported: a resource the world holds always is; a
/// missing one only when its value is asked of one named type.
pub open spec fn resource_shown(c: Seq<ResourceFacts>, p: int, metadata: bool, all: bool) -> bool {
    0 <= p < c.len() && (c[p].present || !(metadata || all))
}

/// The order of reported resources: by type path, ties in registry order.
pub open spec fn resource_before(c: Seq<ResourceFacts>, p: int, q: int) -> bool {
    let (a, b) = (encode_utf8(c[p].type_path@), encode_utf8(c[q].type_path@));
    bytes_below(a, b) || (a == b && p < q)
}

/// The resources a resource query reports, ordered by type path. `metadata`
/// says whether only metadata is projected and `all` whether every resource
/// type was selected rather than one named type; in either case a resource
/// the world does not hold is left out.
pub fn resource_items(c: &Vec<ResourceFacts>, metadata: bool, all: bool) -> (r: Vec<usize>)
    ensures
        forall|p: usize| resource_shown(c@, p as int, metadata, all) <==> #[trigger] r@.contains(p),
        forall|i: int, j: int|
            0 <= i < j < r@.len() ==> resource_before(c@, r@[i] as int, r@[j] as int),
{
    let n = c.len();
    let mut keys: Vec<Metadata> = Vec::new();
    let mut i: usize = 0;
    while i < n
        invariant
            n == c@.len(),
            i <= n,
            keys@.len() == i,
            forall|k: int|
                0 <= k < i ==> (#[trigger] keys@[k]).name@ == Seq::<char>::empty()
                    && keys@[k].type_path == Some(c@[k].type_path),
        decreases n - i,
    {
        keys.push(Metadata { name: String::new(), type_path: Some(c[i].type_path.clone()) });
        i = i + 1;
    }
    let order = component_order(&keys);
    proof {
        assert forall|p: int, q: int| 0 <= p < n && 0 <= q < n implies listed_before(keys@, p, q)
            == resource_before(c@, p, q) by {
            assert(keys@[p].name@ == keys@[q].name@);
            lemma_bytes_trichotomy(encode_utf8(keys@[p].name@), encode_utf8(keys@[q].name@));
        }
    }
    let mut out: Vec<usize> = Vec::new();
    let mut j: usize = 0;
    while j < n
        invariant
            n == c@.len(),
            n == keys@.len(),
            order@.len() == n,
            j <= n,
            forall|p: usize| p < n <==> #[trigger] order@.contains(p),
            forall|a: int, b: int|
                0 <= a < b < order@.len() ==> listed_before(keys@, order@[a] as int, order@[b] as int),
            forall|p: int, q: int|
                0 <= p < n && 0 <= q < n ==> listed_before(keys@, p, q) == resource_before(c@, p, q),
            forall|p: usize|
                resource_shown(c@, p as int, metadata, all) && order@.take(j as int).contains(p)
                    <==> #[trigger] out@.contains(p),
            forall|k: int| 0 <= k < out@.len() ==> exists|a: int| 0 <= a < j && order@[a] == #[trigger] out@[k],
            forall|a: int, b: int|
                0 <= a < b < out@.len() ==> resource_before(c@, out@[a] as int, out@[b] as int),
            forall|k: int| 0 <= k < out@.len() ==> (#[trigger] out@[k]) < n,
        decreases n - j,
    {
        let p = order[j];
        proof {
            assert(order@.contains(p));
        }
        let shown = c[p].present || !(metadata || all);
        let ghost before_push = out@;
        if shown {
            proof {
                assert forall|k: int| 0 <= k < before_push.len() implies resource_before(
                    c@,
                    before_push[k] as int,
                    p as int,
                ) by {
                    let a = choose|a: int| 0 <= a < j && order@[a] == before_push[k];
                    assert(listed_before(keys@, order@[a] as int, order@[j as int] as int));
                }
            }
            out.push(p);
        }
        proof {
            assert(order@.take(j as int + 1) =~= order@.take(j as int).push(p));
            assert forall|q: usize|
                resource_shown(c@, q as int, metadata, all) && order@.take(j as int + 1).contains(q)
                    <==> #[trigger] out@.contains(q) by {
                let now = order@.take(j as int + 1);
                let then = order@.take(j as int);
                assert(now[j as int] == p);
                if out@.contains(q) {
                    let k = choose|k: int| 0 <= k < out@.len() && out@[k] == q;
                    if k < before_push.len() {
                        assert(before_push[k] == q);
                        assert(before_push.contains(q));
                        let i = choose|i: int| 0 <= i < then.len() && then[i] == q;
                        assert(now[i] == q);
                    } else {
                        assert(shown && q == p);
                    }
                }
                if resource_shown(c@, q as int, metadata, all) && now.contains(q) {
                    let i = choose|i: int| 0 <= i < now.len() && now[i] == q;
                    if i < j {
                        assert(then[i] == q);
                        assert(then.contains(q));
                        assert(before_push.contains(q));
                        let k = choose|k: int| 0 <= k < before_push.len() && before_push[k] == q;
                        assert(out@[k] == q);
                    } else {
                        assert(q == p);
                        assert(shown);
                        assert(out@[out@.len() - 1] == q);
                    }
                }
            }
            assert forall|k: int| 0 <= k < out@.len() implies exists|a: int|
                0 <= a < j + 1 && order@[a] == #[trigger] out@[k] by {
                if k < before_push.len() {
                    let a = choose|a: int| 0 <= a < j && order@[a] == before_push[k];
                    assert(order@[a] == out@[k]);
                } else {
                    assert(order@[j as int] == out@[k]);
                }
            }
        }
        j = j + 1;
    }
    proof {
        assert(order@.take(n as int) =~= order@);
        assert forall|p: usize| resource_shown(c@, p as int, metadata, all) <==> #[trigger] out@.contains(p) by {
            if resource_shown(c@, p as int, metadata, all) {
                assert(order@.contains(p));
            }
        }
    }
    out
}

} // verus!
