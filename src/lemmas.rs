//! What holds of registration and resolution over any program.
use vstd::prelude::*;

use crate::hash::{path_hash, HASH_MODULUS, TYPE_SEED};
use crate::item::Path;
use crate::meta::MetaModel;
use crate::query::{
    lemma_resolve_frame, register_spec, resolve_spec, state_wf, Indexed, IndexedEntry, QueryState,
};

verus! {

/// Resolving a path a second time gives the same answer as the first time and changes nothing,
/// where the first time did not fail; the first time adds at most one work item for the path.
pub proof fn lemma_resolve_idempotent(s: QueryState, p: Path)
    requires
        state_wf(s),
        resolve_spec(s, p).1 is Ok,
    ensures
        resolve_spec(resolve_spec(s, p).0, p) == resolve_spec(s, p),
        forall|i: int, j: int|
            s.queue.len() <= i < resolve_spec(s, p).0.queue.len() && s.queue.len() <= j
                < resolve_spec(s, p).0.queue.len() && (#[trigger] resolve_spec(s, p).0.queue[i]).item
                == p && (#[trigger] resolve_spec(s, p).0.queue[j]).item == p ==> i == j,
{
    lemma_resolve_frame(s, p);
    let t = resolve_spec(s, p).0;
    assert forall|i: int, j: int|
        s.queue.len() <= i < t.queue.len() && s.queue.len() <= j < t.queue.len()
            && (#[trigger] t.queue[i]).item == p && (#[trigger] t.queue[j]).item == p implies i == j by {
        if i < j {
            assert(t.queue[i].item != t.queue[j].item);
        } else if j < i {
            assert(t.queue[j].item != t.queue[i].item);
        }
    }
}

/// Registering a path that is already registered fails, whatever the two declarations are, and
/// leaves the first declaration in place.
pub proof fn lemma_register_twice(s: QueryState, p: Path, first: IndexedEntry, second: IndexedEntry)
    requires
        state_wf(s),
    ensures
        !register_spec(register_spec(s, p, first).0, p, second).1,
        register_spec(register_spec(s, p, first).0, p, second).0.pending == register_spec(
            s,
            p,
            first,
        ).0.pending,
        register_spec(s, p, first).1 ==> register_spec(
            register_spec(s, p, first).0,
            p,
            second,
        ).0.pending[p] == first,
{
}

/// Resolving a variant leaves its enum resolved, whether or not the enum was asked for before,
/// where the enum is declared as an enum (or resolved already) and is not the variant itself.
pub proof fn lemma_variant_resolves_enum(s: QueryState, p: Path)
    requires
        state_wf(s),
        s.pending.contains_key(p),
        s.pending[p].indexed is Variant,
        s.pending[p].indexed->Variant_0.enum_item@ != p,
        s.metas.contains_key(s.pending[p].indexed->Variant_0.enum_item@) || (s.pending.contains_key(
            s.pending[p].indexed->Variant_0.enum_item@,
        ) && s.pending[s.pending[p].indexed->Variant_0.enum_item@].indexed is Enum),
    ensures
        resolve_spec(s, p).0.metas.contains_key(s.pending[p].indexed->Variant_0.enum_item@),
{
    let q = s.pending[p].indexed->Variant_0.enum_item@;
    let s1 = QueryState { pending: s.pending.remove(p), metas: s.metas, names: s.names, queue: s.queue };
    assert(state_wf(s1));
    lemma_resolve_frame(s1, q);
    assert(s1.pending.dom().len() < s.pending.dom().len());
}

/// The identity value of a freshly resolved descriptor is the hash of its path, so it is the same
/// in every pass that resolves the path, whatever else the program holds.
pub proof fn lemma_identity_from_path(s: QueryState, t: QueryState, p: Path)
    requires
        state_wf(s),
        state_wf(t),
        !s.metas.contains_key(p),
        !t.metas.contains_key(p),
        resolve_spec(s, p).1 matches Ok(Some(_)),
        resolve_spec(t, p).1 matches Ok(Some(_)),
    ensures
        resolve_spec(s, p).1->Ok_0->0.type_of() as nat == path_hash(p),
        resolve_spec(s, p).1->Ok_0->0.item() == p,
        resolve_spec(s, p).1->Ok_0->0.type_of() == resolve_spec(t, p).1->Ok_0->0.type_of(),
{
    lemma_path_hash_bound(p);
    lemma_fresh_identity(s, p);
    lemma_fresh_identity(t, p);
}

proof fn lemma_path_hash_bound(p: Path)
    ensures
        path_hash(p) < HASH_MODULUS,
{
    assert(TYPE_SEED < HASH_MODULUS);
}

proof fn lemma_fresh_identity(s: QueryState, p: Path)
    requires
        state_wf(s),
        !s.metas.contains_key(p),
        resolve_spec(s, p).1 matches Ok(Some(_)),
        path_hash(p) < HASH_MODULUS,
    ensures
        resolve_spec(s, p).1->Ok_0->0.type_of() as nat == path_hash(p),
        resolve_spec(s, p).1->Ok_0->0.item() == p,
{
    let s1 = QueryState { pending: s.pending.remove(p), metas: s.metas, names: s.names, queue: s.queue };
    match s.pending[p].indexed {
        Indexed::Variant(v) => {
            assert(s1.pending.dom().len() < s.pending.dom().len());
        },
        _ => {},
    }
}

/// No pending variant names `q` as its enum.
pub open spec fn owns_no_variant(s: QueryState, q: Path) -> bool {
    forall|k: Path|
        #[trigger] s.pending.contains_key(k) && s.pending[k].indexed is Variant ==> s.pending[k].indexed->Variant_0.enum_item@ != q
}

/// Resolving one path leaves another pending declaration untouched, unless a variant names it
/// as its enum.
pub proof fn lemma_resolve_leaves_others(s: QueryState, p: Path, q: Path)
    requires
        state_wf(s),
        s.pending.contains_key(q),
        q != p,
        owns_no_variant(s, q),
    ensures
        resolve_spec(s, p).0.pending.contains_key(q),
        resolve_spec(s, p).0.pending[q] == s.pending[q],
        !resolve_spec(s, p).0.metas.contains_key(q),
        owns_no_variant(resolve_spec(s, p).0, q),
    decreases s.pending.dom().len(),
{
    lemma_resolve_frame(s, p);
    if s.metas.contains_key(p) || !s.pending.contains_key(p) {
    } else {
        let s1 = QueryState { pending: s.pending.remove(p), metas: s.metas, names: s.names, queue: s.queue };
        assert(state_wf(s1));
        assert(s1.pending.dom().len() < s.pending.dom().len());
        match s.pending[p].indexed {
            Indexed::Variant(v) => {
                assert(s.pending.contains_key(p));
                lemma_resolve_leaves_others(s1, v.enum_item@, q);
                lemma_resolve_frame(s1, v.enum_item@);
            },
            _ => {},
        }
        let t = resolve_spec(s, p).0;
        assert forall|k: Path| #[trigger] t.pending.contains_key(k) && t.pending[k].indexed is Variant implies t.pending[k].indexed->Variant_0.enum_item@ != q by {
            assert(s.pending.contains_key(k));
        }
    }
}

/// The state after asking for each path of `ps` in turn, stopping at the first error.
pub open spec fn pass_spec(s: QueryState, ps: Seq<Path>) -> QueryState
    decreases ps.len(),
{
    if ps.len() == 0 {
        s
    } else {
        let (t, r) = resolve_spec(s, ps[0]);
        if r is Err {
            t
        } else {
            pass_spec(t, ps.drop_first())
        }
    }
}

/// A declaration that nothing asks for, and that no variant names as its enum, is never
/// resolved: at the end of a pass it has no descriptor and no work item was made for it.
pub proof fn lemma_dead_code_elided(s: QueryState, ps: Seq<Path>, q: Path)
    requires
        state_wf(s),
        s.pending.contains_key(q),
        !ps.contains(q),
        owns_no_variant(s, q),
    ensures
        pass_spec(s, ps).pending.contains_key(q),
        !pass_spec(s, ps).metas.contains_key(q),
        forall|i: int|
            s.queue.len() <= i < pass_spec(s, ps).queue.len() ==> (#[trigger] pass_spec(s, ps).queue[i]).item
                != q,
    decreases ps.len(),
{
    if ps.len() > 0 {
        assert(ps[0] != q) by {
            assert(ps.contains(ps[0]));
        }
        lemma_resolve_frame(s, ps[0]);
        lemma_resolve_leaves_others(s, ps[0], q);
        let t = resolve_spec(s, ps[0]).0;
        if resolve_spec(s, ps[0]).1 is Ok {
            assert(!ps.drop_first().contains(q)) by {
                if ps.drop_first().contains(q) {
                    let k = choose|k: int| 0 <= k < ps.drop_first().len() && ps.drop_first()[k] == q;
                    assert(ps[k + 1] == q);
                }
            }
            lemma_dead_code_elided(t, ps.drop_first(), q);
            lemma_pass_queue_prefix(t, ps.drop_first());
            let u = pass_spec(t, ps.drop_first());
            assert forall|i: int| s.queue.len() <= i < u.queue.len() implies (#[trigger] u.queue[i]).item != q by {
                if i < t.queue.len() {
                    assert(u.queue[i] == t.queue[i]);
                }
            }
        }
    }
}

proof fn lemma_pass_queue_prefix(s: QueryState, ps: Seq<Path>)
    requires
        state_wf(s),
    ensures
        pass_facts(s, pass_spec(s, ps)),
    decreases ps.len(),
{
    if ps.len() > 0 {
        lemma_resolve_frame(s, ps[0]);
        let t = resolve_spec(s, ps[0]).0;
        assert(pass_facts(s, t));
        if resolve_spec(s, ps[0]).1 is Ok {
            lemma_pass_queue_prefix(t, ps.drop_first());
            let u = pass_spec(t, ps.drop_first());
            assert(pass_spec(s, ps) == u);
            lemma_pass_facts_compose(s, t, u);
        }
    } else {
        assert(pass_facts(s, s));
    }
}

/// What a pass keeps: the invariant, the earlier queue, only fewer pending declarations, and
/// work items only for declarations that were pending and are taken.
pub open spec fn pass_facts(s: QueryState, t: QueryState) -> bool {
    &&& state_wf(t)
    &&& s.queue.is_prefix_of(t.queue)
    &&& t.pending.submap_of(s.pending)
    &&& forall|i: int|
        s.queue.len() <= i < t.queue.len() ==> s.pending.contains_key(#[trigger] t.queue[i].item)
            && !t.pending.contains_key(t.queue[i].item)
}

proof fn lemma_pass_facts_compose(s: QueryState, t: QueryState, u: QueryState)
    requires
        pass_facts(s, t),
        pass_facts(t, u),
    ensures
        pass_facts(s, u),
{
    assert(s.queue =~= u.queue.subrange(0, s.queue.len() as int)) by {
        assert forall|k: int| 0 <= k < s.queue.len() implies s.queue[k] == u.queue[k] by {
            assert(s.queue[k] == t.queue.subrange(0, s.queue.len() as int)[k]);
            assert(t.queue[k] == u.queue.subrange(0, t.queue.len() as int)[k]);
        }
    }
    assert(u.pending.submap_of(s.pending)) by {
        assert forall|k: Path| #[trigger] u.pending.contains_key(k) implies s.pending.contains_key(k)
            && u.pending[k] == s.pending[k] by {
            assert(t.pending.contains_key(k));
        }
    }
    assert forall|i: int| s.queue.len() <= i < u.queue.len() implies s.pending.contains_key(
        #[trigger] u.queue[i].item,
    ) && !u.pending.contains_key(u.queue[i].item) by {
        if i < t.queue.len() {
            assert(u.queue[i] == t.queue[i]);
        } else {
            assert(t.pending.contains_key(u.queue[i].item));
        }
    }
}

/// Over a whole pass, whatever paths are asked for and how often, each path gets at most one
/// work item.
pub proof fn lemma_pass_one_work_item_per_path(s: QueryState, ps: Seq<Path>)
    requires
        state_wf(s),
    ensures
        forall|i: int, j: int|
            s.queue.len() <= i < j < pass_spec(s, ps).queue.len() ==> (
            #[trigger] pass_spec(s, ps).queue[i]).item != (#[trigger] pass_spec(s, ps).queue[j]).item,
    decreases ps.len(),
{
    lemma_pass_queue_prefix(s, ps);
    if ps.len() > 0 {
        lemma_resolve_frame(s, ps[0]);
        let t = resolve_spec(s, ps[0]).0;
        if resolve_spec(s, ps[0]).1 is Ok {
            lemma_pass_one_work_item_per_path(t, ps.drop_first());
            lemma_pass_queue_prefix(t, ps.drop_first());
            let u = pass_spec(t, ps.drop_first());
            assert forall|i: int, j: int| s.queue.len() <= i < j < u.queue.len() implies (
            #[trigger] u.queue[i]).item != (#[trigger] u.queue[j]).item by {
                if j < t.queue.len() {
                    assert(u.queue[i] == t.queue[i]);
                    assert(u.queue[j] == t.queue[j]);
                } else if i < t.queue.len() {
                    assert(u.queue[i] == t.queue[i]);
                    assert(!t.pending.contains_key(t.queue[i].item));
                    assert(t.pending.contains_key(u.queue[j].item));
                }
            }
        }
    }
}

} // verus!
