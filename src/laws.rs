use vstd::prelude::*;

use crate::engine::TtyEngine;

verus! {

/// An id that was never issued (zero, or not below the next id) names no
/// registered session, so every lookup of it reports it as not found.
pub proof fn lemma_unissued_not_registered(e: &TtyEngine, id: u64)
    requires
        e.wf(),
        id == 0 || e.next_id() <= id,
    ensures
        !e.has_session(id),
{
    if e.has_session(id) {
        let i = e.position(id);
        assert(1 <= e@[i].id < e.next_id());
    }
}

/// `list_sessions` names exactly the registered sessions.
pub proof fn lemma_listed_iff_registered(e: &TtyEngine, id: u64)
    ensures
        e.ids().contains(id) == e.has_session(id),
{
    if e.has_session(id) {
        let i = e.position(id);
        assert(e.ids()[i] == id);
    }
    if e.ids().contains(id) {
        let i = choose|i: int| 0 <= i < e.ids().len() && e.ids()[i] == id;
        assert(e@[i].id == id);
    }
}

/// Nothing has changed is an evolution.
pub proof fn lemma_evolves_reflexive(a: &TtyEngine)
    ensures
        a.evolves_to(a),
{
}

/// Evolution composes: what holds across two stretches of operations holds
/// across both together.
pub proof fn lemma_evolves_transitive(a: &TtyEngine, b: &TtyEngine, c: &TtyEngine)
    requires
        a.wf(),
        b.wf(),
        c.wf(),
        a.evolves_to(b),
        b.evolves_to(c),
    ensures
        a.evolves_to(c),
{
    assert forall|id: u64| c.has_session(id) && !a.has_session(id) implies a.next_id() <= id by {
        if b.has_session(id) {
        }
    }
    assert forall|id: u64|
        #![trigger c.has_session(id), a.has_session(id)]
        a.has_session(id) && c.has_session(id) implies {
        let x = a.session(id);
        let z = c.session(id);
        &&& z.id == x.id
        &&& z.master_fd == x.master_fd
        &&& z.child_pid == x.child_pid
        &&& z.created_at == x.created_at
        &&& x.bytes_read <= z.bytes_read
        &&& x.bytes_written <= z.bytes_written
    } by {
        if !b.has_session(id) {
            lemma_unissued_not_registered(a, id);
        }
        assert(b.has_session(id));
    }
}

/// Over any run of operations, each step an evolution, the whole run is an
/// evolution: a session registered at its start and at its end has read and
/// written at least as many bytes at the end, and no engine counter has gone
/// down.
pub proof fn lemma_run_evolves(run: Seq<TtyEngine>)
    requires
        run.len() >= 1,
        forall|i: int| 0 <= i < run.len() ==> (#[trigger] run[i]).wf(),
        forall|i: int| 0 <= i < run.len() - 1 ==> (#[trigger] run[i]).evolves_to(&run[i + 1]),
    ensures
        run[0].evolves_to(&run.last()),
    decreases run.len(),
{
    if run.len() == 1 {
        lemma_evolves_reflexive(&run[0]);
    } else {
        let n = run.len() - 1;
        let prefix = run.drop_last();
        assert forall|i: int| 0 <= i < prefix.len() - 1 implies (#[trigger] prefix[i]).evolves_to(
            &prefix[i + 1],
        ) by {
            assert(run[i].evolves_to(&run[i + 1]));
        }
        lemma_run_evolves(prefix);
        assert(run[n - 1].evolves_to(&run[n]));
        lemma_evolves_transitive(&run[0], &run[n - 1], &run[n]);
    }
}

/// A registered session stays registered over any run of operations in which
/// no step removes it: step `i` may remove only `removed[i]`, which is what
/// `destroy_pty` and an exited child seen by `observe_child` do, and every
/// other operation removes nothing.
pub proof fn lemma_registered_until_removed(run: Seq<TtyEngine>, removed: Seq<Option<u64>>, id: u64)
    requires
        run.len() >= 1,
        removed.len() == run.len() - 1,
        forall|i: int| 0 <= i < run.len() - 1 ==> (#[trigger] run[i]).retains(&run[i + 1], removed[i]),
        forall|i: int| 0 <= i < removed.len() ==> #[trigger] removed[i] != Some(id),
        run[0].has_session(id),
    ensures
        run.last().has_session(id),
    decreases run.len(),
{
    if run.len() > 1 {
        let n = run.len() - 1;
        let prefix = run.drop_last();
        let removed_prefix = removed.drop_last();
        assert forall|i: int| 0 <= i < prefix.len() - 1 implies (#[trigger] prefix[i]).retains(
            &prefix[i + 1],
            removed_prefix[i],
        ) by {
            assert(run[i].retains(&run[i + 1], removed[i]));
        }
        assert forall|i: int| 0 <= i < removed_prefix.len() implies #[trigger] removed_prefix[i] != Some(id) by {
            assert(removed[i] != Some(id));
        }
        lemma_registered_until_removed(prefix, removed_prefix, id);
        assert(run[n - 1].retains(&run[n], removed[n - 1]));
        assert(removed[n - 1] != Some(id));
        assert(run[n].has_session(id));
    }
}

/// Ids of successive creations increase: a creation issues `x`, any
/// operations follow, and a later creation issues `y`; then `x < y`, and
/// `y == x + 1` where nothing in between was created.
pub proof fn lemma_successive_ids(
    a: &TtyEngine,
    b: &TtyEngine,
    c: &TtyEngine,
    d: &TtyEngine,
    x: u64,
    y: u64,
)
    requires
        a.issued(b, x),
        b.evolves_to(c),
        c.issued(d, y),
    ensures
        x < y,
        b.next_id() == c.next_id() ==> y == x + 1,
{
}

/// Of two resizes of one session, the window size of the last one is in
/// effect, and the byte counters are those from before both.
pub proof fn lemma_last_resize_wins(
    a: &TtyEngine,
    b: &TtyEngine,
    c: &TtyEngine,
    id: u64,
    rows1: u16,
    cols1: u16,
    rows2: u16,
    cols2: u16,
)
    requires
        a.wf(),
        b.wf(),
        c.wf(),
        a.resized(b, id, rows1, cols1),
        b.resized(c, id, rows2, cols2),
    ensures
        c.has_session(id),
        c.session(id).rows == rows2,
        c.session(id).cols == cols2,
        c.session(id).bytes_read == a.session(id).bytes_read,
        c.session(id).bytes_written == a.session(id).bytes_written,
        c.session(id).mode == a.session(id).mode,
{
    let p = a.position(id);
    a.lemma_position(p);
    assert(b@[p].id == id);
    b.lemma_position(p);
    assert(c@[p].id == id);
    c.lemma_position(p);
}

/// With no session left registered, every created session has been counted
/// as destroyed.
pub proof fn lemma_balanced_when_empty(e: &TtyEngine)
    requires
        e.wf(),
        e@.len() == 0,
    ensures
        e.stats().sessions_created == e.stats().sessions_destroyed,
{
}

} // verus!
