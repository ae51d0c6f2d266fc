//! The registry of open sessions: a concurrent id → session map plus a
//! monotonic id counter.
//!
//! Serving threads and the owning thread share the map without any locking
//! by callers, so the map itself is `dashmap`'s; its contents are named
//! here and every access goes through a contracted wrapper. Ids start at 1
//! and are never reused; the counter is wide enough that exhaustion is
//! answered explicitly instead of wrapping around silently.

use vstd::prelude::*;

verus! {

/// One open session's serving state, as the registry holds it.
#[derive(Clone)]
pub struct SessionRecord {
    /// The session's generated output tree, where static requests resolve.
    pub html_dir: String,
    /// The reload-endpoint URL the session's output was built with.
    pub livereload_url: String,
}

#[verifier::external_type_specification]
#[verifier::external_body]
#[verifier::reject_recursive_types(K)]
#[verifier::reject_recursive_types(V)]
#[verifier::reject_recursive_types(S)]
pub struct ExDashMap<K, V, S>(dashmap::DashMap<K, V, S>);

/// What a session map holds: its id → record mapping.
pub uninterp spec fn session_map_view(m: dashmap::DashMap<u64, SessionRecord>) -> Map<
    u64,
    SessionRecord,
>;

/// An empty id-to-record mapping.
pub open spec fn no_sessions() -> Map<u64, SessionRecord> {
    Map::empty()
}

/// Relies on `dashmap::DashMap::new`: a fresh map with nothing in it.
#[verifier::external_body]
fn session_map_new() -> (m: dashmap::DashMap<u64, SessionRecord>)
    ensures
        session_map_view(m) == no_sessions(),
{
    dashmap::DashMap::new()
}

/// Relies on `dashmap::DashMap::insert`: maps `id` to `rec` and returns
/// whatever record was under `id` before.
#[verifier::external_body]
fn session_map_insert(
    m: &mut dashmap::DashMap<u64, SessionRecord>,
    id: u64,
    rec: SessionRecord,
) -> (prev: Option<SessionRecord>)
    ensures
        session_map_view(*final(m)) == session_map_view(*old(m)).insert(id, rec),
        prev matches Some(p) ==> (session_map_view(*old(m)).dom().contains(id) && p
            == session_map_view(*old(m))[id]),
        prev is None ==> !session_map_view(*old(m)).dom().contains(id),
{
    m.insert(id, rec)
}

/// Relies on `dashmap::DashMap::get`: a copy of the record under `id`, if
/// any.
#[verifier::external_body]
fn session_map_get(m: &dashmap::DashMap<u64, SessionRecord>, id: u64) -> (r: Option<SessionRecord>)
    ensures
        r matches Some(rec) ==> (session_map_view(*m).dom().contains(id) && rec
            == session_map_view(*m)[id]),
        r is None ==> !session_map_view(*m).dom().contains(id),
{
    m.get(&id).map(|entry| entry.value().clone())
}

/// Relies on `dashmap::DashMap::remove`: takes the record under `id` out
/// and returns it.
#[verifier::external_body]
fn session_map_remove(m: &mut dashmap::DashMap<u64, SessionRecord>, id: u64) -> (r: Option<
    SessionRecord,
>)
    ensures
        session_map_view(*final(m)) == session_map_view(*old(m)).remove(id),
        r matches Some(rec) ==> (session_map_view(*old(m)).dom().contains(id) && rec
            == session_map_view(*old(m))[id]),
        r is None ==> !session_map_view(*old(m)).dom().contains(id),
{
    m.remove(&id).map(|kv| kv.1)
}

/// The concurrent map from session id to open session, with id assignment.
pub struct SessionRegistry {
    map: dashmap::DashMap<u64, SessionRecord>,
    next_id: u64,
}

impl SessionRegistry {
    /// The id → record mapping of the currently open sessions.
    pub closed spec fn contents(&self) -> Map<u64, SessionRecord> {
        session_map_view(self.map)
    }

    /// The id the next opened session will receive.
    pub closed spec fn next(&self) -> u64 {
        self.next_id
    }

    /// Ids are handed out by a counter that started at 1, so every open id
    /// lies below the counter and a fresh id collides with nothing.
    pub open spec fn wf(&self) -> bool {
        &&& self.next() >= 1
        &&& forall|id: u64| self.contents().dom().contains(id) ==> id < self.next()
    }

    /// An empty registry; the first session will get id 1.
    pub fn new() -> (r: SessionRegistry)
        ensures
            r.wf(),
            r.contents() == Map::<u64, SessionRecord>::empty(),
            r.next() == 1,
    {
        SessionRegistry { map: session_map_new(), next_id: 1 }
    }

    /// Assigns the next id and registers the record under it. The id is
    /// distinct from that of every session open at the time. `None` only
    /// when the id space is exhausted — ids are never reused, so the
    /// counter is simply refused past its width instead of wrapping.
    pub fn register(&mut self, rec: SessionRecord) -> (r: Option<u64>)
        requires
            old(self).wf(),
        ensures
            final(self).wf(),
            r is None <==> old(self).next() == u64::MAX,
            r is None ==> (final(self).contents() == old(self).contents() && final(self).next()
                == old(self).next()),
            r matches Some(id) ==> (id == old(self).next()
                && !old(self).contents().dom().contains(id)
                && final(self).contents() == old(self).contents().insert(id, rec)
                && final(self).next() == id + 1 && 1 <= id),
    {
        if self.next_id == u64::MAX {
            return None;
        }
        let id = self.next_id;
        self.next_id = self.next_id + 1;
        let _prev = session_map_insert(&mut self.map, id, rec);
        proof {
            assert forall|x: u64| self.contents().dom().contains(x) implies x < self.next() by {
                if x != id {
                    assert(old(self).contents().dom().contains(x));
                }
            }
        }
        Some(id)
    }

    /// Assigns the next id without opening anything under it yet: the
    /// open flow needs the id first, to build the output tree against the
    /// session's reload endpoint. The id is distinct from that of every
    /// session open now or ever opened later. `None` only when the id
    /// space is exhausted.
    pub fn allocate_id(&mut self) -> (r: Option<u64>)
        requires
            old(self).wf(),
        ensures
            final(self).wf(),
            final(self).contents() == old(self).contents(),
            r is None <==> old(self).next() == u64::MAX,
            r is None ==> final(self).next() == old(self).next(),
            r matches Some(id) ==> (id == old(self).next() && !old(
                self,
            ).contents().dom().contains(id) && final(self).next() == id + 1 && 1 <= id),
    {
        if self.next_id == u64::MAX {
            return None;
        }
        let id = self.next_id;
        self.next_id = self.next_id + 1;
        proof {
            assert(self.contents() == old(self).contents());
            assert forall|x: u64| self.contents().dom().contains(x) implies x < self.next() by {
                assert(old(self).contents().dom().contains(x));
            }
        }
        Some(id)
    }

    /// Opens the session under an id that [`Self::allocate_id`] handed
    /// out, once its initial build has succeeded.
    pub fn install(&mut self, id: u64, rec: SessionRecord)
        requires
            old(self).wf(),
            id < old(self).next(),
        ensures
            final(self).wf(),
            final(self).next() == old(self).next(),
            final(self).contents() == old(self).contents().insert(id, rec),
    {
        let _prev = session_map_insert(&mut self.map, id, rec);
        proof {
            assert forall|x: u64| self.contents().dom().contains(x) implies x < self.next() by {
                if x != id {
                    assert(old(self).contents().dom().contains(x));
                }
            }
        }
    }

    /// The record under `id`, if that session is open; a clean not-found
    /// otherwise.
    pub fn lookup(&self, id: u64) -> (r: Option<SessionRecord>)
        ensures
            r matches Some(rec) ==> (self.contents().dom().contains(id) && rec
                == self.contents()[id]),
            r is None ==> !self.contents().dom().contains(id),
    {
        session_map_get(&self.map, id)
    }

    /// Closes `id`: its record leaves the map. Closing an id that is not
    /// open is a quiet no-op, never an error.
    pub fn close(&mut self, id: u64) -> (was_open: bool)
        requires
            old(self).wf(),
        ensures
            final(self).wf(),
            final(self).next() == old(self).next(),
            final(self).contents() == old(self).contents().remove(id),
            was_open == old(self).contents().dom().contains(id),
    {
        let removed = session_map_remove(&mut self.map, id);
        proof {
            assert forall|x: u64| self.contents().dom().contains(x) implies x < self.next() by {
                assert(old(self).contents().dom().contains(x));
            }
        }
        removed.is_some()
    }
}

/// A closed session stays closed: after its record is removed, looking the
/// id up finds nothing, so both the static and the socket route answer
/// not-found for it.
pub proof fn lemma_closed_id_not_found(reg: SessionRegistry, id: u64)
    ensures
        !reg.contents().remove(id).dom().contains(id),
{
}

/// Closing one session leaves every other open session's record exactly as
/// it was.
pub proof fn lemma_close_leaves_others(reg: SessionRegistry, id: u64, other: u64)
    requires
        id != other,
        reg.contents().dom().contains(other),
    ensures
        reg.contents().remove(id).dom().contains(other),
        reg.contents().remove(id)[other] == reg.contents()[other],
{
}

/// A freshly assigned id differs from the id of every session that is open
/// when it is assigned.
pub proof fn lemma_fresh_id_distinct(reg: SessionRegistry, open_id: u64)
    requires
        reg.wf(),
        reg.contents().dom().contains(open_id),
    ensures
        reg.next() != open_id,
{
}

} // verus!
