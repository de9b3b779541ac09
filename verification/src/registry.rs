//! The registry of running sessions: from a session's id to the handle of
//! its process.
//!
//! The registry is a plain value. Whoever shares it among tasks guards it
//! with a lock and holds the lock for one call at a time; what is done with a
//! handle that a call gives back (ending a process, say) happens after the
//! call, outside the lock.

use vstd::prelude::*;
use vstd::string::StringExecFns;
use crate::session::{
    events_for, Phase, ProcessEvent, Session, SessionEvent, SessionEventView, SessionView, Status,
};

verus! {

/// The sessions believed to run, each with the handle of its process. No id
/// stands in it twice. Running sessions are few, so the entries lie in a
/// vector that is searched from the front; a handle that is taken off is
/// handed out to the caller, who owns it from then on.
pub struct SessionRegistry<H> {
    entries: Vec<(String, H)>,
}

/// Whether the id `id` stands at place `i` of `entries`.
pub open spec fn holds_at<H>(entries: Seq<(String, H)>, id: Seq<char>, i: int) -> bool {
    0 <= i < entries.len() && entries[i].0@ == id
}

/// A place at which `id` stands in `entries`.
pub open spec fn place_of<H>(entries: Seq<(String, H)>, id: Seq<char>) -> int {
    choose|i: int| holds_at(entries, id, i)
}

/// Whether no id stands in `entries` twice.
pub open spec fn distinct_ids<H>(entries: Seq<(String, H)>) -> bool {
    forall|i: int, j: int|
        0 <= i < j < entries.len() ==> (#[trigger] entries[i]).0@ != (#[trigger] entries[j]).0@
}

/// The mapping that `entries` stand for.
pub open spec fn mapping_of<H>(entries: Seq<(String, H)>) -> Map<Seq<char>, H> {
    Map::new(
        |id: Seq<char>| exists|i: int| holds_at(entries, id, i),
        |id: Seq<char>| entries[place_of(entries, id)].1,
    )
}

proof fn lemma_place_is_unique<H>(entries: Seq<(String, H)>, id: Seq<char>, i: int)
    requires
        distinct_ids(entries),
        holds_at(entries, id, i),
    ensures
        place_of(entries, id) == i,
        mapping_of(entries).contains_key(id),
        mapping_of(entries)[id] == entries[i].1,
{
    let p = place_of(entries, id);
    assert(holds_at(entries, id, p));
    if p < i {
        assert(entries[p].0@ != entries[i].0@);
    } else if i < p {
        assert(entries[i].0@ != entries[p].0@);
    }
}

proof fn lemma_mapping_after_push<H>(entries: Seq<(String, H)>, id: String, handle: H)
    requires
        distinct_ids(entries),
        forall|i: int| 0 <= i < entries.len() ==> (#[trigger] entries[i]).0@ != id@,
    ensures
        distinct_ids(entries.push((id, handle))),
        mapping_of(entries.push((id, handle))) == mapping_of(entries).insert(id@, handle),
{
    let grown = entries.push((id, handle));
    assert(distinct_ids(grown));
    assert forall|k: Seq<char>| #[trigger]
        mapping_of(grown).contains_key(k) == mapping_of(entries).insert(id@, handle).contains_key(
            k,
        ) by {
        if mapping_of(grown).contains_key(k) {
            let i = choose|i: int| holds_at(grown, k, i);
            if i < entries.len() {
                assert(holds_at(entries, k, i));
            }
        }
        if mapping_of(entries).contains_key(k) {
            let i = choose|i: int| holds_at(entries, k, i);
            assert(holds_at(grown, k, i));
        }
        if k == id@ {
            assert(holds_at(grown, k, entries.len() as int));
        }
    }
    assert forall|k: Seq<char>| #[trigger] mapping_of(grown).contains_key(k) implies mapping_of(
        grown,
    )[k] == mapping_of(entries).insert(id@, handle)[k] by {
        let i = choose|i: int| holds_at(grown, k, i);
        lemma_place_is_unique(grown, k, i);
        if i < entries.len() {
            assert(holds_at(entries, k, i));
            lemma_place_is_unique(entries, k, i);
        }
    }
    assert(mapping_of(grown) =~= mapping_of(entries).insert(id@, handle));
}

proof fn lemma_mapping_after_remove<H>(entries: Seq<(String, H)>, at: int)
    requires
        distinct_ids(entries),
        0 <= at < entries.len(),
    ensures
        distinct_ids(entries.remove(at)),
        mapping_of(entries.remove(at)) == mapping_of(entries).remove(entries[at].0@),
        forall|i: int|
            0 <= i < entries.remove(at).len() ==> (#[trigger] entries.remove(at)[i]).0@
                != entries[at].0@,
{
    let rest = entries.remove(at);
    let gone = entries[at].0@;
    assert forall|i: int| 0 <= i < rest.len() implies (#[trigger] rest[i]).0@ != gone by {
        if i < at {
            assert(rest[i] == entries[i]);
            assert(entries[i].0@ != entries[at].0@);
        } else {
            assert(rest[i] == entries[i + 1]);
            assert(entries[at].0@ != entries[i + 1].0@);
        }
    }
    assert forall|i: int, j: int| 0 <= i < j < rest.len() implies (#[trigger] rest[i]).0@ != (
    #[trigger] rest[j]).0@ by {
        let i0 = if i < at {
            i
        } else {
            i + 1
        };
        let j0 = if j < at {
            j
        } else {
            j + 1
        };
        assert(rest[i] == entries[i0]);
        assert(rest[j] == entries[j0]);
        assert(entries[i0].0@ != entries[j0].0@);
    }
    assert forall|k: Seq<char>| #[trigger]
        mapping_of(rest).contains_key(k) == mapping_of(entries).remove(gone).contains_key(k) by {
        if mapping_of(rest).contains_key(k) {
            let i = choose|i: int| holds_at(rest, k, i);
            let i0 = if i < at {
                i
            } else {
                i + 1
            };
            assert(rest[i] == entries[i0]);
            assert(holds_at(entries, k, i0));
        }
        if mapping_of(entries).remove(gone).contains_key(k) {
            let i0 = choose|i: int| holds_at(entries, k, i);
            assert(i0 != at);
            let i = if i0 < at {
                i0
            } else {
                i0 - 1
            };
            assert(rest[i] == entries[i0]);
            assert(holds_at(rest, k, i));
        }
    }
    assert forall|k: Seq<char>| #[trigger] mapping_of(rest).contains_key(k) implies mapping_of(
        rest,
    )[k] == mapping_of(entries).remove(gone)[k] by {
        let i = choose|i: int| holds_at(rest, k, i);
        lemma_place_is_unique(rest, k, i);
        let i0 = if i < at {
            i
        } else {
            i + 1
        };
        assert(rest[i] == entries[i0]);
        assert(holds_at(entries, k, i0));
        lemma_place_is_unique(entries, k, i0);
    }
    assert(mapping_of(rest) =~= mapping_of(entries).remove(gone));
}

impl<H> View for SessionRegistry<H> {
    type V = Map<Seq<char>, H>;

    closed spec fn view(&self) -> Map<Seq<char>, H> {
        mapping_of(self.entries@)
    }
}

impl<H> SessionRegistry<H> {
    #[verifier::type_invariant]
    spec fn sound(&self) -> bool {
        distinct_ids(self.entries@)
    }

    /// A registry without sessions.
    pub fn new() -> (registry: SessionRegistry<H>)
        ensures
            registry@ == Map::<Seq<char>, H>::empty(),
    {
        let registry = SessionRegistry { entries: Vec::new() };
        assert(registry@ =~= Map::<Seq<char>, H>::empty());
        registry
    }

    /// The place at which `id` stands.
    fn position(&self, id: &String) -> (place: Option<usize>)
        ensures
            match place {
                Some(i) => holds_at(self.entries@, id@, i as int),
                None => forall|i: int| 0 <= i < self.entries@.len() ==> (
                #[trigger] self.entries@[i]).0@ != id@,
            },
    {
        let mut i: usize = 0;
        while i < self.entries.len()
            invariant
                i <= self.entries.len(),
                forall|j: int| 0 <= j < i ==> (#[trigger] self.entries@[j]).0@ != id@,
            decreases self.entries.len() - i,
        {
            if self.entries[i].0 == *id {
                return Some(i);
            }
            i += 1;
        }
        None
    }

    /// Whether a session of this id is registered.
    pub fn contains(&self, id: &str) -> (present: bool)
        ensures
            present == self@.contains_key(id@),
    {
        let key = String::from_str(id);
        let place = self.position(&key);
        proof {
            use_type_invariant(self);
            if let Some(i) = place {
                lemma_place_is_unique(self.entries@, id@, i as int);
            } else {
                if self@.contains_key(id@) {
                    let i = choose|i: int| holds_at(self.entries@, id@, i);
                    assert(self.entries@[i].0@ == id@);
                }
            }
        }
        place.is_some()
    }

    /// Takes the session `id` off the registry and hands out its handle;
    /// `None`, and nothing changed, where no such session is registered.
    pub fn remove(&mut self, id: &str) -> (handle: Option<H>)
        ensures
            final(self)@ == old(self)@.remove(id@),
            handle == if old(self)@.contains_key(id@) {
                Some(old(self)@[id@])
            } else {
                None
            },
            !final(self)@.contains_key(id@),
    {
        let key = String::from_str(id);
        let place = self.position(&key);
        proof {
            use_type_invariant(&*self);
        }
        match place {
            Some(i) => {
                proof {
                    lemma_place_is_unique(self.entries@, id@, i as int);
                    lemma_mapping_after_remove(self.entries@, i as int);
                }
                let mut entries: Vec<(String, H)> = Vec::new();
                core::mem::swap(&mut self.entries, &mut entries);
                let entry = entries.remove(i);
                core::mem::swap(&mut self.entries, &mut entries);
                Some(entry.1)
            },
            None => {
                proof {
                    if self@.contains_key(id@) {
                        let i = choose|i: int| holds_at(self.entries@, id@, i);
                        assert(self.entries@[i].0@ == id@);
                    }
                    assert(self@ =~= self@.remove(id@));
                }
                None
            },
        }
    }

    /// Registers the session `id` with the handle of its process. Where a
    /// session of this id is registered already, its handle is replaced and
    /// handed out.
    pub fn insert(&mut self, id: &str, handle: H) -> (replaced: Option<H>)
        ensures
            final(self)@ == old(self)@.insert(id@, handle),
            replaced == if old(self)@.contains_key(id@) {
                Some(old(self)@[id@])
            } else {
                None
            },
    {
        let replaced = self.remove(id);
        let key = String::from_str(id);
        proof {
            use_type_invariant(&*self);
            assert forall|i: int| 0 <= i < self.entries@.len() implies (
            #[trigger] self.entries@[i]).0@ != id@ by {
                if self.entries@[i].0@ == id@ {
                    assert(holds_at(self.entries@, id@, i));
                    assert(self@.contains_key(id@));
                }
            }
            lemma_mapping_after_push(self.entries@, key, handle);
        }
        let mut entries: Vec<(String, H)> = Vec::new();
        core::mem::swap(&mut self.entries, &mut entries);
        entries.push((key, handle));
        core::mem::swap(&mut self.entries, &mut entries);
        assert(old(self)@.remove(id@).insert(id@, handle) =~= old(self)@.insert(id@, handle));
        replaced
    }
}

/// Why a session could not be started.
#[derive(Clone, Debug, PartialEq, Eq)]
pub enum StartError {
    /// The process could not be created; the text says why.
    SpawnFailed(String),
}

/// A session that has been started.
#[derive(Debug)]
pub struct Started<H> {
    /// The session, with nothing seen yet.
    pub session: Session,
    /// The handle that stood in the registry under the same id, if one did.
    pub displaced: Option<H>,
}

/// Starts the session `id` on the outcome of creating its process. Where the
/// process was created, its handle is registered under `id` and a session
/// that has seen nothing is handed out. Where it was not, the failure is
/// handed on and the registry stays as it is.
pub fn start_session<H>(
    registry: &mut SessionRegistry<H>,
    id: &str,
    spawned: Result<H, String>,
) -> (started: Result<Started<H>, StartError>)
    ensures
        match spawned {
            Ok(handle) => {
                &&& final(registry)@ == old(registry)@.insert(id@, handle)
                &&& started matches Ok(s)
                &&& s.session@ == (SessionView { id: id@, current_phase: Phase::Downloading, leg_count: 0 })
                &&& s.displaced == if old(registry)@.contains_key(id@) {
                    Some(old(registry)@[id@])
                } else {
                    None
                }
            },
            Err(reason) => {
                &&& final(registry)@ == old(registry)@
                &&& started == Err::<Started<H>, StartError>(StartError::SpawnFailed(reason))
            },
        },
{
    match spawned {
        Ok(handle) => {
            let displaced = registry.insert(id, handle);
            Ok(Started { session: Session::new(String::from_str(id)), displaced })
        },
        Err(reason) => Err(StartError::SpawnFailed(reason)),
    }
}

/// What a cancellation asks of the caller.
#[derive(Debug)]
pub struct Cancellation<H> {
    /// The handle of the process to end, with everything it started; `None`
    /// where no session of the id was registered.
    pub handle: Option<H>,
    /// The events to publish once the process is dealt with.
    pub events: Vec<SessionEvent>,
}

/// The event that acknowledges the cancellation of the session `id`.
pub open spec fn cancelled_event(id: Seq<char>) -> SessionEventView {
    SessionEventView::StatusChanged { id, status: Status::Cancelled }
}

/// Cancels the session `id`: takes it off the registry, hands out the handle
/// of its process, and acknowledges with exactly one `Cancelled` status.
/// A session that is not registered, because it has ended or never was, is
/// acknowledged in the same way, and the registry stays as it is.
pub fn cancel_session<H>(registry: &mut SessionRegistry<H>, id: &str) -> (cancellation:
    Cancellation<H>)
    ensures
        final(registry)@ == old(registry)@.remove(id@),
        !final(registry)@.contains_key(id@),
        cancellation.handle == if old(registry)@.contains_key(id@) {
            Some(old(registry)@[id@])
        } else {
            None
        },
        cancellation.events.deep_view() == seq![cancelled_event(id@)],
{
    let handle = registry.remove(id);
    let mut events: Vec<SessionEvent> = Vec::new();
    events.push(SessionEvent::StatusChanged { id: String::from_str(id), status: Status::Cancelled });
    assert(events.deep_view() =~= seq![cancelled_event(id@)]);
    Cancellation { handle, events }
}

/// A session whose process ended with exit code 0 is closed by exactly one
/// `Completed` status, and once it is retired its id is not registered.
pub proof fn lemma_completed_session_is_retired<H>(registry: Map<Seq<char>, H>, s: SessionView)
    ensures
        events_for(s, ProcessEvent::Terminated(Some(0i32))) == seq![
            SessionEventView::StatusChanged { id: s.id, status: Status::Completed },
        ],
        !registry.remove(s.id).contains_key(s.id),
{
}

/// Takes a session whose process has ended off the registry. Where a
/// cancellation has taken it off already, nothing changes.
pub fn retire_session<H>(registry: &mut SessionRegistry<H>, id: &str)
    ensures
        final(registry)@ == old(registry)@.remove(id@),
        !final(registry)@.contains_key(id@),
{
    let _ = registry.remove(id);
}

} // verus!
