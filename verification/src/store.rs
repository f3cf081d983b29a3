//! Session manager: the in-memory session store with an expiry queue.
//!
//! Each message of the session manager agent is a method here; the actor
//! runtime and the cleanup timer live outside the library. Times are
//! millisecond timestamps passed in by the caller.

use vstd::prelude::*;
use crate::session::{SessionId, SessionData, FlashMessage, SESSION_TTL_MS};

verus! {

/// A session kept by the store.
#[derive(Debug)]
pub struct StoredSession {
    /// Session identifier
    pub id: SessionId,
    /// Session data
    pub data: SessionData,
}

/// An entry of the expiry queue: when a saved session expires.
#[derive(Debug)]
pub struct ExpiryEntry {
    /// Expiration time recorded when the session was saved
    pub expires_at: i64,
    /// Session identifier
    pub id: SessionId,
}

/// Whether no session identifier occurs twice.
pub open spec fn distinct_ids(s: Seq<StoredSession>) -> bool {
    forall|i: int, j: int| 0 <= i < j < s.len() ==> s[i].id.0@ != s[j].id.0@
}

/// Whether a session with this identifier is stored.
pub open spec fn is_stored(s: Seq<StoredSession>, id: Seq<char>) -> bool {
    exists|i: int| 0 <= i < s.len() && s[i].id.0@ == id
}

/// The position of the session with this identifier (meaningful when stored).
pub open spec fn stored_index(s: Seq<StoredSession>, id: Seq<char>) -> int {
    choose|i: int| 0 <= i < s.len() && s[i].id.0@ == id
}

/// The data stored under an identifier, if any.
pub open spec fn stored(s: Seq<StoredSession>, id: Seq<char>) -> Option<SessionData> {
    if is_stored(s, id) {
        Some(s[stored_index(s, id)].data)
    } else {
        None
    }
}

/// The store after saving `data` under `id`: the entry is replaced in place,
/// or appended when the identifier is new.
pub open spec fn spec_save(s: Seq<StoredSession>, id: SessionId, data: SessionData) -> Seq<StoredSession> {
    if is_stored(s, id.0@) {
        s.update(stored_index(s, id.0@), StoredSession { id, data })
    } else {
        s.push(StoredSession { id, data })
    }
}

/// The store without the session `id`.
pub open spec fn spec_delete(s: Seq<StoredSession>, id: Seq<char>) -> Seq<StoredSession> {
    if is_stored(s, id) {
        s.remove(stored_index(s, id))
    } else {
        s
    }
}

/// The expiry entries still in the future at `now`, in order.
pub open spec fn live_entries(q: Seq<ExpiryEntry>, now: i64) -> Seq<ExpiryEntry>
    decreases q.len(),
{
    if q.len() == 0 {
        Seq::empty()
    } else if q.last().expires_at > now {
        live_entries(q.drop_last(), now).push(q.last())
    } else {
        live_entries(q.drop_last(), now)
    }
}

/// Whether the queue holds an entry for `id` that is due at `now`.
pub open spec fn due_for(q: Seq<ExpiryEntry>, id: Seq<char>, now: i64) -> bool {
    exists|k: int| 0 <= k < q.len() && q[k].expires_at <= now && q[k].id.0@ == id
}

/// The sessions kept by a cleanup at `now`, in order: those whose stored
/// data expires after `now`.
pub open spec fn kept_sessions(s: Seq<StoredSession>, now: i64) -> Seq<StoredSession>
    decreases s.len(),
{
    if s.len() == 0 {
        Seq::empty()
    } else if s.last().data.expires_at <= now {
        kept_sessions(s.drop_last(), now)
    } else {
        kept_sessions(s.drop_last(), now).push(s.last())
    }
}

/// Whether the queue holds an entry for the session with its current
/// expiration time.
pub open spec fn queued(q: Seq<ExpiryEntry>, x: StoredSession) -> bool {
    exists|k: int| 0 <= k < q.len() && q[k].id.0@ == x.id.0@ && q[k].expires_at == x.data.expires_at
}

/// Whether every stored session has a queue entry for its current
/// expiration time, so that a cleanup finds every expired session.
pub open spec fn queue_covers(s: Seq<StoredSession>, q: Seq<ExpiryEntry>) -> bool {
    forall|i: int| 0 <= i < s.len() ==> queued(q, #[trigger] s[i])
}

/// Session manager model: the stored sessions and the expiry queue.
#[derive(Debug)]
pub struct SessionManagerAgent {
    /// In-memory session storage (each identifier at most once)
    pub sessions: Vec<StoredSession>,
    /// Expiry queue for cleanup: one entry per save
    pub expiry_queue: Vec<ExpiryEntry>,
}

proof fn lemma_stored_at(s: Seq<StoredSession>, i: int)
    requires
        distinct_ids(s),
        0 <= i < s.len(),
    ensures
        stored_index(s, s[i].id.0@) == i,
        stored(s, s[i].id.0@) == Some(s[i].data),
{
    let j = stored_index(s, s[i].id.0@);
    if j != i {
        if j < i {
            assert(s[j].id.0@ != s[i].id.0@);
        } else {
            assert(s[i].id.0@ != s[j].id.0@);
        }
    }
}

fn find_session(sessions: &Vec<StoredSession>, id: &SessionId) -> (r: Option<usize>)
    requires
        distinct_ids(sessions@),
    ensures
        match r {
            Some(i) => i < sessions@.len() && sessions@[i as int].id.0@ == id.0@
                && i == stored_index(sessions@, id.0@),
            None => !is_stored(sessions@, id.0@),
        },
{
    let n = sessions.len();
    let mut i: usize = 0;
    while i < n
        invariant
            n == sessions@.len(),
            i <= n,
            distinct_ids(sessions@),
            forall|k: int| 0 <= k < i ==> sessions@[k].id.0@ != id.0@,
        decreases n - i,
    {
        if sessions[i].id.same(id) {
            proof { lemma_stored_at(sessions@, i as int); }
            return Some(i);
        }
        i = i + 1;
    }
    None
}

impl SessionManagerAgent {
    /// Whether each session identifier is stored at most once and every
    /// stored session is queued with its expiration time.
    pub open spec fn wf(&self) -> bool {
        &&& distinct_ids(self.sessions@)
        &&& queue_covers(self.sessions@, self.expiry_queue@)
    }

    /// An empty store.
    pub fn new() -> (a: SessionManagerAgent)
        ensures
            a.wf(),
            a.sessions@.len() == 0,
            a.expiry_queue@.len() == 0,
    {
        SessionManagerAgent { sessions: Vec::new(), expiry_queue: Vec::new() }
    }

    /// Load a session at `now`: the stored data with its expiry extended by
    /// 24 hours, or nothing when the session is unknown or has expired. The
    /// stored copy is left as it was.
    pub fn load(&self, id: &SessionId, now_ms: i64) -> (r: Option<SessionData>)
        requires
            self.wf(),
            now_ms + SESSION_TTL_MS <= i64::MAX,
        ensures
            match stored(self.sessions@, id.0@) {
                Some(d) => if d.expired_at(now_ms) {
                    r.is_none()
                } else {
                    r matches Some(l) && l.same_as(&SessionData {
                        last_accessed: now_ms,
                        expires_at: (now_ms + SESSION_TTL_MS) as i64,
                        ..d
                    })
                },
                None => r.is_none(),
            },
            match stored(self.sessions@, id.0@) {
                Some(d) => {
                    &&& now_ms > d.expires_at ==> r.is_none()
                    &&& now_ms <= d.expires_at ==> (r matches Some(l) && l.expires_at == now_ms + SESSION_TTL_MS
                        && l.last_accessed == now_ms && l.created_at == d.created_at)
                },
                None => r.is_none(),
            },
    {
        match find_session(&self.sessions, id) {
            Some(i) => {
                proof { lemma_stored_at(self.sessions@, i as int); }
                let stored_data = &self.sessions[i].data;
                if stored_data.is_expired(now_ms) {
                    None
                } else {
                    let mut data = stored_data.clone();
                    data.touch(now_ms, SESSION_TTL_MS);
                    Some(data)
                }
            },
            None => None,
        }
    }

    /// Save a session: store the data under the identifier (replacing any
    /// earlier data) and queue its expiration time.
    pub fn save(&mut self, id: SessionId, data: SessionData)
        requires
            old(self).wf(),
        ensures
            final(self).wf(),
            final(self).sessions@ == spec_save(old(self).sessions@, id, data),
            final(self).expiry_queue@ == old(self).expiry_queue@.push(ExpiryEntry { expires_at: data.expires_at, id }),
    {
        let queued_id = id.clone();
        let expires_at = data.expires_at;
        let ghost before = self.sessions@;
        match find_session(&self.sessions, &id) {
            Some(i) => {
                self.sessions.set(i, StoredSession { id, data });
                proof {
                    assert forall|a: int, b: int| 0 <= a < b < self.sessions@.len()
                        implies self.sessions@[a].id.0@ != self.sessions@[b].id.0@ by {
                        assert(before[a].id.0@ != before[b].id.0@);
                    }
                }
            },
            None => {
                self.sessions.push(StoredSession { id, data });
                proof {
                    assert forall|a: int, b: int| 0 <= a < b < self.sessions@.len()
                        implies self.sessions@[a].id.0@ != self.sessions@[b].id.0@ by {
                        if b < before.len() {
                            assert(before[a].id.0@ != before[b].id.0@);
                        } else {
                            assert(self.sessions@[a] == before[a]);
                        }
                    }
                }
            },
        }
        let ghost q_before = self.expiry_queue@;
        self.expiry_queue.push(ExpiryEntry { expires_at, id: queued_id });
        proof {
            let sv = self.sessions@;
            let qv = self.expiry_queue@;
            assert forall|i: int| 0 <= i < sv.len() implies queued(qv, #[trigger] sv[i]) by {
                if sv[i].id.0@ == qv[q_before.len() as int].id.0@ && sv[i].data.expires_at == expires_at {
                    assert(qv[q_before.len() as int].expires_at == sv[i].data.expires_at);
                } else {
                    assert(i < before.len() && sv[i] == before[i]);
                    assert(queued(q_before, before[i]));
                    let k = choose|k: int| 0 <= k < q_before.len() && q_before[k].id.0@ == before[i].id.0@
                        && q_before[k].expires_at == before[i].data.expires_at;
                    assert(qv[k] == q_before[k]);
                }
            }
        }
    }

    /// Delete a session (its queued expiry entries stay).
    pub fn delete(&mut self, id: &SessionId)
        requires
            old(self).wf(),
        ensures
            final(self).wf(),
            final(self).sessions@ == spec_delete(old(self).sessions@, id.0@),
            final(self).expiry_queue@ == old(self).expiry_queue@,
    {
        let ghost before = self.sessions@;
        match find_session(&self.sessions, id) {
            Some(i) => {
                self.sessions.remove(i);
                proof {
                    assert forall|a: int, b: int| 0 <= a < b < self.sessions@.len()
                        implies self.sessions@[a].id.0@ != self.sessions@[b].id.0@ by {
                        let a0 = if a < i { a } else { a + 1 };
                        let b0 = if b < i { b } else { b + 1 };
                        assert(self.sessions@[a] == before[a0]);
                        assert(self.sessions@[b] == before[b0]);
                        assert(before[a0].id.0@ != before[b0].id.0@);
                    }
                }
            },
            None => {},
        }
    }

    /// Add a flash message to a stored session (nothing happens when unknown).
    pub fn add_flash(&mut self, id: &SessionId, message: FlashMessage)
        requires
            old(self).wf(),
        ensures
            final(self).wf(),
            final(self).expiry_queue@ == old(self).expiry_queue@,
            final(self).sessions@.len() == old(self).sessions@.len(),
            match stored(old(self).sessions@, id.0@) {
                Some(d) => {
                    let i = stored_index(old(self).sessions@, id.0@);
                    &&& forall|k: int| 0 <= k < old(self).sessions@.len() && k != i ==> final(self).sessions@[k] == old(self).sessions@[k]
                    &&& final(self).sessions@[i].id == old(self).sessions@[i].id
                    &&& final(self).sessions@[i].data == (SessionData {
                        flash_messages: final(self).sessions@[i].data.flash_messages, ..d })
                    &&& final(self).sessions@[i].data.flash_messages@ == d.flash_messages@.push(message)
                },
                None => final(self).sessions@ == old(self).sessions@,
            },
    {
        let ghost before = self.sessions@;
        match find_session(&self.sessions, id) {
            Some(i) => {
                proof { lemma_stored_at(before, i as int); }
                let entry = &mut self.sessions[i];
                entry.data.flash_messages.push(message);
                proof {
                    assert forall|a: int, b: int| 0 <= a < b < self.sessions@.len()
                        implies self.sessions@[a].id.0@ != self.sessions@[b].id.0@ by {
                        assert(before[a].id.0@ != before[b].id.0@);
                    }
                }
            },
            None => {},
        }
    }

    /// Remove every expired session: each queue entry whose time has come
    /// (at or before `now`) leaves the queue, and the session it names is
    /// removed from the store when its stored data expires at or before
    /// `now` (a session saved again later with a later expiry stays).
    pub fn cleanup_expired(&mut self, now_ms: i64)
        requires
            old(self).wf(),
        ensures
            final(self).wf(),
            final(self).expiry_queue@ == live_entries(old(self).expiry_queue@, now_ms),
            final(self).sessions@ == kept_sessions(old(self).sessions@, now_ms),
    {
        let ghost q0 = self.expiry_queue@;
        let ghost s0 = self.sessions@;
        let mut expired: Vec<SessionId> = Vec::new();
        let mut i: usize = 0;
        let mut j: usize = 0;
        let n = self.expiry_queue.len();
        assert(q0.take(0) =~= Seq::<ExpiryEntry>::empty());
        assert(q0.skip(0) =~= q0);
        while j < n
            invariant
                n == q0.len(),
                j <= n,
                i <= j,
                self.sessions@ == s0,
                self.expiry_queue@ == live_entries(q0.take(j as int), now_ms) + q0.skip(j as int),
                i == live_entries(q0.take(j as int), now_ms).len(),
                forall|k: int| 0 <= k < expired@.len() ==> due_for(q0, (#[trigger] expired@[k]).0@, now_ms),
                forall|k: int| 0 <= k < j && q0[k].expires_at <= now_ms ==> exists|e: int| 0 <= e < expired@.len()
                    && (#[trigger] expired@[e]).0@ == q0[k].id.0@,
            decreases n - j,
        {
            let ghost before = self.expiry_queue@;
            assert(q0.take(j as int + 1).drop_last() == q0.take(j as int));
            assert(before[i as int] == q0[j as int]);
            if self.expiry_queue[i].expires_at <= now_ms {
                let entry = self.expiry_queue.remove(i);
                let ghost prev = expired@;
                expired.push(entry.id);
                proof {
                    assert(self.expiry_queue@ =~= live_entries(q0.take(j as int + 1), now_ms) + q0.skip(j as int + 1));
                    assert forall|k: int| 0 <= k < expired@.len() implies due_for(q0, (#[trigger] expired@[k]).0@, now_ms) by {
                        if k == prev.len() {
                            assert(q0[j as int].expires_at <= now_ms && q0[j as int].id.0@ == expired@[k].0@);
                        }
                    }
                    assert forall|k: int| 0 <= k < j + 1 && q0[k].expires_at <= now_ms implies exists|e: int| 0 <= e < expired@.len()
                        && (#[trigger] expired@[e]).0@ == q0[k].id.0@ by {
                        if k < j {
                            let e = choose|e: int| 0 <= e < prev.len() && (#[trigger] prev[e]).0@ == q0[k].id.0@;
                            assert(expired@[e] == prev[e]);
                        } else {
                            assert(expired@[prev.len() as int].0@ == q0[k].id.0@);
                        }
                    }
                }
            } else {
                i = i + 1;
                proof {
                    assert(self.expiry_queue@ =~= live_entries(q0.take(j as int + 1), now_ms) + q0.skip(j as int + 1));
                }
            }
            j = j + 1;
        }
        proof {
            assert(q0.take(n as int) == q0);
            assert(self.expiry_queue@ =~= live_entries(q0, now_ms));
        }
        let m = self.sessions.len();
        assert(s0.take(0) =~= Seq::<StoredSession>::empty());
        assert(s0.skip(0) =~= s0);
        let mut a: usize = 0;
        let mut b: usize = 0;
        while b < m
            invariant
                m == s0.len(),
                b <= m,
                a <= b,
                self.expiry_queue@ == live_entries(q0, now_ms),
                distinct_ids(s0),
                queue_covers(s0, q0),
                self.sessions@ == kept_sessions(s0.take(b as int), now_ms) + s0.skip(b as int),
                a == kept_sessions(s0.take(b as int), now_ms).len(),
                forall|k: int| 0 <= k < expired@.len() ==> due_for(q0, (#[trigger] expired@[k]).0@, now_ms),
                forall|k: int| 0 <= k < n && q0[k].expires_at <= now_ms ==> exists|e: int| 0 <= e < expired@.len()
                    && (#[trigger] expired@[e]).0@ == q0[k].id.0@,
                n == q0.len(),
            decreases m - b,
        {
            let ghost before = self.sessions@;
            assert(s0.take(b as int + 1).drop_last() == s0.take(b as int));
            assert(before[a as int] == s0[b as int]);
            let is_due = contains_id(&expired, &self.sessions[a].id);
            proof {
                let x = s0[b as int];
                if !is_due && x.data.expires_at <= now_ms {
                    assert(queued(q0, x));
                    let k = choose|k: int| 0 <= k < q0.len() && q0[k].id.0@ == x.id.0@ && q0[k].expires_at == x.data.expires_at;
                    let e = choose|e: int| 0 <= e < expired@.len() && (#[trigger] expired@[e]).0@ == q0[k].id.0@;
                    assert(false);
                }
            }
            if is_due && self.sessions[a].data.expires_at <= now_ms {
                self.sessions.remove(a);
                assert(self.sessions@ =~= kept_sessions(s0.take(b as int + 1), now_ms) + s0.skip(b as int + 1));
            } else {
                a = a + 1;
                assert(self.sessions@ =~= kept_sessions(s0.take(b as int + 1), now_ms) + s0.skip(b as int + 1));
            }
            b = b + 1;
        }
        proof {
            assert(s0.take(m as int) == s0);
            assert(self.sessions@ =~= kept_sessions(s0, now_ms));
            lemma_kept_distinct(s0, now_ms);
            let kept = self.sessions@;
            let live = self.expiry_queue@;
            assert forall|i: int| 0 <= i < kept.len() implies queued(live, #[trigger] kept[i]) by {
                lemma_kept_subset(s0, now_ms, i);
                let j = choose|j: int| 0 <= j < s0.len() && s0[j] == kept[i];
                assert(queued(q0, s0[j]));
                let k = choose|k: int| 0 <= k < q0.len() && q0[k].id.0@ == s0[j].id.0@ && q0[k].expires_at == s0[j].data.expires_at;
                lemma_live_contains(q0, now_ms, k);
                let l = choose|l: int| 0 <= l < live.len() && live[l] == q0[k];
                assert(live[l].id.0@ == kept[i].id.0@ && live[l].expires_at == kept[i].data.expires_at);
            }
        }
    }

    /// The flash messages of a stored session (none when unknown).
    pub fn get_flashes(&self, id: &SessionId) -> (r: Vec<FlashMessage>)
        requires
            self.wf(),
        ensures
            match stored(self.sessions@, id.0@) {
                Some(d) => r@ == d.flash_messages@,
                None => r@.len() == 0,
            },
    {
        match find_session(&self.sessions, id) {
            Some(i) => {
                proof { lemma_stored_at(self.sessions@, i as int); }
                let msgs = self.sessions[i].data.flash_messages.clone();
                proof {
                    assert forall|k: int| 0 <= k < msgs@.len() implies msgs@[k] == self.sessions@[i as int].data.flash_messages@[k] by {
                        assert(cloned::<FlashMessage>(self.sessions@[i as int].data.flash_messages@[k], msgs@[k]));
                    }
                    assert(msgs@ =~= self.sessions@[i as int].data.flash_messages@);
                }
                msgs
            },
            None => Vec::new(),
        }
    }
}


/// Law: a save is read back. After saving `data` under `id`, the store holds
/// exactly `data` under `id`, every other identifier keeps what it held, and
/// no identifier is stored twice.
pub proof fn law_read_after_save(s: Seq<StoredSession>, id: SessionId, data: SessionData, other: Seq<char>)
    requires
        distinct_ids(s),
    ensures
        distinct_ids(spec_save(s, id, data)),
        stored(spec_save(s, id, data), id.0@) == Some(data),
        other != id.0@ ==> stored(spec_save(s, id, data), other) == stored(s, other),
{
    let t = spec_save(s, id, data);
    if is_stored(s, id.0@) {
        let i = stored_index(s, id.0@);
        assert forall|a: int, b: int| 0 <= a < b < t.len() implies t[a].id.0@ != t[b].id.0@ by {
            assert(s[a].id.0@ != s[b].id.0@);
        }
        lemma_stored_at(t, i);
        if other != id.0@ {
            lemma_stored_other(s, t, i, other);
        }
    } else {
        assert forall|a: int, b: int| 0 <= a < b < t.len() implies t[a].id.0@ != t[b].id.0@ by {
            if b < s.len() {
                assert(s[a].id.0@ != s[b].id.0@);
            } else {
                assert(t[a] == s[a]);
            }
        }
        lemma_stored_at(t, s.len() as int);
        if other != id.0@ {
            if is_stored(s, other) {
                let k = stored_index(s, other);
                assert(t[k] == s[k]);
                lemma_stored_at(s, k);
                lemma_stored_at(t, k);
            } else {
                if is_stored(t, other) {
                    let k = stored_index(t, other);
                    assert(k < s.len());
                    assert(s[k] == t[k]);
                }
            }
        }
    }
}

proof fn lemma_stored_other(s: Seq<StoredSession>, t: Seq<StoredSession>, i: int, other: Seq<char>)
    requires
        distinct_ids(s),
        distinct_ids(t),
        s.len() == t.len(),
        0 <= i < s.len(),
        forall|k: int| 0 <= k < s.len() && k != i ==> s[k] == t[k],
        s[i].id.0@ == t[i].id.0@,
        other != s[i].id.0@,
    ensures
        stored(t, other) == stored(s, other),
{
    if is_stored(s, other) {
        let k = stored_index(s, other);
        assert(t[k] == s[k]);
        lemma_stored_at(s, k);
        lemma_stored_at(t, k);
    } else if is_stored(t, other) {
        let k = stored_index(t, other);
        assert(s[k] == t[k]);
    }
}

/// Law: a saved session is loaded back exactly until its own expiration
/// time: it counts as expired at `now` precisely when `now` is past the
/// `expires_at` it was saved with (whenever it was created).
pub proof fn law_load_until_expiry(s: Seq<StoredSession>, id: SessionId, data: SessionData, now: i64)
    requires
        distinct_ids(s),
    ensures
        stored(spec_save(s, id, data), id.0@) == Some(data),
        data.expired_at(now) <==> now > data.expires_at,
        now <= data.expires_at ==> !data.expired_at(now),
        now > data.expires_at ==> data.expired_at(now),
{
    law_read_after_save(s, id, data, id.0@);
}

/// Law: a deleted session is gone, and every other identifier keeps what it held.
pub proof fn law_delete_forgets(s: Seq<StoredSession>, id: Seq<char>, other: Seq<char>)
    requires
        distinct_ids(s),
    ensures
        distinct_ids(spec_delete(s, id)),
        stored(spec_delete(s, id), id).is_none(),
        other != id ==> stored(spec_delete(s, id), other) == stored(s, other),
{
    if is_stored(s, id) {
        let i = stored_index(s, id);
        let t = s.remove(i);
        assert forall|a: int, b: int| 0 <= a < b < t.len() implies t[a].id.0@ != t[b].id.0@ by {
            let a0 = if a < i { a } else { a + 1 };
            let b0 = if b < i { b } else { b + 1 };
            assert(t[a] == s[a0] && t[b] == s[b0]);
            assert(s[a0].id.0@ != s[b0].id.0@);
        }
        if is_stored(t, id) {
            let k = stored_index(t, id);
            let k0 = if k < i { k } else { k + 1 };
            assert(t[k] == s[k0]);
            if k0 < i { assert(s[k0].id.0@ != s[i].id.0@); } else { assert(s[i].id.0@ != s[k0].id.0@); }
        }
        if other != id {
            if is_stored(s, other) {
                let k = stored_index(s, other);
                assert(k != i);
                let kt = if k < i { k } else { k - 1 };
                assert(t[kt] == s[k]);
                lemma_stored_at(s, k);
                lemma_stored_at(t, kt);
            } else if is_stored(t, other) {
                let k = stored_index(t, other);
                let k0 = if k < i { k } else { k + 1 };
                assert(t[k] == s[k0]);
            }
        }
    }
}

/// Law: after a cleanup at `now`, every queue entry left lies in the future,
/// a session is gone exactly when its stored data expires at or before
/// `now`, and every other session keeps its data.
pub proof fn law_cleanup(s: Seq<StoredSession>, q: Seq<ExpiryEntry>, now: i64, id: Seq<char>)
    requires
        distinct_ids(s),
    ensures
        forall|k: int| 0 <= k < live_entries(q, now).len() ==> (#[trigger] live_entries(q, now)[k]).expires_at > now,
        stored(kept_sessions(s, now), id) == match stored(s, id) {
            Some(d) => if d.expires_at <= now { None } else { Some(d) },
            None => None,
        },
{
    lemma_live_future(q, now);
    lemma_kept_lookup(s, now, id);
}

proof fn lemma_live_future(q: Seq<ExpiryEntry>, now: i64)
    ensures
        forall|k: int| 0 <= k < live_entries(q, now).len() ==> (#[trigger] live_entries(q, now)[k]).expires_at > now,
    decreases q.len(),
{
    if q.len() > 0 {
        lemma_live_future(q.drop_last(), now);
        let r = live_entries(q.drop_last(), now);
        if q.last().expires_at > now {
            assert forall|k: int| 0 <= k < r.push(q.last()).len() implies (#[trigger] r.push(q.last())[k]).expires_at > now by {
                if k < r.len() {
                    assert(r.push(q.last())[k] == r[k]);
                }
            }
        }
    }
}

proof fn lemma_live_contains(q: Seq<ExpiryEntry>, now: i64, k: int)
    requires
        0 <= k < q.len(),
        q[k].expires_at > now,
    ensures
        exists|l: int| 0 <= l < live_entries(q, now).len() && live_entries(q, now)[l] == q[k],
    decreases q.len(),
{
    let r = live_entries(q.drop_last(), now);
    if k == q.len() - 1 {
        assert(live_entries(q, now)[r.len() as int] == q[k]);
    } else {
        lemma_live_contains(q.drop_last(), now, k);
        let l = choose|l: int| 0 <= l < r.len() && r[l] == q.drop_last()[k];
        assert(q.drop_last()[k] == q[k]);
        if q.last().expires_at > now {
            assert(live_entries(q, now)[l] == r[l]);
        } else {
            assert(live_entries(q, now) == r);
        }
    }
}

proof fn lemma_kept_lookup(s: Seq<StoredSession>, now: i64, id: Seq<char>)
    requires
        distinct_ids(s),
    ensures
        stored(kept_sessions(s, now), id) == match stored(s, id) {
            Some(d) => if d.expires_at <= now { None } else { Some(d) },
            None => None,
        },
    decreases s.len(),
{
    if s.len() > 0 {
        let d = s.drop_last();
        assert(distinct_ids(d)) by {
            assert forall|a: int, b: int| 0 <= a < b < d.len() implies d[a].id.0@ != d[b].id.0@ by {
                assert(d[a] == s[a] && d[b] == s[b]);
            }
        }
        lemma_kept_lookup(d, now, id);
        lemma_kept_distinct(d, now);
        lemma_kept_distinct(s, now);
        let rest = kept_sessions(d, now);
        let last = s.last();
        let kept = kept_sessions(s, now);
        if last.id.0@ == id {
            lemma_stored_at(s, s.len() - 1);
            if is_stored(d, id) {
                let k = stored_index(d, id);
                assert(s[k] == d[k]);
                assert(s[k].id.0@ != s[s.len() - 1].id.0@);
            }
            if last.data.expires_at > now {
                lemma_stored_at(kept, rest.len() as int);
            } else {
                assert(kept == rest);
            }
        } else {
            if is_stored(s, id) {
                let k = stored_index(s, id);
                assert(k < d.len());
                assert(d[k] == s[k]);
                lemma_stored_at(s, k);
                lemma_stored_at(d, k);
            } else if is_stored(d, id) {
                let k = stored_index(d, id);
                assert(s[k] == d[k]);
            }
            if last.data.expires_at > now {
                if is_stored(rest, id) {
                    let k = stored_index(rest, id);
                    assert(kept[k] == rest[k]);
                    lemma_stored_at(rest, k);
                    lemma_stored_at(kept, k);
                } else if is_stored(kept, id) {
                    let k = stored_index(kept, id);
                    assert(k < rest.len());
                    assert(kept[k] == rest[k]);
                }
            }
        }
    }
}

fn contains_id(ids: &Vec<SessionId>, id: &SessionId) -> (r: bool)
    ensures
        r == exists|e: int| 0 <= e < ids@.len() && ids@[e].0@ == id.0@,
{
    let n = ids.len();
    let mut i: usize = 0;
    while i < n
        invariant
            n == ids@.len(),
            i <= n,
            forall|k: int| 0 <= k < i ==> ids@[k].0@ != id.0@,
        decreases n - i,
    {
        if ids[i].same(id) {
            return true;
        }
        i = i + 1;
    }
    false
}

proof fn lemma_kept_subset(s: Seq<StoredSession>, now: i64, k: int)
    requires
        0 <= k < kept_sessions(s, now).len(),
    ensures
        exists|i: int| 0 <= i < s.len() && s[i] == kept_sessions(s, now)[k],
        kept_sessions(s, now)[k].data.expires_at > now,
    decreases s.len(),
{
    if s.len() > 0 {
        let rest = kept_sessions(s.drop_last(), now);
        if s.last().data.expires_at <= now || k < rest.len() {
            lemma_kept_subset(s.drop_last(), now, k);
            let i = choose|i: int| 0 <= i < s.drop_last().len() && s.drop_last()[i] == rest[k];
            assert(s[i] == s.drop_last()[i]);
        } else {
            assert(s[s.len() - 1] == kept_sessions(s, now)[k]);
        }
    }
}

proof fn lemma_kept_distinct(s: Seq<StoredSession>, now: i64)
    requires
        distinct_ids(s),
    ensures
        distinct_ids(kept_sessions(s, now)),
    decreases s.len(),
{
    if s.len() > 0 {
        let d = s.drop_last();
        assert(distinct_ids(d)) by {
            assert forall|a: int, b: int| 0 <= a < b < d.len() implies d[a].id.0@ != d[b].id.0@ by {
                assert(d[a] == s[a] && d[b] == s[b]);
            }
        }
        lemma_kept_distinct(d, now);
        let rest = kept_sessions(d, now);
        if s.last().data.expires_at > now {
            let r = rest.push(s.last());
            assert forall|a: int, b: int| 0 <= a < b < r.len() implies r[a].id.0@ != r[b].id.0@ by {
                if b == rest.len() {
                    lemma_kept_subset(d, now, a);
                    let i = choose|i: int| 0 <= i < d.len() && d[i] == rest[a];
                    assert(s[i] == d[i]);
                    assert(s[i].id.0@ != s[s.len() - 1].id.0@);
                }
            }
        }
    }
}

} // verus!
