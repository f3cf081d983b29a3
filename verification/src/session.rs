//! Sessions: identifiers, session data with flash messages, and the session
//! wrapper that request handlers use.
//!
//! Times are millisecond timestamps passed in by the caller.

use vstd::prelude::*;
use crate::text::{views, str_eq};

verus! {

/// Default session lifetime: 24 hours, in milliseconds.
pub const SESSION_TTL_MS: i64 = 86_400_000;

/// Identifier of a session (the value of the session cookie).
#[derive(Debug, PartialEq, Eq, Hash)]
pub struct SessionId(pub String);

impl Clone for SessionId {
    fn clone(&self) -> (r: Self)
        ensures
            r == *self,
    {
        SessionId(self.0.clone())
    }
}

impl SessionId {
    /// Wrap a session identifier.
    pub fn new(id: String) -> (s: SessionId)
        ensures
            s.0 == id,
    {
        SessionId(id)
    }

    /// The identifier as text.
    pub fn as_str(&self) -> (s: &str)
        ensures
            s@ == self.0@,
    {
        self.0.as_str()
    }

    /// Whether two identifiers are the same text.
    pub fn same(&self, other: &SessionId) -> (r: bool)
        ensures
            r == (self.0@ == other.0@),
    {
        self.0 == other.0
    }
}

/// Severity of a flash message.
#[derive(Debug, Clone, Copy, PartialEq, Eq, Structural)]
pub enum FlashLevel {
    /// Operation succeeded
    Success,
    /// Informational notice
    Info,
    /// Something needs attention
    Warning,
    /// Operation failed
    Error,
}

/// A one-time message shown to the user on the next page.
#[derive(Debug, PartialEq, Eq)]
pub struct FlashMessage {
    /// Severity
    pub level: FlashLevel,
    /// Message text
    pub content: String,
}

impl Clone for FlashMessage {
    fn clone(&self) -> (r: Self)
        ensures
            r == *self,
    {
        FlashMessage { level: self.level, content: self.content.clone() }
    }
}

impl FlashMessage {
    /// A flash message of the given level.
    pub fn new(level: FlashLevel, content: String) -> (m: FlashMessage)
        ensures
            m.level == level,
            m.content == content,
    {
        FlashMessage { level, content }
    }
}

/// One key/value entry of the session's custom data.
#[derive(Debug, PartialEq, Eq)]
pub struct SessionEntry {
    /// Key
    pub key: String,
    /// Value
    pub value: String,
}

impl Clone for SessionEntry {
    fn clone(&self) -> (r: Self)
        ensures
            r == *self,
    {
        SessionEntry { key: self.key.clone(), value: self.value.clone() }
    }
}

/// Whether no key occurs twice.
pub open spec fn distinct_keys(e: Seq<SessionEntry>) -> bool {
    forall|i: int, j: int| 0 <= i < j < e.len() ==> e[i].key@ != e[j].key@
}

/// The value stored under a key, if any.
pub open spec fn entry_lookup(e: Seq<SessionEntry>, key: Seq<char>) -> Option<Seq<char>> {
    if exists|i: int| 0 <= i < e.len() && e[i].key@ == key {
        Some(e[choose|i: int| 0 <= i < e.len() && e[i].key@ == key].value@)
    } else {
        None
    }
}

/// Data stored in a session.
#[derive(Debug, PartialEq, Eq)]
pub struct SessionData {
    /// Creation time
    pub created_at: i64,
    /// Last access time
    pub last_accessed: i64,
    /// Expiration time
    pub expires_at: i64,
    /// Authenticated user, if any
    pub user_id: Option<i64>,
    /// Display name of the authenticated user, if known
    pub user_name: Option<String>,
    /// Custom key/value data (each key at most once)
    pub data: Vec<SessionEntry>,
    /// Flash messages waiting to be shown
    pub flash_messages: Vec<FlashMessage>,
}

impl SessionData {
    /// Whether two session data values hold the same contents.
    pub open spec fn same_as(&self, other: &SessionData) -> bool {
        &&& self.created_at == other.created_at
        &&& self.last_accessed == other.last_accessed
        &&& self.expires_at == other.expires_at
        &&& self.user_id == other.user_id
        &&& self.user_name == other.user_name
        &&& self.data@ == other.data@
        &&& self.flash_messages@ == other.flash_messages@
    }
}

impl Clone for SessionData {
    fn clone(&self) -> (r: Self)
        ensures
            r.same_as(self),
    {
        let data = self.data.clone();
        let flash_messages = self.flash_messages.clone();
        proof {
            assert forall|i: int| 0 <= i < data@.len() implies data@[i] == self.data@[i] by {
                assert(cloned::<SessionEntry>(self.data@[i], data@[i]));
            }
            assert forall|i: int| 0 <= i < flash_messages@.len() implies flash_messages@[i] == self.flash_messages@[i] by {
                assert(cloned::<FlashMessage>(self.flash_messages@[i], flash_messages@[i]));
            }
            assert(data@ =~= self.data@);
            assert(flash_messages@ =~= self.flash_messages@);
        }
        SessionData {
            created_at: self.created_at,
            last_accessed: self.last_accessed,
            expires_at: self.expires_at,
            user_id: self.user_id,
            user_name: match &self.user_name {
                Some(n) => Some(n.clone()),
                None => None,
            },
            data,
            flash_messages,
        }
    }
}

impl SessionData {
    /// Whether the custom data holds each key at most once.
    pub open spec fn wf(&self) -> bool {
        distinct_keys(self.data@)
    }

    /// Whether the session has expired at `now`.
    pub open spec fn expired_at(&self, now: i64) -> bool {
        now > self.expires_at
    }

    /// An empty session created at `now`, expiring after the default lifetime.
    pub fn new(now_ms: i64) -> (d: SessionData)
        requires
            now_ms + SESSION_TTL_MS <= i64::MAX,
        ensures
            d.wf(),
            d.created_at == now_ms,
            d.last_accessed == now_ms,
            d.expires_at == now_ms + SESSION_TTL_MS,
            d.user_id.is_none(),
            d.user_name.is_none(),
            d.data@.len() == 0,
            d.flash_messages@.len() == 0,
    {
        SessionData {
            created_at: now_ms,
            last_accessed: now_ms,
            expires_at: now_ms + SESSION_TTL_MS,
            user_id: None,
            user_name: None,
            data: Vec::new(),
            flash_messages: Vec::new(),
        }
    }

    /// Whether the session has expired at `now`.
    pub fn is_expired(&self, now_ms: i64) -> (r: bool)
        ensures
            r == self.expired_at(now_ms),
            r == (now_ms > self.expires_at),
    {
        now_ms > self.expires_at
    }

    /// Mark the session accessed at `now` and extend it by `ttl_ms`.
    pub fn touch(&mut self, now_ms: i64, ttl_ms: i64)
        requires
            ttl_ms >= 0,
            now_ms + ttl_ms <= i64::MAX,
        ensures
            *final(self) == (SessionData { last_accessed: now_ms, expires_at: (now_ms + ttl_ms) as i64, ..*old(self) }),
    {
        self.last_accessed = now_ms;
        self.expires_at = now_ms + ttl_ms;
    }

    fn find(&self, key: &str) -> (r: Option<usize>)
        ensures
            match r {
                Some(i) => i < self.data@.len() && self.data@[i as int].key@ == key@,
                None => forall|k: int| 0 <= k < self.data@.len() ==> self.data@[k].key@ != key@,
            },
    {
        let n = self.data.len();
        let mut i: usize = 0;
        while i < n
            invariant
                n == self.data@.len(),
                i <= n,
                forall|k: int| 0 <= k < i ==> self.data@[k].key@ != key@,
            decreases n - i,
        {
            if str_eq(self.data[i].key.as_str(), key) {
                return Some(i);
            }
            i = i + 1;
        }
        None
    }

    /// The value stored under a key.
    pub fn get(&self, key: &str) -> (r: Option<&String>)
        requires
            self.wf(),
        ensures
            match r {
                Some(v) => entry_lookup(self.data@, key@) == Some(v@),
                None => entry_lookup(self.data@, key@).is_none(),
            },
    {
        match self.find(key) {
            Some(i) => {
                proof {
                    let j = choose|j: int| 0 <= j < self.data@.len() && self.data@[j].key@ == key@;
                    assert(j == i);
                }
                Some(&self.data[i].value)
            },
            None => None,
        }
    }

    /// Store a value under a key (replacing any earlier value).
    pub fn set(&mut self, key: String, value: String)
        requires
            old(self).wf(),
        ensures
            final(self).wf(),
            entry_lookup(final(self).data@, key@) == Some(value@),
            forall|k: Seq<char>| k != key@ ==> entry_lookup(final(self).data@, k) == entry_lookup(old(self).data@, k),
            final(self).user_id == old(self).user_id,
            final(self).flash_messages == old(self).flash_messages,
            final(self).expires_at == old(self).expires_at,
            final(self).created_at == old(self).created_at,
            final(self).last_accessed == old(self).last_accessed,
            final(self).user_name == old(self).user_name,
    {
        let ghost before = self.data@;
        match self.find(key.as_str()) {
            Some(i) => {
                self.data.set(i, SessionEntry { key, value });
                proof {
                    assert forall|a: int, b: int| 0 <= a < b < self.data@.len() implies self.data@[a].key@ != self.data@[b].key@ by {
                        assert(before[a].key@ != before[b].key@);
                    }
                    lemma_lookup_at(self.data@, i as int);
                    assert forall|k: Seq<char>| k != key@ implies entry_lookup(self.data@, k) == entry_lookup(before, k) by {
                        lemma_lookup_same_except(before, self.data@, i as int, k);
                    }
                }
            },
            None => {
                self.data.push(SessionEntry { key, value });
                proof {
                    let n = before.len() as int;
                    assert forall|a: int, b: int| 0 <= a < b < self.data@.len() implies self.data@[a].key@ != self.data@[b].key@ by {
                        if b < n {
                            assert(before[a].key@ != before[b].key@);
                        }
                    }
                    lemma_lookup_at(self.data@, n);
                    assert forall|k: Seq<char>| k != key@ implies entry_lookup(self.data@, k) == entry_lookup(before, k) by {
                        lemma_lookup_push(before, self.data@, k);
                    }
                }
            },
        }
    }

    /// Remove the value stored under a key, returning it.
    pub fn remove(&mut self, key: &str) -> (r: Option<String>)
        requires
            old(self).wf(),
        ensures
            final(self).wf(),
            r.is_some() == entry_lookup(old(self).data@, key@).is_some(),
            r matches Some(v) ==> entry_lookup(old(self).data@, key@) == Some(v@),
            entry_lookup(final(self).data@, key@).is_none(),
            forall|k: Seq<char>| k != key@ ==> entry_lookup(final(self).data@, k) == entry_lookup(old(self).data@, k),
            final(self).user_id == old(self).user_id,
            final(self).flash_messages == old(self).flash_messages,
    {
        let ghost before = self.data@;
        match self.find(key) {
            Some(i) => {
                proof { lemma_lookup_at(before, i as int); }
                let removed = self.data.remove(i);
                proof {
                    assert(self.data@ == before.remove(i as int));
                    assert forall|a: int, b: int| 0 <= a < b < self.data@.len() implies self.data@[a].key@ != self.data@[b].key@ by {
                        let a0 = if a < i { a } else { a + 1 };
                        let b0 = if b < i { b } else { b + 1 };
                        assert(self.data@[a] == before[a0]);
                        assert(self.data@[b] == before[b0]);
                        assert(before[a0].key@ != before[b0].key@);
                    }
                    lemma_lookup_remove(before, i as int);
                }
                Some(removed.value)
            },
            None => None,
        }
    }
}

proof fn lemma_lookup_at(e: Seq<SessionEntry>, i: int)
    requires
        distinct_keys(e),
        0 <= i < e.len(),
    ensures
        entry_lookup(e, e[i].key@) == Some(e[i].value@),
{
    let j = choose|j: int| 0 <= j < e.len() && e[j].key@ == e[i].key@;
    if j != i {
        if j < i {
            assert(e[j].key@ != e[i].key@);
        } else {
            assert(e[i].key@ != e[j].key@);
        }
    }
}

proof fn lemma_lookup_unique(e: Seq<SessionEntry>, i: int, k: Seq<char>)
    requires
        distinct_keys(e),
        0 <= i < e.len(),
        e[i].key@ == k,
    ensures
        entry_lookup(e, k) == Some(e[i].value@),
{
    lemma_lookup_at(e, i);
}

proof fn lemma_lookup_same_except(a: Seq<SessionEntry>, b: Seq<SessionEntry>, i: int, k: Seq<char>)
    requires
        distinct_keys(a),
        distinct_keys(b),
        a.len() == b.len(),
        0 <= i < a.len(),
        forall|j: int| 0 <= j < a.len() && j != i ==> a[j] == b[j],
        a[i].key@ == b[i].key@,
        k != a[i].key@,
    ensures
        entry_lookup(b, k) == entry_lookup(a, k),
{
    if exists|j: int| 0 <= j < a.len() && a[j].key@ == k {
        let j = choose|j: int| 0 <= j < a.len() && a[j].key@ == k;
        assert(b[j] == a[j]);
        lemma_lookup_unique(a, j, k);
        lemma_lookup_unique(b, j, k);
    } else {
        if exists|j: int| 0 <= j < b.len() && b[j].key@ == k {
            let j = choose|j: int| 0 <= j < b.len() && b[j].key@ == k;
            assert(a[j] == b[j]);
        }
    }
}

proof fn lemma_lookup_push(a: Seq<SessionEntry>, b: Seq<SessionEntry>, k: Seq<char>)
    requires
        distinct_keys(a),
        distinct_keys(b),
        b.len() == a.len() + 1,
        forall|j: int| 0 <= j < a.len() ==> a[j] == b[j],
        k != b[a.len() as int].key@,
    ensures
        entry_lookup(b, k) == entry_lookup(a, k),
{
    if exists|j: int| 0 <= j < a.len() && a[j].key@ == k {
        let j = choose|j: int| 0 <= j < a.len() && a[j].key@ == k;
        lemma_lookup_unique(a, j, k);
        lemma_lookup_unique(b, j, k);
    } else {
        if exists|j: int| 0 <= j < b.len() && b[j].key@ == k {
            let j = choose|j: int| 0 <= j < b.len() && b[j].key@ == k;
            assert(a[j] == b[j]);
        }
    }
}

proof fn lemma_lookup_remove(a: Seq<SessionEntry>, i: int)
    requires
        distinct_keys(a),
        distinct_keys(a.remove(i)),
        0 <= i < a.len(),
    ensures
        entry_lookup(a.remove(i), a[i].key@).is_none(),
        forall|k: Seq<char>| k != a[i].key@ ==> entry_lookup(a.remove(i), k) == entry_lookup(a, k),
{
    let b = a.remove(i);
    if exists|j: int| 0 <= j < b.len() && b[j].key@ == a[i].key@ {
        let j = choose|j: int| 0 <= j < b.len() && b[j].key@ == a[i].key@;
        let j0 = if j < i { j } else { j + 1 };
        assert(b[j] == a[j0]);
        if j0 < i { assert(a[j0].key@ != a[i].key@); } else { assert(a[i].key@ != a[j0].key@); }
    }
    assert forall|k: Seq<char>| k != a[i].key@ implies entry_lookup(b, k) == entry_lookup(a, k) by {
        if exists|j: int| 0 <= j < a.len() && a[j].key@ == k {
            let j = choose|j: int| 0 <= j < a.len() && a[j].key@ == k;
            assert(j != i);
            let jb = if j < i { j } else { j - 1 };
            assert(b[jb] == a[j]);
            lemma_lookup_unique(a, j, k);
            lemma_lookup_unique(b, jb, k);
        } else {
            if exists|j: int| 0 <= j < b.len() && b[j].key@ == k {
                let j = choose|j: int| 0 <= j < b.len() && b[j].key@ == k;
                let j0 = if j < i { j } else { j + 1 };
                assert(b[j] == a[j0]);
            }
        }
    }
}


/// Session wrapper for request handlers: the session's identifier and data.
#[derive(Debug, Clone)]
pub struct Session {
    /// Session identifier
    pub id: SessionId,
    /// Session data
    pub data: SessionData,
}

impl Session {
    /// Create a new session wrapper.
    pub fn new(id: SessionId, data: SessionData) -> (s: Session)
        ensures
            s.id == id,
            s.data == data,
    {
        Session { id, data }
    }

    /// Get the session ID.
    pub fn id(&self) -> (r: &SessionId)
        ensures
            *r == self.id,
    {
        &self.id
    }

    /// Get the session data.
    pub fn data(&self) -> (r: &SessionData)
        ensures
            *r == self.data,
    {
        &self.data
    }

    /// Get mutable access to the session data.
    pub fn data_mut(&mut self) -> (r: &mut SessionData)
        ensures
            *r == old(self).data,
            final(self).id == old(self).id,
            final(self).data == *final(r),
    {
        &mut self.data
    }

    /// Get a value from the session.
    pub fn get(&self, key: &str) -> (r: Option<&String>)
        requires
            self.data.wf(),
        ensures
            match r {
                Some(v) => entry_lookup(self.data.data@, key@) == Some(v@),
                None => entry_lookup(self.data.data@, key@).is_none(),
            },
    {
        self.data.get(key)
    }

    /// Set a value in the session.
    pub fn set(&mut self, key: String, value: String)
        requires
            old(self).data.wf(),
        ensures
            final(self).data.wf(),
            final(self).id == old(self).id,
            entry_lookup(final(self).data.data@, key@) == Some(value@),
            forall|k: Seq<char>| k != key@ ==> entry_lookup(final(self).data.data@, k) == entry_lookup(old(self).data.data@, k),
            final(self).data.user_id == old(self).data.user_id,
            final(self).data.flash_messages == old(self).data.flash_messages,
    {
        self.data.set(key, value);
    }

    /// Remove a value from the session.
    pub fn remove(&mut self, key: &str) -> (r: Option<String>)
        requires
            old(self).data.wf(),
        ensures
            final(self).data.wf(),
            final(self).id == old(self).id,
            r.is_some() == entry_lookup(old(self).data.data@, key@).is_some(),
            r matches Some(v) ==> entry_lookup(old(self).data.data@, key@) == Some(v@),
            entry_lookup(final(self).data.data@, key@).is_none(),
            forall|k: Seq<char>| k != key@ ==> entry_lookup(final(self).data.data@, k) == entry_lookup(old(self).data.data@, k),
    {
        self.data.remove(key)
    }

    /// Get the user ID if authenticated.
    pub fn user_id(&self) -> (r: Option<i64>)
        ensures
            r == self.data.user_id,
    {
        self.data.user_id
    }

    /// Set the user ID (for login).
    pub fn set_user_id(&mut self, user_id: Option<i64>)
        ensures
            final(self).id == old(self).id,
            final(self).data == (SessionData { user_id, ..old(self).data }),
    {
        self.data.user_id = user_id;
    }

    /// Add a flash message.
    pub fn add_flash(&mut self, message: FlashMessage)
        ensures
            final(self).id == old(self).id,
            final(self).data.flash_messages@ == old(self).data.flash_messages@.push(message),
            final(self).data.user_id == old(self).data.user_id,
            final(self).data.data == old(self).data.data,
    {
        self.data.flash_messages.push(message);
    }

    /// Take all flash messages, clearing them from the session.
    pub fn take_flashes(&mut self) -> (r: Vec<FlashMessage>)
        ensures
            r@ == old(self).data.flash_messages@,
            final(self).data.flash_messages@.len() == 0,
            final(self).id == old(self).id,
            final(self).data.user_id == old(self).data.user_id,
            final(self).data.data == old(self).data.data,
    {
        let mut taken: Vec<FlashMessage> = Vec::new();
        std::mem::swap(&mut taken, &mut self.data.flash_messages);
        taken
    }

    /// Check if there are any flash messages.
    pub fn has_flashes(&self) -> (r: bool)
        ensures
            r == (self.data.flash_messages@.len() > 0),
    {
        !self.data.flash_messages.is_empty()
    }
}

} // verus!
