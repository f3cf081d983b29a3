//! How the session middleware picks the session of a request, and how
//! sessions kept by the auth service map to and from session data.

use vstd::prelude::*;
use crate::session::{SessionId, SessionData, SESSION_TTL_MS, entry_lookup};
use crate::email::{headers_text, insert_header, insert_all, set_header};
use crate::error::ClientError;

verus! {

/// Whether `d` is the empty session made at `now`.
pub open spec fn fresh_at(d: SessionData, now: i64) -> bool {
    &&& d.wf()
    &&& d.created_at == now
    &&& d.last_accessed == now
    &&& d.expires_at == now + SESSION_TTL_MS
    &&& d.user_id.is_none()
    &&& d.user_name.is_none()
    &&& d.data@.len() == 0
    &&& d.flash_messages@.len() == 0
}

/// The session of a request at `now`: the stored one when the request
/// named a session that could be loaded; otherwise a new empty session
/// under `fresh_id`, marked new (so that its cookie is set).
pub fn resolve_session(existing: Option<SessionId>, loaded: Option<SessionData>, fresh_id: SessionId, now_ms: i64)
    -> (r: (SessionId, SessionData, bool))
    requires
        now_ms + SESSION_TTL_MS <= i64::MAX,
    ensures
        (existing.is_some() && loaded.is_some()) ==> r == (existing.unwrap(), loaded.unwrap(), false),
        !(existing.is_some() && loaded.is_some()) ==> r.0 == fresh_id && fresh_at(r.1, now_ms) && r.2,
{
    match (existing, loaded) {
        (Some(id), Some(data)) => (id, data, false),
        _ => (fresh_id, SessionData::new(now_ms), true),
    }
}

/// The data saved after a request: what the handler left on the response,
/// else what the request started with.
pub fn data_to_save(from_response: Option<SessionData>, from_request: SessionData) -> (d: SessionData)
    ensures
        d == (match from_response { Some(r) => r, None => from_request }),
{
    match from_response {
        Some(r) => r,
        None => from_request,
    }
}

/// A session as the auth service keeps it.
#[derive(Debug, Clone)]
pub struct AuthSession {
    /// Session identifier.
    pub session_id: String,
    /// Authenticated user, if any.
    pub user_id: Option<i64>,
    /// Display name of the user, if known.
    pub user_name: Option<String>,
    /// Email address of the user, if known.
    pub user_email: Option<String>,
    /// Custom data.
    pub data: Vec<(String, String)>,
}

/// The value last assigned to `k` by a list of assignments.
pub open spec fn assigned(items: Seq<(Seq<char>, Seq<char>)>, k: Seq<char>) -> Option<Seq<char>>
    decreases items.len(),
{
    if items.len() == 0 {
        None
    } else if items.last().0 == k {
        Some(items.last().1)
    } else {
        assigned(items.drop_last(), k)
    }
}

/// The assignments that a session of the auth service makes to the
/// session's custom data: its user's email under `user_email`, then its
/// own data, in order.
pub open spec fn auth_assignments(s: AuthSession) -> Seq<(Seq<char>, Seq<char>)> {
    (match s.user_email {
        Some(e) => seq![("user_email"@, e@)],
        None => Seq::empty(),
    }) + headers_text(s.data@)
}

/// Sets each assignment of `items` on `d`, in order.
fn set_all(d: &mut SessionData, items: &Vec<(String, String)>)
    requires
        old(d).wf(),
    ensures
        final(d).wf(),
        forall|k: Seq<char>| #[trigger] entry_lookup(final(d).data@, k)
            == match assigned(headers_text(items@), k) {
                Some(v) => Some(v),
                None => entry_lookup(old(d).data@, k),
            },
        final(d).user_id == old(d).user_id,
        final(d).user_name == old(d).user_name,
        final(d).created_at == old(d).created_at,
        final(d).last_accessed == old(d).last_accessed,
        final(d).expires_at == old(d).expires_at,
        final(d).flash_messages == old(d).flash_messages,
{
    let ghost start = *d;
    let ghost t = headers_text(items@);
    let mut i: usize = 0;
    while i < items.len()
        invariant
            i <= items@.len(),
            t == headers_text(items@),
            d.wf(),
            forall|k: Seq<char>| #[trigger] entry_lookup(d.data@, k)
                == match assigned(t.take(i as int), k) {
                    Some(v) => Some(v),
                    None => entry_lookup(start.data@, k),
                },
            d.user_id == start.user_id,
            d.user_name == start.user_name,
            d.created_at == start.created_at,
            d.last_accessed == start.last_accessed,
            d.expires_at == start.expires_at,
            d.flash_messages == start.flash_messages,
        decreases items@.len() - i,
    {
        let k = items[i].0.clone();
        let v = items[i].1.clone();
        d.set(k, v);
        proof {
            let tt = t.take(i as int + 1);
            assert(tt.drop_last() =~= t.take(i as int));
            assert(tt.last() == t[i as int]);
        }
        i = i + 1;
    }
    assert(t.take(i as int) =~= t);
}

/// The session data for a session kept by the auth service, at `now`: an
/// empty session with the service's user and user name, whose custom data
/// holds the user's email (under `user_email`) and the service's data.
pub fn session_data_from_auth(s: &AuthSession, now_ms: i64) -> (d: SessionData)
    requires
        now_ms + SESSION_TTL_MS <= i64::MAX,
    ensures
        d.wf(),
        d.created_at == now_ms,
        d.last_accessed == now_ms,
        d.expires_at == now_ms + SESSION_TTL_MS,
        d.user_id == s.user_id,
        d.user_name == s.user_name,
        d.flash_messages@.len() == 0,
        forall|k: Seq<char>| #[trigger] entry_lookup(d.data@, k) == assigned(auth_assignments(*s), k),
{
    let mut d = SessionData::new(now_ms);
    d.user_id = s.user_id;
    d.user_name = match &s.user_name {
        Some(n) => Some(n.clone()),
        None => None,
    };
    let mut items: Vec<(String, String)> = Vec::new();
    match &s.user_email {
        Some(e) => items.push((String::from_str("user_email"), e.clone())),
        None => {},
    }
    let mut j: usize = 0;
    let ghost head = headers_text(items@);
    while j < s.data.len()
        invariant
            j <= s.data@.len(),
            items@.len() == head.len() + j,
            headers_text(items@) == head + headers_text(s.data@).take(j as int),
        decreases s.data@.len() - j,
    {
        let a = s.data[j].0.clone();
        let b = s.data[j].1.clone();
        let ghost before = items@;
        items.push((a, b));
        proof {
            let lhs = headers_text(items@);
            let rhs = head + headers_text(s.data@).take(j as int + 1);
            assert(lhs.len() == rhs.len());
            assert forall|x: int| 0 <= x < lhs.len() implies lhs[x] == rhs[x] by {
                if x < before.len() {
                    assert(lhs[x] == headers_text(before)[x]);
                    assert(headers_text(before)[x] == (head + headers_text(s.data@).take(j as int))[x]);
                } else {
                    assert(lhs[x] == (a@, b@));
                    assert(rhs[x] == headers_text(s.data@)[j as int]);
                }
            }
            assert(lhs =~= rhs);
        }
        j = j + 1;
    }
    proof {
        assert(headers_text(s.data@).take(j as int) =~= headers_text(s.data@));
        reveal_strlit("user_email");
        assert(headers_text(items@) =~= auth_assignments(*s));
        assert forall|k: Seq<char>| entry_lookup(d.data@, k).is_none() by {
            if exists|i: int| 0 <= i < d.data@.len() && d.data@[i].key@ == k {
            }
        }
    }
    set_all(&mut d, &items);
    d
}

/// The data sent to the auth service for a session: its user name under
/// `user_name` when known, then its custom data, each name at most once
/// (a later value replaces an earlier one).
pub fn session_data_to_map(d: &SessionData) -> (m: Vec<(String, String)>)
    ensures
        headers_text(m@) == insert_all(
            insert_all(Seq::empty(), match d.user_name { Some(n) => seq![("user_name"@, n@)], None => Seq::empty() }),
            d.data@.map_values(|e: crate::session::SessionEntry| (e.key@, e.value@))),
{
    let mut m: Vec<(String, String)> = Vec::new();
    let ghost first = match &d.user_name { Some(n) => seq![("user_name"@, n@)], None => Seq::<(Seq<char>, Seq<char>)>::empty() };
    match &d.user_name {
        Some(n) => {
            set_header(&mut m, String::from_str("user_name"), n.clone());
            proof {
                reveal_strlit("user_name");
                assert(first.drop_last() =~= Seq::<(Seq<char>, Seq<char>)>::empty());
                assert(insert_all(Seq::empty(), first.drop_last()) == Seq::<(Seq<char>, Seq<char>)>::empty());
                assert(headers_text(m@) == insert_all(Seq::empty(), first));
            }
        },
        None => {
            assert(headers_text(m@) =~= Seq::<(Seq<char>, Seq<char>)>::empty());
        },
    }
    assert(insert_all(Seq::empty(), Seq::<(Seq<char>, Seq<char>)>::empty()) == Seq::<(Seq<char>, Seq<char>)>::empty());
    let ghost entries = d.data@.map_values(|e: crate::session::SessionEntry| (e.key@, e.value@));
    assert(entries.take(0) =~= Seq::<(Seq<char>, Seq<char>)>::empty());
    let mut i: usize = 0;
    while i < d.data.len()
        invariant
            i <= d.data@.len(),
            entries == d.data@.map_values(|e: crate::session::SessionEntry| (e.key@, e.value@)),
            headers_text(m@) == insert_all(insert_all(Seq::empty(), first), entries.take(i as int)),
        decreases d.data@.len() - i,
    {
        set_header(&mut m, d.data[i].key.clone(), d.data[i].value.clone());
        proof {
            let t = entries.take(i as int + 1);
            assert(t.drop_last() =~= entries.take(i as int));
            assert(t.last() == entries[i as int]);
        }
        i = i + 1;
    }
    assert(entries.take(i as int) =~= entries);
    m
}

/// What creating a session through the auth service came to.
#[derive(Debug)]
pub enum CreateOutcome {
    /// The service created this session.
    Created(AuthSession),
    /// The service refused or failed.
    Failed(ClientError),
    /// The service did not answer in time.
    TimedOut,
}

/// The session of a request that did not bring a valid one, from the
/// outcome of asking the auth service to create one at `now`: the created
/// session (under `parsed_id`, the service's id when it is a valid session
/// id, else a freshly generated one), marked new; an error when the service
/// failed, or `RequestFailed("timeout")` when it did not answer.
pub fn session_from_create(outcome: CreateOutcome, parsed_id: SessionId, now_ms: i64)
    -> (r: Result<(SessionId, SessionData, bool), ClientError>)
    requires
        now_ms + SESSION_TTL_MS <= i64::MAX,
    ensures
        match outcome {
            CreateOutcome::Created(s) => r matches Ok(t) && t.0 == parsed_id && t.2
                && t.1.user_id == s.user_id && t.1.created_at == now_ms
                && forall|k: Seq<char>| #[trigger] entry_lookup(t.1.data@, k) == assigned(auth_assignments(s), k),
            CreateOutcome::Failed(e) => r matches Err(x) && x == e,
            CreateOutcome::TimedOut => r matches Err(ClientError::RequestFailed(m)) && m@ == "timeout"@,
        },
{
    match outcome {
        CreateOutcome::Created(s) => {
            let d = session_data_from_auth(&s, now_ms);
            Ok((parsed_id, d, true))
        },
        CreateOutcome::Failed(e) => Err(e),
        CreateOutcome::TimedOut => Err(ClientError::RequestFailed(String::from_str("timeout"))),
    }
}

/// The session of a request that named one, from the auth service's answer
/// to validating it at `now`: the validated session under the request's id
/// (not new); none when the service did not confirm it (the session is
/// then created anew).
pub fn session_from_validate(id: SessionId, validated: Option<AuthSession>, now_ms: i64)
    -> (r: Option<(SessionId, SessionData, bool)>)
    requires
        now_ms + SESSION_TTL_MS <= i64::MAX,
    ensures
        match validated {
            Some(s) => r matches Some(t) && t.0 == id && !t.2
                && t.1.user_id == s.user_id && t.1.created_at == now_ms
                && forall|k: Seq<char>| #[trigger] entry_lookup(t.1.data@, k) == assigned(auth_assignments(s), k),
            None => r.is_none(),
        },
{
    match validated {
        Some(s) => Some((id, session_data_from_auth(&s, now_ms), false)),
        None => None,
    }
}

} // verus!
