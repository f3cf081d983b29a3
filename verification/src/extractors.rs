//! What request handlers get from the session middleware: the session,
//! its flash messages, and the authenticated user, and how a request that
//! lacks them is answered.

use vstd::prelude::*;
use crate::session::{Session, SessionId, SessionData, FlashMessage};

verus! {

/// The session of a request: its identifier and data.
#[derive(Debug, Clone)]
pub struct SessionExtractor(pub SessionId, pub SessionData);

impl SessionExtractor {
    /// The session from what the middleware stored on the request: both the
    /// identifier and the data must be there, else the request fails with
    /// status 500 and the missing part named.
    pub fn from_parts(id: Option<SessionId>, data: Option<SessionData>) -> (r: Result<SessionExtractor, (u16, &'static str)>)
        ensures
            id.is_none() ==> (r matches Err(e) && e.0 == 500 && e.1@ == "Session not initialized"@),
            id.is_some() && data.is_none() ==> (r matches Err(e) && e.0 == 500 && e.1@ == "Session data not found"@),
            id.is_some() && data.is_some() ==> (r matches Ok(s) && s.0 == id.unwrap() && s.1 == data.unwrap()),
    {
        match id {
            None => Err((500, "Session not initialized")),
            Some(i) => match data {
                None => Err((500, "Session data not found")),
                Some(d) => Ok(SessionExtractor(i, d)),
            },
        }
    }
}

/// The flash messages of a request's session.
#[derive(Debug, Clone)]
pub struct FlashExtractor(pub Vec<FlashMessage>);

impl FlashExtractor {
    /// No messages.
    pub fn default() -> (f: FlashExtractor)
        ensures
            f.0@.len() == 0,
    {
        FlashExtractor(Vec::new())
    }

    /// The flash messages of the session data, consumed: they are handed
    /// out once and the session keeps none. A request without a session
    /// gets `default()`.
    pub fn from_session(data: &mut SessionData) -> (f: FlashExtractor)
        ensures
            f.0@ == old(data).flash_messages@,
            final(data).flash_messages@.len() == 0,
            *final(data) == (SessionData { flash_messages: final(data).flash_messages, ..*old(data) }),
    {
        let mut messages: Vec<FlashMessage> = Vec::new();
        std::mem::swap(&mut data.flash_messages, &mut messages);
        FlashExtractor(messages)
    }
}

/// The session of a request when there is one.
#[derive(Debug, Clone)]
pub struct OptionalSession(pub Option<(SessionId, SessionData)>);

impl OptionalSession {
    /// The session when both its identifier and data are there, else none.
    pub fn from_parts(id: Option<SessionId>, data: Option<SessionData>) -> (s: OptionalSession)
        ensures
            (id.is_some() && data.is_some()) ==> s.0 == Some((id.unwrap(), data.unwrap())),
            !(id.is_some() && data.is_some()) ==> s.0.is_none(),
    {
        match (id, data) {
            (Some(i), Some(d)) => OptionalSession(Some((i, d))),
            _ => OptionalSession(None),
        }
    }
}

/// Authentication errors of the extractors.
#[derive(Debug, Clone)]
pub enum AuthenticationError {
    /// No session found on the request.
    MissingSession,
    /// Session exists but user is not authenticated.
    NotAuthenticated,
    /// No user database is configured.
    DatabaseNotConfigured,
    /// Loading the user failed.
    DatabaseError(String),
}

/// How a request refused for want of authentication is answered.
#[derive(Debug, Clone, Copy, PartialEq, Eq)]
pub enum AuthRejection {
    /// Redirect (303) to the given location.
    Redirect(&'static str),
    /// 401 Unauthorized with an `HX-Redirect` header naming the location,
    /// for HTMX requests, which follow that header instead of a redirect.
    HxRedirect(&'static str),
    /// Plain response with the given status and body.
    Status(u16, &'static str),
}

impl AuthenticationError {
    /// The answer: without an authenticated session, an HTMX request gets
    /// 401 with `HX-Redirect: /login` and any other request a 303 redirect
    /// to `/login`; the database errors give a server error.
    pub fn rejection(&self, is_htmx: bool) -> (r: AuthRejection)
        ensures
            match *self {
                AuthenticationError::MissingSession | AuthenticationError::NotAuthenticated => if is_htmx {
                    r matches AuthRejection::HxRedirect(l) && l@ == "/login"@
                } else {
                    r matches AuthRejection::Redirect(l) && l@ == "/login"@
                },
                AuthenticationError::DatabaseNotConfigured => r matches AuthRejection::Status(c, b) && c == 500 && b@ == "Database not configured"@,
                AuthenticationError::DatabaseError(_) => r matches AuthRejection::Status(c, b) && c == 500 && b@ == "Failed to load user"@,
            },
    {
        match self {
            AuthenticationError::MissingSession | AuthenticationError::NotAuthenticated => {
                if is_htmx {
                    AuthRejection::HxRedirect("/login")
                } else {
                    AuthRejection::Redirect("/login")
                }
            },
            AuthenticationError::DatabaseNotConfigured => AuthRejection::Status(500, "Database not configured"),
            AuthenticationError::DatabaseError(_) => AuthRejection::Status(500, "Failed to load user"),
        }
    }
}

/// The authenticated user of a request, for routes that require one.
pub struct Authenticated<T>(pub T);

/// The authenticated user of a request, if any.
pub struct OptionalAuth<T>(pub Option<T>);

impl<T> Authenticated<T> {
    /// The authenticated user of a request's session. Without a session or
    /// an authenticated user in it the request is refused; with one, the
    /// user cannot be loaded, as no user database is configured.
    pub fn from_session(session: Option<&Session>) -> (r: Result<Authenticated<T>, AuthenticationError>)
        ensures
            session.is_none() ==> r matches Err(AuthenticationError::MissingSession),
            session matches Some(s) && s.data.user_id.is_none() ==> r matches Err(AuthenticationError::NotAuthenticated),
            session matches Some(s) && s.data.user_id.is_some() ==> r matches Err(AuthenticationError::DatabaseNotConfigured),
    {
        match session {
            None => Err(AuthenticationError::MissingSession),
            Some(s) => match s.user_id() {
                None => Err(AuthenticationError::NotAuthenticated),
                Some(_) => Err(AuthenticationError::DatabaseNotConfigured),
            },
        }
    }
}

impl<T> OptionalAuth<T> {
    /// The user of a request's session if one can be loaded: none without a
    /// session or an authenticated user, and none with one, as no user
    /// database is configured.
    pub fn from_session(session: Option<&Session>) -> (r: Result<OptionalAuth<T>, AuthenticationError>)
        ensures
            r matches Ok(a) && a.0.is_none(),
    {
        match session {
            None => Ok(OptionalAuth(None)),
            Some(s) => match s.user_id() {
                None => Ok(OptionalAuth(None)),
                Some(_) => Ok(OptionalAuth(None)),
            },
        }
    }
}

} // verus!
