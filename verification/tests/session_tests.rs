use acton_dx::session_flow::{data_to_save, resolve_session, session_data_from_auth, session_data_to_map, session_from_create, session_from_validate, AuthSession, CreateOutcome};
use acton_dx::error::ClientError;
use acton_dx::cookie::{extract_session_id, session_cookie_value, SameSite, SessionConfig, SESSION_COOKIE_NAME};
use acton_dx::extractors::{
    AuthRejection, Authenticated, AuthenticationError, FlashExtractor, OptionalAuth, OptionalSession, SessionExtractor,
};
use acton_dx::session::{FlashLevel, FlashMessage, Session, SessionData, SessionId};
use acton_dx::store::SessionManagerAgent;

const NOW: i64 = 1_700_000_000_000;

#[test]
fn session_test_session_config_default() {
    let config = SessionConfig::default();
    assert_eq!(config.cookie_name, SESSION_COOKIE_NAME);
    assert!(config.http_only);
    assert_eq!(config.max_age_secs, 86400);
}

#[test]
fn test_session_config_default() {
    let config = SessionConfig::default();
    assert_eq!(config.cookie_name, SESSION_COOKIE_NAME);
    assert!(config.http_only);
    assert_eq!(config.max_age_secs, 86400);
    assert_eq!(config.agent_timeout_ms, 100);
}

#[test]
fn session_test_same_site_as_str() {
    assert_eq!(SameSite::Strict.as_str(), "Strict");
    assert_eq!(SameSite::Lax.as_str(), "Lax");
    assert_eq!(SameSite::Unrestricted.as_str(), "None");
}

#[test]
fn test_same_site_as_str() {
    assert_eq!(SameSite::Strict.as_str(), "Strict");
    assert_eq!(SameSite::Lax.as_str(), "Lax");
    assert_eq!(SameSite::Unrestricted.as_str(), "None");
    assert_eq!(SameSite::default(), SameSite::Lax);
}

#[test]
fn cookie_header_parsing() {
    assert_eq!(extract_session_id("acton_session=abc123", "acton_session"), Some("abc123".to_string()));
    assert_eq!(
        extract_session_id("theme=dark;  acton_session = xyz ; lang=en", "acton_session"),
        Some("xyz".to_string())
    );
    assert_eq!(extract_session_id("theme=dark; lang=en", "acton_session"), None);
    assert_eq!(extract_session_id("acton_session", "acton_session"), None);
    assert_eq!(extract_session_id("a=1; acton_session=first; acton_session=second", "acton_session"), Some("first".to_string()));
}

#[test]
fn set_cookie_value() {
    let config = SessionConfig::default();
    assert_eq!(
        session_cookie_value("abc", &config),
        "acton_session=abc; Path=/; Max-Age=86400; SameSite=Lax; HttpOnly"
    );
    let mut strict = SessionConfig::default();
    strict.secure = true;
    strict.same_site = SameSite::Strict;
    strict.http_only = false;
    assert_eq!(session_cookie_value("x", &strict), "acton_session=x; Path=/; Max-Age=86400; SameSite=Strict; Secure");
}

#[test]
fn cookie_written_is_read_back() {
    let config = SessionConfig::default();
    let set_cookie = session_cookie_value("sess-42", &config);
    let sent_back = set_cookie.split(';').next().unwrap().to_string();
    assert_eq!(extract_session_id(&sent_back, SESSION_COOKIE_NAME), Some("sess-42".to_string()));
}

#[test]
fn test_authenticated_extractor_placeholder() {
    let none: Result<Authenticated<i64>, AuthenticationError> = Authenticated::from_session(None);
    assert!(matches!(none, Err(AuthenticationError::MissingSession)));
    let anonymous = Session::new(SessionId::new("s".to_string()), SessionData::new(NOW));
    assert!(matches!(Authenticated::<i64>::from_session(Some(&anonymous)), Err(AuthenticationError::NotAuthenticated)));
    let mut logged_in = Session::new(SessionId::new("s".to_string()), SessionData::new(NOW));
    logged_in.set_user_id(Some(7));
    assert!(matches!(
        Authenticated::<i64>::from_session(Some(&logged_in)),
        Err(AuthenticationError::DatabaseNotConfigured)
    ));
}

#[test]
fn test_optional_auth_extractor_placeholder() {
    let mut logged_in = Session::new(SessionId::new("s".to_string()), SessionData::new(NOW));
    logged_in.set_user_id(Some(7));
    let r: OptionalAuth<i64> = OptionalAuth::from_session(Some(&logged_in)).unwrap();
    assert!(r.0.is_none());
    let r: OptionalAuth<i64> = OptionalAuth::from_session(None).unwrap();
    assert!(r.0.is_none());
}

#[test]
fn authentication_rejections() {
    assert_eq!(AuthenticationError::MissingSession.rejection(false), AuthRejection::Redirect("/login"));
    assert_eq!(AuthenticationError::NotAuthenticated.rejection(false), AuthRejection::Redirect("/login"));
    assert_eq!(AuthenticationError::MissingSession.rejection(true), AuthRejection::HxRedirect("/login"));
    assert_eq!(AuthenticationError::NotAuthenticated.rejection(true), AuthRejection::HxRedirect("/login"));
    assert_eq!(
        AuthenticationError::DatabaseNotConfigured.rejection(true),
        AuthRejection::Status(500, "Database not configured")
    );
    assert_eq!(
        AuthenticationError::DatabaseError("down".to_string()).rejection(false),
        AuthRejection::Status(500, "Failed to load user")
    );
}

#[test]
fn test_flash_extractor_default() {
    let flash = FlashExtractor::default();
    assert!(flash.0.is_empty());
}

#[test]
fn test_optional_session_default() {
    let _session: OptionalSession = OptionalSession(None);
}

#[test]
fn session_extractors_from_parts() {
    let id = SessionId::new("abc".to_string());
    let data = SessionData::new(NOW);
    assert!(matches!(SessionExtractor::from_parts(None, Some(data.clone())), Err((500, "Session not initialized"))));
    assert!(matches!(SessionExtractor::from_parts(Some(id.clone()), None), Err((500, "Session data not found"))));
    let s = SessionExtractor::from_parts(Some(id.clone()), Some(data.clone())).unwrap();
    assert_eq!(s.0.as_str(), "abc");
    assert!(OptionalSession::from_parts(Some(id.clone()), None).0.is_none());
    assert!(OptionalSession::from_parts(Some(id), Some(data.clone())).0.is_some());
    let mut with_flash = data;
    with_flash.flash_messages.push(FlashMessage::new(FlashLevel::Info, "hi".to_string()));
    let first = FlashExtractor::from_session(&mut with_flash);
    assert_eq!(first.0.len(), 1);
    assert_eq!(first.0[0].content, "hi");
    assert!(with_flash.flash_messages.is_empty());
    assert!(FlashExtractor::from_session(&mut with_flash).0.is_empty());
    assert_eq!(with_flash.created_at, NOW);
}

#[test]
fn session_wrapper_data_and_flashes() {
    let mut s = Session::new(SessionId::new("id1".to_string()), SessionData::new(NOW));
    s.set("k".to_string(), "v".to_string());
    assert_eq!(s.get("k"), Some(&"v".to_string()));
    s.set("k".to_string(), "w".to_string());
    assert_eq!(s.get("k"), Some(&"w".to_string()));
    assert_eq!(s.remove("k"), Some("w".to_string()));
    assert_eq!(s.get("k"), None);
    assert!(!s.has_flashes());
    s.add_flash(FlashMessage::new(FlashLevel::Success, "saved".to_string()));
    assert!(s.has_flashes());
    let taken = s.take_flashes();
    assert_eq!(taken.len(), 1);
    assert!(!s.has_flashes());
    assert_eq!(s.user_id(), None);
}

#[test]
fn session_manager_save_load_delete() {
    let mut m = SessionManagerAgent::new();
    let id = SessionId::new("abc".to_string());
    let data = SessionData::new(NOW);
    m.save(id.clone(), data);
    let loaded = m.load(&id, NOW + 1000).unwrap();
    assert_eq!(loaded.last_accessed, NOW + 1000);
    assert_eq!(loaded.expires_at, NOW + 1000 + 86_400_000);
    assert!(m.load(&SessionId::new("other".to_string()), NOW).is_none());
    assert!(m.load(&id, NOW + 86_400_001).is_none());
    m.add_flash(&id, FlashMessage::new(FlashLevel::Warning, "careful".to_string()));
    assert_eq!(m.get_flashes(&id).len(), 1);
    m.delete(&id);
    assert!(m.load(&id, NOW).is_none());
}

#[test]
fn session_manager_cleanup() {
    let mut m = SessionManagerAgent::new();
    let a = SessionId::new("a".to_string());
    let b = SessionId::new("b".to_string());
    m.save(a.clone(), SessionData::new(NOW));
    m.save(b.clone(), SessionData::new(NOW + 10_000));
    m.cleanup_expired(NOW + 86_400_000 + 1);
    assert!(m.load(&a, NOW).is_none());
    assert!(m.load(&b, NOW).is_some());
}

#[test]
fn session_manager_cleanup_keeps_resaved_session() {
    let mut m = SessionManagerAgent::new();
    let id = SessionId::new("again".to_string());
    let mut stale = SessionData::new(NOW);
    stale.expires_at = NOW - 1;
    m.save(id.clone(), stale);
    let mut fresh = SessionData::new(NOW);
    fresh.expires_at = NOW + 60_000;
    m.save(id.clone(), fresh);
    m.cleanup_expired(NOW);
    let loaded = m.load(&id, NOW).unwrap();
    assert_eq!(loaded.created_at, NOW);
    m.cleanup_expired(NOW + 60_000);
    assert!(m.load(&id, NOW).is_none());
}

#[test]
fn resolve_session_for_request() {
    let stored = SessionData::new(NOW - 5);
    let (id, data, is_new) = resolve_session(Some(SessionId::new("old".to_string())), Some(stored.clone()), SessionId::new("fresh".to_string()), NOW);
    assert_eq!(id.as_str(), "old");
    assert_eq!(data.created_at, NOW - 5);
    assert!(!is_new);
    let (id, data, is_new) = resolve_session(Some(SessionId::new("old".to_string())), None, SessionId::new("fresh".to_string()), NOW);
    assert_eq!(id.as_str(), "fresh");
    assert_eq!(data.created_at, NOW);
    assert!(is_new);
    let kept = data_to_save(None, stored.clone());
    assert_eq!(kept.created_at, NOW - 5);
    let replaced = data_to_save(Some(SessionData::new(NOW)), stored);
    assert_eq!(replaced.created_at, NOW);
}

#[test]
fn auth_service_session_conversions() {
    let s = AuthSession {
        session_id: "sid".to_string(),
        user_id: Some(3),
        user_name: Some("Ann".to_string()),
        user_email: Some("ann@x.org".to_string()),
        data: vec![("theme".to_string(), "dark".to_string()), ("user_email".to_string(), "other@x.org".to_string())],
    };
    let d = session_data_from_auth(&s, NOW);
    assert_eq!(d.user_id, Some(3));
    assert_eq!(d.user_name, Some("Ann".to_string()));
    let session = Session::new(SessionId::new("sid".to_string()), d.clone());
    assert_eq!(session.get("theme"), Some(&"dark".to_string()));
    assert_eq!(session.get("user_email"), Some(&"other@x.org".to_string()));
    let map = session_data_to_map(&d);
    assert_eq!(map[0], ("user_name".to_string(), "Ann".to_string()));
    assert_eq!(map.len(), 3);
    let r = session_from_create(CreateOutcome::Created(s), SessionId::new("sid".to_string()), NOW).unwrap();
    assert!(r.2);
    match session_from_create(CreateOutcome::TimedOut, SessionId::new("x".to_string()), NOW) {
        Err(ClientError::RequestFailed(m)) => assert_eq!(m, "timeout"),
        _ => panic!("expected timeout"),
    }
}

#[test]
fn validated_session_is_kept() {
    let s = AuthSession { session_id: "v".to_string(), user_id: None, user_name: None, user_email: None, data: vec![] };
    let r = session_from_validate(SessionId::new("v".to_string()), Some(s), NOW).unwrap();
    assert!(!r.2);
    assert_eq!(r.0.as_str(), "v");
    assert!(session_from_validate(SessionId::new("v".to_string()), None, NOW).is_none());
}
