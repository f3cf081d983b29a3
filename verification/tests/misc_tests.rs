use acton_dx::error::ClientError;
use acton_dx::results::{exists_from_metadata, file_service_error, metadata_error, stored_file_from_upload, StorageError, UploadResult};
use acton_dx::helpers::{asset, csrf_token, flash_messages, render_response, route, SafeString};
use acton_dx::jobs::{
    is_admin, job_status, EnqueueJob, JobAgent, JobId, JobListResponse, JobMetrics, JobStatus, QUEUE_CAPACITY,
};
use acton_dx::oauth::{OAuth2Agent, OAuthState, STATE_TTL_MS};
use acton_dx::rate_limit::RateLimitCounters;
use acton_dx::results::{upload_chunks, DownloadAssembly, StoredFileInfo, DEFAULT_CHUNK_SIZE};
use acton_dx::session::{FlashLevel, FlashMessage};
use std::collections::HashMap;

#[test]
fn test_csrf_token() {
    let token = csrf_token();
    assert!(token.contains("_csrf_token"));
    assert!(token.contains("hidden"));
}

#[test]
fn test_asset() {
    let path = asset("/css/styles.css");
    assert_eq!(path, "/css/styles.css");
}

#[test]
fn other_helpers() {
    assert_eq!(flash_messages(&Vec::new()), "");
    let messages = vec![
        FlashMessage::new(FlashLevel::Success, "Saved".to_string()),
        FlashMessage::new(FlashLevel::Error, "<b>\"x\" & 'y'</b>".to_string()),
    ];
    assert_eq!(
        flash_messages(&messages),
        "<div class=\"flash flash-success\">Saved</div><div class=\"flash flash-error\">&lt;b&gt;&quot;x&quot; &amp; &#39;y&#39;&lt;/b&gt;</div>"
    );
    assert_eq!(route("home", Vec::new()), "/home");
    assert_eq!(route("posts.show", vec![("id".to_string(), "7".to_string())]), "/posts/show?id=7");
    assert_eq!(
        route("posts.edit", vec![("id".to_string(), "7".to_string()), ("tab".to_string(), "meta".to_string())]),
        "/posts/edit?id=7&tab=meta"
    );
    assert_eq!(route("a/b", Vec::new()), "/a%2Fb");
    assert_eq!(route("a.b", Vec::new()), "/a/b");
    assert_eq!(route("p", vec![("id".to_string(), "1&x=2".to_string())]), "/p?id=1%26x%3D2");
    assert_eq!(
        route("p", vec![("id".to_string(), "1".to_string()), ("x".to_string(), "2".to_string())]),
        "/p?id=1&x=2"
    );
    assert_eq!(route("q", vec![("a b".to_string(), "50%+#?/".to_string())]), "/q?a%20b=50%25%2B%23%3F%2F");
    assert_eq!(SafeString("<b>x</b>".to_string()).to_string(), "<b>x</b>");
}

fn job(id: u128) -> EnqueueJob {
    EnqueueJob { id: JobId(id), job_type: "Email".to_string(), payload: vec![1], priority: 5, max_retries: 3, timeout_ms: 1000 }
}

#[test]
fn job_agent_enqueue_status_cancel() {
    let mut agent = JobAgent::new();
    assert_eq!(agent.capacity, QUEUE_CAPACITY);
    assert_eq!(agent.enqueue(job(1), 10).unwrap().id, JobId(1));
    assert_eq!(agent.status(JobId(1)), Some(JobStatus::Pending));
    assert_eq!(agent.status(JobId(2)), None);
    agent.running.push((JobId(2), JobStatus::Running));
    assert_eq!(agent.status(JobId(2)), Some(JobStatus::Running));
    assert!(agent.cancel(JobId(1)));
    assert_eq!(agent.status(JobId(1)), None);
    assert!(agent.cancel(JobId(2)));
    assert!(!agent.cancel(JobId(2)));
    assert_eq!(agent.metrics().jobs_enqueued, 1);
}

#[test]
fn job_agent_cancel_removes_every_queued_entry() {
    let mut agent = JobAgent::new();
    agent.enqueue(job(7), 10).unwrap();
    agent.enqueue(job(8), 11).unwrap();
    agent.enqueue(job(7), 12).unwrap();
    assert!(agent.cancel(JobId(7)));
    assert_eq!(agent.status(JobId(7)), None);
    assert_eq!(agent.queue.len(), 1);
    assert_eq!(agent.status(JobId(8)), Some(JobStatus::Pending));
}

#[test]
fn job_agent_full_queue_rejects() {
    let mut agent = JobAgent::new();
    agent.capacity = 1;
    assert!(agent.enqueue(job(1), 0).is_some());
    assert!(agent.enqueue(job(2), 0).is_none());
    assert_eq!(agent.metrics().jobs_rejected, 1);
    assert_eq!(agent.queue.len(), 1);
}

#[test]
fn job_agent_dead_letter_retry() {
    let mut agent = JobAgent::new();
    agent.enqueue(job(1), 0);
    let mut dead = agent.queue.remove(0);
    dead.attempt = 3;
    agent.dead_letter.push(dead.clone());
    let mut dead2 = dead.clone();
    dead2.id = JobId(9);
    agent.dead_letter.push(dead2);
    assert!(agent.retry_job(JobId(1)));
    assert_eq!(agent.queue[0].attempt, 0);
    assert!(!agent.retry_job(JobId(1)));
    agent.capacity = 1;
    assert_eq!(agent.retry_all_failed(), 0);
    assert!(agent.dead_letter.is_empty());
    agent.dead_letter.push(dead);
    agent.metrics.jobs_in_dlq = 1;
    assert_eq!(agent.clear_dead_letter(), 1);
    assert_eq!(agent.metrics.jobs_in_dlq, 0);
}

#[test]
fn job_status_and_admin() {
    assert_eq!(job_status(Some(JobStatus::Failed), true), Some(JobStatus::Failed));
    assert_eq!(job_status(None, true), Some(JobStatus::Pending));
    assert_eq!(job_status(None, false), None);
    assert!(is_admin(&vec!["user".to_string(), "admin".to_string()]));
    assert!(!is_admin(&vec!["user".to_string()]));
    let r = JobListResponse::empty_listing();
    assert_eq!(r.total, 0);
    let mut m = JobMetrics::default();
    m.record_enqueue(true);
    m.record_enqueue(false);
    assert_eq!((m.jobs_enqueued, m.jobs_rejected), (1, 1));
}

#[test]
fn oauth_state_lifecycle() {
    let mut agent: OAuth2Agent<u8> = OAuth2Agent::new();
    let state = OAuthState::new("tok".to_string(), 1u8, 1000);
    assert_eq!(state.expires_at_ms, 1000 + STATE_TTL_MS);
    agent.generate(state, 1000);
    let found = agent.validate("tok", 2000).unwrap();
    assert_eq!(found.provider, 1);
    let again = agent.validate("tok", 3000).unwrap();
    assert_eq!(again.token, "tok");
    assert!(agent.validate("other", 2000).is_none());
    assert!(agent.remove("tok"));
    assert!(agent.validate("tok", 2000).is_none());
    agent.generate(OAuthState::new("late".to_string(), 2u8, 0), 0);
    assert!(agent.validate("late", STATE_TTL_MS).is_none());
    assert!(agent.states.is_empty());
}

#[test]
fn rate_limit_counters() {
    let mut c = RateLimitCounters::new();
    let r = c.check_disabled("ip:1".to_string(), 100);
    assert!(r.allowed);
    assert_eq!(r.remaining_tokens, 100);
    let r = c.check_bucket("ip:1".to_string(), false, 0);
    assert!(!r.allowed);
    let s = c.stats(1, true);
    assert_eq!((s.request_count, s.allowed_count, s.denied_count, s.bucket_count), (2, 1, 1, 1));
}

fn info() -> StoredFileInfo {
    StoredFileInfo {
        id: "f1".to_string(),
        filename: "a.bin".to_string(),
        content_type: "application/octet-stream".to_string(),
        size: 5,
        checksum: "x".to_string(),
        created_at: 0,
        updated_at: 0,
        metadata: HashMap::new(),
    }
}

#[test]
fn upload_chunks_and_reassembly() {
    let data: Vec<u8> = (0..10u8).collect();
    let chunks = upload_chunks(&data, 4);
    assert_eq!(chunks, vec![vec![0, 1, 2, 3], vec![4, 5, 6, 7], vec![8, 9]]);
    assert!(upload_chunks(&[], 4).is_empty());
    assert_eq!(upload_chunks(&data, DEFAULT_CHUNK_SIZE).len(), 1);
    let mut d = DownloadAssembly::new();
    for c in &chunks {
        d.on_chunk(c);
    }
    d.on_metadata(info());
    let result = d.finish().unwrap();
    assert_eq!(result.data, data);
    assert_eq!(result.metadata.id, "f1");
    assert!(DownloadAssembly::new().finish().is_err());
}

#[test]
fn file_storage_outcomes() {
    let ok = stored_file_from_upload(UploadResult { success: true, file: Some(info()), error: None }).unwrap();
    assert_eq!(ok.id, "f1");
    assert_eq!(ok.storage_path, "f1");
    assert_eq!(ok.size, 5);
    let mut negative = info();
    negative.size = -1;
    let f = stored_file_from_upload(UploadResult { success: true, file: Some(negative), error: None }).unwrap();
    assert_eq!(f.size, 0);
    match stored_file_from_upload(UploadResult { success: true, file: None, error: None }) {
        Err(StorageError::Other(m)) => assert_eq!(m, "Upload succeeded but no file metadata returned"),
        _ => panic!("expected error"),
    }
    match stored_file_from_upload(UploadResult { success: false, file: None, error: None }) {
        Err(StorageError::Other(m)) => assert_eq!(m, "Unknown error"),
        _ => panic!("expected error"),
    }
    assert_eq!(exists_from_metadata(&Ok(info())).unwrap(), true);
    assert_eq!(exists_from_metadata(&Err(ClientError::Timeout)).unwrap(), false);
    assert!(exists_from_metadata(&Err(ClientError::NotConfigured("file"))).is_err());
    match file_service_error(&ClientError::Timeout) {
        StorageError::Other(m) => assert_eq!(m, "File service error: Request timed out"),
        _ => panic!("expected Other"),
    }
}

#[test]
fn metadata_error_text() {

    match metadata_error(&ClientError::Timeout) {
        StorageError::NotFound(m) => assert_eq!(m, "File not found: Request timed out"),
        _ => panic!("expected NotFound"),
    }
}

#[test]
fn test_render_html() {
    let (status, body) = render_response(Some("<h1>Hello</h1>".to_string()), false);
    assert_eq!(status, 200);
    assert_eq!(body, "<h1>Hello</h1>");
}

#[test]
fn test_render_htmx_full_page() {
    let (status, _) = render_response(Some("<h1>Hello</h1>".to_string()), false);
    assert_eq!(status, 200);
}

#[test]
fn test_render_htmx_partial() {
    let (status, body) = render_response(Some("<h1>Hello</h1>".to_string()), true);
    assert_eq!(status, 200);
    assert_eq!(body, "<h1>Hello</h1>");
    let (status, body) = render_response(None, true);
    assert_eq!(status, 500);
    assert_eq!(body, "Template rendering failed");
}

#[test]
fn white_space_matches_std() {
    for c in ['\t', '\n', '\u{b}', '\u{c}', '\r', ' ', '\u{85}', '\u{a0}', '\u{1680}', '\u{2000}', '\u{200a}',
              '\u{2028}', '\u{2029}', '\u{202f}', '\u{205f}', '\u{3000}', 'a', '\u{200b}', '\u{feff}', '\u{180e}', ';', '\0'] {
        assert_eq!(acton_dx::text::is_whitespace(c), c.is_whitespace(), "{:?}", c);
    }
    for u in 0u32..0x3100 {
        if let Some(c) = char::from_u32(u) {
            assert_eq!(acton_dx::text::is_whitespace(c), c.is_whitespace(), "{:?}", c);
        }
    }
}
