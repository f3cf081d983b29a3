use acton_dx::email::{
    batch_outcome, email_to_message, send_outcome, service_error_message, BatchSendResult, Email, EmailMessage,
    SendEmailJob, SendResult,
};
use acton_dx::error::ClientError;

#[test]
fn test_email_to_message_conversion() {
    let email = Email::new()
        .to("user@example.com".to_string())
        .from("noreply@myapp.com".to_string())
        .subject("Test Subject".to_string())
        .text("Plain text body".to_string())
        .html("<p>HTML body</p>".to_string());

    let message = email_to_message(&email);

    assert_eq!(message.from.email, "noreply@myapp.com");
    assert_eq!(message.to.len(), 1);
    assert_eq!(message.to[0].email, "user@example.com");
    assert_eq!(message.subject, "Test Subject");
    assert_eq!(message.text_body, Some("Plain text body".to_string()));
    assert_eq!(message.html_body, Some("<p>HTML body</p>".to_string()));
}

#[test]
fn test_email_to_message_multiple_recipients() {
    let email = Email::new()
        .to("user1@example.com".to_string())
        .to("user2@example.com".to_string())
        .cc("cc@example.com".to_string())
        .bcc("bcc@example.com".to_string())
        .from("noreply@myapp.com".to_string())
        .subject("Test".to_string())
        .text("Body".to_string());

    let message = email_to_message(&email);

    assert_eq!(message.to.len(), 2);
    assert_eq!(message.cc.len(), 1);
    assert_eq!(message.bcc.len(), 1);
    assert_eq!(message.cc[0].email, "cc@example.com");
    assert_eq!(message.bcc[0].email, "bcc@example.com");
}

#[test]
fn test_email_to_message_with_headers() {
    let email = Email::new()
        .to("user@example.com".to_string())
        .from("noreply@myapp.com".to_string())
        .subject("Test".to_string())
        .text("Body".to_string())
        .header("X-Custom".to_string(), "value".to_string())
        .header("X-Priority".to_string(), "1".to_string());

    let message = email_to_message(&email);

    assert_eq!(message.headers.len(), 2);
    let get = |k: &str| message.headers.iter().find(|(n, _)| n == k).map(|(_, v)| v.clone());
    assert_eq!(get("X-Custom"), Some("value".to_string()));
    assert_eq!(get("X-Priority"), Some("1".to_string()));
}

#[test]
fn header_set_twice_keeps_last_value() {
    let email = Email::new()
        .header("X-A".to_string(), "1".to_string())
        .header("X-A".to_string(), "2".to_string());
    assert_eq!(email.headers, vec![("X-A".to_string(), "2".to_string())]);
    let mut dup = Email::new();
    dup.headers = vec![("K".to_string(), "a".to_string()), ("K".to_string(), "b".to_string())];
    let m = email_to_message(&dup);
    assert_eq!(m.headers, vec![("K".to_string(), "b".to_string())]);
}

#[test]
fn message_without_sender_or_subject() {
    let m = email_to_message(&Email::new().reply_to("r@x.org".to_string()));
    assert_eq!(m.from.email, "");
    assert_eq!(m.subject, "");
    assert_eq!(m.reply_to.unwrap().email, "r@x.org");
}

#[test]
fn message_builder() {
    let m = EmailMessage::new()
        .from_named("a@b.c".to_string(), "A".to_string())
        .to_named("d@e.f".to_string(), "D".to_string())
        .subject("S".to_string())
        .attach("f.txt".to_string(), vec![1, 2], "text/plain".to_string());
    assert_eq!(m.from.name, Some("A".to_string()));
    assert_eq!(m.to[0].name, Some("D".to_string()));
    assert_eq!(m.attachments.len(), 1);
    assert_eq!(m.attachments[0].content, vec![1, 2]);
}

#[test]
fn send_outcomes() {
    let ok = SendResult { success: true, message_id: Some("m1".to_string()), error: None };
    assert!(send_outcome(&ok).is_ok());
    let failed = SendResult { success: false, message_id: None, error: None };
    assert_eq!(send_outcome(&failed).unwrap_err(), "Unknown error");
    let batch = BatchSendResult {
        total: 3,
        succeeded: 1,
        failed: 2,
        results: vec![
            SendResult { success: true, message_id: None, error: None },
            SendResult { success: false, message_id: None, error: Some("bounced".to_string()) },
            SendResult { success: false, message_id: None, error: Some("rejected".to_string()) },
        ],
    };
    assert_eq!(batch_outcome(&batch).unwrap_err(), "2 of 3 emails failed: bounced, rejected");
    let fine = BatchSendResult { total: 1, succeeded: 1, failed: 0, results: vec![] };
    assert!(batch_outcome(&fine).is_ok());
    assert_eq!(service_error_message(&ClientError::Timeout), "service error: Request timed out");
}

#[test]
fn test_send_email_job_creation() {
    let email = Email::new()
        .to("user@example.com".to_string())
        .from("noreply@myapp.com".to_string())
        .subject("Test".to_string())
        .text("Hello".to_string());

    let job = SendEmailJob::new(email.clone());

    assert_eq!(job.email.to, email.to);
    assert_eq!(job.email.from, email.from);
    assert_eq!(job.email.subject, email.subject);
    assert_eq!(job.max_retries(), 3);
    assert_eq!(job.timeout_ms(), 30_000);
}
