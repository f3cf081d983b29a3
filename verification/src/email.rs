//! Email messages: the application's own `Email`, the message handed to the
//! email service, the conversion between them, and how the service's
//! answers become the sender's outcome.

use vstd::prelude::*;
use crate::error::{ClientError, error_text};
use crate::text::{signed_decimal, push_signed_decimal, joined, views, join};

verus! {

// ---------------------------------------------------------------------------
// Headers
// ---------------------------------------------------------------------------

/// The text of a list of headers.
pub open spec fn headers_text(h: Seq<(String, String)>) -> Seq<(Seq<char>, Seq<char>)> {
    h.map_values(|p: (String, String)| (p.0@, p.1@))
}

/// Whether `i` is the first position of a header named `k`.
pub open spec fn first_key_at(h: Seq<(Seq<char>, Seq<char>)>, k: Seq<char>, i: int) -> bool {
    0 <= i < h.len() && h[i].0 == k && forall|j: int| 0 <= j < i ==> h[j].0 != k
}

/// The first position of a header named `k`, or -1 when there is none.
pub open spec fn key_index(h: Seq<(Seq<char>, Seq<char>)>, k: Seq<char>) -> int {
    if exists|i: int| first_key_at(h, k, i) {
        choose|i: int| first_key_at(h, k, i)
    } else {
        -1
    }
}

/// Headers after setting `k` to `v`: the value of an existing header of that
/// name is replaced, else the header is added at the end.
pub open spec fn insert_header(h: Seq<(Seq<char>, Seq<char>)>, k: Seq<char>, v: Seq<char>) -> Seq<(Seq<char>, Seq<char>)> {
    let i = key_index(h, k);
    if i >= 0 {
        h.update(i, (k, v))
    } else {
        h.push((k, v))
    }
}

/// Headers after setting each of `items` in turn.
pub open spec fn insert_all(h: Seq<(Seq<char>, Seq<char>)>, items: Seq<(Seq<char>, Seq<char>)>) -> Seq<(Seq<char>, Seq<char>)>
    decreases items.len(),
{
    if items.len() == 0 {
        h
    } else {
        insert_header(insert_all(h, items.drop_last()), items.last().0, items.last().1)
    }
}

/// Whether no two headers share a name.
pub open spec fn distinct_keys(h: Seq<(Seq<char>, Seq<char>)>) -> bool {
    forall|i: int, j: int| 0 <= i < j < h.len() ==> h[i].0 != h[j].0
}

proof fn lemma_key_index_found(h: Seq<(Seq<char>, Seq<char>)>, k: Seq<char>, i: int)
    requires
        first_key_at(h, k, i),
    ensures
        key_index(h, k) == i,
{
    let c = choose|c: int| first_key_at(h, k, c);
    assert(first_key_at(h, k, c));
    if c < i {
        assert(h[c].0 != k);
    } else if c > i {
        assert(h[i].0 != k);
    }
}

proof fn lemma_key_index_absent(h: Seq<(Seq<char>, Seq<char>)>, k: Seq<char>)
    requires
        forall|j: int| 0 <= j < h.len() ==> h[j].0 != k,
    ensures
        key_index(h, k) == -1,
{
}

/// Sets header `key` to `value` (`HashMap::insert` on a list without repeated names).
pub(crate) fn set_header(h: &mut Vec<(String, String)>, key: String, value: String)
    ensures
        headers_text(final(h)@) == insert_header(headers_text(old(h)@), key@, value@),
        distinct_keys(headers_text(old(h)@)) ==> distinct_keys(headers_text(final(h)@)),
{
    let ghost t = headers_text(h@);
    let n = h.len();
    let mut i: usize = 0;
    while i < n
        invariant
            n == h@.len(),
            h@ == old(h)@,
            t == headers_text(h@),
            i <= n,
            forall|j: int| 0 <= j < i ==> t[j].0 != key@,
        decreases n - i,
    {
        if h[i].0 == key {
            proof {
                lemma_key_index_found(t, key@, i as int);
            }
            let ghost before = h@;
            h.set(i, (key, value));
            proof {
                assert(headers_text(h@) =~= t.update(i as int, (key@, value@)));
                if distinct_keys(t) {
                    let u = headers_text(h@);
                    assert forall|a: int, b: int| 0 <= a < b < u.len() implies u[a].0 != u[b].0 by {
                        assert(u[a].0 == t[a].0);
                        assert(u[b].0 == t[b].0);
                    }
                }
            }
            return;
        }
        i = i + 1;
    }
    proof {
        lemma_key_index_absent(t, key@);
    }
    h.push((key, value));
    assert(headers_text(h@) =~= t.push((key@, value@)));
}

proof fn lemma_insert_all_distinct(items: Seq<(Seq<char>, Seq<char>)>)
    requires
        distinct_keys(items),
    ensures
        insert_all(Seq::empty(), items) == items,
    decreases items.len(),
{
    if items.len() > 0 {
        let front = items.drop_last();
        assert(distinct_keys(front));
        lemma_insert_all_distinct(front);
        assert forall|j: int| 0 <= j < front.len() implies front[j].0 != items.last().0 by {
            assert(front[j] == items[j]);
        }
        lemma_key_index_absent(front, items.last().0);
        assert(front.push(items.last()) =~= items);
    }
}

// ---------------------------------------------------------------------------
// The message handed to the email service
// ---------------------------------------------------------------------------

/// An email address with optional display name.
#[derive(Debug, Clone)]
pub struct EmailAddr {
    /// Email address.
    pub email: String,
    /// Display name.
    pub name: Option<String>,
}

impl EmailAddr {
    /// An empty address without a name.
    pub fn default() -> (a: EmailAddr)
        ensures
            a.email@ == Seq::<char>::empty(),
            a.name.is_none(),
    {
        EmailAddr { email: String::new(), name: None }
    }
}

/// An email attachment.
#[derive(Debug, Clone)]
pub struct EmailAttachment {
    /// Filename.
    pub filename: String,
    /// File content.
    pub content: Vec<u8>,
    /// MIME content type.
    pub content_type: String,
}

/// An email message to send through the email service.
#[derive(Debug, Clone)]
pub struct EmailMessage {
    /// Sender address.
    pub from: EmailAddr,
    /// Primary recipients.
    pub to: Vec<EmailAddr>,
    /// Carbon copy recipients.
    pub cc: Vec<EmailAddr>,
    /// Blind carbon copy recipients.
    pub bcc: Vec<EmailAddr>,
    /// Reply-to address.
    pub reply_to: Option<EmailAddr>,
    /// Email subject.
    pub subject: String,
    /// Plain text body.
    pub text_body: Option<String>,
    /// HTML body.
    pub html_body: Option<String>,
    /// Attachments.
    pub attachments: Vec<EmailAttachment>,
    /// Additional headers, each name at most once.
    pub headers: Vec<(String, String)>,
}

/// An address without a display name.
pub open spec fn plain(e: Seq<char>) -> (Seq<char>, Option<Seq<char>>) {
    (e, None)
}

/// The text of an address: the address and the display name.
pub open spec fn addr_text(a: EmailAddr) -> (Seq<char>, Option<Seq<char>>) {
    (a.email@, match a.name { Some(n) => Some(n@), None => None })
}

/// The text of a list of addresses.
pub open spec fn addrs_text(v: Seq<EmailAddr>) -> Seq<(Seq<char>, Option<Seq<char>>)> {
    v.map_values(|a: EmailAddr| addr_text(a))
}

/// The text of an optional string.
pub open spec fn opt_text(o: Option<String>) -> Option<Seq<char>> {
    match o {
        Some(s) => Some(s@),
        None => None,
    }
}

impl EmailMessage {
    /// An empty message: empty sender and subject, no recipients, bodies,
    /// attachments or headers.
    pub fn new() -> (m: EmailMessage)
        ensures
            m.from.email@ == Seq::<char>::empty() && m.from.name.is_none(),
            m.to@.len() == 0 && m.cc@.len() == 0 && m.bcc@.len() == 0,
            m.reply_to.is_none(),
            m.subject@ == Seq::<char>::empty(),
            m.text_body.is_none() && m.html_body.is_none(),
            m.attachments@.len() == 0,
            m.headers@.len() == 0,
    {
        EmailMessage {
            from: EmailAddr::default(),
            to: Vec::new(),
            cc: Vec::new(),
            bcc: Vec::new(),
            reply_to: None,
            subject: String::new(),
            text_body: None,
            html_body: None,
            attachments: Vec::new(),
            headers: Vec::new(),
        }
    }

    /// Set the from address.
    pub fn from(self, email: String) -> (m: EmailMessage)
        ensures
            m == (EmailMessage { from: EmailAddr { email, name: None }, ..self }),
    {
        let mut m = self;
        m.from = EmailAddr { email, name: None };
        m
    }

    /// Set the from address with a name.
    pub fn from_named(self, email: String, name: String) -> (m: EmailMessage)
        ensures
            m == (EmailMessage { from: EmailAddr { email, name: Some(name) }, ..self }),
    {
        let mut m = self;
        m.from = EmailAddr { email, name: Some(name) };
        m
    }

    /// Add a recipient.
    pub fn to(self, email: String) -> (m: EmailMessage)
        ensures
            m.to@ == self.to@.push(EmailAddr { email, name: None }),
            m == (EmailMessage { to: m.to, ..self }),
    {
        let mut m = self;
        m.to.push(EmailAddr { email, name: None });
        m
    }

    /// Add a recipient with a name.
    pub fn to_named(self, email: String, name: String) -> (m: EmailMessage)
        ensures
            m.to@ == self.to@.push(EmailAddr { email, name: Some(name) }),
            m == (EmailMessage { to: m.to, ..self }),
    {
        let mut m = self;
        m.to.push(EmailAddr { email, name: Some(name) });
        m
    }

    /// Set the subject.
    pub fn subject(self, subject: String) -> (m: EmailMessage)
        ensures
            m == (EmailMessage { subject, ..self }),
    {
        let mut m = self;
        m.subject = subject;
        m
    }

    /// Set the plain text body.
    pub fn text(self, text: String) -> (m: EmailMessage)
        ensures
            m == (EmailMessage { text_body: Some(text), ..self }),
    {
        let mut m = self;
        m.text_body = Some(text);
        m
    }

    /// Set the HTML body.
    pub fn html(self, html: String) -> (m: EmailMessage)
        ensures
            m == (EmailMessage { html_body: Some(html), ..self }),
    {
        let mut m = self;
        m.html_body = Some(html);
        m
    }

    /// Add an attachment.
    pub fn attach(self, filename: String, content: Vec<u8>, content_type: String) -> (m: EmailMessage)
        ensures
            m.attachments@ == self.attachments@.push(EmailAttachment { filename, content, content_type }),
            m == (EmailMessage { attachments: m.attachments, ..self }),
    {
        let mut m = self;
        m.attachments.push(EmailAttachment { filename, content, content_type });
        m
    }
}

// ---------------------------------------------------------------------------
// The application's email
// ---------------------------------------------------------------------------

/// An email composed by the application.
#[derive(Debug, Clone)]
pub struct Email {
    /// Sender address.
    pub from: Option<String>,
    /// Primary recipients.
    pub to: Vec<String>,
    /// Carbon copy recipients.
    pub cc: Vec<String>,
    /// Blind carbon copy recipients.
    pub bcc: Vec<String>,
    /// Reply-to address.
    pub reply_to: Option<String>,
    /// Subject.
    pub subject: Option<String>,
    /// Plain text body.
    pub text: Option<String>,
    /// HTML body.
    pub html: Option<String>,
    /// Additional headers, each name at most once.
    pub headers: Vec<(String, String)>,
}

impl Email {
    /// An empty email.
    pub fn new() -> (e: Email)
        ensures
            e.from.is_none() && e.reply_to.is_none() && e.subject.is_none(),
            e.text.is_none() && e.html.is_none(),
            e.to@.len() == 0 && e.cc@.len() == 0 && e.bcc@.len() == 0,
            e.headers@.len() == 0,
    {
        Email {
            from: None,
            to: Vec::new(),
            cc: Vec::new(),
            bcc: Vec::new(),
            reply_to: None,
            subject: None,
            text: None,
            html: None,
            headers: Vec::new(),
        }
    }

    /// Add a recipient.
    pub fn to(self, address: String) -> (e: Email)
        ensures
            e.to@ == self.to@.push(address),
            e == (Email { to: e.to, ..self }),
    {
        let mut e = self;
        e.to.push(address);
        e
    }

    /// Add a carbon copy recipient.
    pub fn cc(self, address: String) -> (e: Email)
        ensures
            e.cc@ == self.cc@.push(address),
            e == (Email { cc: e.cc, ..self }),
    {
        let mut e = self;
        e.cc.push(address);
        e
    }

    /// Add a blind carbon copy recipient.
    pub fn bcc(self, address: String) -> (e: Email)
        ensures
            e.bcc@ == self.bcc@.push(address),
            e == (Email { bcc: e.bcc, ..self }),
    {
        let mut e = self;
        e.bcc.push(address);
        e
    }

    /// Set the sender.
    pub fn from(self, address: String) -> (e: Email)
        ensures
            e == (Email { from: Some(address), ..self }),
    {
        let mut e = self;
        e.from = Some(address);
        e
    }

    /// Set the reply-to address.
    pub fn reply_to(self, address: String) -> (e: Email)
        ensures
            e == (Email { reply_to: Some(address), ..self }),
    {
        let mut e = self;
        e.reply_to = Some(address);
        e
    }

    /// Set the subject.
    pub fn subject(self, subject: String) -> (e: Email)
        ensures
            e == (Email { subject: Some(subject), ..self }),
    {
        let mut e = self;
        e.subject = Some(subject);
        e
    }

    /// Set the plain text body.
    pub fn text(self, text: String) -> (e: Email)
        ensures
            e == (Email { text: Some(text), ..self }),
    {
        let mut e = self;
        e.text = Some(text);
        e
    }

    /// Set the HTML body.
    pub fn html(self, html: String) -> (e: Email)
        ensures
            e == (Email { html: Some(html), ..self }),
    {
        let mut e = self;
        e.html = Some(html);
        e
    }

    /// Set a header (replacing the value of one of the same name).
    pub fn header(self, name: String, value: String) -> (e: Email)
        ensures
            headers_text(e.headers@) == insert_header(headers_text(self.headers@), name@, value@),
            distinct_keys(headers_text(self.headers@)) ==> distinct_keys(headers_text(e.headers@)),
            e == (Email { headers: e.headers, ..self }),
    {
        let mut e = self;
        set_header(&mut e.headers, name, value);
        e
    }
}

/// Addresses without display names, one for each of `v`.
fn plain_addrs(v: &Vec<String>) -> (r: Vec<EmailAddr>)
    ensures
        addrs_text(r@) == v@.map_values(|s: String| plain(s@)),
{
    let mut r: Vec<EmailAddr> = Vec::new();
    let mut i: usize = 0;
    while i < v.len()
        invariant
            i <= v@.len(),
            r@.len() == i,
            addrs_text(r@) == v@.take(i as int).map_values(|s: String| plain(s@)),
        decreases v@.len() - i,
    {
        let e = v[i].clone();
        assert(e@ == v@[i as int]@);
        let ghost before = r@;
        r.push(EmailAddr { email: e, name: None });
        assert(addr_text(r@[i as int]) == plain(v@[i as int]@));
        assert forall|k: int| 0 <= k <= i implies #[trigger] addrs_text(r@)[k] == v@.take(i as int + 1).map_values(|s: String| plain(s@))[k] by {
            if k < i {
                assert(addrs_text(before)[k] == v@.take(i as int).map_values(|s: String| plain(s@))[k]);
                assert(r@[k] == before[k]);
            }
        }
        assert(addrs_text(r@) =~= v@.take(i as int + 1).map_values(|s: String| plain(s@)));
        i = i + 1;
    }
    assert(v@.take(i as int) =~= v@);
    r
}

/// The message for the email service that carries an email: its sender
/// (empty when it has none), recipients, reply-to address and subject
/// (empty when it has none), all without display names, its bodies, and
/// its headers set in order.
pub fn email_to_message(email: &Email) -> (m: EmailMessage)
    ensures
        addr_text(m.from) == plain(match email.from { Some(f) => f@, None => Seq::<char>::empty() }),
        addrs_text(m.to@) == email.to@.map_values(|s: String| plain(s@)),
        addrs_text(m.cc@) == email.cc@.map_values(|s: String| plain(s@)),
        addrs_text(m.bcc@) == email.bcc@.map_values(|s: String| plain(s@)),
        match email.reply_to {
            Some(r) => m.reply_to matches Some(a) && addr_text(a) == plain(r@),
            None => m.reply_to.is_none(),
        },
        m.subject@ == (match email.subject { Some(s) => s@, None => Seq::<char>::empty() }),
        opt_text(m.text_body) == opt_text(email.text),
        opt_text(m.html_body) == opt_text(email.html),
        m.attachments@.len() == 0,
        headers_text(m.headers@) == insert_all(Seq::empty(), headers_text(email.headers@)),
        distinct_keys(headers_text(email.headers@)) ==> headers_text(m.headers@) == headers_text(email.headers@),
{
    let from = match &email.from {
        Some(f) => EmailAddr { email: f.clone(), name: None },
        None => EmailAddr::default(),
    };
    let reply_to = match &email.reply_to {
        Some(r) => Some(EmailAddr { email: r.clone(), name: None }),
        None => None,
    };
    let subject = match &email.subject {
        Some(s) => s.clone(),
        None => String::new(),
    };
    let mut headers: Vec<(String, String)> = Vec::new();
    let ghost items = headers_text(email.headers@);
    let mut i: usize = 0;
    while i < email.headers.len()
        invariant
            i <= email.headers@.len(),
            items == headers_text(email.headers@),
            headers_text(headers@) == insert_all(Seq::empty(), items.take(i as int)),
        decreases email.headers@.len() - i,
    {
        let (k, v) = (email.headers[i].0.clone(), email.headers[i].1.clone());
        set_header(&mut headers, k, v);
        proof {
            let t = items.take(i as int + 1);
            assert(t.drop_last() =~= items.take(i as int));
            assert(t.last() == items[i as int]);
        }
        i = i + 1;
    }
    proof {
        assert(items.take(i as int) =~= items);
        if distinct_keys(items) {
            lemma_insert_all_distinct(items);
        }
    }
    EmailMessage {
        from,
        to: plain_addrs(&email.to),
        cc: plain_addrs(&email.cc),
        bcc: plain_addrs(&email.bcc),
        reply_to,
        subject,
        text_body: email.text.clone(),
        html_body: email.html.clone(),
        attachments: Vec::new(),
        headers,
    }
}

// ---------------------------------------------------------------------------
// Results of the email service
// ---------------------------------------------------------------------------

/// Result of sending a single email.
#[derive(Debug, Clone)]
pub struct SendResult {
    /// Whether the send succeeded.
    pub success: bool,
    /// Message id from the mail server.
    pub message_id: Option<String>,
    /// Error message if failed.
    pub error: Option<String>,
}

/// Result of sending a batch of emails.
#[derive(Debug, Clone)]
pub struct BatchSendResult {
    /// Total emails in batch.
    pub total: i32,
    /// Number that succeeded.
    pub succeeded: i32,
    /// Number that failed.
    pub failed: i32,
    /// Individual results.
    pub results: Vec<SendResult>,
}

/// Result of email address validation.
#[derive(Debug, Clone)]
pub struct ValidationResult {
    /// Whether the address is valid.
    pub valid: bool,
    /// Reason if invalid.
    pub reason: Option<String>,
}

/// The text of the error for a failed call of the email service.
pub fn service_error_message(e: &ClientError) -> (s: String)
    ensures
        s@ == "service error: "@ + error_text(*e),
{
    let mut s = String::from_str("service error: ");
    let m = e.message();
    s.append(m.as_str());
    s
}

/// The outcome of sending one email: success, or the service's error
/// (`Unknown error` when it gave none).
pub fn send_outcome(result: &SendResult) -> (r: Result<(), String>)
    ensures
        result.success ==> r is Ok,
        !result.success ==> (r matches Err(m) && m@ == (match result.error { Some(e) => e@, None => "Unknown error"@ })),
{
    if result.success {
        Ok(())
    } else {
        match &result.error {
            Some(e) => Err(e.clone()),
            None => Err(String::from_str("Unknown error")),
        }
    }
}

/// The errors reported by the failed sends of a batch, in order (a failed
/// send without an error message reports none).
pub open spec fn batch_errors(results: Seq<SendResult>) -> Seq<Seq<char>>
    decreases results.len(),
{
    if results.len() == 0 {
        Seq::empty()
    } else {
        let front = batch_errors(results.drop_last());
        let last = results.last();
        if !last.success && last.error.is_some() {
            front.push(last.error.unwrap()@)
        } else {
            front
        }
    }
}

/// The outcome of sending a batch: success when no send failed, else
/// `<failed> of <total> emails failed: <errors>` with the reported errors
/// separated by `, `.
pub fn batch_outcome(result: &BatchSendResult) -> (r: Result<(), String>)
    ensures
        result.failed <= 0 ==> r is Ok,
        result.failed > 0 ==> (r matches Err(m) && m@ == signed_decimal(result.failed as int) + " of "@
            + signed_decimal(result.total as int) + " emails failed: "@
            + joined(batch_errors(result.results@), ", "@)),
{
    if result.failed > 0 {
        let mut errors: Vec<String> = Vec::new();
        let mut i: usize = 0;
        while i < result.results.len()
            invariant
                i <= result.results@.len(),
                views(errors@) == batch_errors(result.results@.take(i as int)),
            decreases result.results@.len() - i,
        {
            let ghost before = errors@;
            let r = &result.results[i];
            if !r.success {
                match &r.error {
                    Some(e) => {
                        errors.push(e.clone());
                    },
                    None => {},
                }
            }
            proof {
                let t = result.results@.take(i as int + 1);
                assert(t.drop_last() =~= result.results@.take(i as int));
                assert(views(errors@) =~= batch_errors(t));
            }
            i = i + 1;
        }
        assert(result.results@.take(i as int) =~= result.results@);
        let mut m = String::new();
        push_signed_decimal(&mut m, result.failed as i64);
        m.append(" of ");
        push_signed_decimal(&mut m, result.total as i64);
        m.append(" emails failed: ");
        let list = join(&errors, ", ");
        m.append(list.as_str());
        Err(m)
    } else {
        Ok(())
    }
}

// ---------------------------------------------------------------------------
// Background sending
// ---------------------------------------------------------------------------

/// Background job for sending an email.
#[derive(Debug, Clone)]
pub struct SendEmailJob {
    /// The email to send.
    pub email: Email,
}

impl SendEmailJob {
    /// A job that sends `email`.
    pub fn new(email: Email) -> (j: SendEmailJob)
        ensures
            j.email == email,
    {
        SendEmailJob { email }
    }

    /// Sending is retried up to three times.
    pub fn max_retries(&self) -> (n: u32)
        ensures
            n == 3,
    {
        3
    }

    /// Sending must complete within thirty seconds.
    pub fn timeout_ms(&self) -> (ms: u64)
        ensures
            ms == 30_000,
    {
        30_000
    }
}

} // verus!
