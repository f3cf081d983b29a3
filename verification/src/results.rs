//! Results returned by the Cedar, data and file services, and the way file
//! contents are cut into chunks for upload and put together on download.

use vstd::prelude::*;
use std::collections::HashMap;
use crate::error::{ClientError, error_text};

verus! {

// ---------------------------------------------------------------------------
// Cedar service
// ---------------------------------------------------------------------------

/// An authorization request.
#[derive(Debug)]
pub struct AuthorizationRequest {
    /// Principal entity type.
    pub principal_type: String,
    /// Principal entity id.
    pub principal_id: String,
    /// Action to check.
    pub action: String,
    /// Resource entity type.
    pub resource_type: String,
    /// Resource entity id.
    pub resource_id: String,
    /// Additional context.
    pub context: HashMap<String, String>,
}

/// Result of an authorization check.
#[derive(Debug, Clone)]
pub struct AuthorizationResult {
    /// Whether the action is allowed.
    pub allowed: bool,
    /// Reason for the decision.
    pub decision_reason: String,
    /// Diagnostic messages.
    pub diagnostics: Vec<String>,
}

/// Result of a policy reload.
#[derive(Debug, Clone)]
pub struct ReloadResult {
    /// Whether the reload succeeded.
    pub success: bool,
    /// Number of policies loaded.
    pub policies_loaded: i32,
    /// Status message.
    pub message: String,
}

/// Result of policy validation.
#[derive(Debug, Clone)]
pub struct ValidationResult {
    /// Whether the policy is valid.
    pub valid: bool,
    /// Validation errors.
    pub errors: Vec<String>,
}

// ---------------------------------------------------------------------------
// Data service
// ---------------------------------------------------------------------------

/// Result of an execute operation.
#[derive(Debug, Clone, Copy)]
pub struct ExecuteResult {
    /// Number of rows affected.
    pub rows_affected: i64,
    /// Last insert id if applicable.
    pub last_insert_id: Option<i64>,
}

/// Result of a migration operation.
#[derive(Debug, Clone)]
pub struct MigrationResult {
    /// Whether the migration succeeded.
    pub success: bool,
    /// Number of migrations run.
    pub migrations_run: i32,
    /// Status message.
    pub message: String,
}

/// Result of a ping operation.
#[derive(Debug, Clone, Copy)]
pub struct PingResult {
    /// Whether the database is healthy.
    pub healthy: bool,
    /// Latency in milliseconds.
    pub latency_ms: i64,
}

// ---------------------------------------------------------------------------
// File service
// ---------------------------------------------------------------------------

/// Default size of an upload chunk: 64 KiB.
pub const DEFAULT_CHUNK_SIZE: usize = 65536;

/// Stored file information.
#[derive(Debug)]
pub struct StoredFileInfo {
    /// File id.
    pub id: String,
    /// Filename as the client uploaded it.
    pub filename: String,
    /// MIME content type.
    pub content_type: String,
    /// File size in bytes.
    pub size: i64,
    /// SHA-256 checksum.
    pub checksum: String,
    /// Creation timestamp.
    pub created_at: i64,
    /// Last update timestamp.
    pub updated_at: i64,
    /// Custom metadata.
    pub metadata: HashMap<String, String>,
}

/// Result of an upload operation.
#[derive(Debug)]
pub struct UploadResult {
    /// Whether the upload succeeded.
    pub success: bool,
    /// File metadata if successful.
    pub file: Option<StoredFileInfo>,
    /// Error message if failed.
    pub error: Option<String>,
}

/// Result of a download operation.
#[derive(Debug)]
pub struct DownloadResult {
    /// File metadata.
    pub metadata: StoredFileInfo,
    /// File data.
    pub data: Vec<u8>,
}

/// Result of a list operation.
#[derive(Debug)]
pub struct ListResult {
    /// Files in the list.
    pub files: Vec<StoredFileInfo>,
    /// Cursor for next page.
    pub next_cursor: Option<String>,
}

/// Result of a signed URL request.
#[derive(Debug, Clone)]
pub struct SignedUrlResult {
    /// Signed URL.
    pub url: String,
    /// Expiration timestamp.
    pub expires_at: Option<i64>,
}

/// The bytes of a list of chunks, one after the other.
pub open spec fn concat(chunks: Seq<Seq<u8>>) -> Seq<u8>
    decreases chunks.len(),
{
    if chunks.len() == 0 {
        Seq::empty()
    } else {
        concat(chunks.drop_last()) + chunks.last()
    }
}

/// The contents of a list of byte vectors.
pub open spec fn chunk_views(v: Seq<Vec<u8>>) -> Seq<Seq<u8>> {
    v.map_values(|c: Vec<u8>| c@)
}

/// Cuts file contents into the chunks that an upload sends
/// (`<[u8]>::chunks`): every chunk but the last holds `chunk_size` bytes,
/// the last between one and `chunk_size`, and together they hold the
/// contents in order.
pub fn upload_chunks(data: &[u8], chunk_size: usize) -> (chunks: Vec<Vec<u8>>)
    requires
        chunk_size > 0,
    ensures
        concat(chunk_views(chunks@)) == data@,
        forall|i: int| 0 <= i < chunks@.len() ==> 0 < (#[trigger] chunks@[i])@.len() <= chunk_size,
        forall|i: int| 0 <= i < chunks@.len() - 1 ==> (#[trigger] chunks@[i])@.len() == chunk_size,
{
    let mut chunks: Vec<Vec<u8>> = Vec::new();
    let n = data.len();
    let mut start: usize = 0;
    while start < n
        invariant
            n == data@.len(),
            chunk_size > 0,
            start <= n,
            concat(chunk_views(chunks@)) == data@.take(start as int),
            forall|i: int| 0 <= i < chunks@.len() ==> (#[trigger] chunks@[i])@.len() == chunk_size,
        decreases n - start,
    {
        let end: usize = if n - start > chunk_size { start + chunk_size } else { n };
        let mut c: Vec<u8> = Vec::new();
        let mut i: usize = start;
        while i < end
            invariant
                start <= i <= end <= n,
                n == data@.len(),
                c@ == data@.subrange(start as int, i as int),
            decreases end - i,
        {
            c.push(data[i]);
            assert(data@.subrange(start as int, i as int + 1) =~= data@.subrange(start as int, i as int).push(data@[i as int]));
            i = i + 1;
        }
        let ghost before = chunks@;
        chunks.push(c);
        proof {
            let cv = chunk_views(chunks@);
            assert(cv.drop_last() =~= chunk_views(before));
            assert(data@.take(end as int) =~= data@.take(start as int) + data@.subrange(start as int, end as int));
            if end < n {
                assert(end - start == chunk_size);
            }
        }
        if end < n {
            start = end;
        } else {
            start = end;
            proof {
                assert(data@.take(start as int) =~= data@);
            }
            assert(forall|i: int| 0 <= i < chunks@.len() ==> 0 < (#[trigger] chunks@[i])@.len() <= chunk_size);
            return chunks;
        }
    }
    assert(data@.take(start as int) =~= data@);
    chunks
}

/// A download in progress: the metadata received so far (the last one
/// wins) and the chunks received, put together in order.
#[derive(Debug)]
pub struct DownloadAssembly {
    /// Metadata received so far.
    pub metadata: Option<StoredFileInfo>,
    /// Bytes received so far.
    pub data: Vec<u8>,
}

impl DownloadAssembly {
    /// Nothing received yet.
    pub fn new() -> (d: DownloadAssembly)
        ensures
            d.metadata.is_none(),
            d.data@.len() == 0,
    {
        DownloadAssembly { metadata: None, data: Vec::new() }
    }

    /// The metadata message of the download arrived.
    pub fn on_metadata(&mut self, metadata: StoredFileInfo)
        ensures
            final(self).metadata == Some(metadata),
            final(self).data@ == old(self).data@,
    {
        self.metadata = Some(metadata);
    }

    /// A chunk of the download arrived.
    pub fn on_chunk(&mut self, chunk: &[u8])
        ensures
            final(self).data@ == old(self).data@ + chunk@,
            final(self).metadata == old(self).metadata,
    {
        let ghost start = self.data@;
        let mut i: usize = 0;
        while i < chunk.len()
            invariant
                i <= chunk@.len(),
                self.data@ == start + chunk@.take(i as int),
                self.metadata == old(self).metadata,
            decreases chunk@.len() - i,
        {
            self.data.push(chunk[i]);
            assert(chunk@.take(i as int + 1) =~= chunk@.take(i as int).push(chunk@[i as int]));
            i = i + 1;
        }
        assert(chunk@.take(i as int) =~= chunk@);
    }

    /// The downloaded file: its metadata and bytes; a download without
    /// metadata is refused.
    pub fn finish(self) -> (r: Result<DownloadResult, ClientError>)
        ensures
            self.metadata matches Some(m) ==> (r matches Ok(d) && d.metadata == m && d.data@ == self.data@),
            self.metadata.is_none() ==> (r matches Err(ClientError::ResponseError(e)) && e@ == "No metadata in response"@),
    {
        match self.metadata {
            Some(m) => Ok(DownloadResult { metadata: m, data: self.data }),
            None => Err(ClientError::ResponseError(String::from_str("No metadata in response"))),
        }
    }
}

/// The bytes of a download after `chunks` arrived, one after the other, on
/// top of `received` (what `on_chunk` does for each).
pub open spec fn after_chunks(received: Seq<u8>, chunks: Seq<Seq<u8>>) -> Seq<u8>
    decreases chunks.len(),
{
    if chunks.len() == 0 {
        received
    } else {
        after_chunks(received, chunks.drop_last()) + chunks.last()
    }
}

/// Law: a download that starts empty and receives the chunks of an upload,
/// one after the other, holds exactly the uploaded bytes.
pub proof fn law_chunks_reassemble(data: Seq<u8>, chunks: Seq<Seq<u8>>)
    requires
        concat(chunks) == data,
    ensures
        after_chunks(Seq::empty(), chunks) == data,
    decreases chunks.len(),
{
    if chunks.len() > 0 {
        law_chunks_reassemble(concat(chunks.drop_last()), chunks.drop_last());
    } else {
        assert(data =~= Seq::<u8>::empty());
    }
}

// ---------------------------------------------------------------------------
// File storage backed by the file service
// ---------------------------------------------------------------------------

/// A file kept by a storage backend.
#[derive(Debug, Clone)]
pub struct StoredFile {
    /// File id.
    pub id: String,
    /// Filename as the client uploaded it.
    pub filename: String,
    /// MIME content type.
    pub content_type: String,
    /// Size in bytes.
    pub size: u64,
    /// Where the backend keeps the file.
    pub storage_path: String,
}

/// Errors of a storage backend.
#[derive(Debug, Clone)]
pub enum StorageError {
    /// The file does not exist.
    NotFound(String),
    /// Any other failure.
    Other(String),
}

/// The size reported by the file service as an unsigned size (zero when negative).
pub open spec fn size_of_info(size: i64) -> u64 {
    if size >= 0 { size as u64 } else { 0 }
}

/// The stored file that the file service describes: the service keeps the
/// file under its id, which is also its storage path.
pub fn stored_file_from_info(info: StoredFileInfo) -> (f: StoredFile)
    ensures
        f.id@ == info.id@,
        f.storage_path@ == info.id@,
        f.filename == info.filename,
        f.content_type == info.content_type,
        f.size == size_of_info(info.size),
{
    let size: u64 = if info.size >= 0 { info.size as u64 } else { 0 };
    StoredFile {
        id: info.id.clone(),
        filename: info.filename,
        content_type: info.content_type,
        size,
        storage_path: info.id,
    }
}

/// The storage error for a failed call of the file service.
pub fn file_service_error(e: &ClientError) -> (s: StorageError)
    ensures
        s matches StorageError::Other(m) && m@ == "File service error: "@ + error_text(*e),
{
    let mut m = String::from_str("File service error: ");
    let text = e.message();
    m.append(text.as_str());
    StorageError::Other(m)
}

/// The outcome of storing a file through the file service: the stored file
/// when the upload succeeded with metadata; an error when it succeeded
/// without, or failed (with the service's error, `Unknown error` when none).
pub fn stored_file_from_upload(result: UploadResult) -> (r: Result<StoredFile, StorageError>)
    ensures
        result.success && result.file.is_some() ==> (r matches Ok(f) && f.id@ == result.file.unwrap().id@
            && f.storage_path@ == result.file.unwrap().id@ && f.filename == result.file.unwrap().filename
            && f.content_type == result.file.unwrap().content_type && f.size == size_of_info(result.file.unwrap().size)),
        result.success && result.file.is_none() ==> (r matches Err(StorageError::Other(m))
            && m@ == "Upload succeeded but no file metadata returned"@),
        !result.success ==> (r matches Err(StorageError::Other(m))
            && m@ == (match result.error { Some(e) => e@, None => "Unknown error"@ })),
{
    if result.success {
        match result.file {
            Some(info) => Ok(stored_file_from_info(info)),
            None => Err(StorageError::Other(String::from_str("Upload succeeded but no file metadata returned"))),
        }
    } else {
        match result.error {
            Some(e) => Err(StorageError::Other(e)),
            None => Err(StorageError::Other(String::from_str("Unknown error"))),
        }
    }
}

/// Whether a file exists, judged by the file service's answer to a metadata
/// request: it does when metadata came back; an unconfigured service is an
/// error; any other failure means it does not.
pub fn exists_from_metadata(r: &Result<StoredFileInfo, ClientError>) -> (e: Result<bool, StorageError>)
    ensures
        r is Ok ==> e == Ok::<bool, StorageError>(true),
        r matches Err(ClientError::NotConfigured(_)) ==> (e matches Err(StorageError::Other(m))
            && m@ == "File service not configured"@),
        (r is Err && !(r matches Err(ClientError::NotConfigured(_)))) ==> e == Ok::<bool, StorageError>(false),
{
    match r {
        Ok(_) => Ok(true),
        Err(ClientError::NotConfigured(_)) => Err(StorageError::Other(String::from_str("File service not configured"))),
        Err(_) => Ok(false),
    }
}

/// The storage error for a failed metadata request: the file is taken as
/// not found.
pub fn metadata_error(e: &ClientError) -> (s: StorageError)
    ensures
        s matches StorageError::NotFound(m) && m@ == "File not found: "@ + error_text(*e),
{
    let mut m = String::from_str("File not found: ");
    let text = e.message();
    m.append(text.as_str());
    StorageError::NotFound(m)
}

} // verus!
