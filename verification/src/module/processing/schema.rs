//! What the processing endpoints take and answer.
use vstd::prelude::*;

use crate::module::processing::model::DownloadRequestRecord;
use crate::net::{uuid_string, uuid_text};
use crate::text::{append, owned, str_eq};

verus! {

/// The body of a resolve request.
#[derive(Clone, Debug, PartialEq, Eq)]
pub struct ResolveUrlRequest {
    pub url: String,
}

/// The answer to a resolve or show request.
#[derive(Debug, PartialEq, Eq)]
pub struct ResolveUrlResponse {
    pub request: ProcessingRequestResponse,
}

/// A download request as the API shows it. Timestamps are microseconds since
/// the Unix epoch (UTC).
#[derive(Debug, PartialEq, Eq)]
pub struct ProcessingRequestResponse {
    pub id: u128,
    pub provider: String,
    pub source_url: String,
    pub normalized_url: String,
    pub source_host: String,
    pub status: String,
    pub title: Option<String>,
    pub thumbnail_url: Option<String>,
    pub duration_seconds: Option<i64>,
    pub uploader: Option<String>,
    pub extractor: Option<String>,
    pub webpage_url: Option<String>,
    pub last_error: Option<String>,
    pub resolved_at: Option<i64>,
    pub download_url: Option<String>,
    pub created_at: i64,
    pub updated_at: i64,
    pub message: String,
}

/// The path of the download endpoint of the request `id`.
pub open spec fn download_path(id: u128) -> Seq<char> {
    "/processing/"@ + uuid_text(id) + "/download"@
}

/// The message shown for a request in `status`.
pub open spec fn status_message(status: Seq<char>) -> Seq<char> {
    if status == "resolved"@ {
        "request resolved; preview is ready and the download endpoint will fetch the best available media"@
    } else if status == "failed"@ {
        "request failed during metadata extraction"@
    } else {
        "request accepted; metadata extraction is in progress"@
    }
}

impl ProcessingRequestResponse {
    /// This is how the API shows `record`: its fields as they are, the
    /// download path when it is resolved, and the message for its status.
    pub open spec fn shows(self, record: DownloadRequestRecord) -> bool {
        &&& self.id == record.id
        &&& self.provider == record.provider
        &&& self.source_url == record.source_url
        &&& self.normalized_url == record.normalized_url
        &&& self.source_host == record.source_host
        &&& self.status == record.status
        &&& self.title == record.title
        &&& self.thumbnail_url == record.thumbnail_url
        &&& self.duration_seconds == record.duration_seconds
        &&& self.uploader == record.uploader
        &&& self.extractor == record.extractor
        &&& self.webpage_url == record.webpage_url
        &&& self.last_error == record.last_error
        &&& self.resolved_at == record.resolved_at
        &&& self.created_at == record.created_at
        &&& self.updated_at == record.updated_at
        &&& record.status@ == "resolved"@ ==> (self.download_url matches Some(u) && u@ == download_path(
            record.id,
        ))
        &&& record.status@ != "resolved"@ ==> self.download_url is None
        &&& self.message@ == status_message(record.status@)
    }

    /// Shows a stored record: its fields as they are, the download path when
    /// the request is resolved, and the message for its status.
    pub fn from_record(record: DownloadRequestRecord) -> (r: ProcessingRequestResponse)
        ensures
            r.shows(record),
    {
        let resolved = str_eq(record.status.as_str(), "resolved");
        let download_url = if resolved {
            let mut url = owned("/processing/");
            let id_text = uuid_string(record.id);
            append(&mut url, id_text.as_str());
            append(&mut url, "/download");
            Some(url)
        } else {
            None
        };
        let message = if resolved {
            owned(
                "request resolved; preview is ready and the download endpoint will fetch the best available media",
            )
        } else if str_eq(record.status.as_str(), "failed") {
            owned("request failed during metadata extraction")
        } else {
            owned("request accepted; metadata extraction is in progress")
        };
        ProcessingRequestResponse {
            id: record.id,
            provider: record.provider,
            source_url: record.source_url,
            normalized_url: record.normalized_url,
            source_host: record.source_host,
            status: record.status,
            title: record.title,
            thumbnail_url: record.thumbnail_url,
            duration_seconds: record.duration_seconds,
            uploader: record.uploader,
            extractor: record.extractor,
            webpage_url: record.webpage_url,
            last_error: record.last_error,
            resolved_at: record.resolved_at,
            download_url,
            created_at: record.created_at,
            updated_at: record.updated_at,
            message,
        }
    }
}

} // verus!
