//! The stored download requests.
use vstd::prelude::*;

verus! {

pub const PROVIDER_TIKTOK: &'static str = "tiktok";
pub const PROVIDER_YOUTUBE: &'static str = "youtube";
pub const PROVIDER_INSTAGRAM: &'static str = "instagram";
pub const PROVIDER_TWITTER: &'static str = "twitter";
pub const PROVIDER_FACEBOOK: &'static str = "facebook";
pub const PROVIDER_PINTEREST: &'static str = "pinterest";
pub const PROVIDER_CAPCUT: &'static str = "capcut";
pub const PROVIDER_TELEGRAM: &'static str = "telegram";
pub const PROVIDER_SPOTIFY: &'static str = "spotify";
pub const PROVIDER_SOUNDCLOUD: &'static str = "soundcloud";
pub const DOWNLOAD_STATUS_PENDING: &'static str = "pending";
pub const DOWNLOAD_STATUS_RESOLVED: &'static str = "resolved";
pub const DOWNLOAD_STATUS_FAILED: &'static str = "failed";

/// A stored download request. `id` is the request's UUID as its big-endian
/// 128-bit value; the timestamps are microseconds since the Unix epoch (UTC).
#[derive(Clone, Debug, PartialEq, Eq)]
pub struct DownloadRequestRecord {
    pub id: u128,
    pub provider: String,
    pub source_url: String,
    pub normalized_url: String,
    pub source_host: String,
    pub status: String,
    pub title: Option<String>,
    pub thumbnail_url: Option<String>,
    pub duration_seconds: Option<i64>,
    pub uploader: Option<String>,
    pub extractor: Option<String>,
    pub webpage_url: Option<String>,
    pub last_error: Option<String>,
    pub resolved_at: Option<i64>,
    pub created_at: i64,
    pub updated_at: i64,
}

/// A download request to store, before any metadata is known.
#[derive(Clone, Debug, PartialEq, Eq)]
pub struct NewDownloadRequest {
    pub id: u128,
    pub provider: String,
    pub source_url: String,
    pub normalized_url: String,
    pub source_host: String,
    pub status: String,
}

/// What a request's stored record is updated with once its metadata is known.
#[derive(Clone, Debug, PartialEq, Eq)]
pub struct ResolvedDownloadRequest {
    pub status: String,
    pub title: Option<String>,
    pub thumbnail_url: Option<String>,
    pub duration_seconds: Option<i64>,
    pub uploader: Option<String>,
    pub extractor: Option<String>,
    pub webpage_url: Option<String>,
}

} // verus!
