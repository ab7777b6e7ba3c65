//! What the library decides around the `yt-dlp` runtime: the arguments it is
//! run with, how its metadata becomes the request's metadata, which file it
//! downloaded, and how its failures are classified.
use vstd::prelude::*;

use crate::config::environment::Environment;
use crate::module::processing::model::DownloadRequestRecord;
use crate::net::{uuid_string, uuid_text};
use crate::paths::{
    path_component_count, path_file_name, path_join, path_starts_with, spec_path_component_count,
    spec_path_file_name, spec_path_join, spec_path_starts_with, spec_utf8_lossy, utf8_lossy,
};
use crate::text::{
    append, lemma_trim_idempotent, ascii_lowercase, chars_ends_with, chars_of, chars_starts_with, concat, contains,
    decimal, decimal_u64, ends_with, lowercase, owned, split, starts_with, str_contains, str_eq,
    string_from_chars, sub_chars, trim, trim_chars,
};

verus! {

pub const UNKNOWN_VIDEO_EXTENSION: &'static str = ".unknown_video";
pub const UNKNOWN_AUDIO_EXTENSION: &'static str = ".unknown_audio";
pub const YOUTUBE_PROGRESSIVE_MAX_HEIGHT: u16 = 1080;
pub const YOUTUBE_ADAPTIVE_MAX_HEIGHT: u16 = 720;

/// An optional string, as an optional character sequence.
pub open spec fn opt_seq(o: Option<String>) -> Option<Seq<char>> {
    match o {
        Some(s) => Some(s@),
        None => None,
    }
}

/// The metadata of a media link.
#[derive(Debug, PartialEq, Eq)]
pub struct ExtractedMediaMetadata {
    pub title: String,
    pub thumbnail_url: Option<String>,
    pub duration_seconds: Option<i64>,
    pub uploader: Option<String>,
    pub extractor: Option<String>,
    pub webpage_url: String,
}

/// A downloaded media file: the name shown to clients, the file's path and
/// the request's temporary directory.
#[derive(Debug, PartialEq, Eq)]
pub struct DownloadedMedia {
    pub filename: String,
    pub path: String,
    pub temp_dir: String,
}

/// One thumbnail that `yt-dlp` reports.
#[derive(Clone, Debug, PartialEq, Eq)]
pub struct YtDlpThumbnail {
    pub url: Option<String>,
    pub width: Option<i64>,
    pub height: Option<i64>,
}

/// What `yt-dlp --dump-single-json` reports of a link. `duration_seconds` is
/// the reported duration rounded to whole seconds.
#[derive(Debug, PartialEq, Eq)]
pub struct YtDlpInfo {
    pub title: Option<String>,
    pub fulltitle: Option<String>,
    pub thumbnail: Option<String>,
    pub thumbnails: Option<Vec<YtDlpThumbnail>>,
    pub duration_seconds: Option<i64>,
    pub uploader: Option<String>,
    pub channel: Option<String>,
    pub extractor: Option<String>,
    pub extractor_key: Option<String>,
    pub webpage_url: Option<String>,
    pub original_url: Option<String>,
    pub entries: Option<Vec<YtDlpInfo>>,
}

// ---------------------------------------------------------------------------
// Thumbnails
// ---------------------------------------------------------------------------

pub open spec fn or_zero(v: Option<i64>) -> int {
    match v {
        Some(x) => x as int,
        None => 0,
    }
}

/// A thumbnail's area, by which the largest is chosen.
pub open spec fn thumb_score(t: YtDlpThumbnail) -> int {
    or_zero(t.width) * or_zero(t.height)
}

/// The area of every thumbnail with a URL fits in an `i64`.
pub open spec fn scores_fit(items: Seq<YtDlpThumbnail>) -> bool {
    forall|i: int|
        0 <= i < items.len() && items[i].url is Some ==> i64::MIN <= #[trigger] thumb_score(items[i])
            <= i64::MAX
}

/// The index of the thumbnail with a URL and the largest area, the last one
/// among equals (as `Iterator::max_by_key` picks).
pub open spec fn best_thumb(items: Seq<YtDlpThumbnail>) -> Option<int>
    decreases items.len(),
{
    if items.len() == 0 {
        None
    } else {
        let prev = best_thumb(items.drop_last());
        let k = items.len() - 1;
        if items[k].url is Some {
            match prev {
                Some(j) => if thumb_score(items[k]) >= thumb_score(items[j]) {
                    Some(k)
                } else {
                    Some(j)
                },
                None => Some(k),
            }
        } else {
            prev
        }
    }
}

proof fn lemma_best_thumb_range(items: Seq<YtDlpThumbnail>)
    ensures
        best_thumb(items) matches Some(j) ==> 0 <= j < items.len() && items[j].url is Some,
    decreases items.len(),
{
    if items.len() > 0 {
        lemma_best_thumb_range(items.drop_last());
    }
}

/// The thumbnail URL of a report: its `thumbnail`, else the URL of the
/// largest listed thumbnail.
pub open spec fn spec_best_thumbnail(info: YtDlpInfo) -> Option<Seq<char>> {
    match info.thumbnail {
        Some(t) => Some(t@),
        None => match info.thumbnails {
            Some(items) => match best_thumb(items@) {
                Some(j) => opt_seq(items@[j].url),
                None => None,
            },
            None => None,
        },
    }
}

/// The thumbnail areas that choosing a report's thumbnail computes fit in an
/// `i64`: those of its listed thumbnails with a URL, when it has no
/// `thumbnail` of its own.
pub open spec fn info_scores_fit(info: YtDlpInfo) -> bool {
    info.thumbnail is None && info.thumbnails is Some ==> scores_fit(info.thumbnails->Some_0@)
}

/// Whether the thumbnail areas that choosing the report's thumbnail computes
/// fit in an `i64` (see [`info_scores_fit`]).
fn thumbnail_areas_fit(info: &YtDlpInfo) -> (r: bool)
    ensures
        r == info_scores_fit(*info),
{
    if info.thumbnail.is_some() {
        return true;
    }
    match &info.thumbnails {
        None => true,
        Some(items) => {
            let n = items.len();
            for i in 0..n
                invariant
                    n == items@.len(),
                    info.thumbnail is None,
                    info.thumbnails == Some(*items),
                    forall|j: int|
                        0 <= j < i && items@[j].url is Some ==> i64::MIN <= #[trigger] thumb_score(
                            items@[j],
                        ) <= i64::MAX,
            {
                if items[i].url.is_some() {
                    let w: i64 = match items[i].width {
                        Some(w) => w,
                        None => 0,
                    };
                    let h: i64 = match items[i].height {
                        Some(h) => h,
                        None => 0,
                    };
                    assert(thumb_score(items@[i as int]) == w * h);
                    if w.checked_mul(h).is_none() {
                        assert(items@[i as int].url is Some && !(i64::MIN <= thumb_score(
                            items@[i as int],
                        ) <= i64::MAX));
                        return false;
                    }
                }
            }
            true
        },
    }
}

/// The best thumbnail URL of a report (see [`spec_best_thumbnail`]).
pub fn best_thumbnail_url(info: &YtDlpInfo) -> (r: Option<String>)
    requires
        info_scores_fit(*info),
    ensures
        opt_seq(r) == spec_best_thumbnail(*info),
{
    if let Some(t) = &info.thumbnail {
        return Some(t.clone());
    }
    match &info.thumbnails {
        None => None,
        Some(items) => {
            let n = items.len();
            let mut best: Option<usize> = None;
            let mut best_score: i64 = 0;
            for i in 0..n
                invariant
                    n == items@.len(),
                    scores_fit(items@),
                    match best_thumb(items@.take(i as int)) {
                        Some(j) => best == Some(j as usize) && best_score == thumb_score(items@[j]),
                        None => best is None,
                    },
            {
                proof {
                    lemma_best_thumb_range(items@.take(i as int));
                }
                let ghost prefix = items@.take(i + 1);
                assert(prefix.drop_last() =~= items@.take(i as int));
                let item = &items[i];
                if item.url.is_some() {
                    let w: i64 = match item.width {
                        Some(w) => w,
                        None => 0,
                    };
                    let h: i64 = match item.height {
                        Some(h) => h,
                        None => 0,
                    };
                    assert(thumb_score(items@[i as int]) == w * h);
                    let score = w * h;
                    match best {
                        Some(_) => {
                            if score >= best_score {
                                best = Some(i);
                                best_score = score;
                            }
                        },
                        None => {
                            best = Some(i);
                            best_score = score;
                        },
                    }
                }
            }
            assert(items@.take(n as int) =~= items@);
            proof {
                lemma_best_thumb_range(items@);
            }
            match best {
                Some(j) => match &items[j].url {
                    Some(u) => Some(u.clone()),
                    None => None,
                },
                None => None,
            }
        },
    }
}

// ---------------------------------------------------------------------------
// Metadata
// ---------------------------------------------------------------------------

/// `entries[k]` is the first entry that has a title.
pub open spec fn first_titled_at(entries: Seq<YtDlpInfo>, k: int) -> bool {
    &&& 0 <= k < entries.len()
    &&& entries[k].title is Some
    &&& forall|j: int| 0 <= j < k ==> (#[trigger] entries[j]).title is None
}

/// The report the metadata is taken from: the first entry of a playlist that
/// has a title, else the report itself.
pub open spec fn primary_info(info: YtDlpInfo) -> YtDlpInfo {
    match info.entries {
        Some(es) => if exists|k: int| first_titled_at(es@, k) {
            es@[choose|k: int| first_titled_at(es@, k)]
        } else {
            YtDlpInfo { entries: None, ..info }
        },
        None => info,
    }
}

/// The view of extracted metadata: title, thumbnail, duration, uploader,
/// extractor and page URL.
pub open spec fn metadata_view(m: ExtractedMediaMetadata) -> (
    Seq<char>,
    Option<Seq<char>>,
    Option<i64>,
    Option<Seq<char>>,
    Option<Seq<char>>,
    Seq<char>,
) {
    (
        m.title@,
        opt_seq(m.thumbnail_url),
        m.duration_seconds,
        opt_seq(m.uploader),
        opt_seq(m.extractor),
        m.webpage_url@,
    )
}

/// `a`, else `b`.
pub open spec fn or_else(a: Option<Seq<char>>, b: Option<Seq<char>>) -> Option<Seq<char>> {
    if a is Some {
        a
    } else {
        b
    }
}

/// The metadata a report gives of `source_url`, or why it gives none.
pub open spec fn spec_metadata_from_info(info: YtDlpInfo, source_url: Seq<char>) -> Result<
    (Seq<char>, Option<Seq<char>>, Option<i64>, Option<Seq<char>>, Option<Seq<char>>, Seq<char>),
    Seq<char>,
> {
    let p = primary_info(info);
    match or_else(opt_seq(p.title), opt_seq(p.fulltitle)) {
        Some(title) => Ok(
            (
                title,
                spec_best_thumbnail(p),
                p.duration_seconds,
                or_else(opt_seq(p.uploader), opt_seq(p.channel)),
                or_else(opt_seq(p.extractor_key), opt_seq(p.extractor)),
                match or_else(opt_seq(p.webpage_url), opt_seq(p.original_url)) {
                    Some(u) => u,
                    None => source_url,
                },
            ),
        ),
        None => Err("yt-dlp did not return a title"@),
    }
}

/// Which field of the primary report each piece of metadata comes from: the
/// page URL is `webpage_url` when the report has one, else `original_url`,
/// else the submitted link; the title is `title`, else `fulltitle` (and
/// without either there is no metadata); the uploader is `uploader`, else
/// `channel`; the extractor is `extractor_key`, else `extractor`; a report's
/// own `thumbnail` is taken as it is; the duration is the report's.
pub proof fn lemma_metadata_sources(info: YtDlpInfo, source_url: Seq<char>)
    ensures
        ({
            let p = primary_info(info);
            let r = spec_metadata_from_info(info, source_url);
            &&& (r is Ok <==> (p.title is Some || p.fulltitle is Some))
            &&& r matches Ok(m) ==> {
                &&& m.5 == (match p.webpage_url {
                    Some(w) => w@,
                    None => match p.original_url {
                        Some(o) => o@,
                        None => source_url,
                    },
                })
                &&& m.0 == (match p.title {
                    Some(t) => t@,
                    None => p.fulltitle->Some_0@,
                })
                &&& m.3 == (match p.uploader {
                    Some(u) => Some(u@),
                    None => opt_seq(p.channel),
                })
                &&& m.4 == (match p.extractor_key {
                    Some(k) => Some(k@),
                    None => opt_seq(p.extractor),
                })
                &&& (p.thumbnail matches Some(t) ==> m.1 == Some(t@))
                &&& m.2 == p.duration_seconds
            }
        }),
{
}

/// Whether the thumbnail areas that choosing the thumbnail of the report's
/// primary entry computes fit in an `i64`, as [`metadata_from_info`] needs.
pub fn report_areas_fit(info: &YtDlpInfo) -> (r: bool)
    ensures
        r == info_scores_fit(primary_info(*info)),
{
    match &info.entries {
        Some(entries) => {
            let n = entries.len();
            let mut i: usize = 0;
            while i < n && entries[i].title.is_none()
                invariant
                    n == entries@.len(),
                    i <= n,
                    forall|j: int| 0 <= j < i ==> (#[trigger] entries@[j]).title is None,
                decreases n - i,
            {
                i = i + 1;
            }
            if i < n {
                assert(first_titled_at(entries@, i as int));
                let ghost c = choose|c: int| first_titled_at(entries@, c);
                assert(c == i) by {
                    if c < i {
                        assert(entries@[c].title is None);
                    } else if c > i {
                        assert(entries@[i as int].title is None);
                    }
                }
                thumbnail_areas_fit(&entries[i])
            } else {
                assert(!exists|c: int| first_titled_at(entries@, c)) by {
                    if exists|c: int| first_titled_at(entries@, c) {
                        let c = choose|c: int| first_titled_at(entries@, c);
                        assert(entries@[c].title is None);
                    }
                }
                thumbnail_areas_fit(info)
            }
        },
        None => thumbnail_areas_fit(info),
    }
}

/// `a`, else `b`.
fn first_of(a: Option<String>, b: Option<String>) -> (r: Option<String>)
    ensures
        opt_seq(r) == or_else(opt_seq(a), opt_seq(b)),
{
    match a {
        Some(x) => Some(x),
        None => b,
    }
}

/// The metadata that a `yt-dlp` report gives of `source_url`.
pub fn metadata_from_info(info: YtDlpInfo, source_url: &str) -> (r: Result<
    ExtractedMediaMetadata,
    String,
>)
    requires
        info_scores_fit(primary_info(info)),
    ensures
        match spec_metadata_from_info(info, source_url@) {
            Ok(m) => r matches Ok(meta) && metadata_view(meta) == m,
            Err(e) => r matches Err(msg) && msg@ == e,
        },
{
    let ghost input = info;
    let mut info = info;
    let p: YtDlpInfo = match info.entries {
        Some(mut entries) => {
            let n = entries.len();
            let mut i: usize = 0;
            while i < n && entries[i].title.is_none()
                invariant
                    n == entries@.len(),
                    entries@ == input.entries->Some_0@,
                    i <= n,
                    forall|j: int| 0 <= j < i ==> (#[trigger] entries@[j]).title is None,
                decreases n - i,
            {
                i = i + 1;
            }
            let found: Option<usize> = if i < n {
                Some(i)
            } else {
                None
            };
            match found {
                Some(k) => {
                    assert(first_titled_at(entries@, k as int));
                    let ghost c = choose|c: int| first_titled_at(entries@, c);
                    assert(c == k) by {
                        if c < k {
                            assert(entries@[c].title is None);
                        } else if c > k {
                            assert(entries@[k as int].title is None);
                        }
                    }
                    let e = entries.remove(k);
                    e
                },
                None => {
                    assert(!exists|c: int| first_titled_at(entries@, c)) by {
                        if exists|c: int| first_titled_at(entries@, c) {
                            let c = choose|c: int| first_titled_at(entries@, c);
                            assert(entries@[c].title is None);
                        }
                    }
                    YtDlpInfo {
                        title: info.title,
                        fulltitle: info.fulltitle,
                        thumbnail: info.thumbnail,
                        thumbnails: info.thumbnails,
                        duration_seconds: info.duration_seconds,
                        uploader: info.uploader,
                        channel: info.channel,
                        extractor: info.extractor,
                        extractor_key: info.extractor_key,
                        webpage_url: info.webpage_url,
                        original_url: info.original_url,
                        entries: None,
                    }
                },
            }
        },
        None => info,
    };
    assert(p == primary_info(input));
    let thumbnail_url = best_thumbnail_url(&p);
    let title = match first_of(p.title, p.fulltitle) {
        Some(t) => t,
        None => return Err(owned("yt-dlp did not return a title")),
    };
    let uploader = first_of(p.uploader, p.channel);
    let extractor = first_of(p.extractor_key, p.extractor);
    let webpage_url = match first_of(p.webpage_url, p.original_url) {
        Some(u) => u,
        None => owned(source_url),
    };
    Ok(
        ExtractedMediaMetadata {
            title,
            thumbnail_url,
            duration_seconds: p.duration_seconds,
            uploader,
            extractor,
            webpage_url,
        },
    )
}

// ---------------------------------------------------------------------------
// Downloaded files
// ---------------------------------------------------------------------------

/// The name shown to clients for the file name `name`: `yt-dlp`'s
/// `.unknown_video` becomes `.mp4` and `.unknown_audio` becomes `.m4a`.
pub open spec fn spec_client_filename(name: Seq<char>) -> Seq<char> {
    if ends_with(name, ".unknown_video"@) {
        name.subrange(0, name.len() - 14) + ".mp4"@
    } else if ends_with(name, ".unknown_audio"@) {
        name.subrange(0, name.len() - 14) + ".m4a"@
    } else {
        name
    }
}

/// `yt-dlp`'s unknown extensions are shown as `.mp4` (video) and `.m4a`
/// (audio), keeping the rest of the name; a name with neither is shown as it
/// is.
pub proof fn lemma_client_filename_renames(stem: Seq<char>, name: Seq<char>)
    ensures
        spec_client_filename(stem + ".unknown_video"@) == stem + ".mp4"@,
        spec_client_filename(stem + ".unknown_audio"@) == stem + ".m4a"@,
        !ends_with(name, ".unknown_video"@) && !ends_with(name, ".unknown_audio"@)
            ==> spec_client_filename(name) == name,
{
    reveal_strlit(".unknown_video");
    reveal_strlit(".unknown_audio");
    let v = stem + ".unknown_video"@;
    assert(v.subrange(v.len() - 14, v.len() as int) =~= ".unknown_video"@);
    assert(v.subrange(0, v.len() - 14) =~= stem);
    let a = stem + ".unknown_audio"@;
    assert(a.subrange(a.len() - 14, a.len() as int) =~= ".unknown_audio"@);
    assert(a.subrange(0, a.len() - 14) =~= stem);
    assert(".unknown_video"@[9] != ".unknown_audio"@[9]);
    if ends_with(a, ".unknown_video"@) {
        assert(a[a.len() - 5] == ".unknown_video"@[9]);
        assert(a[a.len() - 5] == ".unknown_audio"@[9]);
    }
}

/// The name shown to clients for the downloaded file named `name`.
pub fn client_filename(name: &str) -> (r: String)
    ensures
        r@ == spec_client_filename(name@),
{
    proof {
        reveal_strlit(".unknown_video");
        reveal_strlit(".unknown_audio");
    }
    let v = chars_of(name);
    let video = chars_of(UNKNOWN_VIDEO_EXTENSION);
    let audio = chars_of(UNKNOWN_AUDIO_EXTENSION);
    if chars_ends_with(v.as_slice(), video.as_slice()) {
        let stem = sub_chars(v.as_slice(), 0, v.len() - 14);
        let mut r = string_from_chars(stem.as_slice());
        append(&mut r, ".mp4");
        return r;
    }
    if chars_ends_with(v.as_slice(), audio.as_slice()) {
        let stem = sub_chars(v.as_slice(), 0, v.len() - 14);
        let mut r = string_from_chars(stem.as_slice());
        append(&mut r, ".m4a");
        return r;
    }
    owned(name)
}

/// Renaming is done once: a name shown to clients is shown unchanged.
pub proof fn lemma_client_filename_idempotent(name: Seq<char>)
    ensures
        spec_client_filename(spec_client_filename(name)) == spec_client_filename(name),
{
    reveal_strlit(".unknown_video");
    reveal_strlit(".unknown_audio");
    reveal_strlit(".mp4");
    reveal_strlit(".m4a");
    let r = spec_client_filename(name);
    if ends_with(name, ".unknown_video"@) || ends_with(name, ".unknown_audio"@) {
        assert(r.len() >= 4);
        assert(r.last() == '4' || r.last() == 'a');
        if ends_with(r, ".unknown_video"@) {
            assert(r.last() == ".unknown_video"@.last());
        }
        if ends_with(r, ".unknown_audio"@) {
            assert(r.last() == ".unknown_audio"@.last());
        }
    }
}

/// The name shown to clients for the file at `path`, or why there is none.
pub open spec fn spec_public_filename(path: Seq<char>) -> Result<Seq<char>, Seq<char>> {
    match spec_path_file_name(path) {
        Some(name) => Ok(spec_client_filename(name)),
        None => Err("downloaded file name is invalid"@),
    }
}

/// The name shown to clients for the downloaded file at `path`.
pub fn public_filename(path: &str) -> (r: Result<String, String>)
    ensures
        match spec_public_filename(path@) {
            Ok(name) => r matches Ok(s) && s@ == name,
            Err(e) => r matches Err(s) && s@ == e,
        },
{
    match path_file_name(path) {
        Some(name) => Ok(client_filename(name.as_str())),
        None => Err(owned("downloaded file name is invalid")),
    }
}

/// The download directory of request `id`: the temp dir joined with the
/// request's UUID in its hyphenated form.
pub open spec fn spec_request_dir(temp_dir: Seq<char>, id: u128) -> Seq<char> {
    spec_path_join(temp_dir, uuid_text(id))
}

/// The download directory of request `id`.
pub fn request_dir(env: &Environment, id: u128) -> (r: String)
    ensures
        r@ == spec_request_dir(env.temp_dir@, id),
{
    let name = uuid_string(id);
    path_join(env.temp_dir.as_str(), name.as_str())
}

/// The path a download marker names: its contents, trimmed.
pub open spec fn spec_stored_path(marker: Seq<char>) -> Seq<char> {
    trim(marker)
}

/// The path named by a download marker holding `marker`.
pub fn stored_download_path(marker: &str) -> (r: String)
    ensures
        r@ == spec_stored_path(marker@),
{
    crate::text::trim_str(marker)
}

/// The media downloaded into `temp_dir` at `path`: its client name, path and
/// directory, or why the file has no name.
pub open spec fn spec_downloaded_media(temp_dir: Seq<char>, path: Seq<char>) -> Result<
    (Seq<char>, Seq<char>, Seq<char>),
    Seq<char>,
> {
    match spec_public_filename(path) {
        Ok(name) => Ok((name, path, temp_dir)),
        Err(e) => Err(e),
    }
}

/// The view of downloaded media: file name, path and directory.
pub open spec fn media_view(m: DownloadedMedia) -> (Seq<char>, Seq<char>, Seq<char>) {
    (m.filename@, m.path@, m.temp_dir@)
}

/// The media downloaded into `temp_dir` at `path` (see
/// [`spec_downloaded_media`]).
pub fn downloaded_media(temp_dir: &str, path: &str) -> (r: Result<DownloadedMedia, String>)
    ensures
        match spec_downloaded_media(temp_dir@, path@) {
            Ok(v) => r matches Ok(m) && media_view(m) == v,
            Err(e) => r matches Err(s) && s@ == e,
        },
{
    match public_filename(path) {
        Ok(filename) => Ok(DownloadedMedia { filename, path: owned(path), temp_dir: owned(temp_dir) }),
        Err(e) => Err(e),
    }
}

/// The message of a failed `yt-dlp` run: its standard error, read as text
/// and trimmed.
pub open spec fn spec_run_failure(stderr: Seq<u8>) -> Seq<char> {
    "yt-dlp failed: "@ + trim(spec_utf8_lossy(stderr))
}

/// The message of a failed `yt-dlp` run with standard error `stderr`.
pub fn run_failure_message(stderr: &[u8]) -> (r: String)
    ensures
        r@ == spec_run_failure(stderr@),
{
    let text = utf8_lossy(stderr);
    let trimmed = crate::text::trim_str(text.as_str());
    concat("yt-dlp failed: ", trimmed.as_str())
}

/// The message of a `yt-dlp` run stopped after `seconds`.
pub fn run_timeout_message(seconds: u64) -> (r: String)
    ensures
        r@ == "yt-dlp timed out after "@ + decimal(seconds as nat) + " seconds"@,
{
    let mut r = owned("yt-dlp timed out after ");
    let d = decimal_u64(seconds);
    append(&mut r, d.as_str());
    append(&mut r, " seconds");
    r
}

/// The message of a `yt-dlp` run that could not be started as `command`.
pub fn spawn_failure_message(command: &str) -> (r: String)
    ensures
        r@ == "failed to spawn yt-dlp using resolved command `"@ + command@ + "`"@,
{
    let mut r = owned("failed to spawn yt-dlp using resolved command `");
    append(&mut r, command);
    append(&mut r, "`");
    r
}

/// The message for a download larger than `max` bytes.
pub open spec fn size_limit_message(max: u64) -> Seq<char> {
    "downloaded media exceeded the configured size limit of "@ + decimal(max as nat) + " bytes"@
}

/// Accepts a downloaded file of `size` bytes when it is within `max`.
pub fn check_download_size(size: u64, max: u64) -> (r: Result<(), String>)
    ensures
        size <= max ==> r is Ok,
        size > max ==> (r matches Err(e) && e@ == size_limit_message(max)),
{
    if size > max {
        let mut message = owned("downloaded media exceeded the configured size limit of ");
        let number = decimal_u64(max);
        append(&mut message, number.as_str());
        append(&mut message, " bytes");
        return Err(message);
    }
    Ok(())
}

/// The last line of `pieces` that is not blank, trimmed.
pub open spec fn last_non_blank(pieces: Seq<Seq<char>>) -> Option<Seq<char>>
    decreases pieces.len(),
{
    if pieces.len() == 0 {
        None
    } else if trim(pieces.last()).len() > 0 {
        Some(trim(pieces.last()))
    } else {
        last_non_blank(pieces.drop_last())
    }
}

/// The last non-blank line of `text`, trimmed: what `yt-dlp --print
/// after_move:filepath` prints last. (Splitting at `'\n'` and trimming gives
/// the lines of `str::lines`, trimmed, and one more blank piece when the text
/// ends with a newline.)
pub fn last_reported_path(text: &str) -> (r: Option<String>)
    ensures
        opt_seq(r) == last_non_blank(split(text@, '\n')),
{
    let chars = chars_of(text);
    let pieces = crate::text::split_on(chars.as_slice(), '\n');
    let ghost all = split(text@, '\n');
    let mut i = pieces.len();
    assert(all.take(i as int) =~= all);
    while i > 0
        invariant
            all == split(text@, '\n'),
            i <= pieces@.len() == all.len(),
            forall|k: int| 0 <= k < all.len() ==> (#[trigger] pieces@[k])@ == all[k],
            last_non_blank(all) == last_non_blank(all.take(i as int)),
        decreases i,
    {
        assert(all.take(i as int).drop_last() =~= all.take(i - 1));
        assert(all.take(i as int).last() == all[i - 1]);
        let t = trim_chars(pieces[i - 1].as_slice());
        assert(t@ == trim(all[i - 1]));
        if t.len() > 0 {
            assert(trim(all.take(i as int).last()).len() > 0);
            assert(last_non_blank(all.take(i as int)) == Some(t@));
            let found = string_from_chars(t.as_slice());
            return Some(found);
        }
        i = i - 1;
    }
    None
}

/// The file `yt-dlp` reports it downloaded, or why it cannot be used.
pub open spec fn spec_downloaded_path(text: Seq<char>, temp_dir: Seq<char>) -> Result<
    Seq<char>,
    Seq<char>,
> {
    match last_non_blank(split(text, '\n')) {
        Some(path) => if spec_path_starts_with(path, temp_dir) {
            Ok(path)
        } else {
            Err("yt-dlp reported an unexpected download path outside the temp dir: "@ + path)
        },
        None => Err("yt-dlp did not report a final downloaded filepath"@),
    }
}

/// A path `yt-dlp` reports is stored trimmed, so reading the stored marker
/// back gives the same path, and the media made from it is the media made
/// from the reported path: a later download of the request reuses the file
/// with the same path, name and directory.
pub proof fn lemma_reported_path_round_trips(text: Seq<char>, temp_dir: Seq<char>)
    ensures
        spec_downloaded_path(text, temp_dir) matches Ok(p) ==> trim(p) == p && spec_stored_path(p)
            == p && spec_downloaded_media(temp_dir, spec_stored_path(p)) == spec_downloaded_media(
            temp_dir,
            p,
        ),
{
    lemma_last_non_blank_trimmed(split(text, '\n'));
}

proof fn lemma_last_non_blank_trimmed(pieces: Seq<Seq<char>>)
    ensures
        last_non_blank(pieces) matches Some(p) ==> trim(p) == p,
    decreases pieces.len(),
{
    if pieces.len() > 0 {
        lemma_trim_idempotent(pieces.last());
        lemma_last_non_blank_trimmed(pieces.drop_last());
    }
}

/// The downloaded file that `yt-dlp` reports on `stdout`, which must lie in
/// `temp_dir`.
pub fn extract_downloaded_file_path(stdout: &[u8], temp_dir: &str) -> (r: Result<String, String>)
    ensures
        match spec_downloaded_path(spec_utf8_lossy(stdout@), temp_dir@) {
            Ok(p) => r matches Ok(s) && s@ == p,
            Err(e) => r matches Err(s) && s@ == e,
        },
{
    let text = utf8_lossy(stdout);
    match last_reported_path(text.as_str()) {
        Some(path) => {
            if path_starts_with(path.as_str(), temp_dir) {
                Ok(path)
            } else {
                Err(
                    concat(
                        "yt-dlp reported an unexpected download path outside the temp dir: ",
                        path.as_str(),
                    ),
                )
            }
        },
        None => Err(owned("yt-dlp did not report a final downloaded filepath")),
    }
}

/// One entry of a download directory: its path, its file name when that is
/// valid text, whether it is a regular file, and its size in bytes.
#[derive(Clone, Debug, PartialEq, Eq)]
pub struct DownloadDirEntry {
    pub path: String,
    pub name: Option<String>,
    pub is_file: bool,
    pub size: u64,
}

/// An entry that can be the downloaded media: a regular file whose name is
/// text and is not hidden, partial (`.part`) or a `yt-dlp` state file
/// (`.ytdl`).
pub open spec fn is_media_candidate(e: DownloadDirEntry) -> bool {
    &&& e.is_file
    &&& e.name matches Some(n) && !starts_with(n@, "."@) && !ends_with(n@, ".part"@) && !ends_with(
        n@,
        ".ytdl"@,
    )
}

/// The index of the largest candidate, the first one among equals.
pub open spec fn largest_candidate(entries: Seq<DownloadDirEntry>) -> Option<int>
    decreases entries.len(),
{
    if entries.len() == 0 {
        None
    } else {
        let prev = largest_candidate(entries.drop_last());
        let k = entries.len() - 1;
        if is_media_candidate(entries[k]) {
            match prev {
                Some(j) => if entries[j].size >= entries[k].size {
                    Some(j)
                } else {
                    Some(k)
                },
                None => Some(k),
            }
        } else {
            prev
        }
    }
}

proof fn lemma_largest_candidate_range(entries: Seq<DownloadDirEntry>)
    ensures
        largest_candidate(entries) matches Some(j) ==> 0 <= j < entries.len(),
    decreases entries.len(),
{
    if entries.len() > 0 {
        lemma_largest_candidate_range(entries.drop_last());
    }
}

/// Whether the entry can be the downloaded media.
pub fn media_candidate(e: &DownloadDirEntry) -> (r: bool)
    ensures
        r == is_media_candidate(*e),
{
    if !e.is_file {
        return false;
    }
    match &e.name {
        None => false,
        Some(n) => {
            let v = chars_of(n.as_str());
            let dot = chars_of(".");
            let part = chars_of(".part");
            let ytdl = chars_of(".ytdl");
            !chars_starts_with(v.as_slice(), dot.as_slice()) && !chars_ends_with(
                v.as_slice(),
                part.as_slice(),
            ) && !chars_ends_with(v.as_slice(), ytdl.as_slice())
        },
    }
}

/// The path of the largest file of a download directory that can be the
/// downloaded media (the first one among equals).
pub fn primary_download_file(entries: &Vec<DownloadDirEntry>) -> (r: Option<String>)
    ensures
        match largest_candidate(entries@) {
            Some(j) => r matches Some(p) && p@ == entries@[j].path@,
            None => r is None,
        },
{
    let n = entries.len();
    let mut best: Option<usize> = None;
    for i in 0..n
        invariant
            n == entries@.len(),
            match largest_candidate(entries@.take(i as int)) {
                Some(j) => best == Some(j as usize),
                None => best is None,
            },
    {
        proof {
            lemma_largest_candidate_range(entries@.take(i as int));
        }
        assert(entries@.take(i + 1).drop_last() =~= entries@.take(i as int));
        if media_candidate(&entries[i]) {
            match best {
                Some(j) => {
                    if !(entries[j].size >= entries[i].size) {
                        best = Some(i);
                    }
                },
                None => {
                    best = Some(i);
                },
            }
        }
    }
    assert(entries@.take(n as int) =~= entries@);
    proof {
        lemma_largest_candidate_range(entries@);
    }
    match best {
        Some(j) => Some(entries[j].path.clone()),
        None => None,
    }
}

/// Whether the cleanup holding `token` may delete the download directory: the
/// directory's lease marker, when it could be read, holds that token.
pub open spec fn spec_cleanup_allowed(marker: Option<Seq<char>>, token: Seq<char>) -> bool {
    marker matches Some(m) && trim(m) == token
}

/// Only the latest lease holder cleans up: once the marker holds the latest
/// token (a text without surrounding whitespace), a cleanup may delete the
/// directory exactly when it holds that token.
pub proof fn lemma_cleanup_only_latest_lease(latest: Seq<char>, token: Seq<char>)
    requires
        trim(latest) == latest,
    ensures
        spec_cleanup_allowed(Some(latest), token) <==> token == latest,
{
}

/// Whether the cleanup holding `token` may delete the download directory,
/// given the lease marker's contents (`None` when it could not be read).
pub fn cleanup_allowed(marker: Option<&str>, token: &str) -> (r: bool)
    ensures
        r == spec_cleanup_allowed(
            match marker {
                Some(m) => Some(m@),
                None => None,
            },
            token@,
        ),
{
    match marker {
        Some(m) => {
            let t = crate::text::trim_str(m);
            str_eq(t.as_str(), token)
        },
        None => false,
    }
}

// ---------------------------------------------------------------------------
// Running yt-dlp
// ---------------------------------------------------------------------------

/// The format selector for YouTube: progressive MP4 up to the progressive
/// height cap first; with ffmpeg, then adaptive streams (preferring AVC video
/// and AAC audio) merged up to the adaptive height cap.
pub open spec fn spec_youtube_format(ffmpeg_enabled: bool) -> Seq<char> {
    if ffmpeg_enabled {
        "best[ext=mp4][height<="@ + decimal(YOUTUBE_PROGRESSIVE_MAX_HEIGHT as nat) + "]/best[height<="@ + decimal(YOUTUBE_PROGRESSIVE_MAX_HEIGHT as nat) + "]/bestvideo[ext=mp4][vcodec^=avc1][height<="@ + decimal(YOUTUBE_ADAPTIVE_MAX_HEIGHT as nat) + "]+bestaudio[ext=m4a][acodec^=mp4a]/bestvideo[ext=mp4][height<="@ + decimal(YOUTUBE_ADAPTIVE_MAX_HEIGHT as nat) + "]+bestaudio[ext=m4a]/bestvideo[height<="@ + decimal(YOUTUBE_ADAPTIVE_MAX_HEIGHT as nat) + "]+bestaudio/best[height<="@ + decimal(YOUTUBE_ADAPTIVE_MAX_HEIGHT as nat) + "]/best"@
    } else {
        "best[ext=mp4][height<="@ + decimal(YOUTUBE_PROGRESSIVE_MAX_HEIGHT as nat) + "]/best[height<="@ + decimal(YOUTUBE_PROGRESSIVE_MAX_HEIGHT as nat) + "]/best"@
    }
}

/// The format selector for YouTube.
pub fn youtube_preferred_format(ffmpeg_enabled: bool) -> (r: String)
    ensures
        r@ == spec_youtube_format(ffmpeg_enabled),
{
    let progressive = decimal_u64(YOUTUBE_PROGRESSIVE_MAX_HEIGHT as u64);
    let adaptive = decimal_u64(YOUTUBE_ADAPTIVE_MAX_HEIGHT as u64);
    if !ffmpeg_enabled {
        let mut r = owned("best[ext=mp4][height<=");
        append(&mut r, progressive.as_str());
        append(&mut r, "]/best[height<=");
        append(&mut r, progressive.as_str());
        append(&mut r, "]/best");
        return r;
    }
    let mut r = owned("best[ext=mp4][height<=");
    append(&mut r, progressive.as_str());
    append(&mut r, "]/best[height<=");
    append(&mut r, progressive.as_str());
    append(&mut r, "]/bestvideo[ext=mp4][vcodec^=avc1][height<=");
    append(&mut r, adaptive.as_str());
    append(&mut r, "]+bestaudio[ext=m4a][acodec^=mp4a]/bestvideo[ext=mp4][height<=");
    append(&mut r, adaptive.as_str());
    append(&mut r, "]+bestaudio[ext=m4a]/bestvideo[height<=");
    append(&mut r, adaptive.as_str());
    append(&mut r, "]+bestaudio/best[height<=");
    append(&mut r, adaptive.as_str());
    append(&mut r, "]/best");
    r
}

/// The format selector for a request's provider.
pub open spec fn spec_preferred_format(provider: Seq<char>, ffmpeg_enabled: bool) -> Seq<char> {
    if provider == "spotify"@ || provider == "soundcloud"@ {
        "bestaudio/best"@
    } else if provider == "youtube"@ {
        spec_youtube_format(ffmpeg_enabled)
    } else if provider == "tiktok"@ && ffmpeg_enabled {
        "bestvideo*[format_note!*='watermarked']+bestaudio/best[format_note!*='watermarked']/bestvideo*+bestaudio/best"@
    } else if provider == "tiktok"@ {
        "best*[format_note!*='watermarked']/best"@
    } else if ffmpeg_enabled {
        "bestvideo*+bestaudio/best"@
    } else {
        "best"@
    }
}

/// Spotify and SoundCloud requests download the best audio; TikTok requests
/// avoid watermarked formats; other providers (but YouTube) take the best
/// video and audio to merge with ffmpeg, else the best single file.
pub proof fn lemma_format_by_provider(provider: Seq<char>, ffmpeg_enabled: bool)
    ensures
        (provider == "spotify"@ || provider == "soundcloud"@) ==> spec_preferred_format(
            provider,
            ffmpeg_enabled,
        ) == "bestaudio/best"@,
        provider == "youtube"@ ==> spec_preferred_format(provider, ffmpeg_enabled)
            == spec_youtube_format(ffmpeg_enabled),
        provider == "tiktok"@ ==> spec_preferred_format(provider, ffmpeg_enabled) == (if ffmpeg_enabled {
            "bestvideo*[format_note!*='watermarked']+bestaudio/best[format_note!*='watermarked']/bestvideo*+bestaudio/best"@
        } else {
            "best*[format_note!*='watermarked']/best"@
        }),
        (provider != "spotify"@ && provider != "soundcloud"@ && provider != "youtube"@ && provider
            != "tiktok"@) ==> spec_preferred_format(provider, ffmpeg_enabled) == (if ffmpeg_enabled {
            "bestvideo*+bestaudio/best"@
        } else {
            "best"@
        }),
{
    reveal_strlit("spotify");
    reveal_strlit("soundcloud");
    reveal_strlit("youtube");
    reveal_strlit("tiktok");
    assert("youtube"@[0] != "spotify"@[0]);
    assert("youtube"@.len() != "soundcloud"@.len());
    assert("tiktok"@.len() != "spotify"@.len() && "tiktok"@.len() != "soundcloud"@.len());
    assert("tiktok"@.len() != "youtube"@.len());
}

/// The format selector `yt-dlp` downloads a request with.
pub fn preferred_format(record: &DownloadRequestRecord, ffmpeg_enabled: bool) -> (r: String)
    ensures
        r@ == spec_preferred_format(record.provider@, ffmpeg_enabled),
{
    let provider = record.provider.as_str();
    if str_eq(provider, "spotify") || str_eq(provider, "soundcloud") {
        owned("bestaudio/best")
    } else if str_eq(provider, "youtube") {
        youtube_preferred_format(ffmpeg_enabled)
    } else if str_eq(provider, "tiktok") && ffmpeg_enabled {
        owned(
            "bestvideo*[format_note!*='watermarked']+bestaudio/best[format_note!*='watermarked']/bestvideo*+bestaudio/best",
        )
    } else if str_eq(provider, "tiktok") {
        owned("best*[format_note!*='watermarked']/best")
    } else if ffmpeg_enabled {
        owned("bestvideo*+bestaudio/best")
    } else {
        owned("best")
    }
}

/// The configured ffmpeg location to check, when it is not blank: the value
/// trimmed. It is passed to `yt-dlp` only when a file exists there.
pub fn ffmpeg_location_candidate(value: &str) -> (r: Option<String>)
    ensures
        trim(value@).len() == 0 ==> r is None,
        trim(value@).len() > 0 ==> (r matches Some(s) && s@ == trim(value@)),
{
    let t = crate::text::trim_str(value);
    if t.as_str().is_empty() {
        None
    } else {
        Some(t)
    }
}

/// The command `yt-dlp` is run as, given whether the configured path exists.
pub open spec fn spec_ytdlp_command(path: Seq<char>, path_exists: bool) -> Result<Seq<char>, Seq<char>> {
    if path_exists || spec_path_component_count(path) == 1 {
        Ok(path)
    } else {
        match spec_path_file_name(path) {
            Some(name) => Ok(name),
            None => Err("yt-dlp binary not found at `"@ + path + "`"@),
        }
    }
}

/// The command `yt-dlp` is run as: the configured path when it exists or is
/// a bare command name, else its file name (looked up on `PATH`).
pub fn resolve_ytdlp_command(path: &str, path_exists: bool) -> (r: Result<String, String>)
    ensures
        match spec_ytdlp_command(path@, path_exists) {
            Ok(c) => r matches Ok(s) && s@ == c,
            Err(e) => r matches Err(s) && s@ == e,
        },
{
    if path_exists {
        return Ok(owned(path));
    }
    if path_component_count(path) == 1 {
        return Ok(owned(path));
    }
    match path_file_name(path) {
        Some(name) => Ok(name),
        None => {
            let mut message = owned("yt-dlp binary not found at `");
            append(&mut message, path);
            append(&mut message, "`");
            Err(message)
        },
    }
}

/// The strings' characters.
pub open spec fn strings_view(v: Seq<String>) -> Seq<Seq<char>> {
    v.map_values(|s: String| s@)
}

/// The arguments of the metadata run of `yt-dlp` for `source_url`.
pub open spec fn spec_metadata_args(source_url: Seq<char>) -> Seq<Seq<char>> {
    seq!["--dump-single-json"@, "--no-playlist"@, "--skip-download"@, "--no-warnings"@, source_url]
}

/// The arguments of the metadata run of `yt-dlp` for `source_url`.
pub fn metadata_args(source_url: &str) -> (r: Vec<String>)
    ensures
        strings_view(r@) == spec_metadata_args(source_url@),
{
    let mut r: Vec<String> = Vec::new();
    r.push(owned("--dump-single-json"));
    r.push(owned("--no-playlist"));
    r.push(owned("--skip-download"));
    r.push(owned("--no-warnings"));
    r.push(owned(source_url));
    assert(strings_view(r@) =~= spec_metadata_args(source_url@));
    r
}

/// The output template of downloads.
pub open spec fn output_template() -> Seq<char> {
    "%(title).180B [%(id)s].%(ext)s"@
}

/// The arguments of the download run of `yt-dlp` for a request: its format,
/// the size limit, the ffmpeg options when ffmpeg is enabled, the final path
/// printed after the move, the directory, the template and the link.
pub open spec fn spec_download_args(
    format: Seq<char>,
    max_bytes: u64,
    ffmpeg_enabled: bool,
    ffmpeg_location: Option<Seq<char>>,
    temp_dir: Seq<char>,
    source_url: Seq<char>,
) -> Seq<Seq<char>> {
    let head = seq![
        "--no-playlist"@,
        "--no-warnings"@,
        "--no-progress"@,
        "--restrict-filenames"@,
        "-f"@,
        format,
        "--max-filesize"@,
        decimal(max_bytes as nat),
    ];
    let ffmpeg = if ffmpeg_enabled {
        match ffmpeg_location {
            Some(loc) => seq!["--ffmpeg-location"@, loc, "--merge-output-format"@, "mp4"@],
            None => seq!["--merge-output-format"@, "mp4"@],
        }
    } else {
        Seq::empty()
    };
    let tail = seq![
        "--print"@,
        "after_move:filepath"@,
        "-P"@,
        temp_dir,
        "-o"@,
        output_template(),
        source_url,
    ];
    head + ffmpeg + tail
}

/// What the download arguments hold: the format after `-f` and the size limit
/// after `--max-filesize`; when ffmpeg is enabled, `--merge-output-format mp4`
/// whether or not a location is passed, and `--ffmpeg-location <loc>` when
/// one is; without ffmpeg, neither; and the link last.
pub proof fn lemma_download_args_contents(
    format: Seq<char>,
    max_bytes: u64,
    ffmpeg_enabled: bool,
    ffmpeg_location: Option<Seq<char>>,
    temp_dir: Seq<char>,
    source_url: Seq<char>,
)
    ensures
        ({
            let a = spec_download_args(
                format,
                max_bytes,
                ffmpeg_enabled,
                ffmpeg_location,
                temp_dir,
                source_url,
            );
            &&& a[4] == "-f"@ && a[5] == format
            &&& a[6] == "--max-filesize"@ && a[7] == decimal(max_bytes as nat)
            &&& a.len() > 0 && a[a.len() - 1] == source_url
            &&& ffmpeg_enabled ==> exists|i: int|
                0 <= i && i + 1 < a.len() && #[trigger] a[i] == "--merge-output-format"@ && a[i + 1]
                    == "mp4"@
            &&& (ffmpeg_enabled && ffmpeg_location is Some) ==> exists|i: int|
                0 <= i && i + 1 < a.len() && #[trigger] a[i] == "--ffmpeg-location"@ && a[i + 1]
                    == ffmpeg_location->Some_0
            &&& !ffmpeg_enabled ==> a.len() == 15
            &&& ffmpeg_enabled ==> a.len() == (if ffmpeg_location is Some { 19int } else { 17int })
        }),
{
    let a = spec_download_args(format, max_bytes, ffmpeg_enabled, ffmpeg_location, temp_dir, source_url);
    if ffmpeg_enabled {
        match ffmpeg_location {
            Some(loc) => {
                assert(a[8] == "--ffmpeg-location"@ && a[9] == loc);
                assert(a[10] == "--merge-output-format"@ && a[11] == "mp4"@);
            },
            None => {
                assert(a[8] == "--merge-output-format"@ && a[9] == "mp4"@);
            },
        }
    }
}

/// The arguments of the download run of `yt-dlp` for `record`, saving into
/// `temp_dir`, given the ffmpeg location to pass (one that exists).
pub fn download_args(
    env: &Environment,
    record: &DownloadRequestRecord,
    temp_dir: &str,
    ffmpeg_location: Option<&str>,
) -> (r: Vec<String>)
    ensures
        strings_view(r@) == spec_download_args(
            spec_preferred_format(record.provider@, env.ffmpeg_enabled),
            env.max_download_bytes,
            env.ffmpeg_enabled,
            match ffmpeg_location {
                Some(l) => Some(l@),
                None => None,
            },
            temp_dir@,
            record.source_url@,
        ),
{
    let format = preferred_format(record, env.ffmpeg_enabled);
    let ghost format_view = format@;
    let mut r: Vec<String> = Vec::new();
    r.push(owned("--no-playlist"));
    r.push(owned("--no-warnings"));
    r.push(owned("--no-progress"));
    r.push(owned("--restrict-filenames"));
    r.push(owned("-f"));
    r.push(format);
    r.push(owned("--max-filesize"));
    r.push(decimal_u64(env.max_download_bytes));
    if env.ffmpeg_enabled {
        if let Some(loc) = ffmpeg_location {
            r.push(owned("--ffmpeg-location"));
            r.push(owned(loc));
        }
        r.push(owned("--merge-output-format"));
        r.push(owned("mp4"));
    }
    r.push(owned("--print"));
    r.push(owned("after_move:filepath"));
    r.push(owned("-P"));
    r.push(owned(temp_dir));
    r.push(owned("-o"));
    r.push(owned("%(title).180B [%(id)s].%(ext)s"));
    r.push(owned(record.source_url.as_str()));
    assert(strings_view(r@) =~= spec_download_args(
        format_view,
        env.max_download_bytes,
        env.ffmpeg_enabled,
        match ffmpeg_location {
            Some(l) => Some(l@),
            None => None,
        },
        temp_dir@,
        record.source_url@,
    ));
    r
}

// ---------------------------------------------------------------------------
// Failures
// ---------------------------------------------------------------------------

/// What kind of failure a `yt-dlp` error reports.
#[derive(Clone, Copy, Debug, PartialEq, Eq, Structural)]
pub enum YtDlpFailureKind {
    AuthenticationRequired,
    DrmProtected,
    Unsupported,
    Unavailable,
    Temporary,
}

/// The kind of a failure, by what its (lowercased) message mentions: DRM;
/// else signing in, logging in, cookies or authentication; else an
/// unsupported URL; else an unavailable, private, removed or missing video;
/// anything else is taken to be temporary.
pub open spec fn spec_classify_failure(message: Seq<char>) -> YtDlpFailureKind {
    let m = lowercase(message);
    if contains(m, "drm"@) {
        YtDlpFailureKind::DrmProtected
    } else if contains(m, "sign in"@) || contains(m, "login"@) || contains(m, "log in"@) || contains(
        m,
        "cookies"@,
    ) || contains(m, "authentication"@) {
        YtDlpFailureKind::AuthenticationRequired
    } else if contains(m, "unsupported url"@) {
        YtDlpFailureKind::Unsupported
    } else if contains(m, "video unavailable"@) || contains(m, "private"@) || contains(m, "removed"@)
        || contains(m, "not available"@) || contains(m, "does not exist"@) {
        YtDlpFailureKind::Unavailable
    } else {
        YtDlpFailureKind::Temporary
    }
}

/// A message mentioning DRM (in any letter case) is a DRM failure; one that
/// mentions none of the words the classes look for is temporary.
pub proof fn lemma_failure_classes(message: Seq<char>)
    ensures
        contains(lowercase(message), "drm"@) ==> spec_classify_failure(message)
            == YtDlpFailureKind::DrmProtected,
        (!contains(lowercase(message), "drm"@) && contains(lowercase(message), "cookies"@))
            ==> spec_classify_failure(message) == YtDlpFailureKind::AuthenticationRequired,
        (!contains(lowercase(message), "drm"@) && !contains(lowercase(message), "sign in"@)
            && !contains(lowercase(message), "login"@) && !contains(lowercase(message), "log in"@)
            && !contains(lowercase(message), "cookies"@) && !contains(
            lowercase(message),
            "authentication"@,
        ) && !contains(lowercase(message), "unsupported url"@) && !contains(
            lowercase(message),
            "video unavailable"@,
        ) && !contains(lowercase(message), "private"@) && !contains(lowercase(message), "removed"@)
            && !contains(lowercase(message), "not available"@) && !contains(
            lowercase(message),
            "does not exist"@,
        )) ==> spec_classify_failure(message) == YtDlpFailureKind::Temporary,
{
}

/// The kind of failure an error message reports.
pub fn classify_failure(message: &str) -> (r: YtDlpFailureKind)
    ensures
        r == spec_classify_failure(message@),
{
    let lower = ascii_lowercase(message);
    let m = lower.as_str();
    if str_contains(m, "drm") {
        YtDlpFailureKind::DrmProtected
    } else if str_contains(m, "sign in") || str_contains(m, "login") || str_contains(m, "log in")
        || str_contains(m, "cookies") || str_contains(m, "authentication") {
        YtDlpFailureKind::AuthenticationRequired
    } else if str_contains(m, "unsupported url") {
        YtDlpFailureKind::Unsupported
    } else if str_contains(m, "video unavailable") || str_contains(m, "private") || str_contains(
        m,
        "removed",
    ) || str_contains(m, "not available") || str_contains(m, "does not exist") {
        YtDlpFailureKind::Unavailable
    } else {
        YtDlpFailureKind::Temporary
    }
}

} // verus!
