//! Provider fallbacks used when `yt-dlp` cannot serve a link: the TikWM API
//! for TikTok and Instagram's oEmbed endpoint. The requests themselves are
//! made by the application; this module decides what to ask and what the
//! answers mean.
use vstd::prelude::*;

use crate::config::environment::Environment;
use crate::module::processing::model::{DownloadRequestRecord, PROVIDER_INSTAGRAM, PROVIDER_TIKTOK};
use crate::net::{parse_url, spec_url_parses, spec_url_path_segments, spec_url_with_pair, url_with_query_pair};
use crate::paths::{path_file_name, path_join, spec_path_file_name, spec_path_join};
use crate::service::yt_dlp::{
    media_view, metadata_view, opt_seq, request_dir, spec_request_dir, DownloadedMedia,
    ExtractedMediaMetadata,
};
use crate::text::{
    append, ascii_lowercase, chars_of, concat, contains, decimal, decimal_u64, lowercase, owned,
    str_contains, str_eq, string_from_chars, trim, trim_chars,
};

verus! {

pub const TIKTOK_FALLBACK_EXTRACTOR: &'static str = "TikWM";
pub const INSTAGRAM_OEMBED_EXTRACTOR: &'static str = "InstagramOEmbed";

/// The answer of the TikWM API.
#[derive(Debug, PartialEq, Eq)]
pub struct TikwmResponse {
    pub code: i64,
    pub msg: Option<String>,
    pub data: Option<TikwmData>,
}

/// What the TikWM API reports of a TikTok video.
#[derive(Debug, PartialEq, Eq)]
pub struct TikwmData {
    pub id: String,
    pub title: Option<String>,
    pub cover: Option<String>,
    pub origin_cover: Option<String>,
    pub duration: Option<i64>,
    pub play: Option<String>,
    pub author: Option<TikwmAuthor>,
}

/// The author of a TikTok video, as TikWM reports it.
#[derive(Debug, PartialEq, Eq)]
pub struct TikwmAuthor {
    pub unique_id: Option<String>,
    pub nickname: Option<String>,
}

/// The answer of Instagram's oEmbed endpoint.
#[derive(Debug, PartialEq, Eq)]
pub struct InstagramOembedResponse {
    pub title: Option<String>,
    pub author_name: Option<String>,
    pub thumbnail_url: Option<String>,
}

// ---------------------------------------------------------------------------
// Small text rules
// ---------------------------------------------------------------------------

/// The value trimmed, when it is present and not blank.
pub open spec fn spec_non_empty(value: Option<Seq<char>>) -> Option<Seq<char>> {
    match value {
        Some(v) => if trim(v).len() > 0 {
            Some(trim(v))
        } else {
            None
        },
        None => None,
    }
}

/// The value trimmed, when it is present and not blank.
pub fn non_empty(value: Option<&str>) -> (r: Option<String>)
    ensures
        opt_seq(r) == spec_non_empty(
            match value {
                Some(v) => Some(v@),
                None => None,
            },
        ),
{
    match value {
        Some(v) => {
            let t = crate::text::trim_str(v);
            if t.as_str().is_empty() {
                None
            } else {
                Some(t)
            }
        },
        None => None,
    }
}

/// A character kept in file names: ASCII letters and digits, `-` and `_`.
pub open spec fn filename_safe(c: char) -> bool {
    ('a' <= c && c <= 'z') || ('A' <= c && c <= 'Z') || ('0' <= c && c <= '9') || c == '-' || c
        == '_'
}

/// `value` with each character that is not kept in file names replaced by
/// `_`, or `media` when `value` is empty.
pub open spec fn spec_sanitize(value: Seq<char>) -> Seq<char> {
    if value.len() == 0 {
        "media"@
    } else {
        Seq::new(value.len(), |i: int| if filename_safe(value[i]) { value[i] } else { '_' })
    }
}

/// `value` made safe for use in a file name.
pub fn sanitize_filename_part(value: &str) -> (r: String)
    ensures
        r@ == spec_sanitize(value@),
{
    let v = chars_of(value);
    let n = v.len();
    let mut out: Vec<char> = Vec::new();
    for i in 0..n
        invariant
            n == v@.len(),
            v@ == value@,
            out@ == Seq::new(i as nat, |k: int| if filename_safe(value@[k]) { value@[k] } else { '_' }),
    {
        let c = v[i];
        let safe = ('a' <= c && c <= 'z') || ('A' <= c && c <= 'Z') || ('0' <= c && c <= '9') || c
            == '-' || c == '_';
        out.push(if safe { c } else { '_' });
        assert(out@ =~= Seq::new((i + 1) as nat, |k: int| if filename_safe(value@[k]) { value@[k] } else { '_' }));
    }
    if n == 0 {
        return owned("media");
    }
    string_from_chars(out.as_slice())
}

/// A sanitized part is never empty, holds only characters kept in file
/// names, and sanitizing it again changes nothing.
pub proof fn lemma_sanitize_safe(value: Seq<char>)
    ensures
        spec_sanitize(value).len() > 0,
        forall|i: int| 0 <= i < spec_sanitize(value).len() ==> filename_safe(
            #[trigger] spec_sanitize(value)[i],
        ),
        spec_sanitize(spec_sanitize(value)) == spec_sanitize(value),
{
    reveal_strlit("media");
    let s = spec_sanitize(value);
    assert forall|i: int| 0 <= i < s.len() implies filename_safe(#[trigger] s[i]) by {
        if value.len() == 0 {
            assert("media"@[i] == 'm' || "media"@[i] == 'e' || "media"@[i] == 'd' || "media"@[i] == 'i'
                || "media"@[i] == 'a');
        }
    }
    assert(spec_sanitize(s) =~= s);
}

// ---------------------------------------------------------------------------
// TikTok through TikWM
// ---------------------------------------------------------------------------

/// The TikTok page of the video, when its author's handle is known.
pub open spec fn spec_tiktok_webpage_url(data: TikwmData) -> Option<Seq<char>> {
    match data.author {
        Some(author) => match spec_non_empty(opt_seq(author.unique_id)) {
            Some(name) => Some("https://www.tiktok.com/@"@ + name + "/video/"@ + data.id@),
            None => None,
        },
        None => None,
    }
}

/// The TikTok page of the video, when its author's handle is known.
pub fn tiktok_webpage_url(data: &TikwmData) -> (r: Option<String>)
    ensures
        opt_seq(r) == spec_tiktok_webpage_url(*data),
{
    let author = match &data.author {
        Some(a) => a,
        None => return None,
    };
    let handle = match &author.unique_id {
        Some(u) => non_empty(Some(u.as_str())),
        None => non_empty(None),
    };
    match handle {
        Some(name) => {
            let mut url = owned("https://www.tiktok.com/@");
            append(&mut url, name.as_str());
            append(&mut url, "/video/");
            append(&mut url, data.id.as_str());
            Some(url)
        },
        None => None,
    }
}

/// The metadata TikWM's report gives of `source_url`.
pub open spec fn spec_tiktok_metadata(data: TikwmData, source_url: Seq<char>) -> (
    Seq<char>,
    Option<Seq<char>>,
    Option<i64>,
    Option<Seq<char>>,
    Option<Seq<char>>,
    Seq<char>,
) {
    (
        match spec_non_empty(opt_seq(data.title)) {
            Some(t) => t,
            None => "TikTok video "@ + data.id@,
        },
        match data.cover {
            Some(c) => Some(c@),
            None => opt_seq(data.origin_cover),
        },
        data.duration,
        match data.author {
            Some(a) => match spec_non_empty(opt_seq(a.unique_id)) {
                Some(u) => Some(u),
                None => opt_seq(a.nickname),
            },
            None => None,
        },
        Some("TikWM"@),
        match spec_tiktok_webpage_url(data) {
            Some(u) => u,
            None => source_url,
        },
    )
}

/// The metadata of a TikWM report: the cover as thumbnail, else the original
/// cover; the report's duration; the `TikWM` extractor; the title trimmed
/// when it is not blank, else `TikTok video <id>`; the author's trimmed handle
/// when it is not blank, else the nickname; and the video's page when the
/// handle is known, else the submitted link.
pub proof fn lemma_tiktok_metadata_fields(data: TikwmData, source_url: Seq<char>)
    ensures
        ({
            let m = spec_tiktok_metadata(data, source_url);
            &&& m.1 == (match data.cover {
                Some(c) => Some(c@),
                None => opt_seq(data.origin_cover),
            })
            &&& m.2 == data.duration
            &&& m.4 == Some("TikWM"@)
            &&& m.0 == (match data.title {
                Some(t) => if trim(t@).len() > 0 {
                    trim(t@)
                } else {
                    "TikTok video "@ + data.id@
                },
                None => "TikTok video "@ + data.id@,
            })
            &&& (data.author matches Some(a) && a.unique_id matches Some(u) && trim(u@).len() > 0) ==> (
            m.3 == Some(trim(data.author->Some_0.unique_id->Some_0@)) && m.5 == "https://www.tiktok.com/@"@
                + trim(data.author->Some_0.unique_id->Some_0@) + "/video/"@ + data.id@)
            &&& data.author is None ==> m.3 is None && m.5 == source_url
        }),
{
}

/// The metadata TikWM's report gives of `source_url`: its title (or a
/// generic one), cover, duration, the author's handle (or nickname) and the
/// video's page.
pub fn extract_tiktok_metadata(data: TikwmData, source_url: &str) -> (r: ExtractedMediaMetadata)
    ensures
        metadata_view(r) == spec_tiktok_metadata(data, source_url@),
{
    proof {
        reveal_strlit("TikWM");
    }
    let title_text = match &data.title {
        Some(t) => non_empty(Some(t.as_str())),
        None => non_empty(None),
    };
    let title = match title_text {
        Some(t) => t,
        None => concat("TikTok video ", data.id.as_str()),
    };
    let webpage_url = match tiktok_webpage_url(&data) {
        Some(u) => u,
        None => owned(source_url),
    };
    let uploader = match &data.author {
        Some(author) => {
            let handle = match &author.unique_id {
                Some(u) => non_empty(Some(u.as_str())),
                None => non_empty(None),
            };
            match handle {
                Some(h) => Some(h),
                None => match &author.nickname {
                    Some(n) => Some(n.clone()),
                    None => None,
                },
            }
        },
        None => None,
    };
    let thumbnail_url = match data.cover {
        Some(c) => Some(c),
        None => data.origin_cover,
    };
    ExtractedMediaMetadata {
        title,
        thumbnail_url,
        duration_seconds: data.duration,
        uploader,
        extractor: Some(owned(TIKTOK_FALLBACK_EXTRACTOR)),
        webpage_url,
    }
}

/// The TikWM request for `source_url`: the configured API URL with the query
/// pair `url=<source_url>`.
pub fn tiktok_fallback_request_url(api_url: &str, source_url: &str) -> (r: Result<String, String>)
    ensures
        spec_url_parses(api_url@) ==> (r matches Ok(u) && u@ == spec_url_with_pair(
            api_url@,
            "url"@,
            source_url@,
        )),
        !spec_url_parses(api_url@) ==> (r matches Err(e) && e@ == "invalid TIKTOK_FALLBACK_API_URL `"@
            + api_url@ + "`"@),
{
    match url_with_query_pair(api_url, "url", source_url) {
        Some(u) => Ok(u),
        None => {
            let mut message = owned("invalid TIKTOK_FALLBACK_API_URL `");
            append(&mut message, api_url);
            append(&mut message, "`");
            Err(message)
        },
    }
}

/// What to do after one answer of the TikWM API: stop with data or an error,
/// or ask once more, after a pause when the API reported a rate limit.
#[derive(Debug, PartialEq, Eq)]
pub enum TikwmStep {
    Done(Result<TikwmData, String>),
    Retry { sleep_millis: u64 },
}

/// The message of a failed TikWM answer.
pub open spec fn tikwm_failure_message(msg: Option<Seq<char>>) -> Seq<char> {
    "TikTok fallback failed: "@ + match msg {
        Some(m) => m,
        None => "unknown fallback error"@,
    }
}

/// The pause before retrying a failed TikWM request: 1200 ms when the
/// message mentions a limit, none otherwise.
pub open spec fn tikwm_retry_pause(msg: Option<Seq<char>>) -> u64 {
    if contains(
        lowercase(
            match msg {
                Some(m) => m,
                None => "unknown fallback error"@,
            },
        ),
        "limit"@,
    ) {
        1200
    } else {
        0
    }
}

/// The number of TikWM requests made for one link at most.
pub const TIKWM_ATTEMPTS: u32 = 2;

/// What to do after the answer to TikWM request number `attempt` (counting
/// from 0): success stops with the data; a failure is retried while attempts
/// remain (after a 1200 ms pause when the message mentions a limit), and the
/// last failure stops with its message.
pub fn tikwm_attempt(attempt: u32, payload: TikwmResponse) -> (r: TikwmStep)
    requires
        attempt < TIKWM_ATTEMPTS,
    ensures
        payload.code == 0 ==> match payload.data {
            Some(d) => r == TikwmStep::Done(Ok(d)),
            None => (r matches TikwmStep::Done(Err(e)) && e@
                == "TikTok fallback returned success without data"@),
        },
        payload.code != 0 && attempt + 1 < TIKWM_ATTEMPTS ==> (r == (TikwmStep::Retry {
            sleep_millis: tikwm_retry_pause(opt_seq(payload.msg)),
        })),
        payload.code != 0 && attempt + 1 >= TIKWM_ATTEMPTS ==> (r matches TikwmStep::Done(Err(e))
            && e@ == tikwm_failure_message(opt_seq(payload.msg))),
{
    if payload.code == 0 {
        return match payload.data {
            Some(d) => TikwmStep::Done(Ok(d)),
            None => TikwmStep::Done(Err(owned("TikTok fallback returned success without data"))),
        };
    }
    let message = match payload.msg {
        Some(m) => m,
        None => owned("unknown fallback error"),
    };
    if attempt + 1 < TIKWM_ATTEMPTS {
        let lower = ascii_lowercase(message.as_str());
        let sleep_millis: u64 = if str_contains(lower.as_str(), "limit") {
            1200
        } else {
            0
        };
        return TikwmStep::Retry { sleep_millis };
    }
    TikwmStep::Done(Err(concat("TikTok fallback failed: ", message.as_str())))
}

/// What a direct TikTok download fetches and where it saves it.
#[derive(Debug, PartialEq, Eq)]
pub struct TiktokDownloadPlan {
    pub media_url: String,
    pub filename: String,
    pub part_filename: String,
}

/// The file name of a direct TikTok download of video `id`.
pub open spec fn tiktok_filename(id: Seq<char>) -> Seq<char> {
    "tiktok_"@ + spec_sanitize(id) + ".mp4"@
}

/// The plan of a direct TikTok download: the no-watermark media URL that
/// TikWM reported, `tiktok_<id>.mp4` and its `.part` file.
pub fn tiktok_direct_plan(data: &TikwmData) -> (r: Result<TiktokDownloadPlan, String>)
    ensures
        match data.play {
            Some(p) => if trim(p@).len() > 0 {
                r matches Ok(plan) && plan.media_url@ == p@ && plan.filename@ == tiktok_filename(
                    data.id@,
                ) && plan.part_filename@ == tiktok_filename(data.id@) + ".part"@
            } else {
                r matches Err(e) && e@ == "TikTok fallback did not return a no-watermark media URL"@
            },
            None => r matches Err(e) && e@
                == "TikTok fallback did not return a no-watermark media URL"@,
        },
{
    let media_url = match &data.play {
        Some(p) => {
            let chars = chars_of(p.as_str());
            let t = trim_chars(chars.as_slice());
            if t.len() == 0 {
                return Err(owned("TikTok fallback did not return a no-watermark media URL"));
            }
            p.clone()
        },
        None => return Err(owned("TikTok fallback did not return a no-watermark media URL")),
    };
    let mut filename = owned("tiktok_");
    let safe = sanitize_filename_part(data.id.as_str());
    append(&mut filename, safe.as_str());
    append(&mut filename, ".mp4");
    let part_filename = concat(filename.as_str(), ".part");
    Ok(TiktokDownloadPlan { media_url, filename, part_filename })
}

/// Where a direct TikTok download of request `id` goes: the media it returns
/// (its file in the request's directory) and the `.part` file written first.
#[derive(Debug, PartialEq, Eq)]
pub struct TiktokDownloadTarget {
    pub media: DownloadedMedia,
    pub part_path: String,
}

/// Where the direct download planned by `plan` for request `id` goes: in the
/// request's directory, the planned file (returned under its planned name)
/// and its `.part` file.
pub fn tiktok_download_target(env: &Environment, id: u128, plan: &TiktokDownloadPlan) -> (r:
    TiktokDownloadTarget)
    ensures
        r.media.temp_dir@ == spec_request_dir(env.temp_dir@, id),
        r.media.path@ == spec_path_join(spec_request_dir(env.temp_dir@, id), plan.filename@),
        r.media.filename@ == plan.filename@,
        r.part_path@ == spec_path_join(spec_request_dir(env.temp_dir@, id), plan.part_filename@),
{
    let dir = request_dir(env, id);
    let path = path_join(dir.as_str(), plan.filename.as_str());
    let part_path = path_join(dir.as_str(), plan.part_filename.as_str());
    TiktokDownloadTarget {
        media: DownloadedMedia { filename: owned(plan.filename.as_str()), path, temp_dir: dir },
        part_path,
    }
}

// ---------------------------------------------------------------------------
// Instagram through oEmbed
// ---------------------------------------------------------------------------

/// A path segment after which Instagram links carry the media shortcode.
pub open spec fn is_media_marker(s: Seq<char>) -> bool {
    s == "p"@ || s == "reel"@ || s == "reels"@ || s == "tv"@
}

/// `segs[k]` is the first marker segment.
pub open spec fn first_marker_at(segs: Seq<Seq<char>>, k: int) -> bool {
    &&& 0 <= k < segs.len()
    &&& is_media_marker(segs[k])
    &&& forall|j: int| 0 <= j < k ==> !is_media_marker(#[trigger] segs[j])
}

/// The shortcode in a link's path segments: the segment after the first
/// marker segment, when that one is present and not empty.
pub open spec fn spec_shortcode(segs: Seq<Seq<char>>) -> Option<Seq<char>> {
    if exists|k: int| first_marker_at(segs, k) {
        let k = choose|k: int| first_marker_at(segs, k);
        if k + 1 < segs.len() && segs[k + 1].len() > 0 {
            Some(segs[k + 1])
        } else {
            None
        }
    } else {
        None
    }
}

/// Whether `s` is a marker segment.
fn media_marker(s: &str) -> (r: bool)
    ensures
        r == is_media_marker(s@),
{
    str_eq(s, "p") || str_eq(s, "reel") || str_eq(s, "reels") || str_eq(s, "tv")
}

/// The shortcode in a link's path segments (see [`spec_shortcode`]).
pub fn shortcode_from_segments(segments: &Vec<String>) -> (r: Option<String>)
    ensures
        opt_seq(r) == spec_shortcode(segments@.map_values(|s: String| s@)),
{
    let ghost segs = segments@.map_values(|s: String| s@);
    let n = segments.len();
    let mut i: usize = 0;
    while i < n && !media_marker(segments[i].as_str())
        invariant
            i <= n == segments@.len(),
            segs == segments@.map_values(|s: String| s@),
            forall|j: int| 0 <= j < i ==> !is_media_marker(#[trigger] segs[j]),
        decreases n - i,
    {
        i = i + 1;
    }
    if i == n {
        assert(!exists|k: int| first_marker_at(segs, k)) by {
            if exists|k: int| first_marker_at(segs, k) {
                let k = choose|k: int| first_marker_at(segs, k);
                assert(!is_media_marker(segs[k]));
            }
        }
        return None;
    }
    assert(first_marker_at(segs, i as int));
    let ghost c = choose|c: int| first_marker_at(segs, c);
    assert(c == i) by {
        if c < i {
            assert(!is_media_marker(segs[c]));
        } else if c > i {
            assert(!is_media_marker(segs[i as int]));
        }
    }
    if i + 1 < n && !segments[i + 1].as_str().is_empty() {
        Some(segments[i + 1].clone())
    } else {
        None
    }
}

/// The shortcode of an Instagram link, read from the path segments of the
/// URL that `Url::parse` makes of it.
pub open spec fn spec_instagram_shortcode(source_url: Seq<char>) -> Option<Seq<char>> {
    if spec_url_parses(source_url) {
        match spec_url_path_segments(source_url) {
            Some(segs) => spec_shortcode(segs),
            None => None,
        }
    } else {
        None
    }
}

/// The shortcode of an Instagram link (`/p/<code>`, `/reel/<code>`,
/// `/reels/<code>` or `/tv/<code>`).
pub fn instagram_shortcode(source_url: &str) -> (r: Option<String>)
    ensures
        opt_seq(r) == spec_instagram_shortcode(source_url@),
{
    let url = match parse_url(source_url) {
        Some(u) => u,
        None => return None,
    };
    match &url.path_segments {
        Some(segs) => shortcode_from_segments(segs),
        None => None,
    }
}

/// The address of Instagram's oEmbed endpoint.
pub open spec fn oembed_endpoint() -> Seq<char> {
    "https://i.instagram.com/api/v1/oembed/"@
}

/// The canonical page of the media with `shortcode`.
pub open spec fn instagram_media_url(shortcode: Seq<char>) -> Seq<char> {
    "https://www.instagram.com/p/"@ + shortcode + "/"@
}

/// The oEmbed request for an Instagram link: its shortcode and the endpoint
/// with the query pair `url=<canonical page>`.
pub fn instagram_oembed_request(source_url: &str) -> (r: Result<(String, String), String>)
    ensures
        match spec_instagram_shortcode(source_url@) {
            Some(code) => if spec_url_parses(oembed_endpoint()) {
                r matches Ok((c, u)) && c@ == code && u@ == spec_url_with_pair(
                    oembed_endpoint(),
                    "url"@,
                    instagram_media_url(code),
                )
            } else {
                r matches Err(e) && e@ == "hard-coded Instagram oEmbed URL should be valid"@
            },
            None => r matches Err(e) && e@ == "failed to parse Instagram shortcode from URL"@,
        },
{
    let shortcode = match instagram_shortcode(source_url) {
        Some(c) => c,
        None => return Err(owned("failed to parse Instagram shortcode from URL")),
    };
    let mut media_url = owned("https://www.instagram.com/p/");
    append(&mut media_url, shortcode.as_str());
    append(&mut media_url, "/");
    match url_with_query_pair("https://i.instagram.com/api/v1/oembed/", "url", media_url.as_str()) {
        Some(u) => Ok((shortcode, u)),
        None => Err(owned("hard-coded Instagram oEmbed URL should be valid")),
    }
}

/// The metadata an oEmbed answer gives of an Instagram link.
pub open spec fn spec_instagram_metadata(
    payload: InstagramOembedResponse,
    shortcode: Seq<char>,
    source_url: Seq<char>,
) -> (Seq<char>, Option<Seq<char>>, Option<i64>, Option<Seq<char>>, Option<Seq<char>>, Seq<char>) {
    (
        match spec_non_empty(opt_seq(payload.title)) {
            Some(t) => t,
            None => "Instagram media "@ + shortcode,
        },
        opt_seq(payload.thumbnail_url),
        None,
        opt_seq(payload.author_name),
        Some("InstagramOEmbed"@),
        source_url,
    )
}

/// The metadata of an oEmbed answer carries the answer's thumbnail and
/// author unchanged, no duration, the `InstagramOEmbed` extractor and the
/// submitted link as its page; its title is the answer's trimmed title when
/// that is not blank, else `Instagram media <shortcode>`.
pub proof fn lemma_instagram_metadata_fields(
    payload: InstagramOembedResponse,
    shortcode: Seq<char>,
    source_url: Seq<char>,
)
    ensures
        ({
            let m = spec_instagram_metadata(payload, shortcode, source_url);
            &&& m.1 == opt_seq(payload.thumbnail_url)
            &&& m.2 is None
            &&& m.3 == opt_seq(payload.author_name)
            &&& m.4 == Some("InstagramOEmbed"@)
            &&& m.5 == source_url
            &&& m.0 == (match payload.title {
                Some(t) => if trim(t@).len() > 0 {
                    trim(t@)
                } else {
                    "Instagram media "@ + shortcode
                },
                None => "Instagram media "@ + shortcode,
            })
        }),
{
}

/// The metadata an oEmbed answer gives of an Instagram link: its title (or a
/// generic one), thumbnail and author; no duration.
pub fn extract_instagram_oembed_metadata(
    payload: InstagramOembedResponse,
    shortcode: &str,
    source_url: &str,
) -> (r: ExtractedMediaMetadata)
    ensures
        metadata_view(r) == spec_instagram_metadata(payload, shortcode@, source_url@),
{
    proof {
        reveal_strlit("InstagramOEmbed");
    }
    let title_text = match &payload.title {
        Some(t) => non_empty(Some(t.as_str())),
        None => non_empty(None),
    };
    let title = match title_text {
        Some(t) => t,
        None => concat("Instagram media ", shortcode),
    };
    ExtractedMediaMetadata {
        title,
        thumbnail_url: payload.thumbnail_url,
        duration_seconds: None,
        uploader: payload.author_name,
        extractor: Some(owned(INSTAGRAM_OEMBED_EXTRACTOR)),
        webpage_url: owned(source_url),
    }
}

// ---------------------------------------------------------------------------
// Which fallback applies
// ---------------------------------------------------------------------------

/// A provider fallback for metadata.
#[derive(Clone, Copy, Debug, PartialEq, Eq, Structural)]
pub enum MetadataFallback {
    Tiktok,
    InstagramOembed,
}

/// The metadata fallback for `provider`, when one applies and is enabled.
pub open spec fn spec_metadata_fallback(env: &Environment, provider: Seq<char>) -> Option<
    MetadataFallback,
> {
    if provider == "tiktok"@ && env.tiktok_fallback_enabled {
        Some(MetadataFallback::Tiktok)
    } else if provider == "instagram"@ && env.instagram_oembed_fallback_enabled {
        Some(MetadataFallback::InstagramOembed)
    } else {
        None
    }
}

/// The metadata fallback for `provider`, when one applies and is enabled.
pub fn metadata_fallback(env: &Environment, provider: &str) -> (r: Option<MetadataFallback>)
    ensures
        r == spec_metadata_fallback(env, provider@),
{
    if str_eq(provider, PROVIDER_TIKTOK) && env.tiktok_fallback_enabled {
        Some(MetadataFallback::Tiktok)
    } else if str_eq(provider, PROVIDER_INSTAGRAM) && env.instagram_oembed_fallback_enabled {
        Some(MetadataFallback::InstagramOembed)
    } else {
        None
    }
}

/// A TikTok request whose metadata came from TikWM: its download goes
/// through TikWM first.
pub open spec fn spec_prefers_direct(record: &DownloadRequestRecord) -> bool {
    record.provider@ == "tiktok"@ && opt_seq(record.extractor) == Some("TikWM"@)
}

/// Whether the request's download should go through TikWM first.
pub fn should_prefer_direct_download(record: &DownloadRequestRecord) -> (r: bool)
    ensures
        r == spec_prefers_direct(record),
{
    proof {
        reveal_strlit("TikWM");
    }
    str_eq(record.provider.as_str(), PROVIDER_TIKTOK) && match &record.extractor {
        Some(e) => str_eq(e.as_str(), TIKTOK_FALLBACK_EXTRACTOR),
        None => false,
    }
}

/// A direct download applies: the request is a TikTok one and the TikWM
/// fallback is enabled.
pub open spec fn spec_direct_download_applies(env: &Environment, record: &DownloadRequestRecord) -> bool {
    record.provider@ == "tiktok"@ && env.tiktok_fallback_enabled
}

/// Whether a direct (TikWM) download applies to the request.
pub fn direct_download_applies(env: &Environment, record: &DownloadRequestRecord) -> (r: bool)
    ensures
        r == spec_direct_download_applies(env, record),
{
    str_eq(record.provider.as_str(), PROVIDER_TIKTOK) && env.tiktok_fallback_enabled
}

// ---------------------------------------------------------------------------
// Size limits of direct downloads
// ---------------------------------------------------------------------------

/// The message for a declared length over the limit.
pub open spec fn declared_too_large_message(max: u64) -> Seq<char> {
    "fallback media exceeds the configured size limit of "@ + decimal(max as nat) + " bytes"@
}

/// The message for received bytes over the limit.
pub open spec fn received_too_large_message(max: u64) -> Seq<char> {
    "fallback media exceeded the configured size limit of "@ + decimal(max as nat) + " bytes"@
}

/// `prefix`, the decimal text of `max`, then ` bytes`.
fn limit_message(prefix: &str, max: u64) -> (r: String)
    ensures
        r@ == prefix@ + decimal(max as nat) + " bytes"@,
{
    let mut message = owned(prefix);
    let number = decimal_u64(max);
    append(&mut message, number.as_str());
    append(&mut message, " bytes");
    message
}

/// Accepts the length a media response declares, when it declares one, if
/// it is within `max` bytes.
pub fn check_content_length(content_length: Option<u64>, max: u64) -> (r: Result<(), String>)
    ensures
        match content_length {
            Some(len) => if len > max {
                r matches Err(e) && e@ == declared_too_large_message(max)
            } else {
                r is Ok
            },
            None => r is Ok,
        },
{
    match content_length {
        Some(len) => {
            if len > max {
                return Err(limit_message("fallback media exceeds the configured size limit of ", max));
            }
            Ok(())
        },
        None => Ok(()),
    }
}

/// The bytes received after one more chunk, or the error when they exceed
/// `max`.
pub fn accept_chunk(downloaded: u64, chunk_len: u64, max: u64) -> (r: Result<u64, String>)
    requires
        downloaded + chunk_len <= u64::MAX,
    ensures
        downloaded + chunk_len <= max ==> r == Ok::<u64, String>((downloaded + chunk_len) as u64),
        downloaded + chunk_len > max ==> (r matches Err(e) && e@ == received_too_large_message(max)),
{
    let total = downloaded + chunk_len;
    if total > max {
        return Err(limit_message("fallback media exceeded the configured size limit of ", max));
    }
    Ok(total)
}

/// Accepts a finished media response unless it was empty.
pub fn finish_download(downloaded: u64) -> (r: Result<(), String>)
    ensures
        downloaded == 0 ==> (r matches Err(e) && e@ == "fallback media URL returned an empty response"@),
        downloaded > 0 ==> r is Ok,
{
    if downloaded == 0 {
        return Err(owned("fallback media URL returned an empty response"));
    }
    Ok(())
}

/// Accepts a stored fallback file of `size` bytes when it is within `max`.
pub fn check_fallback_size(size: u64, max: u64) -> (r: Result<(), String>)
    ensures
        size <= max ==> r is Ok,
        size > max ==> (r matches Err(e) && e@ == received_too_large_message(max)),
{
    if size > max {
        return Err(limit_message("fallback media exceeded the configured size limit of ", max));
    }
    Ok(())
}

/// The name shown to clients for a fallback file at `path`.
pub fn public_filename(path: &str) -> (r: Result<String, String>)
    ensures
        match spec_path_file_name(path@) {
            Some(name) => r matches Ok(s) && s@ == name,
            None => r matches Err(e) && e@ == "fallback media file name is invalid"@,
        },
{
    match path_file_name(path) {
        Some(name) => Ok(name),
        None => Err(owned("fallback media file name is invalid")),
    }
}

/// A direct download already in `temp_dir` at `path`: its file name, path
/// and directory, or why the file has no name.
pub open spec fn spec_direct_media(temp_dir: Seq<char>, path: Seq<char>) -> Result<
    (Seq<char>, Seq<char>, Seq<char>),
    Seq<char>,
> {
    match spec_path_file_name(path) {
        Some(name) => Ok((name, path, temp_dir)),
        None => Err("fallback media file name is invalid"@),
    }
}

/// The direct download already in `temp_dir` at `path` (see
/// [`spec_direct_media`]).
pub fn direct_media(temp_dir: &str, path: &str) -> (r: Result<DownloadedMedia, String>)
    ensures
        match spec_direct_media(temp_dir@, path@) {
            Ok(v) => r matches Ok(m) && media_view(m) == v,
            Err(e) => r matches Err(s) && s@ == e,
        },
{
    match public_filename(path) {
        Ok(filename) => Ok(DownloadedMedia { filename, path: owned(path), temp_dir: owned(temp_dir) }),
        Err(e) => Err(e),
    }
}

} // verus!
