//! The service's configuration, read from its environment variables.
use vstd::prelude::*;

use crate::text::{
    chars_of, decimal, digit_char, lemma_decimal_digits, owned, split, split_on, str_eq,
    string_from_chars, trim, trim_chars,
};

verus! {

// ---------------------------------------------------------------------------
// Parsing of one value
// ---------------------------------------------------------------------------

pub open spec fn is_digit(c: char) -> bool {
    '0' <= c && c <= '9'
}

pub open spec fn digit_value(c: char) -> nat {
    ((c as u32) - 48) as nat
}

pub open spec fn all_digits(s: Seq<char>) -> bool {
    forall|i: int| 0 <= i < s.len() ==> is_digit(#[trigger] s[i])
}

/// The number that a string of decimal digits denotes.
pub open spec fn digits_value(s: Seq<char>) -> nat
    decreases s.len(),
{
    if s.len() == 0 {
        0
    } else {
        digits_value(s.drop_last()) * 10 + digit_value(s.last())
    }
}

/// The number a string of one or more decimal digits denotes, if it is one.
pub open spec fn digits_number(s: Seq<char>) -> Option<nat> {
    if s.len() > 0 && all_digits(s) {
        Some(digits_value(s))
    } else {
        None
    }
}

/// What the integer `FromStr` of std reads in `s` for an unsigned type: an
/// optional `+` followed by one or more decimal digits.
pub open spec fn unsigned_text_value(s: Seq<char>) -> Option<nat> {
    if s.len() > 0 && s[0] == '+' {
        digits_number(s.drop_first())
    } else {
        digits_number(s)
    }
}

/// What the integer `FromStr` of std reads in `s` for a signed type: an
/// optional `+` or `-` followed by one or more decimal digits.
pub open spec fn signed_text_value(s: Seq<char>) -> Option<int> {
    if s.len() > 0 && s[0] == '-' {
        match digits_number(s.drop_first()) {
            Some(n) => Some(-(n as int)),
            None => None,
        }
    } else {
        match unsigned_text_value(s) {
            Some(n) => Some(n as int),
            None => None,
        }
    }
}

/// `s` read as an unsigned number no greater than `max`.
pub open spec fn unsigned_at_most(s: Seq<char>, max: nat) -> Option<nat> {
    match unsigned_text_value(s) {
        Some(n) => if n <= max {
            Some(n)
        } else {
            None
        },
        None => None,
    }
}

proof fn lemma_digits_value_grows(s: Seq<char>, i: int)
    requires
        0 <= i <= s.len(),
        all_digits(s),
    ensures
        digits_value(s.take(i)) <= digits_value(s),
    decreases s.len() - i,
{
    if i < s.len() {
        assert(s.drop_last().take(i) =~= s.take(i)) by {
            if i == s.len() {
            }
        };
        if i < s.len() {
            assert(all_digits(s.drop_last()));
            lemma_digits_value_grows(s.drop_last(), i);
        }
    } else {
        assert(s.take(i) =~= s);
    }
}

proof fn lemma_digits_value_of_decimal(n: nat)
    ensures
        digits_value(decimal(n)) == n,
    decreases n,
{
    if n < 10 {
        assert(decimal(n).drop_last() =~= Seq::<char>::empty());
        assert(digit_value(digit_char(n)) == n);
        assert(digits_value(Seq::<char>::empty()) == 0);
        assert(digits_value(decimal(n)) == digits_value(decimal(n).drop_last()) * 10 + digit_value(
            decimal(n).last(),
        ));
    } else {
        lemma_digits_value_of_decimal(n / 10);
        assert(decimal(n).drop_last() =~= decimal(n / 10));
        assert(digit_value(digit_char(n % 10)) == n % 10);
        assert(decimal(n).last() == digit_char(n % 10));
        assert((n / 10) * 10 + n % 10 == n) by (nonlinear_arith);
        assert(digits_value(decimal(n)) == digits_value(decimal(n).drop_last()) * 10 + digit_value(
            decimal(n).last(),
        ));
    }
}

/// A number's decimal text reads back as that number: what `decimal_u64`
/// prints, the unsigned `EnvValue` readers accept unchanged.
pub proof fn lemma_decimal_reads_back(n: nat)
    ensures
        unsigned_text_value(decimal(n)) == Some(n),
{
    lemma_decimal_digits(n);
    lemma_digits_value_of_decimal(n);
    assert(all_digits(decimal(n)));
    assert(decimal(n)[0] != '+');
}

/// The number that the decimal digits `v[start..]` denote, if they are one or
/// more digits and the number is at most `max`.
pub fn parse_digits(v: &[char], start: usize, max: u64) -> (r: Option<u64>)
    requires
        start <= v@.len(),
    ensures
        r == (match digits_number(v@.subrange(start as int, v@.len() as int)) {
            Some(n) => if n <= max {
                Some(n as u64)
            } else {
                None
            },
            None => None,
        }),
{
    let ghost body = v@.subrange(start as int, v@.len() as int);
    let n = v.len();
    if start == n {
        return None;
    }
    let mut acc: u64 = 0;
    let mut i = start;
    while i < n
        invariant
            start <= i <= n == v@.len(),
            body == v@.subrange(start as int, n as int),
            all_digits(body.take(i - start)),
            acc as nat == digits_value(body.take(i - start)),
            acc <= max,
        decreases n - i,
    {
        let c = v[i];
        if !('0' <= c && c <= '9') {
            assert(body[i - start] == c);
            return None;
        }
        let d = (c as u32 - 48) as u64;
        assert(body.take(i - start + 1).drop_last() =~= body.take(i - start));
        assert(body.take(i - start + 1).last() == c);
        if d > max || acc > (max - d) / 10 {
            proof {
                if d <= max {
                    assert(acc * 10 + d > max) by (nonlinear_arith)
                        requires
                            acc > (max - d) / 10,
                            d <= max,
                    ;
                }
                if all_digits(body) {
                    lemma_digits_value_grows(body, i - start + 1);
                }
            }
            return None;
        }
        proof {
            assert(acc * 10 + d <= max) by (nonlinear_arith)
                requires
                    acc <= (max - d) / 10,
                    d <= max,
            ;
        }
        acc = acc * 10 + d;
        i = i + 1;
    }
    assert(body.take(n - start) =~= body);
    Some(acc)
}

/// `v` read as an unsigned number no greater than `max`.
pub fn parse_unsigned(v: &[char], max: u64) -> (r: Option<u64>)
    ensures
        r == (match unsigned_at_most(v@, max as nat) {
            Some(n) => Some(n as u64),
            None => None,
        }),
{
    if v.len() > 0 && v[0] == '+' {
        assert(v@.drop_first() =~= v@.subrange(1, v@.len() as int));
        parse_digits(v, 1, max)
    } else {
        assert(v@ =~= v@.subrange(0, v@.len() as int));
        parse_digits(v, 0, max)
    }
}

/// A configuration value that can be read from an environment variable.
pub trait EnvValue: Sized {
    /// What `raw` denotes, if it is valid text for this type.
    spec fn spec_parse(raw: Seq<char>) -> Option<Self>;

    /// Reads `raw` as this type, as `str::parse` does.
    fn parse_value(raw: &str) -> (r: Option<Self>)
        ensures
            r == Self::spec_parse(raw@),
    ;
}

impl EnvValue for u16 {
    open spec fn spec_parse(raw: Seq<char>) -> Option<u16> {
        match unsigned_at_most(raw, 65535) {
            Some(n) => Some(n as u16),
            None => None,
        }
    }

    fn parse_value(raw: &str) -> (r: Option<u16>) {
        let v = chars_of(raw);
        match parse_unsigned(v.as_slice(), 65535) {
            Some(n) => Some(n as u16),
            None => None,
        }
    }
}

impl EnvValue for u32 {
    open spec fn spec_parse(raw: Seq<char>) -> Option<u32> {
        match unsigned_at_most(raw, 4294967295) {
            Some(n) => Some(n as u32),
            None => None,
        }
    }

    fn parse_value(raw: &str) -> (r: Option<u32>) {
        let v = chars_of(raw);
        match parse_unsigned(v.as_slice(), 4294967295) {
            Some(n) => Some(n as u32),
            None => None,
        }
    }
}

impl EnvValue for u64 {
    open spec fn spec_parse(raw: Seq<char>) -> Option<u64> {
        match unsigned_at_most(raw, 18446744073709551615) {
            Some(n) => Some(n as u64),
            None => None,
        }
    }

    fn parse_value(raw: &str) -> (r: Option<u64>) {
        let v = chars_of(raw);
        parse_unsigned(v.as_slice(), 18446744073709551615)
    }
}

impl EnvValue for usize {
    open spec fn spec_parse(raw: Seq<char>) -> Option<usize> {
        match unsigned_at_most(raw, usize::MAX as nat) {
            Some(n) => Some(n as usize),
            None => None,
        }
    }

    fn parse_value(raw: &str) -> (r: Option<usize>) {
        let v = chars_of(raw);
        match parse_unsigned(v.as_slice(), usize::MAX as u64) {
            Some(n) => Some(n as usize),
            None => None,
        }
    }
}

impl EnvValue for i64 {
    open spec fn spec_parse(raw: Seq<char>) -> Option<i64> {
        match signed_text_value(raw) {
            Some(n) => if i64::MIN <= n <= i64::MAX {
                Some(n as i64)
            } else {
                None
            },
            None => None,
        }
    }

    fn parse_value(raw: &str) -> (r: Option<i64>) {
        let v = chars_of(raw);
        if v.len() > 0 && v[0] == '-' {
            assert(v@.drop_first() =~= v@.subrange(1, v@.len() as int));
            match parse_digits(v.as_slice(), 1, 9223372036854775808) {
                Some(n) => {
                    if n == 9223372036854775808 {
                        Some(i64::MIN)
                    } else {
                        Some(-(n as i64))
                    }
                },
                None => None,
            }
        } else {
            match parse_unsigned(v.as_slice(), 9223372036854775807) {
                Some(n) => Some(n as i64),
                None => None,
            }
        }
    }
}

impl EnvValue for bool {
    open spec fn spec_parse(raw: Seq<char>) -> Option<bool> {
        if raw == "true"@ {
            Some(true)
        } else if raw == "false"@ {
            Some(false)
        } else {
            None
        }
    }

    fn parse_value(raw: &str) -> (r: Option<bool>) {
        if str_eq(raw, "true") {
            Some(true)
        } else if str_eq(raw, "false") {
            Some(false)
        } else {
            None
        }
    }
}

// ---------------------------------------------------------------------------
// Looking up variables
// ---------------------------------------------------------------------------

/// The value of the first variable named `key` in `vars` (the process
/// environment as `(name, value)` pairs), if there is one.
pub open spec fn env_lookup(vars: Seq<(String, String)>, key: Seq<char>) -> Option<Seq<char>>
    decreases vars.len(),
{
    if vars.len() == 0 {
        None
    } else if vars[0].0@ == key {
        Some(vars[0].1@)
    } else {
        env_lookup(vars.drop_first(), key)
    }
}

/// Why the configuration could not be read.
#[derive(Clone, Debug, PartialEq, Eq)]
pub enum EnvError {
    /// A required variable is not set.
    Missing { key: String },
    /// A variable holds text that is not a value of its type.
    Invalid { key: String, value: String },
    /// `ALLOWED_ORIGINS` names no origin.
    NoAllowedOrigins,
}

/// The value of an [`EnvError`].
pub ghost enum EnvErrorView {
    Missing(Seq<char>),
    Invalid(Seq<char>, Seq<char>),
    NoAllowedOrigins,
}

impl View for EnvError {
    type V = EnvErrorView;

    open spec fn view(&self) -> EnvErrorView {
        match self {
            EnvError::Missing { key } => EnvErrorView::Missing(key@),
            EnvError::Invalid { key, value } => EnvErrorView::Invalid(key@, value@),
            EnvError::NoAllowedOrigins => EnvErrorView::NoAllowedOrigins,
        }
    }
}

/// The value of the variable `key`, or the error for a missing one.
pub fn read_var(vars: &Vec<(String, String)>, key: &str) -> (r: Result<String, EnvError>)
    ensures
        match env_lookup(vars@, key@) {
            Some(v) => r matches Ok(s) && s@ == v,
            None => r matches Err(e) && e@ == EnvErrorView::Missing(key@),
        },
{
    let n = vars.len();
    let mut i: usize = 0;
    assert(vars@.subrange(0, n as int) =~= vars@);
    while i < n
        invariant
            i <= n == vars@.len(),
            env_lookup(vars@, key@) == env_lookup(vars@.subrange(i as int, n as int), key@),
        decreases n - i,
    {
        let ghost rest = vars@.subrange(i as int, n as int);
        assert(rest.drop_first() =~= vars@.subrange(i + 1, n as int));
        if str_eq(vars[i].0.as_str(), key) {
            return Ok(owned(vars[i].1.as_str()));
        }
        i = i + 1;
    }
    Err(EnvError::Missing { key: owned(key) })
}

/// The value of an optional variable: set and not blank.
pub open spec fn optional_value(vars: Seq<(String, String)>, key: Seq<char>) -> Option<Seq<char>> {
    match env_lookup(vars, key) {
        Some(v) => if trim(v).len() > 0 {
            Some(v)
        } else {
            None
        },
        None => None,
    }
}

/// The value of the variable `key` when it is set and not blank.
pub fn read_optional_var(vars: &Vec<(String, String)>, key: &str) -> (r: Option<String>)
    ensures
        match optional_value(vars@, key@) {
            Some(v) => r matches Some(s) && s@ == v,
            None => r is None,
        },
{
    match read_var(vars, key) {
        Ok(value) => {
            let chars = chars_of(value.as_str());
            let trimmed = trim_chars(chars.as_slice());
            if trimmed.len() > 0 {
                Some(value)
            } else {
                None
            }
        },
        Err(_) => None,
    }
}

/// The error for the variable `key` read as a `T`, if there is one.
pub open spec fn parse_error<T: EnvValue>(vars: Seq<(String, String)>, key: Seq<char>) -> Option<
    EnvErrorView,
> {
    match env_lookup(vars, key) {
        Some(raw) => if T::spec_parse(raw) is Some {
            None
        } else {
            Some(EnvErrorView::Invalid(key, raw))
        },
        None => Some(EnvErrorView::Missing(key)),
    }
}

/// The error for the required variable `key`, if it is missing.
pub open spec fn presence_error(vars: Seq<(String, String)>, key: Seq<char>) -> Option<
    EnvErrorView,
> {
    match env_lookup(vars, key) {
        Some(_) => None,
        None => Some(EnvErrorView::Missing(key)),
    }
}

/// The value of the variable `key` read as a `T` (when it is one).
pub open spec fn parsed<T: EnvValue>(vars: Seq<(String, String)>, key: Seq<char>) -> T {
    T::spec_parse(env_lookup(vars, key).unwrap()).unwrap()
}

/// The value of the required variable `key` (when it is set).
pub open spec fn present(vars: Seq<(String, String)>, key: Seq<char>) -> Seq<char> {
    env_lookup(vars, key).unwrap()
}

/// The variable `key` read as a `T`, or the error for it.
pub fn read_parse<T: EnvValue>(vars: &Vec<(String, String)>, key: &str) -> (r: Result<T, EnvError>)
    ensures
        match parse_error::<T>(vars@, key@) {
            Some(e) => r matches Err(err) && err@ == e,
            None => r matches Ok(v) && v == parsed::<T>(vars@, key@),
        },
{
    let raw = match read_var(vars, key) {
        Ok(raw) => raw,
        Err(e) => return Err(e),
    };
    match T::parse_value(raw.as_str()) {
        Some(v) => Ok(v),
        None => Err(EnvError::Invalid { key: owned(key), value: raw }),
    }
}

/// The TikWM endpoint used when `TIKTOK_FALLBACK_API_URL` is not set.
pub const DEFAULT_TIKWM_API_URL: &'static str = "https://www.tikwm.com/api/";

/// The optional switch `key`: its value when it is set to `true` or `false`,
/// else `default`.
pub open spec fn flag_or(vars: Seq<(String, String)>, key: Seq<char>, default: bool) -> bool {
    match env_lookup(vars, key) {
        Some(raw) => match <bool as EnvValue>::spec_parse(raw) {
            Some(b) => b,
            None => default,
        },
        None => default,
    }
}

/// The optional setting `key`: its value when it is set and not blank, else
/// `default`.
pub open spec fn text_or(vars: Seq<(String, String)>, key: Seq<char>, default: Seq<char>) -> Seq<
    char,
> {
    match optional_value(vars, key) {
        Some(v) => v,
        None => default,
    }
}

/// Reads the optional switch `key` (see [`flag_or`]); it never fails.
pub fn read_flag_or(vars: &Vec<(String, String)>, key: &str, default: bool) -> (r: bool)
    ensures
        r == flag_or(vars@, key@, default),
{
    match read_parse::<bool>(vars, key) {
        Ok(b) => b,
        Err(_) => default,
    }
}

/// Reads the optional setting `key` (see [`text_or`]); it never fails.
pub fn read_text_or(vars: &Vec<(String, String)>, key: &str, default: &str) -> (r: String)
    ensures
        r@ == text_or(vars@, key@, default@),
{
    match read_optional_var(vars, key) {
        Some(v) => v,
        None => owned(default),
    }
}

// ---------------------------------------------------------------------------
// Allowed origins
// ---------------------------------------------------------------------------

/// The trimmed pieces of `pieces` that are not blank, in order.
pub open spec fn non_blank_trimmed(pieces: Seq<Seq<char>>) -> Seq<Seq<char>>
    decreases pieces.len(),
{
    if pieces.len() == 0 {
        Seq::empty()
    } else {
        let prev = non_blank_trimmed(pieces.drop_last());
        if trim(pieces.last()).len() > 0 {
            prev.push(trim(pieces.last()))
        } else {
            prev
        }
    }
}

/// The origins listed in a comma-separated value: each piece trimmed, blank
/// pieces left out.
pub open spec fn origin_list(raw: Seq<char>) -> Seq<Seq<char>> {
    non_blank_trimmed(split(raw, ','))
}

/// The origins listed in the comma-separated text `raw`.
pub fn parse_origin_list(raw: &str) -> (r: Vec<String>)
    ensures
        r@.len() == origin_list(raw@).len(),
        forall|i: int| 0 <= i < r@.len() ==> (#[trigger] r@[i])@ == origin_list(raw@)[i],
{
    let chars = chars_of(raw);
    let pieces = split_on(chars.as_slice(), ',');
    let ghost all = split(raw@, ',');
    let n = pieces.len();
    let mut out: Vec<String> = Vec::new();
    for i in 0..n
        invariant
            n == pieces@.len() == all.len(),
            all == split(raw@, ','),
            forall|k: int| 0 <= k < n ==> (#[trigger] pieces@[k])@ == all[k],
            out@.len() == non_blank_trimmed(all.take(i as int)).len(),
            forall|k: int| 0 <= k < out@.len() ==> (#[trigger] out@[k])@ == non_blank_trimmed(all.take(i as int))[k],
    {
        assert(all.take(i + 1).drop_last() =~= all.take(i as int));
        assert(all.take(i + 1).last() == all[i as int]);
        let t = trim_chars(pieces[i].as_slice());
        if t.len() > 0 {
            out.push(string_from_chars(t.as_slice()));
        }
    }
    assert(all.take(n as int) =~= all);
    out
}

// ---------------------------------------------------------------------------
// The configuration
// ---------------------------------------------------------------------------

/// The service's configuration.
#[derive(Clone, Debug)]
pub struct Environment {
    pub app_env: String,
    pub host: String,
    pub port: u16,
    pub public_base_url: String,
    pub rust_log: String,
    pub database_url: String,
    pub database_max_connections: u32,
    pub database_min_connections: u32,
    pub database_acquire_timeout_seconds: u64,
    pub database_run_migrations: bool,
    pub cors_allowed_origins: Vec<String>,
    pub download_token_secret: String,
    pub download_token_ttl_seconds: i64,
    pub max_url_length: usize,
    pub max_download_bytes: u64,
    pub max_video_duration_seconds: u64,
    pub upstream_connect_timeout_seconds: u64,
    pub upstream_request_timeout_seconds: u64,
    pub upstream_max_redirects: usize,
    pub upstream_user_agent: String,
    pub stream_chunk_size_bytes: usize,
    /// A filesystem path.
    pub ytdlp_binary_path: String,
    pub ytdlp_metadata_timeout_seconds: u64,
    pub ytdlp_download_timeout_seconds: u64,
    pub download_retention_seconds: u64,
    pub rate_limit_requests_per_minute: u32,
    pub turnstile_site_key: Option<String>,
    pub turnstile_secret_key: Option<String>,
    pub enable_tiktok: bool,
    pub enable_instagram: bool,
    pub enable_youtube: bool,
    pub enable_twitter: bool,
    pub enable_facebook: bool,
    pub enable_pinterest: bool,
    pub enable_capcut: bool,
    pub enable_telegram: bool,
    pub enable_spotify: bool,
    pub enable_soundcloud: bool,
    /// A filesystem path.
    pub cookies_file_path: Option<String>,
    pub ffmpeg_enabled: bool,
    pub ffmpeg_binary_path: String,
    /// A filesystem path.
    pub temp_dir: String,
    pub tiktok_fallback_enabled: bool,
    pub tiktok_fallback_api_url: String,
    pub instagram_oembed_fallback_enabled: bool,
}

/// The error for `ALLOWED_ORIGINS`, if it is missing or names no origin.
pub open spec fn origins_error(vars: Seq<(String, String)>) -> Option<EnvErrorView> {
    match env_lookup(vars, "ALLOWED_ORIGINS"@) {
        Some(raw) => if origin_list(raw).len() == 0 {
            Some(EnvErrorView::NoAllowedOrigins)
        } else {
            None
        },
        None => Some(EnvErrorView::Missing("ALLOWED_ORIGINS"@)),
    }
}

/// `a` if it is an error, else `b`.
pub open spec fn first_error(a: Option<EnvErrorView>, b: Option<EnvErrorView>) -> Option<EnvErrorView> {
    if a is Some {
        a
    } else {
        b
    }
}

/// The first error met when the variables are read in order: `ALLOWED_ORIGINS`
/// first, then the others in the order of the fields of [`Environment`]. The
/// optional settings (the Turnstile keys, the cookies file and the provider
/// fallback settings) never cause an error.
pub open spec fn load_error(vars: Seq<(String, String)>) -> Option<EnvErrorView> {
    first_error(origins_error(vars),
    first_error(presence_error(vars, "APP_ENV"@),
    first_error(presence_error(vars, "HOST"@),
    first_error(parse_error::<u16>(vars, "PORT"@),
    first_error(presence_error(vars, "PUBLIC_BASE_URL"@),
    first_error(presence_error(vars, "RUST_LOG"@),
    first_error(presence_error(vars, "DATABASE_URL"@),
    first_error(parse_error::<u32>(vars, "DATABASE_MAX_CONNECTIONS"@),
    first_error(parse_error::<u32>(vars, "DATABASE_MIN_CONNECTIONS"@),
    first_error(parse_error::<u64>(vars, "DATABASE_ACQUIRE_TIMEOUT_SECONDS"@),
    first_error(parse_error::<bool>(vars, "DATABASE_RUN_MIGRATIONS"@),
    first_error(presence_error(vars, "DOWNLOAD_TOKEN_SECRET"@),
    first_error(parse_error::<i64>(vars, "DOWNLOAD_TOKEN_TTL_SECONDS"@),
    first_error(parse_error::<usize>(vars, "MAX_URL_LENGTH"@),
    first_error(parse_error::<u64>(vars, "MAX_DOWNLOAD_BYTES"@),
    first_error(parse_error::<u64>(vars, "MAX_VIDEO_DURATION_SECONDS"@),
    first_error(parse_error::<u64>(vars, "UPSTREAM_CONNECT_TIMEOUT_SECONDS"@),
    first_error(parse_error::<u64>(vars, "UPSTREAM_REQUEST_TIMEOUT_SECONDS"@),
    first_error(parse_error::<usize>(vars, "UPSTREAM_MAX_REDIRECTS"@),
    first_error(presence_error(vars, "UPSTREAM_USER_AGENT"@),
    first_error(parse_error::<usize>(vars, "STREAM_CHUNK_SIZE_BYTES"@),
    first_error(presence_error(vars, "YTDLP_BINARY_PATH"@),
    first_error(parse_error::<u64>(vars, "YTDLP_METADATA_TIMEOUT_SECONDS"@),
    first_error(parse_error::<u64>(vars, "YTDLP_DOWNLOAD_TIMEOUT_SECONDS"@),
    first_error(parse_error::<u64>(vars, "DOWNLOAD_RETENTION_SECONDS"@),
    first_error(parse_error::<u32>(vars, "RATE_LIMIT_REQUESTS_PER_MINUTE"@),
    first_error(parse_error::<bool>(vars, "ENABLE_TIKTOK"@),
    first_error(parse_error::<bool>(vars, "ENABLE_INSTAGRAM"@),
    first_error(parse_error::<bool>(vars, "ENABLE_YOUTUBE"@),
    first_error(parse_error::<bool>(vars, "ENABLE_TWITTER"@),
    first_error(parse_error::<bool>(vars, "ENABLE_FACEBOOK"@),
    first_error(parse_error::<bool>(vars, "ENABLE_PINTEREST"@),
    first_error(parse_error::<bool>(vars, "ENABLE_CAPCUT"@),
    first_error(parse_error::<bool>(vars, "ENABLE_TELEGRAM"@),
    first_error(parse_error::<bool>(vars, "ENABLE_SPOTIFY"@),
    first_error(parse_error::<bool>(vars, "ENABLE_SOUNDCLOUD"@),
    first_error(parse_error::<bool>(vars, "FFMPEG_ENABLED"@),
    first_error(presence_error(vars, "FFMPEG_BINARY_PATH"@),
    presence_error(vars, "TEMP_DIR"@)
    ))))))))))))))))))))
    ))))))))))))))))))
}

impl Environment {
    /// This configuration holds what `vars` says.
    pub open spec fn read_from(&self, vars: Seq<(String, String)>) -> bool {
        &&& self.app_env@ == present(vars, "APP_ENV"@)
        &&& self.host@ == present(vars, "HOST"@)
        &&& self.port == parsed::<u16>(vars, "PORT"@)
        &&& self.public_base_url@ == present(vars, "PUBLIC_BASE_URL"@)
        &&& self.rust_log@ == present(vars, "RUST_LOG"@)
        &&& self.database_url@ == present(vars, "DATABASE_URL"@)
        &&& self.database_max_connections == parsed::<u32>(vars, "DATABASE_MAX_CONNECTIONS"@)
        &&& self.database_min_connections == parsed::<u32>(vars, "DATABASE_MIN_CONNECTIONS"@)
        &&& self.database_acquire_timeout_seconds == parsed::<u64>(vars, "DATABASE_ACQUIRE_TIMEOUT_SECONDS"@)
        &&& self.database_run_migrations == parsed::<bool>(vars, "DATABASE_RUN_MIGRATIONS"@)
        &&& self.cors_allowed_origins@.len() == origin_list(present(vars, "ALLOWED_ORIGINS"@)).len()
        &&& forall|i: int| 0 <= i < self.cors_allowed_origins@.len() ==> (#[trigger] self.cors_allowed_origins@[i])@ == origin_list(present(vars, "ALLOWED_ORIGINS"@))[i]
        &&& self.download_token_secret@ == present(vars, "DOWNLOAD_TOKEN_SECRET"@)
        &&& self.download_token_ttl_seconds == parsed::<i64>(vars, "DOWNLOAD_TOKEN_TTL_SECONDS"@)
        &&& self.max_url_length == parsed::<usize>(vars, "MAX_URL_LENGTH"@)
        &&& self.max_download_bytes == parsed::<u64>(vars, "MAX_DOWNLOAD_BYTES"@)
        &&& self.max_video_duration_seconds == parsed::<u64>(vars, "MAX_VIDEO_DURATION_SECONDS"@)
        &&& self.upstream_connect_timeout_seconds == parsed::<u64>(vars, "UPSTREAM_CONNECT_TIMEOUT_SECONDS"@)
        &&& self.upstream_request_timeout_seconds == parsed::<u64>(vars, "UPSTREAM_REQUEST_TIMEOUT_SECONDS"@)
        &&& self.upstream_max_redirects == parsed::<usize>(vars, "UPSTREAM_MAX_REDIRECTS"@)
        &&& self.upstream_user_agent@ == present(vars, "UPSTREAM_USER_AGENT"@)
        &&& self.stream_chunk_size_bytes == parsed::<usize>(vars, "STREAM_CHUNK_SIZE_BYTES"@)
        &&& self.ytdlp_binary_path@ == present(vars, "YTDLP_BINARY_PATH"@)
        &&& self.ytdlp_metadata_timeout_seconds == parsed::<u64>(vars, "YTDLP_METADATA_TIMEOUT_SECONDS"@)
        &&& self.ytdlp_download_timeout_seconds == parsed::<u64>(vars, "YTDLP_DOWNLOAD_TIMEOUT_SECONDS"@)
        &&& self.download_retention_seconds == parsed::<u64>(vars, "DOWNLOAD_RETENTION_SECONDS"@)
        &&& self.rate_limit_requests_per_minute == parsed::<u32>(vars, "RATE_LIMIT_REQUESTS_PER_MINUTE"@)
        &&& match optional_value(vars, "TURNSTILE_SITE_KEY"@) { Some(v) => self.turnstile_site_key matches Some(s) && s@ == v, None => self.turnstile_site_key is None }
        &&& match optional_value(vars, "TURNSTILE_SECRET_KEY"@) { Some(v) => self.turnstile_secret_key matches Some(s) && s@ == v, None => self.turnstile_secret_key is None }
        &&& self.enable_tiktok == parsed::<bool>(vars, "ENABLE_TIKTOK"@)
        &&& self.enable_instagram == parsed::<bool>(vars, "ENABLE_INSTAGRAM"@)
        &&& self.enable_youtube == parsed::<bool>(vars, "ENABLE_YOUTUBE"@)
        &&& self.enable_twitter == parsed::<bool>(vars, "ENABLE_TWITTER"@)
        &&& self.enable_facebook == parsed::<bool>(vars, "ENABLE_FACEBOOK"@)
        &&& self.enable_pinterest == parsed::<bool>(vars, "ENABLE_PINTEREST"@)
        &&& self.enable_capcut == parsed::<bool>(vars, "ENABLE_CAPCUT"@)
        &&& self.enable_telegram == parsed::<bool>(vars, "ENABLE_TELEGRAM"@)
        &&& self.enable_spotify == parsed::<bool>(vars, "ENABLE_SPOTIFY"@)
        &&& self.enable_soundcloud == parsed::<bool>(vars, "ENABLE_SOUNDCLOUD"@)
        &&& match optional_value(vars, "COOKIES_FILE_PATH"@) { Some(v) => self.cookies_file_path matches Some(s) && s@ == v, None => self.cookies_file_path is None }
        &&& self.ffmpeg_enabled == parsed::<bool>(vars, "FFMPEG_ENABLED"@)
        &&& self.ffmpeg_binary_path@ == present(vars, "FFMPEG_BINARY_PATH"@)
        &&& self.temp_dir@ == present(vars, "TEMP_DIR"@)
        &&& self.tiktok_fallback_enabled == flag_or(vars, "TIKTOK_FALLBACK_ENABLED"@, true)
        &&& self.tiktok_fallback_api_url@ == text_or(vars, "TIKTOK_FALLBACK_API_URL"@, DEFAULT_TIKWM_API_URL@)
        &&& self.instagram_oembed_fallback_enabled == flag_or(vars, "INSTAGRAM_OEMBED_FALLBACK_ENABLED"@, true)
    }

    /// Reads the configuration from the process environment `vars`, given as
    /// `(name, value)` pairs. Fails with the first error met when the
    /// variables are read in order (see [`load_error`]).
    #[verifier::rlimit(100)]
    pub fn load(vars: &Vec<(String, String)>) -> (r: Result<Environment, EnvError>)
        ensures
            match load_error(vars@) {
                Some(e) => r matches Err(err) && err@ == e,
                None => r matches Ok(env) && env.read_from(vars@),
            },
    {
        let raw_origins = match read_var(vars, "ALLOWED_ORIGINS") {
            Ok(v) => v,
            Err(e) => return Err(e),
        };
        let cors_allowed_origins = parse_origin_list(raw_origins.as_str());
        if cors_allowed_origins.len() == 0 {
            return Err(EnvError::NoAllowedOrigins);
        }
        let app_env = match read_var(vars, "APP_ENV") {
            Ok(v) => v,
            Err(e) => return Err(e),
        };
        let host = match read_var(vars, "HOST") {
            Ok(v) => v,
            Err(e) => return Err(e),
        };
        let port = match read_parse::<u16>(vars, "PORT") {
            Ok(v) => v,
            Err(e) => return Err(e),
        };
        let public_base_url = match read_var(vars, "PUBLIC_BASE_URL") {
            Ok(v) => v,
            Err(e) => return Err(e),
        };
        let rust_log = match read_var(vars, "RUST_LOG") {
            Ok(v) => v,
            Err(e) => return Err(e),
        };
        let database_url = match read_var(vars, "DATABASE_URL") {
            Ok(v) => v,
            Err(e) => return Err(e),
        };
        let database_max_connections = match read_parse::<u32>(vars, "DATABASE_MAX_CONNECTIONS") {
            Ok(v) => v,
            Err(e) => return Err(e),
        };
        let database_min_connections = match read_parse::<u32>(vars, "DATABASE_MIN_CONNECTIONS") {
            Ok(v) => v,
            Err(e) => return Err(e),
        };
        let database_acquire_timeout_seconds = match read_parse::<u64>(vars, "DATABASE_ACQUIRE_TIMEOUT_SECONDS") {
            Ok(v) => v,
            Err(e) => return Err(e),
        };
        let database_run_migrations = match read_parse::<bool>(vars, "DATABASE_RUN_MIGRATIONS") {
            Ok(v) => v,
            Err(e) => return Err(e),
        };
        let download_token_secret = match read_var(vars, "DOWNLOAD_TOKEN_SECRET") {
            Ok(v) => v,
            Err(e) => return Err(e),
        };
        let download_token_ttl_seconds = match read_parse::<i64>(vars, "DOWNLOAD_TOKEN_TTL_SECONDS") {
            Ok(v) => v,
            Err(e) => return Err(e),
        };
        let max_url_length = match read_parse::<usize>(vars, "MAX_URL_LENGTH") {
            Ok(v) => v,
            Err(e) => return Err(e),
        };
        let max_download_bytes = match read_parse::<u64>(vars, "MAX_DOWNLOAD_BYTES") {
            Ok(v) => v,
            Err(e) => return Err(e),
        };
        let max_video_duration_seconds = match read_parse::<u64>(vars, "MAX_VIDEO_DURATION_SECONDS") {
            Ok(v) => v,
            Err(e) => return Err(e),
        };
        let upstream_connect_timeout_seconds = match read_parse::<u64>(vars, "UPSTREAM_CONNECT_TIMEOUT_SECONDS") {
            Ok(v) => v,
            Err(e) => return Err(e),
        };
        let upstream_request_timeout_seconds = match read_parse::<u64>(vars, "UPSTREAM_REQUEST_TIMEOUT_SECONDS") {
            Ok(v) => v,
            Err(e) => return Err(e),
        };
        let upstream_max_redirects = match read_parse::<usize>(vars, "UPSTREAM_MAX_REDIRECTS") {
            Ok(v) => v,
            Err(e) => return Err(e),
        };
        let upstream_user_agent = match read_var(vars, "UPSTREAM_USER_AGENT") {
            Ok(v) => v,
            Err(e) => return Err(e),
        };
        let stream_chunk_size_bytes = match read_parse::<usize>(vars, "STREAM_CHUNK_SIZE_BYTES") {
            Ok(v) => v,
            Err(e) => return Err(e),
        };
        let ytdlp_binary_path = match read_var(vars, "YTDLP_BINARY_PATH") {
            Ok(v) => v,
            Err(e) => return Err(e),
        };
        let ytdlp_metadata_timeout_seconds = match read_parse::<u64>(vars, "YTDLP_METADATA_TIMEOUT_SECONDS") {
            Ok(v) => v,
            Err(e) => return Err(e),
        };
        let ytdlp_download_timeout_seconds = match read_parse::<u64>(vars, "YTDLP_DOWNLOAD_TIMEOUT_SECONDS") {
            Ok(v) => v,
            Err(e) => return Err(e),
        };
        let download_retention_seconds = match read_parse::<u64>(vars, "DOWNLOAD_RETENTION_SECONDS") {
            Ok(v) => v,
            Err(e) => return Err(e),
        };
        let rate_limit_requests_per_minute = match read_parse::<u32>(vars, "RATE_LIMIT_REQUESTS_PER_MINUTE") {
            Ok(v) => v,
            Err(e) => return Err(e),
        };
        let turnstile_site_key = read_optional_var(vars, "TURNSTILE_SITE_KEY");
        let turnstile_secret_key = read_optional_var(vars, "TURNSTILE_SECRET_KEY");
        let enable_tiktok = match read_parse::<bool>(vars, "ENABLE_TIKTOK") {
            Ok(v) => v,
            Err(e) => return Err(e),
        };
        let enable_instagram = match read_parse::<bool>(vars, "ENABLE_INSTAGRAM") {
            Ok(v) => v,
            Err(e) => return Err(e),
        };
        let enable_youtube = match read_parse::<bool>(vars, "ENABLE_YOUTUBE") {
            Ok(v) => v,
            Err(e) => return Err(e),
        };
        let enable_twitter = match read_parse::<bool>(vars, "ENABLE_TWITTER") {
            Ok(v) => v,
            Err(e) => return Err(e),
        };
        let enable_facebook = match read_parse::<bool>(vars, "ENABLE_FACEBOOK") {
            Ok(v) => v,
            Err(e) => return Err(e),
        };
        let enable_pinterest = match read_parse::<bool>(vars, "ENABLE_PINTEREST") {
            Ok(v) => v,
            Err(e) => return Err(e),
        };
        let enable_capcut = match read_parse::<bool>(vars, "ENABLE_CAPCUT") {
            Ok(v) => v,
            Err(e) => return Err(e),
        };
        let enable_telegram = match read_parse::<bool>(vars, "ENABLE_TELEGRAM") {
            Ok(v) => v,
            Err(e) => return Err(e),
        };
        let enable_spotify = match read_parse::<bool>(vars, "ENABLE_SPOTIFY") {
            Ok(v) => v,
            Err(e) => return Err(e),
        };
        let enable_soundcloud = match read_parse::<bool>(vars, "ENABLE_SOUNDCLOUD") {
            Ok(v) => v,
            Err(e) => return Err(e),
        };
        let cookies_file_path = read_optional_var(vars, "COOKIES_FILE_PATH");
        let ffmpeg_enabled = match read_parse::<bool>(vars, "FFMPEG_ENABLED") {
            Ok(v) => v,
            Err(e) => return Err(e),
        };
        let ffmpeg_binary_path = match read_var(vars, "FFMPEG_BINARY_PATH") {
            Ok(v) => v,
            Err(e) => return Err(e),
        };
        let temp_dir = match read_var(vars, "TEMP_DIR") {
            Ok(v) => v,
            Err(e) => return Err(e),
        };
        let tiktok_fallback_enabled = read_flag_or(vars, "TIKTOK_FALLBACK_ENABLED", true);
        let tiktok_fallback_api_url = read_text_or(vars, "TIKTOK_FALLBACK_API_URL", DEFAULT_TIKWM_API_URL);
        let instagram_oembed_fallback_enabled = read_flag_or(
            vars,
            "INSTAGRAM_OEMBED_FALLBACK_ENABLED",
            true,
        );
        Ok(Environment {
            app_env,
            host,
            port,
            public_base_url,
            rust_log,
            database_url,
            database_max_connections,
            database_min_connections,
            database_acquire_timeout_seconds,
            database_run_migrations,
            cors_allowed_origins,
            download_token_secret,
            download_token_ttl_seconds,
            max_url_length,
            max_download_bytes,
            max_video_duration_seconds,
            upstream_connect_timeout_seconds,
            upstream_request_timeout_seconds,
            upstream_max_redirects,
            upstream_user_agent,
            stream_chunk_size_bytes,
            ytdlp_binary_path,
            ytdlp_metadata_timeout_seconds,
            ytdlp_download_timeout_seconds,
            download_retention_seconds,
            rate_limit_requests_per_minute,
            turnstile_site_key,
            turnstile_secret_key,
            enable_tiktok,
            enable_instagram,
            enable_youtube,
            enable_twitter,
            enable_facebook,
            enable_pinterest,
            enable_capcut,
            enable_telegram,
            enable_spotify,
            enable_soundcloud,
            cookies_file_path,
            ffmpeg_enabled,
            ffmpeg_binary_path,
            temp_dir,
            tiktok_fallback_enabled,
            tiktok_fallback_api_url,
            instagram_oembed_fallback_enabled,
        })
    }
}

} // verus!
