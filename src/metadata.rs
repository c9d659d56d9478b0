//! Metadata of one recording: the lookup request, the fields read from the
//! response, and the output file name derived from them.
use vstd::prelude::*;
use crate::error::AcqError;
use crate::sanitize::{sanitize_filename, sanitized};
use crate::text::{has_prefix, starts_with};

verus! {

/// A top-level value of the metadata response, as far as it is read.
#[derive(Debug, Clone)]
pub enum JsonValue {
    /// A JSON string.
    Str(String),
    /// A JSON number that fits in `i64`.
    Int(i64),
    /// Any other JSON value.
    Other,
}

/// One member of the top-level object of the metadata response.
#[derive(Debug, Clone)]
pub struct ApiField {
    pub key: String,
    pub value: JsonValue,
}

/// What was resolved about one recording.
#[derive(Debug, Clone)]
pub struct VideoMetadata {
    pub video_id: String,
    pub title: String,
    pub timestamp: i64,
    pub date: String,
    pub playback_url: String,
}

/// The value under `key`, looking from position `i` on.
pub open spec fn field_from(fields: Seq<ApiField>, key: Seq<char>, i: int) -> Option<JsonValue>
    decreases fields.len() - i,
{
    if i < 0 || i >= fields.len() {
        None
    } else if fields[i].key@ == key {
        Some(fields[i].value)
    } else {
        field_from(fields, key, i + 1)
    }
}

/// The value under `key`: the first member with that key.
pub open spec fn field(fields: Seq<ApiField>, key: Seq<char>) -> Option<JsonValue> {
    field_from(fields, key, 0)
}

/// The first of the playback-reference aliases that is present.
pub open spec fn playback_field(fields: Seq<ApiField>) -> Option<JsonValue> {
    match field(fields, "livestream_recording"@) {
        Some(v) => Some(v),
        None => match field(fields, "playback_url"@) {
            Some(v) => Some(v),
            None => field(fields, "recording_url"@),
        },
    }
}

/// The playback reference: the first present alias, when it is a string.
pub open spec fn playback_ref(fields: Seq<ApiField>) -> Option<Seq<char>> {
    match playback_field(fields) {
        Some(JsonValue::Str(s)) => Some(s@),
        _ => None,
    }
}

pub open spec fn title_of(fields: Seq<ApiField>) -> Seq<char> {
    match field(fields, "event_title"@) {
        Some(JsonValue::Str(s)) => s@,
        _ => "parti_video"@,
    }
}

pub open spec fn timestamp_of(fields: Seq<ApiField>) -> i64 {
    match field(fields, "event_start_ts"@) {
        Some(JsonValue::Int(t)) => t,
        _ => 0,
    }
}

/// The UTC calendar date `YYYY-MM-DD` of an epoch-seconds timestamp, when
/// the timestamp is within the calendar's range.
pub uninterp spec fn utc_date_of(ts: i64) -> Option<Seq<char>>;

/// Relies on chrono's `DateTime::<Utc>::from_timestamp` (`None` out of range)
/// and `format("%Y-%m-%d")`: the result depends on the timestamp alone.
#[verifier::external_body]
fn utc_date(ts: i64) -> (r: Option<String>)
    ensures
        r.is_some() == utc_date_of(ts).is_some(),
        r matches Some(d) ==> utc_date_of(ts) == Some(d@),
{
    chrono::DateTime::<chrono::Utc>::from_timestamp(ts, 0).map(|d| d.format("%Y-%m-%d").to_string())
}

/// The date token of a file name.
pub open spec fn date_of(ts: i64) -> Seq<char> {
    if ts > 0 {
        match utc_date_of(ts) {
            Some(d) => d,
            None => "unknown_date"@,
        }
    } else {
        "unknown_date"@
    }
}

/// Where a playback reference points: itself when absolute, else a path on
/// the provider's watch host.
pub open spec fn playback_url_of(p: Seq<char>) -> Seq<char> {
    if starts_with(p, "http"@) {
        p
    } else {
        "https://watch.parti.com/"@ + p
    }
}

pub open spec fn api_url_of(id: Seq<char>) -> Seq<char> {
    "https://api-backend.parti.com/parti_v2/profile/get_livestream_channel_info/recent/"@ + id
}

/// `<sanitized title>_<date>.<ext>`
pub open spec fn file_name_of(title: Seq<char>, date: Seq<char>, ext: Seq<char>) -> Seq<char> {
    sanitized(title) + "_"@ + date + "."@ + ext
}

/// The metadata request URL for a video identifier.
pub fn api_url(video_id: &str) -> (r: String)
    ensures
        r@ == api_url_of(video_id@),
{
    let r = String::from_str(
        "https://api-backend.parti.com/parti_v2/profile/get_livestream_channel_info/recent/",
    );
    r.concat(video_id)
}

/// The position of the first member with key `key`.
pub fn find_field(fields: &Vec<ApiField>, key: &str) -> (r: Option<usize>)
    ensures
        match r {
            Some(i) => i < fields@.len() && field(fields@, key@) == Some(fields@[i as int].value),
            None => field(fields@, key@) is None,
        },
{
    let mut i: usize = 0;
    while i < fields.len()
        invariant
            i <= fields@.len(),
            field(fields@, key@) == field_from(fields@, key@, i as int),
        decreases fields@.len() - i,
    {
        if same_key(&fields[i].key, key) {
            return Some(i);
        }
        i = i + 1;
    }
    None
}

fn same_key(a: &String, b: &str) -> (r: bool)
    ensures
        r == (a@ == b@),
{
    crate::text::same_text(a.as_str(), b)
}

/// The string under `key`, or `default` when it is absent or not a string.
fn string_field(fields: &Vec<ApiField>, key: &str, default: &str) -> (r: String)
    ensures
        r@ == (match field(fields@, key@) {
            Some(JsonValue::Str(s)) => s@,
            _ => default@,
        }),
{
    match find_field(fields, key) {
        Some(i) => match &fields[i].value {
            JsonValue::Str(s) => s.clone(),
            _ => String::from_str(default),
        },
        None => String::from_str(default),
    }
}

/// The playback URL for a reference.
pub fn playback_url(reference: &str) -> (r: String)
    ensures
        r@ == playback_url_of(reference@),
{
    if has_prefix(reference, "http") {
        String::from_str(reference)
    } else {
        String::from_str("https://watch.parti.com/").concat(reference)
    }
}

/// The date token for a timestamp: its UTC date when positive and within
/// the calendar's range, else `unknown_date`.
pub fn date_token(ts: i64) -> (r: String)
    ensures
        r@ == date_of(ts),
{
    if ts > 0 {
        match utc_date(ts) {
            Some(d) => d,
            None => String::from_str("unknown_date"),
        }
    } else {
        String::from_str("unknown_date")
    }
}

/// The output file name for a title, a date token and an extension.
pub fn output_file_name(title: &str, date: &str, ext: &str) -> (r: String)
    ensures
        r@ == file_name_of(title@, date@, ext@),
{
    let s = sanitize_filename(title);
    let r = s.concat("_").concat(date).concat(".").concat(ext);
    r
}

/// Reads the playback reference, title and timestamp of a metadata
/// response; `MissingPlaybackReference` when the first present alias of
/// the playback reference is absent or not a string.
pub fn resolve_metadata(video_id: &str, fields: &Vec<ApiField>) -> (r: Result<
    VideoMetadata,
    AcqError,
>)
    ensures
        match r {
            Ok(m) => playback_ref(fields@) matches Some(p) && m.playback_url@ == playback_url_of(p)
                && m.video_id@ == video_id@ && m.title@ == title_of(fields@) && m.timestamp
                == timestamp_of(fields@) && m.date@ == date_of(m.timestamp),
            Err(e) => e == AcqError::MissingPlaybackReference && playback_ref(fields@) is None,
        },
{
    let mut at = find_field(fields, "livestream_recording");
    if at.is_none() {
        at = find_field(fields, "playback_url");
    }
    if at.is_none() {
        at = find_field(fields, "recording_url");
    }
    let reference = match at {
        Some(i) => match &fields[i].value {
            JsonValue::Str(s) => s,
            _ => return Err(AcqError::MissingPlaybackReference),
        },
        None => return Err(AcqError::MissingPlaybackReference),
    };
    let url = playback_url(reference.as_str());
    let title = string_field(fields, "event_title", "parti_video");
    let timestamp: i64 = match find_field(fields, "event_start_ts") {
        Some(i) => match &fields[i].value {
            JsonValue::Int(t) => *t,
            _ => 0,
        },
        None => 0,
    };
    let date = date_token(timestamp);
    Ok(VideoMetadata { video_id: String::from_str(video_id), title, timestamp, date, playback_url: url })
}

} // verus!
