//! Rules of the video-download operations: which requests are accepted, how
//! a stored row becomes an operation, when an operation is queued again, and
//! how the downloader's outcome is judged.
use vstd::prelude::*;
use vstd::utf8::encode_utf8;

use base64::Engine;

use crate::json::{json_as_str, json_get, json_parsed, parse_json, JsonValue};
use crate::text::{
    byte_len, chars_have_suffix, chars_of, decimal, decimal_chars, has_suffix, is_control_char,
    str_eq, string_from_chars,
};

verus! {

broadcast use vstd::string::group_string_axioms;

/// Failed downloads are retried until this many attempts have been made.
pub const MAX_ATTEMPTS: i64 = 2;

/// A request to download the video of one group-chat message.
pub struct CreateRequest {
    pub idempotency_key: String,
    pub chat_id: String,
    pub local_id: i64,
}

/// A stored download operation.
pub struct Operation {
    pub id: String,
    pub idempotency_key: String,
    pub chat_id: String,
    pub local_id: i64,
    pub state: String,
    pub attempts: i64,
    pub error_code: Option<String>,
    pub size_bytes: Option<i64>,
    pub created_at: String,
    pub updated_at: String,
    pub completed_at: Option<String>,
}

/// The error code of a refused request, or `None` when it is accepted: the
/// idempotency key must hold 1 to 200 bytes; the chat must be a group
/// (`...@chatroom`) of at most 200 bytes without control characters, and the
/// message id must not be negative.
pub open spec fn validate_spec(input: CreateRequest) -> Option<Seq<char>> {
    if byte_len(input.idempotency_key@) == 0 || byte_len(input.idempotency_key@) > 200 {
        Some("VIDEO_DOWNLOAD_IDEMPOTENCY_KEY_INVALID"@)
    } else if !has_suffix(input.chat_id@, "@chatroom"@) || byte_len(input.chat_id@) > 200 || (
    exists|i: int| 0 <= i < input.chat_id@.len() && is_control_char(#[trigger] input.chat_id@[i]))
        || input.local_id < 0 {
        Some("VIDEO_DOWNLOAD_MESSAGE_ID_INVALID"@)
    } else {
        None
    }
}

/// Checks a download request; the error is the code answered with.
pub fn validate(input: &CreateRequest) -> (r: Result<(), &'static str>)
    ensures
        match r {
            Ok(()) => validate_spec(*input) is None,
            Err(code) => validate_spec(*input) == Some(code@),
        },
{
    let key_len = input.idempotency_key.as_str().as_bytes().len();
    if key_len == 0 || key_len > 200 {
        return Err("VIDEO_DOWNLOAD_IDEMPOTENCY_KEY_INVALID");
    }
    let chat = chars_of(input.chat_id.as_str());
    let suffix = chars_of("@chatroom");
    let mut has_control = false;
    let mut i: usize = 0;
    while i < chat.len()
        invariant
            i <= chat.len(),
            chat@ == input.chat_id@,
            has_control == exists|j: int| 0 <= j < i && is_control_char(#[trigger] chat@[j]),
        decreases chat.len() - i,
    {
        if crate::text::char_is_control(chat[i]) {
            has_control = true;
        }
        i += 1;
    }
    if !chars_have_suffix(&chat, &suffix) || input.chat_id.as_str().as_bytes().len() > 200 || has_control
        || input.local_id < 0 {
        return Err("VIDEO_DOWNLOAD_MESSAGE_ID_INVALID");
    }
    Ok(())
}

// ---------------------------------------------------------------------------
// Stored rows.

/// One column value as the database hands it out.
pub enum SqlValue {
    Null,
    Integer(i64),
    Real,
    Text(String),
    Blob(Vec<u8>),
}

/// A column read as text.
pub open spec fn sql_text(v: SqlValue) -> Option<Seq<char>> {
    match v {
        SqlValue::Text(s) => Some(s@),
        _ => None,
    }
}

/// A column read as an integer.
pub open spec fn sql_int(v: SqlValue) -> Option<i64> {
    match v {
        SqlValue::Integer(i) => Some(i),
        _ => None,
    }
}

/// A column read as optional text: NULL is none; anything else must be text.
pub open spec fn sql_opt_text(v: SqlValue) -> Option<Option<Seq<char>>> {
    match v {
        SqlValue::Null => Some(None),
        SqlValue::Text(s) => Some(Some(s@)),
        _ => None,
    }
}

/// A column read as an optional integer.
pub open spec fn sql_opt_int(v: SqlValue) -> Option<Option<i64>> {
    match v {
        SqlValue::Null => Some(None),
        SqlValue::Integer(i) => Some(Some(i)),
        _ => None,
    }
}

/// The row (id, idempotency_key, chat_id, local_id, state, attempts,
/// error_code, size_bytes, created_at, updated_at, completed_at) has a value
/// of the expected kind in each column.
pub open spec fn row_decodes(row: Seq<SqlValue>) -> bool {
    &&& row.len() >= 11
    &&& sql_text(row[0]) is Some
    &&& sql_text(row[1]) is Some
    &&& sql_text(row[2]) is Some
    &&& sql_int(row[3]) is Some
    &&& sql_text(row[4]) is Some
    &&& sql_int(row[5]) is Some
    &&& sql_opt_text(row[6]) is Some
    &&& sql_opt_int(row[7]) is Some
    &&& sql_text(row[8]) is Some
    &&& sql_text(row[9]) is Some
    &&& sql_opt_text(row[10]) is Some
}

pub open spec fn opt_string_view(s: Option<String>) -> Option<Seq<char>> {
    match s {
        Some(x) => Some(x@),
        None => None,
    }
}

/// The operation holds the values of a decodable row.
pub open spec fn operation_of_row(op: Operation, row: Seq<SqlValue>) -> bool {
    &&& Some(op.id@) == sql_text(row[0])
    &&& Some(op.idempotency_key@) == sql_text(row[1])
    &&& Some(op.chat_id@) == sql_text(row[2])
    &&& Some(op.local_id) == sql_int(row[3])
    &&& Some(op.state@) == sql_text(row[4])
    &&& Some(op.attempts) == sql_int(row[5])
    &&& Some(opt_string_view(op.error_code)) == sql_opt_text(row[6])
    &&& Some(op.size_bytes) == sql_opt_int(row[7])
    &&& Some(op.created_at@) == sql_text(row[8])
    &&& Some(op.updated_at@) == sql_text(row[9])
    &&& Some(opt_string_view(op.completed_at)) == sql_opt_text(row[10])
}

fn col_text(v: &SqlValue) -> (r: Option<String>)
    ensures
        opt_string_view(r) == sql_text(*v),
{
    match v {
        SqlValue::Text(s) => Some(s.clone()),
        _ => None,
    }
}

fn col_int(v: &SqlValue) -> (r: Option<i64>)
    ensures
        r == sql_int(*v),
{
    match v {
        SqlValue::Integer(i) => Some(*i),
        _ => None,
    }
}

fn col_opt_text(v: &SqlValue) -> (r: Option<Option<String>>)
    ensures
        match r {
            Some(x) => sql_opt_text(*v) == Some(opt_string_view(x)),
            None => sql_opt_text(*v) is None,
        },
{
    match v {
        SqlValue::Null => Some(None),
        SqlValue::Text(s) => Some(Some(s.clone())),
        _ => None,
    }
}

fn col_opt_int(v: &SqlValue) -> (r: Option<Option<i64>>)
    ensures
        r == sql_opt_int(*v),
{
    match v {
        SqlValue::Null => Some(None),
        SqlValue::Integer(i) => Some(Some(*i)),
        _ => None,
    }
}

/// The operation stored in a row, when the row was found and every column
/// holds a value of the expected kind.
pub fn load_operation(row: Option<Vec<SqlValue>>) -> (r: Option<Operation>)
    ensures
        r is Some == (row matches Some(v) && row_decodes(v@)),
        r matches Some(op) ==> operation_of_row(op, row->0@),
{
    let row = match row {
        Some(v) => v,
        None => return None,
    };
    if row.len() < 11 {
        return None;
    }
    let id = match col_text(&row[0]) {
        Some(x) => x,
        None => return None,
    };
    let idempotency_key = match col_text(&row[1]) {
        Some(x) => x,
        None => return None,
    };
    let chat_id = match col_text(&row[2]) {
        Some(x) => x,
        None => return None,
    };
    let local_id = match col_int(&row[3]) {
        Some(x) => x,
        None => return None,
    };
    let state = match col_text(&row[4]) {
        Some(x) => x,
        None => return None,
    };
    let attempts = match col_int(&row[5]) {
        Some(x) => x,
        None => return None,
    };
    let error_code = match col_opt_text(&row[6]) {
        Some(x) => x,
        None => return None,
    };
    let size_bytes = match col_opt_int(&row[7]) {
        Some(x) => x,
        None => return None,
    };
    let created_at = match col_text(&row[8]) {
        Some(x) => x,
        None => return None,
    };
    let updated_at = match col_text(&row[9]) {
        Some(x) => x,
        None => return None,
    };
    let completed_at = match col_opt_text(&row[10]) {
        Some(x) => x,
        None => return None,
    };
    Some(
        Operation {
            id,
            idempotency_key,
            chat_id,
            local_id,
            state,
            attempts,
            error_code,
            size_bytes,
            created_at,
            updated_at,
            completed_at,
        },
    )
}

// ---------------------------------------------------------------------------
// Creating an operation again.

/// What a create request does to the operation stored under its key.
#[derive(Clone, Copy, Debug, PartialEq, Eq, Structural)]
pub enum CreateOutcome {
    /// The key was used for another message: answer 409.
    Conflict,
    /// Put the operation back in the queue before scheduling it.
    Requeue,
    /// Schedule the operation as it is.
    Keep,
}

/// Byte-wise lexicographic order, as `str` and `String` compare.
pub open spec fn bytes_le(a: Seq<u8>, b: Seq<u8>) -> bool
    decreases a.len(),
{
    if a.len() == 0 {
        true
    } else if b.len() == 0 {
        false
    } else if a[0] != b[0] {
        a[0] < b[0]
    } else {
        bytes_le(a.drop_first(), b.drop_first())
    }
}

/// Text order of `str`: the order of the UTF-8 bytes.
pub open spec fn text_le(a: Seq<char>, b: Seq<char>) -> bool {
    bytes_le(encode_utf8(a), encode_utf8(b))
}

/// The decision for a create request that found `op` under its key;
/// `stale_before` is the time ten minutes ago, in the database's text form.
pub open spec fn create_outcome_spec(
    op: Operation,
    input: CreateRequest,
    stale_before: Seq<char>,
) -> CreateOutcome {
    if op.chat_id@ != input.chat_id@ || op.local_id != input.local_id {
        CreateOutcome::Conflict
    } else if op.state@ == "failed"@ && op.attempts < MAX_ATTEMPTS {
        CreateOutcome::Requeue
    } else if op.state@ != "ready"@ && op.attempts < MAX_ATTEMPTS && text_le(
        op.updated_at@,
        stale_before,
    ) {
        CreateOutcome::Requeue
    } else {
        CreateOutcome::Keep
    }
}

/// `a <= b` for string slices.
pub fn text_at_most(a: &str, b: &str) -> (r: bool)
    ensures
        r == text_le(a@, b@),
{
    let x = a.as_bytes();
    let y = b.as_bytes();
    let mut i: usize = 0;
    assert(x@.skip(0) =~= x@);
    assert(y@.skip(0) =~= y@);
    while i < x.len() && i < y.len() && x[i] == y[i]
        invariant
            i <= x.len(),
            i <= y.len(),
            bytes_le(x@, y@) == bytes_le(x@.skip(i as int), y@.skip(i as int)),
        decreases x.len() - i,
    {
        assert(x@.skip(i as int).drop_first() =~= x@.skip(i + 1));
        assert(y@.skip(i as int).drop_first() =~= y@.skip(i + 1));
        i += 1;
    }
    if i == x.len() {
        true
    } else if i == y.len() {
        false
    } else {
        x[i] < y[i]
    }
}

/// What to do with the operation stored under a create request's key.
pub fn create_outcome(op: &Operation, input: &CreateRequest, stale_before: &str) -> (r:
    CreateOutcome)
    ensures
        r == create_outcome_spec(*op, *input, stale_before@),
{
    if !str_eq(op.chat_id.as_str(), input.chat_id.as_str()) || op.local_id != input.local_id {
        return CreateOutcome::Conflict;
    }
    if str_eq(op.state.as_str(), "failed") && op.attempts < MAX_ATTEMPTS {
        CreateOutcome::Requeue
    } else if !str_eq(op.state.as_str(), "ready") && op.attempts < MAX_ATTEMPTS && text_at_most(
        op.updated_at.as_str(),
        stale_before,
    ) {
        CreateOutcome::Requeue
    } else {
        CreateOutcome::Keep
    }
}

// ---------------------------------------------------------------------------
// Running an operation.

/// Why a run stopped before the download was confirmed.
#[derive(Clone, Copy, Debug, PartialEq, Eq, Structural)]
pub enum RunFailure {
    SessionUnavailable,
    LoginRequired,
    ChatNotFound,
    CacheIdentityUnavailable,
    ThumbnailWriteFailed,
    OutputInvalid,
}

pub open spec fn run_failure_code(f: RunFailure) -> Seq<char> {
    match f {
        RunFailure::SessionUnavailable => "SOURCE_SESSION_UNAVAILABLE"@,
        RunFailure::LoginRequired => "SOURCE_LOGIN_REQUIRED"@,
        RunFailure::ChatNotFound => "VIDEO_CHAT_NOT_FOUND"@,
        RunFailure::CacheIdentityUnavailable => "VIDEO_CACHE_IDENTITY_UNAVAILABLE"@,
        RunFailure::ThumbnailWriteFailed => "VIDEO_THUMBNAIL_WRITE_FAILED"@,
        RunFailure::OutputInvalid => "VIDEO_DOWNLOAD_OUTPUT_INVALID"@,
    }
}

impl RunFailure {
    /// The error code stored with the failed operation.
    pub fn code(&self) -> (r: &'static str)
        ensures
            r@ == run_failure_code(*self),
    {
        match self {
            RunFailure::SessionUnavailable => "SOURCE_SESSION_UNAVAILABLE",
            RunFailure::LoginRequired => "SOURCE_LOGIN_REQUIRED",
            RunFailure::ChatNotFound => "VIDEO_CHAT_NOT_FOUND",
            RunFailure::CacheIdentityUnavailable => "VIDEO_CACHE_IDENTITY_UNAVAILABLE",
            RunFailure::ThumbnailWriteFailed => "VIDEO_THUMBNAIL_WRITE_FAILED",
            RunFailure::OutputInvalid => "VIDEO_DOWNLOAD_OUTPUT_INVALID",
        }
    }
}

/// A run goes ahead only when its claim updated exactly one operation.
pub fn claim_succeeded(updated_rows: usize) -> (r: bool)
    ensures
        r == (updated_rows == 1),
{
    updated_rows == 1
}

/// A state in which a run is under way.
pub open spec fn working_state(state: Seq<char>) -> bool {
    state == "dispatching"@ || state == "locating"@ || state == "triggering"@ || state
        == "validating"@
}

/// A run may claim `op`: it has attempts left, and it is queued, failed, or
/// stuck in a working state since `stale_before` (the time ten minutes ago,
/// in the database's text form) or earlier.
pub open spec fn claimable_spec(op: Operation, stale_before: Seq<char>) -> bool {
    &&& op.attempts < MAX_ATTEMPTS
    &&& (op.state@ == "queued"@ || op.state@ == "failed"@ || (working_state(op.state@) && text_le(
        op.updated_at@,
        stale_before,
    )))
}

/// Whether a run may claim the operation; claiming it moves it to
/// `dispatching` and counts one more attempt.
pub fn claimable(op: &Operation, stale_before: &str) -> (r: bool)
    ensures
        r == claimable_spec(*op, stale_before@),
{
    if op.attempts >= MAX_ATTEMPTS {
        return false;
    }
    let s = op.state.as_str();
    if str_eq(s, "queued") || str_eq(s, "failed") {
        return true;
    }
    (str_eq(s, "dispatching") || str_eq(s, "locating") || str_eq(s, "triggering") || str_eq(
        s,
        "validating",
    )) && text_at_most(op.updated_at.as_str(), stale_before)
}

fn concat3(a: &str, b: &Vec<char>, c: &str) -> (r: String)
    ensures
        r@ == a@ + b@ + c@,
{
    let mut v = chars_of(a);
    let tail = chars_of(c);
    let ghost head = v@;
    let mut i: usize = 0;
    while i < b.len()
        invariant
            i <= b.len(),
            v@ == head + b@.take(i as int),
        decreases b.len() - i,
    {
        v.push(b[i]);
        assert(v@ =~= head + b@.take(i + 1));
        i += 1;
    }
    let ghost mid = v@;
    let mut j: usize = 0;
    while j < tail.len()
        invariant
            j <= tail.len(),
            v@ == mid + tail@.take(j as int),
        decreases tail.len() - j,
    {
        v.push(tail[j]);
        assert(v@ =~= mid + tail@.take(j + 1));
        j += 1;
    }
    assert(v@ =~= a@ + b@ + c@);
    string_from_chars(&v)
}

/// The temporary thumbnail handed to the downloader for operation `id`.
pub fn temporary_thumbnail(id: &str) -> (r: String)
    ensures
        r@ == "/tmp/agent-video-"@ + id@ + ".jpg"@,
{
    let v = chars_of(id);
    concat3("/tmp/agent-video-", &v, ".jpg")
}

/// The cached thumbnail and cover file names of a video stem, in the order
/// they are tried.
pub fn thumbnail_candidates(stem: &str) -> (r: (String, String))
    ensures
        r.0@ == stem@ + "_thumb.jpg"@,
        r.1@ == stem@ + ".jpg"@,
{
    let v = chars_of(stem);
    proof {
        reveal_strlit("");
    }
    let a = concat3("", &v, "_thumb.jpg");
    let b = concat3("", &v, ".jpg");
    assert(a@ =~= stem@ + "_thumb.jpg"@);
    assert(b@ =~= stem@ + ".jpg"@);
    (a, b)
}

/// The decimal text of a message id.
pub fn local_id_text(local_id: i64) -> (r: String)
    ensures
        r@ == decimal(local_id as int),
{
    let v = decimal_chars(local_id);
    string_from_chars(&v)
}

/// The downloader's arguments for one operation.
pub open spec fn download_args_spec(
    chat_id: Seq<char>,
    chat_name: Seq<char>,
    local_id: i64,
    video_dir: Seq<char>,
    stem: Seq<char>,
    thumbnail: Seq<char>,
) -> Seq<Seq<char>> {
    seq![
        "--chat-id"@,
        chat_id,
        "--chat-name"@,
        chat_name,
        "--local-id"@,
        decimal(local_id as int),
        "--video-dir"@,
        video_dir,
        "--stem"@,
        stem,
        "--thumbnail"@,
        thumbnail,
    ]
}

/// The arguments the downloader is run with.
pub fn download_args(
    chat_id: &str,
    chat_name: &str,
    local_id: i64,
    video_dir: &str,
    stem: &str,
    thumbnail: &str,
) -> (r: Vec<String>)
    ensures
        r@.map_values(|s: String| s@) == download_args_spec(
            chat_id@,
            chat_name@,
            local_id,
            video_dir@,
            stem@,
            thumbnail@,
        ),
{
    let mut v: Vec<String> = Vec::new();
    v.push("--chat-id".to_owned());
    v.push(chat_id.to_owned());
    v.push("--chat-name".to_owned());
    v.push(chat_name.to_owned());
    v.push("--local-id".to_owned());
    v.push(local_id_text(local_id));
    v.push("--video-dir".to_owned());
    v.push(video_dir.to_owned());
    v.push("--stem".to_owned());
    v.push(stem.to_owned());
    v.push("--thumbnail".to_owned());
    v.push(thumbnail.to_owned());
    assert(v@.map_values(|s: String| s@) =~= download_args_spec(
        chat_id@,
        chat_name@,
        local_id,
        video_dir@,
        stem@,
        thumbnail@,
    ));
    v
}

/// The error code stored when the downloader fails: the `errorCode` text of
/// its JSON output, else `VIDEO_DOWNLOAD_UI_FAILED`.
pub open spec fn trigger_failure_code_spec(output: Option<JsonValue>) -> Seq<char> {
    match output {
        Some(v) => match json_get(v, "errorCode"@) {
            Some(c) => match json_as_str(c) {
                Some(s) => s,
                None => "VIDEO_DOWNLOAD_UI_FAILED"@,
            },
            None => "VIDEO_DOWNLOAD_UI_FAILED"@,
        },
        None => "VIDEO_DOWNLOAD_UI_FAILED"@,
    }
}

/// The error code for a failed downloader run, read from its standard output
/// as JSON.
pub fn trigger_failure_code(stdout: &str) -> (r: String)
    ensures
        r@ == trigger_failure_code_spec(json_parsed(encode_utf8(stdout@))),
{
    let output = parse_json(stdout.as_bytes());
    if let Some(v) = &output {
        if let Some(c) = v.get("errorCode") {
            if let Some(s) = c.as_str() {
                return s.to_owned();
            }
        }
    }
    "VIDEO_DOWNLOAD_UI_FAILED".to_owned()
}

/// What the message resolver reports of a downloaded medium.
pub struct MediaInfo {
    pub media_type: String,
    pub format: String,
    pub filename: String,
    pub data: Option<String>,
}

/// What `base64::engine::general_purpose::STANDARD.decode` makes of a text:
/// the decoded bytes, or `None` when the text is not valid padded base64.
pub uninterp spec fn base64_standard_decoded(text: Seq<char>) -> Option<Seq<u8>>;

/// The error `base64` reports for text that does not decode.
#[verifier::external_type_specification]
#[verifier::external_body]
pub struct ExBase64DecodeError(base64::DecodeError);

/// `base64::engine::general_purpose::STANDARD.decode(text)`. The decoding
/// itself is not stated: its result is named `base64_standard_decoded`,
/// with `None` standing for any error.
#[verifier::external_body]
fn decode_base64_standard(text: &str) -> (r: Result<Vec<u8>, base64::DecodeError>)
    ensures
        match r {
            Ok(v) => base64_standard_decoded(text@) == Some(v@),
            Err(_) => base64_standard_decoded(text@) is None,
        },
{
    base64::engine::general_purpose::STANDARD.decode(text)
}

/// The size of a downloaded file that looks like an MP4 (at least 12 bytes,
/// with `ftyp` at offset 4); 0 for anything else.
pub open spec fn mp4_size_spec(bytes: Option<Seq<u8>>) -> i64 {
    match bytes {
        Some(b) => if b.len() >= 12 && b.subrange(4, 8) == seq![0x66u8, 0x74, 0x79, 0x70] {
            b.len() as i64
        } else {
            0
        },
        None => 0,
    }
}

/// The size of a decoded download, 0 unless it is an MP4 file.
pub fn mp4_size(bytes: Option<Vec<u8>>) -> (r: i64)
    ensures
        r == mp4_size_spec(
            match bytes {
                Some(b) => Some(b@),
                None => None,
            },
        ),
{
    match bytes {
        Some(b) => {
            if b.len() >= 12 && b[4] == 0x66 && b[5] == 0x74 && b[6] == 0x79 && b[7] == 0x70 {
                assert(b@.subrange(4, 8) =~= seq![0x66u8, 0x74, 0x79, 0x70]);
                b.len() as i64
            } else {
                if b.len() >= 12 {
                    assert(b@.subrange(4, 8)[0] == b@[4]);
                    assert(b@.subrange(4, 8)[1] == b@[5]);
                    assert(b@.subrange(4, 8)[2] == b@[6]);
                    assert(b@.subrange(4, 8)[3] == b@[7]);
                }
                0
            }
        },
        None => 0,
    }
}

/// The file name the message resolver gives a message's video.
pub open spec fn video_filename(local_id: i64) -> Seq<char> {
    "msg_"@ + decimal(local_id as int) + ".mp4"@
}

/// The size of the downloaded video: the medium must be an MP4 video named
/// after the message, and its data must decode to an MP4 file; 0 otherwise.
pub open spec fn downloaded_size_spec(media: MediaInfo, local_id: i64) -> i64 {
    if media.media_type@ == "video"@ && media.format@ == "mp4"@ && media.filename@
        == video_filename(local_id) {
        match media.data {
            Some(d) => mp4_size_spec(base64_standard_decoded(d@)),
            None => 0,
        }
    } else {
        0
    }
}

/// The size of the downloaded video, 0 when the download is not valid.
pub fn downloaded_size(media: &MediaInfo, local_id: i64) -> (r: i64)
    ensures
        r == downloaded_size_spec(*media, local_id),
{
    let digits = decimal_chars(local_id);
    let expected = concat3("msg_", &digits, ".mp4");
    if str_eq(media.media_type.as_str(), "video") && str_eq(media.format.as_str(), "mp4")
        && str_eq(media.filename.as_str(), expected.as_str()) {
        match &media.data {
            Some(encoded) => mp4_size(decode_base64_standard(encoded.as_str()).ok()),
            None => 0,
        }
    } else {
        0
    }
}

/// How a validated run ends: ready with its size, or failed.
pub fn run_result(size: i64) -> (r: Result<i64, RunFailure>)
    ensures
        r == (if size > 0 {
            Ok::<i64, RunFailure>(size)
        } else {
            Err::<i64, RunFailure>(RunFailure::OutputInvalid)
        }),
{
    if size > 0 {
        Ok(size)
    } else {
        Err(RunFailure::OutputInvalid)
    }
}

// ---------------------------------------------------------------------------
// The course of a run.

/// Where a run stands. Between loading the operation and triggering the
/// downloader, a run looks up in turn the session, its logged-in account, the
/// chat, the cache target of the video, and copies the thumbnail.
#[derive(Clone, Copy, Debug, PartialEq, Eq, Structural)]
pub enum RunStage {
    Claiming,
    Loading,
    FindingSession,
    ReadingAccount,
    FindingChat,
    FindingCacheTarget,
    CopyingThumbnail,
    Triggering,
    Validating,
    Finished,
}

/// What the outside work of a stage turned out.
pub enum RunEvent {
    /// The claim updated this many operations.
    Claimed(usize),
    /// The claimed operation was read back, or not.
    Loaded(bool),
    /// The lookup of the stage found what it looks for (for the thumbnail:
    /// there was none to copy, or the copy was written).
    Found(bool),
    /// The downloader exited; `failure_code` is what its output names.
    TriggerExited { exit_code: i32, failure_code: String },
    /// The downloaded file was checked; its size (0 when invalid).
    Validated(i64),
}

/// The stages that look something up before the downloader runs.
pub open spec fn is_lookup(stage: RunStage) -> bool {
    stage == RunStage::FindingSession || stage == RunStage::ReadingAccount || stage
        == RunStage::FindingChat || stage == RunStage::FindingCacheTarget || stage
        == RunStage::CopyingThumbnail
}

/// The stage that follows a lookup which found what it looks for.
pub open spec fn after_lookup(stage: RunStage) -> RunStage {
    match stage {
        RunStage::FindingSession => RunStage::ReadingAccount,
        RunStage::ReadingAccount => RunStage::FindingChat,
        RunStage::FindingChat => RunStage::FindingCacheTarget,
        RunStage::FindingCacheTarget => RunStage::CopyingThumbnail,
        _ => RunStage::Triggering,
    }
}

/// Why a run fails when the lookup of `stage` finds nothing.
pub open spec fn lookup_failure(stage: RunStage) -> RunFailure {
    match stage {
        RunStage::FindingSession => RunFailure::SessionUnavailable,
        RunStage::ReadingAccount => RunFailure::LoginRequired,
        RunStage::FindingChat => RunFailure::ChatNotFound,
        RunStage::FindingCacheTarget => RunFailure::CacheIdentityUnavailable,
        _ => RunFailure::ThumbnailWriteFailed,
    }
}

/// What a run writes to its operation.
pub enum RunUpdate {
    Nothing,
    /// The operation moves to the named working state.
    State(&'static str),
    /// The operation failed with this code.
    Failed(String),
    /// The operation is ready, with this size.
    Ready(i64),
}

pub enum RunUpdateView {
    Nothing,
    State(Seq<char>),
    Failed(Seq<char>),
    Ready(i64),
}

impl View for RunUpdate {
    type V = RunUpdateView;

    open spec fn view(&self) -> RunUpdateView {
        match self {
            RunUpdate::Nothing => RunUpdateView::Nothing,
            RunUpdate::State(s) => RunUpdateView::State(s@),
            RunUpdate::Failed(c) => RunUpdateView::Failed(c@),
            RunUpdate::Ready(n) => RunUpdateView::Ready(*n),
        }
    }
}

/// The next stage of a run, and what is written to its operation, when the
/// outside work of `stage` turned out as `event`. An event that does not
/// belong to the stage changes nothing.
pub open spec fn run_step_spec(stage: RunStage, event: RunEvent) -> (RunStage, RunUpdateView) {
    match event {
        RunEvent::Claimed(n) => if stage != RunStage::Claiming {
            (stage, RunUpdateView::Nothing)
        } else if n == 1 {
            (RunStage::Loading, RunUpdateView::Nothing)
        } else {
            (RunStage::Finished, RunUpdateView::Nothing)
        },
        RunEvent::Loaded(found) => if stage != RunStage::Loading {
            (stage, RunUpdateView::Nothing)
        } else if found {
            (RunStage::FindingSession, RunUpdateView::State("locating"@))
        } else {
            (RunStage::Finished, RunUpdateView::Nothing)
        },
        RunEvent::Found(found) => if !is_lookup(stage) {
            (stage, RunUpdateView::Nothing)
        } else if !found {
            (RunStage::Finished, RunUpdateView::Failed(run_failure_code(lookup_failure(stage))))
        } else if stage == RunStage::CopyingThumbnail {
            (RunStage::Triggering, RunUpdateView::State("triggering"@))
        } else {
            (after_lookup(stage), RunUpdateView::Nothing)
        },
        RunEvent::TriggerExited { exit_code, failure_code } => if stage != RunStage::Triggering {
            (stage, RunUpdateView::Nothing)
        } else if exit_code == 0 {
            (RunStage::Validating, RunUpdateView::State("validating"@))
        } else {
            (RunStage::Finished, RunUpdateView::Failed(failure_code@))
        },
        RunEvent::Validated(size) => if stage != RunStage::Validating {
            (stage, RunUpdateView::Nothing)
        } else if size > 0 {
            (RunStage::Finished, RunUpdateView::Ready(size))
        } else {
            (RunStage::Finished, RunUpdateView::Failed(run_failure_code(RunFailure::OutputInvalid)))
        },
    }
}

/// One step of a run: the claim must have taken exactly one operation; the
/// operation is then loaded, the session, account, chat, cache target and
/// thumbnail looked up in that order, the downloader triggered, and its
/// output validated, each failure ending the run with its code.
pub fn run_step(stage: RunStage, event: RunEvent) -> (r: (RunStage, RunUpdate))
    ensures
        (r.0, r.1@) == run_step_spec(stage, event),
{
    match event {
        RunEvent::Claimed(n) => if stage != RunStage::Claiming {
            (stage, RunUpdate::Nothing)
        } else if claim_succeeded(n) {
            (RunStage::Loading, RunUpdate::Nothing)
        } else {
            (RunStage::Finished, RunUpdate::Nothing)
        },
        RunEvent::Loaded(found) => if stage != RunStage::Loading {
            (stage, RunUpdate::Nothing)
        } else if found {
            (RunStage::FindingSession, RunUpdate::State("locating"))
        } else {
            (RunStage::Finished, RunUpdate::Nothing)
        },
        RunEvent::Found(found) => {
            let (next, failure) = match stage {
                RunStage::FindingSession => (RunStage::ReadingAccount, RunFailure::SessionUnavailable),
                RunStage::ReadingAccount => (RunStage::FindingChat, RunFailure::LoginRequired),
                RunStage::FindingChat => (RunStage::FindingCacheTarget, RunFailure::ChatNotFound),
                RunStage::FindingCacheTarget => (
                    RunStage::CopyingThumbnail,
                    RunFailure::CacheIdentityUnavailable,
                ),
                RunStage::CopyingThumbnail => (RunStage::Triggering, RunFailure::ThumbnailWriteFailed),
                _ => {
                    return (stage, RunUpdate::Nothing);
                },
            };
            if !found {
                (RunStage::Finished, RunUpdate::Failed(failure.code().to_owned()))
            } else if stage == RunStage::CopyingThumbnail {
                (next, RunUpdate::State("triggering"))
            } else {
                (next, RunUpdate::Nothing)
            }
        },
        RunEvent::TriggerExited { exit_code, failure_code } => if stage != RunStage::Triggering {
            (stage, RunUpdate::Nothing)
        } else if exit_code == 0 {
            (RunStage::Validating, RunUpdate::State("validating"))
        } else {
            (RunStage::Finished, RunUpdate::Failed(failure_code))
        },
        RunEvent::Validated(size) => if stage != RunStage::Validating {
            (stage, RunUpdate::Nothing)
        } else {
            match run_result(size) {
                Ok(n) => (RunStage::Finished, RunUpdate::Ready(n)),
                Err(f) => (RunStage::Finished, RunUpdate::Failed(f.code().to_owned())),
            }
        },
    }
}

/// A run marks its operation ready only from validation, with a positive
/// size, and then it is over; a finished run stays finished.
pub proof fn law_ready_only_after_validation(stage: RunStage, event: RunEvent)
    ensures
        run_step_spec(stage, event).1 matches RunUpdateView::Ready(n) ==> stage
            == RunStage::Validating && n > 0 && run_step_spec(stage, event).0
            == RunStage::Finished,
        stage == RunStage::Finished ==> run_step_spec(stage, event) == (
            RunStage::Finished,
            RunUpdateView::Nothing,
        ),
{
}

/// The downloader is triggered only after every lookup succeeded in order: a
/// run enters a lookup stage or the trigger stage only from the stage before
/// it, when that stage found what it looks for.
pub proof fn law_lookups_in_order(stage: RunStage, event: RunEvent)
    ensures
        ({
            let next = run_step_spec(stage, event).0;
            (is_lookup(next) || next == RunStage::Triggering) && next != stage ==> (
            next == RunStage::FindingSession && stage == RunStage::Loading) || (is_lookup(stage)
                && next == after_lookup(stage) && event matches RunEvent::Found(true))
        }),
{
}

// ---------------------------------------------------------------------------
// Laws.

/// Only group-chat messages are accepted: an accepted request names a chat
/// ending in `@chatroom` and a message id that is not negative.
pub proof fn law_only_group_messages_accepted(input: CreateRequest)
    requires
        validate_spec(input) is None,
    ensures
        has_suffix(input.chat_id@, "@chatroom"@),
        input.local_id >= 0,
        0 < byte_len(input.idempotency_key@) <= 200,
{
}

/// A create request never re-queues a finished operation, nor one that has
/// used up its attempts, nor one stored for another message.
pub proof fn law_requeue_only_retryable(op: Operation, input: CreateRequest, stale_before: Seq<char>)
    requires
        create_outcome_spec(op, input, stale_before) == CreateOutcome::Requeue,
    ensures
        op.state@ != "ready"@,
        op.attempts < MAX_ATTEMPTS,
        op.chat_id@ == input.chat_id@ && op.local_id == input.local_id,
{
    reveal_strlit("failed");
    reveal_strlit("ready");
    assert("failed"@.len() != "ready"@.len());
}

/// The same key for another message is always a conflict.
pub proof fn law_conflict_on_other_message(
    op: Operation,
    input: CreateRequest,
    stale_before: Seq<char>,
)
    ensures
        (create_outcome_spec(op, input, stale_before) == CreateOutcome::Conflict) <==> (op.chat_id@
            != input.chat_id@ || op.local_id != input.local_id),
{
}

/// A download is confirmed only for the message's own MP4 video: a positive
/// size is the length of data that decodes to a file with the `ftyp` box.
pub proof fn law_positive_size_is_mp4(media: MediaInfo, local_id: i64)
    requires
        downloaded_size_spec(media, local_id) > 0,
    ensures
        media.media_type@ == "video"@,
        media.format@ == "mp4"@,
        media.filename@ == video_filename(local_id),
        media.data matches Some(d) && base64_standard_decoded(d@) matches Some(b) && b.len() >= 12
            && b.subrange(4, 8) == seq![0x66u8, 0x74, 0x79, 0x70] && downloaded_size_spec(
            media,
            local_id,
        ) == b.len() as i64,
{
}

/// A claim never takes an operation that has used up its attempts, nor a
/// finished one: after the claim counts its attempt, the attempts are still
/// at most `MAX_ATTEMPTS`.
pub proof fn law_claim_keeps_attempts_bounded(op: Operation, stale_before: Seq<char>)
    requires
        claimable_spec(op, stale_before),
    ensures
        op.attempts + 1 <= MAX_ATTEMPTS,
        op.state@ != "ready"@,
{
    reveal_strlit("ready");
    reveal_strlit("queued");
    reveal_strlit("failed");
    reveal_strlit("dispatching");
    reveal_strlit("locating");
    reveal_strlit("triggering");
    reveal_strlit("validating");
    assert("ready"@.len() == 5);
    assert(op.state@ == "ready"@ ==> op.state@.len() == 5);
}

proof fn lemma_bytes_le_total(a: Seq<u8>, b: Seq<u8>)
    ensures
        bytes_le(a, a),
        bytes_le(a, b) || bytes_le(b, a),
        bytes_le(a, b) && bytes_le(b, a) ==> a == b,
    decreases a.len(),
{
    if a.len() > 0 {
        lemma_bytes_le_total(a.drop_first(), a.drop_first());
        if b.len() > 0 {
            lemma_bytes_le_total(a.drop_first(), b.drop_first());
            if bytes_le(a, b) && bytes_le(b, a) {
                assert(a =~= seq![a[0]] + a.drop_first());
                assert(b =~= seq![b[0]] + b.drop_first());
            }
        }
    } else if b.len() == 0 {
        assert(a =~= b);
    }
}

/// Times compare as text: every text is at most itself, any two texts are
/// ordered one way or the other, and two texts each at most the other are the
/// same text.
pub proof fn law_text_order(a: Seq<char>, b: Seq<char>)
    ensures
        text_le(a, a),
        text_le(a, b) || text_le(b, a),
        text_le(a, b) && text_le(b, a) ==> a == b,
{
    lemma_bytes_le_total(encode_utf8(a), encode_utf8(b));
    lemma_bytes_le_total(encode_utf8(b), encode_utf8(a));
    vstd::utf8::encode_utf8_decode_utf8(a);
    vstd::utf8::encode_utf8_decode_utf8(b);
}

/// Byte order, pointwise: a byte string is at most any string it is a prefix
/// of, and after a common prefix the first differing byte decides.
pub proof fn law_bytes_order(x: Seq<u8>, y: Seq<u8>, i: int)
    requires
        0 <= i <= x.len(),
        i <= y.len(),
        x.subrange(0, i) == y.subrange(0, i),
    ensures
        i == x.len() ==> bytes_le(x, y),
        i < x.len() && i < y.len() && x[i] != y[i] ==> (bytes_le(x, y) == (x[i] < y[i])),
    decreases i,
{
    if i > 0 {
        assert(x[0] == x.subrange(0, i)[0]);
        assert(y[0] == y.subrange(0, i)[0]);
        assert(x.drop_first().subrange(0, i - 1) =~= x.subrange(0, i).drop_first());
        assert(y.drop_first().subrange(0, i - 1) =~= y.subrange(0, i).drop_first());
        law_bytes_order(x.drop_first(), y.drop_first(), i - 1);
    }
}

/// The claim rule in full: nothing is claimed once its attempts are used up;
/// with attempts left, a queued or failed operation is always claimed,
/// whenever it was last updated; one in a working state (`dispatching`,
/// `locating`, `triggering`, `validating`) only when it was last updated at
/// `stale_before` or earlier; one in any other state (such as `ready`) never.
pub proof fn law_claim_rule(op: Operation, stale_before: Seq<char>)
    ensures
        op.attempts >= MAX_ATTEMPTS ==> !claimable_spec(op, stale_before),
        op.attempts < MAX_ATTEMPTS && (op.state@ == "queued"@ || op.state@ == "failed"@)
            ==> claimable_spec(op, stale_before),
        op.attempts < MAX_ATTEMPTS && (op.state@ == "dispatching"@ || op.state@ == "locating"@
            || op.state@ == "triggering"@ || op.state@ == "validating"@) ==> (claimable_spec(
            op,
            stale_before,
        ) == text_le(op.updated_at@, stale_before)),
        op.state@ != "queued"@ && op.state@ != "failed"@ && op.state@ != "dispatching"@
            && op.state@ != "locating"@ && op.state@ != "triggering"@ && op.state@
            != "validating"@ ==> !claimable_spec(op, stale_before),
{
    reveal_strlit("queued");
    reveal_strlit("failed");
    reveal_strlit("dispatching");
    reveal_strlit("locating");
    reveal_strlit("triggering");
    reveal_strlit("validating");
    assert("queued"@.len() == 6 && "failed"@.len() == 6);
    assert("dispatching"@.len() == 11 && "locating"@.len() == 8);
    assert("triggering"@.len() == 10 && "validating"@.len() == 10);
}

/// Every byte string of at least 12 bytes with `ftyp` at offsets 4 to 8 is
/// taken as an MP4 file of its own length, whatever the other bytes hold;
/// any other byte string, or none, has size 0.
pub proof fn law_mp4_size_is_length_of_ftyp_files(b: Seq<u8>)
    requires
        b.len() <= i64::MAX,
    ensures
        b.len() >= 12 && b[4] == 0x66 && b[5] == 0x74 && b[6] == 0x79 && b[7] == 0x70
            ==> mp4_size_spec(Some(b)) == b.len(),
        !(b.len() >= 12 && b[4] == 0x66 && b[5] == 0x74 && b[6] == 0x79 && b[7] == 0x70)
            ==> mp4_size_spec(Some(b)) == 0,
        mp4_size_spec(None) == 0,
{
    if b.len() >= 12 && b[4] == 0x66 && b[5] == 0x74 && b[6] == 0x79 && b[7] == 0x70 {
        assert(b.subrange(4, 8) =~= seq![0x66u8, 0x74, 0x79, 0x70]);
    } else if b.len() >= 12 {
        assert(b.subrange(4, 8)[0] == b[4]);
        assert(b.subrange(4, 8)[1] == b[5]);
        assert(b.subrange(4, 8)[2] == b[6]);
        assert(b.subrange(4, 8)[3] == b[7]);
    }
}

/// A download is confirmed with the decoded file's length whenever the
/// medium is an MP4 video named after the message and its data decodes to
/// bytes with `ftyp` at offsets 4 to 8 (at least 12 bytes in all).
pub proof fn law_mp4_download_confirmed(media: MediaInfo, local_id: i64, b: Seq<u8>)
    requires
        media.media_type@ == "video"@,
        media.format@ == "mp4"@,
        media.filename@ == "msg_"@ + decimal(local_id as int) + ".mp4"@,
        media.data is Some,
        base64_standard_decoded(media.data->0@) == Some(b),
        12 <= b.len() <= i64::MAX,
        b[4] == 0x66 && b[5] == 0x74 && b[6] == 0x79 && b[7] == 0x70,
    ensures
        downloaded_size_spec(media, local_id) == b.len(),
{
    law_mp4_size_is_length_of_ftyp_files(b);
}

} // verus!
