use vstd::prelude::*;
use vstd::string::StringExecFns;

use crate::jwt::{is_alphanumeric_ascii, random_alphanumeric};
use crate::models::{api_error, is_error, maintenance_error, ApiError, HttpStatus, MediaItem, UserBroadcast, WsEvent};
use crate::text::concat3;

verus! {

/// How many files one upload request may carry.
pub const MAX_FILES_PER_REQUEST: usize = 10;

/// Reply for one stored file.
#[derive(Debug)]
pub struct UploadResponse {
    pub file: String,
    pub file_url: String,
    pub file_size: usize,
}

/// Outcome of one file of an upload request.
#[derive(Debug)]
pub enum Upload {
    Success(UploadResponse),
    Failure { original_file_name: String, error: String },
}

/// Whether uploads are taken: not in maintenance mode.
pub fn upload_gate(maintenance_mode: bool) -> (res: Result<(), ApiError>)
    ensures
        maintenance_mode <==> res is Err,
        res matches Err(e) ==> is_error(
            e,
            HttpStatus::ServiceUnavailable,
            "This app is in maintenance mode."@,
        ),
{
    if maintenance_mode {
        return Err(maintenance_error());
    }
    Ok(())
}

/// The reply to an upload request: the one file's outcome on its own when the
/// request carried a single file, else the list of outcomes in order.
#[derive(Debug)]
pub enum UploadReply {
    One(Upload),
    Many(Vec<Upload>),
}

/// Shapes the reply to an upload request from the outcomes of its files.
pub fn upload_reply(results: Vec<Upload>) -> (res: UploadReply)
    ensures
        results@.len() == 1 ==> (res matches UploadReply::One(u) && u == results@[0]),
        results@.len() != 1 ==> (res matches UploadReply::Many(v) && v@ == results@),
{
    if results.len() == 1 {
        let mut results = results;
        let u = results.pop().unwrap();
        UploadReply::One(u)
    } else {
        UploadReply::Many(results)
    }
}

/// Before reading another part of an upload request: a request that already
/// holds the maximum number of results is refused.
pub fn check_batch_size(results_so_far: usize) -> (res: Result<(), ApiError>)
    ensures
        results_so_far >= MAX_FILES_PER_REQUEST <==> res is Err,
        res matches Err(e) ==> is_error(
            e,
            HttpStatus::BadRequest,
            "Too many files in one request (max 10)"@,
        ),
{
    if results_so_far >= MAX_FILES_PER_REQUEST {
        return Err(api_error(HttpStatus::BadRequest, "Too many files in one request (max 10)"));
    }
    Ok(())
}

/// Bytes in a mebibyte.
pub const MIB: i64 = 1048576;

/// The upload size limit in bytes for a limit in mebibytes (none means no limit).
pub fn max_upload_bytes(max_upload_size_mb: Option<i64>) -> (res: Option<i64>)
    requires
        max_upload_size_mb matches Some(mb) ==> i64::MIN <= mb * MIB <= i64::MAX,
    ensures
        match max_upload_size_mb {
            Some(mb) => res matches Some(b) && b == mb * MIB,
            None => res is None,
        },
{
    match max_upload_size_mb {
        Some(mb) => Some(mb * MIB),
        None => None,
    }
}

/// Counts the bytes of a file as they arrive and enforces the size limit.
#[derive(Debug)]
pub struct UploadMeter {
    pub total_bytes: i64,
    pub limit: Option<i64>,
}

impl UploadMeter {
    /// Nothing counted yet.
    pub fn new(limit: Option<i64>) -> (res: UploadMeter)
        ensures
            res.total_bytes == 0,
            res.limit == limit,
    {
        UploadMeter { total_bytes: 0, limit }
    }

    /// Counts a chunk; fails once the file has grown past the limit.
    pub fn add_chunk(&mut self, len: usize) -> (res: Result<(), String>)
        requires
            0 <= old(self).total_bytes,
            old(self).total_bytes + len <= i64::MAX,
        ensures
            final(self).total_bytes == old(self).total_bytes + len,
            final(self).limit == old(self).limit,
            res is Err <==> (old(self).limit matches Some(l) && final(self).total_bytes > l),
            res matches Err(m) ==> m@ == "File exceeds maximum allowed size"@,
    {
        self.total_bytes = self.total_bytes + len as i64;
        if let Some(limit) = self.limit {
            if self.total_bytes > limit {
                return Err(String::from_str("File exceeds maximum allowed size"));
            }
        }
        Ok(())
    }
}

/// Where an upload is written before it is hashed: `{save_path}/tmp_` followed
/// by 16 random ASCII letters and digits.
pub fn temp_file_path(file_save_path: &str) -> (res: String)
    ensures
        res@.len() == file_save_path@.len() + 5 + 16,
        res@.subrange(0, file_save_path@.len() + 5int) == file_save_path@ + "/tmp_"@,
        forall|i: int|
            file_save_path@.len() + 5 <= i < res@.len() ==> is_alphanumeric_ascii(#[trigger] res@[i]),
{
    let name = random_alphanumeric(16);
    let res = concat3(file_save_path, "/tmp_", name.as_str());
    proof {
        reveal_strlit("/tmp_");
        assert(res@.subrange(0, file_save_path@.len() + 5int) =~= file_save_path@ + "/tmp_"@);
        assert forall|i: int|
            file_save_path@.len() + 5 <= i < res@.len() implies is_alphanumeric_ascii(
            #[trigger] res@[i],
        ) by {
            assert(res@[i] == name@[i - file_save_path@.len() - 5]);
        }
    }
    res
}

/// Where the uploaded content ends up: a file with the same content hash
/// already stored is reused (the new copy is discarded); otherwise the new
/// file is moved to its own path.
#[derive(Debug)]
pub enum Placement {
    Existing(String),
    New(String),
}

/// Picks where the upload is stored.
pub fn place_upload(existing_path: Option<String>, new_path: String) -> (res: Placement)
    ensures
        match existing_path {
            Some(p) => res matches Placement::Existing(q) && q@ == p@,
            None => res matches Placement::New(q) && q@ == new_path@,
        },
{
    match existing_path {
        Some(p) => Placement::Existing(p),
        None => Placement::New(new_path),
    }
}

impl Placement {
    /// The stored path.
    pub fn path(&self) -> (res: &String)
        ensures
            match self {
                Placement::Existing(p) => res@ == p@,
                Placement::New(p) => res@ == p@,
            },
    {
        match self {
            Placement::Existing(p) => p,
            Placement::New(p) => p,
        }
    }

    /// Whether a failed insert must remove the file again: only a newly
    /// placed file belongs to this upload alone.
    pub fn remove_on_failure(&self) -> (res: bool)
        ensures
            res <==> self is New,
    {
        match self {
            Placement::Existing(_) => false,
            Placement::New(_) => true,
        }
    }
}

/// The event announced to the uploader's sockets for a stored file.
pub fn upload_event(
    user_id: i64,
    media_id: &String,
    content_type: String,
    file_size: i64,
    file_url: &String,
    original_file_name: &String,
) -> (res: UserBroadcast)
    ensures
        res.user_id == user_id,
        res.event matches WsEvent::FileUpload(item) && {
            &&& item.media_id@ == media_id@
            &&& item.content_type@ == content_type@
            &&& item.file_size == file_size
            &&& item.file_url@ == file_url@
            &&& item.original_file_name matches Some(o)
            &&& o@ == original_file_name@
            &&& item.uploaded_at == 1
        },
{
    UserBroadcast {
        user_id,
        event: WsEvent::FileUpload(
            MediaItem {
                media_id: media_id.clone(),
                content_type,
                file_size,
                file_url: file_url.clone(),
                original_file_name: Some(original_file_name.clone()),
                uploaded_at: 1,
            },
        ),
    }
}

/// The reply for a stored file.
pub fn upload_response(file: String, total_bytes: i64, file_url: String) -> (res: UploadResponse)
    requires
        0 <= total_bytes <= usize::MAX,
    ensures
        res.file@ == file@,
        res.file_size == total_bytes,
        res.file_url@ == file_url@,
{
    UploadResponse { file, file_size: total_bytes as usize, file_url }
}

} // verus!
