use vstd::prelude::*;
use vstd::string::StringExecFns;

use crate::models::{api_error, is_error, maintenance_error, ApiError, HttpStatus};
use crate::paths::{media_id_of, normalize_media_id};
use crate::text::starts_with;

verus! {

/// The lower-case hex digit of a value below 16.
pub open spec fn hex_digit(n: u8) -> char {
    if n < 10 {
        (('0' as u8) + n) as char
    } else {
        (('a' as u8) + n - 10) as char
    }
}

/// Lower-case hex encoding: two digits per byte, high nibble first.
pub open spec fn hex_lower(bytes: Seq<u8>) -> Seq<char>
    decreases bytes.len(),
{
    if bytes.len() == 0 {
        Seq::empty()
    } else {
        hex_lower(bytes.drop_last()).push(hex_digit(bytes.last() / 16)).push(
            hex_digit(bytes.last() % 16),
        )
    }
}

/// `hex::encode`: the source maps each byte to its two lower-case hex digits
/// (`0123456789abcdef`), high nibble first.
#[verifier::external_body]
fn hex_encode(bytes: &[u8]) -> (res: String)
    ensures
        res@ == hex_lower(bytes@),
{
    hex::encode(bytes)
}

/// The content hash of an upload as stored: its SHA-256 digest in lower-case hex.
pub fn hex_digest(digest: &[u8]) -> (res: String)
    ensures
        res@ == hex_lower(digest@),
        res@.len() == 2 * digest@.len(),
{
    proof {
        lemma_hex_len(digest@);
    }
    hex_encode(digest)
}

proof fn lemma_hex_len(bytes: Seq<u8>)
    ensures
        hex_lower(bytes).len() == 2 * bytes.len(),
    decreases bytes.len(),
{
    if bytes.len() > 0 {
        lemma_hex_len(bytes.drop_last());
    }
}

/// Which media id a delete request removes, or why it is refused: nothing is
/// deleted in maintenance mode; with extensions enforced the requested name's
/// stem is the id.
pub fn delete_target(maintenance_mode: bool, enforce_file_extensions: bool, media_id: String) -> (res:
    Result<String, ApiError>)
    ensures
        maintenance_mode ==> (res matches Err(e) && is_error(
            e,
            HttpStatus::ServiceUnavailable,
            "This app is in maintenance mode."@,
        )),
        !maintenance_mode ==> (res matches Ok(id) && id@ == media_id_of(
            media_id@,
            enforce_file_extensions,
        )),
{
    if maintenance_mode {
        return Err(maintenance_error());
    }
    Ok(normalize_media_id(media_id, enforce_file_extensions))
}

/// A reply that carries only a message.
#[derive(Debug)]
pub struct MessageResponse {
    pub message: String,
}

/// The reply to a file that was deleted: `{"message": "Removed."}`.
pub fn delete_reply() -> (res: MessageResponse)
    ensures
        res.message@ == "Removed."@,
{
    MessageResponse { message: String::from_str("Removed.") }
}

/// Whether deleting a media row also removes the stored file: only when no
/// other row shares its content hash.
pub fn should_remove_stored_file(rows_with_same_hash: i64) -> (res: bool)
    ensures
        res == (rows_with_same_hash == 1),
{
    rows_with_same_hash == 1
}

/// The reply to deleting a file the user does not own or that does not exist.
pub fn delete_not_found() -> (res: ApiError)
    ensures
        is_error(
            res,
            HttpStatus::NotFound,
            "File not found or you do not have permission to delete it."@,
        ),
{
    api_error(HttpStatus::NotFound, "File not found or you do not have permission to delete it.")
}

/// The reply to viewing a file that is not stored.
pub fn file_not_found() -> (res: ApiError)
    ensures
        is_error(res, HttpStatus::NotFound, "File not found."@),
{
    api_error(HttpStatus::NotFound, "File not found.")
}

/// Longest side of a thumbnail, in pixels.
pub const THUMBNAIL_SIZE: u32 = 400;

/// What a thumbnail is drawn from.
#[derive(Debug, Clone, Copy, PartialEq, Eq, Structural)]
pub enum ThumbnailSource {
    /// The cover picture embedded in an audio file's tags.
    EmbeddedPicture,
    /// The file itself, read as an image.
    Image,
}

/// Audio files (content type `audio/...`) are drawn from their cover picture,
/// everything else from the file itself.
pub fn thumbnail_source(content_type: &str) -> (res: ThumbnailSource)
    ensures
        res == if content_type@.len() >= 6 && content_type@.take(6) == "audio/"@ {
            ThumbnailSource::EmbeddedPicture
        } else {
            ThumbnailSource::Image
        },
{
    if starts_with(content_type, "audio/") {
        proof {
            reveal_strlit("audio/");
        }
        ThumbnailSource::EmbeddedPicture
    } else {
        proof {
            reveal_strlit("audio/");
        }
        ThumbnailSource::Image
    }
}

} // verus!
