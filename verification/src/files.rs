use vstd::prelude::*;
use vstd::string::StringExecFns;

use crate::models::MediaItem;
use crate::paths::{media_file_url, media_url};

verus! {

/// Query of the file listing: where to continue and how many items to show.
#[derive(Debug)]
pub struct QueryParams {
    pub cursor: Option<String>,
    pub limit: Option<i64>,
}

/// One page of a user's files, newest first, and where the next page starts.
#[derive(Debug)]
pub struct FileResponse {
    pub items: Vec<MediaItem>,
    pub next_cursor: Option<String>,
}

/// A stored file as the listing query reads it.
#[derive(Debug)]
pub struct MediaRecord {
    pub media_id: String,
    pub file_ext: Option<String>,
    pub file_size: i64,
    pub uploaded_at: i64,
    pub content_type: String,
    pub original_file_name: Option<String>,
}

/// The page size: 20 unless asked otherwise, kept between 1 and 50.
pub open spec fn page_limit_spec(limit: Option<i64>) -> i64 {
    let l = match limit {
        Some(l) => l,
        None => 20,
    };
    if l < 1 {
        1
    } else if l > 50 {
        50
    } else {
        l
    }
}

/// The page size of a listing request.
pub fn page_limit(limit: Option<i64>) -> (res: i64)
    ensures
        res == page_limit_spec(limit),
        1 <= res <= 50,
{
    let l = match limit {
        Some(l) => l,
        None => 20,
    };
    if l < 1 {
        1
    } else if l > 50 {
        50
    } else {
        l
    }
}

/// A cursor must name one of the user's files: when one was given but its
/// upload time was not found, the request is refused.
pub fn check_cursor(cursor: &Option<String>, cursor_time: Option<i64>) -> (res: Result<(), String>)
    ensures
        (cursor is Some && cursor_time is None) <==> res is Err,
        res matches Err(m) ==> m@ == "invalid cursor provided"@,
{
    if cursor.is_some() && cursor_time.is_none() {
        return Err(String::from_str("invalid cursor provided"));
    }
    Ok(())
}

/// The listing entry of a record: its fields, with the public URL built from
/// its id and (when extensions are enforced) its extension.
pub open spec fn item_of(r: MediaRecord, item: MediaItem, enforce: bool) -> bool {
    &&& item.media_id@ == r.media_id@
    &&& item.file_url@ == media_url(
        r.media_id@,
        match r.file_ext {
            Some(e) => Some(e@),
            None => None,
        },
        enforce,
    )
    &&& item.file_size == r.file_size
    &&& item.uploaded_at == r.uploaded_at
    &&& item.content_type@ == r.content_type@
    &&& match (item.original_file_name, r.original_file_name) {
        (Some(a), Some(b)) => a@ == b@,
        (None, None) => true,
        _ => false,
    }
}

fn to_item(r: MediaRecord, enforce: bool) -> (res: MediaItem)
    ensures
        item_of(r, res, enforce),
{
    let ext = match &r.file_ext {
        Some(e) => Some(e.as_str()),
        None => None,
    };
    let file_url = media_file_url(r.media_id.as_str(), ext, enforce);
    MediaItem {
        media_id: r.media_id,
        file_url,
        file_size: r.file_size,
        uploaded_at: r.uploaded_at,
        content_type: r.content_type,
        original_file_name: r.original_file_name,
    }
}

/// Turns the records read for a page (at most `limit + 1`, newest first) into
/// the page: one record more than the limit means there is a next page, so that
/// record is dropped and the last item shown becomes the cursor.
pub fn build_page(records: Vec<MediaRecord>, limit: i64, enforce_file_extensions: bool) -> (res:
    FileResponse)
    ensures
        ({
            let more = records@.len() > limit;
            let shown = if more && records@.len() > 0 {
                records@.len() - 1
            } else {
                records@.len() as int
            };
            &&& res.items@.len() == shown
            &&& forall|i: int|
                0 <= i < shown ==> item_of(
                    #[trigger] records@[i],
                    res.items@[i],
                    enforce_file_extensions,
                )
            &&& match res.next_cursor {
                Some(c) => more && shown > 0 && c@ == res.items@[shown - 1].media_id@,
                None => !more || shown == 0,
            }
        }),
        1 <= limit && records@.len() <= limit + 1 ==> res.items@.len() <= limit && (
        res.next_cursor is Some <==> records@.len() == limit + 1),
{
    let ghost recs = records@;
    let n = records.len();
    let mut items: Vec<MediaItem> = Vec::new();
    for r in it: records.into_iter()
        invariant
            n == recs.len(),
            it.seq() == recs,
            items@.len() == it.index(),
            forall|j: int|
                0 <= j < it.index() ==> item_of(recs[j], #[trigger] items@[j], enforce_file_extensions),
    {
        items.push(to_item(r, enforce_file_extensions));
    }
    let mut next_cursor = None;
    if (n as i128) > (limit as i128) {
        items.pop();
        let len = items.len();
        if len > 0 {
            next_cursor = Some(items[len - 1].media_id.clone());
        }
    }
    FileResponse { items, next_cursor }
}

} // verus!
