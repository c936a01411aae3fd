//! What the server computes from the bytes of a stored file: its content hash,
//! the tags and EXIF fields it carries, and its thumbnail.

use lofty::file::TaggedFileExt;
use lofty::tag::Accessor;
use vstd::prelude::*;
use vstd::string::StringExecFns;

use crate::metadata::{unicode_lowercase, RawMetadata};
use crate::paths::{extension_of, parse_filename};
use crate::models::HttpStatus;
use crate::storage::{hex_digest, hex_lower, ThumbnailSource, THUMBNAIL_SIZE};
use crate::text::{sanitize, sanitize_value};

verus! {

/// The SHA-256 digest of `data`, as `sha2::Sha256` computes it.
pub uninterp spec fn sha256(data: Seq<u8>) -> Seq<u8>;

/// `sha2::Sha256::digest`: the 32-byte SHA-256 digest of the data, a function
/// of the data alone.
#[verifier::external_body]
fn sha256_digest(data: &[u8]) -> (res: Vec<u8>)
    ensures
        res@ == sha256(data@),
{
    <sha2::Sha256 as sha2::Digest>::digest(data).to_vec()
}

/// The content hash stored for a file: the SHA-256 digest of its bytes in
/// lower-case hex.
pub fn content_hash(data: &[u8]) -> (res: String)
    ensures
        res@ == hex_lower(sha256(data@)),
{
    let d = sha256_digest(data);
    hex_digest(d.as_slice())
}

/// What `image` makes of `data` as a thumbnail of at most `size` pixels a side,
/// the format guessed from the content: `None` when `image::load_from_memory`
/// cannot decode it, `Some(None)` when the thumbnail cannot be written as WebP,
/// else the WebP bytes.
pub uninterp spec fn webp_thumbnail_of(data: Seq<u8>, size: u32) -> Option<Option<Seq<u8>>>;

/// `image::load_from_memory`, then `DynamicImage::thumbnail(size, size)` (the
/// aspect ratio kept), written with `ImageFormat::WebP`. The result is a function
/// of the bytes and the size.
#[verifier::external_body]
fn webp_thumbnail(data: &[u8], size: u32) -> (res: Option<Option<Vec<u8>>>)
    ensures
        match res {
            None => webp_thumbnail_of(data@, size) is None,
            Some(None) => webp_thumbnail_of(data@, size) == Some(None::<Seq<u8>>),
            Some(Some(b)) => webp_thumbnail_of(data@, size) == Some(Some(b@)),
        },
{
    let img = match image::load_from_memory(data) {
        Ok(i) => i,
        Err(_) => return None,
    };
    let mut out = std::io::Cursor::new(Vec::new());
    match img.thumbnail(size, size).write_to(&mut out, image::ImageFormat::WebP) {
        Ok(()) => Some(Some(out.into_inner())),
        Err(_) => Some(None),
    }
}

/// What `image` makes of `data` as a thumbnail of at most `size` pixels a side
/// when the format is the one a file extension `ext` names: `None` when
/// `ImageFormat::from_extension` knows no such format or the data does not
/// decode as it, `Some(None)` when the thumbnail cannot be written as WebP, else
/// the WebP bytes.
pub uninterp spec fn webp_thumbnail_as(data: Seq<u8>, ext: Seq<char>, size: u32) -> Option<
    Option<Seq<u8>>,
>;

/// `ImageFormat::from_extension` and `image::load_from_memory_with_format` (as
/// `image::open` decodes a file by its path's extension), then
/// `DynamicImage::thumbnail(size, size)` written with `ImageFormat::WebP`. The
/// result is a function of the bytes, the extension and the size.
#[verifier::external_body]
fn webp_thumbnail_with_ext(data: &[u8], ext: &str, size: u32) -> (res: Option<Option<Vec<u8>>>)
    ensures
        match res {
            None => webp_thumbnail_as(data@, ext@, size) is None,
            Some(None) => webp_thumbnail_as(data@, ext@, size) == Some(None::<Seq<u8>>),
            Some(Some(b)) => webp_thumbnail_as(data@, ext@, size) == Some(Some(b@)),
        },
{
    let format = image::ImageFormat::from_extension(ext)?;
    let img = match image::load_from_memory_with_format(data, format) {
        Ok(i) => i,
        Err(_) => return None,
    };
    let mut out = std::io::Cursor::new(Vec::new());
    match img.thumbnail(size, size).write_to(&mut out, image::ImageFormat::WebP) {
        Ok(()) => Some(Some(out.into_inner())),
        Err(_) => Some(None),
    }
}

/// The pictures of the tags of a file, as what was read of them: for the
/// primary tag and for the first tag, each if the file has one, the bytes of
/// its pictures in order.
pub type TagPictures = (Option<Seq<Seq<u8>>>, Option<Seq<Seq<u8>>>);

/// What `lofty` reads of the pictures in `data` when the file type is the one
/// the extension `ext` names: `None` when `FileType::from_ext` knows no such
/// type or the file cannot be read as it, else the pictures of the primary tag
/// and of the first tag.
pub uninterp spec fn tag_pictures_as(data: Seq<u8>, ext: Seq<char>) -> Option<TagPictures>;

/// The byte views of a list of pictures.
pub open spec fn bytes_views(v: Seq<Vec<u8>>) -> Seq<Seq<u8>> {
    v.map_values(|b: Vec<u8>| b@)
}

/// The view of a tag's pictures, if there is the tag.
pub open spec fn pictures_view(p: Option<Vec<Vec<u8>>>) -> Option<Seq<Seq<u8>>> {
    match p {
        Some(v) => Some(bytes_views(v@)),
        None => None,
    }
}

/// The view of what was read of a file's tag pictures.
pub open spec fn tag_pictures_view(t: Option<(Option<Vec<Vec<u8>>>, Option<Vec<Vec<u8>>>)>) -> Option<
    TagPictures,
> {
    match t {
        Some((p, f)) => Some((pictures_view(p), pictures_view(f))),
        None => None,
    }
}

/// `FileType::from_ext` and `Probe::with_file_type(..).read()` (as
/// `Probe::open` reads a file by its path's extension), then the pictures'
/// data of `primary_tag()` and of `first_tag()`. The result is a function of the
/// bytes and the extension.
#[verifier::external_body]
fn read_tag_pictures(data: &[u8], ext: &str) -> (res: Option<(Option<Vec<Vec<u8>>>, Option<Vec<Vec<u8>>>)>)
    ensures
        tag_pictures_view(res) == tag_pictures_as(data@, ext@),
{
    let file_type = lofty::file::FileType::from_ext(ext)?;
    let probe = lofty::probe::Probe::with_file_type(std::io::Cursor::new(data), file_type);
    let tagged = probe.read().ok()?;
    let pics = |t: &lofty::tag::Tag| -> Vec<Vec<u8>> {
        t.pictures().iter().map(|p| p.data().to_vec()).collect()
    };
    Some((tagged.primary_tag().map(pics), tagged.first_tag().map(pics)))
}

/// The cover picture of a file from its tag pictures: `None` when the tags
/// could not be read; otherwise the primary tag's pictures if there is a
/// primary tag, else the first tag's, and of those the first picture, or
/// `Some(None)` when there is no tag or no picture.
pub open spec fn cover_of(t: Option<TagPictures>) -> Option<Option<Seq<u8>>> {
    match t {
        None => None,
        Some((primary, first)) => {
            let chosen = match primary {
                Some(p) => Some(p),
                None => first,
            };
            match chosen {
                None => Some(None),
                Some(ps) => if ps.len() > 0 {
                    Some(Some(ps[0]))
                } else {
                    Some(None)
                },
            }
        },
    }
}

/// Picks the cover picture out of what was read of a file's tag pictures.
pub fn cover_picture(t: Option<(Option<Vec<Vec<u8>>>, Option<Vec<Vec<u8>>>)>) -> (res: Option<
    Option<Vec<u8>>,
>)
    ensures
        match res {
            None => cover_of(tag_pictures_view(t)) is None,
            Some(None) => cover_of(tag_pictures_view(t)) == Some(None::<Seq<u8>>),
            Some(Some(b)) => cover_of(tag_pictures_view(t)) == Some(Some(b@)),
        },
{
    match t {
        None => None,
        Some((primary, first)) => {
            let chosen = match primary {
                Some(p) => Some(p),
                None => first,
            };
            match chosen {
                None => Some(None),
                Some(ps) => {
                    if ps.len() > 0 {
                        let mut ps = ps;
                        let ghost pv = ps@;
                        let b = ps.remove(0);
                        assert(bytes_views(pv)[0] == b@);
                        Some(Some(b))
                    } else {
                        Some(None)
                    }
                },
            }
        },
    }
}

/// A thumbnail outcome as its answer: no image is a 422, an image that cannot
/// be written a 500.
pub open spec fn thumbnail_answer(t: Option<Option<Seq<u8>>>) -> Result<Seq<u8>, HttpStatus> {
    match t {
        None => Err(HttpStatus::UnprocessableEntity),
        Some(None) => Err(HttpStatus::InternalServerError),
        Some(Some(b)) => Ok(b),
    }
}

/// What [`thumbnail_bytes`] answers for the file stored at `file_path` with
/// contents `data`.
pub open spec fn thumbnail_outcome(source: ThumbnailSource, file_path: Seq<char>, data: Seq<u8>) -> Result<
    Seq<u8>,
    HttpStatus,
> {
    match extension_of(file_path) {
        None => Err(HttpStatus::UnprocessableEntity),
        Some(ext) => match source {
            ThumbnailSource::Image => thumbnail_answer(webp_thumbnail_as(data, ext, THUMBNAIL_SIZE)),
            ThumbnailSource::EmbeddedPicture => match cover_of(tag_pictures_as(data, ext)) {
                None => Err(HttpStatus::UnprocessableEntity),
                Some(None) => Err(HttpStatus::NotFound),
                Some(Some(p)) => thumbnail_answer(webp_thumbnail_of(p, THUMBNAIL_SIZE)),
            },
        },
    }
}

/// Draws the WebP thumbnail (at most [`THUMBNAIL_SIZE`] pixels a side) of the
/// file stored at `file_path` with contents `data`, the file read as the type
/// its path's extension names: from the file itself as an image, or from an
/// audio file's cover picture. A path without an extension or data that does
/// not read as its type is a 422, a file without a cover picture a 404, a
/// thumbnail that cannot be written a 500.
pub fn thumbnail_bytes(source: ThumbnailSource, file_path: &str, data: &[u8]) -> (res: Result<
    Vec<u8>,
    HttpStatus,
>)
    ensures
        match thumbnail_outcome(source, file_path@, data@) {
            Ok(b) => res matches Ok(r) && r@ == b,
            Err(s) => res == Err::<Vec<u8>, HttpStatus>(s),
        },
{
    let path = String::from_str(file_path);
    let ext = match parse_filename(&path).1 {
        Some(e) => e,
        None => return Err(HttpStatus::UnprocessableEntity),
    };
    match source {
        ThumbnailSource::Image => answer(webp_thumbnail_with_ext(data, ext.as_str(), THUMBNAIL_SIZE)),
        ThumbnailSource::EmbeddedPicture => match cover_picture(read_tag_pictures(data, ext.as_str())) {
            None => Err(HttpStatus::UnprocessableEntity),
            Some(None) => Err(HttpStatus::NotFound),
            Some(Some(p)) => answer(webp_thumbnail(p.as_slice(), THUMBNAIL_SIZE)),
        },
    }
}

fn answer(t: Option<Option<Vec<u8>>>) -> (res: Result<Vec<u8>, HttpStatus>)
    ensures
        match thumbnail_answer(
            match t {
                None => None,
                Some(None) => Some(None),
                Some(Some(b)) => Some(Some(b@)),
            },
        ) {
            Ok(b) => res matches Ok(r) && r@ == b,
            Err(s) => res == Err::<Vec<u8>, HttpStatus>(s),
        },
{
    match t {
        None => Err(HttpStatus::UnprocessableEntity),
        Some(None) => Err(HttpStatus::InternalServerError),
        Some(Some(b)) => Ok(b),
    }
}

/// The views of a list of string pairs.
pub open spec fn pair_views(v: Seq<(String, String)>) -> Seq<(Seq<char>, Seq<char>)> {
    v.map_values(|p: (String, String)| (p.0@, p.1@))
}

/// The audio tags of a file: artist, title, album and genre, each if present.
#[derive(Debug)]
pub struct AudioTags {
    pub artist: Option<String>,
    pub title: Option<String>,
    pub album: Option<String>,
    pub genre: Option<String>,
}

/// The view of an optional string.
pub open spec fn opt_view(o: Option<String>) -> Option<Seq<char>> {
    match o {
        Some(s) => Some(s@),
        None => None,
    }
}

/// The four audio tags as plain values.
pub type TagValues = (Option<Seq<char>>, Option<Seq<char>>, Option<Seq<char>>, Option<Seq<char>>);

/// The view of what was read of a file's audio tags.
pub open spec fn audio_view(t: Option<AudioTags>) -> Option<TagValues> {
    match t {
        Some(a) => Some((opt_view(a.artist), opt_view(a.title), opt_view(a.album), opt_view(a.genre))),
        None => None,
    }
}

/// What `lofty` reads of the primary tag of `data` (artist, title, album,
/// genre): `None` when the file cannot be read or has no primary tag.
pub uninterp spec fn audio_tags_of(data: Seq<u8>) -> Option<TagValues>;

/// `lofty::probe::Probe::new(..).guess_file_type()` and `read()` (as
/// `lofty::read_from` does), then the primary tag's artist, title, album and
/// genre. The result is a function of the bytes.
#[verifier::external_body]
fn read_audio_tags(data: &[u8]) -> (res: Option<AudioTags>)
    ensures
        audio_view(res) == audio_tags_of(data@),
{
    let probe = lofty::probe::Probe::new(std::io::Cursor::new(data)).guess_file_type().ok()?;
    let tagged = probe.read().ok()?;
    let tag = tagged.primary_tag()?;
    Some(AudioTags {
        artist: tag.artist().map(|v| v.to_string()),
        title: tag.title().map(|v| v.to_string()),
        album: tag.album().map(|v| v.to_string()),
        genre: tag.genre().map(|v| v.to_string()),
    })
}

/// What `lofty` reads of the primary tag of `data` (artist, title, album,
/// genre) when the file type is the one the extension `ext` names: `None` when
/// `FileType::from_ext` knows no such type, the file cannot be read as it, or
/// it has no primary tag.
pub uninterp spec fn audio_tags_as(data: Seq<u8>, ext: Seq<char>) -> Option<TagValues>;

/// `FileType::from_ext` and `Probe::with_file_type(..).read()` (as
/// `Probe::open` reads a file by its path's extension), then the primary tag's
/// artist, title, album and genre. The result is a function of the bytes and
/// the extension.
#[verifier::external_body]
fn read_audio_tags_with_ext(data: &[u8], ext: &str) -> (res: Option<AudioTags>)
    ensures
        audio_view(res) == audio_tags_as(data@, ext@),
{
    let file_type = lofty::file::FileType::from_ext(ext)?;
    let probe = lofty::probe::Probe::with_file_type(std::io::Cursor::new(data), file_type);
    let tagged = probe.read().ok()?;
    let tag = tagged.primary_tag()?;
    Some(AudioTags {
        artist: tag.artist().map(|v| v.to_string()),
        title: tag.title().map(|v| v.to_string()),
        album: tag.album().map(|v| v.to_string()),
        genre: tag.genre().map(|v| v.to_string()),
    })
}

/// The audio tags of the file stored at `path`, read as the type its
/// extension names (none without an extension).
pub open spec fn audio_tags_at(path: Seq<char>, data: Seq<u8>) -> Option<TagValues> {
    match extension_of(path) {
        Some(ext) => audio_tags_as(data, ext),
        None => None,
    }
}

/// What `kamadak-exif` reads of the EXIF fields of `data`, in order: each tag's
/// name and its value shown with its unit; empty when there is no EXIF data.
pub uninterp spec fn exif_fields_of(data: Seq<u8>) -> Seq<(Seq<char>, Seq<char>)>;

/// `exif::Reader::new().read_from_container`, then for each field its tag's
/// name (`Tag`'s `Display`) and `display_value().with_unit(..)`. The result is a
/// function of the bytes.
#[verifier::external_body]
fn read_exif_fields(data: &[u8]) -> (res: Vec<(String, String)>)
    ensures
        pair_views(res@) == exif_fields_of(data@),
{
    let mut out = Vec::new();
    if let Ok(exif) = exif::Reader::new().read_from_container(&mut std::io::Cursor::new(data)) {
        for f in exif.fields() {
            out.push((f.tag.to_string(), f.display_value().with_unit(&exif).to_string()));
        }
    }
    out
}

/// One entry `(key, value)` with the value made header-safe, when there is a value.
pub open spec fn opt_entry(key: Seq<char>, v: Option<Seq<char>>) -> Seq<(Seq<char>, Seq<char>)> {
    match v {
        Some(x) => seq![(key, sanitize_value(x))],
        None => Seq::empty(),
    }
}

/// The metadata entries of the audio tags, under `prefix + name`.
pub open spec fn audio_entries(prefix: Seq<char>, t: Option<TagValues>) -> Seq<(Seq<char>, Seq<char>)> {
    match t {
        None => Seq::empty(),
        Some((a, ti, al, g)) => opt_entry(prefix + "artist"@, a) + opt_entry(prefix + "title"@, ti)
            + opt_entry(prefix + "album"@, al) + opt_entry(prefix + "genre"@, g),
    }
}

/// The metadata entries of EXIF fields: the lower-cased `prefix + tag name`
/// with the header-safe value.
pub open spec fn exif_entries(prefix: Seq<char>, fields: Seq<(Seq<char>, Seq<char>)>) -> Seq<(Seq<char>, Seq<char>)> {
    fields.map_values(|f: (Seq<char>, Seq<char>)| (unicode_lowercase(prefix + f.0), sanitize_value(f.1)))
}

/// The raw metadata of a file: its audio tags, then its EXIF fields.
pub open spec fn raw_entries(t: Option<TagValues>, fields: Seq<(Seq<char>, Seq<char>)>) -> Seq<(Seq<char>, Seq<char>)> {
    audio_entries(Seq::empty(), t) + exif_entries(Seq::empty(), fields)
}

/// The response headers of a file: `x-exif-*` for its EXIF fields, or, when it
/// has none, `x-audio-*` for its audio tags.
pub open spec fn header_entries(t: Option<TagValues>, fields: Seq<(Seq<char>, Seq<char>)>) -> Seq<(Seq<char>, Seq<char>)> {
    if fields.len() > 0 {
        exif_entries("x-exif-"@, fields)
    } else {
        audio_entries("x-audio-"@, t)
    }
}

fn push_tag(out: &mut Vec<(String, String)>, key: String, value: &Option<String>)
    ensures
        pair_views(final(out)@) == pair_views(old(out)@) + opt_entry(key@, opt_view(*value)),
{
    match value {
        Some(v) => {
            let safe = sanitize(v.as_str());
            out.push((key, safe));
            assert(pair_views(out@) =~= pair_views(old(out)@) + opt_entry(key@, opt_view(*value)));
        },
        None => {
            assert(pair_views(out@) =~= pair_views(old(out)@) + opt_entry(key@, opt_view(*value)));
        },
    }
}

fn push_audio_entries(out: &mut Vec<(String, String)>, prefix: &str, tags: &Option<AudioTags>)
    ensures
        pair_views(final(out)@) == pair_views(old(out)@) + audio_entries(prefix@, audio_view(*tags)),
{
    if let Some(t) = tags {
        proof {
            reveal_strlit("artist");
            reveal_strlit("title");
            reveal_strlit("album");
            reveal_strlit("genre");
        }
        let ghost start = pair_views(out@);
        push_tag(out, crate::text::concat2(prefix, "artist"), &t.artist);
        push_tag(out, crate::text::concat2(prefix, "title"), &t.title);
        push_tag(out, crate::text::concat2(prefix, "album"), &t.album);
        push_tag(out, crate::text::concat2(prefix, "genre"), &t.genre);
        assert(pair_views(out@) =~= start + audio_entries(prefix@, audio_view(*tags)));
    } else {
        assert(pair_views(out@) =~= pair_views(old(out)@) + audio_entries(prefix@, audio_view(*tags)));
    }
}

fn push_exif_entries(out: &mut Vec<(String, String)>, prefix: &str, fields: &Vec<(String, String)>)
    ensures
        pair_views(final(out)@) == pair_views(old(out)@) + exif_entries(prefix@, pair_views(fields@)),
{
    let ghost start = pair_views(out@);
    let mut i: usize = 0;
    while i < fields.len()
        invariant
            i <= fields@.len(),
            pair_views(out@) == start + exif_entries(prefix@, pair_views(fields@.take(i as int))),
        decreases fields.len() - i,
    {
        let name = crate::text::concat2(prefix, fields[i].0.as_str());
        let key = crate::metadata::to_lowercase(name.as_str());
        let safe = sanitize(fields[i].1.as_str());
        let ghost before = pair_views(out@);
        out.push((key, safe));
        assert(pair_views(out@) =~= before.push((key@, safe@)));
        assert(pair_views(fields@.take(i + 1)) =~= pair_views(fields@.take(i as int)).push(
            (fields@[i as int].0@, fields@[i as int].1@),
        ));
        i += 1;
    }
    assert(fields@.take(i as int) =~= fields@);
}

/// The raw metadata of a file from what was read of it: the audio tags first
/// (`artist`, `title`, `album`, `genre`), then each EXIF field under its
/// lower-cased tag name; every value made header-safe.
pub fn raw_metadata_from(tags: Option<AudioTags>, fields: Vec<(String, String)>) -> (res: RawMetadata)
    ensures
        pair_views(res.entries@) == raw_entries(audio_view(tags), pair_views(fields@)),
{
    let mut out: Vec<(String, String)> = Vec::new();
    assert(pair_views(out@) =~= Seq::empty());
    push_audio_entries(&mut out, "", &tags);
    push_exif_entries(&mut out, "", &fields);
    proof {
        reveal_strlit("");
        assert(""@ =~= Seq::<char>::empty());
        assert(Seq::<(Seq<char>, Seq<char>)>::empty() + audio_entries(""@, audio_view(tags))
            =~= audio_entries(""@, audio_view(tags)));
    }
    RawMetadata { entries: out }
}

/// Reads the raw metadata of a file's bytes: its audio tags, then its EXIF fields.
pub fn raw_metadata_of(data: &[u8]) -> (res: RawMetadata)
    ensures
        pair_views(res.entries@) == raw_entries(audio_tags_of(data@), exif_fields_of(data@)),
{
    let tags = read_audio_tags(data);
    let fields = read_exif_fields(data);
    raw_metadata_from(tags, fields)
}

/// The metadata headers of a file from what was read of it: `x-exif-{tag}`
/// (lower-cased) for each EXIF field, or, when there is none, `x-audio-{name}`
/// for each audio tag; every value made header-safe.
pub fn metadata_headers_from(tags: Option<AudioTags>, fields: Vec<(String, String)>) -> (res: Vec<(String, String)>)
    ensures
        pair_views(res@) == header_entries(audio_view(tags), pair_views(fields@)),
{
    let mut out: Vec<(String, String)> = Vec::new();
    assert(pair_views(out@) =~= Seq::empty());
    proof {
        reveal_strlit("x-exif-");
        reveal_strlit("x-audio-");
    }
    if fields.len() > 0 {
        push_exif_entries(&mut out, "x-exif-", &fields);
        assert(Seq::<(Seq<char>, Seq<char>)>::empty() + exif_entries("x-exif-"@, pair_views(fields@))
            =~= exif_entries("x-exif-"@, pair_views(fields@)));
    } else {
        push_audio_entries(&mut out, "x-audio-", &tags);
        assert(Seq::<(Seq<char>, Seq<char>)>::empty() + audio_entries("x-audio-"@, audio_view(tags))
            =~= audio_entries("x-audio-"@, audio_view(tags)));
    }
    out
}

/// The metadata headers of the file stored at `file_path` with contents
/// `data`: its EXIF fields, else its audio tags, read as the type the path's
/// extension names.
pub fn metadata_headers_of(file_path: &str, data: &[u8]) -> (res: Vec<(String, String)>)
    ensures
        pair_views(res@) == header_entries(audio_tags_at(file_path@, data@), exif_fields_of(data@)),
{
    let fields = read_exif_fields(data);
    let tags = if fields.len() > 0 {
        None
    } else {
        let path = String::from_str(file_path);
        match parse_filename(&path).1 {
            Some(ext) => read_audio_tags_with_ext(data, ext.as_str()),
            None => None,
        }
    };
    metadata_headers_from(tags, fields)
}

} // verus!
