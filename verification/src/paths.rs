use vstd::prelude::*;
use vstd::string::StringExecFns;

use crate::text::{chars_of, concat2, string_from_chars};

verus! {

/// Index of the last `c` in `s`, or -1 when `s` holds none.
pub open spec fn last_index_of(s: Seq<char>, c: char) -> int
    decreases s.len(),
{
    if s.len() == 0 {
        -1
    } else if s.last() == c {
        s.len() - 1
    } else {
        last_index_of(s.drop_last(), c)
    }
}

/// `last_index_of` points at the last occurrence, or is -1 when there is none.
pub proof fn lemma_last_index_of(s: Seq<char>, c: char)
    ensures
        -1 <= last_index_of(s, c) < s.len(),
        last_index_of(s, c) >= 0 ==> s[last_index_of(s, c)] == c,
        forall|j: int| last_index_of(s, c) < j < s.len() ==> s[j] != c,
        last_index_of(s, c) == -1 <==> !s.contains(c),
    decreases s.len(),
{
    if s.len() > 0 && s.last() != c {
        lemma_last_index_of(s.drop_last(), c);
        if s.contains(c) {
            let j = choose|j: int| 0 <= j < s.len() && s[j] == c;
            assert(s.drop_last()[j] == c);
        }
        if s.drop_last().contains(c) {
            let j = choose|j: int| 0 <= j < s.drop_last().len() && s.drop_last()[j] == c;
            assert(s[j] == c);
        }
        assert forall|j: int| last_index_of(s, c) < j < s.len() implies s[j] != c by {
            if j < s.len() - 1 {
                assert(s[j] == s.drop_last()[j]);
            }
        }
    }
}

/// The last component of a Unix path, as `Path::file_name` gives it: empty
/// components and `.` components are skipped, and a path that ends in `..`
/// (or has no component) has no file name.
pub open spec fn file_name_of(s: Seq<char>) -> Option<Seq<char>>
    decreases s.len(),
{
    let k = last_index_of(s, '/');
    let seg = s.subrange(k + 1, s.len() as int);
    if seg.len() == 0 || seg == seq!['.'] {
        if k < 0 {
            None
        } else {
            proof {
                lemma_last_index_of(s, '/');
            }
            file_name_of(s.subrange(0, k))
        }
    } else if seg == seq!['.', '.'] {
        None
    } else {
        Some(seg)
    }
}

/// A file name split at its last dot into (stem, extension), as `Path::file_stem`
/// and `Path::extension` split it: a name without a dot, or whose only dot is its
/// first character, has no extension.
pub open spec fn split_name(name: Seq<char>) -> (Seq<char>, Option<Seq<char>>) {
    let d = last_index_of(name, '.');
    if d <= 0 {
        (name, None)
    } else {
        (name.subrange(0, d), Some(name.subrange(d + 1, name.len() as int)))
    }
}

/// `Path::file_stem`.
pub open spec fn file_stem_of(s: Seq<char>) -> Option<Seq<char>> {
    match file_name_of(s) {
        Some(n) => Some(split_name(n).0),
        None => None,
    }
}

/// `Path::extension`.
pub open spec fn extension_of(s: Seq<char>) -> Option<Seq<char>> {
    match file_name_of(s) {
        Some(n) => split_name(n).1,
        None => None,
    }
}

/// Position of the last `c` in `v[lo..hi]`, counted from `lo`.
fn rfind(v: &Vec<char>, lo: usize, hi: usize, c: char) -> (res: Option<usize>)
    requires
        lo <= hi <= v@.len(),
    ensures
        match res {
            None => last_index_of(v@.subrange(lo as int, hi as int), c) == -1,
            Some(k) => k < hi - lo && last_index_of(v@.subrange(lo as int, hi as int), c) == k,
        },
{
    let mut j = hi;
    while j > lo
        invariant
            lo <= j <= hi <= v@.len(),
            last_index_of(v@.subrange(lo as int, hi as int), c) == last_index_of(
                v@.subrange(lo as int, j as int),
                c,
            ),
        decreases j - lo,
    {
        if v[j - 1] == c {
            return Some(j - 1 - lo);
        }
        assert(v@.subrange(lo as int, j as int).drop_last() =~= v@.subrange(lo as int, j - 1));
        j -= 1;
    }
    None
}

fn is_dot_segment(v: &Vec<char>, lo: usize, hi: usize) -> (res: (bool, bool))
    requires
        lo <= hi <= v@.len(),
    ensures
        res.0 == (v@.subrange(lo as int, hi as int) == seq!['.']),
        res.1 == (v@.subrange(lo as int, hi as int) == seq!['.', '.']),
{
    let seg = Ghost(v@.subrange(lo as int, hi as int));
    let one = hi - lo == 1 && v[lo] == '.';
    let two = hi - lo == 2 && v[lo] == '.' && v[lo + 1] == '.';
    assert(one ==> seg@ =~= seq!['.']);
    assert(two ==> seg@ =~= seq!['.', '.']);
    proof {
        if seg@ == seq!['.'] {
            assert(seq!['.'].len() == 1 && seq!['.'][0] == '.');
            assert(seg@[0] == v@[lo as int]);
        }
        if seg@ == seq!['.', '.'] {
            assert(seq!['.', '.'].len() == 2 && seq!['.', '.'][0] == '.' && seq!['.', '.'][1]
                == '.');
            assert(seg@[0] == v@[lo as int] && seg@[1] == v@[lo + 1]);
        }
    }
    (one, two)
}

/// Bounds of the file name of `v`, as [`file_name_of`] defines it.
fn file_name_bounds(v: &Vec<char>) -> (res: Option<(usize, usize)>)
    ensures
        match res {
            None => file_name_of(v@) is None,
            Some((a, b)) => a <= b <= v@.len() && file_name_of(v@) == Some(
                v@.subrange(a as int, b as int),
            ),
        },
{
    let mut hi = v.len();
    assert(v@.subrange(0, hi as int) =~= v@);
    loop
        invariant
            hi <= v@.len(),
            file_name_of(v@) == file_name_of(v@.subrange(0, hi as int)),
        decreases hi,
    {
        let ghost s = v@.subrange(0, hi as int);
        let k = rfind(v, 0, hi, '/');
        let start = match k {
            None => 0,
            Some(k) => k + 1,
        };
        assert(v@.subrange(start as int, hi as int) =~= s.subrange(
            last_index_of(s, '/') + 1,
            s.len() as int,
        ));
        let (one, two) = is_dot_segment(v, start, hi);
        if start == hi || one {
            match k {
                None => {
                    return None;
                },
                Some(k) => {
                    assert(s.subrange(0, k as int) =~= v@.subrange(0, k as int));
                    hi = k;
                },
            }
        } else if two {
            return None;
        } else {
            return Some((start, hi));
        }
    }
}

/// Splits a file name into its stem and extension, as `Path::file_stem` and
/// `Path::extension` do on Unix.
pub fn parse_filename(filename: &String) -> (res: (Option<String>, Option<String>))
    ensures
        match res.0 {
            None => file_stem_of(filename@) is None,
            Some(stem) => file_stem_of(filename@) == Some(stem@),
        },
        match res.1 {
            None => extension_of(filename@) is None,
            Some(ext) => extension_of(filename@) == Some(ext@),
        },
{
    let v = chars_of(filename.as_str());
    match file_name_bounds(&v) {
        None => (None, None),
        Some((a, b)) => {
            let ghost name = v@.subrange(a as int, b as int);
            match rfind(&v, a, b, '.') {
                Some(d) if d > 0 => {
                    assert(v@.subrange(a as int, (a + d) as int) =~= name.subrange(0, d as int));
                    assert(v@.subrange((a + d + 1) as int, b as int) =~= name.subrange(
                        d + 1,
                        name.len() as int,
                    ));
                    (
                        Some(string_from_chars(&v, a, a + d)),
                        Some(string_from_chars(&v, a + d + 1, b)),
                    )
                },
                _ => (Some(string_from_chars(&v, a, b)), None),
            }
        },
    }
}

/// The media id a request names: with extensions enforced, the stem of the
/// requested name (when it has one); otherwise the name itself.
pub open spec fn media_id_of(requested: Seq<char>, enforce_file_extensions: bool) -> Seq<char> {
    if enforce_file_extensions && file_stem_of(requested) is Some {
        file_stem_of(requested)->0
    } else {
        requested
    }
}

/// Strips the extension from a requested media name when extensions are enforced.
pub fn normalize_media_id(media_id: String, enforce_file_extensions: bool) -> (res: String)
    ensures
        res@ == media_id_of(media_id@, enforce_file_extensions),
{
    if enforce_file_extensions {
        if let (Some(stem), _) = parse_filename(&media_id) {
            return stem;
        }
    }
    media_id
}

/// What the view route looks a request up by.
#[derive(Debug)]
pub struct ViewKey {
    pub media_id: String,
    pub ext: Option<String>,
    pub search_with_ext: bool,
}

/// The lookup key of the view route: with extensions enforced the stored
/// extension must match, and a name that has both a stem and an extension is
/// split into them; otherwise the raw name is the media id.
pub fn view_key(raw_media_id: &String, enforce_file_extensions: bool) -> (res: ViewKey)
    ensures
        res.search_with_ext == enforce_file_extensions,
        if enforce_file_extensions && file_stem_of(raw_media_id@) is Some && extension_of(
            raw_media_id@,
        ) is Some {
            &&& res.media_id@ == file_stem_of(raw_media_id@)->0
            &&& res.ext matches Some(e)
            &&& e@ == extension_of(raw_media_id@)->0
        } else {
            &&& res.media_id@ == raw_media_id@
            &&& res.ext is None
        },
{
    if enforce_file_extensions {
        if let (Some(stem), Some(ext)) = parse_filename(raw_media_id) {
            return ViewKey { media_id: stem, ext: Some(ext), search_with_ext: true };
        }
    }
    ViewKey { media_id: raw_media_id.clone(), ext: None, search_with_ext: enforce_file_extensions }
}

/// `base + name`, then `"." + ext` when there is an extension.
pub open spec fn with_extension(base: Seq<char>, ext: Option<Seq<char>>) -> Seq<char> {
    match ext {
        Some(e) => base + seq!['.'] + e,
        None => base,
    }
}

/// The public URL of a media item: `/media/{id}`, followed by `.{ext}` when
/// extensions are enforced and the item has one.
pub open spec fn media_url(media_id: Seq<char>, ext: Option<Seq<char>>, enforce: bool) -> Seq<char> {
    with_extension(
        "/media/"@ + media_id,
        if enforce {
            ext
        } else {
            None
        },
    )
}

/// Builds the public URL of a media item.
pub fn media_file_url(media_id: &str, ext: Option<&str>, enforce_file_extensions: bool) -> (res:
    String)
    ensures
        res@ == media_url(
            media_id@,
            match ext {
                Some(e) => Some(e@),
                None => None,
            },
            enforce_file_extensions,
        ),
{
    let prefix = "/media/";
    proof {
        reveal_strlit("/media/");
    }
    let mut url = concat2(prefix, media_id);
    if enforce_file_extensions {
        if let Some(e) = ext {
            url.append(".");
            proof {
                reveal_strlit(".");
            }
            url.append(e);
            assert(url@ =~= "/media/"@ + media_id@ + seq!['.'] + e@);
        }
    }
    url
}

/// Characters of the URL-safe alphabet that generated media ids are drawn from.
pub open spec fn is_url_safe_char(c: char) -> bool {
    c == '_' || c == '-' || ('0' <= c && c <= '9') || ('a' <= c && c <= 'z') || ('A' <= c && c
        <= 'Z')
}

/// `nanoid::format` over the URL-safe alphabet with the default random source,
/// as the `nanoid!(size)` macro calls it. The source shows that it returns
/// exactly `size` characters, each drawn from `nanoid::alphabet::SAFE`, and that
/// it never returns for `size == 0`. Which characters come out is random.
#[verifier::external_body]
fn nanoid_safe(size: usize) -> (id: String)
    requires
        size > 0,
    ensures
        id@.len() == size,
        forall|i: int| 0 <= i < id@.len() ==> is_url_safe_char(#[trigger] id@[i]),
{
    nanoid::format(nanoid::rngs::default, &nanoid::alphabet::SAFE, size)
}

/// Picks a fresh media id and the storage path of a file: the path is the
/// storage directory, the content hash, then `.{ext}` when the upload had an
/// extension. The id is random: `length` URL-safe characters.
pub fn generate_file_path(length: usize, base_path: &str, file_hash: &str, raw_file_ext: &Option<
    &str,
>) -> (res: (String, String))
    requires
        length > 0,
    ensures
        res.0@.len() == length,
        forall|i: int| 0 <= i < res.0@.len() ==> is_url_safe_char(#[trigger] res.0@[i]),
        res.1@ == with_extension(
            base_path@ + file_hash@,
            match raw_file_ext {
                Some(e) => Some(e@),
                None => None,
            },
        ),
{
    let file_name = nanoid_safe(length);
    let mut fp = concat2(base_path, file_hash);
    if let Some(file_ext) = raw_file_ext {
        fp.append(".");
        proof {
            reveal_strlit(".");
        }
        fp.append(file_ext);
        assert(fp@ =~= base_path@ + file_hash@ + seq!['.'] + file_ext@);
    }
    (file_name, fp)
}

/// Where the thumbnail of a file with the given content hash is kept.
pub fn thumbnail_path(file_hash: &str) -> (res: String)
    ensures
        res@ == "./thumbnails/"@ + file_hash@ + ".webp"@,
{
    crate::text::concat3("./thumbnails/", file_hash, ".webp")
}

/// The name after the last `/` of a path holds no `/`.
proof fn lemma_file_name_has_no_slash(s: Seq<char>)
    ensures
        file_name_of(s) matches Some(n) ==> !n.contains('/'),
    decreases s.len(),
{
    lemma_last_index_of(s, '/');
    let k = last_index_of(s, '/');
    let seg = s.subrange(k + 1, s.len() as int);
    if seg.len() == 0 || seg == seq!['.'] {
        if k >= 0 {
            lemma_file_name_has_no_slash(s.subrange(0, k));
        }
    } else if !(seg == seq!['.', '.']) {
        assert forall|j: int| 0 <= j < seg.len() implies seg[j] != '/' by {
            assert(seg[j] == s[k + 1 + j]);
        }
    }
}

/// An extension that `parse_filename` reports holds neither a dot nor a slash.
pub proof fn lemma_extension_is_plain(s: Seq<char>)
    ensures
        extension_of(s) matches Some(e) ==> !e.contains('.') && !e.contains('/'),
{
    lemma_file_name_has_no_slash(s);
    if let Some(n) = file_name_of(s) {
        lemma_last_index_of(n, '.');
        let d = last_index_of(n, '.');
        if d > 0 {
            let e = n.subrange(d + 1, n.len() as int);
            assert forall|j: int| 0 <= j < e.len() implies e[j] != '.' && e[j] != '/' by {
                assert(e[j] == n[d + 1 + j]);
            }
        }
    }
}

/// A name free of `/` and `.` is its own file name, stem, and has no extension;
/// with `.{e}` appended (for `e` free of `/` and `.`) its stem is still the
/// name and its extension is `e`.
pub proof fn lemma_media_name_round_trip(m: Seq<char>, e: Seq<char>)
    requires
        m.len() > 0,
        !m.contains('/'),
        !m.contains('.'),
        !e.contains('/'),
        !e.contains('.'),
    ensures
        file_stem_of(m) == Some(m),
        extension_of(m) is None,
        file_stem_of(m + seq!['.'] + e) == Some(m),
        extension_of(m + seq!['.'] + e) == Some(e),
{
    let s = m + seq!['.'] + e;
    assert(!s.contains('/')) by {
        if s.contains('/') {
            let j = choose|j: int| 0 <= j < s.len() && s[j] == '/';
            if j < m.len() {
                assert(m[j] == '/');
            } else if j > m.len() {
                assert(e[j - m.len() - 1] == '/');
            }
        }
    }
    lemma_last_index_of(s, '/');
    lemma_last_index_of(m, '/');
    lemma_last_index_of(m, '.');
    assert(s.subrange(0, s.len() as int) =~= s);
    assert(m.subrange(0, m.len() as int) =~= m);
    assert(s[0] == m[0]);
    assert(!(s =~= seq!['.']));
    assert(!(s =~= seq!['.', '.']));
    assert(!(m =~= seq!['.']));
    assert(!(m =~= seq!['.', '.']));
    assert(file_name_of(s) == Some(s));
    assert(file_name_of(m) == Some(m));
    lemma_last_index_of(s, '.');
    let d = last_index_of(s, '.');
    assert(s[m.len() as int] == '.');
    if d > m.len() {
        assert(e[d - m.len() - 1] == '.');
    }
    assert(d == m.len());
    assert(s.subrange(0, d) =~= m);
    assert(s.subrange(d + 1, s.len() as int) =~= e);
}

/// URL-safe names hold neither `/` nor `.`.
proof fn lemma_url_safe_is_plain(m: Seq<char>)
    requires
        forall|i: int| 0 <= i < m.len() ==> is_url_safe_char(#[trigger] m[i]),
    ensures
        !m.contains('/'),
        !m.contains('.'),
{
    if m.contains('/') {
        let j = choose|j: int| 0 <= j < m.len() && m[j] == '/';
        assert(is_url_safe_char(m[j]));
    }
    if m.contains('.') {
        let j = choose|j: int| 0 <= j < m.len() && m[j] == '.';
        assert(is_url_safe_char(m[j]));
    }
}

/// A file URL handed out for an upload leads back to it: for a generated media
/// id `m` and the extension of the name the file was uploaded under, the name that
/// follows `/media/` in the URL names `m` again, and, with extensions enforced,
/// splitting it gives back `m` and that same extension.
pub proof fn lemma_upload_url_resolves(m: Seq<char>, original_name: Seq<char>, enforce: bool)
    requires
        m.len() > 0,
        forall|i: int| 0 <= i < m.len() ==> is_url_safe_char(#[trigger] m[i]),
    ensures
        ({
            let ext = extension_of(original_name);
            let name = with_extension(
                m,
                if enforce {
                    ext
                } else {
                    None
                },
            );
            &&& media_url(m, ext, enforce) == "/media/"@ + name
            &&& media_id_of(name, enforce) == m
            &&& enforce ==> file_stem_of(name) == Some(m) && extension_of(name) == ext
        }),
{
    lemma_url_safe_is_plain(m);
    lemma_extension_is_plain(original_name);
    let ext = extension_of(original_name);
    match ext {
        Some(e) => {
            lemma_media_name_round_trip(m, e);
            assert("/media/"@ + m + seq!['.'] + e =~= "/media/"@ + (m + seq!['.'] + e));
        },
        None => {
            lemma_media_name_round_trip(m, Seq::empty());
        },
    }
}

/// Stem and extension put back together with a dot give the file name.
pub proof fn lemma_stem_and_extension_rebuild_name(s: Seq<char>)
    ensures
        extension_of(s) matches Some(e) ==> (file_stem_of(s) matches Some(stem) && file_name_of(s)
            == Some(stem + seq!['.'] + e)),
        file_name_of(s) matches Some(n) ==> extension_of(s) is None ==> file_stem_of(s) == Some(n),
{
    if let Some(n) = file_name_of(s) {
        lemma_last_index_of(n, '.');
        let d = last_index_of(n, '.');
        if d > 0 {
            assert(n.subrange(0, d) + seq!['.'] + n.subrange(d + 1, n.len() as int) =~= n);
        }
    }
}

} // verus!
