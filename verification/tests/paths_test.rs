use comet::paths::{generate_file_path, media_file_url, normalize_media_id, parse_filename, thumbnail_path, view_key};

fn pf(s: &str) -> (Option<String>, Option<String>) {
    parse_filename(&s.to_string())
}

fn some(s: &str) -> Option<String> {
    Some(s.to_string())
}

#[test]
fn parse_filename_plain_name_with_extension() {
    assert_eq!(pf("photo.jpg"), (some("photo"), some("jpg")));
}

#[test]
fn parse_filename_keeps_all_but_last_dot_in_stem() {
    assert_eq!(pf("archive.tar.gz"), (some("archive.tar"), some("gz")));
}

#[test]
fn parse_filename_without_extension() {
    assert_eq!(pf("README"), (some("README"), None));
}

#[test]
fn parse_filename_hidden_file_has_no_extension() {
    assert_eq!(pf(".bashrc"), (some(".bashrc"), None));
    assert_eq!(pf(".config.toml"), (some(".config"), some("toml")));
}

#[test]
fn parse_filename_trailing_dot_gives_empty_extension() {
    assert_eq!(pf("name."), (some("name"), some("")));
}

#[test]
fn parse_filename_uses_last_component() {
    assert_eq!(pf("dir/sub/file.txt"), (some("file"), some("txt")));
    assert_eq!(pf("dir/file.txt/"), (some("file"), some("txt")));
    assert_eq!(pf("dir/file.txt/."), (some("file"), some("txt")));
    assert_eq!(pf("./x.png"), (some("x"), some("png")));
}

#[test]
fn parse_filename_without_file_name() {
    assert_eq!(pf(""), (None, None));
    assert_eq!(pf("/"), (None, None));
    assert_eq!(pf("."), (None, None));
    assert_eq!(pf(".."), (None, None));
    assert_eq!(pf("a/.."), (None, None));
}

#[test]
fn parse_filename_unicode() {
    assert_eq!(pf("фото.jpeg"), (some("фото"), some("jpeg")));
}

#[test]
fn normalize_media_id_strips_extension_when_enforced() {
    assert_eq!(normalize_media_id("abc.png".to_string(), true), "abc");
    assert_eq!(normalize_media_id("abc.png".to_string(), false), "abc.png");
    assert_eq!(normalize_media_id("abc".to_string(), true), "abc");
}

#[test]
fn view_key_splits_name_and_extension() {
    let k = view_key(&"abc.png".to_string(), true);
    assert_eq!(k.media_id, "abc");
    assert_eq!(k.ext.as_deref(), Some("png"));
    assert!(k.search_with_ext);

    let k = view_key(&"abc".to_string(), true);
    assert_eq!(k.media_id, "abc");
    assert_eq!(k.ext, None);
    assert!(k.search_with_ext);

    let k = view_key(&"abc.png".to_string(), false);
    assert_eq!(k.media_id, "abc.png");
    assert_eq!(k.ext, None);
    assert!(!k.search_with_ext);
}

#[test]
fn media_file_url_appends_extension_only_when_enforced() {
    assert_eq!(media_file_url("abc", Some("png"), true), "/media/abc.png");
    assert_eq!(media_file_url("abc", Some("png"), false), "/media/abc");
    assert_eq!(media_file_url("abc", None, true), "/media/abc");
}

#[test]
fn generate_file_path_builds_storage_path() {
    let (name, fp) = generate_file_path(8, "uploads/", "deadbeef", &Some("jpg"));
    assert_eq!(name.chars().count(), 8);
    assert!(name.chars().all(|c| c.is_ascii_alphanumeric() || c == '_' || c == '-'));
    assert_eq!(fp, "uploads/deadbeef.jpg");
    let (name, fp) = generate_file_path(21, "uploads/", "deadbeef", &None);
    assert_eq!(name.len(), 21);
    assert_eq!(fp, "uploads/deadbeef");
}

#[test]
fn upload_url_resolves_back_to_media_id() {
    let (name, _) = generate_file_path(8, "uploads/", "h", &Some("png"));
    let (_, ext) = pf("holiday photo.png");
    let url = media_file_url(&name, ext.as_deref(), true);
    let requested = url.strip_prefix("/media/").unwrap().to_string();
    let key = view_key(&requested, true);
    assert_eq!(key.media_id, name);
    assert_eq!(key.ext.as_deref(), Some("png"));
    assert_eq!(normalize_media_id(requested, true), name);
}

#[test]
fn thumbnail_path_is_webp_under_thumbnails() {
    assert_eq!(thumbnail_path("abc123"), "./thumbnails/abc123.webp");
}
