use comet::files::{build_page, check_cursor, page_limit, MediaRecord};
use comet::models::{internal_error, maintenance_error, HttpStatus, Role, UserBroadcast, WSClientCommand, WsEvent};
use comet::settings::{settings_update_sql, settings_updates, SettingUpdate, UpdateSettingsPayload};
use comet::sharex::{route as tool_route, ToolQuery};
use comet::content::{
    content_hash, cover_picture, metadata_headers_from, metadata_headers_of, raw_metadata_from, raw_metadata_of,
    thumbnail_bytes, AudioTags,
};
use comet::paths::media_file_url;
use comet::storage::{
    delete_not_found, delete_reply, delete_target, file_not_found, hex_digest, should_remove_stored_file,
    thumbnail_source, ThumbnailSource,
};
use comet::upload::{
    check_batch_size, max_upload_bytes, place_upload, temp_file_path, upload_event, upload_gate,
    upload_reply, upload_response, Placement, Upload, UploadMeter, UploadReply,
};
use comet::ws::{dispatch, get_stats, should_forward, socket_step, unrecognized_command, uploads_event, SocketAction, SocketEvent, SocketRequest, StatsRow};

fn rec(id: &str, ext: Option<&str>) -> MediaRecord {
    MediaRecord {
        media_id: id.to_string(),
        file_ext: ext.map(|e| e.to_string()),
        file_size: 10,
        uploaded_at: 100,
        content_type: "image/png".to_string(),
        original_file_name: Some("a.png".to_string()),
    }
}

#[test]
fn page_limit_defaults_and_clamps() {
    assert_eq!(page_limit(None), 20);
    assert_eq!(page_limit(Some(0)), 1);
    assert_eq!(page_limit(Some(-5)), 1);
    assert_eq!(page_limit(Some(30)), 30);
    assert_eq!(page_limit(Some(500)), 50);
}

#[test]
fn cursor_must_exist() {
    assert_eq!(check_cursor(&Some("x".into()), None).unwrap_err(), "invalid cursor provided");
    assert!(check_cursor(&Some("x".into()), Some(5)).is_ok());
    assert!(check_cursor(&None, None).is_ok());
}

#[test]
fn page_with_more_records_has_cursor() {
    let page = build_page(vec![rec("c", Some("png")), rec("b", None), rec("a", Some("jpg"))], 2, true);
    assert_eq!(page.items.len(), 2);
    assert_eq!(page.items[0].file_url, "/media/c.png");
    assert_eq!(page.items[1].file_url, "/media/b");
    assert_eq!(page.next_cursor.as_deref(), Some("b"));
}

#[test]
fn last_page_has_no_cursor() {
    let page = build_page(vec![rec("c", Some("png")), rec("b", None)], 2, false);
    assert_eq!(page.items.len(), 2);
    assert_eq!(page.items[0].file_url, "/media/c");
    assert_eq!(page.next_cursor, None);
    let page = build_page(vec![], 20, true);
    assert!(page.items.is_empty() && page.next_cursor.is_none());
}

#[test]
fn batch_size_limit() {
    assert!(check_batch_size(9).is_ok());
    let e = check_batch_size(10).unwrap_err();
    assert_eq!(e.status, HttpStatus::BadRequest);
    assert_eq!(e.body.error, "Too many files in one request (max 10)");
}

#[test]
fn upload_size_limit() {
    assert_eq!(max_upload_bytes(Some(2)), Some(2 * 1024 * 1024));
    assert_eq!(max_upload_bytes(None), None);
    let mut m = UploadMeter::new(Some(10));
    assert!(m.add_chunk(6).is_ok());
    assert!(m.add_chunk(4).is_ok());
    assert_eq!(m.total_bytes, 10);
    assert_eq!(m.add_chunk(1).unwrap_err(), "File exceeds maximum allowed size");
    let mut m = UploadMeter::new(None);
    assert!(m.add_chunk(1 << 30).is_ok());
}

#[test]
fn temp_path_shape() {
    let p = temp_file_path("uploads/");
    assert!(p.starts_with("uploads//tmp_"));
    assert_eq!(p.len(), "uploads//tmp_".len() + 16);
    assert!(p["uploads//tmp_".len()..].chars().all(|c| c.is_ascii_alphanumeric()));
}

#[test]
fn placement_reuses_existing_content() {
    let p = place_upload(Some("uploads/h.png".into()), "uploads/h2.png".into());
    assert!(matches!(&p, Placement::Existing(s) if s == "uploads/h.png"));
    assert!(!p.remove_on_failure());
    let p = place_upload(None, "uploads/h2.png".into());
    assert_eq!(p.path(), "uploads/h2.png");
    assert!(p.remove_on_failure());
}

#[test]
fn upload_event_and_response() {
    let e = upload_event(3, &"id".into(), "image/png".into(), 42, &"/media/id.png".into(), &"a.png".into());
    assert_eq!(e.user_id, 3);
    match e.event {
        WsEvent::FileUpload(item) => {
            assert_eq!(item.media_id, "id");
            assert_eq!(item.file_url, "/media/id.png");
            assert_eq!(item.uploaded_at, 1);
            assert_eq!(item.original_file_name.as_deref(), Some("a.png"));
        }
        _ => panic!("expected a file upload event"),
    }
    let r = upload_response("id".into(), 42, "/media/id.png".into());
    assert_eq!(r.file_size, 42);
}

#[test]
fn hex_digest_is_lower_hex() {
    assert_eq!(hex_digest(&[0x00, 0xab, 0x0f, 0xff]), "00ab0fff");
    assert_eq!(hex_digest(&[]), "");
}

#[test]
fn delete_decisions() {
    let e = delete_target(true, true, "a.png".into()).unwrap_err();
    assert_eq!(e.status, HttpStatus::ServiceUnavailable);
    assert_eq!(delete_target(false, true, "a.png".into()).ok().unwrap(), "a");
    assert_eq!(delete_target(false, false, "a.png".into()).ok().unwrap(), "a.png");
    assert!(should_remove_stored_file(1));
    assert!(!should_remove_stored_file(2));
    assert_eq!(delete_not_found().status, HttpStatus::NotFound);
    assert_eq!(file_not_found().body.error, "File not found.");
    assert_eq!(maintenance_error().status.code(), 503);
    assert_eq!(internal_error().body.error, "Something went wrong.");
}

#[test]
fn thumbnails_of_audio_use_cover() {
    assert_eq!(thumbnail_source("audio/mpeg"), ThumbnailSource::EmbeddedPicture);
    assert_eq!(thumbnail_source("image/png"), ThumbnailSource::Image);
}

#[test]
fn settings_updates_in_order() {
    let p = UpdateSettingsPayload {
        allow_public_signups: Some(true),
        require_2fa: None,
        maintenance_mode: Some(false),
        max_upload_size_mb: Some(0),
        enforce_file_extensions: None,
        file_name_length: Some(12),
    };
    let u = settings_updates(&p);
    assert_eq!(
        u,
        vec![
            SettingUpdate::AllowPublicSignups(true),
            SettingUpdate::MaintenanceMode(false),
            SettingUpdate::MaxUploadSizeMb(None),
            SettingUpdate::FileNameLength(12)
        ]
    );
    assert_eq!(
        settings_update_sql(&u).unwrap(),
        "UPDATE settings SET allow_public_signups = ?, maintenance_mode = ?, max_upload_size_mb = ?, file_name_length = ? WHERE id = 1"
    );
    assert_eq!(settings_update_sql(&vec![]), None);
    let p = UpdateSettingsPayload {
        allow_public_signups: None,
        require_2fa: None,
        maintenance_mode: None,
        max_upload_size_mb: Some(5),
        enforce_file_extensions: None,
        file_name_length: None,
    };
    assert_eq!(settings_updates(&p), vec![SettingUpdate::MaxUploadSizeMb(Some(5))]);
}

#[test]
fn roles_and_status_codes() {
    assert_eq!(Role::Admin.weight(), 1);
    assert_eq!(Role::User.weight(), 2);
    assert_eq!(HttpStatus::Unauthorized.code(), 401);
    assert_eq!(HttpStatus::Success.code(), 200);
}

#[test]
fn sharex_config() {
    let c = tool_route(ToolQuery { tool: "sharex".into(), api_key: "k".into(), domain: "https://x.io".into() }).ok().unwrap();
    assert_eq!(c.request_url, "https://x.io/upload");
    assert_eq!(c.url, "https://x.io{json:$.[0].file_url}");
    assert_eq!(c.authorization, "k");
    assert_eq!(c.version, "15.0.0");
    let e = tool_route(ToolQuery { tool: "flameshot".into(), api_key: "k".into(), domain: "d".into() });
    assert_eq!(e.err(), Some(HttpStatus::BadRequest));
}

#[test]
fn socket_decisions() {
    assert!(should_forward(1, 1));
    assert!(!should_forward(1, 2));
    assert!(matches!(dispatch(WSClientCommand::GetStats), SocketRequest::Stats));
    match dispatch(WSClientCommand::GetUploads { cursor: Some("c".into()), limit: Some(5) }) {
        SocketRequest::Uploads { cursor, limit } => {
            assert_eq!(cursor.as_deref(), Some("c"));
            assert_eq!(limit, Some(5));
        }
        _ => panic!("expected an uploads request"),
    }
    assert!(matches!(unrecognized_command(), WsEvent::Error(m) if m == "unrecognized command"));
    assert!(matches!(uploads_event(Err("bad".into())), WsEvent::Error(m) if m == "bad"));
}

#[test]
fn stats_figures() {
    let e = get_stats(Ok(StatsRow {
        total_files: 4,
        total_files_trend: Some(1),
        storage_used_bytes: Some(10),
        storage_used_bytes_trend: None,
        images_count: Some(2),
        videos_count: None,
        audio_count: Some(1),
        documents_count: Some(0),
    }));
    match e {
        WsEvent::DashboardStats { total_files, total_files_trend, storage_used_bytes, storage_used_bytes_trend, average_file_size_bytes, views, file_types } => {
            assert_eq!((total_files, total_files_trend, storage_used_bytes, storage_used_bytes_trend, average_file_size_bytes, views), (4, 1, 10, 0, 2, 0));
            let kinds: Vec<(String, i64)> = file_types.into_iter().map(|f| (f.name, f.amount)).collect();
            assert_eq!(
                kinds,
                vec![
                    ("Images".to_string(), 2),
                    ("Videos".to_string(), 0),
                    ("Audio".to_string(), 1),
                    ("Documents".to_string(), 0),
                    ("Other".to_string(), 1),
                ]
            );
        }
        _ => panic!("expected stats"),
    }
    let e = get_stats(Ok(StatsRow {
        total_files: 0,
        total_files_trend: None,
        storage_used_bytes: None,
        storage_used_bytes_trend: None,
        images_count: None,
        videos_count: None,
        audio_count: None,
        documents_count: None,
    }));
    assert!(matches!(e, WsEvent::DashboardStats { average_file_size_bytes: 0, .. }));
    assert!(matches!(get_stats(Err(())), WsEvent::Error(m) if m == "failed to fetch dashboard stats"));
}

#[test]
fn upload_gate_and_reply_shape() {
    assert!(upload_gate(false).is_ok());
    let e = upload_gate(true).unwrap_err();
    assert_eq!(e.status, HttpStatus::ServiceUnavailable);
    assert_eq!(e.body.error, "This app is in maintenance mode.");

    let one = upload_reply(vec![Upload::Success(upload_response("DLRWjS_p".into(), 194668, "/media/DLRWjS_p.jpg".into()))]);
    match one {
        UploadReply::One(Upload::Success(r)) => {
            assert_eq!(r.file, "DLRWjS_p");
            assert_eq!(r.file_url, "/media/DLRWjS_p.jpg");
            assert_eq!(r.file_size, 194668);
        }
        _ => panic!("a single file is answered with one object"),
    }
    let two = upload_reply(vec![
        Upload::Failure { original_file_name: "a".into(), error: "x".into() },
        Upload::Failure { original_file_name: "b".into(), error: "y".into() },
    ]);
    assert!(matches!(two, UploadReply::Many(v) if v.len() == 2));
    assert!(matches!(upload_reply(Vec::new()), UploadReply::Many(v) if v.is_empty()));
}

#[test]
fn documented_upload_url_and_delete_reply() {
    assert_eq!(media_file_url("DLRWjS_p", Some("jpg"), true), "/media/DLRWjS_p.jpg");
    assert_eq!(delete_reply().message, "Removed.");
}

#[test]
fn content_hash_is_hex_sha256() {
    assert_eq!(content_hash(b"abc"), "ba7816bf8f01cfea414140de5dae2223b00361a396177a9cb410ff61f20015ad");
    assert_eq!(content_hash(b"").len(), 64);
}

#[test]
fn raw_metadata_from_tags_then_fields() {
    let tags = AudioTags { artist: Some("A\nB".into()), title: None, album: Some("Al".into()), genre: None };
    let fields = vec![("Make".to_string(), "Canon".to_string()), ("ISOSpeed".to_string(), "100".to_string())];
    let m = raw_metadata_from(Some(tags), fields);
    let entries: Vec<(String, String)> = m.entries.clone();
    assert_eq!(
        entries,
        vec![
            ("artist".to_string(), "A B".to_string()),
            ("album".to_string(), "Al".to_string()),
            ("make".to_string(), "Canon".to_string()),
            ("isospeed".to_string(), "100".to_string()),
        ]
    );
    assert_eq!(m.get("make").map(|s| s.as_str()), Some("Canon"));
}

#[test]
fn metadata_headers_prefer_exif() {
    let tags = || Some(AudioTags { artist: Some("A".into()), title: Some("T".into()), album: None, genre: None });
    let h = metadata_headers_from(tags(), vec![("Model".to_string(), "X\r1".to_string())]);
    assert_eq!(h, vec![("x-exif-model".to_string(), "X1".to_string())]);
    let h = metadata_headers_from(tags(), Vec::new());
    assert_eq!(
        h,
        vec![("x-audio-artist".to_string(), "A".to_string()), ("x-audio-title".to_string(), "T".to_string())]
    );
    assert!(metadata_headers_from(None, Vec::new()).is_empty());
}

#[test]
fn unreadable_bytes_have_no_metadata() {
    assert!(raw_metadata_of(b"plain text, not a media file").entries.is_empty());
    assert!(metadata_headers_of("uploads/x.mp3", b"plain text, not a media file").is_empty());
    assert!(metadata_headers_of("uploads/x", b"plain text, not a media file").is_empty());
}

#[test]
fn thumbnails_of_images_and_non_images() {
    let img = image::RgbImage::from_pixel(800, 200, image::Rgb([10, 20, 30]));
    let mut png = std::io::Cursor::new(Vec::new());
    image::DynamicImage::ImageRgb8(img).write_to(&mut png, image::ImageFormat::Png).unwrap();
    let thumb = thumbnail_bytes(ThumbnailSource::Image, "uploads/abc.png", png.get_ref()).unwrap();
    assert_eq!(&thumb[0..4], b"RIFF");
    let decoded = image::load_from_memory(&thumb).unwrap();
    assert_eq!((decoded.width(), decoded.height()), (400, 100));
    // The format comes from the stored path's extension, as `image::open` takes it.
    assert_eq!(thumbnail_bytes(ThumbnailSource::Image, "uploads/abc", png.get_ref()).unwrap_err(), HttpStatus::UnprocessableEntity);
    assert_eq!(thumbnail_bytes(ThumbnailSource::Image, "uploads/abc.jpg", png.get_ref()).unwrap_err(), HttpStatus::UnprocessableEntity);
    assert_eq!(thumbnail_bytes(ThumbnailSource::Image, "uploads/abc.png", b"not an image").unwrap_err(), HttpStatus::UnprocessableEntity);
    assert_eq!(thumbnail_bytes(ThumbnailSource::EmbeddedPicture, "uploads/abc.mp3", b"not audio").unwrap_err(), HttpStatus::UnprocessableEntity);
    assert_eq!(thumbnail_bytes(ThumbnailSource::EmbeddedPicture, "uploads/abc", b"not audio").unwrap_err(), HttpStatus::UnprocessableEntity);
}

#[test]
fn socket_steps() {
    let mine = socket_step(5, SocketEvent::Broadcast(UserBroadcast { user_id: 5, event: WsEvent::FileDelete("x".into()) }));
    assert!(matches!(mine, SocketAction::Send { event: WsEvent::FileDelete(ref id), close_on_failure: true } if id == "x"));
    let other = socket_step(5, SocketEvent::Broadcast(UserBroadcast { user_id: 6, event: WsEvent::FileDelete("x".into()) }));
    assert!(matches!(other, SocketAction::Wait));
    assert!(matches!(socket_step(5, SocketEvent::Lagged), SocketAction::Wait));
    assert!(matches!(socket_step(5, SocketEvent::ChannelClosed), SocketAction::Close));
    assert!(matches!(socket_step(5, SocketEvent::Disconnected), SocketAction::Close));
    assert!(matches!(socket_step(5, SocketEvent::NonText), SocketAction::Wait));
    assert!(matches!(
        socket_step(5, SocketEvent::Unrecognized),
        SocketAction::Send { event: WsEvent::Error(ref m), close_on_failure: false } if m == "unrecognized command"
    ));
    assert!(matches!(socket_step(5, SocketEvent::Command(WSClientCommand::GetStats)), SocketAction::Answer(SocketRequest::Stats)));
}

#[test]
fn cover_picture_choice() {
    let a = vec![1u8, 2];
    let b = vec![3u8];
    assert_eq!(cover_picture(None), None);
    assert_eq!(cover_picture(Some((Some(vec![a.clone(), b.clone()]), Some(vec![b.clone()])))), Some(Some(a.clone())));
    assert_eq!(cover_picture(Some((None, Some(vec![b.clone()])))), Some(Some(b.clone())));
    assert_eq!(cover_picture(Some((Some(Vec::new()), Some(vec![b.clone()])))), Some(None));
    assert_eq!(cover_picture(Some((None, None))), Some(None));
}
