use comet::metadata::{
    audio_header_name, contains_char, dms_parts, exif_header_name, exif_key, parse_metadata,
    strip_unit, RawMetadata,
};
use comet::text::{clean, sanitize, starts_with, trim};

fn raw(pairs: &[(&str, &str)]) -> RawMetadata {
    let mut r = RawMetadata::new();
    for (k, v) in pairs {
        r.insert(k.to_string(), v);
    }
    r
}

#[test]
fn clean_strips_quotes_then_whitespace() {
    assert_eq!(clean(Some(&"\"Canon\"".to_string())), Some("Canon".to_string()));
    assert_eq!(clean(Some(&"  Nikon  ".to_string())), Some("Nikon".to_string()));
    assert_eq!(clean(Some(&"\" a b \"".to_string())), Some("a b".to_string()));
    assert_eq!(clean(Some(&" \"x\" ".to_string())), Some("\"x\"".to_string()));
}

#[test]
fn clean_of_nothing_is_none() {
    assert_eq!(clean(None), None);
    assert_eq!(clean(Some(&"".to_string())), None);
    assert_eq!(clean(Some(&"\"\"".to_string())), None);
    assert_eq!(clean(Some(&" \t\n".to_string())), None);
}

#[test]
fn trim_matches_std_trim() {
    for s in ["  a  ", "\u{3000}x\u{2003}", "\u{85}y", "nothing", "", " \u{a0} "] {
        assert_eq!(trim(s), s.trim());
    }
}

#[test]
fn sanitize_replaces_line_feeds_and_drops_carriage_returns() {
    assert_eq!(sanitize("a\r\nb\nc"), "a b c");
    assert_eq!(sanitize("plain"), "plain");
    let s = sanitize("x\n\r\n");
    assert!(!s.contains('\n') && !s.contains('\r'));
}

#[test]
fn starts_with_prefix() {
    assert!(starts_with("audio/mpeg", "audio/"));
    assert!(!starts_with("video/mp4", "audio/"));
    assert!(!starts_with("aud", "audio/"));
}

#[test]
fn strip_unit_removes_trailing_units() {
    assert_eq!(strip_unit("4000 pixels"), "4000");
    assert_eq!(strip_unit("50 mm"), "50");
    assert_eq!(strip_unit("0.5 EV"), "0.5");
    assert_eq!(strip_unit("1/200 s"), "1/200");
    assert_eq!(strip_unit("35"), "35");
    assert_eq!(strip_unit("24MM"), "24");
}

#[test]
fn raw_metadata_later_insert_wins_and_is_sanitized() {
    let r = raw(&[("make", "A"), ("make", "B\nC")]);
    assert_eq!(r.get("make").map(|s| s.as_str()), Some("B C"));
    assert_eq!(r.get("model"), None);
}

#[test]
fn exif_and_audio_header_names() {
    assert_eq!(exif_key("DateTimeOriginal"), "datetimeoriginal");
    assert_eq!(exif_header_name("FNumber"), "x-exif-fnumber");
    assert_eq!(audio_header_name("artist"), "x-audio-artist");
}

#[test]
fn parse_metadata_camera_resolution_focal_iso() {
    let r = raw(&[
        ("make", "\"Canon\""),
        ("model", "EOS 5D"),
        ("pixelxdimension", "6000 pixels"),
        ("pixelydimension", "4000 pixels"),
        ("focallength", "50 mm"),
        ("focallengthin35mmfilm", "75 mm"),
        ("photographicsensitivity", "400"),
        ("datetimeoriginal", "2024-01-01 10:00:00"),
        ("fnumber", "f/2.8"),
        ("flash", "Fired"),
        ("whitebalance", "Auto"),
        ("title", "  Song "),
        ("artist", "Band"),
        ("album", "\"\""),
    ]);
    let m = parse_metadata(&r);
    assert_eq!(m.camera.as_deref(), Some("Canon EOS 5D"));
    assert_eq!(m.resolution.as_deref(), Some("6000 x 4000"));
    assert_eq!(m.focal_length.as_deref(), Some("50mm (75mm equiv)"));
    assert_eq!(m.iso.as_deref(), Some("ISO 400"));
    assert_eq!(m.date_taken.as_deref(), Some("2024-01-01 10:00:00"));
    assert_eq!(m.aperture.as_deref(), Some("f/2.8"));
    assert_eq!(m.flash.as_deref(), Some("Fired"));
    assert_eq!(m.white_balance.as_deref(), Some("Auto"));
    assert_eq!(m.title.as_deref(), Some("Song"));
    assert_eq!(m.artist.as_deref(), Some("Band"));
    assert_eq!(m.album, None);
    assert!(m.exposure.is_none());
    assert!(m.gps.is_none());
}

#[test]
fn parse_metadata_partial_camera_and_focal_length() {
    let m = parse_metadata(&raw(&[("model", "Pixel 7"), ("focallength", "6.8 mm")]));
    assert_eq!(m.camera.as_deref(), Some("Pixel 7"));
    assert_eq!(m.focal_length.as_deref(), Some("6.8mm"));
    assert_eq!(m.resolution, None);
    let m = parse_metadata(&raw(&[("make", "Sony"), ("pixelxdimension", "10")]));
    assert_eq!(m.camera.as_deref(), Some("Sony"));
    assert_eq!(m.resolution, None);
}

#[test]
fn parse_metadata_exposure_fraction() {
    let m = parse_metadata(&raw(&[("exposuretime", "1/250 s")]));
    let e = m.exposure.unwrap();
    assert_eq!(e.value, "1/250 s");
    assert_eq!(e.fraction_denominator.as_deref(), Some("250"));
    let m = parse_metadata(&raw(&[("exposuretime", "2")]));
    let e = m.exposure.unwrap();
    assert_eq!(e.value, "2");
    assert_eq!(e.fraction_denominator, None);
}

#[test]
fn parse_metadata_gps() {
    let m = parse_metadata(&raw(&[
        ("gpslatitude", "52 deg 31 min 12.5 sec"),
        ("gpslatituderef", "N"),
        ("gpslongitude", "13 deg 24 min 0 sec"),
        ("gpslongituderef", "west"),
    ]));
    let g = m.gps.unwrap();
    assert_eq!((g.lat.degrees.as_str(), g.lat.minutes.as_str(), g.lat.seconds.as_str()), ("52", "31", "12.5"));
    assert!(!g.lat.negative);
    assert_eq!(g.lng.degrees, "13");
    assert!(g.lng.negative);
    let m = parse_metadata(&raw(&[("gpslatitude", "52 deg 31 min 12.5 sec")]));
    assert!(m.gps.is_none());
}

#[test]
fn dms_parts_needs_the_pattern() {
    assert!(dms_parts(Some(&"52.5".to_string()), None).is_none());
    assert!(dms_parts(None, Some(&"S".to_string())).is_none());
    let p = dms_parts(Some(&"1 DEG 2 MIN 3 SEC".to_string()), Some(&"s".to_string())).unwrap();
    assert!(p.negative);
    assert_eq!(p.seconds, "3");
}

#[test]
fn contains_char_finds() {
    assert!(contains_char("SOUTH", 'S'));
    assert!(!contains_char("NORTH", 'W'));
}

#[test]
fn clean_keeps_plain_value() {
    assert_eq!(clean(Some(&"f/2.8".to_string())), Some("f/2.8".to_string()));
}

#[test]
fn cleaned_value_is_trimmed() {
    let c = clean(Some(&"\" \u{2003}x y\t\"".to_string())).unwrap();
    assert_eq!(c, "x y");
}
