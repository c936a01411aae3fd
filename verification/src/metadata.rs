use vstd::prelude::*;
use vstd::string::StringExecFns;

use crate::text::{
    chars_of, clean, clean_text, concat2, concat3, sanitize, sanitize_value, trim,
    trim_whitespace,
};

verus! {

/// Matches a trailing unit (`pixels`, `mm`, `s`, `EV`) with the white space around it.
pub const UNIT_PATTERN: &'static str = r"(?i)\s*(pixels|mm|s|EV)\s*$";

/// Matches a shutter speed written as a fraction `1/x`.
pub const FRACTION_PATTERN: &'static str = r"1/([\d.]+)";

/// Matches a GPS coordinate written as `D deg M min S sec`.
pub const DMS_PATTERN: &'static str = r"(?i)(\d+)\s*deg\s*(\d+)\s*min\s*([\d.]+)\s*sec";

/// What `Regex::new(pattern)` followed by `replace(text, rep)` gives: `None`
/// when the pattern does not compile, else the text with its first match replaced.
pub uninterp spec fn regex_replace_first(pattern: Seq<char>, text: Seq<char>, rep: Seq<char>) -> Option<
    Seq<char>,
>;

/// What `Regex::new(pattern)` followed by `captures(text)` and `get(group)`
/// gives: `None` when the pattern does not compile, `Some(None)` when the text
/// does not match or the group took no part in the first match, else the text
/// of that group in the first match.
pub uninterp spec fn regex_first_group(pattern: Seq<char>, text: Seq<char>, group: nat) -> Option<
    Option<Seq<char>>,
>;

/// What `str::to_uppercase` gives back.
pub uninterp spec fn unicode_uppercase(s: Seq<char>) -> Seq<char>;

/// What `str::to_lowercase` gives back.
pub uninterp spec fn unicode_lowercase(s: Seq<char>) -> Seq<char>;

/// `regex::Regex::new` then `Regex::replace`: compiles `pattern` and replaces
/// the leftmost-first match in `text` by `rep`. Claimed: the result is a
/// function of the three strings alone; what it is, is left to the regex crate.
#[verifier::external_body]
fn replace_first(pattern: &str, text: &str, rep: &str) -> (res: Option<String>)
    ensures
        match res {
            None => regex_replace_first(pattern@, text@, rep@) is None,
            Some(r) => regex_replace_first(pattern@, text@, rep@) == Some(r@),
        },
{
    match regex::Regex::new(pattern) {
        Ok(re) => Some(re.replace(text, rep).into_owned()),
        Err(_) => None,
    }
}

/// `regex::Regex::new` then `Regex::captures` and `Captures::get`: the text of
/// capture group `group` in the leftmost-first match of `pattern` in `text`.
/// Claimed: the result is a function of its arguments alone.
#[verifier::external_body]
fn first_group(pattern: &str, text: &str, group: usize) -> (res: Option<Option<String>>)
    ensures
        match res {
            None => regex_first_group(pattern@, text@, group as nat) is None,
            Some(None) => regex_first_group(pattern@, text@, group as nat) == Some(
                None::<Seq<char>>,
            ),
            Some(Some(g)) => regex_first_group(pattern@, text@, group as nat) == Some(Some(g@)),
        },
{
    let re = match regex::Regex::new(pattern) {
        Ok(re) => re,
        Err(_) => return None,
    };
    let caps = match re.captures(text) {
        Some(caps) => caps,
        None => return Some(None),
    };
    match caps.get(group) {
        Some(m) => Some(Some(m.as_str().to_string())),
        None => Some(None),
    }
}

/// `str::to_uppercase`. Claimed: the result depends on the text alone.
#[verifier::external_body]
fn to_uppercase(s: &str) -> (res: String)
    ensures
        res@ == unicode_uppercase(s@),
{
    s.to_uppercase()
}

/// `str::to_lowercase`. Claimed: the result depends on the text alone.
#[verifier::external_body]
pub(crate) fn to_lowercase(s: &str) -> (res: String)
    ensures
        res@ == unicode_lowercase(s@),
{
    s.to_lowercase()
}

/// Whether `c` occurs in `s`.
pub fn contains_char(s: &str, c: char) -> (res: bool)
    ensures
        res == s@.contains(c),
{
    let v = chars_of(s);
    let mut i: usize = 0;
    while i < v.len()
        invariant
            i <= v@.len(),
            v@ == s@,
            forall|j: int| 0 <= j < i ==> v@[j] != c,
        decreases v.len() - i,
    {
        if v[i] == c {
            return true;
        }
        i += 1;
    }
    false
}

/// Raw metadata read from a file: keys with their header-safe values. A later
/// entry for a key replaces an earlier one, as inserting into a map does.
#[derive(Debug)]
pub struct RawMetadata {
    pub entries: Vec<(String, String)>,
}

/// The value stored last under `key`.
pub open spec fn lookup(entries: Seq<(String, String)>, key: Seq<char>) -> Option<Seq<char>>
    decreases entries.len(),
{
    if entries.len() == 0 {
        None
    } else if entries.last().0@ == key {
        Some(entries.last().1@)
    } else {
        lookup(entries.drop_last(), key)
    }
}

impl RawMetadata {
    /// The value of `key`, as a map of the entries gives it.
    pub open spec fn get_spec(&self, key: Seq<char>) -> Option<Seq<char>> {
        lookup(self.entries@, key)
    }

    /// No metadata yet.
    pub fn new() -> (res: RawMetadata)
        ensures
            forall|k: Seq<char>| res.get_spec(k) is None,
    {
        RawMetadata { entries: Vec::new() }
    }

    /// Records `value` under `key`, made safe for a header line first (line
    /// feeds become spaces, carriage returns are dropped).
    pub fn insert(&mut self, key: String, value: &str)
        ensures
            final(self).entries@.len() == old(self).entries@.len() + 1,
            final(self).entries@.drop_last() == old(self).entries@,
            final(self).entries@.last().0@ == key@,
            final(self).entries@.last().1@ == sanitize_value(value@),
            forall|k: Seq<char>|
                #[trigger] final(self).get_spec(k) == if k == key@ {
                    Some(sanitize_value(value@))
                } else {
                    old(self).get_spec(k)
                },
    {
        let ghost k0 = key@;
        let safe = sanitize(value);
        self.entries.push((key, safe));
        assert forall|k: Seq<char>|
            #[trigger] self.get_spec(k) == if k == k0 {
                Some(sanitize_value(value@))
            } else {
                old(self).get_spec(k)
            } by {
            assert(self.entries@.drop_last() =~= old(self).entries@);
        }
    }

    /// The value stored under `key`, if any.
    pub fn get(&self, key: &str) -> (res: Option<&String>)
        ensures
            match res {
                None => self.get_spec(key@) is None,
                Some(v) => self.get_spec(key@) == Some(v@),
            },
    {
        let k = String::from_str(key);
        let mut i = self.entries.len();
        assert(self.entries@.take(i as int) =~= self.entries@);
        while i > 0
            invariant
                i <= self.entries@.len(),
                k@ == key@,
                lookup(self.entries@, key@) == lookup(self.entries@.take(i as int), key@),
            decreases i,
        {
            let ghost t = self.entries@.take(i as int);
            assert(t.last() == self.entries@[i - 1]);
            assert(t.drop_last() =~= self.entries@.take(i - 1));
            if self.entries[i - 1].0 == k {
                return Some(&self.entries[i - 1].1);
            }
            i -= 1;
        }
        None
    }
}

/// The key under which an EXIF field is recorded: its tag name, lower-cased.
pub fn exif_key(tag_name: &str) -> (res: String)
    ensures
        res@ == unicode_lowercase(tag_name@),
{
    to_lowercase(tag_name)
}

/// The response header that carries an EXIF field: `x-exif-{tag}`, lower-cased.
pub fn exif_header_name(tag_name: &str) -> (res: String)
    ensures
        res@ == unicode_lowercase("x-exif-"@ + tag_name@),
{
    let name = concat2("x-exif-", tag_name);
    to_lowercase(name.as_str())
}

/// The response header that carries an audio tag: `x-audio-{key}`.
pub fn audio_header_name(key: &str) -> (res: String)
    ensures
        res@ == "x-audio-"@ + key@,
{
    concat2("x-audio-", key)
}

/// [`clean`] over an optional raw value.
pub open spec fn cleaned(v: Option<Seq<char>>) -> Option<Seq<char>> {
    match v {
        None => None,
        Some(s) => if clean_text(s).len() == 0 {
            None
        } else {
            Some(clean_text(s))
        },
    }
}

/// A measurement without its unit: the unit suffix removed, then white space
/// trimmed.
pub open spec fn unit_stripped(v: Seq<char>) -> Seq<char> {
    match regex_replace_first(UNIT_PATTERN@, v, ""@) {
        Some(r) => trim_whitespace(r),
        None => trim_whitespace(v),
    }
}

/// Removes a trailing unit (`pixels`, `mm`, `s`, `EV`) from a measurement.
/// Should the pattern not compile, nothing is replaced.
pub fn strip_unit(v: &str) -> (res: String)
    ensures
        res@ == unit_stripped(v@),
{
    match replace_first(UNIT_PATTERN, v, "") {
        Some(r) => trim(r.as_str()),
        None => trim(v),
    }
}

fn clean_opt(v: Option<&String>) -> (res: Option<String>)
    ensures
        match res {
            None => cleaned(
                match v {
                    Some(s) => Some(s@),
                    None => None,
                },
            ) is None,
            Some(r) => cleaned(
                match v {
                    Some(s) => Some(s@),
                    None => None,
                },
            ) == Some(r@),
        },
{
    clean(v)
}

/// The metadata value under `key`, cleaned.
pub open spec fn field(raw: RawMetadata, key: Seq<char>) -> Option<Seq<char>> {
    cleaned(raw.get_spec(key))
}

/// The camera: make and model joined by a space, or whichever of them is known.
pub open spec fn camera_of(raw: RawMetadata) -> Option<Seq<char>> {
    match (field(raw, "make"@), field(raw, "model"@)) {
        (Some(m1), Some(m2)) => Some(m1 + " "@ + m2),
        (Some(m), None) => Some(m),
        (None, Some(m)) => Some(m),
        (None, None) => None,
    }
}

/// The resolution `W x H`, known when both dimensions are.
pub open spec fn resolution_of(raw: RawMetadata) -> Option<Seq<char>> {
    match (field(raw, "pixelxdimension"@), field(raw, "pixelydimension"@)) {
        (Some(w), Some(h)) => Some(unit_stripped(w) + " x "@ + unit_stripped(h)),
        _ => None,
    }
}

/// The focal length in millimetres, with the 35 mm equivalent when known.
pub open spec fn focal_length_of(raw: RawMetadata) -> Option<Seq<char>> {
    match field(raw, "focallength"@) {
        Some(fl) => match field(raw, "focallengthin35mmfilm"@) {
            Some(fl35) => Some(
                unit_stripped(fl) + "mm ("@ + unit_stripped(fl35) + "mm equiv)"@,
            ),
            None => Some(unit_stripped(fl) + "mm"@),
        },
        None => None,
    }
}

/// The ISO speed, `ISO n`.
pub open spec fn iso_of(raw: RawMetadata) -> Option<Seq<char>> {
    match field(raw, "photographicsensitivity"@) {
        Some(v) => Some("ISO "@ + v),
        None => None,
    }
}

/// An exposure time as recorded, with the denominator of a `1/x` fraction when
/// the value holds one. Turning it into a shutter speed takes floating point.
#[derive(Debug)]
pub struct Exposure {
    pub value: String,
    pub fraction_denominator: Option<String>,
}

/// The exposure time, cleaned, and the `1/x` denominator found in it.
pub open spec fn exposure_matches(raw: RawMetadata, e: Option<Exposure>) -> bool {
    match field(raw, "exposuretime"@) {
        None => e is None,
        Some(v) => e matches Some(x) && x.value@ == v && match regex_first_group(
            FRACTION_PATTERN@,
            v,
            1,
        ) {
            Some(Some(d)) => x.fraction_denominator matches Some(dd) && dd@ == d,
            _ => x.fraction_denominator is None,
        },
    }
}

/// A coordinate in degrees, minutes and seconds, as the texts that matched,
/// with the hemisphere: `negative` for south and west. Turning it into a decimal
/// degree takes floating point.
#[derive(Debug)]
pub struct DmsParts {
    pub degrees: String,
    pub minutes: String,
    pub seconds: String,
    pub negative: bool,
}

/// The hemisphere reference names south or west: its upper-cased form holds `S` or `W`.
pub open spec fn is_negative_ref(r: Option<Seq<char>>) -> bool {
    match r {
        Some(s) => unicode_uppercase(s).contains('S') || unicode_uppercase(s).contains('W'),
        None => false,
    }
}

/// What [`dms_parts`] gives for a coordinate and its hemisphere reference.
pub open spec fn dms_matches(dms: Option<Seq<char>>, ref_val: Option<Seq<char>>, res: Option<DmsParts>) -> bool {
    match dms {
        None => res is None,
        Some(d) => match (
            regex_first_group(DMS_PATTERN@, d, 1),
            regex_first_group(DMS_PATTERN@, d, 2),
            regex_first_group(DMS_PATTERN@, d, 3),
        ) {
            (Some(Some(deg)), Some(Some(min)), Some(Some(sec))) => res matches Some(p) && p.degrees@
                == deg && p.minutes@ == min && p.seconds@ == sec && p.negative == is_negative_ref(
                ref_val,
            ),
            _ => res is None,
        },
    }
}

/// A parsed coordinate lies in the southern or western hemisphere, and so is
/// negative, exactly when its hemisphere reference, upper-cased, holds `S` or
/// `W`: "W" and "w" give a western (negative) longitude, "S" a southern
/// latitude, "N", "E" or no reference a positive one.
pub proof fn lemma_hemisphere_sign(d: Seq<char>, r: Option<Seq<char>>, p: DmsParts)
    requires
        dms_matches(Some(d), r, Some(p)),
    ensures
        p.negative <==> (r matches Some(s) && (unicode_uppercase(s).contains('S')
            || unicode_uppercase(s).contains('W'))),
        r is None ==> !p.negative,
{
}

/// Splits a `D deg M min S sec` coordinate into its parts and reads the
/// hemisphere from the reference value.
pub fn dms_parts(dms: Option<&String>, ref_val: Option<&String>) -> (res: Option<DmsParts>)
    ensures
        dms_matches(
            match dms {
                Some(s) => Some(s@),
                None => None,
            },
            match ref_val {
                Some(s) => Some(s@),
                None => None,
            },
            res,
        ),
{
    let d = match dms {
        Some(d) => d,
        None => return None,
    };
    let deg = first_group(DMS_PATTERN, d.as_str(), 1);
    let min = first_group(DMS_PATTERN, d.as_str(), 2);
    let sec = first_group(DMS_PATTERN, d.as_str(), 3);
    match (deg, min, sec) {
        (Some(Some(deg)), Some(Some(min)), Some(Some(sec))) => {
            let negative = match ref_val {
                Some(r) => {
                    let upper = to_uppercase(r.as_str());
                    contains_char(upper.as_str(), 'S') || contains_char(upper.as_str(), 'W')
                },
                None => false,
            };
            Some(DmsParts { degrees: deg, minutes: min, seconds: sec, negative })
        },
        _ => None,
    }
}

/// Both coordinates of a GPS position.
#[derive(Debug)]
pub struct GpsParts {
    pub lat: DmsParts,
    pub lng: DmsParts,
}

/// Metadata shown for an uploaded file. The shutter speed and the decimal
/// GPS position are derived from `exposure` and `gps` with floating point.
#[derive(Debug)]
pub struct ParsedMetadata {
    pub camera: Option<String>,
    pub date_taken: Option<String>,
    pub resolution: Option<String>,
    pub aperture: Option<String>,
    pub iso: Option<String>,
    pub focal_length: Option<String>,
    pub flash: Option<String>,
    pub white_balance: Option<String>,
    pub title: Option<String>,
    pub artist: Option<String>,
    pub album: Option<String>,
    pub exposure: Option<Exposure>,
    pub gps: Option<GpsParts>,
}

/// An optional string equals an optional spec text.
pub open spec fn opt_is(o: Option<String>, v: Option<Seq<char>>) -> bool {
    match (o, v) {
        (Some(s), Some(t)) => s@ == t,
        (None, None) => true,
        _ => false,
    }
}

fn strip_both_opts(a: &String, b: &String) -> (res: (String, String))
    ensures
        res.0@ == unit_stripped(a@),
        res.1@ == unit_stripped(b@),
{
    (strip_unit(a.as_str()), strip_unit(b.as_str()))
}

fn camera(raw: &RawMetadata) -> (res: Option<String>)
    ensures
        opt_is(res, camera_of(*raw)),
{
    let make = clean_opt(raw.get("make"));
    let model = clean_opt(raw.get("model"));
    match (make, model) {
        (Some(m1), Some(m2)) => Some(concat3(m1.as_str(), " ", m2.as_str())),
        (Some(m), None) => Some(m),
        (None, Some(m)) => Some(m),
        (None, None) => None,
    }
}

fn resolution(raw: &RawMetadata) -> (res: Option<String>)
    ensures
        opt_is(res, resolution_of(*raw)),
{
    let w = clean_opt(raw.get("pixelxdimension"));
    let h = clean_opt(raw.get("pixelydimension"));
    match (w, h) {
        (Some(w), Some(h)) => {
            let (sw, sh) = strip_both_opts(&w, &h);
            Some(concat3(sw.as_str(), " x ", sh.as_str()))
        },
        _ => None,
    }
}

fn focal_length(raw: &RawMetadata) -> (res: Option<String>)
    ensures
        opt_is(res, focal_length_of(*raw)),
{
    let fl = clean_opt(raw.get("focallength"));
    let fl35 = clean_opt(raw.get("focallengthin35mmfilm"));
    match fl {
        Some(fl) => {
            let sfl = strip_unit(fl.as_str());
            match fl35 {
                Some(fl35) => {
                    let s35 = strip_unit(fl35.as_str());
                    let mut out = concat3(sfl.as_str(), "mm (", s35.as_str());
                    out.append("mm equiv)");
                    Some(out)
                },
                None => Some(concat2(sfl.as_str(), "mm")),
            }
        },
        None => None,
    }
}

fn exposure(raw: &RawMetadata) -> (res: Option<Exposure>)
    ensures
        exposure_matches(*raw, res),
{
    match clean_opt(raw.get("exposuretime")) {
        None => None,
        Some(v) => {
            let fraction_denominator = match first_group(FRACTION_PATTERN, v.as_str(), 1) {
                Some(Some(d)) => Some(d),
                _ => None,
            };
            Some(Exposure { value: v, fraction_denominator })
        },
    }
}

fn gps(raw: &RawMetadata) -> (res: Option<GpsParts>)
    ensures
        match res {
            Some(g) => dms_matches(
                raw.get_spec("gpslatitude"@),
                raw.get_spec("gpslatituderef"@),
                Some(g.lat),
            ) && dms_matches(
                raw.get_spec("gpslongitude"@),
                raw.get_spec("gpslongituderef"@),
                Some(g.lng),
            ),
            None => !(exists|a: DmsParts, b: DmsParts|
                dms_matches(raw.get_spec("gpslatitude"@), raw.get_spec("gpslatituderef"@), Some(a))
                    && dms_matches(
                    raw.get_spec("gpslongitude"@),
                    raw.get_spec("gpslongituderef"@),
                    Some(b),
                )),
        },
{
    let lat = dms_parts(raw.get("gpslatitude"), raw.get("gpslatituderef"));
    let lng = dms_parts(raw.get("gpslongitude"), raw.get("gpslongituderef"));
    match (lat, lng) {
        (Some(lat), Some(lng)) => Some(GpsParts { lat, lng }),
        _ => None,
    }
}

/// Reads the displayed metadata out of the raw key/value metadata of a file.
pub fn parse_metadata(raw: &RawMetadata) -> (res: ParsedMetadata)
    ensures
        opt_is(res.camera, camera_of(*raw)),
        opt_is(res.date_taken, field(*raw, "datetimeoriginal"@)),
        opt_is(res.resolution, resolution_of(*raw)),
        opt_is(res.aperture, field(*raw, "fnumber"@)),
        opt_is(res.iso, iso_of(*raw)),
        opt_is(res.focal_length, focal_length_of(*raw)),
        opt_is(res.flash, field(*raw, "flash"@)),
        opt_is(res.white_balance, field(*raw, "whitebalance"@)),
        opt_is(res.title, field(*raw, "title"@)),
        opt_is(res.artist, field(*raw, "artist"@)),
        opt_is(res.album, field(*raw, "album"@)),
        exposure_matches(*raw, res.exposure),
        match res.gps {
            Some(g) => dms_matches(
                raw.get_spec("gpslatitude"@),
                raw.get_spec("gpslatituderef"@),
                Some(g.lat),
            ) && dms_matches(
                raw.get_spec("gpslongitude"@),
                raw.get_spec("gpslongituderef"@),
                Some(g.lng),
            ),
            None => !(exists|a: DmsParts, b: DmsParts|
                dms_matches(raw.get_spec("gpslatitude"@), raw.get_spec("gpslatituderef"@), Some(a))
                    && dms_matches(
                    raw.get_spec("gpslongitude"@),
                    raw.get_spec("gpslongituderef"@),
                    Some(b),
                )),
        },
{
    let iso = match clean_opt(raw.get("photographicsensitivity")) {
        Some(v) => Some(concat2("ISO ", v.as_str())),
        None => None,
    };
    ParsedMetadata {
        camera: camera(raw),
        date_taken: clean_opt(raw.get("datetimeoriginal")),
        resolution: resolution(raw),
        aperture: clean_opt(raw.get("fnumber")),
        iso,
        focal_length: focal_length(raw),
        flash: clean_opt(raw.get("flash")),
        white_balance: clean_opt(raw.get("whitebalance")),
        title: clean_opt(raw.get("title")),
        artist: clean_opt(raw.get("artist")),
        album: clean_opt(raw.get("album")),
        exposure: exposure(raw),
        gps: gps(raw),
    }
}

} // verus!
