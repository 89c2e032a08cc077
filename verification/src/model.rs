//! The data types that clients and the engine exchange, and the rules on them that need no
//! engine state: parsing challenge kinds and statuses, and the validity of a challenge.
use std::collections::HashMap;
use vstd::prelude::*;

verus! {

/// Unix time in seconds.
pub type Timestamp = i64;

/// A time of day as `chrono::NaiveTime` stores it: seconds since midnight and the fraction of the
/// current second in nanoseconds (above 999_999_999 during a leap second).
#[derive(Debug, Clone, Copy, PartialEq, Eq, Structural)]
pub struct TimeOfDay {
    pub secs: u32,
    pub frac: u32,
}

impl TimeOfDay {
    /// The order of times of day: by second, then by fraction.
    pub open spec fn before(self, other: TimeOfDay) -> bool {
        self.secs < other.secs || (self.secs == other.secs && self.frac < other.frac)
    }

    /// `self` is not later than `other`.
    pub open spec fn not_after(self, other: TimeOfDay) -> bool {
        !other.before(self)
    }

    /// Whether `self` comes strictly before `other`.
    pub fn is_before(&self, other: &TimeOfDay) -> (r: bool)
        ensures
            r == self.before(*other),
    {
        self.secs < other.secs || (self.secs == other.secs && self.frac < other.frac)
    }
}

/// A calendar date.
#[derive(Debug, Clone, Copy, PartialEq, Eq, Structural)]
pub struct GameDate {
    pub year: i32,
    pub month: u32,
    pub day: u32,
}

/// The configurable part of a game that clients may read and change.
#[derive(Debug, Clone)]
pub struct GameConfig {
    pub num_catchers: u64,
    pub start_zone: u64,
    pub start_time: TimeOfDay,
    pub end_time: TimeOfDay,
    pub challenge_sets: Vec<u64>,
}

/// Overrides for some values of a `GameConfig`.
#[derive(Debug, Clone)]
pub struct PartialGameConfig {
    pub num_catchers: Option<u64>,
    pub start_zone: Option<u64>,
    pub start_time: Option<TimeOfDay>,
    pub end_time: Option<TimeOfDay>,
    pub challenge_sets: Option<Vec<u64>>,
}

/// A location fix as a phone reports it. Latitude, longitude, heading and speed are 32 bit
/// floating point numbers, held here by their bit patterns (`f32::to_bits`).
#[derive(Debug, Clone, Copy, PartialEq, Eq, Structural)]
pub struct DetailedLocation {
    pub latitude: u32,
    pub longitude: u32,
    /// accuracy in metres
    pub accuracy: u16,
    /// heading in degrees (bit pattern of an `f32`), 0 is north
    pub heading: u32,
    /// speed in m/s (bit pattern of an `f32`)
    pub speed: u32,
    pub timestamp: Timestamp,
}

/// A location with only position and time; the position is held by the bit patterns of two `f32`.
#[derive(Debug, Clone, Copy, PartialEq, Eq, Structural)]
pub struct MinimalLocation {
    pub latitude: u32,
    pub longitude: u32,
    pub timestamp: Timestamp,
}

impl DetailedLocation {
    /// The position and time of this fix.
    pub fn to_minimal(&self) -> (m: MinimalLocation)
        ensures
            m == self.minimal(),
    {
        MinimalLocation {
            latitude: self.latitude,
            longitude: self.longitude,
            timestamp: self.timestamp,
        }
    }

    pub open spec fn minimal(self) -> MinimalLocation {
        MinimalLocation {
            latitude: self.latitude,
            longitude: self.longitude,
            timestamp: self.timestamp,
        }
    }
}

/// A position: latitude and longitude as bit patterns of `f32`.
#[derive(Debug, Clone, Copy, PartialEq, Eq, Structural)]
pub struct Position {
    pub latitude: u32,
    pub longitude: u32,
}

/// A team colour.
#[derive(Debug, Clone, Copy, PartialEq, Eq, Structural)]
pub struct Colour {
    pub r: u8,
    pub g: u8,
    pub b: u8,
}

/// A binary JPEG-encoded picture. It *should* always be a valid JPEG.
#[derive(Debug, Clone)]
pub struct RawPicture {
    pub(crate) data: Vec<u8>,
}

/// The JPEG encoding that the image crate writes of the picture it decodes from `bytes` as a
/// JPEG, where it can decode and encode it.
pub uninterp spec fn jpeg_reencoded(bytes: Seq<u8>) -> Option<Seq<u8>>;

#[verifier::external_type_specification]
#[verifier::external_body]
pub struct ExImageError(image::ImageError);

/// `image::load_from_memory_with_format` with `ImageFormat::Jpeg`, then `DynamicImage::write_to`
/// with `ImageFormat::Jpeg` into a buffer: the picture decoded from `bytes` and encoded again.
/// Its bytes, and whether it succeeds, are named by `jpeg_reencoded`; nothing more is stated.
#[verifier::external_body]
pub(crate) fn reencode_jpeg(bytes: &[u8]) -> (r: Result<Vec<u8>, image::ImageError>)
    ensures
        match r {
            Ok(v) => jpeg_reencoded(bytes@) == Some(v@),
            Err(_) => jpeg_reencoded(bytes@) is None,
        },
{
    let img = image::load_from_memory_with_format(bytes, image::ImageFormat::Jpeg)?;
    let mut buffer = std::io::Cursor::new(Vec::new());
    img.write_to(&mut buffer, image::ImageFormat::Jpeg)?;
    Ok(buffer.into_inner())
}

impl RawPicture {
    /// A picture from JPEG bytes, decoded and encoded again by the image crate (see
    /// `jpeg_reencoded`); `PictureProblem` where they are no picture the crate can read.
    pub fn from_bytes(bytes: Vec<u8>) -> (r: Result<RawPicture, crate::commands::Error>)
        ensures
            match r {
                Ok(p) => jpeg_reencoded(bytes@) == Some(p.bytes()),
                Err(e) => jpeg_reencoded(bytes@) is None && e == crate::commands::Error::PictureProblem,
            },
    {
        match reencode_jpeg(bytes.as_slice()) {
            Ok(data) => Ok(RawPicture::from_jpeg_bytes(data)),
            Err(_) => Err(crate::commands::Error::PictureProblem),
        }
    }

    /// Wraps encoded JPEG bytes.
    pub fn from_jpeg_bytes(data: Vec<u8>) -> (p: RawPicture)
        ensures
            p.bytes() == data@,
    {
        RawPicture { data }
    }

    /// The encoded bytes of the picture.
    pub closed spec fn bytes(&self) -> Seq<u8> {
        self.data@
    }

    /// A copy of the picture.
    pub fn duplicate(&self) -> (p: RawPicture)
        ensures
            p.bytes() == self.bytes(),
    {
        RawPicture::from_jpeg_bytes(self.get_bytes())
    }

    /// Returns a copy of the encoded bytes.
    pub fn get_bytes(&self) -> (r: Vec<u8>)
        ensures
            r@ == self.bytes(),
    {
        let mut out: Vec<u8> = Vec::new();
        let mut i: usize = 0;
        while i < self.data.len()
            invariant
                i <= self.data@.len(),
                out@ == self.data@.take(i as int),
            decreases self.data@.len() - i,
        {
            out.push(self.data[i]);
            i = i + 1;
            assert(out@ =~= self.data@.take(i as int));
        }
        assert(self.data@.take(self.data@.len() as int) =~= self.data@);
        out
    }
}

/// A picture with some metadata.
#[derive(Debug, Clone)]
pub struct Picture {
    pub data: RawPicture,
    pub is_thumbnail: bool,
    pub id: u64,
}

/// A game session as clients see it.
#[derive(Debug, Clone)]
pub struct GameSession {
    pub name: String,
    pub mode: Mode,
    pub id: u64,
}

#[derive(Debug, Clone, Copy, PartialEq, Eq, Structural)]
pub enum ChallengeType {
    Kaff,
    Ortsspezifisch,
    Regionsspezifisch,
    Unspezifisch,
    Zoneable,
    ZKaff,
}

#[derive(Debug, Clone, Copy, PartialEq, Eq, Structural)]
pub enum TeamRole {
    Runner,
    Catcher,
}

#[derive(Debug, Clone, Copy, PartialEq, Eq, Structural)]
pub enum RandomPlaceType {
    Zone,
    SBahnZone,
}

#[derive(Debug, Clone, Copy, PartialEq, Eq, Structural)]
pub enum ChallengeStatus {
    Approved,
    Edited,
    Rejected,
    Glorious,
    ToSort,
    Refactor,
}

#[derive(Debug, Clone, Copy, PartialEq, Eq, Structural)]
pub enum Mode {
    Traditional,
    Gfrorefurz,
}

/// An error with a text.
#[derive(Debug)]
pub struct TextError(pub String);

impl TextError {
    /// The text of the error.
    pub fn text(&self) -> (s: String)
        ensures
            s@ == self.0@,
    {
        self.0.clone()
    }
}

/// Lower-cases a string as `str::to_lowercase` does.
pub uninterp spec fn str_lowercase(s: Seq<char>) -> Seq<char>;

/// Calls `str::to_lowercase` (std): the Unicode lower case of `s`. Its result is named by
/// `str_lowercase`; what the Unicode tables map each character to is not stated here.
#[verifier::external_body]
pub(crate) fn lowercase(s: &str) -> (r: String)
    ensures
        r@ == str_lowercase(s@),
{
    s.to_lowercase()
}

/// `s` with every underscore removed.
pub open spec fn without_underscores(s: Seq<char>) -> Seq<char>
    decreases s.len(),
{
    if s.len() == 0 {
        Seq::<char>::empty()
    } else if s.last() == '_' {
        without_underscores(s.drop_last())
    } else {
        without_underscores(s.drop_last()).push(s.last())
    }
}

/// Whether `s` equals `target` once the underscores of `s` are removed.
pub fn equals_without_underscores(s: &str, target: &str) -> (b: bool)
    ensures
        b == (without_underscores(s@) == target@),
{
    let n = s.unicode_len();
    let mut kept: Vec<char> = Vec::new();
    let mut i: usize = 0;
    while i < n
        invariant
            n == s@.len(),
            i <= n,
            kept@ == without_underscores(s@.take(i as int)),
        decreases n - i,
    {
        let c = s.get_char(i);
        assert(s@.take(i as int + 1).drop_last() =~= s@.take(i as int));
        if c != '_' {
            kept.push(c);
        }
        i = i + 1;
    }
    assert(s@.take(n as int) =~= s@);
    let m = target.unicode_len();
    if kept.len() != m {
        return false;
    }
    let mut j: usize = 0;
    while j < m
        invariant
            m == target@.len(),
            kept@ == without_underscores(s@),
            kept@.len() == m,
            j <= m,
            forall|k: int| 0 <= k < j ==> kept@[k] == target@[k],
        decreases m - j,
    {
        if kept[j] != target.get_char(j) {
            assert(kept@[j as int] != target@[j as int]);
            return false;
        }
        j = j + 1;
    }
    assert(kept@ =~= target@);
    true
}

/// The challenge type named by an already lower-cased word, underscores ignored.
pub open spec fn challenge_type_named(lower: Seq<char>) -> Option<ChallengeType> {
    let w = without_underscores(lower);
    if w == "kaff"@ {
        Some(ChallengeType::Kaff)
    } else if w == "ortsspezifisch"@ {
        Some(ChallengeType::Ortsspezifisch)
    } else if w == "regionsspezifisch"@ {
        Some(ChallengeType::Regionsspezifisch)
    } else if w == "unspezifisch"@ {
        Some(ChallengeType::Unspezifisch)
    } else if w == "zoneable"@ {
        Some(ChallengeType::Zoneable)
    } else if w == "zkaff"@ {
        Some(ChallengeType::ZKaff)
    } else {
        None
    }
}

/// The challenge status named by an already lower-cased word, underscores ignored.
pub open spec fn challenge_status_named(lower: Seq<char>) -> Option<ChallengeStatus> {
    let w = without_underscores(lower);
    if w == "approved"@ {
        Some(ChallengeStatus::Approved)
    } else if w == "edited"@ {
        Some(ChallengeStatus::Edited)
    } else if w == "rejected"@ {
        Some(ChallengeStatus::Rejected)
    } else if w == "glorious"@ {
        Some(ChallengeStatus::Glorious)
    } else if w == "tosort"@ {
        Some(ChallengeStatus::ToSort)
    } else if w == "refactor"@ {
        Some(ChallengeStatus::Refactor)
    } else {
        None
    }
}

/// The error text for a word that names no value of `kind`.
pub open spec fn parse_error_text(s: Seq<char>, kind: Seq<char>) -> Seq<char> {
    "failed parsing \""@ + s + "\" as "@ + kind
}

fn parse_error(s: &str, kind: &str) -> (e: TextError)
    ensures
        e.0@ == parse_error_text(s@, kind@),
{
    let t = String::from_str("failed parsing \"");
    let t = t.concat(s);
    let t = t.concat("\" as ");
    let t = t.concat(kind);
    TextError(t)
}

impl ChallengeType {
    /// The challenge type that a lower-case word names, ignoring underscores.
    pub fn from_lowercase(lower: &str) -> (r: Option<ChallengeType>)
        ensures
            r == challenge_type_named(lower@),
    {
        if equals_without_underscores(lower, "kaff") {
            Some(ChallengeType::Kaff)
        } else if equals_without_underscores(lower, "ortsspezifisch") {
            Some(ChallengeType::Ortsspezifisch)
        } else if equals_without_underscores(lower, "regionsspezifisch") {
            Some(ChallengeType::Regionsspezifisch)
        } else if equals_without_underscores(lower, "unspezifisch") {
            Some(ChallengeType::Unspezifisch)
        } else if equals_without_underscores(lower, "zoneable") {
            Some(ChallengeType::Zoneable)
        } else if equals_without_underscores(lower, "zkaff") {
            Some(ChallengeType::ZKaff)
        } else {
            None
        }
    }

    /// Parses a challenge type, ignoring case and underscores.
    pub fn parse(s: &str) -> (r: Result<ChallengeType, TextError>)
        ensures
            match r {
                Ok(t) => challenge_type_named(str_lowercase(s@)) == Some(t),
                Err(e) => challenge_type_named(str_lowercase(s@)) is None
                    && e.0@ == parse_error_text(s@, "ChallengeType"@),
            },
    {
        let lower = lowercase(s);
        match ChallengeType::from_lowercase(lower.as_str()) {
            Some(t) => Ok(t),
            None => Err(parse_error(s, "ChallengeType")),
        }
    }
}

impl ChallengeStatus {
    /// The challenge status that a lower-case word names, ignoring underscores.
    pub fn from_lowercase(lower: &str) -> (r: Option<ChallengeStatus>)
        ensures
            r == challenge_status_named(lower@),
    {
        if equals_without_underscores(lower, "approved") {
            Some(ChallengeStatus::Approved)
        } else if equals_without_underscores(lower, "edited") {
            Some(ChallengeStatus::Edited)
        } else if equals_without_underscores(lower, "rejected") {
            Some(ChallengeStatus::Rejected)
        } else if equals_without_underscores(lower, "glorious") {
            Some(ChallengeStatus::Glorious)
        } else if equals_without_underscores(lower, "tosort") {
            Some(ChallengeStatus::ToSort)
        } else if equals_without_underscores(lower, "refactor") {
            Some(ChallengeStatus::Refactor)
        } else {
            None
        }
    }

    /// Parses a challenge status, ignoring case and underscores.
    pub fn parse(s: &str) -> (r: Result<ChallengeStatus, TextError>)
        ensures
            match r {
                Ok(t) => challenge_status_named(str_lowercase(s@)) == Some(t),
                Err(e) => challenge_status_named(str_lowercase(s@)) is None
                    && e.0@ == parse_error_text(s@, "ChallengeStatus"@),
            },
    {
        let lower = lowercase(s);
        match ChallengeStatus::from_lowercase(lower.as_str()) {
            Some(t) => Ok(t),
            None => Err(parse_error(s, "ChallengeStatus")),
        }
    }
}

impl std::str::FromStr for ChallengeType {
    type Err = TextError;

    fn from_str(s: &str) -> (r: Result<ChallengeType, TextError>)
        ensures
            match r {
                Ok(t) => challenge_type_named(str_lowercase(s@)) == Some(t),
                Err(e) => challenge_type_named(str_lowercase(s@)) is None
                    && e.0@ == parse_error_text(s@, "ChallengeType"@),
            },
    {
        ChallengeType::parse(s)
    }
}

impl std::str::FromStr for ChallengeStatus {
    type Err = TextError;

    fn from_str(s: &str) -> (r: Result<ChallengeStatus, TextError>)
        ensures
            match r {
                Ok(t) => challenge_status_named(str_lowercase(s@)) == Some(t),
                Err(e) => challenge_status_named(str_lowercase(s@)) is None
                    && e.0@ == parse_error_text(s@, "ChallengeStatus"@),
            },
    {
        ChallengeStatus::parse(s)
    }
}

/// A special quirk of a challenge as stored.
#[derive(Debug, Clone)]
pub enum ChallengeActionEntry {
    /// The challenge cannot be completed for this many minutes (`None`: the repetitions).
    UncompletableMinutes(Option<u64>),
    Trap {
        /// `None`: the repetitions
        stuck_minutes: Option<u64>,
        catcher_message: Option<String>,
    },
}

/// Two optional texts are both absent, or both present with the same characters.
pub open spec fn same_text(a: Option<String>, b: Option<String>) -> bool {
    match (a, b) {
        (None, None) => true,
        (Some(x), Some(y)) => x@ == y@,
        _ => false,
    }
}

/// A copy of an optional text.
pub fn copy_text(a: &Option<String>) -> (r: Option<String>)
    ensures
        same_text(r, *a),
{
    match a {
        Some(x) => Some(x.clone()),
        None => None,
    }
}

impl ChallengeActionEntry {
    /// `self` and `other` are the same quirk, texts compared by their characters.
    pub open spec fn same_as(self, other: ChallengeActionEntry) -> bool {
        match (self, other) {
            (ChallengeActionEntry::UncompletableMinutes(a), ChallengeActionEntry::UncompletableMinutes(b)) => a == b,
            (
                ChallengeActionEntry::Trap { stuck_minutes: a, catcher_message: m },
                ChallengeActionEntry::Trap { stuck_minutes: b, catcher_message: n },
            ) => a == b && same_text(m, n),
            _ => false,
        }
    }

    /// A copy of the quirk.
    pub fn duplicate(&self) -> (r: ChallengeActionEntry)
        ensures
            r.same_as(*self),
    {
        match self {
            ChallengeActionEntry::UncompletableMinutes(m) => ChallengeActionEntry::UncompletableMinutes(*m),
            ChallengeActionEntry::Trap { stuck_minutes, catcher_message } => ChallengeActionEntry::Trap {
                stuck_minutes: *stuck_minutes,
                catcher_message: copy_text(catcher_message),
            },
        }
    }
}

/// Two optional quirks are both absent, or both present and the same.
pub open spec fn same_action_entry(a: Option<ChallengeActionEntry>, b: Option<ChallengeActionEntry>) -> bool {
    match (a, b) {
        (None, None) => true,
        (Some(x), Some(y)) => x.same_as(y),
        _ => false,
    }
}

/// A copy of an optional quirk.
pub fn copy_action_entry(a: &Option<ChallengeActionEntry>) -> (r: Option<ChallengeActionEntry>)
    ensures
        same_action_entry(r, *a),
{
    match a {
        Some(x) => Some(x.duplicate()),
        None => None,
    }
}

/// How often a challenge may be repeated: the half-open range `start..end`.
#[derive(Debug, Clone, Copy, PartialEq, Eq, Structural)]
pub struct Repetitions {
    pub start: u16,
    pub end: u16,
}

/// A challenge set as clients see it.
#[derive(Debug, Clone)]
pub struct ChallengeSet {
    pub name: String,
    pub id: u64,
}

/// A challenge as clients send it to be stored. `bias_sat` and `bias_sun` are `f32` factors,
/// held by their bit patterns.
#[derive(Debug, Clone)]
pub struct InputChallenge {
    pub kind: ChallengeType,
    pub sets: Vec<u64>,
    pub status: ChallengeStatus,
    pub title: Option<String>,
    pub description: Option<String>,
    pub random_place: Option<RandomPlaceType>,
    pub place: Option<String>,
    pub comment: String,
    pub kaffskala: Option<u8>,
    pub grade: Option<u8>,
    pub zone: Vec<u64>,
    pub bias_sat: u32,
    pub bias_sun: u32,
    pub walking_time: u8,
    pub stationary_time: u8,
    pub additional_points: i16,
    pub repetitions: Repetitions,
    pub points_per_rep: i16,
    pub station_distance: u16,
    pub time_to_hb: u8,
    pub departures: u8,
    pub dead_end: bool,
    pub no_disembark: bool,
    pub fixed: bool,
    pub in_perimeter_override: Option<bool>,
    pub translated_titles: HashMap<String, String>,
    pub translated_descriptions: HashMap<String, String>,
    pub action: Option<ChallengeActionEntry>,
    pub id: Option<u64>,
}

/// Kaff or ZKaff.
pub open spec fn is_kaff_like(k: ChallengeType) -> bool {
    k == ChallengeType::Kaff || k == ChallengeType::ZKaff
}

/// Kaff or Ortsspezifisch.
pub open spec fn is_place_bound(k: ChallengeType) -> bool {
    k == ChallengeType::Kaff || k == ChallengeType::Ortsspezifisch
}

impl InputChallenge {
    /// The first rule of a well-formed challenge that `self` breaks, as its error text, or `None`
    /// where it breaks none. Challenges still to be sorted are never checked.
    pub open spec fn validity_problem(self) -> Option<Seq<char>> {
        let k = self.kind;
        if self.status == ChallengeStatus::ToSort {
            None
        } else if self.sets@.len() == 0 {
            Some("has no challenge sets"@)
        } else if is_kaff_like(k) && self.place is None {
            Some("is Kaff or ZKaff, but doesn't have place"@)
        } else if is_place_bound(k) && self.kaffskala is None {
            Some("is Kaff or Ortsspezifisch, but doesn't have kaffskala"@)
        } else if is_place_bound(k) && self.grade is None {
            Some("is Kaff or Ortsspezifisch, but doesn't have grade"@)
        } else if is_place_bound(k) && self.zone@.len() == 0 {
            Some("is Kaff or Ortsspezifisch, but doesn't have zone"@)
        } else if k == ChallengeType::ZKaff && self.station_distance == 0 {
            Some("is ZKaff, but station distance is 0"@)
        } else if k == ChallengeType::ZKaff && self.time_to_hb == 0 {
            Some("is ZKaff, but time to HB is 0"@)
        } else if !is_kaff_like(k) && self.description is None {
            Some("is neither Kaff nor ZKaff, but has no description"@)
        } else if !is_kaff_like(k) && self.title is None {
            Some("is neither Kaff nor ZKaff, but has no title"@)
        } else if (is_kaff_like(k) || k == ChallengeType::Ortsspezifisch)
            && self.random_place is Some {
            Some("is ortsspezifisch, but has random place"@)
        } else {
            None
        }
    }

    /// Checks that the challenge has what its kind needs; the error names the first rule broken.
    pub fn check_validity(&self) -> (r: Result<(), TextError>)
        ensures
            match r {
                Ok(()) => self.validity_problem() is None,
                Err(e) => self.validity_problem() == Some(e.0@),
            },
    {
        let k = self.kind;
        let kaff_like = matches!(k, ChallengeType::Kaff | ChallengeType::ZKaff);
        let place_bound = matches!(k, ChallengeType::Kaff | ChallengeType::Ortsspezifisch);
        if matches!(self.status, ChallengeStatus::ToSort) {
            return Ok(());
        }
        if self.sets.len() == 0 {
            return Err(TextError(String::from_str("has no challenge sets")));
        }
        if kaff_like && self.place.is_none() {
            return Err(TextError(String::from_str("is Kaff or ZKaff, but doesn't have place")));
        }
        if place_bound {
            if self.kaffskala.is_none() {
                return Err(
                    TextError(
                        String::from_str("is Kaff or Ortsspezifisch, but doesn't have kaffskala"),
                    ),
                );
            }
            if self.grade.is_none() {
                return Err(
                    TextError(String::from_str("is Kaff or Ortsspezifisch, but doesn't have grade")),
                );
            }
            if self.zone.len() == 0 {
                return Err(
                    TextError(String::from_str("is Kaff or Ortsspezifisch, but doesn't have zone")),
                );
            }
        }
        if matches!(k, ChallengeType::ZKaff) {
            if self.station_distance == 0 {
                return Err(TextError(String::from_str("is ZKaff, but station distance is 0")));
            }
            if self.time_to_hb == 0 {
                return Err(TextError(String::from_str("is ZKaff, but time to HB is 0")));
            }
        }
        if !kaff_like {
            if self.description.is_none() {
                return Err(
                    TextError(
                        String::from_str("is neither Kaff nor ZKaff, but has no description"),
                    ),
                );
            }
            if self.title.is_none() {
                return Err(
                    TextError(String::from_str("is neither Kaff nor ZKaff, but has no title")),
                );
            }
        }
        if (kaff_like || matches!(k, ChallengeType::Ortsspezifisch)) && self.random_place.is_some() {
            return Err(TextError(String::from_str("is ortsspezifisch, but has random place")));
        }
        Ok(())
    }

    /// Whether the challenge breaks none of the rules of `check_validity`.
    pub fn is_valid(&self) -> (b: bool)
        ensures
            b == (self.validity_problem() is None),
    {
        self.check_validity().is_ok()
    }
}

/// `i` is the challenge `c` as a client sends it back to be stored: its sets and zones given by
/// their ids, every other field as it is.
pub open spec fn input_from(c: RawChallenge, i: InputChallenge) -> bool {
    &&& i.sets@ == c.sets@.map_values(|s: ChallengeSet| s.id)
    &&& i.zone@ == c.zone@.map_values(|z: Zone| z.id)
    &&& i.kind == c.kind
    &&& i.status == c.status
    &&& i.title == c.title
    &&& i.description == c.description
    &&& i.random_place == c.random_place
    &&& i.place == c.place
    &&& i.comment == c.comment
    &&& i.kaffskala == c.kaffskala
    &&& i.grade == c.grade
    &&& i.bias_sat == c.bias_sat
    &&& i.bias_sun == c.bias_sun
    &&& i.walking_time == c.walking_time
    &&& i.stationary_time == c.stationary_time
    &&& i.additional_points == c.additional_points
    &&& i.repetitions == c.repetitions
    &&& i.points_per_rep == c.points_per_rep
    &&& i.station_distance == c.station_distance
    &&& i.time_to_hb == c.time_to_hb
    &&& i.departures == c.departures
    &&& i.dead_end == c.dead_end
    &&& i.no_disembark == c.no_disembark
    &&& i.fixed == c.fixed
    &&& i.in_perimeter_override == c.in_perimeter_override
    &&& i.translated_titles == c.translated_titles
    &&& i.translated_descriptions == c.translated_descriptions
    &&& i.action == c.action
    &&& i.id == c.id
}

impl InputChallenge {
    /// The challenge as a client sends it back to be stored: a stored challenge with its sets
    /// and zones given by their ids.
    pub fn from_raw(c: RawChallenge) -> (i: InputChallenge)
        ensures
            input_from(c, i),
    {
        let mut sets: Vec<u64> = Vec::new();
        let mut k: usize = 0;
        while k < c.sets.len()
            invariant
                k <= c.sets@.len(),
                sets@ == c.sets@.take(k as int).map_values(|s: ChallengeSet| s.id),
            decreases c.sets@.len() - k,
        {
            sets.push(c.sets[k].id);
            k = k + 1;
            assert(sets@ =~= c.sets@.take(k as int).map_values(|s: ChallengeSet| s.id));
        }
        assert(c.sets@.take(c.sets@.len() as int) =~= c.sets@);
        let mut zone: Vec<u64> = Vec::new();
        let mut k: usize = 0;
        while k < c.zone.len()
            invariant
                k <= c.zone@.len(),
                zone@ == c.zone@.take(k as int).map_values(|z: Zone| z.id),
            decreases c.zone@.len() - k,
        {
            zone.push(c.zone[k].id);
            k = k + 1;
            assert(zone@ =~= c.zone@.take(k as int).map_values(|z: Zone| z.id));
        }
        assert(c.zone@.take(c.zone@.len() as int) =~= c.zone@);
        InputChallenge {
            sets,
            zone,
            kind: c.kind,
            status: c.status,
            title: c.title,
            description: c.description,
            random_place: c.random_place,
            place: c.place,
            comment: c.comment,
            kaffskala: c.kaffskala,
            grade: c.grade,
            bias_sat: c.bias_sat,
            bias_sun: c.bias_sun,
            walking_time: c.walking_time,
            stationary_time: c.stationary_time,
            additional_points: c.additional_points,
            repetitions: c.repetitions,
            points_per_rep: c.points_per_rep,
            station_distance: c.station_distance,
            time_to_hb: c.time_to_hb,
            departures: c.departures,
            dead_end: c.dead_end,
            no_disembark: c.no_disembark,
            fixed: c.fixed,
            in_perimeter_override: c.in_perimeter_override,
            translated_titles: c.translated_titles,
            translated_descriptions: c.translated_descriptions,
            action: c.action,
            id: c.id,
        }
    }
}

/// Unix time in milliseconds.
pub type Moment = i64;

/// A zone as clients see it.
#[derive(Debug, Clone)]
pub struct Zone {
    pub zone: u64,
    pub num_conn_zones: u64,
    pub num_connections: u64,
    pub train_through: bool,
    pub mongus: bool,
    pub s_bahn_zone: bool,
    pub minutes_to: HashMap<u64, u64>,
    pub id: u64,
}

/// A stored challenge as clients see it, with its sets and zones resolved.
#[derive(Debug, Clone)]
pub struct RawChallenge {
    pub kind: ChallengeType,
    pub sets: Vec<ChallengeSet>,
    pub status: ChallengeStatus,
    pub title: Option<String>,
    pub description: Option<String>,
    pub random_place: Option<RandomPlaceType>,
    pub place: Option<String>,
    pub comment: String,
    pub kaffskala: Option<u8>,
    pub grade: Option<u8>,
    pub zone: Vec<Zone>,
    pub bias_sat: u32,
    pub bias_sun: u32,
    pub walking_time: u8,
    pub stationary_time: u8,
    pub additional_points: i16,
    pub repetitions: Repetitions,
    pub points_per_rep: i16,
    pub station_distance: u16,
    pub time_to_hb: u8,
    pub departures: u8,
    pub dead_end: bool,
    pub no_disembark: bool,
    pub fixed: bool,
    pub in_perimeter_override: Option<bool>,
    pub translated_titles: HashMap<String, String>,
    pub translated_descriptions: HashMap<String, String>,
    pub action: Option<ChallengeActionEntry>,
    pub last_edit: Moment,
    pub id: Option<u64>,
}

/// A player as clients see it.
#[derive(Debug, Clone)]
pub struct Player {
    pub name: String,
    pub id: u64,
    pub session: Option<u64>,
    pub picture_id: Option<u64>,
}

/// An open challenge as clients see it.
#[derive(Debug, Clone)]
pub struct Challenge {
    pub title: String,
    pub description: String,
    pub points: u64,
}

/// A challenge a team completed.
#[derive(Debug, Clone)]
pub struct CompletedChallenge {
    pub title: String,
    pub description: String,
    pub points: u64,
    pub time: TimeOfDay,
    pub picture_ids: Vec<u64>,
    pub id: u64,
}

/// A team as clients see it.
#[derive(Debug, Clone)]
pub struct Team {
    pub role: TeamRole,
    pub name: String,
    pub picture_id: Option<u64>,
    pub id: usize,
    pub colour: Colour,
    pub bounty: u64,
    pub points: u64,
    pub players: Vec<Player>,
    pub challenges: Vec<Challenge>,
    pub completed_challenges: Vec<CompletedChallenge>,
    pub location: Option<DetailedLocation>,
    pub in_grace_period: bool,
    pub period_id: usize,
}

/// A running game as clients see it.
#[derive(Debug, Clone)]
pub struct Game {
    pub name: String,
    pub date: GameDate,
    pub mode: Mode,
}

/// Something that happened in a game: a catch or a completed challenge.
#[derive(Debug, Clone)]
pub enum Event {
    Catch {
        catcher_id: usize,
        caught_id: usize,
        bounty: u64,
        time: TimeOfDay,
        picture_ids: Vec<u64>,
        location: MinimalLocation,
    },
    Complete {
        challenge: Challenge,
        completer_id: usize,
        time: TimeOfDay,
        picture_ids: Vec<u64>,
        location: MinimalLocation,
    },
}

impl Event {
    /// When the event happened; events are ordered by this time alone.
    pub open spec fn spec_time(&self) -> TimeOfDay {
        match self {
            Event::Catch { time, .. } => *time,
            Event::Complete { time, .. } => *time,
        }
    }

    /// When the event happened.
    pub fn time(&self) -> (t: TimeOfDay)
        ensures
            t == self.spec_time(),
    {
        match self {
            Event::Catch { time, .. } => *time,
            Event::Complete { time, .. } => *time,
        }
    }
}

} // verus!
