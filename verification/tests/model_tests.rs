use std::collections::HashMap;
use truinlag::commands::Error;
use truinlag::entries::PictureEntry;
use truinlag::model::{
    equals_without_underscores, ChallengeStatus, ChallengeType, DetailedLocation, InputChallenge,
    MinimalLocation, RandomPlaceType, RawPicture, Repetitions, TimeOfDay,
};

fn challenge(kind: ChallengeType) -> InputChallenge {
    InputChallenge {
        kind,
        sets: vec![1],
        status: ChallengeStatus::Approved,
        title: Some("Title".to_string()),
        description: Some("Description".to_string()),
        random_place: None,
        place: Some("Bern".to_string()),
        comment: String::new(),
        kaffskala: Some(3),
        grade: Some(4),
        zone: vec![110],
        bias_sat: 1.0f32.to_bits(),
        bias_sun: 1.0f32.to_bits(),
        walking_time: 5,
        stationary_time: 5,
        additional_points: 0,
        repetitions: Repetitions { start: 0, end: 1 },
        points_per_rep: 0,
        station_distance: 100,
        time_to_hb: 10,
        departures: 4,
        dead_end: false,
        no_disembark: false,
        fixed: false,
        in_perimeter_override: None,
        translated_titles: HashMap::new(),
        translated_descriptions: HashMap::new(),
        action: None,
        id: None,
    }
}

fn problem(c: &InputChallenge) -> Option<String> {
    match c.check_validity() {
        Ok(()) => None,
        Err(e) => Some(e.text()),
    }
}

#[test]
fn challenge_type_parses_ignoring_case_and_underscores() {
    assert_eq!(ChallengeType::parse("Kaff").unwrap(), ChallengeType::Kaff);
    assert_eq!(ChallengeType::parse("z_kaff").unwrap(), ChallengeType::ZKaff);
    assert_eq!(ChallengeType::parse("ZKAFF").unwrap(), ChallengeType::ZKaff);
    assert_eq!(ChallengeType::parse("Orts_Spezifisch").unwrap(), ChallengeType::Ortsspezifisch);
    assert_eq!(ChallengeType::parse("regionsspezifisch").unwrap(), ChallengeType::Regionsspezifisch);
    assert_eq!(ChallengeType::parse("Unspezifisch").unwrap(), ChallengeType::Unspezifisch);
    assert_eq!(ChallengeType::parse("zone_able").unwrap(), ChallengeType::Zoneable);
}

#[test]
fn challenge_type_parse_error_names_the_input() {
    let e = ChallengeType::parse("foo").unwrap_err();
    assert_eq!(e.text(), "failed parsing \"foo\" as ChallengeType");
}

#[test]
fn challenge_status_parses_ignoring_case_and_underscores() {
    assert_eq!(ChallengeStatus::parse("approved").unwrap(), ChallengeStatus::Approved);
    assert_eq!(ChallengeStatus::parse("Edited").unwrap(), ChallengeStatus::Edited);
    assert_eq!(ChallengeStatus::parse("REJECTED").unwrap(), ChallengeStatus::Rejected);
    assert_eq!(ChallengeStatus::parse("glorious").unwrap(), ChallengeStatus::Glorious);
    assert_eq!(ChallengeStatus::parse("to_sort").unwrap(), ChallengeStatus::ToSort);
    assert_eq!(ChallengeStatus::parse("Refactor").unwrap(), ChallengeStatus::Refactor);
    let e = ChallengeStatus::parse("done").unwrap_err();
    assert_eq!(e.text(), "failed parsing \"done\" as ChallengeStatus");
}

#[test]
fn from_lowercase_does_not_lower_the_case() {
    assert_eq!(ChallengeType::from_lowercase("kaff"), Some(ChallengeType::Kaff));
    assert_eq!(ChallengeType::from_lowercase("Kaff"), None);
    assert_eq!(ChallengeStatus::from_lowercase("__tosort__"), Some(ChallengeStatus::ToSort));
}

#[test]
fn underscores_are_ignored_only_in_the_first_argument() {
    assert!(equals_without_underscores("z_k_a_f_f", "zkaff"));
    assert!(!equals_without_underscores("zkaff", "z_kaff"));
    assert!(equals_without_underscores("", ""));
    assert!(!equals_without_underscores("kaf", "kaff"));
}

#[test]
fn valid_challenges_pass() {
    let mut unspecific = challenge(ChallengeType::Unspezifisch);
    unspecific.place = None;
    unspecific.kaffskala = None;
    assert!(unspecific.is_valid());
    assert!(challenge(ChallengeType::Kaff).is_valid());
    assert!(challenge(ChallengeType::ZKaff).is_valid());
    assert!(challenge(ChallengeType::Ortsspezifisch).is_valid());
}

#[test]
fn unsorted_challenges_are_never_checked() {
    let mut c = challenge(ChallengeType::Kaff);
    c.status = ChallengeStatus::ToSort;
    c.sets = vec![];
    c.place = None;
    assert_eq!(problem(&c), None);
}

#[test]
fn each_validity_rule_has_its_text() {
    let mut c = challenge(ChallengeType::Kaff);
    c.sets = vec![];
    assert_eq!(problem(&c).unwrap(), "has no challenge sets");

    let mut c = challenge(ChallengeType::ZKaff);
    c.place = None;
    assert_eq!(problem(&c).unwrap(), "is Kaff or ZKaff, but doesn't have place");

    let mut c = challenge(ChallengeType::Ortsspezifisch);
    c.kaffskala = None;
    assert_eq!(problem(&c).unwrap(), "is Kaff or Ortsspezifisch, but doesn't have kaffskala");

    let mut c = challenge(ChallengeType::Kaff);
    c.grade = None;
    assert_eq!(problem(&c).unwrap(), "is Kaff or Ortsspezifisch, but doesn't have grade");

    let mut c = challenge(ChallengeType::Kaff);
    c.zone = vec![];
    assert_eq!(problem(&c).unwrap(), "is Kaff or Ortsspezifisch, but doesn't have zone");

    let mut c = challenge(ChallengeType::ZKaff);
    c.station_distance = 0;
    assert_eq!(problem(&c).unwrap(), "is ZKaff, but station distance is 0");

    let mut c = challenge(ChallengeType::ZKaff);
    c.time_to_hb = 0;
    assert_eq!(problem(&c).unwrap(), "is ZKaff, but time to HB is 0");

    let mut c = challenge(ChallengeType::Zoneable);
    c.description = None;
    assert_eq!(problem(&c).unwrap(), "is neither Kaff nor ZKaff, but has no description");

    let mut c = challenge(ChallengeType::Regionsspezifisch);
    c.title = None;
    assert_eq!(problem(&c).unwrap(), "is neither Kaff nor ZKaff, but has no title");

    let mut c = challenge(ChallengeType::Ortsspezifisch);
    c.random_place = Some(RandomPlaceType::Zone);
    assert_eq!(problem(&c).unwrap(), "is ortsspezifisch, but has random place");
    assert!(!c.is_valid());
}

#[test]
fn the_first_broken_rule_is_reported() {
    let mut c = challenge(ChallengeType::Kaff);
    c.sets = vec![];
    c.place = None;
    c.grade = None;
    assert_eq!(problem(&c).unwrap(), "has no challenge sets");
}

#[test]
fn kaff_challenges_need_no_title() {
    let mut c = challenge(ChallengeType::Kaff);
    c.title = None;
    c.description = None;
    assert!(c.is_valid());
}

#[test]
fn times_of_day_are_ordered_by_second_then_fraction() {
    let a = TimeOfDay { secs: 10, frac: 5 };
    let b = TimeOfDay { secs: 10, frac: 6 };
    let c = TimeOfDay { secs: 11, frac: 0 };
    assert!(a.is_before(&b));
    assert!(b.is_before(&c));
    assert!(!b.is_before(&a));
    assert!(!a.is_before(&a));
}

#[test]
fn a_detailed_location_keeps_position_and_time() {
    let l = DetailedLocation {
        latitude: 47.0f32.to_bits(),
        longitude: 8.5f32.to_bits(),
        accuracy: 12,
        heading: 90.0f32.to_bits(),
        speed: 3.0f32.to_bits(),
        timestamp: 1_700_000_000,
    };
    assert_eq!(
        l.to_minimal(),
        MinimalLocation {
            latitude: 47.0f32.to_bits(),
            longitude: 8.5f32.to_bits(),
            timestamp: 1_700_000_000,
        }
    );
}

#[test]
fn bytes_that_are_no_jpeg_are_refused() {
    let r = RawPicture::from_bytes(vec![1, 2, 3, 4]);
    assert!(matches!(r, Err(Error::PictureProblem)));
}

#[test]
fn jpeg_bytes_are_kept_as_they_are() {
    let p = RawPicture::from_jpeg_bytes(vec![0xff, 0xd8, 0xff, 0xd9]);
    assert_eq!(p.get_bytes(), vec![0xff, 0xd8, 0xff, 0xd9]);
    assert_eq!(p.duplicate().get_bytes(), vec![0xff, 0xd8, 0xff, 0xd9]);
}

fn small_jpeg() -> Vec<u8> {
    let img = image::RgbImage::from_fn(16, 8, |x, y| image::Rgb([(x * 10) as u8, (y * 20) as u8, 128]));
    let mut out = std::io::Cursor::new(Vec::new());
    image::DynamicImage::ImageRgb8(img)
        .write_to(&mut out, image::ImageFormat::Jpeg)
        .unwrap();
    out.into_inner()
}

#[test]
fn a_jpeg_is_decoded_and_encoded_anew() {
    let mut bytes = small_jpeg();
    bytes.extend_from_slice(b"trailing bytes after the image");
    let p = RawPicture::from_bytes(bytes.clone()).unwrap();
    let out = p.get_bytes();
    assert_ne!(out, bytes);
    assert_eq!(&out[0..2], &[0xff, 0xd8]);
    let decoded = image::load_from_memory_with_format(&out, image::ImageFormat::Jpeg).unwrap();
    assert_eq!((decoded.width(), decoded.height()), (16, 8));
}

#[test]
fn a_profile_has_a_square_thumbnail_and_the_full_picture() {
    let picture = RawPicture::from_jpeg_bytes(small_jpeg());
    match PictureEntry::new_profile(&picture) {
        Some(PictureEntry::Profile { thumb, full }) => {
            let t = image::load_from_memory_with_format(&thumb.get_bytes(), image::ImageFormat::Jpeg).unwrap();
            assert_eq!((t.width(), t.height()), (256, 256));
            let f = image::load_from_memory_with_format(&full.get_bytes(), image::ImageFormat::Jpeg).unwrap();
            assert_eq!((f.width(), f.height()), (16, 8));
        }
        other => panic!("unexpected {:?}", other),
    }
    assert!(PictureEntry::new_profile(&RawPicture::from_jpeg_bytes(vec![0, 1, 2])).is_none());
}

fn catch_at(secs: u32, bounty: u64) -> truinlag::model::Event {
    truinlag::model::Event::Catch {
        catcher_id: 0,
        caught_id: 1,
        bounty,
        time: TimeOfDay { secs, frac: 0 },
        picture_ids: vec![],
        location: MinimalLocation { latitude: 0, longitude: 0, timestamp: 0 },
    }
}

#[test]
fn events_compare_by_their_time_only() {
    assert!(catch_at(10, 1) == catch_at(10, 500));
    assert!(catch_at(10, 1) != catch_at(11, 1));
    assert!(catch_at(9, 1) < catch_at(10, 1));
    assert_eq!(catch_at(12, 1).partial_cmp(&catch_at(10, 1)), Some(std::cmp::Ordering::Greater));
    let mut events = vec![catch_at(30, 0), catch_at(10, 0), catch_at(20, 0)];
    events.sort_by(|a, b| a.partial_cmp(b).unwrap());
    let times: Vec<u32> = events.iter().map(|e| e.time().secs).collect();
    assert_eq!(times, vec![10, 20, 30]);
}

#[test]
fn errors_describe_themselves() {
    assert_eq!(Error::NotFound("team with id 3".to_string()).message(), "team with id 3 was not found");
    assert_eq!(Error::TeamExists("Blitz".to_string()).message(), "Team Blitz already exists");
    assert_eq!(Error::TeamIsRunner(4).message(), "team 4 is runner");
    assert_eq!(Error::TeamIsCatcher(12).message(), "team 12 is catcher");
    assert_eq!(Error::BadData("x".to_string()).message(), "bad data: x");
    assert_eq!(Error::TextError("y".to_string()).message(), "y");
    assert_eq!(Error::GameNotRunning.message(), "There is no game in progress");
    assert_eq!(
        Error::NoSessionSupplied.message(),
        "A sesssion specific command (like 'addTeam') was called without a session being supplied."
    );
}

#[test]
fn periods_compare_by_their_end_and_open_challenges_by_their_title() {
    let period = |secs: u32, points: u64| truinlag::team::Period {
        pictures: vec![],
        context: truinlag::team::PeriodContext::Trophy { trophies: 1, points_spent: points },
        location_start_index: 0,
        location_end_index: 0,
        end_time: TimeOfDay { secs, frac: 0 },
    };
    assert!(period(5, 1) == period(5, 2));
    assert!(period(4, 1) < period(5, 1));
    let mut v = vec![period(9, 0), period(3, 0), period(6, 0)];
    v.sort_by(|a, b| a.partial_cmp(b).unwrap());
    let ends: Vec<u32> = v.iter().map(|p| p.end_time.secs).collect();
    assert_eq!(ends, vec![3, 6, 9]);
    let open = |title: &str, points: u64| truinlag::challenge::InOpenChallenge {
        id: points,
        title: title.to_string(),
        description: String::new(),
        points,
        action: None,
        zone: None,
    };
    assert!(open("A", 1) == open("A", 2));
    assert!(open("A", 1) != open("B", 1));
}

#[test]
fn kinds_and_statuses_parse_from_strings() {
    let k: ChallengeType = "Z_Kaff".parse().unwrap();
    assert_eq!(k, ChallengeType::ZKaff);
    let s: ChallengeStatus = "TO_SORT".parse().unwrap();
    assert_eq!(s, ChallengeStatus::ToSort);
    assert!("nothing".parse::<ChallengeType>().is_err());
}
