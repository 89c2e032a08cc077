//! Players, zones and pictures as the engine stores them.
use crate::config::MinuteRange;
use crate::model::{jpeg_reencoded, reencode_jpeg, Player, RawPicture, Zone};
use std::collections::HashMap;
use vstd::std_specs::hash::spec_hash_map_iter;
use vstd::std_specs::iter::IteratorSpec;
use vstd::prelude::*;

verus! {

broadcast use vstd::std_specs::hash::group_hash_axioms;

/// A player as stored.
#[derive(Debug, Clone)]
pub struct PlayerEntry {
    pub picture: Option<u64>,
    pub name: String,
    pub passphrase: String,
    pub discord_id: Option<u64>,
    pub session: Option<u64>,
}

impl PlayerEntry {
    /// `p` is how clients see this player under id `id`.
    pub open spec fn shows_as(self, id: u64, p: Player) -> bool {
        &&& p.name@ == self.name@
        &&& p.session == self.session
        &&& p.id == id
        &&& p.picture_id == self.picture
    }

    /// The player as clients see it, under id `id`.
    pub fn to_sendable(&self, id: u64) -> (p: Player)
        ensures
            self.shows_as(id, p),
    {
        Player { name: self.name.clone(), session: self.session, id, picture_id: self.picture }
    }
}

/// A zone as stored.
#[derive(Debug, Clone)]
pub struct ZoneEntry {
    /// The zone number, e.g. 110.
    pub zone: u64,
    pub num_conn_zones: u64,
    pub num_connections: u64,
    /// Whether a train passes through the zone.
    pub train_through: bool,
    /// Set for zones that are especially hard to reach.
    pub mongus: bool,
    /// Set for zones with the terminal stop of an S-Bahn line that runs within the network.
    pub s_bahn_zone: bool,
    /// Travel minutes to other zones, by zone id.
    pub minutes_to: HashMap<u64, u64>,
}

impl ZoneEntry {
    /// `z` is how clients see this zone under id `id`.
    pub open spec fn shows_as(self, id: u64, z: Zone) -> bool {
        &&& z.zone == self.zone
        &&& z.num_conn_zones == self.num_conn_zones
        &&& z.num_connections == self.num_connections
        &&& z.train_through == self.train_through
        &&& z.mongus == self.mongus
        &&& z.s_bahn_zone == self.s_bahn_zone
        &&& z.minutes_to@ == self.minutes_to@
        &&& z.id == id
    }

    /// The zone as clients see it, under id `id`.
    pub fn to_sendable(&self, id: u64) -> (z: Zone)
        ensures
            self.shows_as(id, z),
    {
        Zone {
            zone: self.zone,
            num_conn_zones: self.num_conn_zones,
            num_connections: self.num_connections,
            train_through: self.train_through,
            mongus: self.mongus,
            s_bahn_zone: self.s_bahn_zone,
            minutes_to: self.minutes_to.clone(),
            id,
        }
    }

    /// The zones whose travel time from this zone lies in `range`.
    pub open spec fn within(&self, range: MinuteRange, to: u64) -> bool {
        self.minutes_to@.contains_key(to) && range.spec_contains(self.minutes_to@[to])
    }

    /// The ids of the zones whose travel time from this zone lies in `range`, each once, in the
    /// order in which the map is walked.
    pub fn zones_with_distance(&self, range: MinuteRange) -> (r: Vec<u64>)
        ensures
            r@.no_duplicates(),
            forall|to: u64| r@.contains(to) <==> self.within(range, to),
    {
        let mut out: Vec<u64> = Vec::new();
        let ghost m = self.minutes_to@;
        for kv in it: self.minutes_to.iter()
            invariant
                it.seq() == vstd::std_specs::hash::spec_hash_map_iter(&self.minutes_to).remaining(),
                it.seq().no_duplicates(),
                m == self.minutes_to@,
                out@.no_duplicates(),
                forall|to: u64|
                    out@.contains(to) <==> exists|k: int|
                        0 <= k < it.index() && *it.seq()[k].0 == to && range.spec_contains(
                            *it.seq()[k].1,
                        ),
        {
            let (to, t) = kv;
            let ghost old_out = out@;
            proof {
                let s = it.seq();
                let i = it.index();
                assert(kv == s[i]);
                assert forall|k: int| 0 <= k < i implies *s[k].0 != *to by {
                    if *s[k].0 == *to {
                        assert(m.contains_key(*s[k].0) && m[*s[k].0] == *s[k].1);
                        assert(m.contains_key(*s[i].0) && m[*s[i].0] == *s[i].1);
                        assert(s[k] == s[i]);
                    }
                }
                assert(!old_out.contains(*to));
            }
            if range.contains(*t) {
                out.push(*to);
            }
            proof {
                let s = it.seq();
                let i = it.index();
                assert forall|x: u64|
                    (exists|k: int| 0 <= k < i + 1 && *s[k].0 == x && range.spec_contains(*s[k].1))
                        implies out@.contains(x) by {
                    let k = choose|k: int| 0 <= k < i + 1 && *s[k].0 == x && range.spec_contains(*s[k].1);
                    if k < i {
                        assert(old_out.contains(x));
                        let j = choose|j: int| 0 <= j < old_out.len() && old_out[j] == x;
                        assert(out@[j] == x);
                    } else {
                        assert(out@[out@.len() - 1] == x);
                    }
                }
                assert forall|x: u64| out@.contains(x) implies (exists|k: int|
                    0 <= k < i + 1 && *s[k].0 == x && range.spec_contains(*s[k].1)) by {
                    let j = choose|j: int| 0 <= j < out@.len() && out@[j] == x;
                    if j < old_out.len() {
                        assert(old_out[j] == x);
                        assert(old_out.contains(x));
                    } else {
                        assert(*s[i].0 == x);
                    }
                }
            }
        }
        proof {
            let s = spec_hash_map_iter(&self.minutes_to).remaining();
            assert forall|to: u64| out@.contains(to) <==> self.within(range, to) by {
                if self.within(range, to) {
                    assert(s.contains((&to, &m[to])));
                }
            }
        }
        out
    }
}

/// A picture as stored.
#[derive(Debug, Clone)]
pub enum PictureEntry {
    Profile { thumb: RawPicture, full: RawPicture },
    ChallengePicture(RawPicture),
}

/// The largest centred square of a picture `width` wide and `height` high: its left edge, its
/// top edge and its side.
pub open spec fn centred_square(width: u32, height: u32) -> (u32, u32, u32) {
    if width > height {
        (((width - height) / 2) as u32, 0, height)
    } else {
        (0, ((height - width) / 2) as u32, width)
    }
}

/// The largest centred square of a picture `width` wide and `height` high, where a profile
/// picture is cut out: its left edge, its top edge and its side.
pub fn square_crop(width: u32, height: u32) -> (r: (u32, u32, u32))
    ensures
        r == centred_square(width, height),
        r.0 + r.2 <= width,
        r.1 + r.2 <= height,
{
    if width > height {
        ((width - height) / 2, 0, height)
    } else {
        (0, (height - width) / 2, width)
    }
}


/// The width and height of the picture that the image crate decodes from `bytes` as a JPEG,
/// where it can decode it.
pub uninterp spec fn jpeg_size(bytes: Seq<u8>) -> Option<(u32, u32)>;

/// `image::load_from_memory_with_format` with `ImageFormat::Jpeg`, then the `width` and `height`
/// of the image decoded. Named by `jpeg_size`; nothing more is stated.
#[verifier::external_body]
fn decode_size(bytes: &[u8]) -> (r: Option<(u32, u32)>)
    ensures
        r == jpeg_size(bytes@),
{
    match image::load_from_memory_with_format(bytes, image::ImageFormat::Jpeg) {
        Ok(img) => Some((img.width(), img.height())),
        Err(_) => None,
    }
}

/// How a picture is scaled: the resampling filters of the image crate.
#[derive(Debug, Clone, Copy, PartialEq, Eq, Structural)]
pub enum ResizeFilter {
    Nearest,
    Triangle,
    CatmullRom,
    Gaussian,
    Lanczos3,
}

/// The side, in pixels, of the square thumbnail of a profile picture.
pub const PROFILE_THUMBNAIL_SIDE: u32 = 256;

/// The JPEG encoding of the square with left edge `x`, top edge `y` and side `side` of the
/// picture that the image crate decodes from `bytes`, scaled with `filter` to fit within
/// `target` by `target` pixels, where it can decode and encode it.
pub uninterp spec fn jpeg_thumbnail(
    bytes: Seq<u8>,
    x: u32,
    y: u32,
    side: u32,
    target: u32,
    filter: ResizeFilter,
) -> Option<Seq<u8>>;

/// `image::load_from_memory_with_format` with `ImageFormat::Jpeg`, `DynamicImage::crop_imm`
/// of the square, `DynamicImage::resize` to `target` by `target` with the image crate's
/// `FilterType` that `filter` stands for, and `DynamicImage::write_to` with `ImageFormat::Jpeg`
/// into a buffer. Its bytes, and whether it succeeds, are named by `jpeg_thumbnail`; nothing
/// more is stated.
#[verifier::external_body]
fn thumbnail(bytes: &[u8], x: u32, y: u32, side: u32, target: u32, filter: ResizeFilter) -> (r: Result<
    Vec<u8>,
    image::ImageError,
>)
    ensures
        match r {
            Ok(v) => jpeg_thumbnail(bytes@, x, y, side, target, filter) == Some(v@),
            Err(_) => jpeg_thumbnail(bytes@, x, y, side, target, filter) is None,
        },
{
    let kind = match filter {
        ResizeFilter::Nearest => image::imageops::FilterType::Nearest,
        ResizeFilter::Triangle => image::imageops::FilterType::Triangle,
        ResizeFilter::CatmullRom => image::imageops::FilterType::CatmullRom,
        ResizeFilter::Gaussian => image::imageops::FilterType::Gaussian,
        ResizeFilter::Lanczos3 => image::imageops::FilterType::Lanczos3,
    };
    let img = image::load_from_memory_with_format(bytes, image::ImageFormat::Jpeg)?;
    let small = img.crop_imm(x, y, side, side).resize(target, target, kind);
    let mut buffer = std::io::Cursor::new(Vec::new());
    small.write_to(&mut buffer, image::ImageFormat::Jpeg)?;
    Ok(buffer.into_inner())
}

/// The encoded thumbnail and full picture of the profile made of the JPEG `bytes`: the largest
/// centred square scaled to `PROFILE_THUMBNAIL_SIDE` pixels a side with the CatmullRom filter,
/// and the picture encoded anew; `None` where either fails.
pub open spec fn profile_parts(bytes: Seq<u8>) -> Option<(Seq<u8>, Seq<u8>)> {
    match jpeg_size(bytes) {
        None => None,
        Some(size) => {
            let sq = centred_square(size.0, size.1);
            match (
                jpeg_thumbnail(bytes, sq.0, sq.1, sq.2, PROFILE_THUMBNAIL_SIDE, ResizeFilter::CatmullRom),
                jpeg_reencoded(bytes),
            ) {
                (Some(t), Some(f)) => Some((t, f)),
                _ => None,
            }
        },
    }
}

impl PictureEntry {
    /// A profile picture made of `picture` (see `profile_parts`); `None` where the picture
    /// cannot be decoded or encoded.
    pub fn new_profile(picture: &RawPicture) -> (r: Option<PictureEntry>)
        ensures
            match profile_parts(picture.bytes()) {
                Some(parts) => r matches Some(PictureEntry::Profile { thumb, full })
                    && thumb.bytes() == parts.0 && full.bytes() == parts.1,
                None => r is None,
            },
    {
        let bytes = picture.get_bytes();
        let (width, height) = match decode_size(bytes.as_slice()) {
            Some(size) => size,
            None => return None,
        };
        let (x, y, side) = square_crop(width, height);
        let thumb = match thumbnail(
            bytes.as_slice(),
            x,
            y,
            side,
            PROFILE_THUMBNAIL_SIDE,
            ResizeFilter::CatmullRom,
        ) {
            Ok(t) => t,
            Err(_) => return None,
        };
        let full = match reencode_jpeg(bytes.as_slice()) {
            Ok(f) => f,
            Err(_) => return None,
        };
        Some(
            PictureEntry::Profile {
                thumb: RawPicture::from_jpeg_bytes(thumb),
                full: RawPicture::from_jpeg_bytes(full),
            },
        )
    }

    /// A stored picture of a completed challenge.
    pub fn new_challenge_picture(picture: RawPicture) -> (p: PictureEntry)
        ensures
            p == PictureEntry::ChallengePicture(picture),
    {
        PictureEntry::ChallengePicture(picture)
    }
}

} // verus!
