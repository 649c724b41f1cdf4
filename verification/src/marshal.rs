//! The explicit, field-by-field mapping between the host-native record and
//! the dynamically-typed record shape that crosses the script boundary.
//!
//! Outbound, every field is present. Inbound, a missing field defaults to
//! its type's empty value, an integer outside its host type's range is an
//! error, and a cover's mime tag must name one of the closed set of kinds.

use vstd::prelude::*;

use crate::errors::MarshalError;
use crate::trackdata::AlbumData;
use crate::trackdata::AlbumDataView;
use crate::trackdata::MimeType;
use crate::trackdata::Picture;
use crate::trackdata::PictureView;
use crate::trackdata::TrackData;
use crate::trackdata::TrackDataView;
use crate::trackdata::clone_bytes;
use crate::trackdata::take_text;
use crate::trackdata::text_or_empty;

verus! {

/// Cover art as it crosses the script boundary: raw bytes plus a textual
/// mime tag, which may be missing on the way back in.
#[derive(Debug)]
pub struct ScriptPicture {
    pub data: Vec<u8>,
    pub mime: Option<String>,
}

/// Mathematical shape of a [`ScriptPicture`].
#[verifier::ext_equal]
pub struct ScriptPictureView {
    pub data: Seq<u8>,
    pub mime: Option<Seq<char>>,
}

impl View for ScriptPicture {
    type V = ScriptPictureView;

    open spec fn view(&self) -> ScriptPictureView {
        ScriptPictureView {
            data: self.data@,
            mime: match self.mime {
                Some(s) => Some(s@),
                None => None,
            },
        }
    }
}

/// Album fields as they cross the script boundary.
#[derive(Debug)]
pub struct ScriptAlbum {
    pub title: Option<String>,
    pub artist: Option<String>,
    pub cover: Option<ScriptPicture>,
}

/// Mathematical shape of a [`ScriptAlbum`].
#[verifier::ext_equal]
pub struct ScriptAlbumView {
    pub title: Option<Seq<char>>,
    pub artist: Option<Seq<char>>,
    pub cover: Option<ScriptPictureView>,
}

impl View for ScriptAlbum {
    type V = ScriptAlbumView;

    open spec fn view(&self) -> ScriptAlbumView {
        ScriptAlbumView {
            title: match self.title {
                Some(s) => Some(s@),
                None => None,
            },
            artist: match self.artist {
                Some(s) => Some(s@),
                None => None,
            },
            cover: match self.cover {
                Some(p) => Some(p@),
                None => None,
            },
        }
    }
}

/// One record as it crosses the script boundary: every field optional,
/// integers as the script runtime's native integer width.
#[derive(Debug)]
pub struct ScriptRecord {
    pub title: Option<String>,
    pub artist: Option<String>,
    pub album: Option<ScriptAlbum>,
    pub year: Option<i64>,
    pub genre: Option<String>,
    pub comment: Option<String>,
    pub composer: Option<String>,
    pub album_artist: Option<String>,
    pub disc_number: Option<i64>,
    pub track_number: Option<i64>,
    pub duration: Option<i64>,
}

/// Mathematical shape of a [`ScriptRecord`].
#[verifier::ext_equal]
pub struct ScriptRecordView {
    pub title: Option<Seq<char>>,
    pub artist: Option<Seq<char>>,
    pub album: Option<ScriptAlbumView>,
    pub year: Option<int>,
    pub genre: Option<Seq<char>>,
    pub comment: Option<Seq<char>>,
    pub composer: Option<Seq<char>>,
    pub album_artist: Option<Seq<char>>,
    pub disc_number: Option<int>,
    pub track_number: Option<int>,
    pub duration: Option<int>,
}

impl View for ScriptRecord {
    type V = ScriptRecordView;

    open spec fn view(&self) -> ScriptRecordView {
        ScriptRecordView {
            title: match self.title {
                Some(s) => Some(s@),
                None => None,
            },
            artist: match self.artist {
                Some(s) => Some(s@),
                None => None,
            },
            album: match self.album {
                Some(a) => Some(a@),
                None => None,
            },
            year: match self.year {
                Some(y) => Some(y as int),
                None => None,
            },
            genre: match self.genre {
                Some(s) => Some(s@),
                None => None,
            },
            comment: match self.comment {
                Some(s) => Some(s@),
                None => None,
            },
            composer: match self.composer {
                Some(s) => Some(s@),
                None => None,
            },
            album_artist: match self.album_artist {
                Some(s) => Some(s@),
                None => None,
            },
            disc_number: match self.disc_number {
                Some(d) => Some(d as int),
                None => None,
            },
            track_number: match self.track_number {
                Some(t) => Some(t as int),
                None => None,
            },
            duration: match self.duration {
                Some(d) => Some(d as int),
                None => None,
            },
        }
    }
}

impl Clone for ScriptPicture {
    fn clone(&self) -> (r: Self)
        ensures
            r@ == self@,
    {
        ScriptPicture {
            data: clone_bytes(&self.data),
            mime: match &self.mime {
                Some(s) => Some(s.clone()),
                None => None,
            },
        }
    }
}

impl Clone for ScriptAlbum {
    fn clone(&self) -> (r: Self)
        ensures
            r@ == self@,
    {
        ScriptAlbum {
            title: match &self.title {
                Some(s) => Some(s.clone()),
                None => None,
            },
            artist: match &self.artist {
                Some(s) => Some(s.clone()),
                None => None,
            },
            cover: match &self.cover {
                Some(p) => Some(p.clone()),
                None => None,
            },
        }
    }
}

impl Clone for ScriptRecord {
    fn clone(&self) -> (r: Self)
        ensures
            r@ == self@,
    {
        ScriptRecord {
            title: match &self.title {
                Some(s) => Some(s.clone()),
                None => None,
            },
            artist: match &self.artist {
                Some(s) => Some(s.clone()),
                None => None,
            },
            album: match &self.album {
                Some(a) => Some(a.clone()),
                None => None,
            },
            year: self.year,
            genre: match &self.genre {
                Some(s) => Some(s.clone()),
                None => None,
            },
            comment: match &self.comment {
                Some(s) => Some(s.clone()),
                None => None,
            },
            composer: match &self.composer {
                Some(s) => Some(s.clone()),
                None => None,
            },
            album_artist: match &self.album_artist {
                Some(s) => Some(s.clone()),
                None => None,
            },
            disc_number: self.disc_number,
            track_number: self.track_number,
            duration: self.duration,
        }
    }
}

/// The textual tag of a mime kind, as it appears at the script boundary.
pub open spec fn mime_tag(m: MimeType) -> Seq<char> {
    match m {
        MimeType::Png => "Png"@,
        MimeType::Jpeg => "Jpeg"@,
        MimeType::Tiff => "Tiff"@,
        MimeType::Bmp => "Bmp"@,
        MimeType::Gif => "Gif"@,
    }
}

/// The mime kind a textual tag names, if it names one at all.
pub open spec fn tag_mime(s: Seq<char>) -> Option<MimeType> {
    if s == "Png"@ {
        Some(MimeType::Png)
    } else if s == "Jpeg"@ {
        Some(MimeType::Jpeg)
    } else if s == "Tiff"@ {
        Some(MimeType::Tiff)
    } else if s == "Bmp"@ {
        Some(MimeType::Bmp)
    } else if s == "Gif"@ {
        Some(MimeType::Gif)
    } else {
        None
    }
}

/// Every mime kind's tag names that kind and no other.
pub proof fn lemma_mime_tag_roundtrip(m: MimeType)
    ensures
        tag_mime(mime_tag(m)) == Some(m),
{
    reveal_strlit("Png");
    reveal_strlit("Jpeg");
    reveal_strlit("Tiff");
    reveal_strlit("Bmp");
    reveal_strlit("Gif");
    assert("Jpeg"@ != "Png"@) by {
        assert("Jpeg"@.len() != "Png"@.len());
    }
    assert("Tiff"@ != "Png"@) by {
        assert("Tiff"@.len() != "Png"@.len());
    }
    assert("Tiff"@ != "Jpeg"@) by {
        assert("Tiff"@[0] != "Jpeg"@[0]);
    }
    assert("Bmp"@ != "Png"@) by {
        assert("Bmp"@[0] != "Png"@[0]);
    }
    assert("Gif"@ != "Png"@) by {
        assert("Gif"@[0] != "Png"@[0]);
    }
    assert("Gif"@ != "Bmp"@) by {
        assert("Gif"@[0] != "Bmp"@[0]);
    }
    assert("Bmp"@ != "Jpeg"@) by {
        assert("Bmp"@.len() != "Jpeg"@.len());
    }
    assert("Bmp"@ != "Tiff"@) by {
        assert("Bmp"@.len() != "Tiff"@.len());
    }
    assert("Gif"@ != "Jpeg"@) by {
        assert("Gif"@.len() != "Jpeg"@.len());
    }
    assert("Gif"@ != "Tiff"@) by {
        assert("Gif"@.len() != "Tiff"@.len());
    }
}

/// Renders a mime kind as its textual tag.
pub fn mime_to_tag(m: MimeType) -> (r: String)
    ensures
        r@ == mime_tag(m),
{
    let s: &str = match m {
        MimeType::Png => "Png",
        MimeType::Jpeg => "Jpeg",
        MimeType::Tiff => "Tiff",
        MimeType::Bmp => "Bmp",
        MimeType::Gif => "Gif",
    };
    s.to_owned()
}

/// Reads a textual tag back into a mime kind; `None` for any tag outside
/// the closed set.
pub fn tag_to_mime(s: &String) -> (r: Option<MimeType>)
    ensures
        r == tag_mime(s@),
{
    if *s == mime_to_tag(MimeType::Png) {
        Some(MimeType::Png)
    } else if *s == mime_to_tag(MimeType::Jpeg) {
        Some(MimeType::Jpeg)
    } else if *s == mime_to_tag(MimeType::Tiff) {
        Some(MimeType::Tiff)
    } else if *s == mime_to_tag(MimeType::Bmp) {
        Some(MimeType::Bmp)
    } else if *s == mime_to_tag(MimeType::Gif) {
        Some(MimeType::Gif)
    } else {
        None
    }
}

/// The outbound mapping: every field of the record present on the script
/// side, the mime kind rendered as its tag.
pub open spec fn marshal_view(t: TrackDataView) -> ScriptRecordView {
    ScriptRecordView {
        title: Some(t.title),
        artist: Some(t.artist),
        album: Some(
            ScriptAlbumView {
                title: Some(t.album.title),
                artist: Some(t.album.artist),
                cover: match t.album.cover {
                    Some(p) => Some(ScriptPictureView { data: p.data, mime: Some(mime_tag(p.mime)) }),
                    None => None,
                },
            },
        ),
        year: Some(t.year),
        genre: Some(t.genre),
        comment: Some(t.comment),
        composer: Some(t.composer),
        album_artist: Some(t.album_artist),
        disc_number: Some(t.disc_number),
        track_number: Some(t.track_number),
        duration: Some(t.duration),
    }
}

/// Marshals a record outward. The record itself is left as it was; the
/// result is a fresh value.
pub fn marshal(t: &TrackData) -> (r: ScriptRecord)
    ensures
        r@ == marshal_view(t@),
{
    let r = ScriptRecord {
        title: Some(t.title.clone()),
        artist: Some(t.artist.clone()),
        album: Some(
            ScriptAlbum {
                title: Some(t.album.title.clone()),
                artist: Some(t.album.artist.clone()),
                cover: match &t.album.cover {
                    Some(p) => Some(
                        ScriptPicture { data: clone_bytes(&p.data), mime: Some(mime_to_tag(p.mime)) },
                    ),
                    None => None,
                },
            },
        ),
        year: Some(t.year as i64),
        genre: Some(t.genre.clone()),
        comment: Some(t.comment.clone()),
        composer: Some(t.composer.clone()),
        album_artist: Some(t.album_artist.clone()),
        disc_number: Some(t.disc_number as i64),
        track_number: Some(t.track_number as i64),
        duration: Some(t.duration),
    };
    proof {
        assert(r@ =~= marshal_view(t@));
    }
    r
}

/// Whether an optional inbound integer fits a signed 32-bit year.
pub open spec fn fits_i32(o: Option<int>) -> bool {
    match o {
        Some(v) => -2147483648 <= v <= 2147483647,
        None => true,
    }
}

/// Whether an optional inbound integer fits an unsigned 16-bit counter.
pub open spec fn fits_u16(o: Option<int>) -> bool {
    match o {
        Some(v) => 0 <= v <= 65535,
        None => true,
    }
}

/// The value of an optional inbound integer, zero when absent.
pub open spec fn int_or_zero(o: Option<int>) -> int {
    match o {
        Some(v) => v,
        None => 0,
    }
}

/// The text of an optional inbound field, empty when absent.
pub open spec fn opt_text(o: Option<Seq<char>>) -> Seq<char> {
    match o {
        Some(s) => s,
        None => Seq::<char>::empty(),
    }
}

/// The inbound mapping of a cover: no cover is fine, a cover without a
/// mime tag or with a tag outside the closed set is an error.
pub open spec fn unmarshal_cover_view(o: Option<ScriptPictureView>) -> Result<
    Option<PictureView>,
    MarshalError,
> {
    match o {
        None => Ok(None),
        Some(p) => match p.mime {
            None => Err(MarshalError::MissingMime),
            Some(tag) => match tag_mime(tag) {
                None => Err(MarshalError::UnknownMime),
                Some(m) => Ok(Some(PictureView { data: p.data, mime: m })),
            },
        },
    }
}

/// The inbound mapping of the album: a wholly missing album defaults to
/// empty fields and no cover.
pub open spec fn unmarshal_album_view(o: Option<ScriptAlbumView>) -> Result<
    AlbumDataView,
    MarshalError,
> {
    match o {
        None => Ok(AlbumDataView { title: Seq::<char>::empty(), artist: Seq::<char>::empty(), cover: None }),
        Some(a) => match unmarshal_cover_view(a.cover) {
            Err(e) => Err(e),
            Ok(c) => Ok(AlbumDataView { title: opt_text(a.title), artist: opt_text(a.artist), cover: c }),
        },
    }
}

/// The inbound mapping of a whole record. Integer ranges are checked
/// first — year, then disc number, then track number — and the album's
/// cover after them; the first violation decides the error.
pub open spec fn unmarshal_view(sr: ScriptRecordView) -> Result<TrackDataView, MarshalError> {
    if !fits_i32(sr.year) {
        Err(MarshalError::OutOfRange)
    } else if !fits_u16(sr.disc_number) {
        Err(MarshalError::OutOfRange)
    } else if !fits_u16(sr.track_number) {
        Err(MarshalError::OutOfRange)
    } else {
        match unmarshal_album_view(sr.album) {
            Err(e) => Err(e),
            Ok(av) => Ok(
                TrackDataView {
                    title: opt_text(sr.title),
                    artist: opt_text(sr.artist),
                    album: av,
                    year: int_or_zero(sr.year),
                    genre: opt_text(sr.genre),
                    comment: opt_text(sr.comment),
                    composer: opt_text(sr.composer),
                    album_artist: opt_text(sr.album_artist),
                    disc_number: int_or_zero(sr.disc_number),
                    track_number: int_or_zero(sr.track_number),
                    duration: int_or_zero(sr.duration),
                },
            ),
        }
    }
}

/// Marshals a script-side record back into the host-native one, exactly as
/// [`unmarshal_view`] describes.
pub fn unmarshal(sr: ScriptRecord) -> (r: Result<TrackData, MarshalError>)
    ensures
        match r {
            Ok(t) => unmarshal_view(sr@) == Ok::<TrackDataView, MarshalError>(t@),
            Err(e) => unmarshal_view(sr@) == Err::<TrackDataView, MarshalError>(e),
        },
{
    let year: i32 = match sr.year {
        Some(y) => {
            if y < -2147483648 || y > 2147483647 {
                return Err(MarshalError::OutOfRange);
            }
            y as i32
        },
        None => 0,
    };
    let disc_number: u16 = match sr.disc_number {
        Some(d) => {
            if d < 0 || d > 65535 {
                return Err(MarshalError::OutOfRange);
            }
            d as u16
        },
        None => 0,
    };
    let track_number: u16 = match sr.track_number {
        Some(t) => {
            if t < 0 || t > 65535 {
                return Err(MarshalError::OutOfRange);
            }
            t as u16
        },
        None => 0,
    };
    let duration: i64 = match sr.duration {
        Some(d) => d,
        None => 0,
    };
    let album: AlbumData = match sr.album {
        None => AlbumData { title: String::new(), artist: String::new(), cover: None },
        Some(a) => {
            let cover: Option<Picture> = match a.cover {
                None => None,
                Some(p) => match p.mime {
                    None => {
                        return Err(MarshalError::MissingMime);
                    },
                    Some(tag) => match tag_to_mime(&tag) {
                        None => {
                            return Err(MarshalError::UnknownMime);
                        },
                        Some(m) => Some(Picture { data: p.data, mime: m }),
                    },
                },
            };
            AlbumData { title: take_text(a.title), artist: take_text(a.artist), cover }
        },
    };
    let t = TrackData {
        title: take_text(sr.title),
        artist: take_text(sr.artist),
        album,
        year,
        genre: take_text(sr.genre),
        comment: take_text(sr.comment),
        composer: take_text(sr.composer),
        album_artist: take_text(sr.album_artist),
        disc_number,
        track_number,
        duration,
    };
    proof {
        assert(unmarshal_view(sr@) matches Ok(tv) && tv =~= t@);
    }
    Ok(t)
}

/// A record marshaled out and straight back in comes back unchanged,
/// cover bytes included.
pub proof fn lemma_marshal_roundtrip(t: TrackData)
    ensures
        unmarshal_view(marshal_view(t@)) == Ok::<TrackDataView, MarshalError>(t@),
{
    match t.album.cover {
        Some(p) => {
            lemma_mime_tag_roundtrip(p.mime);
        },
        None => {},
    }
    assert(unmarshal_view(marshal_view(t@)) matches Ok(tv) && tv =~= t@);
}

/// A cover mime tag outside the closed set is rejected outright: whenever
/// the integer fields pass their range checks, the whole unmarshal of such
/// a record is exactly the unknown-mime error.
pub proof fn lemma_unknown_mime_rejected(sr: ScriptRecordView, a: ScriptAlbumView, p: ScriptPictureView, tag: Seq<char>)
    requires
        fits_i32(sr.year),
        fits_u16(sr.disc_number),
        fits_u16(sr.track_number),
        sr.album == Some(a),
        a.cover == Some(p),
        p.mime == Some(tag),
        tag_mime(tag) is None,
    ensures
        unmarshal_view(sr) == Err::<TrackDataView, MarshalError>(MarshalError::UnknownMime),
{
}

} // verus!
