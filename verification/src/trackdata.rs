//! The host-native metadata record for one track, and its construction from
//! the raw field values that a tag reader yields.

use vstd::prelude::*;

verus! {

/// The closed set of cover-art image kinds. There is deliberately no
/// catch-all variant: a mime tag outside this set is rejected at the
/// boundary, never coerced.
#[derive(Clone, Copy, PartialEq, Eq, Structural, Debug)]
pub enum MimeType {
    Png,
    Jpeg,
    Tiff,
    Bmp,
    Gif,
}

/// Binary cover-art blob. `data` is opaque bytes and must round-trip
/// exactly; it is never treated as text.
#[derive(Debug)]
pub struct Picture {
    pub data: Vec<u8>,
    pub mime: MimeType,
}

/// Mathematical shape of a [`Picture`].
#[verifier::ext_equal]
pub struct PictureView {
    pub data: Seq<u8>,
    pub mime: MimeType,
}

impl View for Picture {
    type V = PictureView;

    open spec fn view(&self) -> PictureView {
        PictureView { data: self.data@, mime: self.mime }
    }
}

/// Album-level metadata nested inside a record.
#[derive(Debug)]
pub struct AlbumData {
    pub title: String,
    pub artist: String,
    pub cover: Option<Picture>,
}

/// Mathematical shape of an [`AlbumData`].
#[verifier::ext_equal]
pub struct AlbumDataView {
    pub title: Seq<char>,
    pub artist: Seq<char>,
    pub cover: Option<PictureView>,
}

impl View for AlbumData {
    type V = AlbumDataView;

    open spec fn view(&self) -> AlbumDataView {
        AlbumDataView {
            title: self.title@,
            artist: self.artist@,
            cover: match self.cover {
                Some(p) => Some(p@),
                None => None,
            },
        }
    }
}

/// The canonical host-native representation of one track's metadata.
/// Absent fields at the source default to empty text or zero, so scripts
/// always see concrete values. The duration is held in whole milliseconds.
#[derive(Debug)]
pub struct TrackData {
    pub title: String,
    pub artist: String,
    pub album: AlbumData,
    pub year: i32,
    pub genre: String,
    pub comment: String,
    pub composer: String,
    pub album_artist: String,
    pub disc_number: u16,
    pub track_number: u16,
    pub duration: i64,
}

/// Mathematical shape of a [`TrackData`].
#[verifier::ext_equal]
pub struct TrackDataView {
    pub title: Seq<char>,
    pub artist: Seq<char>,
    pub album: AlbumDataView,
    pub year: int,
    pub genre: Seq<char>,
    pub comment: Seq<char>,
    pub composer: Seq<char>,
    pub album_artist: Seq<char>,
    pub disc_number: int,
    pub track_number: int,
    pub duration: int,
}

impl View for TrackData {
    type V = TrackDataView;

    open spec fn view(&self) -> TrackDataView {
        TrackDataView {
            title: self.title@,
            artist: self.artist@,
            album: self.album@,
            year: self.year as int,
            genre: self.genre@,
            comment: self.comment@,
            composer: self.composer@,
            album_artist: self.album_artist@,
            disc_number: self.disc_number as int,
            track_number: self.track_number as int,
            duration: self.duration as int,
        }
    }
}

/// Copies a byte vector element by element.
pub fn clone_bytes(v: &Vec<u8>) -> (r: Vec<u8>)
    ensures
        r@ == v@,
{
    let mut r: Vec<u8> = Vec::new();
    let mut i: usize = 0;
    while i < v.len()
        invariant
            i <= v.len(),
            r@ == v@.subrange(0, i as int),
        decreases v.len() - i,
    {
        r.push(v[i]);
        i = i + 1;
    }
    proof {
        assert(r@ =~= v@);
    }
    r
}

impl Clone for Picture {
    fn clone(&self) -> (r: Self)
        ensures
            r@ == self@,
    {
        Picture { data: clone_bytes(&self.data), mime: self.mime }
    }
}

impl Clone for AlbumData {
    fn clone(&self) -> (r: Self)
        ensures
            r@ == self@,
    {
        AlbumData {
            title: self.title.clone(),
            artist: self.artist.clone(),
            cover: match &self.cover {
                Some(p) => Some(p.clone()),
                None => None,
            },
        }
    }
}

impl Clone for TrackData {
    fn clone(&self) -> (r: Self)
        ensures
            r@ == self@,
    {
        TrackData {
            title: self.title.clone(),
            artist: self.artist.clone(),
            album: self.album.clone(),
            year: self.year,
            genre: self.genre.clone(),
            comment: self.comment.clone(),
            composer: self.composer.clone(),
            album_artist: self.album_artist.clone(),
            disc_number: self.disc_number,
            track_number: self.track_number,
            duration: self.duration,
        }
    }
}

/// Album fields as a tag reader hands them over: the title is always
/// reported when an album is present at all, the artist may be absent.
#[derive(Debug)]
pub struct TagAlbum {
    pub title: String,
    pub artist: Option<String>,
    pub cover: Option<Picture>,
}

/// Raw per-track fields as a tag reader hands them over, each absent when
/// the underlying frame is missing or unreadable.
#[derive(Debug)]
pub struct TagFields {
    pub title: Option<String>,
    pub artist: Option<String>,
    pub album: Option<TagAlbum>,
    pub year: Option<i32>,
    pub genre: Option<String>,
    pub comment: Option<String>,
    pub composer: Option<String>,
    pub album_artist: Option<String>,
    pub disc_number: Option<u16>,
    pub track_number: Option<u16>,
    pub duration: Option<i64>,
}

/// The text of an optional field, empty when the field is absent.
pub open spec fn text_or_empty(o: Option<String>) -> Seq<char> {
    match o {
        Some(s) => s@,
        None => Seq::<char>::empty(),
    }
}

/// Turns an optional field into its text, defaulting to the empty string.
pub fn take_text(o: Option<String>) -> (r: String)
    ensures
        r@ == text_or_empty(o),
{
    match o {
        Some(s) => s,
        None => String::new(),
    }
}

impl TrackData {
    /// Builds the canonical record from raw tag fields. Every absent field
    /// defaults to its type's empty value; a wholly absent album is an
    /// album with empty fields and no cover.
    pub fn from_tag(f: TagFields) -> (r: TrackData)
        ensures
            r.title@ == text_or_empty(f.title),
            r.artist@ == text_or_empty(f.artist),
            r.genre@ == text_or_empty(f.genre),
            r.comment@ == text_or_empty(f.comment),
            r.composer@ == text_or_empty(f.composer),
            r.album_artist@ == text_or_empty(f.album_artist),
            r.year == (match f.year {
                Some(y) => y,
                None => 0,
            }),
            r.disc_number == (match f.disc_number {
                Some(d) => d,
                None => 0,
            }),
            r.track_number == (match f.track_number {
                Some(t) => t,
                None => 0,
            }),
            r.duration == (match f.duration {
                Some(d) => d,
                None => 0,
            }),
            match f.album {
                Some(a) => {
                    &&& r.album.title@ == a.title@
                    &&& r.album.artist@ == text_or_empty(a.artist)
                    &&& r.album@.cover == (match a.cover {
                        Some(c) => Some(c@),
                        None => None::<PictureView>,
                    })
                },
                None => {
                    &&& r.album.title@ == Seq::<char>::empty()
                    &&& r.album.artist@ == Seq::<char>::empty()
                    &&& r.album@.cover == None::<PictureView>
                },
            },
    {
        let album = match f.album {
            Some(a) => AlbumData {
                title: a.title,
                artist: take_text(a.artist),
                cover: a.cover,
            },
            None => AlbumData {
                title: String::new(),
                artist: String::new(),
                cover: None,
            },
        };
        TrackData {
            title: take_text(f.title),
            artist: take_text(f.artist),
            album,
            year: match f.year {
                Some(y) => y,
                None => 0,
            },
            genre: take_text(f.genre),
            comment: take_text(f.comment),
            composer: take_text(f.composer),
            album_artist: take_text(f.album_artist),
            disc_number: match f.disc_number {
                Some(d) => d,
                None => 0,
            },
            track_number: match f.track_number {
                Some(t) => t,
                None => 0,
            },
            duration: match f.duration {
                Some(d) => d,
                None => 0,
            },
        }
    }
}


} // verus!
