//! Catalog resolution: classifying a catalog URL, validating the track
//! items a metadata lookup returns, and planning the destination directory
//! of a batch.
//!
//! The wire payloads arrive as opaque JSON documents; every required field
//! is checked here, and a single absent field fails the whole resolution,
//! since downstream naming and tagging assume all fields are present.

use vstd::prelude::*;
use vstd::string::StringExecFns;
use vstd::string::StrSliceExecFns;

use crate::json::array_len_of;
use crate::json::array_object_text_of;
use crate::json::array_string_of;
use crate::json::json_array_len;
use crate::json::json_array_object_text;
use crate::json::json_array_string_field;
use crate::json::json_doc_ok;
use crate::json::json_parses;
use crate::json::json_string_field;
use crate::json::json_string_field2;
use crate::json::json_u64_field;
use crate::json::string_field_of;
use crate::json::string_field2_of;
use crate::json::u64_field_of;
use crate::strutil::all_digits;
use crate::strutil::contains_substr;
use crate::strutil::dashes_to_slashes;
use crate::strutil::dec_value;
use crate::strutil::find_last;
use crate::strutil::is_last_index_of;
use crate::strutil::join_comma;
use crate::strutil::join_with_comma;
use crate::strutil::opt_str_view;
use crate::strutil::opt_strs_view;
use crate::strutil::parse_u32;
use crate::strutil::seq_contains;
use crate::strutil::seq_views;
use crate::strutil::slashify;

verus! {

/// At most this many items of an album or playlist page are resolved;
/// items beyond the page are absent, a documented limitation.
pub const PAGE_LIMIT: usize = 10;

/// What kind of catalog object a URL denotes.
#[derive(Debug, Clone, Copy, PartialEq, Eq, Structural)]
pub enum UrlType {
    Track,
    Album,
    Artist,
    Playlist,
}

/// The identifier a catalog URL carries: numeric for tracks and albums,
/// textual for playlists.
#[derive(Debug, Clone, PartialEq, Eq)]
pub enum UrlId {
    Primary(u32),
    Playlist(String),
}

/// Failures of catalog resolution.
#[derive(Debug, Clone, PartialEq, Eq)]
pub enum ResolveError {
    EndpointUnreachable,
    MalformedResponse,
    MissingField(String),
}

/// The mathematical shape of a resolution failure.
#[verifier::ext_equal]
pub enum ResolveErrorView {
    Unreachable,
    Malformed,
    Missing(Seq<char>),
}

impl View for ResolveError {
    type V = ResolveErrorView;

    open spec fn view(&self) -> ResolveErrorView {
        match self {
            ResolveError::EndpointUnreachable => ResolveErrorView::Unreachable,
            ResolveError::MalformedResponse => ResolveErrorView::Malformed,
            ResolveError::MissingField(s) => ResolveErrorView::Missing(s@),
        }
    }
}

/// One resolved track: everything naming, downloading and tagging need.
#[derive(Debug, Clone, PartialEq, Eq)]
pub struct TrackInfo {
    pub title: String,
    pub album: String,
    pub artist: String,
    pub artists: String,
    pub cover_id: String,
    pub track_number: u32,
    pub track_id: u32,
    pub audio_quality: String,
}

/// The mathematical shape of a resolved track.
#[verifier::ext_equal]
pub struct TrackInfoView {
    pub title: Seq<char>,
    pub album: Seq<char>,
    pub artist: Seq<char>,
    pub artists: Seq<char>,
    pub cover_id: Seq<char>,
    pub track_number: u32,
    pub track_id: u32,
    pub audio_quality: Seq<char>,
}

impl View for TrackInfo {
    type V = TrackInfoView;

    open spec fn view(&self) -> TrackInfoView {
        TrackInfoView {
            title: self.title@,
            album: self.album@,
            artist: self.artist@,
            artists: self.artists@,
            cover_id: self.cover_id@,
            track_number: self.track_number,
            track_id: self.track_id,
            audio_quality: self.audio_quality@,
        }
    }
}

impl Default for TrackInfo {
    /// An empty descriptor, every field blank or zero.
    fn default() -> (r: TrackInfo)
        ensures
            r.title@ =~= Seq::<char>::empty(),
            r.album@ =~= Seq::<char>::empty(),
            r.artist@ =~= Seq::<char>::empty(),
            r.artists@ =~= Seq::<char>::empty(),
            r.cover_id@ =~= Seq::<char>::empty(),
            r.track_number == 0,
            r.track_id == 0,
            r.audio_quality@ =~= Seq::<char>::empty(),
    {
        TrackInfo {
            title: String::new(),
            album: String::new(),
            artist: String::new(),
            artists: String::new(),
            cover_id: String::new(),
            track_number: 0,
            track_id: 0,
            audio_quality: String::new(),
        }
    }
}

/// The characters of a URL after its last slash.
pub open spec fn url_tail(u: Seq<char>) -> Seq<char> {
    let i = choose|i: int| is_last_index_of(u, '/', i);
    u.subrange(i + 1, u.len() as int)
}

/// The URL's tail parses as a numeric identifier.
pub open spec fn tail_is_numeric(u: Seq<char>) -> bool {
    let tail = url_tail(u);
    tail.len() > 0 && all_digits(tail) && dec_value(tail) <= u32::MAX
}

/// How a catalog URL is classified: the path segments name playlists and
/// albums outright; otherwise a numeric tail is a track and anything else
/// is an artist page.
pub open spec fn spec_url_type(u: Seq<char>) -> UrlType {
    if seq_contains(u, "playlist"@) {
        UrlType::Playlist
    } else if seq_contains(u, "album"@) {
        UrlType::Album
    } else if tail_is_numeric(u) {
        UrlType::Track
    } else {
        UrlType::Artist
    }
}

/// Splits a catalog URL into its identifier (the part after the last
/// slash, numeric where it parses as a number) and its kind.
pub fn parse_url(url: &str) -> (r: (UrlId, UrlType))
    requires
        seq_contains(url@, "tidal.com"@),
        url@.contains('/'),
    ensures
        tail_is_numeric(url@) ==> (r.0 matches UrlId::Primary(n) && n as int == dec_value(
            url_tail(url@),
        )),
        !tail_is_numeric(url@) ==> (r.0 matches UrlId::Playlist(s) && s@ == url_tail(url@)),
        r.1 == spec_url_type(url@),
{
    let n: usize = url.unicode_len();
    let slash = find_last(url, '/');
    let i: usize = match slash {
        Some(i) => i,
        None => {
            proof {
                let w = choose|k: int| 0 <= k < url@.len() && url@[k] == '/';
                assert(url@[w] != '/');  // contradicts the choice above
            }
            0
        },
    };
    proof {
        let c = choose|k: int| is_last_index_of(url@, '/', k);
        assert(is_last_index_of(url@, '/', i as int));
        if c < i {
            assert(url@[i as int] == '/');
        } else if c > i {
            assert(url@[c] == '/');
        }
        assert(url_tail(url@) == url@.subrange(i + 1, url@.len() as int));
    }
    let tail: &str = url.substring_char(i + 1, n);
    let id = match parse_u32(tail) {
        Some(num) => UrlId::Primary(num),
        None => UrlId::Playlist(String::from_str(tail)),
    };
    let url_type = if contains_substr(url, "playlist") {
        UrlType::Playlist
    } else if contains_substr(url, "album") {
        UrlType::Album
    } else if (match &id {
        UrlId::Primary(_) => true,
        UrlId::Playlist(_) => false,
    }) {
        UrlType::Track
    } else {
        UrlType::Artist
    };
    (id, url_type)
}

/// The raw fields of one track item as the wire payload offered them,
/// each present or not.
#[derive(Debug, Clone)]
pub struct RawTrackItem {
    pub title: Option<String>,
    pub album_title: Option<String>,
    pub cover_id: Option<String>,
    pub track_id: Option<u64>,
    pub track_number: Option<u64>,
    pub artist_name: Option<String>,
    pub artist_names: Option<Vec<String>>,
    pub audio_quality: Option<String>,
}

/// The mathematical shape of a raw track item.
#[verifier::ext_equal]
pub struct RawTrackItemView {
    pub title: Option<Seq<char>>,
    pub album_title: Option<Seq<char>>,
    pub cover_id: Option<Seq<char>>,
    pub track_id: Option<u64>,
    pub track_number: Option<u64>,
    pub artist_name: Option<Seq<char>>,
    pub artist_names: Option<Seq<Seq<char>>>,
    pub audio_quality: Option<Seq<char>>,
}

impl View for RawTrackItem {
    type V = RawTrackItemView;

    open spec fn view(&self) -> RawTrackItemView {
        RawTrackItemView {
            title: opt_str_view(self.title),
            album_title: opt_str_view(self.album_title),
            cover_id: opt_str_view(self.cover_id),
            track_id: self.track_id,
            track_number: self.track_number,
            artist_name: opt_str_view(self.artist_name),
            artist_names: opt_strs_view(self.artist_names),
            audio_quality: opt_str_view(self.audio_quality),
        }
    }
}

/// The first required field a raw item lacks, under its wire name, if any.
pub open spec fn track_missing_field(raw: RawTrackItemView) -> Option<Seq<char>> {
    if raw.cover_id is None {
        Some("cover"@)
    } else if raw.album_title is None {
        Some("album"@)
    } else if raw.title is None {
        Some("title"@)
    } else if raw.track_id is None {
        Some("id"@)
    } else if raw.track_number is None {
        Some("trackNumber"@)
    } else if raw.artist_names is None {
        Some("artists"@)
    } else if raw.artist_name is None {
        Some("artist"@)
    } else if raw.audio_quality is None {
        Some("audioQuality"@)
    } else {
        None
    }
}

/// A raw item is complete: every field present and the numeric ones in
/// range of a track descriptor.
pub open spec fn track_complete(raw: RawTrackItemView) -> bool {
    track_missing_field(raw) is None && raw.track_id->0 <= u32::MAX && raw.track_number->0
        <= u32::MAX
}

/// The descriptor a complete raw item validates to: its fields unchanged,
/// the cover identifier turned into path segments, the artist names
/// joined with `", "`.
pub open spec fn validated_track(raw: RawTrackItemView) -> TrackInfoView {
    TrackInfoView {
        title: raw.title->0,
        album: raw.album_title->0,
        artist: raw.artist_name->0,
        artists: join_comma(raw.artist_names->0),
        cover_id: slashify(raw.cover_id->0),
        track_number: raw.track_number->0 as u32,
        track_id: raw.track_id->0 as u32,
        audio_quality: raw.audio_quality->0,
    }
}

/// The error an incomplete raw item draws: its first absent field by
/// name, or a malformed response for an out-of-range number.
pub open spec fn validation_error(raw: RawTrackItemView) -> ResolveErrorView {
    match track_missing_field(raw) {
        Some(name) => ResolveErrorView::Missing(name),
        None => ResolveErrorView::Malformed,
    }
}

/// Validates one raw track item.  Succeeds exactly when every required
/// field is present and in range; the descriptor then carries the item's
/// fields, the cover identifier turned into path segments and the artist
/// names joined with `", "`.  An absent field names itself in the error.
pub fn validate_track(raw: RawTrackItem) -> (r: Result<TrackInfo, ResolveError>)
    ensures
        r is Ok <==> track_complete(raw@),
        r matches Ok(t) ==> t@ == validated_track(raw@),
        r matches Err(e) ==> e@ == validation_error(raw@),
{
    let cover_raw = match raw.cover_id {
        Some(c) => c,
        None => {
            return Err(ResolveError::MissingField(String::from_str("cover")));
        },
    };
    let album = match raw.album_title {
        Some(a) => a,
        None => {
            return Err(ResolveError::MissingField(String::from_str("album")));
        },
    };
    let title = match raw.title {
        Some(t) => t,
        None => {
            return Err(ResolveError::MissingField(String::from_str("title")));
        },
    };
    let track_id_raw = match raw.track_id {
        Some(i) => i,
        None => {
            return Err(ResolveError::MissingField(String::from_str("id")));
        },
    };
    let track_number_raw = match raw.track_number {
        Some(n) => n,
        None => {
            return Err(ResolveError::MissingField(String::from_str("trackNumber")));
        },
    };
    let names = match raw.artist_names {
        Some(ns) => ns,
        None => {
            return Err(ResolveError::MissingField(String::from_str("artists")));
        },
    };
    let artist = match raw.artist_name {
        Some(a) => a,
        None => {
            return Err(ResolveError::MissingField(String::from_str("artist")));
        },
    };
    let audio_quality = match raw.audio_quality {
        Some(q) => q,
        None => {
            return Err(ResolveError::MissingField(String::from_str("audioQuality")));
        },
    };
    if track_id_raw > u32::MAX as u64 || track_number_raw > u32::MAX as u64 {
        return Err(ResolveError::MalformedResponse);
    }
    Ok(
        TrackInfo {
            title,
            album,
            artist,
            artists: join_with_comma(&names),
            cover_id: dashes_to_slashes(cover_raw.as_str()),
            track_number: track_number_raw as u32,
            track_id: track_id_raw as u32,
            audio_quality,
        },
    )
}

/// The artist names of a track item's document text: `None` when the
/// `artists` array is absent or any of its elements lacks a string name.
pub open spec fn artist_names_of(t: Seq<char>) -> Option<Seq<Seq<char>>> {
    match array_len_of(t, "artists"@) {
        Option::None => Option::None,
        Option::Some(n) => if n >= 0 && (forall|j: int|
            0 <= j < n ==> array_string_of(t, "artists"@, j, "name"@) is Some) {
            Option::Some(Seq::new(n as nat, |j: int| array_string_of(t, "artists"@, j, "name"@)->0))
        } else {
            Option::None
        },
    }
}

/// The raw fields a track item's document text holds, each under its
/// wire name.
pub open spec fn raw_item_of(t: Seq<char>) -> RawTrackItemView {
    RawTrackItemView {
        title: string_field_of(t, "title"@),
        album_title: string_field2_of(t, "album"@, "title"@),
        cover_id: string_field2_of(t, "album"@, "cover"@),
        track_id: u64_field_of(t, "id"@),
        track_number: u64_field_of(t, "trackNumber"@),
        artist_name: string_field2_of(t, "artist"@, "name"@),
        artist_names: artist_names_of(t),
        audio_quality: string_field_of(t, "audioQuality"@),
    }
}

/// Reads the fields of one track item out of its document text.
/// `validate_track` decides what the collected fields mean.
pub fn collect_raw_track(item: &str) -> (r: RawTrackItem)
    ensures
        r@ == raw_item_of(item@),
{
    let raw = RawTrackItem {
        title: json_string_field(item, "title"),
        album_title: json_string_field2(item, "album", "title"),
        cover_id: json_string_field2(item, "album", "cover"),
        track_id: json_u64_field(item, "id"),
        track_number: json_u64_field(item, "trackNumber"),
        artist_name: json_string_field2(item, "artist", "name"),
        artist_names: collect_artist_names(item),
        audio_quality: json_string_field(item, "audioQuality"),
    };
    proof {
        assert(raw@ =~= raw_item_of(item@));
    }
    raw
}

/// Reads the artist-name list of a track item's document text; `None` as
/// soon as the list or any name in it is absent.
fn collect_artist_names(item: &str) -> (r: Option<Vec<String>>)
    ensures
        opt_strs_view(r) == artist_names_of(item@),
{
    let n: usize = match json_array_len(item, "artists") {
        Some(n) => n,
        None => {
            return None;
        },
    };
    let mut names: Vec<String> = Vec::new();
    let mut i: usize = 0;
    while i < n
        invariant
            array_len_of(item@, "artists"@) == Some(n as int),
            i <= n,
            names@.len() == i,
            forall|k: int|
                0 <= k < i ==> (#[trigger] array_string_of(item@, "artists"@, k, "name"@)) is Some
                    && names@[k]@ == array_string_of(item@, "artists"@, k, "name"@)->0,
        decreases n - i,
    {
        let name = match json_array_string_field(item, "artists", i, "name") {
            Some(s) => s,
            None => {
                return None;
            },
        };
        proof {
            assert(array_string_of(item@, "artists"@, i as int, "name"@) == Some(name@));
        }
        names.push(name);
        i = i + 1;
    }
    proof {
        assert(seq_views(names@) =~= Seq::new(
            n as nat,
            |j: int| array_string_of(item@, "artists"@, j, "name"@)->0,
        ));
    }
    Some(names)
}

/// The item count of an album or playlist page.
pub open spec fn page_len_of(p: Seq<char>) -> Option<int> {
    array_len_of(p, "items"@)
}

/// The document text of the page's `i`-th item, its wrapper unwrapped.
pub open spec fn page_item_text_of(p: Seq<char>, i: int) -> Option<Seq<char>> {
    array_object_text_of(p, "items"@, i, "item"@)
}

/// An item count capped at the page limit.
pub open spec fn capped(n: int) -> int {
    if n < PAGE_LIMIT {
        n
    } else {
        PAGE_LIMIT as int
    }
}

/// The page's `i`-th item unwraps to a track payload that validates.
pub open spec fn page_item_ok(p: Seq<char>, i: int) -> bool {
    page_item_text_of(p, i) is Some && track_complete(raw_item_of(page_item_text_of(p, i)->0))
}

/// A payload resolves for a kind: a track payload parses and its item
/// validates; a page payload parses, holds at least one item, and each
/// of its first `PAGE_LIMIT` items unwraps and validates.
pub open spec fn catalog_payload_ok(kind: UrlType, p: Seq<char>) -> bool {
    if kind is Track {
        json_parses(p) && track_complete(raw_item_of(p))
    } else {
        &&& json_parses(p)
        &&& page_len_of(p) matches Some(n) && n >= 1 && (forall|i: int|
            0 <= i < capped(n) ==> page_item_ok(p, i))
    }
}

/// The number of descriptors a resolving payload yields: one for a
/// track, the page's item count capped at the limit otherwise.
pub open spec fn resolved_count(kind: UrlType, p: Seq<char>) -> int {
    if kind is Track {
        1
    } else {
        capped(page_len_of(p)->0)
    }
}

/// The descriptor at position `i` of a resolving payload.
pub open spec fn resolved_track_at(kind: UrlType, p: Seq<char>, i: int) -> TrackInfoView {
    if kind is Track {
        validated_track(raw_item_of(p))
    } else {
        validated_track(raw_item_of(page_item_text_of(p, i)->0))
    }
}

/// The errors resolution may draw from a payload: for a track, exactly
/// the item's validation error (or malformed, for text that is no JSON);
/// for a page, malformed, or the validation error of some item in reach.
pub open spec fn resolution_error_ok(kind: UrlType, p: Seq<char>, e: ResolveErrorView) -> bool {
    if kind is Track {
        if !json_parses(p) {
            e == ResolveErrorView::Malformed
        } else {
            e == validation_error(raw_item_of(p))
        }
    } else {
        e == ResolveErrorView::Malformed || (page_len_of(p) matches Some(n) && exists|i: int|
            0 <= i < capped(n) && page_item_text_of(p, i) is Some && e == validation_error(
                raw_item_of(page_item_text_of(p, i)->0),
            ))
    }
}

/// Resolves the tracks of one catalog payload.  A track payload yields
/// exactly one descriptor; an album or playlist payload yields the items
/// of its single page in order, each unwrapped to its track payload, at
/// most `PAGE_LIMIT` of them and never none.  A single invalid item
/// fails the whole resolution.
pub fn tracks_from_payload(kind: &UrlType, payload: &str) -> (r: Result<
    Vec<TrackInfo>,
    ResolveError,
>)
    requires
        !(kind is Artist),
    ensures
        r is Ok <==> catalog_payload_ok(*kind, payload@),
        r matches Ok(ts) ==> {
            &&& ts@.len() == resolved_count(*kind, payload@)
            &&& 1 <= ts@.len() <= PAGE_LIMIT
            &&& forall|i: int|
                0 <= i < ts@.len() ==> (#[trigger] ts@[i])@ == resolved_track_at(
                    *kind,
                    payload@,
                    i,
                )
        },
        kind is Track ==> (r matches Ok(ts) ==> ts@.len() == 1),
        r matches Err(e) ==> resolution_error_ok(*kind, payload@, e@),
{
    if !json_doc_ok(payload) {
        return Err(ResolveError::MalformedResponse);
    }
    match kind {
        UrlType::Track => {
            let raw = collect_raw_track(payload);
            match validate_track(raw) {
                Ok(t) => {
                    let mut out: Vec<TrackInfo> = Vec::new();
                    out.push(t);
                    proof {
                        assert(out@[0] == t);
                    }
                    Ok(out)
                },
                Err(e) => Err(e),
            }
        },
        _ => {
            let n: usize = match json_array_len(payload, "items") {
                Some(n) => n,
                None => {
                    return Err(ResolveError::MalformedResponse);
                },
            };
            if n == 0 {
                return Err(ResolveError::MalformedResponse);
            }
            let m: usize = if n < PAGE_LIMIT {
                n
            } else {
                PAGE_LIMIT
            };
            let mut out: Vec<TrackInfo> = Vec::new();
            let mut i: usize = 0;
            while i < m
                invariant
                    !(kind is Artist),
                    !(kind is Track),
                    json_parses(payload@),
                    page_len_of(payload@) == Some(n as int),
                    1 <= n,
                    m == capped(n as int),
                    i <= m,
                    out@.len() == i,
                    forall|k: int|
                        0 <= k < i ==> #[trigger] page_item_ok(payload@, k) && out@[k]@
                            == resolved_track_at(*kind, payload@, k),
                decreases m - i,
            {
                let item_text = match json_array_object_text(payload, "items", i, "item") {
                    Some(t) => t,
                    None => {
                        proof {
                            assert(!page_item_ok(payload@, i as int));
                        }
                        return Err(ResolveError::MalformedResponse);
                    },
                };
                let raw = collect_raw_track(item_text.as_str());
                proof {
                    assert(page_item_text_of(payload@, i as int) == Some(item_text@));
                    assert(raw@ == raw_item_of(item_text@));
                }
                match validate_track(raw) {
                    Ok(t) => {
                        out.push(t);
                        proof {
                            assert(out@[i as int] == t);
                            assert(t@ == validated_track(raw_item_of(
                                page_item_text_of(payload@, i as int)->0,
                            )));
                            assert(page_item_ok(payload@, i as int));
                        }
                    },
                    Err(e) => {
                        proof {
                            assert(!page_item_ok(payload@, i as int));
                            assert(page_item_text_of(payload@, i as int) is Some
                                && e@ == validation_error(
                                raw_item_of(page_item_text_of(payload@, i as int)->0),
                            ));
                        }
                        return Err(e);
                    },
                }
                i = i + 1;
            }
            proof {
                assert forall|j: int|
                    0 <= j < out@.len() implies (#[trigger] out@[j])@ == resolved_track_at(
                    *kind,
                    payload@,
                    j,
                ) by {
                    assert(page_item_ok(payload@, j));
                }
            }
            Ok(out)
        },
    }
}

/// Reads the display title of a playlist payload: the payload's `title`
/// string, a malformed response for text that is no JSON, and a missing
/// field named `title` otherwise.
pub fn playlist_title_from_payload(payload: &str) -> (r: Result<String, ResolveError>)
    ensures
        r is Ok <==> (json_parses(payload@) && string_field_of(payload@, "title"@) is Some),
        r matches Ok(s) ==> Some(s@) == string_field_of(payload@, "title"@),
        r matches Err(e) ==> e@ == (if !json_parses(payload@) {
            ResolveErrorView::Malformed
        } else {
            ResolveErrorView::Missing("title"@)
        }),
{
    if !json_doc_ok(payload) {
        return Err(ResolveError::MalformedResponse);
    }
    match json_string_field(payload, "title") {
        Some(s) => Ok(s),
        None => Err(ResolveError::MissingField(String::from_str("title"))),
    }
}

/// The directory of a resolved batch: under the download root, playlists
/// go by their display title, everything else by the first resolved
/// track's artist and album.
pub open spec fn spec_destination(
    base: Seq<char>,
    kind: UrlType,
    playlist_title: Seq<char>,
    first: TrackInfo,
) -> Seq<char> {
    if kind is Playlist {
        base + "Playlist/"@ + playlist_title
    } else {
        base + "Album/"@ + first.artist@ + "/"@ + first.album@
    }
}

/// Resolves one catalog payload into its ordered track descriptors and
/// the directory they are written under.  A track id yields exactly one
/// descriptor, a page at most `PAGE_LIMIT`, and the destination is named
/// from exactly the first descriptor — or, for a playlist, its title.
pub fn resolve_catalog(base: &str, kind: &UrlType, payload: &str, playlist_title: &str) -> (r:
    Result<(Vec<TrackInfo>, String), ResolveError>)
    requires
        !(kind is Artist),
    ensures
        r is Ok <==> catalog_payload_ok(*kind, payload@),
        r matches Ok(p) ==> {
            &&& p.0@.len() == resolved_count(*kind, payload@)
            &&& 1 <= p.0@.len() <= PAGE_LIMIT
            &&& forall|i: int|
                0 <= i < p.0@.len() ==> (#[trigger] p.0@[i])@ == resolved_track_at(
                    *kind,
                    payload@,
                    i,
                )
            &&& p.1@ == spec_destination(base@, *kind, playlist_title@, p.0@[0])
        },
        kind is Track ==> (r matches Ok(p) ==> p.0@.len() == 1),
        r matches Err(e) ==> resolution_error_ok(*kind, payload@, e@),
{
    let tracks = match tracks_from_payload(kind, payload) {
        Ok(ts) => ts,
        Err(e) => {
            return Err(e);
        },
    };
    let plan = destination_plan(base, kind, playlist_title, &tracks[0]);
    Ok((tracks, plan))
}

/// Plans the destination directory of a batch from exactly its first
/// resolved descriptor (or, for a playlist, the playlist's title).
pub fn destination_plan(base: &str, kind: &UrlType, playlist_title: &str, first: &TrackInfo) -> (r:
    String)
    ensures
        r@ == spec_destination(base@, *kind, playlist_title@, *first),
{
    let mut out = String::from_str(base);
    match kind {
        UrlType::Playlist => {
            out.append("Playlist/");
            out.append(playlist_title);
        },
        _ => {
            out.append("Album/");
            out.append(first.artist.as_str());
            out.append("/");
            out.append(first.album.as_str());
        },
    }
    out
}

} // verus!
