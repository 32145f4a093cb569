//! Tag planning: what gets embedded into a downloaded file, and where.
//! The application performs the probe, the cover fetch and the save; the
//! choices — which tag block to write, which URL the cover comes from,
//! and which fields carry which descriptor values — are made here.

use vstd::prelude::*;
use vstd::string::StringExecFns;

use crate::catalog::TrackInfo;

verus! {

/// Failures of tag embedding.  None aborts the batch; the engine records
/// the failure beside an otherwise successful transfer.
#[derive(Debug, Clone, Copy, PartialEq, Eq, Structural)]
pub enum TagError {
    UnsupportedFormat,
    CoverFetchFailed,
    WriteFailed,
}

/// Which tag block of the probed file receives the metadata.
#[derive(Debug, Clone, Copy, PartialEq, Eq, Structural)]
pub enum TagSlot {
    /// The file's primary tag.
    Primary,
    /// The first tag of any kind the file already carries.
    FirstExisting,
    /// A newly created tag of the format's native type.
    Fresh,
}

/// Picks the tag block to write: the primary tag when the file has one,
/// else the first existing tag of any kind, else a fresh tag.
pub fn choose_tag_slot(has_primary: bool, has_first: bool) -> (r: TagSlot)
    ensures
        r == (if has_primary {
            TagSlot::Primary
        } else if has_first {
            TagSlot::FirstExisting
        } else {
            TagSlot::Fresh
        }),
{
    if has_primary {
        TagSlot::Primary
    } else if has_first {
        TagSlot::FirstExisting
    } else {
        TagSlot::Fresh
    }
}

/// The cover-art location for a cover identifier whose segments are
/// already separated by slashes: a fixed-shape image URL at the fixed
/// large resolution.
pub open spec fn spec_cover_url(cover_id: Seq<char>) -> Seq<char> {
    "https://resources.tidal.com/images/"@ + cover_id + "/1280x1280.jpg"@
}

/// Builds the cover-art URL of a track's cover identifier.
pub fn cover_art_url(cover_id: &str) -> (r: String)
    ensures
        r@ == spec_cover_url(cover_id@),
{
    let mut out = String::from_str("https://resources.tidal.com/images/");
    out.append(cover_id);
    out.append("/1280x1280.jpg");
    out
}

/// Everything the tag writer embeds: the text fields straight from the
/// descriptor, and the cover image fetched from the descriptor's cover
/// URL, embedded as the front cover.
#[derive(Debug, Clone)]
pub struct TagPlan {
    pub title: String,
    pub artist_text: String,
    pub album: String,
    pub track_number: u32,
    pub cover_url: String,
}

/// Plans the tag of one track: title, the joined artist list, album and
/// track number are taken from the descriptor unchanged, and the cover
/// comes from the descriptor's cover identifier.
pub fn build_tag_plan(t: &TrackInfo) -> (r: TagPlan)
    ensures
        r.title == t.title,
        r.artist_text == t.artists,
        r.album == t.album,
        r.track_number == t.track_number,
        r.cover_url@ == spec_cover_url(t.cover_id@),
{
    TagPlan {
        title: t.title.clone(),
        artist_text: t.artists.clone(),
        album: t.album.clone(),
        track_number: t.track_number,
        cover_url: cover_art_url(t.cover_id.as_str()),
    }
}

} // verus!
