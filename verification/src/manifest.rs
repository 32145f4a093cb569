//! Manifest decoding: the playback endpoint wraps the stream location of
//! a track in an opaque, base64-encoded JSON blob.  Decoding unwraps the
//! escape characters, decodes the base64 text into UTF-8, and takes the
//! first entry of the document's `urls` array; the container extension is
//! chosen from the track's quality string.  Any shape deviation is a
//! decode failure, never a panic.

use vstd::prelude::*;
use vstd::string::StringExecFns;

use crate::catalog::TrackInfo;
use crate::json::json_string_field;
use crate::json::string_field_of;
use crate::strutil::contains_substr;
use crate::strutil::remove_non_alphanumeric;
use crate::strutil::seq_contains;
use crate::strutil::strip_wrapping;

verus! {

/// Failures of manifest decoding.
#[derive(Debug, Clone, Copy, PartialEq, Eq, Structural)]
pub enum ManifestError {
    EndpointUnreachable,
    DecodeFailure,
    NoStreamUrl,
}

/// The stream location of exactly one track, with the file extension its
/// container calls for.
#[derive(Debug, Clone, PartialEq, Eq)]
pub struct ResolvedStream {
    pub url: String,
    pub extension: String,
}

/// What base64 decoding of the standard alphabet yields for a given text:
/// the bytes, or nothing for text that is not valid base64.  The result
/// depends on the text alone.
pub uninterp spec fn base64_decoded(s: Seq<char>) -> Option<Seq<u8>>;

/// Relies on base64's `Engine::decode` with the `BASE64_STANDARD` engine:
/// decodes standard-alphabet, padded base64 text.
#[verifier::external_body]
fn b64_decode(text: &str) -> (r: Option<Vec<u8>>)
    ensures
        r is Some <==> base64_decoded(text@) is Some,
        r matches Some(v) ==> base64_decoded(text@) == Some(v@),
{
    base64::Engine::decode(&base64::prelude::BASE64_STANDARD, text).ok()
}

/// What UTF-8 decoding yields for given bytes: the characters, or nothing
/// for bytes that are not valid UTF-8.  The result depends on the bytes
/// alone.
pub uninterp spec fn utf8_decoded(b: Seq<u8>) -> Option<Seq<char>>;

/// Relies on `String::from_utf8`: decodes bytes as UTF-8, or fails.
#[verifier::external_body]
fn utf8_to_string(bytes: Vec<u8>) -> (r: Option<String>)
    ensures
        r is Some <==> utf8_decoded(bytes@) is Some,
        r matches Some(s) ==> utf8_decoded(bytes@) == Some(s@),
{
    String::from_utf8(bytes).ok()
}

/// What the manifest document holds: `None` for text that is not a JSON
/// document; otherwise the first entry of its `urls` array, or `None`
/// inside when that array is absent, empty, or does not start with a
/// string.  The result depends on the document text alone.
pub uninterp spec fn manifest_url_of(doc: Seq<char>) -> Option<Option<Seq<char>>>;

/// Relies on serde_json — `from_str`, `Value::get`, `Value::as_array` and
/// `Value::as_str` — to read the first entry of the manifest document's
/// `urls` array.
#[verifier::external_body]
fn manifest_first_url(doc: &str) -> (r: Option<Option<String>>)
    ensures
        match r {
            None => manifest_url_of(doc@) is None,
            Some(u) => match u {
                None => manifest_url_of(doc@) == Some(Option::<Seq<char>>::None),
                Some(s) => manifest_url_of(doc@) == Some(Some(s@)),
            },
        },
{
    let doc_val: serde_json::Value = match serde_json::from_str(doc) {
        Ok(v) => v,
        Err(_) => return None,
    };
    let first = doc_val
        .get("urls")
        .and_then(|u| u.as_array())
        .and_then(|a| a.first())
        .and_then(|v| v.as_str());
    Some(first.map(|s| s.to_string()))
}

/// The extension the quality string calls for: the lossy-format marker
/// maps to the MP4 container, anything else to FLAC.
pub open spec fn ext_of(quality: Seq<char>) -> Seq<char> {
    if seq_contains(quality, "HIGH"@) {
        ".mp4"@
    } else {
        ".flac"@
    }
}

/// Chooses the container extension for a quality string: `.mp4` exactly
/// when the string carries the lossy-format marker, `.flac` otherwise.
pub fn choose_extension(quality: &str) -> (r: String)
    ensures
        r@ == ext_of(quality@),
{
    if contains_substr(quality, "HIGH") {
        String::from_str(".mp4")
    } else {
        String::from_str(".flac")
    }
}

/// The decoding of one manifest blob, step by step: strip the escape
/// wrapping, decode the base64 text, decode the bytes as UTF-8, and take
/// the first stream URL of the document; the extension comes from the
/// quality string.  Every step is a function of the blob alone.
pub open spec fn spec_decode_manifest(m: Seq<char>, quality: Seq<char>) -> Result<
    (Seq<char>, Seq<char>),
    ManifestError,
> {
    match base64_decoded(strip_wrapping(m)) {
        None => Err(ManifestError::DecodeFailure),
        Some(bytes) => match utf8_decoded(bytes) {
            None => Err(ManifestError::DecodeFailure),
            Some(text) => match manifest_url_of(text) {
                None => Err(ManifestError::DecodeFailure),
                Some(None) => Err(ManifestError::NoStreamUrl),
                Some(Some(u)) => Ok((u, ext_of(quality))),
            },
        },
    }
}

/// Decodes one manifest blob into its stream location.  Fails with
/// `DecodeFailure` when the base64, UTF-8 or JSON layer rejects the blob,
/// and with `NoStreamUrl` when the document holds no stream URL.
pub fn decode_manifest(manifest: &str, quality: &str) -> (r: Result<ResolvedStream, ManifestError>)
    ensures
        match r {
            Ok(rs) => spec_decode_manifest(manifest@, quality@) == Ok::<
                (Seq<char>, Seq<char>),
                ManifestError,
            >((rs.url@, rs.extension@)),
            Err(e) => spec_decode_manifest(manifest@, quality@) == Err::<
                (Seq<char>, Seq<char>),
                ManifestError,
            >(e),
        },
{
    let cleaned = remove_non_alphanumeric(String::from_str(manifest));
    let bytes = match b64_decode(cleaned.as_str()) {
        Some(b) => b,
        None => {
            return Err(ManifestError::DecodeFailure);
        },
    };
    let text = match utf8_to_string(bytes) {
        Some(t) => t,
        None => {
            return Err(ManifestError::DecodeFailure);
        },
    };
    match manifest_first_url(text.as_str()) {
        None => Err(ManifestError::DecodeFailure),
        Some(None) => Err(ManifestError::NoStreamUrl),
        Some(Some(url)) => Ok(ResolvedStream { url, extension: choose_extension(quality) }),
    }
}

/// Law: manifest decoding is a function of the blob and the quality
/// string alone, so decoding the same blob twice yields the same stream
/// URL and the same container hint.
pub proof fn lemma_decode_manifest_deterministic(
    m: Seq<char>,
    quality: Seq<char>,
    r1: Result<(Seq<char>, Seq<char>), ManifestError>,
    r2: Result<(Seq<char>, Seq<char>), ManifestError>,
)
    requires
        r1 == spec_decode_manifest(m, quality),
        r2 == spec_decode_manifest(m, quality),
    ensures
        r1 == r2,
{
}

/// Reads the opaque manifest blob out of one playback-info payload: the
/// payload's `manifest` string.  Any shape deviation is a decode failure.
pub fn manifest_from_payload(payload: &str) -> (r: Result<String, ManifestError>)
    ensures
        r is Ok <==> string_field_of(payload@, "manifest"@) is Some,
        r matches Ok(s) ==> Some(s@) == string_field_of(payload@, "manifest"@),
        r matches Err(e) ==> e == ManifestError::DecodeFailure,
{
    match json_string_field(payload, "manifest") {
        Some(s) => Ok(s),
        None => Err(ManifestError::DecodeFailure),
    }
}

/// The file name of one track: artist, a dash, the title, and the
/// extension its quality string calls for.
pub open spec fn spec_file_name(t: TrackInfo) -> Seq<char> {
    t.artist@ + " - "@ + t.title@ + ext_of(t.audio_quality@)
}

/// Names the file a track is written to.
pub fn track_file_name(t: &TrackInfo) -> (r: String)
    ensures
        r@ == spec_file_name(*t),
{
    let mut out = String::from_str(t.artist.as_str());
    out.append(" - ");
    out.append(t.title.as_str());
    let ext = choose_extension(t.audio_quality.as_str());
    out.append(ext.as_str());
    out
}

} // verus!
