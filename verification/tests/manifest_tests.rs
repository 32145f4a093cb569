use base64::Engine;

use tdl_core::manifest::ManifestError;
use tdl_core::manifest::choose_extension;
use tdl_core::manifest::decode_manifest;
use tdl_core::manifest::manifest_from_payload;
use tdl_core::manifest::track_file_name;
use tdl_core::catalog::RawTrackItem;
use tdl_core::catalog::validate_track;

fn b64(data: &str) -> String {
    base64::prelude::BASE64_STANDARD.encode(data.as_bytes())
}

#[test]
fn manifest_decodes_to_its_first_url() {
    let blob = b64("{\"mimeType\":\"audio/flac\",\"urls\":[\"https://example.com/s/1\",\"https://example.com/s/2\"]}");
    let rs = decode_manifest(&blob, "LOSSLESS").expect("manifest must decode");
    assert_eq!(rs.url, "https://example.com/s/1");
    assert_eq!(rs.extension, ".flac");
}

#[test]
fn manifest_decoding_is_idempotent() {
    let blob = b64("{\"urls\":[\"https://example.com/s/9\"]}");
    let first = decode_manifest(&blob, "HIGH").expect("manifest must decode");
    let second = decode_manifest(&blob, "HIGH").expect("manifest must decode");
    assert_eq!(first.url, second.url);
    assert_eq!(first.extension, second.extension);
}

#[test]
fn manifest_strips_wrapping_before_decoding() {
    let wrapped = format!("\"{}\"", b64("{\"urls\":[\"https://example.com/s/3\"]}"));
    let rs = decode_manifest(&wrapped, "LOSSLESS").expect("manifest must decode");
    assert_eq!(rs.url, "https://example.com/s/3");
}

#[test]
fn invalid_base64_is_a_decode_failure() {
    assert_eq!(
        decode_manifest("!!!not-base64!!!", "LOSSLESS"),
        Err(ManifestError::DecodeFailure)
    );
}

#[test]
fn invalid_utf8_is_a_decode_failure() {
    let blob = base64::prelude::BASE64_STANDARD.encode([0xffu8, 0xfe, 0xfd]);
    assert_eq!(decode_manifest(&blob, "LOSSLESS"), Err(ManifestError::DecodeFailure));
}

#[test]
fn non_json_document_is_a_decode_failure() {
    let blob = b64("not a document");
    assert_eq!(decode_manifest(&blob, "LOSSLESS"), Err(ManifestError::DecodeFailure));
}

#[test]
fn missing_urls_is_no_stream_url() {
    let blob = b64("{\"mimeType\":\"audio/flac\"}");
    assert_eq!(decode_manifest(&blob, "LOSSLESS"), Err(ManifestError::NoStreamUrl));
}

#[test]
fn empty_urls_is_no_stream_url() {
    let blob = b64("{\"urls\":[]}");
    assert_eq!(decode_manifest(&blob, "LOSSLESS"), Err(ManifestError::NoStreamUrl));
}

#[test]
fn lossy_marker_maps_to_mp4() {
    assert_eq!(choose_extension("HIGH"), ".mp4");
    assert_eq!(choose_extension("HI_RES_HIGH"), ".mp4");
}

#[test]
fn other_qualities_map_to_flac() {
    assert_eq!(choose_extension("LOSSLESS"), ".flac");
    assert_eq!(choose_extension(""), ".flac");
    assert_eq!(choose_extension("MASTER"), ".flac");
}

#[test]
fn marker_is_found_only_as_a_whole() {
    assert_eq!(choose_extension("HIG"), ".flac");
    assert_eq!(choose_extension("HIGH_AT_START"), ".mp4");
    assert_eq!(choose_extension("ENDS_WITH_HIGH"), ".mp4");
}

#[test]
fn file_name_carries_artist_title_and_extension() {
    let raw = RawTrackItem {
        title: Some("Song".to_string()),
        album_title: Some("Alb".to_string()),
        cover_id: Some("aa-bb".to_string()),
        track_id: Some(1),
        track_number: Some(1),
        artist_name: Some("Band".to_string()),
        artist_names: Some(vec!["Band".to_string()]),
        audio_quality: Some("HIGH".to_string()),
    };
    let t = validate_track(raw).expect("complete item must validate");
    assert_eq!(track_file_name(&t), "Band - Song.mp4");
}

#[test]
fn playback_payload_yields_its_manifest_field() {
    assert_eq!(
        manifest_from_payload("{\"manifest\":\"QUJD\"}"),
        Ok("QUJD".to_string())
    );
    assert_eq!(
        manifest_from_payload("{\"other\":1}"),
        Err(ManifestError::DecodeFailure)
    );
    assert_eq!(
        manifest_from_payload("no json"),
        Err(ManifestError::DecodeFailure)
    );
}
