use base64::Engine;

use tdl_core::catalog::UrlType;
use tdl_core::catalog::destination_plan;
use tdl_core::catalog::tracks_from_payload;
use tdl_core::engine::DownloadError;
use tdl_core::engine::JobEvents;
use tdl_core::engine::JobOutcome;
use tdl_core::engine::TransferOutcome;
use tdl_core::engine::effective_concurrency;
use tdl_core::engine::job_file_path;
use tdl_core::engine::make_job;
use tdl_core::engine::next_progress;
use tdl_core::engine::run_batch;
use tdl_core::engine::settle_job;
use tdl_core::engine::should_transfer;
use tdl_core::manifest::decode_manifest;
use tdl_core::tagger::TagError;
use tdl_core::tagger::TagSlot;
use tdl_core::tagger::build_tag_plan;
use tdl_core::tagger::choose_tag_slot;
use tdl_core::tagger::cover_art_url;

fn delivered() -> JobEvents {
    JobEvents { file_exists: false, transfer: TransferOutcome::Delivered, tag_failure: None }
}

#[test]
fn tagger_runs_once_per_successful_transfer() {
    let events = vec![
        delivered(),
        JobEvents { file_exists: false, transfer: TransferOutcome::Failed, tag_failure: None },
        JobEvents { file_exists: true, transfer: TransferOutcome::Delivered, tag_failure: None },
        delivered(),
        JobEvents { file_exists: false, transfer: TransferOutcome::NoLength, tag_failure: None },
    ];
    let results = run_batch(true, &events);
    let tagged = results.iter().filter(|r| matches!(r, JobOutcome::Completed { .. })).count();
    let successes = events
        .iter()
        .filter(|e| !(true && e.file_exists) && matches!(e.transfer, TransferOutcome::Delivered))
        .count();
    assert_eq!(tagged, successes);
    assert_eq!(tagged, 2);
}

#[test]
fn partial_failure_leaves_siblings_alone() {
    let events = vec![
        delivered(),
        JobEvents { file_exists: false, transfer: TransferOutcome::Failed, tag_failure: None },
        delivered(),
    ];
    let results = run_batch(false, &events);
    assert_eq!(results.len(), 3);
    assert!(matches!(results[0], JobOutcome::Completed { tag_failure: None }));
    assert_eq!(results[1], JobOutcome::Failed(DownloadError::TransferFailed));
    assert!(matches!(results[2], JobOutcome::Completed { tag_failure: None }));
    let failures = results.iter().filter(|r| matches!(r, JobOutcome::Failed(_))).count();
    assert_eq!(failures, 1);
}

#[test]
fn existing_file_is_skipped_without_transfer_or_tagging() {
    let ev = JobEvents { file_exists: true, transfer: TransferOutcome::Delivered, tag_failure: None };
    assert_eq!(settle_job(true, &ev), JobOutcome::Skipped);
    assert!(!should_transfer(true, true));
    assert!(should_transfer(false, true));
    assert!(should_transfer(true, false));
}

#[test]
fn missing_content_length_fails_the_job() {
    let ev = JobEvents { file_exists: false, transfer: TransferOutcome::NoLength, tag_failure: None };
    assert_eq!(settle_job(true, &ev), JobOutcome::Failed(DownloadError::NoContentLength));
}

#[test]
fn tag_failure_is_recorded_beside_a_successful_transfer() {
    let ev = JobEvents {
        file_exists: false,
        transfer: TransferOutcome::Delivered,
        tag_failure: Some(TagError::WriteFailed),
    };
    assert_eq!(
        settle_job(false, &ev),
        JobOutcome::Completed { tag_failure: Some(TagError::WriteFailed) }
    );
}

#[test]
fn progress_accumulates_and_clamps() {
    assert_eq!(next_progress(0, 100, 1000), 100);
    assert_eq!(next_progress(950, 100, 1000), 1000);
    assert_eq!(next_progress(1000, 100, 1000), 1000);
}

#[test]
fn concurrency_is_capped_by_the_batch() {
    assert_eq!(effective_concurrency(3, 8), 3);
    assert_eq!(effective_concurrency(20, 8), 8);
    assert_eq!(effective_concurrency(0, 8), 0);
}

#[test]
fn tag_slot_preference_order() {
    assert_eq!(choose_tag_slot(true, true), TagSlot::Primary);
    assert_eq!(choose_tag_slot(true, false), TagSlot::Primary);
    assert_eq!(choose_tag_slot(false, true), TagSlot::FirstExisting);
    assert_eq!(choose_tag_slot(false, false), TagSlot::Fresh);
}

#[test]
fn cover_url_has_the_fixed_shape() {
    assert_eq!(
        cover_art_url("aa/bb/cc"),
        "https://resources.tidal.com/images/aa/bb/cc/1280x1280.jpg"
    );
}

fn track_json(title: &str, artist: &str) -> String {
    format!(
        "{{\"album\":{{\"cover\":\"aa-bb-cc\",\"title\":\"Alb\"}},\"title\":\"{}\",\"id\":7,\"trackNumber\":2,\"artist\":{{\"name\":\"{}\"}},\"artists\":[{{\"name\":\"{}\"}}],\"audioQuality\":\"LOSSLESS\"}}",
        title, artist, artist
    )
}

#[test]
fn playlist_of_two_tracks_end_to_end() {
    // Resolution: a playlist page of two tracks titled A and B by artist X.
    let payload = format!(
        "{{\"items\":[{{\"item\":{}}},{{\"item\":{}}}]}}",
        track_json("A", "X"),
        track_json("B", "X")
    );
    let tracks = tracks_from_payload(&UrlType::Playlist, &payload).expect("payload must resolve");
    assert_eq!(tracks.len(), 2);

    // Destination: the playlist's display title, not the tracks' album.
    let dest = destination_plan("", &UrlType::Playlist, "Mix", &tracks[0]);
    assert_eq!(dest, "Playlist/Mix");

    // Each track's manifest resolves to its stream.
    let blob_a = base64::prelude::BASE64_STANDARD.encode("{\"urls\":[\"https://cdn/a\"]}");
    let blob_b = base64::prelude::BASE64_STANDARD.encode("{\"urls\":[\"https://cdn/b\"]}");
    let stream_a = decode_manifest(&blob_a, &tracks[0].audio_quality).expect("must decode");
    let stream_b = decode_manifest(&blob_b, &tracks[1].audio_quality).expect("must decode");
    assert_eq!(stream_a.url, "https://cdn/a");
    assert_eq!(stream_b.url, "https://cdn/b");

    // Jobs land under the destination, named by artist and title.
    let job_a = make_job(tracks[0].clone(), stream_a, &dest);
    let job_b = make_job(tracks[1].clone(), stream_b, &dest);
    assert_eq!(job_a.dest_path, "Playlist/Mix/X - A.flac");
    assert_eq!(job_b.dest_path, "Playlist/Mix/X - B.flac");
    assert_eq!(job_file_path(&dest, &tracks[0]), job_a.dest_path);

    // Both transfers deliver; both jobs complete and are tagged.
    let events = vec![delivered(), delivered()];
    let results = run_batch(true, &events);
    assert!(results.iter().all(|r| matches!(r, JobOutcome::Completed { tag_failure: None })));

    // The embedded tags carry each title, the artist, and a cover source.
    let plan_a = build_tag_plan(&job_a.track);
    let plan_b = build_tag_plan(&job_b.track);
    assert_eq!(plan_a.title, "A");
    assert_eq!(plan_b.title, "B");
    assert_eq!(plan_a.artist_text, "X");
    assert_eq!(plan_b.artist_text, "X");
    assert_eq!(plan_a.album, "Alb");
    assert!(!plan_a.cover_url.is_empty());
    assert_eq!(
        plan_a.cover_url,
        "https://resources.tidal.com/images/aa/bb/cc/1280x1280.jpg"
    );
}
