use pot::advance::{AdvanceOutcome, AdvanceStep, MediaSupplier, ScriptedSupplier, SkipOutcome};
use pot::item::{media_cache_path, stamp_backend, PlaylistItem, YOUTUBE_DL_BACKEND};
use pot::pot::SystemPlaylist;

fn item(id: &str) -> PlaylistItem {
    PlaylistItem {
        id: id.to_string(),
        title: format!("title of {id}"),
        original_url: format!("https://example.com/{id}"),
        extractor: "youtube".to_string(),
        thumbnail: None,
        duration: None,
        playlist_id: None,
        webpage_url: None,
        is_live: None,
        was_live: None,
        backend: None,
    }
}

fn supplier_failing(ids: &[&str]) -> ScriptedSupplier {
    ScriptedSupplier { fail_ids: ids.iter().map(|s| s.to_string()).collect() }
}

#[test]
fn advance_starts_the_first_item_when_it_materializes() {
    let mut s = SystemPlaylist::new();
    s.add(1, true, vec![item("a"), item("b")]).unwrap();
    let sup = supplier_failing(&[]);
    let (outcome, failures) = s.advance(1, &sup);
    match outcome {
        AdvanceOutcome::Started(it, handle) => {
            assert_eq!(it.id, "a");
            assert_eq!(handle.path, "data/cache/media/youtube/a");
        }
        AdvanceOutcome::QueueFinished => panic!("expected a start"),
    }
    assert!(failures.is_empty());
    assert!(s.is_playing(1));
}

#[test]
fn advance_skips_k_failures_then_starts_item_k_plus_one() {
    // Five items; the first three fail materialization, the fourth plays.
    let mut s = SystemPlaylist::new();
    s.add(
        1,
        true,
        vec![item("a"), item("b"), item("c"), item("d"), item("e")],
    )
    .unwrap();
    let sup = supplier_failing(&["a", "b", "c"]);
    let (outcome, failures) = s.advance(1, &sup);
    let failed_ids: Vec<&str> = failures.iter().map(|f| f.id.as_str()).collect();
    assert_eq!(failed_ids, ["a", "b", "c"]);
    match outcome {
        AdvanceOutcome::Started(it, _) => assert_eq!(it.id, "d"),
        AdvanceOutcome::QueueFinished => panic!("expected a start"),
    }
    assert!(s.is_playing(1));
    // The queue holds exactly the one item behind the started one.
    assert_eq!(s.consume(1).unwrap().id, "e");
    assert!(s.consume(1).is_none());
}

#[test]
fn advance_on_all_failing_queue_finishes_with_n_notices() {
    let mut s = SystemPlaylist::new();
    s.add(1, true, vec![item("a"), item("b"), item("c")]).unwrap();
    let sup = supplier_failing(&["a", "b", "c"]);
    let (outcome, failures) = s.advance(1, &sup);
    assert!(matches!(outcome, AdvanceOutcome::QueueFinished));
    assert_eq!(failures.len(), 3);
    assert!(!s.is_playing(1));
    assert!(s.consume(1).is_none());
}

#[test]
fn advance_on_empty_tenant_finishes_and_stops_playing() {
    let mut s = SystemPlaylist::new();
    s.set_status(1, true);
    let sup = supplier_failing(&[]);
    let (outcome, failures) = s.advance(1, &sup);
    assert!(matches!(outcome, AdvanceOutcome::QueueFinished));
    assert!(failures.is_empty());
    assert!(!s.is_playing(1));
}

#[test]
fn skip_while_playing_moves_to_the_next_item() {
    let mut s = SystemPlaylist::new();
    s.add(1, true, vec![item("a"), item("b")]).unwrap();
    let sup = supplier_failing(&[]);
    s.advance(1, &sup);
    let (outcome, failures) = s.skip(1, &sup);
    match outcome {
        SkipOutcome::Skipped(it, _) => assert_eq!(it.id, "b"),
        _ => panic!("expected a skip to the next item"),
    }
    assert!(failures.is_empty());
    assert!(s.is_playing(1));
}

#[test]
fn skip_while_playing_with_empty_queue_ends_the_queue() {
    let mut s = SystemPlaylist::new();
    s.add(1, true, vec![item("a")]).unwrap();
    let sup = supplier_failing(&[]);
    s.advance(1, &sup);
    let (outcome, _) = s.skip(1, &sup);
    assert!(matches!(outcome, SkipOutcome::QueueEnded));
    assert!(!s.is_playing(1));
}

#[test]
fn skip_while_not_playing_reports_nothing_and_touches_nothing() {
    let mut s = SystemPlaylist::new();
    s.add(1, true, vec![item("a")]).unwrap();
    let sup = supplier_failing(&[]);
    let (outcome, failures) = s.skip(1, &sup);
    assert!(matches!(outcome, SkipOutcome::NothingToPlay));
    assert!(failures.is_empty());
    assert!(!s.is_playing(1));
    // The queue is untouched.
    assert_eq!(s.consume(1).unwrap().id, "a");
}

#[test]
fn playback_session_runs_a_b_skip_c_to_the_end() {
    // Enqueue [a, b, c], all playable: the first advance starts a, the
    // completion-triggered advance starts b, a skip starts c, and the
    // next completion finds the queue finished.
    let mut s = SystemPlaylist::new();
    s.add(1, true, vec![item("a"), item("b"), item("c")]).unwrap();
    let sup = supplier_failing(&[]);

    let (first, _) = s.advance(1, &sup);
    match first {
        AdvanceOutcome::Started(it, _) => assert_eq!(it.id, "a"),
        _ => panic!("expected a to start"),
    }

    let (on_end, _) = s.advance(1, &sup);
    match on_end {
        AdvanceOutcome::Started(it, _) => assert_eq!(it.id, "b"),
        _ => panic!("expected b to start"),
    }

    let (skipped, _) = s.skip(1, &sup);
    match skipped {
        SkipOutcome::Skipped(it, _) => assert_eq!(it.id, "c"),
        _ => panic!("expected a skip to c"),
    }

    let (done, _) = s.advance(1, &sup);
    assert!(matches!(done, AdvanceOutcome::QueueFinished));
    assert!(!s.is_playing(1));
}

#[test]
fn single_failing_item_finishes_after_one_notice() {
    let mut s = SystemPlaylist::new();
    s.add(1, true, vec![item("x")]).unwrap();
    let sup = supplier_failing(&["x"]);
    let (outcome, failures) = s.advance(1, &sup);
    assert!(matches!(outcome, AdvanceOutcome::QueueFinished));
    assert_eq!(failures.len(), 1);
    assert_eq!(failures[0].id, "x");
    assert!(!s.is_playing(1));
}

#[test]
fn advance_step_hands_out_the_head_and_flips_the_flag() {
    let mut s = SystemPlaylist::new();
    s.add(1, true, vec![item("a")]).unwrap();
    match s.advance_step(1) {
        AdvanceStep::Attempt(it) => assert_eq!(it.id, "a"),
        AdvanceStep::Finished => panic!("expected an attempt"),
    }
    assert!(s.is_playing(1));
    match s.advance_step(1) {
        AdvanceStep::Finished => {}
        AdvanceStep::Attempt(_) => panic!("expected the end of the queue"),
    }
    assert!(!s.is_playing(1));
}

#[test]
fn media_cache_path_is_extractor_slash_id() {
    let mut it = item("dQw4w9WgXcQ");
    it.extractor = "youtube".to_string();
    assert_eq!(media_cache_path(&it), "data/cache/media/youtube/dQw4w9WgXcQ");
}

#[test]
fn scripted_supplier_honors_the_cache_path() {
    let sup = supplier_failing(&["bad"]);
    assert!(sup.materialize(&item("bad")).is_err());
    let handle = sup.materialize(&item("good")).unwrap();
    assert_eq!(handle.path, "data/cache/media/youtube/good");
}

#[test]
fn stamp_backend_sets_the_backend_and_keeps_the_rest() {
    let stamped = stamp_backend(
        vec![item("a"), item("b")],
        YOUTUBE_DL_BACKEND::YOUTUBE_DL,
    );
    assert_eq!(stamped.len(), 2);
    assert_eq!(stamped[0].id, "a");
    assert_eq!(stamped[0].title, "title of a");
    assert!(matches!(stamped[0].backend, Some(YOUTUBE_DL_BACKEND::YOUTUBE_DL)));
    assert!(matches!(stamped[1].backend, Some(YOUTUBE_DL_BACKEND::YOUTUBE_DL)));
}

#[test]
fn backend_value_names_the_fetch_tool() {
    assert_eq!(YOUTUBE_DL_BACKEND::YT_DLP.value(), "yt-dlp");
    assert_eq!(YOUTUBE_DL_BACKEND::YOUTUBE_DL.value(), "youtube-dl");
}
