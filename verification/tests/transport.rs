use musix::keyseq::KeyChord;
use musix::player::LoadRequest;
use musix::player::Player;
use musix::player::PlaybackDecision;

fn catalog(names: &[&str]) -> Vec<Vec<char>> {
    names.iter().map(|n| n.chars().collect()).collect()
}

fn three_track_player() -> Player {
    Player::new(catalog(&["Alpha", "Beta", "Gamma"]))
}

#[test]
fn test_format_duration() {
    assert_eq!(Player::format_duration(0), "00:00");
    assert_eq!(Player::format_duration(30), "00:30");
    assert_eq!(Player::format_duration(60), "01:00");
    assert_eq!(Player::format_duration(125), "02:05");
}

#[test]
fn format_duration_long_tracks() {
    assert_eq!(Player::format_duration(3600), "60:00");
    assert_eq!(Player::format_duration(7325), "122:05");
    assert_eq!(Player::format_duration(59), "00:59");
}

#[test]
fn new_player_initial_state() {
    let p = three_track_player();
    assert_eq!(p.current_index, 0);
    assert_eq!(p.selected_index, 0);
    assert!(!p.is_playing);
    assert!(p.loop_mode);
    assert!(!p.random_mode);
    assert_eq!(p.playback_start, None);
    assert_eq!(p.seek_offset, 0);
    assert_eq!(p.song_duration, None);
    assert!(!p.search_mode);
    assert_eq!(p.filtered_songs, vec![0, 1, 2]);
}

#[test]
fn end_to_end_sequential_wrap() {
    // Catalog ["Alpha", "Beta", "Gamma"], loop on, random off: play track 0,
    // advance twice to reach the last track, once more to wrap to 0.
    let mut p = three_track_player();
    assert!(p.loop_mode);
    assert!(!p.random_mode);
    let r = p.play_song(0);
    assert_eq!(r, Some(LoadRequest { index: 0, skip_ms: 0 }));
    p.confirm_playback(0, 1000, Some(180000));
    p.next_song(0);
    p.next_song(0);
    assert_eq!(p.current_index, 2);
    p.next_song(0);
    assert_eq!(p.current_index, 0);
}

#[test]
fn next_then_previous_returns_to_interior_index() {
    let mut p = three_track_player();
    p.play_song(0);
    p.next_song(0);
    assert_eq!(p.current_index, 1);
    p.previous_song(0);
    assert_eq!(p.current_index, 0);
}

#[test]
fn next_at_last_index_wraps_only_in_loop_mode() {
    let mut p = three_track_player();
    p.play_song(2);
    assert_eq!(p.current_index, 2);
    p.loop_mode = false;
    p.next_song(0);
    assert_eq!(p.current_index, 2);
    p.loop_mode = true;
    p.next_song(0);
    assert_eq!(p.current_index, 0);
}

#[test]
fn previous_at_first_index_wraps_only_in_loop_mode() {
    let mut p = three_track_player();
    p.play_song(0);
    p.loop_mode = false;
    p.previous_song(0);
    assert_eq!(p.current_index, 0);
    p.play_song(0);
    p.loop_mode = true;
    p.previous_song(0);
    assert_eq!(p.current_index, 2);
}

#[test]
fn random_next_never_picks_current() {
    let mut p = three_track_player();
    p.random_mode = true;
    for rand in 0..32u64 {
        p.play_song(1);
        p.next_song(rand);
        assert_ne!(p.current_index, 1);
        assert!(p.current_index < 3);
    }
}

#[test]
fn random_previous_never_picks_current() {
    let mut p = three_track_player();
    p.random_mode = true;
    for rand in 0..32u64 {
        p.play_song(2);
        p.previous_song(rand);
        assert_ne!(p.current_index, 2);
        assert!(p.current_index < 3);
    }
}

#[test]
fn random_draw_maps_onto_other_tracks_in_order() {
    // with 3 tracks and current 1, the draw picks among [0, 2] in order
    let mut p = three_track_player();
    p.random_mode = true;
    p.play_song(1);
    p.next_song(0);
    assert_eq!(p.current_index, 0);
    p.play_song(1);
    p.next_song(1);
    assert_eq!(p.current_index, 2);
    p.play_song(1);
    p.next_song(2);
    assert_eq!(p.current_index, 0);
}

#[test]
fn seek_cap_on_sub_second_duration_is_zero() {
    let mut p = three_track_player();
    p.play_song(0);
    p.confirm_playback(0, 0, Some(500));
    let t = p.seek_target(5, 100);
    assert_eq!(t, Some(0));
}

#[test]
fn random_with_single_track_stays() {
    let mut p = Player::new(catalog(&["Solo"]));
    p.random_mode = true;
    p.play_song(0);
    p.next_song(7);
    assert_eq!(p.current_index, 0);
}

#[test]
fn elapsed_reads_offset_after_load_and_tracks_clock() {
    let mut p = three_track_player();
    p.play_song(0);
    p.confirm_playback(0, 5000, Some(180000));
    let (elapsed, total) = p.get_playback_progress(5000);
    assert_eq!(elapsed, 0);
    assert_eq!(total, Some(180000));
    let (elapsed, _) = p.get_playback_progress(7500);
    assert_eq!(elapsed, 2500);
}

#[test]
fn reloading_same_track_preserves_seek_offset() {
    let mut p = three_track_player();
    p.play_song(0);
    p.confirm_playback(0, 0, None);
    p.seek_commit(9000, 1000);
    let r = p.play_song(0);
    assert_eq!(r, Some(LoadRequest { index: 0, skip_ms: 9000 }));
    let r = p.play_song(1);
    assert_eq!(r, Some(LoadRequest { index: 1, skip_ms: 0 }));
    // the baseline only moves once the load is confirmed
    assert_eq!(p.seek_offset, 9000);
    p.confirm_playback(0, 2000, None);
    let (elapsed, _) = p.get_playback_progress(2000);
    assert_eq!(elapsed, 0);
}

#[test]
fn unconfirmed_load_moves_only_the_indices() {
    // a failed open/decode is the absence of a confirmation: the position
    // model and the playback flags keep their prior values
    let mut p = three_track_player();
    p.play_song(0);
    p.confirm_playback(0, 0, Some(60000));
    p.pause_playback(2500);
    let r = p.play_song(1);
    assert_eq!(r, Some(LoadRequest { index: 1, skip_ms: 0 }));
    assert_eq!(p.current_index, 1);
    assert_eq!(p.selected_index, 1);
    assert_eq!(p.seek_offset, 2500);
    assert_eq!(p.song_duration, Some(60000));
    assert!(!p.is_playing);
    assert_eq!(p.playback_start, None);
}

#[test]
fn play_song_out_of_range_is_ignored() {
    let mut p = three_track_player();
    let r = p.play_song(3);
    assert_eq!(r, None);
    assert_eq!(p.current_index, 0);
}

#[test]
fn play_song_moves_both_indices() {
    let mut p = three_track_player();
    p.move_selection(1);
    assert_eq!(p.selected_index, 1);
    let r = p.play_song(2);
    assert_eq!(r, Some(LoadRequest { index: 2, skip_ms: 0 }));
    assert_eq!(p.current_index, 2);
    assert_eq!(p.selected_index, 2);
}

#[test]
fn pause_then_resume_preserves_elapsed() {
    let mut p = three_track_player();
    p.play_song(0);
    p.confirm_playback(0, 5000, Some(180000));
    p.pause_playback(7500);
    assert!(!p.is_playing);
    assert_eq!(p.playback_start, None);
    let (elapsed, _) = p.get_playback_progress(7500);
    assert_eq!(elapsed, 2500);
    let r = p.resume_playback(7500, false);
    assert_eq!(r, None);
    assert!(p.is_playing);
    let (elapsed, _) = p.get_playback_progress(7500);
    assert_eq!(elapsed, 2500);
}

#[test]
fn resume_with_empty_sink_requests_reload_from_offset() {
    let mut p = three_track_player();
    p.play_song(1);
    p.confirm_playback(0, 0, None);
    p.pause_playback(4000);
    let r = p.resume_playback(9000, true);
    assert_eq!(r, Some(LoadRequest { index: 1, skip_ms: 4000 }));
    assert!(!p.is_playing);
    p.confirm_playback(4000, 9000, None);
    assert!(p.is_playing);
    let (elapsed, _) = p.get_playback_progress(9000);
    assert_eq!(elapsed, 4000);
}

#[test]
fn play_or_pause_decision_covers_all_cases() {
    let mut empty = Player::new(Vec::new());
    assert_eq!(empty.play_or_pause_decision(), PlaybackDecision::Ignore);
    assert_eq!(empty.play_song(0), None);

    let mut p = three_track_player();
    assert_eq!(p.play_or_pause_decision(), PlaybackDecision::Load(0));
    p.play_song(0);
    p.confirm_playback(0, 0, None);
    assert_eq!(p.play_or_pause_decision(), PlaybackDecision::Pause);
    p.move_selection(1);
    assert_eq!(p.play_or_pause_decision(), PlaybackDecision::Load(1));
    p.move_selection(-1);
    p.pause_playback(100);
    assert_eq!(p.play_or_pause_decision(), PlaybackDecision::Resume);
}

#[test]
fn seek_backward_clamps_to_zero() {
    let mut p = three_track_player();
    p.play_song(0);
    p.confirm_playback(0, 5000, Some(180000));
    // elapsed is 2.5 s at time 7500; seeking back 5 s clamps to zero
    let t = p.seek_target(-5, 7500);
    assert_eq!(t, Some(0));
    p.seek_commit(0, 7500);
    let (elapsed, _) = p.get_playback_progress(7500);
    assert_eq!(elapsed, 0);
}

#[test]
fn seek_forward_stays_below_known_duration() {
    let mut p = three_track_player();
    p.play_song(0);
    p.confirm_playback(0, 0, Some(180000));
    let t = p.seek_target(1000000, 1000);
    assert_eq!(t, Some(179000));
    let t = p.seek_target(5, 1000);
    assert_eq!(t, Some(6000));
}

#[test]
fn seek_without_playing_or_empty_catalog_is_ignored() {
    let p = three_track_player();
    assert_eq!(p.seek_target(5, 1000), None);
    let mut empty = Player::new(Vec::new());
    assert_eq!(empty.seek_target(5, 1000), None);
    assert_eq!(empty.next_song(3), None);
    assert_eq!(empty.previous_song(3), None);
}

#[test]
fn seek_fallback_reloads_current_track_at_target() {
    let mut p = three_track_player();
    p.play_song(1);
    p.confirm_playback(0, 0, Some(60000));
    let r = p.seek_fallback(12000);
    assert_eq!(r, Some(LoadRequest { index: 1, skip_ms: 12000 }));
    assert_eq!(p.seek_offset, 12000);
    assert_eq!(p.selected_index, 1);
}

#[test]
fn stream_end_resets_position_and_advances() {
    let mut p = three_track_player();
    p.play_song(0);
    p.confirm_playback(0, 0, Some(1000));
    p.seek_commit(500, 100);
    let r = p.on_stream_ended(0);
    assert_eq!(r, Some(LoadRequest { index: 1, skip_ms: 0 }));
    assert!(!p.is_playing);
    assert_eq!(p.playback_start, None);
    assert_eq!(p.seek_offset, 0);
    assert_eq!(p.current_index, 1);
}

#[test]
fn stream_end_at_last_track_without_loop_stays() {
    let mut p = three_track_player();
    p.loop_mode = false;
    p.play_song(2);
    p.confirm_playback(0, 0, None);
    let r = p.on_stream_ended(0);
    assert_eq!(r, Some(LoadRequest { index: 2, skip_ms: 0 }));
    assert_eq!(p.current_index, 2);
}

#[test]
fn move_selection_wraps_both_ways() {
    let mut p = three_track_player();
    p.move_selection(-1);
    assert_eq!(p.selected_index, 2);
    p.move_selection(1);
    assert_eq!(p.selected_index, 0);
    p.move_selection(1);
    assert_eq!(p.selected_index, 1);
    p.move_selection(0);
    assert_eq!(p.selected_index, 1);
    let mut empty = Player::new(Vec::new());
    empty.move_selection(1);
    assert_eq!(empty.selected_index, 0);
}

#[test]
fn key_chord_fires_only_on_doubled_key() {
    let idle = KeyChord::Idle;
    let (armed, fired) = idle.on_key(true);
    assert_eq!(armed, KeyChord::AwaitingSecondKey);
    assert!(!fired);
    let (state, fired) = armed.on_key(true);
    assert_eq!(state, KeyChord::Idle);
    assert!(fired);
    let (state, fired) = armed.on_key(false);
    assert_eq!(state, KeyChord::Idle);
    assert!(!fired);
    let (state, fired) = idle.on_key(false);
    assert_eq!(state, KeyChord::Idle);
    assert!(!fired);
}
