use music_player::control_bar::Event;
use music_player::playback::AudioEvent;
use music_player::rpc::RpcEvent;
use music_player::state::AppSettings;
use music_player::track::TrackRef;
use music_player::ui::{Page, Pages};

fn track(id: &str, name: &str, duration: u64) -> TrackRef {
    TrackRef { id: id.to_string(), display_name: name.to_string(), duration }
}

fn start(queue: Vec<TrackRef>) -> Pages {
    let mut p = Pages::new();
    let first = &queue[0];
    let (id, name, total) = (first.id.clone(), first.display_name.clone(), first.duration);
    let _ = p.play_track(id, name, total, false, queue);
    p
}

fn settings(theme: &str, volume: u64, ffmpeg_path: &str, rpc_enabled: bool) -> AppSettings {
    AppSettings {
        theme: theme.to_string(),
        volume,
        ffmpeg_path: ffmpeg_path.to_string(),
        rpc_enabled,
    }
}

#[test]
fn seek_twice_issues_two_identical_commands() {
    let mut p = start(vec![track("a", "A", 10)]);
    let fx1 = p.handle_controls(Event::ProgressChanged(7));
    let elapsed1 = p.controls.player_state.seconds_passed;
    let fx2 = p.handle_controls(Event::ProgressChanged(7));
    let elapsed2 = p.controls.player_state.seconds_passed;
    assert_eq!(elapsed1, 7);
    assert_eq!(elapsed2, 7);
    assert!(matches!(fx1.audio, Some(AudioEvent::SeekTo(7))));
    assert!(matches!(fx2.audio, Some(AudioEvent::SeekTo(7))));
}

#[test]
fn scenario_mute_and_unmute_display() {
    let mut p = start(vec![track("a", "A", 10)]);
    let fx = p.handle_controls(Event::VolumeChanged(8));
    assert!(matches!(fx.audio, Some(AudioEvent::SetVolume(8))));
    assert_eq!(p.controls.volume_slider, 8);

    let fx = p.handle_controls(Event::Mute);
    assert!(matches!(fx.audio, Some(AudioEvent::Mute)));
    assert_eq!(p.controls.volume_slider, 0);

    // Unmute restores the display default, independent of the level before.
    let fx = p.handle_controls(Event::Unmute);
    assert!(matches!(fx.audio, Some(AudioEvent::Unmute)));
    assert_eq!(p.controls.volume_slider, 5);
}

#[test]
fn scenario_backward_restarts_current_track() {
    let mut p = start(vec![track("a", "A", 10), track("b", "B", 5)]);
    for _ in 0..3 {
        p.handle_controls(Event::Tick);
    }
    assert_eq!(p.controls.player_state.seconds_passed, 3);
    let fx = p.handle_controls(Event::BackwardPressed);
    assert!(matches!(fx.audio, Some(AudioEvent::Backward)));
    // Same track, elapsed reset: backward does not step the queue backward.
    assert_eq!(p.controls.player_state.active_video_id, "a");
    assert_eq!(p.controls.player_state.seconds_passed, 0);
}

#[test]
fn backward_with_empty_queue_only_sends_command() {
    let mut p = start(vec![track("a", "A", 10)]);
    p.controls.player_state.queued_tracks = Vec::new();
    p.handle_controls(Event::ProgressChanged(4));
    let fx = p.handle_controls(Event::BackwardPressed);
    assert!(matches!(fx.audio, Some(AudioEvent::Backward)));
    assert_eq!(p.controls.player_state.seconds_passed, 4);
}

#[test]
fn forward_advances_through_the_queue() {
    let mut p = start(vec![track("a", "A", 10), track("b", "B", 5)]);
    p.handle_controls(Event::Tick);
    let fx = p.handle_controls(Event::ForwardPressed);
    assert!(matches!(fx.audio, Some(AudioEvent::Forward)));
    assert_eq!(p.controls.player_state.active_video_id, "b");
    assert_eq!(p.controls.player_state.display_name, "B");
    assert_eq!(p.controls.player_state.total_duration, 5);
    assert_eq!(p.controls.player_state.seconds_passed, 0);
    assert_eq!(fx.fetch_thumbnail.as_deref(), Some("b"));
}

#[test]
fn forward_on_last_track_changes_no_state() {
    let mut p = start(vec![track("a", "A", 10)]);
    p.handle_controls(Event::Tick);
    let fx = p.handle_controls(Event::ForwardPressed);
    assert!(matches!(fx.audio, Some(AudioEvent::Forward)));
    assert_eq!(p.controls.player_state.active_video_id, "a");
    assert_eq!(p.controls.player_state.seconds_passed, 1);
    assert!(fx.fetch_thumbnail.is_none());
}

#[test]
fn settings_pick_start_page() {
    let mut p = Pages::new();
    p.settings_loaded(settings("Light", 5, "", false));
    assert_eq!(p.current_page, Page::FFmpeg);
    assert_eq!(p.theme, "Light");

    let mut p = Pages::new();
    p.settings_loaded(settings("Dark", 5, "/usr/bin/ffmpeg", true));
    assert_eq!(p.current_page, Page::TrackList);
    assert!(p.rpc_enabled);
}

#[test]
fn toggle_rpc_hides_presence() {
    let mut p = Pages::new();
    p.settings_loaded(settings("Dark", 5, "x", true));
    let fx = p.toggle_rpc();
    assert!(matches!(fx.rpc, Some(RpcEvent::Hide)));
    assert!(!p.rpc_enabled);
    // Turning it back on sends nothing until the next tick.
    let fx = p.toggle_rpc();
    assert!(fx.rpc.is_none());
    assert!(p.rpc_enabled);
}

#[test]
fn tick_reports_progress_to_presence() {
    let mut p = Pages::new();
    p.settings_loaded(settings("Dark", 5, "x", true));
    let _ = p.play_track("a".to_string(), "A".to_string(), 10, false, vec![track("a", "A", 10)]);
    for _ in 0..2 {
        p.handle_controls(Event::Tick);
    }
    let fx = p.handle_controls(Event::Tick);
    match fx.rpc {
        Some(RpcEvent::SetProgress(name, elapsed, total)) => {
            assert_eq!(name, "A");
            assert_eq!(elapsed, "3");
            assert_eq!(total, "10");
        }
        other => panic!("expected a progress snapshot, got {:?}", other.is_some()),
    }
}

#[test]
fn play_track_queues_and_announces() {
    let mut p = Pages::new();
    p.settings_loaded(settings("Dark", 5, "x", true));
    let q = vec![track("a", "A", 10), track("b", "B", 5)];
    let fx = p.play_track("a".to_string(), "A".to_string(), 10, false, q);
    match fx.audio {
        Some(AudioEvent::Queue(id, queue)) => {
            assert_eq!(id, "a");
            assert_eq!(queue.len(), 2);
            assert_eq!(queue[1].id, "b");
        }
        _ => panic!("expected a queue command"),
    }
    match fx.rpc {
        Some(RpcEvent::SetTrack(name, total)) => {
            assert_eq!(name, "A");
            assert_eq!(total, "10");
        }
        _ => panic!("expected a presence announcement"),
    }
    assert_eq!(fx.fetch_thumbnail.as_deref(), Some("a"));
    assert!(!p.controls.player_state.is_paused);
    assert_eq!(p.controls.player_state.seconds_passed, 0);
}

#[test]
fn prefetched_thumbnail_skips_the_fetch() {
    let mut p = Pages::new();
    let fx = p.play_track("a".to_string(), "A".to_string(), 10, true, vec![track("a", "A", 10)]);
    assert!(fx.fetch_thumbnail.is_none());
    assert_eq!(p.controls.active_thumbnail.as_deref(), Some("a"));
}

#[test]
fn stale_thumbnail_completion_is_discarded() {
    let mut p = start(vec![track("a", "A", 10)]);
    // The session moved on to another track before the fetch finished.
    let _ = p.play_track("b".to_string(), "B".to_string(), 5, false, vec![track("b", "B", 5)]);
    p.handle_controls(Event::ThumbnailRetrieved("a".to_string()));
    assert!(p.controls.active_thumbnail.is_none());
    p.handle_controls(Event::ThumbnailRetrieved("b".to_string()));
    assert_eq!(p.controls.active_thumbnail.as_deref(), Some("b"));
}

#[test]
fn seek_is_not_validated_against_duration() {
    // The controller stores the seek value as given; the engine clamps.
    let mut p = start(vec![track("a", "A", 10)]);
    let fx = p.handle_controls(Event::ProgressChanged(25));
    assert!(matches!(fx.audio, Some(AudioEvent::SeekTo(25))));
    assert_eq!(p.controls.player_state.seconds_passed, 25);
}
