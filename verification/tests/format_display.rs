use music_player::control_bar::State;
use music_player::format::{duration, u64_to_string};
use music_player::json::check_exists;
use music_player::state::{AppSettings, PlayerState};

#[test]
fn duration_renders_exact_values() {
    assert_eq!(duration(0), "0:00");
    assert_eq!(duration(9), "0:09");
    assert_eq!(duration(59), "0:59");
    assert_eq!(duration(60), "1:00");
    assert_eq!(duration(75), "1:15");
    assert_eq!(duration(600), "10:00");
    assert_eq!(duration(3601), "60:01");
}

#[test]
fn decimal_renders_exact_values() {
    assert_eq!(u64_to_string(0), "0");
    assert_eq!(u64_to_string(7), "7");
    assert_eq!(u64_to_string(10), "10");
    assert_eq!(u64_to_string(1234), "1234");
    assert_eq!(u64_to_string(u64::MAX), "18446744073709551615");
}

#[test]
fn player_state_default_is_empty_transport() {
    let p = PlayerState::default();
    assert_eq!(p.display_name, "Nothing is playing.");
    assert!(p.is_paused);
    assert_eq!(p.seconds_passed, 0);
    assert_eq!(p.total_duration, 0);
    assert!(p.queued_tracks.is_empty());
    assert_eq!(p.active_video_id, "");
}

#[test]
fn app_settings_default_values() {
    let s = AppSettings::default();
    assert_eq!(s.theme, "Dark");
    assert_eq!(s.volume, 5);
    assert_eq!(s.ffmpeg_path, "");
    assert!(!s.rpc_enabled);
}

#[test]
fn control_bar_default_display() {
    let s = State::default();
    assert_eq!(s.volume_slider, 5);
    assert_eq!(s.formatted_current_duration, "0:00");
    assert_eq!(s.formatted_total_duration, "0:00");
    assert!(!s.slider_is_active);
    assert!(s.active_thumbnail.is_none());
}

#[test]
fn settings_file_check_answers() {
    // The answer depends on the machine; the call must simply answer.
    let exists = check_exists();
    assert!(exists || !exists);
}
