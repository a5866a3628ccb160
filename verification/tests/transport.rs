use music_player::control_bar::Event;
use music_player::track::TrackRef;
use music_player::ui::Pages;

fn track(id: &str, name: &str, duration: u64) -> TrackRef {
    TrackRef { id: id.to_string(), display_name: name.to_string(), duration }
}

fn start(queue: Vec<TrackRef>) -> Pages {
    let mut p = Pages::new();
    let first = &queue[0];
    let (id, name, total) = (first.id.clone(), first.display_name.clone(), first.duration);
    let _ = p.play_track(id, name, total, false, queue);
    p
}

#[test]
fn scenario_two_track_queue_auto_advances() {
    let mut p = start(vec![track("a", "A", 10), track("b", "B", 5)]);
    // Nine ticks: elapsed climbs by exactly one each time, no rollover.
    for expected in 1..=9 {
        let fx = p.handle_controls(Event::Tick);
        assert_eq!(p.controls.player_state.seconds_passed, expected);
        assert_eq!(p.controls.player_state.active_video_id, "a");
        assert!(fx.fetch_thumbnail.is_none());
    }
    // The tenth tick reaches the total duration: auto-advance to `b`.
    let fx = p.handle_controls(Event::Tick);
    assert_eq!(p.controls.player_state.active_video_id, "b");
    assert_eq!(p.controls.player_state.display_name, "B");
    assert_eq!(p.controls.player_state.total_duration, 5);
    assert_eq!(p.controls.player_state.seconds_passed, 0);
    assert!(p.controls.slider_is_active);
    assert_eq!(fx.fetch_thumbnail.as_deref(), Some("b"));
}

#[test]
fn scenario_single_track_queue_resets() {
    let mut p = start(vec![track("a", "A", 10)]);
    for _ in 0..10 {
        p.handle_controls(Event::Tick);
    }
    assert_eq!(p.controls.player_state.display_name, "Nothing is playing.");
    assert_eq!(p.controls.player_state.total_duration, 0);
    assert_eq!(p.controls.player_state.seconds_passed, 0);
    assert!(!p.controls.slider_is_active);
}

#[test]
fn paused_tick_changes_nothing() {
    let mut p = start(vec![track("a", "A", 10)]);
    p.handle_controls(Event::Tick);
    assert_eq!(p.controls.player_state.seconds_passed, 1);
    p.handle_controls(Event::PauseToggleAction);
    assert!(p.controls.player_state.is_paused);
    for _ in 0..5 {
        let fx = p.handle_controls(Event::Tick);
        assert!(fx.rpc.is_none());
    }
    assert_eq!(p.controls.player_state.seconds_passed, 1);
    p.handle_controls(Event::PauseToggleAction);
    p.handle_controls(Event::Tick);
    assert_eq!(p.controls.player_state.seconds_passed, 2);
}

#[test]
fn tick_rollover_happens_once() {
    // A one-second track rolls over on its very first tick, once.
    let mut p = start(vec![track("a", "A", 1), track("b", "B", 2), track("c", "C", 3)]);
    p.handle_controls(Event::Tick);
    // One tick advanced one queue position, not two.
    assert_eq!(p.controls.player_state.active_video_id, "b");
    assert_eq!(p.controls.player_state.seconds_passed, 0);
    assert_eq!(p.controls.player_state.total_duration, 2);
}

#[test]
fn tick_clock_runs_only_while_loaded() {
    let p = Pages::new();
    assert!(!p.controls.slider_is_active);
    let mut p = start(vec![track("a", "A", 2)]);
    assert!(p.controls.slider_is_active);
    p.handle_controls(Event::Tick);
    p.handle_controls(Event::Tick);
    assert!(!p.controls.slider_is_active);
}

#[test]
fn formatted_clock_follows_elapsed() {
    let mut p = start(vec![track("a", "A", 90)]);
    assert_eq!(p.controls.formatted_current_duration, "0:00");
    for _ in 0..75 {
        p.handle_controls(Event::Tick);
    }
    assert_eq!(p.controls.formatted_current_duration, "1:15");
    assert_eq!(p.controls.formatted_total_duration, "1:30");
}
