use vstd::prelude::*;

use crate::track::{TrackModel, TrackRef};

verus! {

/// Volume levels are kept in tenths of full volume, so the displayed range
/// 0.0 through 1.0 of the volume slider is the integer range 0 through 10.
pub const VOLUME_MAX: u64 = 10;

/// Half volume, the level the display returns to on unmute.
pub const DEFAULT_VOLUME: u64 = 5;

/// The name displayed while no track is loaded.
pub open spec fn nothing_playing() -> Seq<char> {
    "Nothing is playing."@
}

/// Transport state of one playback session: which track is active, how far
/// it has played, the pause flag, and the queue the session was seeded with.
/// It is owned by the controller alone; the audio engine and the presence
/// mirror only ever receive copies.
pub struct PlayerState {
    pub active_video_id: String,
    pub display_name: String,
    pub total_duration: u64,
    pub is_paused: bool,
    pub seconds_passed: u64,
    pub queued_tracks: Vec<TrackRef>,
}

/// Mathematical image of a `PlayerState`.
#[verifier::ext_equal]
pub struct PlayerModel {
    pub active_video_id: Seq<char>,
    pub display_name: Seq<char>,
    pub total_duration: u64,
    pub is_paused: bool,
    pub seconds_passed: u64,
    pub queued_tracks: Seq<TrackModel>,
}

impl View for PlayerState {
    type V = PlayerModel;

    open spec fn view(&self) -> PlayerModel {
        PlayerModel {
            active_video_id: self.active_video_id@,
            display_name: self.display_name@,
            total_duration: self.total_duration,
            is_paused: self.is_paused,
            seconds_passed: self.seconds_passed,
            queued_tracks: self.queued_tracks.deep_view(),
        }
    }
}

/// The empty transport: nothing playing, paused, no queue. The application
/// starts here, and the controller returns here when a queue is exhausted.
pub open spec fn empty_player() -> PlayerModel {
    PlayerModel {
        active_video_id: Seq::<char>::empty(),
        display_name: nothing_playing(),
        total_duration: 0,
        is_paused: true,
        seconds_passed: 0,
        queued_tracks: Seq::<TrackModel>::empty(),
    }
}

impl Default for PlayerState {
    fn default() -> (r: PlayerState)
        ensures
            r@ == empty_player(),
    {
        let r = PlayerState {
            active_video_id: String::new(),
            display_name: "Nothing is playing.".to_owned(),
            total_duration: 0,
            is_paused: true,
            seconds_passed: 0,
            queued_tracks: Vec::new(),
        };
        proof {
            assert(r@ =~= empty_player());
        }
        r
    }
}

/// Application settings as the controller reads them. The volume is in
/// tenths (`VOLUME_MAX` scale); persistence and serialisation live with the
/// composing shell, which hands a value of this type in.
pub struct AppSettings {
    pub theme: String,
    pub volume: u64,
    pub ffmpeg_path: String,
    pub rpc_enabled: bool,
}

/// Mathematical image of an `AppSettings`.
#[verifier::ext_equal]
pub struct SettingsModel {
    pub theme: Seq<char>,
    pub volume: u64,
    pub ffmpeg_path: Seq<char>,
    pub rpc_enabled: bool,
}

impl DeepView for AppSettings {
    type V = SettingsModel;

    open spec fn deep_view(&self) -> SettingsModel {
        self.view()
    }
}

impl View for AppSettings {
    type V = SettingsModel;

    open spec fn view(&self) -> SettingsModel {
        SettingsModel {
            theme: self.theme@,
            volume: self.volume,
            ffmpeg_path: self.ffmpeg_path@,
            rpc_enabled: self.rpc_enabled,
        }
    }
}

/// The settings a fresh installation starts from.
pub open spec fn default_settings() -> SettingsModel {
    SettingsModel {
        theme: "Dark"@,
        volume: DEFAULT_VOLUME as u64,
        ffmpeg_path: Seq::<char>::empty(),
        rpc_enabled: false,
    }
}

impl Default for AppSettings {
    fn default() -> (r: AppSettings)
        ensures
            r@ == default_settings(),
    {
        let r = AppSettings {
            theme: "Dark".to_owned(),
            volume: DEFAULT_VOLUME,
            ffmpeg_path: String::new(),
            rpc_enabled: false,
        };
        proof {
            assert(r@ =~= default_settings());
        }
        r
    }
}

} // verus!
