use vstd::prelude::*;

use crate::control_bar::{step, step_fetch, step_tick, Event, EventModel, State, StateModel};
use crate::format::{spec_digits, u64_to_string};
use crate::playback::{AudioEvent, AudioModel};
use crate::queue::{next, next_index};
use crate::rpc::{RpcEvent, RpcModel};
use crate::state::{empty_player, AppSettings, PlayerModel, PlayerState, SettingsModel, DEFAULT_VOLUME};
use crate::track::{duplicate_queue, TrackRef};

verus! {

/// The page the composing shell currently shows.
#[derive(Debug, PartialEq, Eq, Structural)]
pub enum Page {
    TrackList,
    Settings,
    AddMusic,
    FFmpeg,
    Playlist,
}

/// What one controller step asks the shell to do: at most one transport
/// command for the audio engine, at most one presence snapshot, and at most
/// one asynchronous thumbnail fetch, named by track id. The shell performs
/// them; a failed audio send is fatal for the session, a failed presence
/// send is ignored.
pub struct Effects {
    pub audio: Option<AudioEvent>,
    pub rpc: Option<RpcEvent>,
    pub fetch_thumbnail: Option<String>,
}

/// Mathematical image of an `Effects`.
#[verifier::ext_equal]
pub struct EffectsModel {
    pub audio: Option<AudioModel>,
    pub rpc: Option<RpcModel>,
    pub fetch_thumbnail: Option<Seq<char>>,
}

impl View for Effects {
    type V = EffectsModel;

    open spec fn view(&self) -> EffectsModel {
        EffectsModel {
            audio: self.audio.deep_view(),
            rpc: self.rpc.deep_view(),
            fetch_thumbnail: self.fetch_thumbnail.deep_view(),
        }
    }
}

/// The session owner: the current page, the loaded settings, the control
/// bar with its transport state, and the presence-mirror switch. All shown
/// state is owned here; workers only ever receive copies through `Effects`.
pub struct Pages {
    pub current_page: Page,
    pub app_settings: Option<AppSettings>,
    pub controls: State,
    pub rpc_enabled: bool,
    /// Name of the colour theme the shell should draw with.
    pub theme: String,
}

/// Mathematical image of a `Pages`.
#[verifier::ext_equal]
pub struct PagesModel {
    pub current_page: Page,
    pub app_settings: Option<SettingsModel>,
    pub controls: StateModel,
    pub rpc_enabled: bool,
    pub theme: Seq<char>,
}

impl View for Pages {
    type V = PagesModel;

    open spec fn view(&self) -> PagesModel {
        PagesModel {
            current_page: self.current_page,
            app_settings: self.app_settings.deep_view(),
            controls: self.controls@,
            rpc_enabled: self.rpc_enabled,
            theme: self.theme@,
        }
    }
}

/// The transport command the dispatcher mirrors a control event with, sent
/// toward the audio engine on the one-way command channel.
pub open spec fn audio_for(e: EventModel) -> Option<AudioModel> {
    match e {
        EventModel::ProgressChanged(v) => Some(AudioModel::SeekTo(v)),
        EventModel::PauseToggleAction => Some(AudioModel::PauseToggle),
        EventModel::VolumeChanged(v) => Some(AudioModel::SetVolume(v)),
        EventModel::Mute => Some(AudioModel::Mute),
        EventModel::Unmute => Some(AudioModel::Unmute),
        EventModel::BackwardPressed => Some(AudioModel::Backward),
        EventModel::ForwardPressed => Some(AudioModel::Forward),
        _ => None,
    }
}

/// The control bar state after the session dispatcher handled `e`. Backward
/// restarts the current track when a queue is loaded; forward steps to the
/// entry after the first occurrence of the active id, through the same
/// advancer the tick rollover uses, and changes nothing when that entry
/// does not exist. Every other event acts as the control bar's own `step`.
pub open spec fn session_step(m: StateModel, e: EventModel) -> StateModel {
    match e {
        EventModel::BackwardPressed => if m.player.queued_tracks.len() > 0 {
            step(m, EventModel::SeekTo(0))
        } else {
            m
        },
        EventModel::ForwardPressed => match next_index(
            m.player.queued_tracks,
            m.player.active_video_id,
        ) {
            Some(j) => {
                let t = m.player.queued_tracks[j];
                let m2 = StateModel {
                    player: PlayerModel {
                        display_name: t.display_name,
                        total_duration: t.duration,
                        active_video_id: t.id,
                        seconds_passed: 0,
                        ..m.player
                    },
                    ..m
                };
                step(m2, EventModel::InitiatePlay(t.id, false))
            },
            None => m,
        },
        _ => step(m, e),
    }
}

/// The thumbnail fetch the dispatcher issues while handling `e`.
pub open spec fn session_fetch(m: StateModel, e: EventModel) -> Option<Seq<char>> {
    match e {
        EventModel::ForwardPressed => match next_index(
            m.player.queued_tracks,
            m.player.active_video_id,
        ) {
            Some(j) => Some(m.player.queued_tracks[j].id),
            None => None,
        },
        _ => step_fetch(m, e),
    }
}

/// The presence snapshot the dispatcher issues while handling `e`: on each
/// tick that leaves an unpaused transport, the display name with elapsed
/// and total seconds rendered in decimal — and nothing when the mirror is
/// disabled.
pub open spec fn rpc_for(m: StateModel, e: EventModel, rpc_enabled: bool) -> Option<RpcModel> {
    match e {
        EventModel::Tick => {
            let post = step_tick(m);
            if rpc_enabled && !post.player.is_paused {
                Some(
                    RpcModel::SetProgress(
                        post.player.display_name,
                        spec_digits(post.player.seconds_passed as int),
                        spec_digits(post.player.total_duration as int),
                    ),
                )
            } else {
                None
            }
        },
        _ => None,
    }
}

impl Pages {
    /// A fresh session: track list page, no settings loaded yet, the empty
    /// transport, presence off, dark theme.
    pub fn new() -> (r: Pages)
        ensures
            r@.current_page == Page::TrackList,
            r@.app_settings is None,
            r@.controls.player == empty_player(),
            r@.controls.volume_slider == DEFAULT_VOLUME,
            !r@.controls.slider_is_active,
            r@.controls.active_thumbnail is None,
            r@.controls.formatted_current_duration == crate::format::spec_duration(0),
            r@.controls.formatted_total_duration == crate::format::spec_duration(0),
            !r@.rpc_enabled,
            r@.theme == "Dark"@,
    {
        Pages {
            current_page: Page::TrackList,
            app_settings: None,
            controls: State::default(),
            rpc_enabled: false,
            theme: "Dark".to_owned(),
        }
    }

    /// Take loaded settings over: remember them, adopt theme and presence
    /// switch, and pick the start page — the FFmpeg setup page when no
    /// FFmpeg path is configured, the track list otherwise.
    pub fn settings_loaded(&mut self, settings: AppSettings)
        ensures
            final(self)@ == (PagesModel {
                app_settings: Some(settings@),
                theme: settings.theme@,
                rpc_enabled: settings.rpc_enabled,
                current_page: if settings.ffmpeg_path@.len() == 0 {
                    Page::FFmpeg
                } else {
                    Page::TrackList
                },
                ..old(self)@
            }),
    {
        let ghost m0 = *self;
        self.theme = settings.theme.clone();
        self.rpc_enabled = settings.rpc_enabled;
        if settings.ffmpeg_path.as_str().is_empty() {
            self.current_page = Page::FFmpeg;
        } else {
            self.current_page = Page::TrackList;
        }
        self.app_settings = Some(settings);
        proof {
            assert(self@ =~~= (PagesModel {
                app_settings: self@.app_settings,
                theme: self@.theme,
                rpc_enabled: self@.rpc_enabled,
                current_page: self@.current_page,
                ..m0@
            }));
        }
    }

    /// Seed a new playback session: replace the transport state wholesale
    /// with the given track at the head of the given queue, playing and at
    /// zero seconds; command the audio engine to queue it; announce it to
    /// the presence mirror when that is enabled; and ask for a thumbnail
    /// fetch when none was supplied.
    pub fn play_track(
        &mut self,
        video_id: String,
        display_name: String,
        total_duration: u64,
        has_thumbnail: bool,
        tracks: Vec<TrackRef>,
    ) -> (r: Effects)
        ensures
            final(self)@ == (PagesModel {
                controls: step(
                    StateModel {
                        player: PlayerModel {
                            active_video_id: video_id@,
                            display_name: display_name@,
                            total_duration: total_duration,
                            is_paused: false,
                            seconds_passed: 0,
                            queued_tracks: tracks.deep_view(),
                        },
                        ..old(self)@.controls
                    },
                    EventModel::InitiatePlay(video_id@, has_thumbnail),
                ),
                ..old(self)@
            }),
            r@.audio == Some(AudioModel::Queue(video_id@, tracks.deep_view())),
            r@.rpc == (if old(self)@.rpc_enabled {
                Some(RpcModel::SetTrack(display_name@, spec_digits(total_duration as int)))
            } else {
                None::<RpcModel>
            }),
            r@.fetch_thumbnail == (if !has_thumbnail {
                Some(video_id@)
            } else {
                None::<Seq<char>>
            }),
    {
        let ghost m0 = *self;
        let ghost vid = video_id@;
        let ghost name = display_name@;
        let ghost q = tracks.deep_view();
        let queue_copy = duplicate_queue(&tracks);
        self.controls.player_state = PlayerState {
            active_video_id: video_id.clone(),
            display_name: display_name.clone(),
            total_duration,
            is_paused: false,
            seconds_passed: 0,
            queued_tracks: tracks,
        };
        proof {
            assert(self.controls@ =~~= (StateModel {
                player: PlayerModel {
                    active_video_id: vid,
                    display_name: name,
                    total_duration: total_duration,
                    is_paused: false,
                    seconds_passed: 0,
                    queued_tracks: q,
                },
                ..m0@.controls
            }));
        }
        let audio = Some(AudioEvent::Queue(video_id.clone(), queue_copy));
        let rpc_msg = if self.rpc_enabled {
            Some(RpcEvent::SetTrack(display_name, u64_to_string(total_duration)))
        } else {
            None
        };
        let fetch = self.controls.update(Event::InitiatePlay(video_id, has_thumbnail));
        let r = Effects { audio, rpc: rpc_msg, fetch_thumbnail: fetch };
        proof {
            assert(self@ =~~= (PagesModel { controls: self@.controls, ..m0@ }));
        }
        r
    }

    /// Dispatch one control-bar event: let the control bar take its step,
    /// mirror the event's audible effect as a command for the audio engine,
    /// send the presence mirror its tick snapshot, and carry the manual
    /// backward/forward semantics — backward restarts the current track
    /// when a queue is loaded, forward advances through the queue advancer.
    pub fn handle_controls(&mut self, event: Event) -> (r: Effects)
        requires
            event is Tick ==> old(self).controls.player_state.seconds_passed < u64::MAX,
            event matches Event::VolumeChanged(v) ==> v <= crate::state::VOLUME_MAX,
        ensures
            final(self)@ == (PagesModel {
                controls: session_step(old(self)@.controls, event@),
                ..old(self)@
            }),
            r@ == (EffectsModel {
                audio: audio_for(event@),
                rpc: rpc_for(old(self)@.controls, event@, old(self)@.rpc_enabled),
                fetch_thumbnail: session_fetch(old(self)@.controls, event@),
            }),
    {
        let ghost m0 = *self;
        let ghost ev = event@;
        match event {
            Event::Tick => {
                let fetch = self.controls.update(Event::Tick);
                let rpc_msg = if self.rpc_enabled && !self.controls.player_state.is_paused {
                    Some(
                        RpcEvent::SetProgress(
                            self.controls.player_state.display_name.clone(),
                            u64_to_string(self.controls.player_state.seconds_passed),
                            u64_to_string(self.controls.player_state.total_duration),
                        ),
                    )
                } else {
                    None
                };
                let r = Effects { audio: None, rpc: rpc_msg, fetch_thumbnail: fetch };
                proof {
                    assert(self@ =~~= (PagesModel { controls: self@.controls, ..m0@ }));
                    assert(r@ =~~= (EffectsModel {
                        audio: audio_for(ev),
                        rpc: rpc_for(m0@.controls, ev, m0@.rpc_enabled),
                        fetch_thumbnail: session_fetch(m0@.controls, ev),
                    }));
                }
                r
            }
            Event::BackwardPressed => {
                let _ = self.controls.update(Event::BackwardPressed);
                if self.controls.player_state.queued_tracks.len() > 0 {
                    let _ = self.controls.update(Event::SeekTo(0));
                }
                let r = Effects {
                    audio: Some(AudioEvent::Backward),
                    rpc: None,
                    fetch_thumbnail: None,
                };
                proof {
                    assert(self@ =~~= (PagesModel { controls: self@.controls, ..m0@ }));
                    assert(self@.controls =~~= session_step(m0@.controls, ev));
                    assert(r@ =~~= (EffectsModel {
                        audio: audio_for(ev),
                        rpc: rpc_for(m0@.controls, ev, m0@.rpc_enabled),
                        fetch_thumbnail: session_fetch(m0@.controls, ev),
                    }));
                }
                r
            }
            Event::ForwardPressed => {
                let _ = self.controls.update(Event::ForwardPressed);
                let nxt = next(
                    &self.controls.player_state.active_video_id,
                    &self.controls.player_state.queued_tracks,
                );
                let fetch: Option<String> = match nxt {
                    Some(t) => {
                        let ghost tm = t@;
                        let TrackRef { id, display_name, duration: total } = t;
                        self.controls.player_state.display_name = display_name;
                        self.controls.player_state.total_duration = total;
                        self.controls.player_state.seconds_passed = 0;
                        let id_for_play = id.clone();
                        self.controls.player_state.active_video_id = id;
                        proof {
                            assert(self.controls@ =~~= (StateModel {
                                player: PlayerModel {
                                    display_name: tm.display_name,
                                    total_duration: tm.duration,
                                    active_video_id: tm.id,
                                    seconds_passed: 0,
                                    ..m0@.controls.player
                                },
                                ..m0@.controls
                            }));
                        }
                        self.controls.update(Event::InitiatePlay(id_for_play, false))
                    }
                    None => None,
                };
                let r = Effects {
                    audio: Some(AudioEvent::Forward),
                    rpc: None,
                    fetch_thumbnail: fetch,
                };
                proof {
                    assert(self@ =~~= (PagesModel { controls: self@.controls, ..m0@ }));
                    assert(self@.controls =~~= session_step(m0@.controls, ev));
                    assert(r@ =~~= (EffectsModel {
                        audio: audio_for(ev),
                        rpc: rpc_for(m0@.controls, ev, m0@.rpc_enabled),
                        fetch_thumbnail: session_fetch(m0@.controls, ev),
                    }));
                }
                r
            }
            Event::ProgressChanged(value) => {
                let fetch = self.controls.update(Event::ProgressChanged(value));
                let r = Effects {
                    audio: Some(AudioEvent::SeekTo(value)),
                    rpc: None,
                    fetch_thumbnail: fetch,
                };
                proof {
                    assert(self@ =~~= (PagesModel { controls: self@.controls, ..m0@ }));
                }
                r
            }
            Event::PauseToggleAction => {
                let fetch = self.controls.update(Event::PauseToggleAction);
                let r = Effects {
                    audio: Some(AudioEvent::PauseToggle),
                    rpc: None,
                    fetch_thumbnail: fetch,
                };
                proof {
                    assert(self@ =~~= (PagesModel { controls: self@.controls, ..m0@ }));
                }
                r
            }
            Event::VolumeChanged(value) => {
                let fetch = self.controls.update(Event::VolumeChanged(value));
                let r = Effects {
                    audio: Some(AudioEvent::SetVolume(value)),
                    rpc: None,
                    fetch_thumbnail: fetch,
                };
                proof {
                    assert(self@ =~~= (PagesModel { controls: self@.controls, ..m0@ }));
                }
                r
            }
            Event::Mute => {
                let fetch = self.controls.update(Event::Mute);
                let r = Effects { audio: Some(AudioEvent::Mute), rpc: None, fetch_thumbnail: fetch };
                proof {
                    assert(self@ =~~= (PagesModel { controls: self@.controls, ..m0@ }));
                }
                r
            }
            Event::Unmute => {
                let fetch = self.controls.update(Event::Unmute);
                let r = Effects {
                    audio: Some(AudioEvent::Unmute),
                    rpc: None,
                    fetch_thumbnail: fetch,
                };
                proof {
                    assert(self@ =~~= (PagesModel { controls: self@.controls, ..m0@ }));
                }
                r
            }
            Event::SeekTo(value) => {
                let fetch = self.controls.update(Event::SeekTo(value));
                let r = Effects { audio: None, rpc: None, fetch_thumbnail: fetch };
                proof {
                    assert(self@ =~~= (PagesModel { controls: self@.controls, ..m0@ }));
                }
                r
            }
            Event::InitiatePlay(video_id, prefetched) => {
                let fetch = self.controls.update(Event::InitiatePlay(video_id, prefetched));
                let r = Effects { audio: None, rpc: None, fetch_thumbnail: fetch };
                proof {
                    assert(self@ =~~= (PagesModel { controls: self@.controls, ..m0@ }));
                }
                r
            }
            Event::ThumbnailRetrieved(video_id) => {
                let fetch = self.controls.update(Event::ThumbnailRetrieved(video_id));
                let r = Effects { audio: None, rpc: None, fetch_thumbnail: fetch };
                proof {
                    assert(self@ =~~= (PagesModel { controls: self@.controls, ..m0@ }));
                }
                r
            }
        }
    }

    /// Flip the presence-mirror switch. Turning it off tells the mirror to
    /// hide its display; turning it on sends nothing until the next tick.
    pub fn toggle_rpc(&mut self) -> (r: Effects)
        ensures
            final(self)@ == (PagesModel { rpc_enabled: !old(self)@.rpc_enabled, ..old(self)@ }),
            r@.rpc == (if old(self)@.rpc_enabled {
                Some(RpcModel::Hide)
            } else {
                None::<RpcModel>
            }),
            r@.audio is None,
            r@.fetch_thumbnail is None,
    {
        let ghost m0 = *self;
        let rpc_msg = if self.rpc_enabled {
            Some(RpcEvent::Hide)
        } else {
            None
        };
        self.rpc_enabled = !self.rpc_enabled;
        proof {
            assert(self@ =~~= (PagesModel { rpc_enabled: !m0@.rpc_enabled, ..m0@ }));
        }
        Effects { audio: None, rpc: rpc_msg, fetch_thumbnail: None }
    }
}

/// Seek law, command half: handling the same seek event twice leaves the
/// same state — and so the same elapsed time — as handling it once, and
/// each of the two events is mirrored by the same `SeekTo` command toward
/// the audio engine: commands are not deduplicated.
pub proof fn lemma_seek_commands_repeat(m: StateModel, v: u64)
    ensures
        session_step(
            session_step(m, EventModel::ProgressChanged(v)),
            EventModel::ProgressChanged(v),
        ) == session_step(m, EventModel::ProgressChanged(v)),
        audio_for(EventModel::ProgressChanged(v)) == Some(AudioModel::SeekTo(v)),
{
    crate::control_bar::lemma_seek_idempotent(m, v);
}

impl Default for Pages {
    fn default() -> (r: Pages)
        ensures
            r@.current_page == Page::TrackList,
            r@.app_settings is None,
            r@.controls.player == empty_player(),
            !r@.rpc_enabled,
    {
        Pages::new()
    }
}

} // verus!
