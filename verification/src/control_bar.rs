use vstd::prelude::*;

use crate::format::{duration, spec_duration};
use crate::queue::{next, next_index};
use crate::state::{nothing_playing, PlayerModel, PlayerState, DEFAULT_VOLUME, VOLUME_MAX};
use crate::track::TrackRef;

verus! {

/// Everything the control bar owns: the transport state of the session, the
/// volume display, the rendered clock strings, and the tick-clock switch.
pub struct State {
    pub player_state: PlayerState,
    /// Id of the track whose thumbnail the display currently shows, if any.
    pub active_thumbnail: Option<String>,
    /// Displayed volume level, in tenths of full volume.
    pub volume_slider: u64,
    pub formatted_current_duration: String,
    pub formatted_total_duration: String,
    /// Whether the tick clock runs; on exactly while a track is loaded.
    pub slider_is_active: bool,
}

/// Mathematical image of the control bar's state.
#[verifier::ext_equal]
pub struct StateModel {
    pub player: PlayerModel,
    pub active_thumbnail: Option<Seq<char>>,
    pub volume_slider: u64,
    pub formatted_current_duration: Seq<char>,
    pub formatted_total_duration: Seq<char>,
    pub slider_is_active: bool,
}

impl View for State {
    type V = StateModel;

    open spec fn view(&self) -> StateModel {
        StateModel {
            player: self.player_state@,
            active_thumbnail: self.active_thumbnail.deep_view(),
            volume_slider: self.volume_slider,
            formatted_current_duration: self.formatted_current_duration@,
            formatted_total_duration: self.formatted_total_duration@,
            slider_is_active: self.slider_is_active,
        }
    }
}

/// A message for the control bar: a user action, the tick clock, or the
/// completion of an asynchronous thumbnail fetch. Times are whole seconds;
/// volume levels are tenths of full volume.
pub enum Event {
    BackwardPressed,
    ForwardPressed,
    PauseToggleAction,
    Tick,
    Mute,
    Unmute,
    SeekTo(u64),
    ProgressChanged(u64),
    VolumeChanged(u64),
    /// Seed playback display for this track id; the flag says whether a
    /// pre-fetched thumbnail was supplied along with it.
    InitiatePlay(String, bool),
    /// A thumbnail fetch finished, tagged with the id it was issued for.
    ThumbnailRetrieved(String),
}

/// Mathematical image of an `Event`.
#[verifier::ext_equal]
pub enum EventModel {
    BackwardPressed,
    ForwardPressed,
    PauseToggleAction,
    Tick,
    Mute,
    Unmute,
    SeekTo(u64),
    ProgressChanged(u64),
    VolumeChanged(u64),
    InitiatePlay(Seq<char>, bool),
    ThumbnailRetrieved(Seq<char>),
}

impl View for Event {
    type V = EventModel;

    open spec fn view(&self) -> EventModel {
        match self {
            Event::BackwardPressed => EventModel::BackwardPressed,
            Event::ForwardPressed => EventModel::ForwardPressed,
            Event::PauseToggleAction => EventModel::PauseToggleAction,
            Event::Tick => EventModel::Tick,
            Event::Mute => EventModel::Mute,
            Event::Unmute => EventModel::Unmute,
            Event::SeekTo(v) => EventModel::SeekTo(*v),
            Event::ProgressChanged(v) => EventModel::ProgressChanged(*v),
            Event::VolumeChanged(v) => EventModel::VolumeChanged(*v),
            Event::InitiatePlay(id, pre) => EventModel::InitiatePlay(id@, *pre),
            Event::ThumbnailRetrieved(id) => EventModel::ThumbnailRetrieved(id@),
        }
    }
}

/// Display fields after the reset at end of track: the clock shows `0:00`,
/// the tick clock is off, and nothing is named as playing. The ended
/// track's id and the queue are deliberately kept, for the advancer.
pub open spec fn reset_display(m: StateModel) -> StateModel {
    StateModel {
        slider_is_active: false,
        player: PlayerModel {
            total_duration: 0,
            seconds_passed: 0,
            display_name: nothing_playing(),
            ..m.player
        },
        formatted_current_duration: spec_duration(0),
        formatted_total_duration: spec_duration(0),
        ..m
    }
}

/// State after seeding playback with one queue entry, elapsed time as it
/// stands in `m` (zero right after a reset): the entry's name, id and
/// duration take over and the tick clock turns on.
pub open spec fn load_track(m: StateModel, t: crate::track::TrackModel) -> StateModel {
    StateModel {
        slider_is_active: true,
        player: PlayerModel {
            display_name: t.display_name,
            total_duration: t.duration,
            active_video_id: t.id,
            ..m.player
        },
        ..m
    }
}

/// One second of playback. While paused this is a no-op. Otherwise elapsed
/// time advances by one; reaching the total duration is track end: the
/// display resets, and if the queue holds an entry after the first
/// occurrence of the ended track's id, that entry is seeded directly.
pub open spec fn step_tick(m: StateModel) -> StateModel
    recommends
        m.player.seconds_passed < u64::MAX,
{
    if m.player.is_paused {
        m
    } else if m.player.seconds_passed + 1 >= m.player.total_duration {
        let r = reset_display(m);
        match next_index(m.player.queued_tracks, m.player.active_video_id) {
            Some(j) => load_track(r, m.player.queued_tracks[j]),
            None => r,
        }
    } else {
        StateModel {
            player: PlayerModel {
                seconds_passed: (m.player.seconds_passed + 1) as u64,
                ..m.player
            },
            formatted_current_duration: spec_duration(m.player.seconds_passed + 1),
            formatted_total_duration: spec_duration(m.player.total_duration as int),
            ..m
        }
    }
}

/// The control bar's whole transition function: the state after handling
/// one event. `BackwardPressed` and `ForwardPressed` leave the control bar
/// unchanged here; the session dispatcher owns their effect.
pub open spec fn step(m: StateModel, e: EventModel) -> StateModel
    recommends
        e is Tick ==> m.player.seconds_passed < u64::MAX,
{
    match e {
        EventModel::Mute => StateModel { volume_slider: 0, ..m },
        EventModel::Unmute => StateModel { volume_slider: DEFAULT_VOLUME as u64, ..m },
        EventModel::VolumeChanged(v) => StateModel { volume_slider: v, ..m },
        EventModel::Tick => step_tick(m),
        EventModel::BackwardPressed => m,
        EventModel::ForwardPressed => m,
        EventModel::ProgressChanged(v) => StateModel {
            player: PlayerModel { seconds_passed: v, ..m.player },
            formatted_current_duration: spec_duration(v as int),
            formatted_total_duration: spec_duration(m.player.total_duration as int),
            ..m
        },
        EventModel::InitiatePlay(id, prefetched) => StateModel {
            slider_is_active: true,
            formatted_current_duration: spec_duration(0),
            formatted_total_duration: spec_duration(0),
            active_thumbnail: if prefetched {
                Some(id)
            } else {
                m.active_thumbnail
            },
            ..m
        },
        EventModel::ThumbnailRetrieved(id) => StateModel {
            active_thumbnail: if id == m.player.active_video_id {
                Some(id)
            } else {
                m.active_thumbnail
            },
            ..m
        },
        EventModel::PauseToggleAction => StateModel {
            player: PlayerModel { is_paused: !m.player.is_paused, ..m.player },
            ..m
        },
        EventModel::SeekTo(v) => StateModel {
            player: PlayerModel { seconds_passed: v, ..m.player },
            ..m
        },
    }
}

/// The asynchronous thumbnail fetch an event asks for, by track id: one on
/// auto-advance at track end, and one on a seeding that came without a
/// pre-fetched thumbnail.
pub open spec fn step_fetch(m: StateModel, e: EventModel) -> Option<Seq<char>> {
    match e {
        EventModel::Tick => if !m.player.is_paused && m.player.seconds_passed + 1
            >= m.player.total_duration {
            match next_index(m.player.queued_tracks, m.player.active_video_id) {
                Some(j) => Some(m.player.queued_tracks[j].id),
                None => None,
            }
        } else {
            None
        },
        EventModel::InitiatePlay(id, prefetched) => if !prefetched {
            Some(id)
        } else {
            None
        },
        _ => None,
    }
}

impl State {
    /// Handle one message: mutate the control bar exactly as `step` says,
    /// and return the track id whose thumbnail should be fetched
    /// asynchronously, exactly as `step_fetch` says.
    pub fn update(&mut self, message: Event) -> (fetch: Option<String>)
        requires
            message is Tick ==> old(self).player_state.seconds_passed < u64::MAX,
            message matches Event::VolumeChanged(v) ==> v <= VOLUME_MAX,
        ensures
            final(self)@ == step(old(self)@, message@),
            fetch.deep_view() == step_fetch(old(self)@, message@),
    {
        let ghost m0 = *self;
        let ghost ev = message@;
        match message {
            Event::Mute => {
                self.volume_slider = 0;
                proof {
                    assert(self@ =~~= step(m0@, ev));
                }
                None
            }
            Event::Unmute => {
                self.volume_slider = DEFAULT_VOLUME;
                proof {
                    assert(self@ =~~= step(m0@, ev));
                }
                None
            }
            Event::VolumeChanged(value) => {
                self.volume_slider = value;
                proof {
                    assert(self@ =~~= step(m0@, ev));
                }
                None
            }
            Event::Tick => {
                if self.player_state.is_paused {
                    proof {
                        assert(self@ =~~= step(m0@, ev));
                    }
                    return None;
                }
                self.player_state.seconds_passed = self.player_state.seconds_passed + 1;
                if self.player_state.seconds_passed >= self.player_state.total_duration {
                    self.slider_is_active = false;
                    self.player_state.total_duration = 0;
                    self.player_state.seconds_passed = 0;
                    self.formatted_current_duration = duration(0);
                    self.formatted_total_duration = duration(0);
                    self.player_state.display_name = "Nothing is playing.".to_owned();
                    let nxt = next(
                        &self.player_state.active_video_id,
                        &self.player_state.queued_tracks,
                    );
                    match nxt {
                        Some(t) => {
                            let TrackRef { id, display_name, duration: total } = t;
                            self.player_state.display_name = display_name;
                            self.slider_is_active = true;
                            self.player_state.total_duration = total;
                            let fetch_id = id.clone();
                            self.player_state.active_video_id = id;
                            proof {
                                assert(self@ =~~= step(m0@, ev));
                                assert(Some(fetch_id).deep_view() =~~= step_fetch(m0@, ev));
                            }
                            Some(fetch_id)
                        }
                        None => {
                            proof {
                                assert(self@ =~~= step(m0@, ev));
                            }
                            None
                        }
                    }
                } else {
                    self.formatted_current_duration = duration(self.player_state.seconds_passed);
                    self.formatted_total_duration = duration(self.player_state.total_duration);
                    proof {
                        assert(self@ =~~= step(m0@, ev));
                    }
                    None
                }
            }
            Event::BackwardPressed => {
                proof {
                    assert(self@ =~~= step(m0@, ev));
                }
                None
            }
            Event::ForwardPressed => {
                proof {
                    assert(self@ =~~= step(m0@, ev));
                }
                None
            }
            Event::ProgressChanged(value) => {
                self.player_state.seconds_passed = value;
                self.formatted_current_duration = duration(self.player_state.seconds_passed);
                self.formatted_total_duration = duration(self.player_state.total_duration);
                proof {
                    assert(self@ =~~= step(m0@, ev));
                }
                None
            }
            Event::InitiatePlay(video_id, prefetched) => {
                self.slider_is_active = true;
                self.formatted_current_duration = duration(0);
                self.formatted_total_duration = duration(0);
                if !prefetched {
                    proof {
                        assert(self@ =~~= step(m0@, ev));
                        assert(Some(video_id).deep_view() =~~= step_fetch(m0@, ev));
                    }
                    Some(video_id)
                } else {
                    self.active_thumbnail = Some(video_id);
                    proof {
                        assert(self@ =~~= step(m0@, ev));
                    }
                    None
                }
            }
            Event::ThumbnailRetrieved(video_id) => {
                if video_id == self.player_state.active_video_id {
                    self.active_thumbnail = Some(video_id);
                }
                proof {
                    assert(self@ =~~= step(m0@, ev));
                }
                None
            }
            Event::PauseToggleAction => {
                if self.player_state.is_paused {
                    self.player_state.is_paused = false;
                } else {
                    self.player_state.is_paused = true;
                }
                proof {
                    assert(self@ =~~= step(m0@, ev));
                }
                None
            }
            Event::SeekTo(value) => {
                self.player_state.seconds_passed = value;
                proof {
                    assert(self@ =~~= step(m0@, ev));
                }
                None
            }
        }
    }
}

/// Tick law: while the transport is not paused, every tick advances the
/// elapsed time by exactly one second until it reaches the total duration,
/// and the tick that reaches it performs exactly one rollover — it resets
/// elapsed to zero and either seeds precisely the queue entry after the
/// first occurrence of the ended track's id, or clears the transport. A
/// single tick never advances twice.
pub proof fn lemma_tick_progress(m: StateModel)
    requires
        !m.player.is_paused,
        m.player.seconds_passed < u64::MAX,
    ensures
        m.player.seconds_passed + 1 < m.player.total_duration ==> step(m, EventModel::Tick)
            == (StateModel {
            player: PlayerModel {
                seconds_passed: (m.player.seconds_passed + 1) as u64,
                ..m.player
            },
            formatted_current_duration: spec_duration(m.player.seconds_passed + 1),
            formatted_total_duration: spec_duration(m.player.total_duration as int),
            ..m
        }),
        m.player.seconds_passed + 1 >= m.player.total_duration ==> {
            let post = step(m, EventModel::Tick);
            &&& post.player.seconds_passed == 0
            &&& post.player.queued_tracks == m.player.queued_tracks
            &&& post.player.is_paused == m.player.is_paused
            &&& match next_index(m.player.queued_tracks, m.player.active_video_id) {
                Some(j) => {
                    &&& post.player.active_video_id == m.player.queued_tracks[j].id
                    &&& post.player.display_name == m.player.queued_tracks[j].display_name
                    &&& post.player.total_duration == m.player.queued_tracks[j].duration
                    &&& post.slider_is_active
                },
                None => {
                    &&& post.player.total_duration == 0
                    &&& post.player.display_name == nothing_playing()
                    &&& !post.slider_is_active
                },
            }
        },
{
    if m.player.seconds_passed + 1 < m.player.total_duration {
        assert(step(m, EventModel::Tick) =~~= (StateModel {
            player: PlayerModel {
                seconds_passed: (m.player.seconds_passed + 1) as u64,
                ..m.player
            },
            formatted_current_duration: spec_duration(m.player.seconds_passed + 1),
            formatted_total_duration: spec_duration(m.player.total_duration as int),
            ..m
        }));
    }
}

/// The state after `n` consecutive ticks.
pub open spec fn ticks(m: StateModel, n: nat) -> StateModel
    decreases n,
{
    if n == 0 {
        m
    } else {
        step(ticks(m, (n - 1) as nat), EventModel::Tick)
    }
}

/// Tick-sequence law: while the transport is not paused, any run of ticks
/// that stays short of the total duration raises the elapsed time by
/// exactly the run's length — one second per tick, and nothing else about
/// the loaded track changes.
pub proof fn lemma_tick_sequence(m: StateModel, n: nat)
    requires
        !m.player.is_paused,
        m.player.seconds_passed + n < m.player.total_duration,
    ensures
        ticks(m, n).player.seconds_passed == m.player.seconds_passed + n,
        ticks(m, n).player.is_paused == m.player.is_paused,
        ticks(m, n).player.total_duration == m.player.total_duration,
        ticks(m, n).player.active_video_id == m.player.active_video_id,
        ticks(m, n).player.queued_tracks == m.player.queued_tracks,
        ticks(m, n).slider_is_active == m.slider_is_active,
    decreases n,
{
    if n > 0 {
        lemma_tick_sequence(m, (n - 1) as nat);
    }
}

/// Pause law: a tick while the transport is paused changes nothing at all —
/// not the elapsed time, and no other field either.
pub proof fn lemma_tick_paused(m: StateModel)
    requires
        m.player.is_paused,
    ensures
        step(m, EventModel::Tick) == m,
{
}

/// Seek law, state half: seeking to the same position twice leaves exactly
/// the state that seeking once leaves. (The command half — that each of the
/// two seeks is mirrored by an identical `SeekTo` command — is stated with
/// the session dispatcher.)
pub proof fn lemma_seek_idempotent(m: StateModel, v: u64)
    ensures
        step(step(m, EventModel::ProgressChanged(v)), EventModel::ProgressChanged(v)) == step(
            m,
            EventModel::ProgressChanged(v),
        ),
{
    assert(step(step(m, EventModel::ProgressChanged(v)), EventModel::ProgressChanged(v)) =~~= step(
        m,
        EventModel::ProgressChanged(v),
    ));
}

/// Volume law: the displayed volume level never leaves the legal slider
/// range — every event either leaves it alone or writes a level within
/// `VOLUME_MAX`.
pub proof fn lemma_volume_level_in_range(m: StateModel, e: EventModel)
    requires
        m.volume_slider <= VOLUME_MAX,
        e matches EventModel::VolumeChanged(v) ==> v <= VOLUME_MAX,
    ensures
        step(m, e).volume_slider <= VOLUME_MAX,
{
}

impl Default for State {
    fn default() -> (r: State)
        ensures
            r@.player == crate::state::empty_player(),
            r@.active_thumbnail is None,
            r@.volume_slider == DEFAULT_VOLUME,
            r@.formatted_current_duration == spec_duration(0),
            r@.formatted_total_duration == spec_duration(0),
            !r@.slider_is_active,
    {
        State {
            player_state: PlayerState::default(),
            active_thumbnail: None,
            volume_slider: DEFAULT_VOLUME,
            formatted_current_duration: duration(0),
            formatted_total_duration: duration(0),
            slider_is_active: false,
        }
    }
}

} // verus!
