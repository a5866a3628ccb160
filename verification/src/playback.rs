use vstd::prelude::*;

use crate::track::{TrackModel, TrackRef};

verus! {

/// A transport command for the audio engine. The channel toward the engine
/// is one-way and fire-and-forget: the engine never answers, and every
/// audible action of the controller is mirrored by exactly one command.
pub enum AudioEvent {
    /// Start playback of the track with this id, together with the queue of
    /// the session it belongs to.
    Queue(String, Vec<TrackRef>),
    PauseToggle,
    SeekTo(u64),
    /// Volume level in tenths: 0 is silent, 10 is full volume.
    SetVolume(u64),
    Mute,
    Unmute,
    Backward,
    Forward,
}

/// Mathematical image of an `AudioEvent`.
#[verifier::ext_equal]
pub enum AudioModel {
    Queue(Seq<char>, Seq<TrackModel>),
    PauseToggle,
    SeekTo(u64),
    SetVolume(u64),
    Mute,
    Unmute,
    Backward,
    Forward,
}

impl DeepView for AudioEvent {
    type V = AudioModel;

    open spec fn deep_view(&self) -> AudioModel {
        self.view()
    }
}

impl View for AudioEvent {
    type V = AudioModel;

    open spec fn view(&self) -> AudioModel {
        match self {
            AudioEvent::Queue(id, q) => AudioModel::Queue(id@, q.deep_view()),
            AudioEvent::PauseToggle => AudioModel::PauseToggle,
            AudioEvent::SeekTo(v) => AudioModel::SeekTo(*v),
            AudioEvent::SetVolume(v) => AudioModel::SetVolume(*v),
            AudioEvent::Mute => AudioModel::Mute,
            AudioEvent::Unmute => AudioModel::Unmute,
            AudioEvent::Backward => AudioModel::Backward,
            AudioEvent::Forward => AudioModel::Forward,
        }
    }
}

} // verus!
