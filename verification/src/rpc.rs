use vstd::prelude::*;

verus! {

/// A snapshot for the optional presence mirror. The channel toward the
/// mirror is best-effort and purely informational: playback never depends
/// on these being delivered.
pub enum RpcEvent {
    /// Playback started: display name and total duration, rendered as text.
    SetTrack(String, String),
    /// One tick of progress: display name, elapsed and total, as text.
    SetProgress(String, String, String),
    /// The presence feature was switched off at runtime.
    Hide,
}

/// Mathematical image of an `RpcEvent`.
#[verifier::ext_equal]
pub enum RpcModel {
    SetTrack(Seq<char>, Seq<char>),
    SetProgress(Seq<char>, Seq<char>, Seq<char>),
    Hide,
}

impl DeepView for RpcEvent {
    type V = RpcModel;

    open spec fn deep_view(&self) -> RpcModel {
        self.view()
    }
}

impl View for RpcEvent {
    type V = RpcModel;

    open spec fn view(&self) -> RpcModel {
        match self {
            RpcEvent::SetTrack(name, total) => RpcModel::SetTrack(name@, total@),
            RpcEvent::SetProgress(name, elapsed, total) => RpcModel::SetProgress(
                name@,
                elapsed@,
                total@,
            ),
            RpcEvent::Hide => RpcModel::Hide,
        }
    }
}

} // verus!
