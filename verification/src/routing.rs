//! Where playback is audible: on the default speaker, through the mixer,
//! on both or on neither.

use vstd::prelude::*;

verus! {

/// The outputs that playback is linked to.
#[derive(Debug, PartialEq, Eq, Clone, Copy)]
pub enum PlaybackSink {
    /// The default speaker only.
    Default,
    /// The mixer only.
    Mixer,
    /// The default speaker and the mixer.
    Both,
    /// Neither: playback is muted.
    Muted,
}

/// Which of the two output links has to be connected; the other one has to
/// be disconnected.
#[derive(Debug, PartialEq, Eq, Clone, Copy)]
pub struct LinkPlan {
    /// The link to the default speaker.
    pub default_speaker: bool,
    /// The link to the mixer.
    pub mixer: bool,
}

impl PlaybackSink {
    /// The sink that the two routing switches select. The second switch
    /// links the default speaker; the first one unlinks the mixer.
    pub fn from_switches(mute_enabled: bool, solo_enabled: bool) -> (sink: PlaybackSink)
        ensures
            sink == (if mute_enabled {
                if solo_enabled {
                    PlaybackSink::Default
                } else {
                    PlaybackSink::Muted
                }
            } else {
                if solo_enabled {
                    PlaybackSink::Both
                } else {
                    PlaybackSink::Mixer
                }
            }),
            sink.plan() == (LinkPlan { default_speaker: solo_enabled, mixer: !mute_enabled }),
    {
        match (mute_enabled, solo_enabled) {
            (true, true) => PlaybackSink::Default,
            (false, true) => PlaybackSink::Both,
            (false, false) => PlaybackSink::Mixer,
            (true, false) => PlaybackSink::Muted,
        }
    }

    /// The links that this sink asks for.
    pub open spec fn plan(self) -> LinkPlan {
        LinkPlan {
            default_speaker: self is Default || self is Both,
            mixer: self is Mixer || self is Both,
        }
    }

    /// The links that have to be connected, and those that have to be
    /// disconnected, for playback to reach this sink and no other.
    pub fn links(self) -> (plan: LinkPlan)
        ensures
            plan == self.plan(),
    {
        match self {
            PlaybackSink::Default => LinkPlan { default_speaker: true, mixer: false },
            PlaybackSink::Mixer => LinkPlan { default_speaker: false, mixer: true },
            PlaybackSink::Both => LinkPlan { default_speaker: true, mixer: true },
            PlaybackSink::Muted => LinkPlan { default_speaker: false, mixer: false },
        }
    }
}

} // verus!
