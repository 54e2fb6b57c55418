//! The playback engine's bookkeeping: which voice sounds at which pad.
//!
//! The engine decides; the caller carries out. Every sound that is started
//! gets a voice with an identifier that is never given out again. A pad
//! address holds at most one voice: playing on an occupied address displaces
//! the voice that was there, which the caller then fades out. A deferred
//! stop names the voice it was scheduled for, so one that fires after its
//! voice was stopped or displaced finds nothing to do.

use std::collections::HashMap;
use vstd::prelude::*;

verus! {

broadcast use vstd::std_specs::hash::group_hash_axioms;

/// How long a fade-out or a change of rate or volume is smoothed, in
/// milliseconds.
pub const FADE_MILLIS: u64 = 10;

/// One started sound.
#[derive(Clone, Copy, Debug, PartialEq, Eq)]
pub struct Voice {
    /// The pad address that the voice was started on.
    pub address: u8,
    /// What tells this voice from every other that the engine started.
    pub id: u64,
}

/// What a play command changed.
#[derive(Clone, Copy, Debug, PartialEq, Eq)]
pub struct PlayStep {
    /// The voice that now sounds at the address.
    pub voice: Voice,
    /// The voice that sounded there before and has to fade out, with its
    /// deferred stop cancelled.
    pub displaced: Option<Voice>,
}

/// The mathematical state of the playback engine.
pub struct PlaybackView {
    /// The sounding voice of each occupied address.
    pub voices: Map<u8, Voice>,
    /// How many voices were started so far.
    pub started: nat,
}

impl PlaybackView {
    /// The state of a freshly created engine.
    pub open spec fn initial() -> Self {
        PlaybackView { voices: Map::empty(), started: 0 }
    }

    /// What every reachable state satisfies: a voice is filed under its own
    /// address, and its identifier is one that was already given out.
    pub open spec fn wf(self) -> bool {
        forall|address: u8| #[trigger]
            self.voices.contains_key(address) ==> self.voices[address].address == address
                && self.voices[address].id < self.started
    }

    /// The voice that sounds at `address`, if any.
    pub open spec fn voice_at(self, address: u8) -> Option<Voice> {
        if self.voices.contains_key(address) {
            Some(self.voices[address])
        } else {
            None
        }
    }

    /// Whether `voice` is sounding.
    pub open spec fn is_sounding(self, voice: Voice) -> bool {
        self.voice_at(voice.address) == Some(voice)
    }

    /// The voice that the next play command on `address` starts.
    pub open spec fn next_voice(self, address: u8) -> Voice {
        Voice { address, id: self.started as u64 }
    }

    /// The state after a play command on `address`.
    pub open spec fn play(self, address: u8) -> Self {
        PlaybackView {
            voices: self.voices.insert(address, self.next_voice(address)),
            started: self.started + 1,
        }
    }

    /// The state after a stop command on `address`.
    pub open spec fn stop(self, address: u8) -> Self {
        PlaybackView { voices: self.voices.remove(address), ..self }
    }

    /// The state after `voice` was withdrawn: its address is vacated if it
    /// still sounds there, and nothing changes if it does not.
    pub open spec fn withdraw(self, voice: Voice) -> Self {
        if self.is_sounding(voice) {
            self.stop(voice.address)
        } else {
            self
        }
    }
}

/// The table of sounding voices.
pub struct PlaybackEngine {
    voices: HashMap<u8, Voice>,
    next_id: u64,
}

impl View for PlaybackEngine {
    type V = PlaybackView;

    closed spec fn view(&self) -> PlaybackView {
        PlaybackView { voices: self.voices@, started: self.next_id as nat }
    }
}

impl PlaybackEngine {
    #[verifier::type_invariant]
    spec fn inv(self) -> bool {
        self@.wf()
    }

    /// An engine in which nothing sounds.
    pub fn new() -> (engine: Self)
        ensures
            engine@ == PlaybackView::initial(),
    {
        PlaybackEngine { voices: HashMap::new(), next_id: 0 }
    }

    /// How many voices were started so far.
    pub fn started(&self) -> (started: u64)
        ensures
            started == self@.started,
    {
        self.next_id
    }

    /// The voice that sounds at `address`, if any: the one that a change of
    /// rate or volume for `address` applies to. Where there is none, such a
    /// change is dropped.
    pub fn voice_at(&self, address: u8) -> (voice: Option<Voice>)
        ensures
            voice == self@.voice_at(address),
    {
        match self.voices.get(&address) {
            Some(voice) => Some(*voice),
            None => None,
        }
    }

    /// Carries out a play command: a new voice takes the address, and the
    /// voice that held it, if any, is handed back to be faded out.
    pub fn play(&mut self, address: u8) -> (step: PlayStep)
        requires
            old(self)@.started < u64::MAX,
        ensures
            final(self)@ == old(self)@.play(address),
            step.voice == old(self)@.next_voice(address),
            step.displaced == old(self)@.voice_at(address),
            final(self)@.wf(),
    {
        proof {
            use_type_invariant(&*self);
        }
        let voice = Voice { address, id: self.next_id };
        // The table is taken out while it changes, so that the engine is
        // valid at every step.
        let mut voices = HashMap::new();
        core::mem::swap(&mut self.voices, &mut voices);
        let displaced = voices.insert(address, voice);
        self.next_id = self.next_id + 1;
        core::mem::swap(&mut self.voices, &mut voices);
        PlayStep { voice, displaced }
    }

    /// Carries out a stop command: the address is vacated, and the voice
    /// that held it, if any, is handed back to be faded out. Where nothing
    /// sounds at the address, nothing changes.
    pub fn stop(&mut self, address: u8) -> (stopped: Option<Voice>)
        ensures
            final(self)@ == old(self)@.stop(address),
            stopped == old(self)@.voice_at(address),
            final(self)@.wf(),
    {
        proof {
            use_type_invariant(&*self);
        }
        let mut voices = HashMap::new();
        core::mem::swap(&mut self.voices, &mut voices);
        let stopped = voices.remove(&address);
        core::mem::swap(&mut self.voices, &mut voices);
        stopped
    }

    /// Carries out the deferred stop that was scheduled for `voice` when it
    /// started. Where `voice` still sounds, it is stopped, and `true` says
    /// that it has to fade out. Where it was stopped or displaced before,
    /// nothing changes.
    pub fn deferred_stop(&mut self, voice: Voice) -> (stopped: bool)
        ensures
            final(self)@ == old(self)@.withdraw(voice),
            stopped == old(self)@.is_sounding(voice),
            final(self)@.wf(),
    {
        self.withdraw(voice)
    }

    /// Takes back the registration of `voice` after its sound could not be
    /// started: no voice stays registered for a sound that never played.
    /// `true` says that `voice` was registered until now.
    pub fn start_failed(&mut self, voice: Voice) -> (withdrawn: bool)
        ensures
            final(self)@ == old(self)@.withdraw(voice),
            withdrawn == old(self)@.is_sounding(voice),
            final(self)@.wf(),
    {
        self.withdraw(voice)
    }

    fn withdraw(&mut self, voice: Voice) -> (withdrawn: bool)
        ensures
            final(self)@ == old(self)@.withdraw(voice),
            withdrawn == old(self)@.is_sounding(voice),
            final(self)@.wf(),
    {
        proof {
            use_type_invariant(&*self);
        }
        match self.voice_at(voice.address) {
            Some(current) => {
                if current.id == voice.id {
                    self.stop(voice.address);
                    true
                } else {
                    false
                }
            },
            None => false,
        }
    }
}

/// Every command leads from a well-formed state to a well-formed one.
pub proof fn lemma_steps_preserve_wf(state: PlaybackView, address: u8, voice: Voice)
    requires
        state.wf(),
        state.started < u64::MAX,
    ensures
        state.play(address).wf(),
        state.stop(address).wf(),
        state.withdraw(voice).wf(),
{
}

/// An address holds one voice at a time, the one played last. After two
/// play commands on `address` with no stop between them, the voice of the
/// second sounds there and no other does; the voice of the first was handed
/// back by the second command to be faded out, and sounds no more.
pub proof fn lemma_replay_replaces(state: PlaybackView, address: u8)
    requires
        state.wf(),
        state.started + 1 < u64::MAX,
    ensures
        ({
            let first = state.next_voice(address);
            let between = state.play(address);
            let second = between.next_voice(address);
            let after = between.play(address);
            &&& between.voice_at(address) == Some(first)
            &&& after.voice_at(address) == Some(second)
            &&& first != second
            &&& !after.is_sounding(first)
            &&& forall|voice: Voice|
                voice.address == address && #[trigger] after.is_sounding(voice) ==> voice
                    == second
        }),
{
}

/// A voice names one sound for good: whatever is played or stopped after a
/// voice went silent, that voice never sounds again.
pub proof fn lemma_silent_voice_stays_silent(
    state: PlaybackView,
    voice: Voice,
    address: u8,
    other: Voice,
)
    requires
        state.wf(),
        state.started < u64::MAX,
        voice.id < state.started,
        !state.is_sounding(voice),
    ensures
        !state.play(address).is_sounding(voice),
        !state.stop(address).is_sounding(voice),
        !state.withdraw(other).is_sounding(voice),
{
}

/// A deferred stop is suppressed by an explicit stop and by a re-trigger.
/// Once the address of a sounding voice was stopped, or played again, the
/// deferred stop of that voice changes nothing: it does not touch the voice
/// that took the address.
pub proof fn lemma_deferred_stop_is_suppressed(state: PlaybackView, voice: Voice)
    requires
        state.wf(),
        state.started < u64::MAX,
        state.is_sounding(voice),
    ensures
        state.stop(voice.address).withdraw(voice) == state.stop(voice.address),
        state.play(voice.address).withdraw(voice) == state.play(voice.address),
        state.play(voice.address).voice_at(voice.address) == Some(
            state.next_voice(voice.address),
        ),
{
}

/// A deferred stop that is not suppressed does what a stop command does.
pub proof fn lemma_deferred_stop_stops(state: PlaybackView, voice: Voice)
    requires
        state.is_sounding(voice),
    ensures
        state.withdraw(voice) == state.stop(voice.address),
        state.withdraw(voice).voice_at(voice.address) is None,
{
}

/// Voices at different addresses do not touch each other: what is played,
/// stopped or withdrawn at one address leaves every other address as it
/// was.
pub proof fn lemma_addresses_are_independent(
    state: PlaybackView,
    address: u8,
    voice: Voice,
    elsewhere: u8,
)
    requires
        elsewhere != address,
        elsewhere != voice.address,
    ensures
        state.play(address).voice_at(elsewhere) == state.voice_at(elsewhere),
        state.stop(address).voice_at(elsewhere) == state.voice_at(elsewhere),
        state.withdraw(voice).voice_at(elsewhere) == state.voice_at(elsewhere),
{
}

/// Stopping an address where nothing sounds changes nothing.
pub proof fn lemma_stop_of_silent_address(state: PlaybackView, address: u8)
    requires
        state.voice_at(address) is None,
    ensures
        state.stop(address) == state,
{
    assert(state.stop(address).voices =~= state.voices);
}

} // verus!
