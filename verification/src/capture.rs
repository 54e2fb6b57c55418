//! The capture engine: a rolling pre-roll buffer in front of a two-state
//! recorder.
//!
//! While listening, the engine keeps only the most recent samples, as many as
//! the negotiated format yields in the pre-roll time. A start command freezes
//! that window into the beginning of a take; from then on nothing is evicted
//! until the stop command hands the whole buffer over for writing.

use crate::command::AppCommand;
use crate::command::AudioCommand;
use crate::wav::SampleFormat;
use crate::wav::WavSpec;
use std::collections::VecDeque;
use std::path::PathBuf;
use vstd::prelude::*;

verus! {

/// The negotiated shape of the live stream.
#[derive(Clone, Copy, Debug, PartialEq, Eq)]
pub struct AudioFormat {
    /// Frames per second.
    pub sample_rate: u32,
    /// Interleaved channels per frame.
    pub channels: u32,
}

/// Whether the engine is only listening or is recording a take.
#[derive(Debug)]
pub enum CaptureMode {
    /// Keeping the pre-roll window, evicting the oldest samples.
    Listening,
    /// Accumulating a take that will be written to the given path.
    Recording(PathBuf),
}

/// How the engine answered one command.
#[derive(Debug)]
pub enum CaptureOutcome<T> {
    /// A start command was accepted: the take has begun.
    Started,
    /// A start command was dropped: no stream format is known yet.
    RefusedFormatUnknown,
    /// A start command was dropped: a take is already running.
    RefusedAlreadyRecording,
    /// A stop command was dropped: no take is running.
    RefusedNotRecording,
    /// A stop command ended the take: the pre-roll and everything ingested
    /// since the start, to be written at `path` in the given format.
    Take { buffer: VecDeque<T>, format: AudioFormat, path: PathBuf },
}

/// The last `n` items of `s`, or all of `s` where it has no more than `n`.
pub open spec fn keep_last<T>(s: Seq<T>, n: nat) -> Seq<T> {
    if s.len() <= n {
        s
    } else {
        s.subrange(s.len() - n, s.len() as int)
    }
}

/// The number of samples the stream delivers in `seconds` seconds.
pub open spec fn pre_roll_capacity(format: AudioFormat, seconds: u32) -> nat {
    (format.sample_rate * format.channels * seconds) as nat
}

/// The mathematical state of the capture engine.
pub struct CaptureView<T> {
    /// The stream format, once negotiated.
    pub format: Option<AudioFormat>,
    /// Listening, or recording to a path.
    pub mode: CaptureMode,
    /// The buffered samples, oldest first.
    pub buffer: Seq<T>,
    /// The length of the pre-roll window in seconds.
    pub pre_roll_seconds: u32,
}

impl<T> CaptureView<T> {
    /// The state of a freshly created engine.
    pub open spec fn initial(pre_roll_seconds: u32) -> Self {
        CaptureView {
            format: None,
            mode: CaptureMode::Listening,
            buffer: Seq::empty(),
            pre_roll_seconds,
        }
    }

    /// The most samples that may be buffered while listening.
    pub open spec fn capacity(self) -> nat {
        match self.format {
            Some(format) => pre_roll_capacity(format, self.pre_roll_seconds),
            None => 0,
        }
    }

    /// What every reachable state satisfies: nothing is buffered or recorded
    /// before a format is known, and while listening the buffer stays within
    /// the pre-roll window.
    pub open spec fn wf(self) -> bool {
        &&& self.format is None ==> self.buffer.len() == 0 && self.mode is Listening
        &&& self.mode is Listening ==> self.buffer.len() <= self.capacity()
    }

    /// The state after the stream (re)negotiated `format`.
    pub open spec fn set_format(self, format: AudioFormat) -> Self {
        let capacity = pre_roll_capacity(format, self.pre_roll_seconds);
        CaptureView {
            format: Some(format),
            buffer: if self.mode is Listening {
                keep_last(self.buffer, capacity)
            } else {
                self.buffer
            },
            ..self
        }
    }

    /// The state after one block of samples arrived.
    pub open spec fn ingest(self, samples: Seq<T>) -> Self {
        if self.format is None {
            self
        } else if self.mode is Listening {
            CaptureView { buffer: keep_last(self.buffer + samples, self.capacity()), ..self }
        } else {
            CaptureView { buffer: self.buffer + samples, ..self }
        }
    }

    /// Whether a start command is accepted in this state.
    pub open spec fn accepts_start(self) -> bool {
        self.format is Some && self.mode is Listening
    }

    /// The state after a start command for `path`.
    pub open spec fn start(self, path: PathBuf) -> Self {
        if self.accepts_start() {
            CaptureView { mode: CaptureMode::Recording(path), ..self }
        } else {
            self
        }
    }

    /// Whether a stop command is accepted in this state.
    pub open spec fn accepts_stop(self) -> bool {
        self.mode is Recording
    }

    /// The state after a stop command.
    pub open spec fn stop(self) -> Self {
        if self.accepts_stop() {
            CaptureView { mode: CaptureMode::Listening, buffer: Seq::empty(), ..self }
        } else {
            self
        }
    }

    /// The state after `command`.
    pub open spec fn handle(self, command: AudioCommand) -> Self {
        match command {
            AudioCommand::Start(path) => self.start(path),
            AudioCommand::Stop => self.stop(),
        }
    }
}

/// The answer that `command` gets in state `before`.
pub open spec fn outcome_matches<T>(
    before: CaptureView<T>,
    command: AudioCommand,
    outcome: CaptureOutcome<T>,
) -> bool {
    match command {
        AudioCommand::Start(_) => {
            if before.format is None {
                outcome is RefusedFormatUnknown
            } else if before.mode is Listening {
                outcome is Started
            } else {
                outcome is RefusedAlreadyRecording
            }
        },
        AudioCommand::Stop => match before.mode {
            CaptureMode::Recording(target) => {
                &&& outcome matches CaptureOutcome::Take { buffer, format, path }
                &&& buffer@ == before.buffer
                &&& Some(format) == before.format
                &&& path == target
            },
            CaptureMode::Listening => outcome is RefusedNotRecording,
        },
    }
}

/// The capture engine's state: the negotiated format, the mode and the
/// sample buffer.
pub struct CaptureState<T> {
    /// The negotiated format with the pre-roll capacity derived from it.
    stream: Option<(AudioFormat, usize)>,
    mode: CaptureMode,
    buffer: VecDeque<T>,
    pre_roll_seconds: u32,
}

impl<T> View for CaptureState<T> {
    type V = CaptureView<T>;

    closed spec fn view(&self) -> CaptureView<T> {
        CaptureView {
            format: match self.stream {
                Some((format, _)) => Some(format),
                None => None,
            },
            mode: self.mode,
            buffer: self.buffer@,
            pre_roll_seconds: self.pre_roll_seconds,
        }
    }
}

impl<T> CaptureState<T> {
    #[verifier::type_invariant]
    spec fn inv(self) -> bool {
        &&& self@.wf()
        &&& self.stream matches Some((_, capacity)) ==> capacity == self@.capacity()
    }
}

/// The product behind the pre-roll capacity, in a type wide enough for any
/// format and window.
fn wide_pre_roll_capacity(format: AudioFormat, seconds: u32) -> (total: u128)
    ensures
        total == pre_roll_capacity(format, seconds),
{
    let rate: u128 = format.sample_rate as u128;
    let channels: u128 = format.channels as u128;
    let window: u128 = seconds as u128;
    assert(rate * channels <= 0xffff_ffff * 0xffff_ffff) by (nonlinear_arith)
        requires
            rate <= 0xffff_ffff,
            channels <= 0xffff_ffff,
    ;
    let per_second: u128 = rate * channels;
    assert(per_second * window <= 0xffff_ffff * 0xffff_ffff * 0xffff_ffff) by (nonlinear_arith)
        requires
            per_second <= 0xffff_ffff * 0xffff_ffff,
            window <= 0xffff_ffff,
    ;
    per_second * window
}

/// The pre-roll capacity for `format`, or `None` where it exceeds what a
/// buffer of this machine can be asked to hold.
pub fn checked_pre_roll_capacity(format: AudioFormat, seconds: u32) -> (capacity: Option<usize>)
    ensures
        capacity == (if pre_roll_capacity(format, seconds) <= usize::MAX {
            Some(pre_roll_capacity(format, seconds) as usize)
        } else {
            None
        }),
{
    let total = wide_pre_roll_capacity(format, seconds);
    if total <= usize::MAX as u128 {
        Some(total as usize)
    } else {
        None
    }
}

/// Drops samples from the front of `buffer` until no more than `capacity`
/// are left.
fn evict_oldest<T>(buffer: &mut VecDeque<T>, capacity: usize)
    ensures
        final(buffer)@ == keep_last(old(buffer)@, capacity as nat),
{
    let ghost before = buffer@;
    while buffer.len() > capacity
        invariant
            buffer@.len() <= before.len(),
            buffer@.len() >= capacity || buffer@.len() == before.len(),
            buffer@ == before.subrange(before.len() - buffer@.len(), before.len() as int),
        decreases buffer@.len(),
    {
        buffer.pop_front();
    }
    assert(buffer@ =~= keep_last(before, capacity as nat));
}

/// Appends `samples` to the back of `buffer`, in order.
fn append_samples<T: Copy>(buffer: &mut VecDeque<T>, samples: &[T])
    ensures
        final(buffer)@ == old(buffer)@ + samples@,
{
    let ghost before = buffer@;
    let mut i: usize = 0;
    while i < samples.len()
        invariant
            i <= samples@.len(),
            buffer@ == before + samples@.subrange(0, i as int),
        decreases samples@.len() - i,
    {
        buffer.push_back(samples[i]);
        i += 1;
    }
    assert(samples@.subrange(0, i as int) == samples@);
}

impl<T: Copy> CaptureState<T> {
    /// An engine that listens, knows no format yet and has buffered nothing.
    pub fn new(pre_roll_seconds: u32) -> (state: Self)
        ensures
            state@ == CaptureView::<T>::initial(pre_roll_seconds),
    {
        CaptureState {
            stream: None,
            mode: CaptureMode::Listening,
            buffer: VecDeque::new(),
            pre_roll_seconds,
        }
    }

    /// Records the format that the stream (re)negotiated and derives the
    /// pre-roll capacity from it. While listening, samples beyond the new
    /// capacity are evicted at once, oldest first.
    pub fn set_format(&mut self, format: AudioFormat)
        requires
            pre_roll_capacity(format, old(self)@.pre_roll_seconds) <= usize::MAX,
        ensures
            final(self)@ == old(self)@.set_format(format),
            final(self)@.wf(),
    {
        proof {
            use_type_invariant(&*self);
        }
        let capacity = wide_pre_roll_capacity(format, self.pre_roll_seconds) as usize;
        if self.is_listening() {
            let mut buffer = VecDeque::new();
            core::mem::swap(&mut self.buffer, &mut buffer);
            evict_oldest(&mut buffer, capacity);
            core::mem::swap(&mut self.buffer, &mut buffer);
        }
        self.stream = Some((format, capacity));
    }

    /// Takes in one block of samples from the live stream. Before a format
    /// is known the block is ignored. Otherwise it is appended whole; while
    /// listening, the oldest samples beyond the pre-roll capacity are then
    /// evicted, and while recording nothing is.
    pub fn ingest(&mut self, samples: &[T])
        ensures
            final(self)@ == old(self)@.ingest(samples@),
            final(self)@.wf(),
    {
        proof {
            use_type_invariant(&*self);
        }
        let capacity = match self.stream {
            Some((_, capacity)) => capacity,
            None => {
                return ;
            },
        };
        let listening = self.is_listening();
        let mut buffer = VecDeque::new();
        core::mem::swap(&mut self.buffer, &mut buffer);
        append_samples(&mut buffer, samples);
        if listening {
            evict_oldest(&mut buffer, capacity);
        }
        core::mem::swap(&mut self.buffer, &mut buffer);
    }

    /// Carries out one command. A start while listening with a known format
    /// begins a take and keeps the buffered pre-roll; a stop while recording
    /// ends it and hands the whole buffer over, leaving an empty one behind.
    /// Every other command is refused and changes nothing.
    pub fn handle(&mut self, command: AudioCommand) -> (outcome: CaptureOutcome<T>)
        ensures
            final(self)@ == old(self)@.handle(command),
            outcome_matches(old(self)@, command, outcome),
            final(self)@.wf(),
    {
        proof {
            use_type_invariant(&*self);
        }
        match command {
            AudioCommand::Start(path) => {
                if self.stream.is_none() {
                    CaptureOutcome::RefusedFormatUnknown
                } else if self.is_listening() {
                    self.mode = CaptureMode::Recording(path);
                    CaptureOutcome::Started
                } else {
                    CaptureOutcome::RefusedAlreadyRecording
                }
            },
            AudioCommand::Stop => {
                let mut buffer = VecDeque::new();
                core::mem::swap(&mut self.buffer, &mut buffer);
                let mut mode = CaptureMode::Listening;
                core::mem::swap(&mut self.mode, &mut mode);
                match mode {
                    CaptureMode::Recording(path) => {
                        let (format, _) = self.stream.unwrap();
                        CaptureOutcome::Take { buffer, format, path }
                    },
                    CaptureMode::Listening => {
                        core::mem::swap(&mut self.buffer, &mut buffer);
                        CaptureOutcome::RefusedNotRecording
                    },
                }
            },
        }
    }

    /// The negotiated stream format, if any.
    pub fn format(&self) -> (format: Option<AudioFormat>)
        ensures
            format == self@.format,
    {
        match self.stream {
            Some((format, _)) => Some(format),
            None => None,
        }
    }

    /// The most samples that are kept while listening.
    pub fn capacity(&self) -> (capacity: usize)
        ensures
            capacity == self@.capacity(),
    {
        proof {
            use_type_invariant(self);
        }
        match self.stream {
            Some((_, capacity)) => capacity,
            None => 0,
        }
    }

    /// How many samples are buffered.
    pub fn buffered(&self) -> (count: usize)
        ensures
            count == self@.buffer.len(),
    {
        self.buffer.len()
    }

    /// A copy of the buffered samples, oldest first.
    pub fn samples(&self) -> (samples: Vec<T>)
        ensures
            samples@ == self@.buffer,
    {
        let mut samples = Vec::new();
        let mut i: usize = 0;
        while i < self.buffer.len()
            invariant
                i <= self.buffer@.len(),
                samples@ == self.buffer@.subrange(0, i as int),
            decreases self.buffer@.len() - i,
        {
            samples.push(self.buffer[i]);
            i += 1;
        }
        assert(self.buffer@.subrange(0, i as int) == self.buffer@);
        samples
    }

    /// Whether no take is running.
    pub fn is_listening(&self) -> (listening: bool)
        ensures
            listening == (self@.mode is Listening),
    {
        match &self.mode {
            CaptureMode::Listening => true,
            CaptureMode::Recording(_) => false,
        }
    }
}

/// The header under which a take in `format` is persisted: 32-bit floats,
/// as the capture pipeline holds them, at the stream's rate and channel
/// count. The header has 16 bits for the channel count and keeps the low 16
/// of the stream's.
pub open spec fn recording_spec(format: AudioFormat) -> WavSpec {
    WavSpec {
        channels: (format.channels % 0x1_0000) as u16,
        sample_rate: format.sample_rate,
        bits_per_sample: 32,
        sample_format: SampleFormat::Float,
    }
}

/// A take that is ready to be written.
#[derive(Debug)]
pub struct SaveJob<T> {
    /// The header fields of the file.
    pub spec: WavSpec,
    /// Every sample of the take, oldest first.
    pub samples: VecDeque<T>,
    /// Where the file goes.
    pub path: PathBuf,
}

/// Decides what is written for a finished take. An empty take is dropped:
/// no file comes of it. Any other take is written whole to `filename`,
/// under the header of `recording_spec`.
pub fn save_recording_from_buffer<T>(
    buffer: VecDeque<T>,
    format: &AudioFormat,
    filename: PathBuf,
) -> (job: Option<SaveJob<T>>)
    ensures
        buffer@.len() == 0 ==> job is None,
        buffer@.len() > 0 ==> {
            &&& job matches Some(job)
            &&& job.spec == recording_spec(*format)
            &&& job.samples@ == buffer@
            &&& job.path == filename
        },
{
    if buffer.len() == 0 {
        None
    } else {
        let spec = WavSpec {
            channels: (format.channels % 0x1_0000) as u16,
            sample_rate: format.sample_rate,
            bits_per_sample: 32,
            sample_format: SampleFormat::Float,
        };
        Some(SaveJob { spec, samples: buffer, path: filename })
    }
}

/// The notification that follows an attempt to write a take: the path is
/// announced as saved only where the file was written in full.
pub fn saved_notice(path: PathBuf, written: bool) -> (notice: Option<AppCommand>)
    ensures
        notice == (if written {
            Some(AppCommand::FileSaved(path))
        } else {
            None
        }),
{
    if written {
        Some(AppCommand::FileSaved(path))
    } else {
        None
    }
}

/// The state after the blocks of `blocks` arrived one after another.
pub open spec fn ingest_all<T>(state: CaptureView<T>, blocks: Seq<Seq<T>>) -> CaptureView<T>
    decreases blocks.len(),
{
    if blocks.len() == 0 {
        state
    } else {
        ingest_all(state.ingest(blocks.first()), blocks.drop_first())
    }
}

/// Keeping the last `n` of a sequence, appending, and keeping the last `n`
/// again gives what keeping the last `n` of the whole gives.
pub proof fn lemma_keep_last_absorbs<T>(older: Seq<T>, newer: Seq<T>, n: nat)
    ensures
        keep_last(keep_last(older, n) + newer, n) == keep_last(older + newer, n),
        keep_last(older, n).len() <= n,
{
    assert(keep_last(keep_last(older, n) + newer, n) =~= keep_last(older + newer, n));
}

/// Every command and every block of samples leads from a well-formed state
/// to a well-formed one: while the engine listens, it never holds more
/// than the pre-roll capacity.
pub proof fn lemma_steps_preserve_wf<T>(
    state: CaptureView<T>,
    samples: Seq<T>,
    command: AudioCommand,
    format: AudioFormat,
)
    requires
        state.wf(),
    ensures
        state.ingest(samples).wf(),
        state.handle(command).wf(),
        state.set_format(format).wf(),
{
}

/// While the engine listens, whatever blocks arrive, it holds the most
/// recent samples and no more of them than the pre-roll capacity: the
/// oldest are evicted first.
pub proof fn lemma_pre_roll_window<T>(state: CaptureView<T>, blocks: Seq<Seq<T>>)
    requires
        state.wf(),
        state.mode is Listening,
    ensures
        ingest_all(state, blocks).buffer.len() <= state.capacity(),
        ingest_all(state, blocks).mode is Listening,
        ingest_all(state, blocks).format == state.format,
        state.format is Some ==> ingest_all(state, blocks).buffer == keep_last(
            state.buffer + blocks.flatten(),
            state.capacity(),
        ),
    decreases blocks.len(),
{
    if blocks.len() == 0 {
        assert(state.buffer + blocks.flatten() =~= state.buffer);
    } else {
        let next = state.ingest(blocks.first());
        lemma_pre_roll_window(next, blocks.drop_first());
        if state.format is Some {
            let rest = blocks.drop_first().flatten();
            lemma_keep_last_absorbs(state.buffer + blocks.first(), rest, state.capacity());
            assert((state.buffer + blocks.first()) + rest =~= state.buffer + blocks.flatten());
        }
    }
}

/// While a take is running, nothing is evicted: the buffer is what it was,
/// followed by every block that arrived, in order.
pub proof fn lemma_recording_accumulates<T>(state: CaptureView<T>, blocks: Seq<Seq<T>>)
    requires
        state.wf(),
        state.mode is Recording,
    ensures
        ingest_all(state, blocks).buffer == state.buffer + blocks.flatten(),
        ingest_all(state, blocks).mode == state.mode,
        ingest_all(state, blocks).format == state.format,
    decreases blocks.len(),
{
    if blocks.len() == 0 {
        assert(state.buffer + blocks.flatten() =~= state.buffer);
    } else {
        let next = state.ingest(blocks.first());
        lemma_recording_accumulates(next, blocks.drop_first());
        let rest = blocks.drop_first().flatten();
        assert((state.buffer + blocks.first()) + rest =~= state.buffer + blocks.flatten());
    }
}

/// Nothing buffered before a start is lost: the take that the following
/// stop hands to the writer begins with exactly the samples that were
/// buffered when the start was accepted, in their order, followed by what
/// arrived since; and the stop leaves an empty buffer and a listening
/// engine behind.
pub proof fn lemma_take_begins_with_pre_roll<T>(
    state: CaptureView<T>,
    path: PathBuf,
    blocks: Seq<Seq<T>>,
    outcome: CaptureOutcome<T>,
)
    requires
        state.wf(),
        state.accepts_start(),
        outcome_matches(
            ingest_all(state.handle(AudioCommand::Start(path)), blocks),
            AudioCommand::Stop,
            outcome,
        ),
    ensures
        outcome matches CaptureOutcome::Take { buffer, format, path: target } && {
            &&& buffer@ == state.buffer + blocks.flatten()
            &&& state.buffer.is_prefix_of(buffer@)
            &&& Some(format) == state.format
            &&& target == path
        },
        ({
            let after = ingest_all(state.handle(AudioCommand::Start(path)), blocks).handle(
                AudioCommand::Stop,
            );
            &&& after.mode is Listening
            &&& after.buffer.len() == 0
            &&& after.format == state.format
        }),
{
    let recording = state.handle(AudioCommand::Start(path));
    lemma_recording_accumulates(recording, blocks);
}

/// A stop that arrives while the engine listens is refused: the state
/// stays as it was and nothing is handed to the writer, however often the
/// stop is repeated.
pub proof fn lemma_stop_while_listening_is_refused<T>(
    state: CaptureView<T>,
    outcome: CaptureOutcome<T>,
)
    requires
        state.mode is Listening,
        outcome_matches(state, AudioCommand::Stop, outcome),
    ensures
        state.handle(AudioCommand::Stop) == state,
        outcome is RefusedNotRecording,
{
}

} // verus!
