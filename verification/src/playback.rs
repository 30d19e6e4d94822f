//! The playback controller: the engine's state and the operations on it.

use crate::clock::{estimate_duration, estimated_duration, Timeline, NANOS_PER_SECOND};
use crate::paths::file_name_text;
use crate::queue::SampleQueue;
use crate::session::Session;
use crate::timecode::{format_timecode, timecode};
use crate::volume::{Volume, VOLUME_MAX};
use std::path::PathBuf;
use vstd::prelude::*;
use vstd::string::*;

verus! {

/// Why an operation of the controller was refused.
#[derive(Clone, Copy, Debug, PartialEq, Eq)]
pub enum PlaybackError {
    /// The engine cannot do this; seeking is the one such operation.
    Unsupported,
}

impl PlaybackError {
    /// What to tell the user.
    pub open spec fn message_text(self) -> Seq<char> {
        match self {
            PlaybackError::Unsupported => "seeking is not supported"@,
        }
    }

    /// Computes [`PlaybackError::message_text`].
    pub fn message(&self) -> (text: String)
        ensures
            text@ == self.message_text(),
    {
        match self {
            PlaybackError::Unsupported => String::from_str("seeking is not supported"),
        }
    }
}

/// What a request of the output device was answered with.
#[derive(Clone, Copy, Debug, PartialEq, Eq)]
pub enum SinkOutcome {
    /// Paused: silence, and nothing was consumed.
    Silenced,
    /// Too few samples were queued: silence, and nothing was consumed.
    Underrun,
    /// The request was filled from the queue.
    Played,
}

/// How far the track has played, as the fraction `numerator / denominator`.
#[derive(Clone, Copy, Debug, PartialEq, Eq)]
pub struct Progress {
    pub numerator: u64,
    pub denominator: u64,
}

/// The answer that a request for `n` samples gets in state `s`.
pub open spec fn sink_outcome<T>(s: Session<T>, n: int) -> SinkOutcome {
    if s.paused {
        SinkOutcome::Silenced
    } else if s.queue.len() < n {
        SinkOutcome::Underrun
    } else {
        SinkOutcome::Played
    }
}

/// The text of a name, where there is one.
pub open spec fn name_view(name: Option<String>) -> Option<Seq<char>> {
    match name {
        Some(text) => Some(text@),
        None => None,
    }
}

/// The engine: transport state, volume, track data and the sample queue.
///
/// The engine does no input or output and reads no clock. Its owner calls
/// the controller operations from the user interface, the producer
/// operations from the thread that decodes, and [`AudioPlayer::render`] from
/// the callback of the output device, and passes the current instant where
/// one is needed.
pub struct AudioPlayer<T> {
    audio_buffer: SampleQueue<T>,
    should_stop: bool,
    timeline: Timeline,
    is_playing: bool,
    is_paused: bool,
    current_song: Option<String>,
    current_volume: Volume,
    current_path: Option<PathBuf>,
    underruns: u32,
}

impl<T> View for AudioPlayer<T> {
    type V = Session<T>;

    closed spec fn view(&self) -> Session<T> {
        Session {
            queue: self.audio_buffer@,
            stop_requested: self.should_stop,
            playing: self.is_playing,
            paused: self.is_paused,
            position: self.timeline.position(),
            total: self.timeline.total(),
            anchor: self.timeline.anchor(),
            volume: self.current_volume.level(),
            underruns: self.underruns as int,
            song: name_view(self.current_song),
            path: self.current_path,
        }
    }
}

impl<T> AudioPlayer<T> {
    /// Every engine is in a well-formed state: the position within the
    /// length, the volume within its range.
    pub proof fn lemma_wf(self)
        ensures
            self@.wf(),
    {
        self.timeline.lemma_wf();
        self.current_volume.lemma_in_range();
    }
}

impl<T: Copy> AudioPlayer<T> {
    /// A new engine: stopped, nothing loaded, full volume.
    pub fn new() -> (player: Self)
        ensures
            player@ == Session::<T>::initial(),
    {
        AudioPlayer {
            audio_buffer: SampleQueue::new(),
            should_stop: false,
            timeline: Timeline::new(),
            is_playing: false,
            is_paused: false,
            current_song: None,
            current_volume: Volume::full(),
            current_path: None,
            underruns: 0,
        }
    }

    /// Ends the session: raises the stop signal for the producer, stops the
    /// transport and clears the queue. The caller then waits for the
    /// producer to end.
    pub fn stop(&mut self)
        ensures
            final(self)@ == old(self)@.stopped(),
    {
        self.should_stop = true;
        self.is_playing = false;
        self.is_paused = false;
        self.audio_buffer.clear();
    }

    /// Begins a session for `path` at `now`, with `name` as the display name
    /// where there is one. Position, length, underrun count and pause flag
    /// start afresh and the stop signal is withdrawn.
    pub fn begin_session(&mut self, path: PathBuf, name: Option<String>, now: u64)
        ensures
            final(self)@ == old(self)@.started(path, name_view(name), now as int),
    {
        self.timeline.restart(now);
        self.is_playing = true;
        self.is_paused = false;
        self.current_path = Some(path);
        self.underruns = 0;
        if name.is_some() {
            self.current_song = name;
        }
        self.should_stop = false;
    }

    /// Stops whatever is playing and, given a path, begins a session for it
    /// at `now`. The display name is the last component of the path; a path
    /// without one keeps the name that was shown before.
    pub fn play_song(&mut self, file_path: Option<PathBuf>, now: u64)
        ensures
            file_path is None ==> final(self)@ == old(self)@.stopped(),
            file_path matches Some(path) ==> exists|name: Option<Seq<char>>|
                final(self)@ == old(self)@.stopped().started(path, name, now as int),
    {
        self.stop();
        if let Some(path) = file_path {
            let name: Option<String> = file_name_text(&path);
            self.begin_session(path, name, now);
        }
    }

    /// Recomputes the position from the clock reading `now`: the time since
    /// the anchor, capped at the length. Does nothing unless playing and not
    /// paused.
    pub fn update_position(&mut self, now: u64)
        ensures
            final(self)@ == old(self)@.ticked(now as int),
            final(self)@.position <= final(self)@.total,
    {
        if self.is_playing && !self.is_paused {
            self.timeline.advance_to(now);
        }
        proof {
            self.lemma_wf();
        }
    }

    /// Pauses, or resumes at `now`.
    pub fn toggle_pause(&mut self, now: u64)
        ensures
            final(self)@ == old(self)@.toggled(now as int),
    {
        if self.is_paused {
            self.is_paused = false;
            self.timeline.resume(now);
        } else {
            self.is_paused = true;
        }
    }

    /// Seeking is not supported: always refused, and nothing changes.
    pub fn seek_forward(&mut self, _seconds: u32) -> (result: Result<(), PlaybackError>)
        ensures
            result == Err::<(), PlaybackError>(PlaybackError::Unsupported),
            final(self)@ == old(self)@,
    {
        Err(PlaybackError::Unsupported)
    }

    /// Seeking is not supported: always refused, and nothing changes.
    pub fn seek_backward(&mut self, _seconds: u32) -> (result: Result<(), PlaybackError>)
        ensures
            result == Err::<(), PlaybackError>(PlaybackError::Unsupported),
            final(self)@ == old(self)@,
    {
        Err(PlaybackError::Unsupported)
    }

    /// Raises the volume by `amount` thousandths, saturating at full scale.
    pub fn increase_volume(&mut self, amount: u32)
        ensures
            final(self)@ == old(self)@.volume_raised(amount as int),
            0 <= final(self)@.volume <= VOLUME_MAX,
    {
        self.current_volume.raise(amount);
        proof {
            self.lemma_wf();
        }
    }

    /// Lowers the volume by `amount` thousandths, saturating at silence.
    pub fn decrease_volume(&mut self, amount: u32)
        ensures
            final(self)@ == old(self)@.volume_lowered(amount as int),
            0 <= final(self)@.volume <= VOLUME_MAX,
    {
        self.current_volume.lower(amount);
        proof {
            self.lemma_wf();
        }
    }

    /// The volume, in thousandths of full scale.
    pub fn get_volume(&self) -> (volume: u32)
        ensures
            volume as int == self@.volume,
            volume <= VOLUME_MAX,
    {
        self.current_volume.get()
    }

    pub fn is_playing(&self) -> (playing: bool)
        ensures
            playing == self@.playing,
    {
        self.is_playing
    }

    pub fn is_paused(&self) -> (paused: bool)
        ensures
            paused == self@.paused,
    {
        self.is_paused
    }

    /// The display name of the track, if one was ever loaded.
    pub fn current_song_name(&self) -> (name: Option<String>)
        ensures
            name_view(name) == self@.song,
    {
        match &self.current_song {
            Some(text) => Some(text.clone()),
            None => None,
        }
    }

    /// The path of the track that was loaded last.
    pub fn current_path(&self) -> (path: Option<&PathBuf>)
        ensures
            match path {
                Some(path) => self@.path == Some(*path),
                None => self@.path is None,
            },
    {
        self.current_path.as_ref()
    }

    /// How far the track has played: position over length. Zero where the
    /// length is less than a second.
    pub fn get_progress(&self) -> (progress: Progress)
        ensures
            (progress.numerator as int, progress.denominator as int) == self@.progress(),
            progress.numerator <= progress.denominator,
            progress.denominator > 0,
            self@.total == 0 ==> progress.numerator == 0,
    {
        let position: u64 = self.timeline.current_position();
        let total: u64 = self.timeline.total_duration();
        proof {
            self.lemma_wf();
        }
        if total / NANOS_PER_SECOND == 0 {
            Progress { numerator: 0, denominator: 1 }
        } else {
            Progress { numerator: position, denominator: total }
        }
    }

    /// Position and length in whole seconds, as `MM:SS/MM:SS`.
    pub fn format_time(&self) -> (text: String)
        ensures
            text@ == timecode(
                (self@.position / NANOS_PER_SECOND as int) as nat,
                (self@.total / NANOS_PER_SECOND as int) as nat,
            ),
    {
        let position: u64 = self.timeline.current_position();
        let total: u64 = self.timeline.total_duration();
        format_timecode(position / NANOS_PER_SECOND, total / NANOS_PER_SECOND)
    }

    /// Position as of the last update, in nanoseconds.
    pub fn current_position(&self) -> (position: u64)
        ensures
            position as int == self@.position,
    {
        self.timeline.current_position()
    }

    /// Length of the track, in nanoseconds; zero until the producer reports it.
    pub fn total_duration(&self) -> (total: u64)
        ensures
            total as int == self@.total,
    {
        self.timeline.total_duration()
    }

    /// Whether the producer of the session has been told to end.
    pub fn stop_requested(&self) -> (requested: bool)
        ensures
            requested == self@.stop_requested,
    {
        self.should_stop
    }

    /// Number of samples waiting for the output device.
    pub fn queued_samples(&self) -> (n: usize)
        ensures
            n == self@.queue.len(),
    {
        self.audio_buffer.len()
    }

    /// Times the output device found too few samples since the session began.
    pub fn underrun_count(&self) -> (n: u32)
        ensures
            n as int == self@.underruns,
    {
        self.underruns
    }

    /// Records the length of the track as its header tells it: computed from
    /// frame count and sample rate when both are known, three minutes
    /// otherwise.
    pub fn set_total_duration(&mut self, n_frames: Option<u64>, sample_rate: Option<u32>)
        ensures
            final(self)@ == old(self)@.with_total(estimated_duration(n_frames, sample_rate)),
    {
        self.timeline.set_total(estimate_duration(n_frames, sample_rate));
    }

    /// Marks the session as over. The producer calls this when it gives up
    /// (the file, the decoder or the output device failed), when it obeys
    /// the stop signal and when the track has played out.
    pub fn end_session(&mut self)
        ensures
            final(self)@ == old(self)@.ended(),
    {
        self.is_playing = false;
    }

    /// Queues a block of decoded samples behind what is already queued.
    pub fn enqueue(&mut self, samples: &[T])
        ensures
            final(self)@ == old(self)@.enqueued(samples@),
    {
        self.audio_buffer.push(samples);
    }

    /// Answers a request of the output device for `dest.len()` samples.
    ///
    /// Paused, `dest` is filled with `silence` and nothing is consumed. With
    /// fewer samples queued than asked for, the underrun is counted, `dest`
    /// is filled with `silence` and nothing is consumed. Otherwise the oldest
    /// `dest.len()` samples leave the queue and `dest` receives them, each
    /// passed through `gain` together with the current volume.
    pub fn render<F: Fn(T, u32) -> T>(&mut self, dest: &mut [T], silence: T, gain: F) -> (outcome:
        SinkOutcome)
        requires
            forall|sample: T, volume: u32|
                volume <= VOLUME_MAX ==> #[trigger] gain.requires((sample, volume)),
        ensures
            final(dest)@.len() == old(dest)@.len(),
            outcome == sink_outcome(old(self)@, old(dest)@.len() as int),
            final(self)@ == old(self)@.rendered(old(dest)@.len() as int),
            outcome == SinkOutcome::Played ==> forall|i: int|
                0 <= i < old(dest)@.len() ==> gain.ensures(
                    (old(self)@.queue[i], old(self)@.volume as u32),
                    #[trigger] final(dest)@[i],
                ),
            outcome != SinkOutcome::Played ==> forall|i: int|
                0 <= i < old(dest)@.len() ==> #[trigger] final(dest)@[i] == silence,
    {
        let n: usize = dest.len();
        if self.is_paused {
            fill(dest, silence);
            return SinkOutcome::Silenced;
        }
        if self.audio_buffer.len() < n {
            if self.underruns < u32::MAX {
                self.underruns = self.underruns + 1;
            }
            fill(dest, silence);
            return SinkOutcome::Underrun;
        }
        let volume: u32 = self.current_volume.get();
        let mut i: usize = 0;
        assert(self@.queue.skip(0) =~= self@.queue);
        while i < n
            invariant
                i <= n,
                n == dest@.len(),
                n <= old(self)@.queue.len(),
                volume as int == old(self)@.volume,
                volume <= VOLUME_MAX,
                self@ == (Session { queue: old(self)@.queue.skip(i as int), ..old(self)@ }),
                forall|sample: T, volume: u32|
                    volume <= VOLUME_MAX ==> #[trigger] gain.requires((sample, volume)),
                forall|j: int|
                    0 <= j < i ==> gain.ensures((old(self)@.queue[j], volume), #[trigger] dest@[j]),
            decreases n - i,
        {
            let front: Option<T> = self.audio_buffer.pop_front();
            let sample: T = front.unwrap();
            dest[i] = gain(sample, volume);
            i = i + 1;
            assert(old(self)@.queue.skip(i - 1).drop_first() == old(self)@.queue.skip(i as int));
        }
        SinkOutcome::Played
    }
}

/// Overwrites every element of `dest` with `value`.
fn fill<T: Copy>(dest: &mut [T], value: T)
    ensures
        final(dest)@.len() == old(dest)@.len(),
        forall|i: int| 0 <= i < old(dest)@.len() ==> #[trigger] final(dest)@[i] == value,
{
    let n: usize = dest.len();
    let mut i: usize = 0;
    while i < n
        invariant
            i <= n,
            n == dest@.len(),
            forall|j: int| 0 <= j < i ==> #[trigger] dest@[j] == value,
        decreases n - i,
    {
        dest[i] = value;
        i = i + 1;
    }
}

} // verus!
