//! The decisions of the producer: the thread that decodes a track and feeds
//! the sample queue.
//!
//! The caller runs the loop. Each round it asks [`Producer::next_action`]
//! what to do and does it: it sleeps, or it reads one packet, decodes it if
//! [`Producer::accepts`] its track, and reports what that gave with
//! [`Producer::absorb`].

use crate::playback::AudioPlayer;
use crate::session::Session;
use vstd::prelude::*;

verus! {

/// Milliseconds between two looks at the pause flag while paused.
pub const PAUSE_POLL_MS: u64 = 10;

/// Milliseconds between two looks at a queue that is full enough.
pub const BACKPRESSURE_POLL_MS: u64 = 10;

/// Milliseconds between two looks at the queue while it plays out.
pub const DRAIN_POLL_MS: u64 = 100;

/// Seconds of audio that the queue is meant to hold at most.
pub const LOOKAHEAD_SECONDS: u64 = 2;

/// Frames kept free below the lookahead, about one decoded packet.
pub const HEADROOM_FRAMES: u64 = 1024;

/// Milliseconds that `stop` gives the producer to end before it joins anyway.
pub const JOIN_TIMEOUT_MS: u64 = 200;

/// Milliseconds between two looks at a producer that has not ended yet.
pub const JOIN_POLL_MS: u64 = 10;

/// Sample rate and channel count of a decoded stream.
#[derive(Clone, Copy, Debug, PartialEq, Eq)]
pub struct StreamFormat {
    /// Frames per second.
    pub sample_rate: u32,
    /// Samples per frame.
    pub channels: u16,
}

/// What the producer does next.
#[derive(Clone, Copy, Debug, PartialEq, Eq)]
pub enum ProducerAction {
    /// Leave the loop; the session has been marked as over.
    Exit,
    /// Sleep for so many milliseconds, then ask again.
    Wait(u64),
    /// Read and decode the next packet, then report the outcome.
    Decode,
}

/// Why a packet could not be decoded.
#[derive(Clone, Copy, Debug, PartialEq, Eq)]
pub enum DecodeFailure {
    /// Reading the stream failed.
    Io,
    /// The packet is malformed.
    Malformed,
    /// The stream could not be repositioned.
    Seek,
    /// The stream uses a feature that the decoder lacks.
    Unsupported,
    /// A limit of the decoder was reached.
    Limit,
    /// The decoder has to be reset.
    ResetRequired,
}

/// What reading and decoding one packet gave.
pub enum DecodeEvent<T> {
    /// A block of interleaved samples.
    Block(Vec<T>),
    /// A packet of a track other than the one that plays.
    ForeignPacket,
    /// The packet was read but not decoded.
    Failed(DecodeFailure),
    /// No further packet could be read.
    SourceEnded,
}

/// What `stop` does next while it waits for the producer to end.
#[derive(Clone, Copy, Debug, PartialEq, Eq)]
pub enum JoinStep {
    /// Join the producer now.
    Join,
    /// Sleep for so many milliseconds, then look again.
    Poll(u64),
}

/// Samples in [`LOOKAHEAD_SECONDS`] of audio.
pub open spec fn lookahead(format: StreamFormat) -> int {
    format.sample_rate as int * format.channels as int * LOOKAHEAD_SECONDS as int
}

/// Samples in [`HEADROOM_FRAMES`] frames.
pub open spec fn headroom(format: StreamFormat) -> int {
    format.channels as int * HEADROOM_FRAMES as int
}

/// The queue length from which on the producer holds back: one more than the
/// lookahead less the headroom, and one where the headroom exceeds the
/// lookahead.
pub open spec fn soft_capacity(format: StreamFormat) -> int {
    if lookahead(format) >= headroom(format) {
        lookahead(format) - headroom(format) + 1
    } else {
        1
    }
}

/// Whether a failed decode ends the stream. A malformed packet is skipped;
/// every other failure does end it.
pub open spec fn is_fatal(failure: DecodeFailure) -> bool {
    failure != DecodeFailure::Malformed
}

/// Whether `event` leaves the source exhausted.
pub open spec fn exhausts<T>(event: DecodeEvent<T>) -> bool {
    match event {
        DecodeEvent::Block(_) => false,
        DecodeEvent::ForeignPacket => false,
        DecodeEvent::Failed(failure) => is_fatal(failure),
        DecodeEvent::SourceEnded => true,
    }
}

/// The samples that `event` adds to the queue.
pub open spec fn yield_of<T>(event: DecodeEvent<T>) -> Seq<T> {
    match event {
        DecodeEvent::Block(samples) => samples@,
        _ => Seq::empty(),
    }
}

/// The producer's next action in state `s`. In this order: the stop signal
/// or the process-wide exit signal ends the loop; a paused session and a
/// queue at its soft capacity make it wait; a source with packets left is
/// decoded; an exhausted source ends the loop once the queue is empty and
/// makes it wait until then.
pub open spec fn decide<T>(
    s: Session<T>,
    format: StreamFormat,
    source_done: bool,
    exit_now: bool,
) -> ProducerAction {
    if s.stop_requested || exit_now {
        ProducerAction::Exit
    } else if s.paused {
        ProducerAction::Wait(PAUSE_POLL_MS)
    } else if s.queue.len() >= soft_capacity(format) {
        ProducerAction::Wait(BACKPRESSURE_POLL_MS)
    } else if !source_done {
        ProducerAction::Decode
    } else if s.queue.len() == 0 {
        ProducerAction::Exit
    } else {
        ProducerAction::Wait(DRAIN_POLL_MS)
    }
}

/// Computes [`soft_capacity`].
pub fn soft_capacity_of(format: StreamFormat) -> (capacity: u64)
    ensures
        capacity as int == soft_capacity(format),
{
    let channels: u64 = format.channels as u64;
    assert(format.sample_rate as int * format.channels as int <= 0xffff_ffff * 0xffff)
        by (nonlinear_arith)
        requires
            format.sample_rate <= 0xffff_ffff,
            format.channels <= 0xffff,
    ;
    let frames: u64 = format.sample_rate as u64 * channels;
    let lookahead: u64 = frames * LOOKAHEAD_SECONDS;
    let headroom: u64 = channels * HEADROOM_FRAMES;
    if lookahead >= headroom {
        lookahead - headroom + 1
    } else {
        1
    }
}

/// The state that the producer keeps between rounds.
pub struct Producer {
    format: StreamFormat,
    track_id: u32,
    source_done: bool,
}

impl Producer {
    pub closed spec fn format(self) -> StreamFormat {
        self.format
    }

    /// The track of the container that plays.
    pub closed spec fn track_id(self) -> u32 {
        self.track_id
    }

    /// Whether the source has given its last packet.
    pub closed spec fn source_done(self) -> bool {
        self.source_done
    }

    /// A producer for track `track_id` of a stream of the given format,
    /// primed with its first block: the block is queued before the output
    /// device is started, so that the first request finds samples.
    pub fn start<T: Copy>(
        player: &mut AudioPlayer<T>,
        format: StreamFormat,
        track_id: u32,
        first_block: &[T],
    ) -> (producer: Self)
        ensures
            producer.format() == format,
            producer.track_id() == track_id,
            !producer.source_done(),
            final(player)@ == old(player)@.enqueued(first_block@),
    {
        player.enqueue(first_block);
        Producer { format, track_id, source_done: false }
    }

    /// Whether a packet of track `packet_track` is to be decoded: only the
    /// packets of the track that plays are.
    pub fn accepts(&self, packet_track: u32) -> (wanted: bool)
        ensures
            wanted == (packet_track == self.track_id()),
    {
        packet_track == self.track_id
    }

    /// Decides the next action; where that is [`ProducerAction::Exit`], the
    /// session is marked as over.
    pub fn next_action<T: Copy>(&self, player: &mut AudioPlayer<T>, exit_now: bool) -> (action:
        ProducerAction)
        ensures
            action == decide(old(player)@, self.format(), self.source_done(), exit_now),
            final(player)@ == if action == ProducerAction::Exit {
                old(player)@.ended()
            } else {
                old(player)@
            },
    {
        if player.stop_requested() || exit_now {
            player.end_session();
            return ProducerAction::Exit;
        }
        if player.is_paused() {
            return ProducerAction::Wait(PAUSE_POLL_MS);
        }
        let queued: usize = player.queued_samples();
        if queued as u64 >= soft_capacity_of(self.format) {
            return ProducerAction::Wait(BACKPRESSURE_POLL_MS);
        }
        if !self.source_done {
            return ProducerAction::Decode;
        }
        if queued == 0 {
            player.end_session();
            return ProducerAction::Exit;
        }
        ProducerAction::Wait(DRAIN_POLL_MS)
    }

    /// Takes in what a decode gave: a block is queued, a packet of another
    /// track and a malformed packet are passed over, and any other failure
    /// or the end of the source leaves the source exhausted.
    pub fn absorb<T: Copy>(&mut self, player: &mut AudioPlayer<T>, event: DecodeEvent<T>)
        ensures
            final(self).format() == old(self).format(),
            final(self).track_id() == old(self).track_id(),
            final(self).source_done() == (old(self).source_done() || exhausts(event)),
            final(player)@ == old(player)@.enqueued(yield_of(event)),
    {
        match event {
            DecodeEvent::Block(samples) => {
                player.enqueue(samples.as_slice());
            },
            DecodeEvent::ForeignPacket => {},
            DecodeEvent::Failed(failure) => {
                match failure {
                    DecodeFailure::Malformed => {},
                    _ => {
                        self.source_done = true;
                    },
                }
            },
            DecodeEvent::SourceEnded => {
                self.source_done = true;
            },
        }
    }
}

/// What `stop` does after it has waited `waited_ms` milliseconds for the
/// producer: it joins once the producer has ended or the timeout has passed,
/// and polls until then.
pub fn join_step(waited_ms: u64, finished: bool) -> (step: JoinStep)
    ensures
        step == if finished || waited_ms >= JOIN_TIMEOUT_MS {
            JoinStep::Join
        } else {
            JoinStep::Poll(JOIN_POLL_MS)
        },
{
    if finished || waited_ms >= JOIN_TIMEOUT_MS {
        JoinStep::Join
    } else {
        JoinStep::Poll(JOIN_POLL_MS)
    }
}

/// An exhausted source whose queue has played out ends the session without
/// a stop from outside, and a stop signal ends it whatever else holds.
pub proof fn lemma_producer_ends<T>(
    s: Session<T>,
    format: StreamFormat,
    source_done: bool,
    exit_now: bool,
)
    ensures
        s.stop_requested || exit_now ==> decide(s, format, source_done, exit_now)
            == ProducerAction::Exit,
        !s.stop_requested && !exit_now && !s.paused && source_done && s.queue.len() == 0
            ==> decide(s, format, source_done, exit_now) == ProducerAction::Exit,
        decide(s, format, source_done, exit_now) == ProducerAction::Decode ==> !source_done
            && s.queue.len() < soft_capacity(format),
{
}

} // verus!
