//! The mathematical model of a playback session and its transitions.
//!
//! [`Session`] is what an `AudioPlayer` stands for in contracts. Each
//! operation of the engine is one of the transitions below; the laws at the
//! end of the file are proved of the transitions, so they hold of the engine.

use crate::clock::{capped, elapsed_between, NANOS_PER_SECOND};
use crate::volume::{adjusted, lowered, raised, VolumeStep, VOLUME_MAX};
use std::path::PathBuf;
use vstd::prelude::*;

verus! {

/// Where the transport stands.
pub enum Transport {
    Stopped,
    Playing,
    Paused,
}

/// The state of the engine. Times are in nanoseconds, the volume in
/// thousandths of full scale.
pub struct Session<T> {
    /// Decoded samples waiting for the output device, oldest first.
    pub queue: Seq<T>,
    /// Set by `stop`; tells the producer of the session to end.
    pub stop_requested: bool,
    pub playing: bool,
    pub paused: bool,
    /// Position in the track as of the last update.
    pub position: int,
    /// Length of the track, as far as known; advisory.
    pub total: int,
    /// The instant from which elapsed time counts as position.
    pub anchor: Option<int>,
    pub volume: int,
    /// Times the output device asked for more than was queued.
    pub underruns: int,
    /// Display name of the track.
    pub song: Option<Seq<char>>,
    pub path: Option<PathBuf>,
}

impl<T> Session<T> {
    /// What every reachable state satisfies.
    pub open spec fn wf(self) -> bool {
        &&& 0 <= self.position <= self.total <= u64::MAX
        &&& 0 <= self.volume <= VOLUME_MAX
        &&& 0 <= self.underruns <= u32::MAX
        &&& match self.anchor {
            Some(anchor) => -(u64::MAX as int) <= anchor <= u64::MAX,
            None => true,
        }
    }

    /// The state of a new engine: nothing loaded, full volume.
    pub open spec fn initial() -> Self {
        Session {
            queue: Seq::empty(),
            stop_requested: false,
            playing: false,
            paused: false,
            position: 0,
            total: 0,
            anchor: None,
            volume: VOLUME_MAX as int,
            underruns: 0,
            song: None,
            path: None,
        }
    }

    pub open spec fn transport(self) -> Transport {
        if !self.playing {
            Transport::Stopped
        } else if self.paused {
            Transport::Paused
        } else {
            Transport::Playing
        }
    }

    /// After `stop`: the producer is told to end, the transport is stopped and
    /// queued audio is thrown away.
    pub open spec fn stopped(self) -> Self {
        Session { stop_requested: true, playing: false, paused: false, queue: Seq::empty(), ..self }
    }

    /// After a session for `path` began at `now`. Position, duration, underrun
    /// count and pause flag start afresh; the display name changes only where
    /// the path has one.
    pub open spec fn started(self, path: PathBuf, name: Option<Seq<char>>, now: int) -> Self {
        Session {
            queue: self.queue,
            stop_requested: false,
            playing: true,
            paused: false,
            position: 0,
            total: 0,
            anchor: Some(now),
            volume: self.volume,
            underruns: 0,
            song: if name is Some {
                name
            } else {
                self.song
            },
            path: Some(path),
        }
    }

    /// After `toggle_pause` at `now`. Pausing leaves the anchor alone;
    /// resuming moves it to `now` less the position, so that the time spent
    /// paused does not count.
    pub open spec fn toggled(self, now: int) -> Self {
        if self.paused {
            Session { paused: false, anchor: Some(now - self.position), ..self }
        } else {
            Session { paused: true, ..self }
        }
    }

    /// After `update_position` at `now`: while playing and not paused the
    /// position is the time since the anchor, capped at the length.
    pub open spec fn ticked(self, now: int) -> Self {
        if self.playing && !self.paused && self.anchor is Some {
            Session {
                position: capped(elapsed_between(self.anchor->Some_0, now), self.total),
                ..self
            }
        } else {
            self
        }
    }

    /// After the length of the track became known. A position beyond the new
    /// length is pulled back to it.
    pub open spec fn with_total(self, total: int) -> Self {
        Session { total, position: capped(self.position, total), ..self }
    }

    pub open spec fn volume_raised(self, amount: int) -> Self {
        Session { volume: raised(self.volume, amount), ..self }
    }

    pub open spec fn volume_lowered(self, amount: int) -> Self {
        Session { volume: lowered(self.volume, amount), ..self }
    }

    /// After the volume adjustments `steps`, applied first to last.
    pub open spec fn volume_adjusted(self, steps: Seq<VolumeStep>) -> Self
        decreases steps.len(),
    {
        if steps.len() == 0 {
            self
        } else {
            let before = self.volume_adjusted(steps.drop_last());
            match steps.last() {
                VolumeStep::Up(amount) => before.volume_raised(amount as int),
                VolumeStep::Down(amount) => before.volume_lowered(amount as int),
            }
        }
    }

    /// After the producer gave up or ran out: not playing any more.
    pub open spec fn ended(self) -> Self {
        Session { playing: false, ..self }
    }

    /// After the producer queued `block`.
    pub open spec fn enqueued(self, block: Seq<T>) -> Self {
        Session { queue: self.queue + block, ..self }
    }

    /// Whether a request of the output device for `n` samples finds too few.
    pub open spec fn starves(self, n: int) -> bool {
        !self.paused && self.queue.len() < n
    }

    /// After the output device asked for `n` samples. Paused, nothing is
    /// consumed. With fewer than `n` queued the underrun is counted and
    /// nothing is consumed. Otherwise the oldest `n` leave the queue.
    pub open spec fn rendered(self, n: int) -> Self {
        if self.paused {
            self
        } else if self.queue.len() < n {
            Session { underruns: capped(self.underruns + 1, u32::MAX as int), ..self }
        } else {
            Session { queue: self.queue.skip(n), ..self }
        }
    }

    /// Position over length as a fraction `(numerator, denominator)` with a
    /// positive denominator. A length of less than a second counts as
    /// unknown and gives zero.
    pub open spec fn progress(self) -> (int, int) {
        if self.total / (NANOS_PER_SECOND as int) == 0 {
            (0, 1)
        } else {
            (self.position, self.total)
        }
    }
}

/// Every transition keeps a well-formed state well-formed.
pub proof fn lemma_transitions_keep_wf<T>(
    s: Session<T>,
    now: u64,
    total: u64,
    amount: u32,
    path: PathBuf,
    name: Option<Seq<char>>,
    block: Seq<T>,
    n: nat,
)
    requires
        s.wf(),
    ensures
        Session::<T>::initial().wf(),
        s.stopped().wf(),
        s.started(path, name, now as int).wf(),
        s.toggled(now as int).wf(),
        s.ticked(now as int).wf(),
        s.with_total(total as int).wf(),
        s.volume_raised(amount as int).wf(),
        s.volume_lowered(amount as int).wf(),
        s.ended().wf(),
        s.enqueued(block).wf(),
        s.rendered(n as int).wf(),
{
}

/// The volume lies between silence and full scale after any sequence of
/// adjustments, and nothing else of the state has changed.
pub proof fn lemma_volume_in_range_after_adjustments<T>(s: Session<T>, steps: Seq<VolumeStep>)
    requires
        s.wf(),
    ensures
        0 <= s.volume_adjusted(steps).volume <= VOLUME_MAX,
        s.volume_adjusted(steps) == (Session { volume: adjusted(s.volume, steps), ..s }),
    decreases steps.len(),
{
    if steps.len() > 0 {
        lemma_volume_in_range_after_adjustments(s, steps.drop_last());
    }
}

/// An adjustment leaves the volume between silence and full scale, and one
/// past either end stops at that end.
pub proof fn lemma_volume_bounded<T>(s: Session<T>, amount: u32)
    requires
        s.wf(),
    ensures
        0 <= s.volume_raised(amount as int).volume <= VOLUME_MAX,
        0 <= s.volume_lowered(amount as int).volume <= VOLUME_MAX,
        s.volume + amount >= VOLUME_MAX ==> s.volume_raised(amount as int).volume == VOLUME_MAX,
        s.volume - amount <= 0 ==> s.volume_lowered(amount as int).volume == 0,
{
}

/// Progress is a fraction between zero and one, and zero when the length is
/// zero.
pub proof fn lemma_progress_in_unit_interval<T>(s: Session<T>)
    requires
        s.wf(),
    ensures
        0 <= s.progress().0 <= s.progress().1,
        s.progress().1 > 0,
        s.total == 0 ==> s.progress().0 == 0,
{
}

/// After an update the position does not exceed the length, whatever the
/// clock says.
pub proof fn lemma_position_within_total<T>(s: Session<T>, now: int)
    requires
        s.wf(),
    ensures
        0 <= s.ticked(now).position <= s.ticked(now).total,
{
}

/// While paused, updates change nothing: the position is frozen and the
/// anchor stays.
pub proof fn lemma_paused_is_frozen<T>(s: Session<T>, now: int)
    requires
        s.paused,
    ensures
        s.ticked(now) == s,
{
}

/// Pausing and resuming at one instant `t`, then updating at `t`, leaves the
/// position where it was when the pause began.
pub proof fn lemma_pause_resume_without_delay<T>(s: Session<T>, t: int)
    requires
        s.wf(),
        s.playing,
        !s.paused,
    ensures
        s.toggled(t).toggled(t).ticked(t).position == s.position,
{
}

/// Time spent paused does not count. A session paused at position `p` and
/// resumed at `resumed` shows, at any later instant `now`, the position `p`
/// plus the time since the resumption (capped at the length), however long
/// the pause lasted. Where the position was up to date when the pause began,
/// the anchor has moved on by the length of the pause.
pub proof fn lemma_pause_is_excluded<T>(s: Session<T>, paused_at: int, resumed: int, now: int)
    requires
        s.wf(),
        s.playing,
        !s.paused,
        resumed <= now,
    ensures
        s.toggled(paused_at).toggled(resumed).ticked(now).position == capped(
            s.position + (now - resumed),
            s.total,
        ),
        s.toggled(paused_at).toggled(resumed).anchor == Some(resumed - s.position),
        s.anchor is Some && s.position == paused_at - s.anchor->Some_0 ==> s.toggled(
            paused_at,
        ).toggled(resumed).anchor == Some(s.anchor->Some_0 + (resumed - paused_at)),
{
}

/// Stopping is idempotent, and from any state it leads to the stopped
/// transport with an empty queue.
pub proof fn lemma_stop_idempotent<T>(s: Session<T>)
    ensures
        s.stopped().stopped() == s.stopped(),
        s.stopped().transport() == Transport::Stopped,
        s.stopped().queue.len() == 0,
        s.stopped().stop_requested,
        !s.playing && !s.paused && s.stop_requested && s.queue.len() == 0 ==> s.stopped() == s,
{
    assert(s.queue.len() == 0 ==> s.queue =~= Seq::<T>::empty());
}

/// The underrun count grows only in a request that finds too few samples
/// while not paused, and then by one; paused, it never grows.
pub proof fn lemma_underruns_count_starvation<T>(s: Session<T>, n: nat)
    requires
        s.wf(),
    ensures
        s.rendered(n as int).underruns >= s.underruns,
        s.rendered(n as int).underruns > s.underruns ==> s.starves(n as int),
        s.starves(n as int) && s.underruns < u32::MAX ==> s.rendered(n as int).underruns
            == s.underruns + 1,
        s.paused ==> s.rendered(n as int) == s,
        s.starves(n as int) ==> s.rendered(n as int).queue == s.queue,
{
}

/// No operation but a request of the output device raises the underrun
/// count.
pub proof fn lemma_underruns_rise_only_in_render<T>(
    s: Session<T>,
    now: int,
    total: int,
    amount: int,
    path: PathBuf,
    name: Option<Seq<char>>,
    block: Seq<T>,
)
    requires
        s.wf(),
    ensures
        s.stopped().underruns == s.underruns,
        s.started(path, name, now).underruns == 0,
        s.toggled(now).underruns == s.underruns,
        s.ticked(now).underruns == s.underruns,
        s.with_total(total).underruns == s.underruns,
        s.volume_raised(amount).underruns == s.underruns,
        s.volume_lowered(amount).underruns == s.underruns,
        s.ended().underruns == s.underruns,
        s.enqueued(block).underruns == s.underruns,
{
}

/// Starting a session after a stop leaves nothing of the previous one in the
/// queue, and whatever is queued afterwards is all there is to play.
pub proof fn lemma_restart_leaves_no_audio<T>(
    s: Session<T>,
    path: PathBuf,
    name: Option<Seq<char>>,
    now: int,
    block: Seq<T>,
)
    ensures
        s.stopped().started(path, name, now).queue.len() == 0,
        s.stopped().started(path, name, now).enqueued(block).queue == block,
{
}

} // verus!
