//! The bookkeeping of a background track: whether it plays, whether its
//! source has run out, when it started and how long it has been paused.
//!
//! A track is played in sessions. `begin_playback` opens a session on a
//! fresh source; `resume_playback` opens one that continues where the last
//! session stopped, and tells how much of the source to skip; `end_playback`
//! closes a session once the output has drained and tells how far into the
//! source playback got; `record_remaining` then marks the track finished
//! where nothing is left of the source past that point.
//!
//! Every time is a span since the Unix epoch. The play time of a track is
//! the time since it started less the time it spent paused, where the
//! current pause (since the last session closed) counts as paused too.
//! The operations that read the clock read it once, and that one reading
//! stands for every instant they need.

use vstd::prelude::*;
use crate::time_span::{TimeSpan, max_span_nanos};
use crate::clock::now_since_epoch;

verus! {

/// Why a clock-reading operation did not take effect.
#[derive(Clone, Copy, Debug, PartialEq, Eq, Structural)]
pub enum PlaybackFault {
    /// The system clock reads a time before the Unix epoch.
    ClockBeforeEpoch,
    /// The clock readings put the play time below zero or past the largest
    /// span.
    SpanOutOfRange,
}

/// The state of a track, with every span as a number of nanoseconds.
pub struct TrackState {
    pub playing: bool,
    pub finished: bool,
    pub start: nat,
    pub pause_start: nat,
    pub pause_end: nat,
    pub pause_total: nat,
    pub has_start_buffer: bool,
}

impl TrackState {
    /// A playing track has not finished, and a track that has not finished
    /// has a source to continue from.
    pub open spec fn consistent(self) -> bool {
        &&& self.playing ==> !self.finished
        &&& !self.finished ==> self.has_start_buffer
    }
}

/// The lengths of an optional span.
pub open spec fn span_opt_view(o: Option<TimeSpan>) -> Option<nat> {
    match o {
        Some(t) => Some(t@),
        None => None,
    }
}

/// The play time of a track at the clock readings `curr` (now) and
/// `pause_end` (the end of the current pause): the total pause is the pauses
/// so far plus the current one, and the play time is the time since the
/// start less the total pause. `None` where a step goes below zero or past
/// the largest span.
pub open spec fn play_time_spec(s: TrackState, curr: nat, pause_end: nat) -> Option<nat> {
    if pause_end < s.pause_start {
        None
    } else if s.pause_total + (pause_end - s.pause_start) > max_span_nanos() {
        None
    } else if curr < s.start {
        None
    } else if curr - s.start < s.pause_total + (pause_end - s.pause_start) {
        None
    } else {
        Some((curr - s.start - (s.pause_total + (pause_end - s.pause_start))) as nat)
    }
}

/// The pause total after a track resumes at `pause_end`: the pauses so far
/// plus the pause that just ended. `None` where a step goes out of range.
pub open spec fn resumed_pause_total(s: TrackState, pause_end: nat) -> Option<nat> {
    if pause_end < s.pause_start {
        None
    } else if s.pause_total + (pause_end - s.pause_start) > max_span_nanos() {
        None
    } else {
        Some((s.pause_total + (pause_end - s.pause_start)) as nat)
    }
}

/// How much of the source a track skips when it resumes at the readings
/// `curr` and `pause_end`: the time since the start less the new pause
/// total. `None` where a step goes out of range.
pub open spec fn resume_skip_spec(s: TrackState, curr: nat, pause_end: nat) -> Option<nat> {
    match resumed_pause_total(s, pause_end) {
        None => None,
        Some(total) => if curr < s.start || curr - s.start < total {
            None
        } else {
            Some((curr - s.start - total) as nat)
        },
    }
}

/// The state once a session on a fresh source opens at `now`.
pub open spec fn begun(s: TrackState, now: nat) -> TrackState {
    TrackState {
        playing: true,
        finished: false,
        start: now,
        pause_start: 0,
        pause_end: 0,
        pause_total: s.pause_total,
        has_start_buffer: true,
    }
}

/// The state once a session that continues the track opens, with the pause
/// ending at `pause_end` (the state of a finished track does not change).
pub open spec fn resumed(s: TrackState, pause_end: nat) -> TrackState {
    if s.finished {
        s
    } else {
        TrackState {
            playing: true,
            pause_end: pause_end,
            pause_total: resumed_pause_total(s, pause_end).unwrap(),
            ..s
        }
    }
}

/// The state once a session closes at `now`: the track pauses.
pub open spec fn ended(s: TrackState, now: nat) -> TrackState {
    TrackState { playing: false, pause_start: now, ..s }
}

/// The state once it is known whether the source has samples left past the
/// play time: a paused track with none left is finished.
pub open spec fn settled(s: TrackState, has_more: bool) -> TrackState {
    if !has_more && !s.playing {
        TrackState { finished: true, ..s }
    } else {
        s
    }
}

/// The bookkeeping of one background track.
#[derive(Clone, Copy, Debug)]
pub struct TrackInfo {
    current_playing: bool,
    is_finished: bool,
    start_milli: TimeSpan,
    pause_start_milli: TimeSpan,
    pause_end_milli: TimeSpan,
    pause_duration: TimeSpan,
    has_start_buffer: bool,
}

impl TrackInfo {
    #[verifier::type_invariant]
    spec fn flags_agree(self) -> bool {
        &&& self.current_playing ==> !self.is_finished
        &&& !self.is_finished ==> self.has_start_buffer
    }

    /// The state of the track.
    pub closed spec fn state(self) -> TrackState {
        TrackState {
            playing: self.current_playing,
            finished: self.is_finished,
            start: self.start_milli@,
            pause_start: self.pause_start_milli@,
            pause_end: self.pause_end_milli@,
            pause_total: self.pause_duration@,
            has_start_buffer: self.has_start_buffer,
        }
    }
}

impl View for TrackInfo {
    type V = TrackState;

    open spec fn view(&self) -> TrackState {
        self.state()
    }
}

impl TrackInfo {
    /// A track that has never played: not playing, finished, every span
    /// zero and no source to continue from.
    pub fn new() -> (r: TrackInfo)
        ensures
            r@ == (TrackState {
                playing: false,
                finished: true,
                start: 0,
                pause_start: 0,
                pause_end: 0,
                pause_total: 0,
                has_start_buffer: false,
            }),
            r@.consistent(),
    {
        TrackInfo {
            current_playing: false,
            is_finished: true,
            start_milli: TimeSpan::zero(),
            pause_start_milli: TimeSpan::zero(),
            pause_end_milli: TimeSpan::zero(),
            pause_duration: TimeSpan::zero(),
            has_start_buffer: false,
        }
    }

    /// Whether a session is open.
    pub fn is_playing(&self) -> (r: bool)
        ensures
            r == self@.playing,
            r ==> !self@.finished,
    {
        proof {
            use_type_invariant(self);
        }
        self.current_playing
    }

    /// Whether the source has run out, or no source was ever played.
    pub fn is_finished(&self) -> (r: bool)
        ensures
            r == self@.finished,
            !r ==> self@.has_start_buffer,
    {
        proof {
            use_type_invariant(self);
        }
        self.is_finished
    }

    /// Whether a source has been played, to continue from.
    pub fn has_start_buffer(&self) -> (r: bool)
        ensures
            r == self@.has_start_buffer,
    {
        self.has_start_buffer
    }

    /// When the current source started.
    pub fn start_time(&self) -> (r: TimeSpan)
        ensures
            r@ == self@.start,
            r@ <= max_span_nanos(),
    {
        self.start_milli.length_in_range();
        self.start_milli
    }

    /// When the current pause started.
    pub fn pause_start_time(&self) -> (r: TimeSpan)
        ensures
            r@ == self@.pause_start,
            r@ <= max_span_nanos(),
    {
        self.pause_start_milli.length_in_range();
        self.pause_start_milli
    }

    /// When the last pause ended.
    pub fn pause_end_time(&self) -> (r: TimeSpan)
        ensures
            r@ == self@.pause_end,
            r@ <= max_span_nanos(),
    {
        self.pause_end_milli.length_in_range();
        self.pause_end_milli
    }

    /// The time spent paused, up to the end of the last pause.
    pub fn pause_duration(&self) -> (r: TimeSpan)
        ensures
            r@ == self@.pause_total,
            r@ <= max_span_nanos(),
    {
        self.pause_duration.length_in_range();
        self.pause_duration
    }

    /// The play time at the clock readings `curr` and `pause_end`, or
    /// `None` where a step goes below zero or past the largest span.
    pub fn play_time_at(&self, curr: TimeSpan, pause_end: TimeSpan) -> (r: Option<TimeSpan>)
        ensures
            span_opt_view(r) == play_time_spec(self@, curr@, pause_end@),
    {
        let paused = match pause_end.checked_sub(self.pause_start_milli) {
            Some(p) => p,
            None => return None,
        };
        let total = match self.pause_duration.checked_add(paused) {
            Some(t) => t,
            None => return None,
        };
        let elapsed = match curr.checked_sub(self.start_milli) {
            Some(e) => e,
            None => return None,
        };
        elapsed.checked_sub(total)
    }

    /// The play time now: one reading of the clock serves as both the
    /// present and the end of the current pause. Since the current pause
    /// counts as paused, the play time is where the pause began: the time
    /// from the start to the start of the pause, less the pauses before.
    pub fn calculate_play_time(&self) -> (r: Result<TimeSpan, PlaybackFault>)
        ensures
            r matches Ok(t) ==> t@ == self@.pause_start - self@.start - self@.pause_total
                && exists|c: nat| #[trigger] play_time_spec(self@, c, c) == Some(t@),
            r matches Err(f) ==> f == PlaybackFault::ClockBeforeEpoch || exists|c: nat|
                #[trigger] play_time_spec(self@, c, c) is None,
    {
        let now = match now_since_epoch() {
            Some(c) => c,
            None => return Err(PlaybackFault::ClockBeforeEpoch),
        };
        proof {
            lemma_paused_play_time(self@, now@);
        }
        match self.play_time_at(now, now) {
            Some(t) => Ok(t),
            None => Err(PlaybackFault::SpanOutOfRange),
        }
    }

    /// Opens a session on a fresh source at `now`: the track plays, is not
    /// finished, starts at `now` with no current pause, and has a source to
    /// continue from. The pause total is kept.
    pub fn begin_playback_at(&mut self, now: TimeSpan)
        ensures
            final(self)@ == begun(old(self)@, now@),
            final(self)@.consistent(),
    {
        *self = TrackInfo {
            current_playing: true,
            is_finished: false,
            start_milli: now,
            pause_start_milli: TimeSpan::zero(),
            pause_end_milli: TimeSpan::zero(),
            pause_duration: self.pause_duration,
            has_start_buffer: true,
        };
    }

    /// Opens a session on a fresh source now. Where the clock reads a time
    /// before the epoch, nothing changes.
    pub fn begin_playback(&mut self) -> (r: Result<(), PlaybackFault>)
        ensures
            r is Ok ==> exists|now: nat| #[trigger] begun(old(self)@, now) == final(self)@,
            r is Err ==> r == Err::<(), PlaybackFault>(PlaybackFault::ClockBeforeEpoch)
                && final(self)@ == old(self)@,
            final(self)@.consistent(),
    {
        proof {
            use_type_invariant(&*self);
        }
        match now_since_epoch() {
            Some(now) => {
                self.begin_playback_at(now);
                Ok(())
            },
            None => Err(PlaybackFault::ClockBeforeEpoch),
        }
    }

    /// Opens a session that continues the track, at the readings `curr`
    /// (now) and `pause_end` (the end of the pause). A finished track does
    /// not change and `None` comes back. Otherwise the track plays, the
    /// pause ends at `pause_end` and is added to the pause total, and the
    /// span of the source to skip comes back.
    pub fn resume_playback_at(&mut self, curr: TimeSpan, pause_end: TimeSpan) -> (r: Option<TimeSpan>)
        requires
            !old(self)@.finished ==> resume_skip_spec(old(self)@, curr@, pause_end@) is Some,
        ensures
            old(self)@.finished ==> r is None,
            !old(self)@.finished ==> span_opt_view(r) == resume_skip_spec(old(self)@, curr@, pause_end@),
            final(self)@ == resumed(old(self)@, pause_end@),
            final(self)@.consistent(),
    {
        proof {
            use_type_invariant(&*self);
        }
        if self.is_finished {
            return None;
        }
        let paused = pause_end.checked_sub(self.pause_start_milli).unwrap();
        let total = self.pause_duration.checked_add(paused).unwrap();
        let skip = curr.checked_sub(self.start_milli).unwrap().checked_sub(total).unwrap();
        *self = TrackInfo {
            current_playing: true,
            pause_end_milli: pause_end,
            pause_duration: total,
            ..*self
        };
        Some(skip)
    }

    /// Opens a session that continues the track now: one reading of the
    /// clock serves as both the present and the end of the pause. The skip
    /// that comes back is exactly where the track paused: the time from the
    /// start to the start of the pause, less the pauses before. A finished
    /// track does not change and `Ok(None)` comes back, without a reading.
    /// Where the clock reads a time before the epoch, or the reading puts
    /// the skip out of range, nothing changes.
    pub fn resume_playback(&mut self) -> (r: Result<Option<TimeSpan>, PlaybackFault>)
        ensures
            old(self)@.finished ==> r == Ok::<Option<TimeSpan>, PlaybackFault>(None)
                && final(self)@ == old(self)@,
            r matches Ok(None) ==> old(self)@.finished,
            r matches Ok(Some(skip)) ==> !old(self)@.finished
                && skip@ == old(self)@.pause_start - old(self)@.start - old(self)@.pause_total
                && final(self)@ == resumed(old(self)@, final(self)@.pause_end)
                && resume_skip_spec(old(self)@, final(self)@.pause_end, final(self)@.pause_end)
                    == Some(skip@),
            r == Err::<Option<TimeSpan>, PlaybackFault>(PlaybackFault::SpanOutOfRange) ==> exists|c: nat|
                #[trigger] resume_skip_spec(old(self)@, c, c) is None,
            r is Err ==> final(self)@ == old(self)@,
            final(self)@.consistent(),
    {
        proof {
            use_type_invariant(&*self);
        }
        if self.is_finished {
            return Ok(None);
        }
        let now = match now_since_epoch() {
            Some(c) => c,
            None => return Err(PlaybackFault::ClockBeforeEpoch),
        };
        proof {
            lemma_resume_continues_at_play_time(self@, now@, now@);
            lemma_resume_where_paused(self@, now@);
        }
        if self.play_time_at(now, now).is_none() {
            return Err(PlaybackFault::SpanOutOfRange);
        }
        let skip = self.resume_playback_at(now, now);
        Ok(skip)
    }

    /// Closes a session at `now`: the track stops playing and its pause
    /// starts at `now`. The play time at the readings `curr` and
    /// `pause_end`, taken on the closed track, comes back (`None` where it
    /// is out of range).
    pub fn end_playback_at(&mut self, now: TimeSpan, curr: TimeSpan, pause_end: TimeSpan) -> (r: Option<TimeSpan>)
        ensures
            final(self)@ == ended(old(self)@, now@),
            span_opt_view(r) == play_time_spec(ended(old(self)@, now@), curr@, pause_end@),
            final(self)@.consistent(),
    {
        proof {
            use_type_invariant(&*self);
        }
        *self = TrackInfo { current_playing: false, pause_start_milli: now, ..*self };
        self.play_time_at(curr, pause_end)
    }

    /// Closes a session now: one reading of the clock serves as the start of
    /// the pause and as the present and the end of the pause for the play
    /// time. The play time that comes back is the time from the start to the
    /// close, less the pauses before. Where the clock reads a time before
    /// the epoch, nothing changes; where the play time is out of range, the
    /// session is closed all the same.
    pub fn end_playback(&mut self) -> (r: Result<TimeSpan, PlaybackFault>)
        ensures
            r matches Ok(t) ==> final(self)@ == ended(old(self)@, final(self)@.pause_start)
                && t@ == final(self)@.pause_start - old(self)@.start - old(self)@.pause_total
                && play_time_spec(final(self)@, final(self)@.pause_start, final(self)@.pause_start)
                    == Some(t@),
            r == Err::<TimeSpan, PlaybackFault>(PlaybackFault::ClockBeforeEpoch)
                ==> final(self)@ == old(self)@,
            r == Err::<TimeSpan, PlaybackFault>(PlaybackFault::SpanOutOfRange)
                ==> final(self)@ == ended(old(self)@, final(self)@.pause_start)
                && play_time_spec(final(self)@, final(self)@.pause_start, final(self)@.pause_start)
                    is None,
            final(self)@.consistent(),
    {
        proof {
            use_type_invariant(&*self);
        }
        let now = match now_since_epoch() {
            Some(n) => n,
            None => return Err(PlaybackFault::ClockBeforeEpoch),
        };
        proof {
            lemma_end_reports_time_played(old(self)@, now@);
        }
        match self.end_playback_at(now, now, now) {
            Some(t) => Ok(t),
            None => Err(PlaybackFault::SpanOutOfRange),
        }
    }

    /// Records whether the source has samples left past the play time: a
    /// paused track with none left is finished. A playing track does not
    /// change.
    pub fn record_remaining(&mut self, has_more: bool)
        ensures
            final(self)@ == settled(old(self)@, has_more),
            final(self)@.consistent(),
    {
        proof {
            use_type_invariant(&*self);
        }
        if !has_more && !self.current_playing {
            *self = TrackInfo { is_finished: true, ..*self };
        }
    }
}

/// A track that resumes skips exactly its play time: the skip computed when
/// continuing (the pause that just ended added to the pause total, then
/// taken off the time since the start) equals the play time at the same
/// readings, and is out of range on the same readings.
pub proof fn lemma_resume_continues_at_play_time(s: TrackState, curr: nat, pause_end: nat)
    ensures
        resume_skip_spec(s, curr, pause_end) == play_time_spec(s, curr, pause_end),
{
}

/// A track that starts on a fresh source at `start_at` with nothing paused
/// yet, and whose session closes at `stop_at`, has played `stop_at -
/// start_at` when its play time is read at that same moment.
pub proof fn lemma_single_session_play_time(s: TrackState, start_at: nat, stop_at: nat)
    requires
        s.pause_total == 0,
        start_at <= stop_at,
    ensures
        play_time_spec(ended(begun(s, start_at), stop_at), stop_at, stop_at)
            == Some((stop_at - start_at) as nat),
{
}

/// While a track is paused, its play time does not move: read at any one
/// instant (as both the present and the end of the current pause), it is
/// the time from the start to the start of the pause, less the pauses
/// before.
pub proof fn lemma_paused_play_time(s: TrackState, now: nat)
    ensures
        play_time_spec(s, now, now) matches Some(t) ==> t == s.pause_start - s.start - s.pause_total,
{
}

/// A track resumed at any one instant continues exactly where it paused:
/// it skips the time from the start to the start of the pause, less the
/// pauses before, whatever the instant.
pub proof fn lemma_resume_where_paused(s: TrackState, now: nat)
    ensures
        resume_skip_spec(s, now, now) matches Some(k) ==> k == s.pause_start - s.start - s.pause_total,
{
}

/// A session closed at `now` reports the time from the start to `now`,
/// less the pauses before.
pub proof fn lemma_end_reports_time_played(s: TrackState, now: nat)
    ensures
        play_time_spec(ended(s, now), now, now) matches Some(t) ==> t == now - s.start - s.pause_total,
{
}

/// A track continues from exactly where its last session stopped: the skip
/// of a resume, at any later instant, equals the play time reported when the
/// session closed, whatever is recorded of the samples left in between.
pub proof fn lemma_resume_continues_from_end(s: TrackState, closed_at: nat, has_more: bool, resumed_at: nat)
    requires
        play_time_spec(ended(s, closed_at), closed_at, closed_at) is Some,
        resume_skip_spec(settled(ended(s, closed_at), has_more), resumed_at, resumed_at) is Some,
    ensures
        resume_skip_spec(settled(ended(s, closed_at), has_more), resumed_at, resumed_at)
            == play_time_spec(ended(s, closed_at), closed_at, closed_at),
{
    lemma_end_reports_time_played(s, closed_at);
    lemma_resume_where_paused(settled(ended(s, closed_at), has_more), resumed_at);
}

} // verus!
