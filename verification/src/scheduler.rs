//! The playback scheduler: queue, status and current track, with every
//! transition the command handlers, the playback loop and the completion
//! event may perform.
//!
//! The scheduler is a value; the process around it keeps it behind a lock,
//! runs one playback loop against it, and owns the wakeup notifier and the
//! audio engine. Each operation here mutates the state atomically and
//! reports the effect the caller still has to perform outside (signal the
//! notifier, stop or pause the engine's handle, hand a track to the engine).
//! The wakeup notifier coalesces: any number of signals before the loop
//! observes them wake it once. The `wakeup` field mirrors exactly that one
//! pending, not yet consumed, wakeup.

use std::collections::VecDeque;
use vstd::prelude::*;

use crate::status::accepts_enqueue;
use crate::status::Status;
use crate::track::Track;

verus! {

broadcast use vstd::std_specs::vecdeque::group_vec_dequeue_axioms;

/// Why a command was refused, or that an engine call failed.
#[derive(Clone, Copy, Debug, PartialEq, Eq, Structural)]
pub enum SchedulerError {
    /// The command needs an active voice connection.
    NotConnected,
    /// Pause or skip was asked for while no track is playing.
    NothingPlaying,
    /// Resume was asked for while nothing is paused.
    NotPaused,
    /// An audio-engine call failed; the scheduler's state was still updated.
    EngineFailure,
}

impl SchedulerError {
    /// A user-displayable description of the error.
    pub fn message(&self) -> (m: &'static str)
        ensures
            *self is NotConnected ==> m@ == "Not connected to a voice channel"@,
            *self is NothingPlaying ==> m@ == "There is nothing playing"@,
            *self is NotPaused ==> m@ == "Playback is not paused"@,
            *self is EngineFailure ==> m@ == "The audio engine reported an error"@,
    {
        match self {
            SchedulerError::NotConnected => "Not connected to a voice channel",
            SchedulerError::NothingPlaying => "There is nothing playing",
            SchedulerError::NotPaused => "Playback is not paused",
            SchedulerError::EngineFailure => "The audio engine reported an error",
        }
    }
}

/// What the caller must still do after a successful skip.
#[derive(Clone, Copy, Debug, PartialEq, Eq, Structural)]
pub enum SkipEffect {
    /// Stop the engine's current handle; the completion event the stop
    /// triggers drives the next transition.
    StopCurrent,
    /// Signal the wakeup notifier; the loop advances past the paused track
    /// without resuming it audibly.
    SignalWakeup,
}

/// What the playback loop must do after one step.
#[derive(Clone, Copy, Debug, PartialEq, Eq, Structural)]
pub enum LoopAction {
    /// The connection is gone: the loop terminates.
    Terminate,
    /// A track moved into the current slot: hand it to the audio engine.
    Play,
    /// The queue was empty: keep waiting on the notifier.
    Wait,
}

/// The scheduler's state as the contracts see it.
pub ghost struct SchedulerView {
    pub status: Status,
    pub queue: Seq<Track>,
    pub current: Option<Track>,
    /// Whether a wakeup has been signalled and not yet consumed by the loop.
    pub wakeup: bool,
}

impl SchedulerView {
    /// The state of a freshly created scheduler.
    pub open spec fn init() -> SchedulerView {
        SchedulerView {
            status: Status::Disconnected,
            queue: Seq::<Track>::empty(),
            current: None::<Track>,
            wakeup: false,
        }
    }

    /// The scheduler's invariant, checked between operations:
    /// disconnected means nothing queued and nothing playing; idle means
    /// nothing playing, and — once the loop has consumed every pending
    /// wakeup — nothing queued; a paused track is always present. (While
    /// `Playing`, the current slot may be empty: a skip clears it and the
    /// completion event of the stopped track drives the next transition.)
    pub open spec fn inv(self) -> bool {
        &&& (self.status is Disconnected ==> self.queue.len() == 0 && self.current is None)
        &&& (self.status is Idle ==> self.current is None)
        &&& (self.status is Idle && !self.wakeup ==> self.queue.len() == 0)
        &&& (self.status is Paused ==> self.current is Some)
    }

    /// Whether an enqueue in this state takes the idle fast path: the track
    /// goes to the queue's front and the loop is woken. Only the first
    /// submission against a settled idle scheduler does; once a wakeup is
    /// pending the loop is already on its way, and later submissions append.
    pub open spec fn enqueue_signals(self) -> bool {
        self.status is Idle && !self.wakeup
    }

    /// The state after an enqueue of `t`. A disconnected scheduler is left
    /// unchanged; the idle fast path pushes to the front and records the
    /// wakeup; every other accepted submission appends to the back.
    pub open spec fn enqueued(self, t: Track) -> SchedulerView {
        if !accepts_enqueue(self.status) {
            self
        } else if self.enqueue_signals() {
            SchedulerView { queue: seq![t] + self.queue, wakeup: true, ..self }
        } else {
            SchedulerView { queue: self.queue.push(t), ..self }
        }
    }

    /// What a skip command reports in this state.
    pub open spec fn skip_result(self) -> Result<SkipEffect, SchedulerError> {
        if self.status is Disconnected {
            Err(SchedulerError::NotConnected)
        } else if self.current is None {
            Err(SchedulerError::NothingPlaying)
        } else if self.status is Playing {
            Ok(SkipEffect::StopCurrent)
        } else {
            Ok(SkipEffect::SignalWakeup)
        }
    }

    /// The state after a skip command. Skipping a playing track clears the
    /// current slot and leaves the transition to the completion event the
    /// stop triggers; skipping a paused track only wakes the loop, which
    /// advances past it. A refused skip changes nothing.
    pub open spec fn skipped(self) -> SchedulerView {
        if self.status is Disconnected || self.current is None {
            self
        } else if self.status is Playing {
            SchedulerView { current: None::<Track>, ..self }
        } else {
            SchedulerView { wakeup: true, ..self }
        }
    }

    /// What a pause command reports in this state.
    pub open spec fn pause_result(self) -> Result<(), SchedulerError> {
        if self.status is Disconnected {
            Err(SchedulerError::NotConnected)
        } else if self.current is None || !(self.status is Playing) {
            Err(SchedulerError::NothingPlaying)
        } else {
            Ok(())
        }
    }

    /// The state after a pause command: `Paused` when accepted, unchanged
    /// when refused. The current track stays where it is.
    pub open spec fn paused(self) -> SchedulerView {
        if self.pause_result() is Ok {
            SchedulerView { status: Status::Paused, ..self }
        } else {
            self
        }
    }

    /// What a resume command reports in this state.
    pub open spec fn resume_result(self) -> Result<(), SchedulerError> {
        if self.status is Disconnected {
            Err(SchedulerError::NotConnected)
        } else if !(self.status is Paused) {
            Err(SchedulerError::NotPaused)
        } else {
            Ok(())
        }
    }

    /// The state after a resume command: back to `Playing` when accepted,
    /// unchanged when refused.
    pub open spec fn resumed(self) -> SchedulerView {
        if self.resume_result() is Ok {
            SchedulerView { status: Status::Playing, ..self }
        } else {
            self
        }
    }

    /// The state after a disconnect command, from any state: the queue is
    /// dropped, the current track is dropped, and the loop is woken so it
    /// observes the dead connection and terminates.
    pub open spec fn disconnected(self) -> SchedulerView {
        SchedulerView {
            status: Status::Disconnected,
            queue: Seq::<Track>::empty(),
            current: None::<Track>,
            wakeup: true,
        }
    }

    /// Whether the completion event signals the loop: exactly when tracks
    /// are still queued.
    pub open spec fn completion_signals(self) -> bool {
        self.queue.len() > 0
    }

    /// The state after the completion event. With tracks queued it only
    /// wakes the loop; with an empty queue it idles an active scheduler and
    /// releases the current track. On an already idle or disconnected
    /// scheduler it changes nothing, so a redundant invocation is safe.
    pub open spec fn completed(self) -> SchedulerView {
        if self.queue.len() > 0 {
            SchedulerView { wakeup: true, ..self }
        } else if self.status is Playing || self.status is Paused {
            SchedulerView { status: Status::Idle, current: None::<Track>, ..self }
        } else {
            self
        }
    }

    /// What the playback loop does on one wakeup, given whether the voice
    /// connection is still alive.
    pub open spec fn loop_action(self, alive: bool) -> LoopAction {
        if !alive || self.status is Disconnected {
            LoopAction::Terminate
        } else if self.queue.len() > 0 {
            LoopAction::Play
        } else {
            LoopAction::Wait
        }
    }

    /// The state after one step of the playback loop. The pending wakeup is
    /// consumed. A dead connection disconnects the scheduler and the loop
    /// terminates; otherwise the queue's front track, if any, becomes the
    /// current track and plays; an empty queue idles the scheduler.
    pub open spec fn loop_stepped(self, alive: bool) -> SchedulerView {
        if !alive || self.status is Disconnected {
            SchedulerView {
                status: Status::Disconnected,
                queue: Seq::<Track>::empty(),
                current: None::<Track>,
                wakeup: false,
            }
        } else if self.queue.len() > 0 {
            SchedulerView {
                status: Status::Playing,
                queue: self.queue.drop_first(),
                current: Some(self.queue[0]),
                wakeup: false,
            }
        } else {
            SchedulerView {
                status: Status::Idle,
                queue: self.queue,
                current: None::<Track>,
                wakeup: false,
            }
        }
    }

    /// The state after the connection is established: idle, ready for
    /// submissions.
    pub open spec fn connected(self) -> SchedulerView {
        SchedulerView { status: Status::Idle, ..self }
    }
}

/// The scheduler itself. Fields are private: every mutation goes through an
/// operation below, and the view [`SchedulerView`] is what contracts speak
/// of.
pub struct Scheduler {
    status: Status,
    queue: VecDeque<Track>,
    current: Option<Track>,
    wakeup: bool,
}

impl View for Scheduler {
    type V = SchedulerView;

    closed spec fn view(&self) -> SchedulerView {
        SchedulerView {
            status: self.status,
            queue: self.queue@,
            current: self.current,
            wakeup: self.wakeup,
        }
    }
}

impl Scheduler {
    /// A fresh scheduler: disconnected, nothing queued, nothing playing.
    pub fn new() -> (s: Scheduler)
        ensures
            s@ == SchedulerView::init(),
            s@.inv(),
    {
        let s = Scheduler {
            status: Status::Disconnected,
            queue: VecDeque::new(),
            current: None,
            wakeup: false,
        };
        proof {
            assert(s@ =~= SchedulerView::init());
        }
        s
    }

    /// The connection came up: a disconnected scheduler becomes idle.
    pub fn connect(&mut self)
        requires
            old(self)@.inv(),
            old(self)@.status is Disconnected,
        ensures
            final(self)@ == old(self)@.connected(),
            final(self)@.inv(),
    {
        self.status = Status::Idle;
    }

    /// Submit a track. Refused with [`SchedulerError::NotConnected`] exactly
    /// when the scheduler is disconnected; every other state accepts it.
    /// `Ok(true)` says the track took the idle fast path — it sits at the
    /// queue's front and the caller must signal the wakeup notifier;
    /// `Ok(false)` says it was appended and no signal is owed.
    pub fn enqueue(&mut self, t: Track) -> (r: Result<bool, SchedulerError>)
        requires
            old(self)@.inv(),
        ensures
            final(self)@ == old(self)@.enqueued(t),
            final(self)@.inv(),
            r is Ok <==> accepts_enqueue(old(self)@.status),
            r is Ok ==> r == Ok::<bool, SchedulerError>(old(self)@.enqueue_signals()),
            r is Err ==> r == Err::<bool, SchedulerError>(SchedulerError::NotConnected),
    {
        match self.status {
            Status::Disconnected => Err(SchedulerError::NotConnected),
            Status::Idle => {
                if !self.wakeup {
                    self.queue.push_front(t);
                    self.wakeup = true;
                    proof {
                        assert(self@ =~= old(self)@.enqueued(t));
                    }
                    Ok(true)
                } else {
                    self.queue.push_back(t);
                    proof {
                        assert(self@ =~= old(self)@.enqueued(t));
                    }
                    Ok(false)
                }
            },
            Status::Playing | Status::Paused => {
                self.queue.push_back(t);
                proof {
                    assert(self@ =~= old(self)@.enqueued(t));
                }
                Ok(false)
            },
        }
    }

    /// Skip the current track. Refused when disconnected or when no track is
    /// current. While playing, the caller must stop the engine's handle —
    /// idempotent on an already ended track — and the completion event that
    /// the stop triggers drives the next transition. While paused, the
    /// caller must signal the wakeup notifier instead: the loop advances
    /// past the paused track without it ever resuming audibly.
    pub fn skip(&mut self) -> (r: Result<SkipEffect, SchedulerError>)
        requires
            old(self)@.inv(),
        ensures
            final(self)@ == old(self)@.skipped(),
            final(self)@.inv(),
            r == old(self)@.skip_result(),
    {
        if self.status == Status::Disconnected {
            Err(SchedulerError::NotConnected)
        } else if self.current.is_none() {
            Err(SchedulerError::NothingPlaying)
        } else if self.status == Status::Playing {
            self.current = None;
            Ok(SkipEffect::StopCurrent)
        } else {
            self.wakeup = true;
            Ok(SkipEffect::SignalWakeup)
        }
    }

    /// Pause playback. Refused when disconnected, and — with
    /// [`SchedulerError::NothingPlaying`] — when no track is current or the
    /// scheduler is not playing. When accepted, the caller must pause the
    /// engine's handle; the current track stays where it is. Should the
    /// engine call then fail, the state remains `Paused`: the scheduler
    /// fails open toward not-playing rather than risk believing it plays
    /// when it does not.
    pub fn pause(&mut self) -> (r: Result<(), SchedulerError>)
        requires
            old(self)@.inv(),
        ensures
            final(self)@ == old(self)@.paused(),
            final(self)@.inv(),
            r == old(self)@.pause_result(),
    {
        if self.status == Status::Disconnected {
            Err(SchedulerError::NotConnected)
        } else if self.current.is_none() || self.status != Status::Playing {
            Err(SchedulerError::NothingPlaying)
        } else {
            self.status = Status::Paused;
            Ok(())
        }
    }

    /// Resume paused playback (the no-argument play command). Refused when
    /// disconnected, and with [`SchedulerError::NotPaused`] in any other
    /// state than `Paused`. When accepted, the caller must resume the
    /// engine's handle.
    pub fn resume(&mut self) -> (r: Result<(), SchedulerError>)
        requires
            old(self)@.inv(),
        ensures
            final(self)@ == old(self)@.resumed(),
            final(self)@.inv(),
            r == old(self)@.resume_result(),
    {
        if self.status == Status::Disconnected {
            Err(SchedulerError::NotConnected)
        } else if self.status != Status::Paused {
            Err(SchedulerError::NotPaused)
        } else {
            self.status = Status::Playing;
            Ok(())
        }
    }

    /// Disconnect, permitted from every state: the queue is dropped, the
    /// current track is dropped, the status becomes `Disconnected`, and a
    /// wakeup is recorded so the loop observes the dead connection and
    /// terminates. Returns whether a current track was held, in which case
    /// the caller must stop the engine's handle — and tear the connection
    /// down and signal the notifier in every case. The scheduler's state is
    /// updated even if those engine calls then fail.
    pub fn disconnect(&mut self) -> (had_current: bool)
        ensures
            final(self)@ == old(self)@.disconnected(),
            final(self)@.inv(),
            had_current == (old(self)@.current is Some),
    {
        let had_current = self.current.is_some();
        self.queue.clear();
        self.current = None;
        self.status = Status::Disconnected;
        self.wakeup = true;
        proof {
            assert(self@ =~= old(self)@.disconnected());
        }
        had_current
    }

    /// The audio engine reports that a track reached its end. With tracks
    /// still queued, the loop is woken — the caller must signal the
    /// notifier exactly when `true` comes back — and nothing else changes;
    /// with an empty queue an active scheduler idles and releases the
    /// current track. Safe to invoke redundantly: on an idle or
    /// disconnected scheduler it changes nothing.
    pub fn on_track_end(&mut self) -> (signalled: bool)
        requires
            old(self)@.inv(),
        ensures
            final(self)@ == old(self)@.completed(),
            final(self)@.inv(),
            signalled == old(self)@.completion_signals(),
    {
        if self.queue.len() > 0 {
            self.wakeup = true;
            true
        } else {
            if self.status == Status::Playing || self.status == Status::Paused {
                self.status = Status::Idle;
                self.current = None;
            }
            false
        }
    }

    /// One step of the playback loop, taken after the notifier woke it;
    /// `alive` says whether the voice connection still stands. The pending
    /// wakeup is consumed. On a dead connection the scheduler disconnects
    /// and the loop must terminate. Otherwise the queue's front track, if
    /// any, becomes the current track and the scheduler plays: the caller
    /// must hand that track ([`Self::current`]) to the audio engine. With
    /// nothing queued the scheduler idles and the loop keeps waiting.
    pub fn loop_step(&mut self, alive: bool) -> (r: LoopAction)
        requires
            old(self)@.inv(),
        ensures
            final(self)@ == old(self)@.loop_stepped(alive),
            final(self)@.inv(),
            r == old(self)@.loop_action(alive),
    {
        if !alive || self.status == Status::Disconnected {
            self.queue.clear();
            self.current = None;
            self.status = Status::Disconnected;
            self.wakeup = false;
            proof {
                assert(self@ =~= old(self)@.loop_stepped(alive));
            }
            LoopAction::Terminate
        } else {
            self.wakeup = false;
            match self.queue.pop_front() {
                Some(t) => {
                    self.current = Some(t);
                    self.status = Status::Playing;
                    proof {
                        assert(self@ =~= old(self)@.loop_stepped(alive));
                    }
                    LoopAction::Play
                },
                None => {
                    self.current = None;
                    self.status = Status::Idle;
                    proof {
                        assert(self@ =~= old(self)@.loop_stepped(alive));
                    }
                    LoopAction::Wait
                },
            }
        }
    }

    /// The scheduler's status.
    pub fn status(&self) -> (r: Status)
        ensures
            r == self@.status,
    {
        self.status
    }

    /// The track currently handed to the audio engine, if any.
    pub fn current(&self) -> (r: &Option<Track>)
        ensures
            *r == self@.current,
    {
        &self.current
    }

    /// How many tracks wait in the queue.
    pub fn queue_len(&self) -> (n: usize)
        ensures
            n == self@.queue.len(),
    {
        self.queue.len()
    }

    /// Whether a wakeup is pending that the loop has not consumed yet.
    pub fn wakeup_pending(&self) -> (b: bool)
        ensures
            b == self@.wakeup,
    {
        self.wakeup
    }

    /// Whether the invariant holds, decided at run time; unverified callers
    /// can check it before an operation that requires it.
    pub fn wf(&self) -> (b: bool)
        ensures
            b == self@.inv(),
    {
        match self.status {
            Status::Disconnected => self.queue.len() == 0 && self.current.is_none(),
            Status::Idle => self.current.is_none() && (self.wakeup || self.queue.len() == 0),
            Status::Playing => true,
            Status::Paused => self.current.is_some(),
        }
    }
}

} // verus!
