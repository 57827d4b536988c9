//! System-wide properties of the scheduler, proved over the transitions of
//! [`SchedulerView`]. Each exec operation's contract says its new state is
//! the corresponding transition of its old state, so these laws carry over
//! to any run of the scheduler.

use vstd::prelude::*;

use crate::scheduler::SchedulerError;
use crate::scheduler::SchedulerView;
use crate::scheduler::SkipEffect;
use crate::status::Status;
use crate::track::Track;

verus! {

/// The state after the tracks of `ts` are submitted in order.
pub open spec fn enqueue_all(s: SchedulerView, ts: Seq<Track>) -> SchedulerView
    decreases ts.len(),
{
    if ts.len() == 0 {
        s
    } else {
        enqueue_all(s.enqueued(ts[0]), ts.drop_first())
    }
}

/// Once a wakeup is pending on an idle scheduler, every further submission
/// appends at the back, signals nothing, and changes nothing else.
pub proof fn lemma_enqueue_all_appends(s: SchedulerView, ts: Seq<Track>)
    requires
        s.status is Idle,
        s.wakeup,
    ensures
        enqueue_all(s, ts).status is Idle,
        enqueue_all(s, ts).wakeup,
        enqueue_all(s, ts).current == s.current,
        enqueue_all(s, ts).queue == s.queue + ts,
    decreases ts.len(),
{
    if ts.len() == 0 {
        assert(s.queue + ts =~= s.queue);
    } else {
        let s1 = s.enqueued(ts[0]);
        assert(s1.queue == s.queue.push(ts[0]));
        lemma_enqueue_all_appends(s1, ts.drop_first());
        assert(s.queue.push(ts[0]) + ts.drop_first() =~= s.queue + ts);
    }
}

/// Against a settled idle scheduler, exactly the first of any sequence of
/// submissions takes the front-and-signal path; all later ones append in
/// arrival order without re-signaling. The queue afterwards holds the
/// tracks in exactly the order they arrived, and the scheduler is still
/// idle with the one wakeup pending — the loop's pop, not the submission,
/// makes the status `Playing`.
pub proof fn lemma_enqueue_storm(s: SchedulerView, ts: Seq<Track>)
    requires
        s.inv(),
        s.status is Idle,
        !s.wakeup,
        ts.len() >= 1,
    ensures
        s.enqueue_signals(),
        enqueue_all(s, ts).queue == ts,
        enqueue_all(s, ts).status is Idle,
        enqueue_all(s, ts).wakeup,
        enqueue_all(s, ts).current is None,
        enqueue_all(s, ts).inv(),
        forall|i: int| 1 <= i < ts.len() ==> !enqueue_all(s, ts.take(i)).enqueue_signals(),
{
    let s1 = s.enqueued(ts[0]);
    assert(s1.queue =~= seq![ts[0]]);
    lemma_enqueue_all_appends(s1, ts.drop_first());
    assert(seq![ts[0]] + ts.drop_first() =~= ts);
    assert forall|i: int| 1 <= i < ts.len() implies !enqueue_all(
        s,
        ts.take(i),
    ).enqueue_signals() by {
        let p = ts.take(i);
        assert(p[0] == ts[0]);
        let p1 = s.enqueued(p[0]);
        lemma_enqueue_all_appends(p1, p.drop_first());
    }
}

/// Skipping twice in immediate succession while one track is in flight: the
/// first skip succeeds and asks for the stop; the second finds no current
/// track, reports `NothingPlaying`, and mutates nothing further.
pub proof fn lemma_skip_twice(s: SchedulerView)
    requires
        s.inv(),
        s.status is Playing,
        s.current is Some,
    ensures
        s.skip_result() == Ok::<SkipEffect, SchedulerError>(SkipEffect::StopCurrent),
        s.skipped().skip_result() == Err::<SkipEffect, SchedulerError>(
            SchedulerError::NothingPlaying,
        ),
        s.skipped().skipped() == s.skipped(),
{
}

/// Disconnect is safe from every state: it always yields a disconnected
/// scheduler with an empty queue and no current track, and the invariant
/// holds afterwards whatever held before.
pub proof fn lemma_disconnect_safe(s: SchedulerView)
    ensures
        s.disconnected().status is Disconnected,
        s.disconnected().queue.len() == 0,
        s.disconnected().current is None,
        s.disconnected().inv(),
{
}

/// Every transition preserves the invariant — in particular, whenever the
/// scheduler is idle with no wakeup pending, the queue is empty and no
/// track is current. (`connected` is only taken from `Disconnected`.)
pub proof fn lemma_inv_preserved(s: SchedulerView, t: Track, alive: bool)
    requires
        s.inv(),
    ensures
        s.enqueued(t).inv(),
        s.skipped().inv(),
        s.paused().inv(),
        s.resumed().inv(),
        s.disconnected().inv(),
        s.completed().inv(),
        s.loop_stepped(alive).inv(),
        s.status is Disconnected ==> s.connected().inv(),
{
}

/// One completed track followed by the loop's reaction, where the loop was
/// woken and the connection stands.
pub open spec fn completion_round(s: SchedulerView) -> SchedulerView {
    let c = s.completed();
    if c.wakeup {
        c.loop_stepped(true)
    } else {
        c
    }
}

/// `n` completion rounds in succession.
pub open spec fn completion_rounds(s: SchedulerView, n: nat) -> SchedulerView
    decreases n,
{
    if n == 0 {
        s
    } else {
        completion_rounds(completion_round(s), (n - 1) as nat)
    }
}

/// A playing scheduler with `n` queued tracks settles to empty-and-idle
/// after exactly `n + 1` completions: each of the first `n` wakes the loop,
/// which pops the next track and keeps playing; the last finds the queue
/// empty, idles the scheduler and releases the current track.
pub proof fn lemma_drain(s: SchedulerView)
    requires
        s.inv(),
        s.status is Playing,
        s.current is Some,
        !s.wakeup,
    ensures
        completion_rounds(s, s.queue.len() + 1).status is Idle,
        completion_rounds(s, s.queue.len() + 1).queue.len() == 0,
        completion_rounds(s, s.queue.len() + 1).current is None,
        completion_rounds(s, s.queue.len() + 1).inv(),
    decreases s.queue.len(),
{
    if s.queue.len() == 0 {
        let c = s.completed();
        assert(!c.wakeup);
        assert(completion_rounds(s, 1) == completion_rounds(c, 0));
    } else {
        let s1 = completion_round(s);
        assert(s1.status is Playing && s1.current is Some && !s1.wakeup);
        assert(s1.queue == s.queue.drop_first());
        lemma_drain(s1);
        assert(completion_rounds(s, s.queue.len() + 1) == completion_rounds(
            s1,
            s1.queue.len() + 1,
        ));
    }
}

} // verus!
