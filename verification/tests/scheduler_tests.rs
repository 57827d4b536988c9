use playback_scheduler::scheduler::LoopAction;
use playback_scheduler::scheduler::Scheduler;
use playback_scheduler::scheduler::SchedulerError;
use playback_scheduler::scheduler::SkipEffect;
use playback_scheduler::status::Status;
use playback_scheduler::track::Track;

fn track(name: &str) -> Track {
    Track { resource: String::from(name), requester: 7 }
}

fn current_resource(s: &Scheduler) -> Option<String> {
    s.current().as_ref().map(|t| t.resource.clone())
}

#[test]
fn new_scheduler_is_disconnected_and_empty() {
    let s = Scheduler::new();
    assert_eq!(s.status(), Status::Disconnected);
    assert_eq!(s.queue_len(), 0);
    assert!(s.current().is_none());
    assert!(!s.wakeup_pending());
    assert!(s.wf());
}

#[test]
fn enqueue_rejected_while_disconnected() {
    let mut s = Scheduler::new();
    let r = s.enqueue(track("a"));
    assert_eq!(r, Err(SchedulerError::NotConnected));
    assert_eq!(s.queue_len(), 0);
    assert_eq!(s.status(), Status::Disconnected);
    assert!(s.wf());
}

#[test]
fn first_enqueue_signals_later_ones_append() {
    let mut s = Scheduler::new();
    s.connect();
    assert_eq!(s.status(), Status::Idle);
    assert_eq!(s.enqueue(track("a")), Ok(true));
    assert!(s.wakeup_pending());
    assert_eq!(s.enqueue(track("b")), Ok(false));
    assert_eq!(s.enqueue(track("c")), Ok(false));
    assert_eq!(s.queue_len(), 3);
    assert_eq!(s.status(), Status::Idle);
    assert!(s.wf());
}

#[test]
fn two_track_session_runs_to_idle() {
    let mut s = Scheduler::new();
    s.connect();
    assert_eq!(s.enqueue(track("a")), Ok(true));
    assert_eq!(s.loop_step(true), LoopAction::Play);
    assert_eq!(s.status(), Status::Playing);
    assert_eq!(current_resource(&s).as_deref(), Some("a"));
    assert_eq!(s.queue_len(), 0);

    assert_eq!(s.enqueue(track("b")), Ok(false));
    assert_eq!(s.queue_len(), 1);
    assert_eq!(current_resource(&s).as_deref(), Some("a"));

    assert!(s.on_track_end());
    assert_eq!(s.loop_step(true), LoopAction::Play);
    assert_eq!(current_resource(&s).as_deref(), Some("b"));
    assert_eq!(s.status(), Status::Playing);
    assert_eq!(s.queue_len(), 0);

    assert!(!s.on_track_end());
    assert_eq!(s.status(), Status::Idle);
    assert!(s.current().is_none());
    assert_eq!(s.queue_len(), 0);
    assert!(s.wf());
}

#[test]
fn pause_resume_and_skip_while_paused() {
    let mut s = Scheduler::new();
    s.connect();
    s.enqueue(track("a")).unwrap();
    s.loop_step(true);
    assert_eq!(s.status(), Status::Playing);

    assert_eq!(s.pause(), Ok(()));
    assert_eq!(s.status(), Status::Paused);
    assert_eq!(current_resource(&s).as_deref(), Some("a"));

    assert_eq!(s.resume(), Ok(()));
    assert_eq!(s.status(), Status::Playing);

    assert_eq!(s.pause(), Ok(()));
    assert_eq!(s.skip(), Ok(SkipEffect::SignalWakeup));
    assert!(s.wakeup_pending());
    assert_eq!(s.status(), Status::Paused);

    // The loop advances past the paused track; no completion ever fires for it.
    assert_eq!(s.loop_step(true), LoopAction::Wait);
    assert_eq!(s.status(), Status::Idle);
    assert!(s.current().is_none());
    assert!(s.wf());
}

#[test]
fn skip_twice_reports_nothing_playing() {
    let mut s = Scheduler::new();
    s.connect();
    s.enqueue(track("a")).unwrap();
    s.loop_step(true);
    assert_eq!(s.skip(), Ok(SkipEffect::StopCurrent));
    assert!(s.current().is_none());
    assert_eq!(s.skip(), Err(SchedulerError::NothingPlaying));
    assert!(s.wf());
}

#[test]
fn disconnect_is_safe_from_every_status() {
    // Disconnected.
    let mut s = Scheduler::new();
    assert!(!s.disconnect());
    assert_eq!(s.status(), Status::Disconnected);
    assert_eq!(s.queue_len(), 0);
    assert!(s.current().is_none());
    assert!(s.wf());

    // Idle.
    let mut s = Scheduler::new();
    s.connect();
    assert!(!s.disconnect());
    assert_eq!(s.status(), Status::Disconnected);
    assert_eq!(s.queue_len(), 0);
    assert!(s.current().is_none());
    assert!(s.wf());

    // Playing, with another track queued.
    let mut s = Scheduler::new();
    s.connect();
    s.enqueue(track("a")).unwrap();
    s.loop_step(true);
    s.enqueue(track("b")).unwrap();
    assert!(s.disconnect());
    assert_eq!(s.status(), Status::Disconnected);
    assert_eq!(s.queue_len(), 0);
    assert!(s.current().is_none());
    assert!(s.wf());

    // Paused.
    let mut s = Scheduler::new();
    s.connect();
    s.enqueue(track("a")).unwrap();
    s.loop_step(true);
    s.pause().unwrap();
    assert!(s.disconnect());
    assert_eq!(s.status(), Status::Disconnected);
    assert_eq!(s.queue_len(), 0);
    assert!(s.current().is_none());
    assert!(s.wf());
}

#[test]
fn loop_terminates_on_dead_connection() {
    let mut s = Scheduler::new();
    s.connect();
    s.enqueue(track("a")).unwrap();
    s.loop_step(true);
    s.enqueue(track("b")).unwrap();
    assert_eq!(s.loop_step(false), LoopAction::Terminate);
    assert_eq!(s.status(), Status::Disconnected);
    assert_eq!(s.queue_len(), 0);
    assert!(s.current().is_none());
    assert!(!s.wakeup_pending());
    assert!(s.wf());
}

#[test]
fn enqueue_storm_then_drain() {
    let n = 5;
    let mut s = Scheduler::new();
    s.connect();
    for i in 0..n {
        let signalled = s.enqueue(track(&format!("t{i}"))).unwrap();
        assert_eq!(signalled, i == 0);
    }
    assert_eq!(s.queue_len(), n);
    assert_eq!(s.status(), Status::Idle);

    // The loop wakes once and pops the first submission from the front.
    assert_eq!(s.loop_step(true), LoopAction::Play);
    assert_eq!(current_resource(&s).as_deref(), Some("t0"));
    assert_eq!(s.status(), Status::Playing);

    // Exactly n completions later everything has drained.
    let mut completions = 0;
    loop {
        let signalled = s.on_track_end();
        completions += 1;
        if !signalled {
            break;
        }
        assert_eq!(s.loop_step(true), LoopAction::Play);
        let expected = format!("t{completions}");
        assert_eq!(current_resource(&s).as_deref(), Some(expected.as_str()));
    }
    assert_eq!(completions, n);
    assert_eq!(s.status(), Status::Idle);
    assert_eq!(s.queue_len(), 0);
    assert!(s.current().is_none());
    assert!(s.wf());
}

#[test]
fn command_errors_and_messages() {
    let mut s = Scheduler::new();
    assert_eq!(s.skip(), Err(SchedulerError::NotConnected));
    assert_eq!(s.pause(), Err(SchedulerError::NotConnected));
    assert_eq!(s.resume(), Err(SchedulerError::NotConnected));

    s.connect();
    assert_eq!(s.skip(), Err(SchedulerError::NothingPlaying));
    assert_eq!(s.pause(), Err(SchedulerError::NothingPlaying));
    assert_eq!(s.resume(), Err(SchedulerError::NotPaused));

    s.enqueue(track("a")).unwrap();
    s.loop_step(true);
    assert_eq!(s.resume(), Err(SchedulerError::NotPaused));
    s.pause().unwrap();
    assert_eq!(s.pause(), Err(SchedulerError::NothingPlaying));

    assert_eq!(
        SchedulerError::NotConnected.message(),
        "Not connected to a voice channel"
    );
    assert_eq!(SchedulerError::NothingPlaying.message(), "There is nothing playing");
    assert_eq!(SchedulerError::NotPaused.message(), "Playback is not paused");
    assert_eq!(
        SchedulerError::EngineFailure.message(),
        "The audio engine reported an error"
    );
}

#[test]
fn completion_is_safe_when_redundant() {
    let mut s = Scheduler::new();
    assert!(!s.on_track_end());
    assert_eq!(s.status(), Status::Disconnected);

    s.connect();
    assert!(!s.on_track_end());
    assert_eq!(s.status(), Status::Idle);
    assert!(s.current().is_none());
    assert!(s.wf());
}

#[test]
fn enqueue_while_paused_appends_without_signal() {
    let mut s = Scheduler::new();
    s.connect();
    s.enqueue(track("a")).unwrap();
    s.loop_step(true);
    s.pause().unwrap();
    assert_eq!(s.enqueue(track("b")), Ok(false));
    assert!(!s.wakeup_pending());
    assert_eq!(s.status(), Status::Paused);
    assert_eq!(s.queue_len(), 1);
    assert_eq!(current_resource(&s).as_deref(), Some("a"));
    assert!(s.wf());
}

#[test]
fn should_enqueue_by_status() {
    assert!(Status::should_enqueue(Status::Idle));
    assert!(Status::should_enqueue(Status::Playing));
    assert!(Status::should_enqueue(Status::Paused));
    assert!(!Status::should_enqueue(Status::Disconnected));
}

#[test]
fn status_labels() {
    assert_eq!(Status::Playing.label(), "Playing");
    assert_eq!(Status::Idle.label(), "Idle");
    assert_eq!(Status::Paused.label(), "Paused");
    assert_eq!(Status::Disconnected.label(), "Disconnected");
}
