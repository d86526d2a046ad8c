use gpt_pipe::host::HostEvent;
use gpt_pipe::host::HostPhase;
use gpt_pipe::host::host_step;

#[test]
fn session_runs_to_completion() {
    let p0 = HostPhase::Uninitialized;
    let p1 = host_step(p0, HostEvent::ScriptResolved);
    assert_eq!(p1, HostPhase::ScriptLoaded);
    let p2 = host_step(p1, HostEvent::EvaluationStarted);
    assert_eq!(p2, HostPhase::Running);
    let p3 = host_step(p2, HostEvent::EventLoopDrained);
    assert_eq!(p3, HostPhase::Completed);
}

#[test]
fn failures_end_the_session() {
    assert_eq!(host_step(HostPhase::Running, HostEvent::FailureRaised), HostPhase::Failed);
    assert_eq!(host_step(HostPhase::ScriptLoaded, HostEvent::FailureRaised), HostPhase::Failed);
}

#[test]
fn terminal_phases_absorb_every_event() {
    let events = [
        HostEvent::ScriptResolved,
        HostEvent::EvaluationStarted,
        HostEvent::EventLoopDrained,
        HostEvent::FailureRaised,
    ];
    for e in events {
        assert_eq!(host_step(HostPhase::Completed, e), HostPhase::Completed);
        assert_eq!(host_step(HostPhase::Failed, e), HostPhase::Failed);
    }
}

#[test]
fn out_of_order_events_change_nothing() {
    assert_eq!(
        host_step(HostPhase::Uninitialized, HostEvent::EventLoopDrained),
        HostPhase::Uninitialized
    );
    assert_eq!(
        host_step(HostPhase::Uninitialized, HostEvent::FailureRaised),
        HostPhase::Uninitialized
    );
    assert_eq!(host_step(HostPhase::Running, HostEvent::ScriptResolved), HostPhase::Running);
}
