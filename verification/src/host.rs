//! The execution host: its lifecycle and the one capability it exposes
//! to guest code.
//!
//! The host loads the cached script into an embedded engine, evaluates
//! it, and drives the engine's event loop until nothing is pending. Its
//! lifecycle is the state machine below; the engine itself is an outside
//! collaborator, so the host hands it events and the machine decides the
//! next phase. The single capability visible to guest code fetches the
//! next batch of lines from the channel or signals end-of-input.

use crate::channel::Channel;
use vstd::prelude::*;

verus! {

/// The phases of one execution session.
#[derive(Clone, Copy, PartialEq, Eq, Structural, Debug)]
pub enum HostPhase {
    Uninitialized,
    ScriptLoaded,
    Running,
    Completed,
    Failed,
}

/// The events the engine reports back to the host.
#[derive(Clone, Copy, PartialEq, Eq, Structural, Debug)]
pub enum HostEvent {
    ScriptResolved,
    EvaluationStarted,
    EventLoopDrained,
    FailureRaised,
}

/// The lifecycle: a resolved script loads, a loaded script starts
/// running, a running session completes when the event loop drains, and
/// any failure while the script is loaded or running ends the session in
/// the failed phase. Terminal phases absorb every event, and an event
/// that fits no transition leaves the phase alone.
pub open spec fn next_phase(phase: HostPhase, event: HostEvent) -> HostPhase {
    match (phase, event) {
        (HostPhase::Uninitialized, HostEvent::ScriptResolved) => HostPhase::ScriptLoaded,
        (HostPhase::ScriptLoaded, HostEvent::EvaluationStarted) => HostPhase::Running,
        (HostPhase::Running, HostEvent::EventLoopDrained) => HostPhase::Completed,
        (HostPhase::ScriptLoaded, HostEvent::FailureRaised) => HostPhase::Failed,
        (HostPhase::Running, HostEvent::FailureRaised) => HostPhase::Failed,
        _ => phase,
    }
}

/// Whether a phase ends the session.
pub open spec fn is_terminal(phase: HostPhase) -> bool {
    phase is Completed || phase is Failed
}

/// Advances the host lifecycle by one event.
pub fn host_step(phase: HostPhase, event: HostEvent) -> (next: HostPhase)
    ensures
        next == next_phase(phase, event),
{
    match (phase, event) {
        (HostPhase::Uninitialized, HostEvent::ScriptResolved) => HostPhase::ScriptLoaded,
        (HostPhase::ScriptLoaded, HostEvent::EvaluationStarted) => HostPhase::Running,
        (HostPhase::Running, HostEvent::EventLoopDrained) => HostPhase::Completed,
        (HostPhase::ScriptLoaded, HostEvent::FailureRaised) => HostPhase::Failed,
        (HostPhase::Running, HostEvent::FailureRaised) => HostPhase::Failed,
        (p, _) => p,
    }
}

/// A completed or failed session stays completed or failed, whatever
/// event arrives.
pub proof fn lemma_terminal_phase_absorbs(phase: HostPhase, event: HostEvent)
    requires
        is_terminal(phase),
    ensures
        next_phase(phase, event) == phase,
{
}

/// What one call of the host capability yields to guest code: the next
/// batch of lines, or the end of the input.
pub enum Fetch {
    Lines(Vec<String>),
    EndOfInput,
}

/// The host capability: fetches the next batch from the channel, or
/// observes end-of-stream. It never yields an empty batch, and once the
/// drained, closed channel has reported end-of-input, every later call
/// yields end-of-input again and the channel stays untouched.
pub fn fetch_next(chan: &mut Channel) -> (r: Fetch)
    requires
        old(chan).wf(),
        !old(chan).receiver_dropped,
        old(chan).queue@.len() > 0 || old(chan).closed,
    ensures
        final(chan).wf(),
        match r {
            Fetch::Lines(batch) => {
                &&& batch@.len() > 0
                &&& batch.deep_view() == old(chan).queue.deep_view()[0]
                &&& final(chan).queue.deep_view() == old(chan).queue.deep_view().drop_first()
                &&& final(chan).delivered@ == old(chan).delivered@.push(batch.deep_view())
                &&& !old(chan).at_end()
            },
            Fetch::EndOfInput => {
                &&& old(chan).at_end()
                &&& *final(chan) == *old(chan)
            },
        },
        final(chan).closed == old(chan).closed,
        final(chan).receiver_dropped == old(chan).receiver_dropped,
        final(chan).accepted@ == old(chan).accepted@,
{
    match chan.recv() {
        Some(batch) => Fetch::Lines(batch),
        None => Fetch::EndOfInput,
    }
}

} // verus!
