use vstd::prelude::*;

use crate::supervisor::SupervisedChild;
use crate::supervisor::Supervisor;

verus! {

/// Lifecycle notifications of the host application.
#[derive(Clone, Copy, Debug, PartialEq, Eq, Structural)]
pub enum HostEvent {
    /// The last window was destroyed.
    LastWindowDestroyed,
    /// The application process is exiting.
    Exiting,
    /// Any other notification.
    Other,
}

/// Whether `event` is one of the exit paths on which the backend must be stopped.
pub open spec fn is_exit_notification(event: HostEvent) -> bool {
    event is LastWindowDestroyed || event is Exiting
}

/// The termination hook: on an exit notification the current process is taken
/// out to be stopped, and nothing stays current; any other notification leaves
/// the state as it is. Returns, with the state after it, the process to stop.
pub open spec fn host_event_step<H>(
    current: Option<SupervisedChild<H>>,
    event: HostEvent,
) -> (Option<SupervisedChild<H>>, Option<SupervisedChild<H>>) {
    if is_exit_notification(event) {
        (current, None)
    } else {
        (None, current)
    }
}

impl<H> Supervisor<H> {
    /// Handles a host lifecycle notification; returns the process that the
    /// caller must stop before the handler returns.
    pub fn on_host_event(&mut self, event: HostEvent) -> (r: Option<SupervisedChild<H>>)
        ensures
            (r, final(self)@) == host_event_step(old(self)@, event),
    {
        match event {
            HostEvent::LastWindowDestroyed | HostEvent::Exiting => self.take(),
            HostEvent::Other => None,
        }
    }
}

/// An exit notification hands the current process over to be stopped exactly
/// once and leaves nothing current; a further exit notification finds nothing
/// to stop.
pub proof fn lemma_exit_stops_tracked_once<H>(current: Option<SupervisedChild<H>>, first: HostEvent, second: HostEvent)
    requires
        is_exit_notification(first),
        is_exit_notification(second),
    ensures
        host_event_step(current, first).0 == current,
        host_event_step(current, first).1 is None,
        host_event_step(host_event_step(current, first).1, second).0 is None,
        host_event_step(host_event_step(current, first).1, second).1 is None,
{
}

} // verus!
