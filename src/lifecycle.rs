use vstd::prelude::*;

verus! {

/// Process lifecycle: Running, then ShuttingDown once a shutdown signal arrives, then
/// Stopped once the tasks have settled or been abandoned.
#[derive(Clone, Copy, Debug, PartialEq, Eq, Structural)]
pub enum LifecyclePhase {
    Running,
    ShuttingDown,
    Stopped,
}

/// What the shutdown sequence has to report once the tasks are done with.
#[derive(Clone, Copy, Debug, PartialEq, Eq, Structural)]
pub struct ShutdownReport {
    /// The aggregator missed the grace period and was abandoned.
    pub processing_abandoned: bool,
    /// The persistence scheduler missed the grace period and was abandoned.
    pub persistence_abandoned: bool,
    /// The stores are to be closed now.
    pub close_stores: bool,
}

#[derive(Clone, Copy, Debug, PartialEq, Eq, Structural)]
pub struct Lifecycle {
    pub phase: LifecyclePhase,
}

/// Grace period that each task is given to stop, in milliseconds.
pub const SHUTDOWN_GRACE_MS: u64 = 5000;

impl Lifecycle {
    pub fn new() -> (r: Lifecycle)
        ensures
            r.phase == LifecyclePhase::Running,
    {
        Lifecycle { phase: LifecyclePhase::Running }
    }

    /// Records a shutdown signal. Returns `true` exactly when this signal starts the
    /// shutdown, which is then to be broadcast to the tasks; repeated signals do nothing.
    pub fn on_shutdown_signal(&mut self) -> (r: bool)
        ensures
            r == (old(self).phase == LifecyclePhase::Running),
            final(self).phase == (if old(self).phase == LifecyclePhase::Running {
                LifecyclePhase::ShuttingDown
            } else {
                old(self).phase
            }),
    {
        match self.phase {
            LifecyclePhase::Running => {
                self.phase = LifecyclePhase::ShuttingDown;
                true
            },
            _ => false,
        }
    }

    /// Records how the two tasks ended: each either stopped within the grace period or
    /// not. Those that did not are reported as abandoned; the stores are closed after.
    /// Outside a shutdown this does nothing and asks for nothing.
    pub fn on_tasks_settled(&mut self, processing_in_time: bool, persistence_in_time: bool) -> (r: ShutdownReport)
        ensures
            old(self).phase == LifecyclePhase::ShuttingDown ==> {
                &&& final(self).phase == LifecyclePhase::Stopped
                &&& r == (ShutdownReport {
                    processing_abandoned: !processing_in_time,
                    persistence_abandoned: !persistence_in_time,
                    close_stores: true,
                })
            },
            old(self).phase != LifecyclePhase::ShuttingDown ==> {
                &&& *final(self) == *old(self)
                &&& r == (ShutdownReport {
                    processing_abandoned: false,
                    persistence_abandoned: false,
                    close_stores: false,
                })
            },
    {
        match self.phase {
            LifecyclePhase::ShuttingDown => {
                self.phase = LifecyclePhase::Stopped;
                ShutdownReport {
                    processing_abandoned: !processing_in_time,
                    persistence_abandoned: !persistence_in_time,
                    close_stores: true,
                }
            },
            _ => ShutdownReport { processing_abandoned: false, persistence_abandoned: false, close_stores: false },
        }
    }
}

} // verus!
