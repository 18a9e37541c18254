//! The service's lifecycle under the plugin host: it starts on the first map
//! load and stops when the plugin is detached.

use vstd::prelude::*;

verus! {

/// What a map load asks for.
#[derive(Clone, Copy, Debug, PartialEq, Eq, Structural)]
pub enum ActivateStep {
    /// The service is not running: read the configuration and start it.
    Start,
    /// The service runs: read the configuration again.
    ReloadConfig,
}

/// Whether the service runs.
pub struct Lifecycle {
    running: bool,
}

impl Lifecycle {
    pub closed spec fn spec_running(&self) -> bool {
        self.running
    }

    /// A service that does not run yet.
    pub fn new() -> (l: Self)
        ensures
            !l.spec_running(),
    {
        Lifecycle { running: false }
    }

    pub fn is_running(&self) -> (r: bool)
        ensures
            r == self.spec_running(),
    {
        self.running
    }

    /// The step a map load asks for.
    pub fn on_server_activate(&self) -> (r: ActivateStep)
        ensures
            r == (if self.spec_running() {
                ActivateStep::ReloadConfig
            } else {
                ActivateStep::Start
            }),
    {
        if self.running {
            ActivateStep::ReloadConfig
        } else {
            ActivateStep::Start
        }
    }

    /// Whether a start must be attempted: not when the service already runs.
    pub fn should_start(&self) -> (r: bool)
        ensures
            r == !self.spec_running(),
    {
        !self.running
    }

    /// The start succeeded (`ok`) or failed; only a success makes it run.
    pub fn start_finished(&mut self, ok: bool)
        ensures
            final(self).spec_running() == (old(self).spec_running() || ok),
    {
        if ok {
            self.running = true;
        }
    }

    /// A stop request: returns whether the service ran and must be stopped;
    /// afterwards it does not run. Stopping twice stops once.
    pub fn stop(&mut self) -> (r: bool)
        ensures
            r == old(self).spec_running(),
            !final(self).spec_running(),
    {
        let was = self.running;
        self.running = false;
        was
    }
}

} // verus!
