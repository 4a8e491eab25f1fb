//! The state of a graceful shutdown.

use vstd::prelude::*;

verus! {

/// How far the shutdown is.
#[derive(Debug, Clone, Copy, PartialEq, Eq, Structural)]
pub enum ShutdownState {
    /// There is none.
    Running,
    /// It has begun, and what is in progress is being finished.
    Draining,
    /// It is complete.
    Stopped,
}

/// Keeps the state of the shutdown.
#[derive(Debug)]
pub struct SignalHandler {
    state: ShutdownState,
}

impl View for SignalHandler {
    type V = ShutdownState;

    closed spec fn view(&self) -> ShutdownState {
        self.state
    }
}

impl SignalHandler {
    /// No shutdown yet.
    pub fn new() -> (r: Self)
        ensures
            r@ == ShutdownState::Running,
    {
        SignalHandler { state: ShutdownState::Running }
    }

    /// The state as it is now.
    pub fn state(&self) -> (r: ShutdownState)
        ensures
            r == self@,
    {
        self.state
    }

    /// Requests the shutdown.
    pub fn request_shutdown(&mut self)
        ensures
            final(self)@ == ShutdownState::Draining,
    {
        self.state = ShutdownState::Draining;
    }

    /// Marks the shutdown as complete.
    pub fn complete_shutdown(&mut self)
        ensures
            final(self)@ == ShutdownState::Stopped,
    {
        self.state = ShutdownState::Stopped;
    }

    /// Whether shutdown was requested. Once it was, it stays so.
    pub fn is_shutdown_requested(&self) -> (r: bool)
        ensures
            r == (self@ != ShutdownState::Running),
    {
        self.state != ShutdownState::Running
    }
}

impl Default for SignalHandler {
    fn default() -> (r: Self)
        ensures
            r@ == ShutdownState::Running,
    {
        SignalHandler::new()
    }
}

} // verus!
