use vstd::prelude::*;

verus! {

/// The lifecycle of a server.
///
/// A server is built in `Configured`, `start` moves it to `Started`, the
/// first admitted session moves it to `Running`, `shutdown` moves it to
/// `ShuttingDown`, and the supervisor's last act — after every worker has
/// exited and every session is gone — moves it to `Terminated`. The
/// transition into `ShuttingDown` is monotone: no step ever leaves the two
/// terminal-bound states again.
#[derive(Clone, Copy, Debug, PartialEq, Eq, Structural)]
pub enum LifecycleState {
    /// Built and configurable; nothing is running yet.
    Configured,
    /// The accept/dispatch machinery has been launched; no session so far.
    Started,
    /// At least one session has been admitted since `start`.
    Running,
    /// Termination has been requested; nothing new is admitted.
    ShuttingDown,
    /// Every worker has exited and every session is closed.
    Terminated,
}

impl LifecycleState {
    /// Whether termination has been requested or reached: from here on the
    /// server admits no new session.
    pub open spec fn spec_is_shutting_down(self) -> bool {
        self is ShuttingDown || self is Terminated
    }

    /// Whether the accept/dispatch machinery is live and may admit sessions.
    pub open spec fn spec_is_accepting(self) -> bool {
        self is Started || self is Running
    }

    /// Executable mirror of `spec_is_shutting_down`.
    pub fn is_shutting_down(&self) -> (r: bool)
        ensures
            r == self.spec_is_shutting_down(),
    {
        match self {
            LifecycleState::ShuttingDown => true,
            LifecycleState::Terminated => true,
            _ => false,
        }
    }

    /// Executable mirror of `spec_is_accepting`.
    pub fn is_accepting(&self) -> (r: bool)
        ensures
            r == self.spec_is_accepting(),
    {
        match self {
            LifecycleState::Started => true,
            LifecycleState::Running => true,
            _ => false,
        }
    }
}

} // verus!
