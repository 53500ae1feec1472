use vstd::prelude::*;

verus! {

/// A status change of the child process, as reported by `waitpid`.
#[derive(Clone, Copy, Debug, PartialEq, Eq, Structural)]
pub enum WaitState {
    /// Exited normally with the given code.
    Exited(i32),
    /// Killed by the signal with the given number.
    Signaled(i32),
    /// Stopped by a signal.
    Stopped,
    /// Resumed by `CONT`.
    Continued,
}

impl WaitState {
    /// The child is gone: it exited or was killed.
    pub open spec fn is_final_spec(self) -> bool {
        self is Exited || self is Signaled
    }

    /// Whether the child is gone: it exited or was killed.
    #[verifier::when_used_as_spec(is_final_spec)]
    pub fn is_final(self) -> (r: bool)
        ensures
            r == self.is_final_spec(),
    {
        match self {
            WaitState::Exited(_) | WaitState::Signaled(_) => true,
            _ => false,
        }
    }
}

/// The status that a wait reported, from what it says of the child: the
/// exit code if it exited, the signal if it was killed, else whether it was
/// stopped or resumed; `None` when it says none of these.
pub fn classify_wait(
    exit_code: Option<i32>,
    terminating_signal: Option<i32>,
    stopped: bool,
    continued: bool,
) -> (r: Option<WaitState>)
    ensures
        r == (match (exit_code, terminating_signal) {
            (Some(c), _) => Some(WaitState::Exited(c)),
            (None, Some(n)) => Some(WaitState::Signaled(n)),
            (None, None) => if stopped {
                Some(WaitState::Stopped)
            } else if continued {
                Some(WaitState::Continued)
            } else {
                None
            },
        }),
{
    match (exit_code, terminating_signal) {
        (Some(c), _) => Some(WaitState::Exited(c)),
        (None, Some(n)) => Some(WaitState::Signaled(n)),
        (None, None) => if stopped {
            Some(WaitState::Stopped)
        } else if continued {
            Some(WaitState::Continued)
        } else {
            None
        },
    }
}

/// Whether a wait for the child blocks until its status changes.
#[derive(Clone, Copy, Debug, PartialEq, Eq, Structural)]
pub enum PtyWait {
    Hang,
    NoHang,
}

/// What the supervisor knows of its child: its process id, the most recent
/// status observed, and the status latched once the child is gone.
pub struct ChildRecord {
    pid: Option<i32>,
    last_status: Option<WaitState>,
    final_status: Option<WaitState>,
}

impl ChildRecord {
    pub closed spec fn pid_spec(&self) -> Option<i32> {
        self.pid
    }

    pub closed spec fn last_spec(&self) -> Option<WaitState> {
        self.last_status
    }

    pub closed spec fn final_spec(&self) -> Option<WaitState> {
        self.final_status
    }

    /// A status is observed only once the child exists; a latched status is
    /// final and is also the last one observed.
    pub closed spec fn wf(&self) -> bool {
        &&& (self.last_status is Some ==> self.pid is Some)
        &&& (self.final_status matches Some(st) ==> st.is_final_spec() && self.last_status
            == self.final_status)
    }

    /// A record before the child is started.
    pub fn new() -> (r: Self)
        ensures
            r.wf(),
            r.pid_spec() is None,
            r.last_spec() is None,
            r.final_spec() is None,
    {
        ChildRecord { pid: None, last_status: None, final_status: None }
    }

    /// Record the child's process id; it is set exactly once.
    pub fn set_pid(&mut self, pid: i32)
        requires
            old(self).wf(),
            old(self).pid_spec() is None,
        ensures
            final(self).wf(),
            final(self).pid_spec() == Some(pid),
            final(self).last_spec() == old(self).last_spec(),
            final(self).final_spec() == old(self).final_spec(),
    {
        self.pid = Some(pid);
    }

    /// The child's process id, once it is started.
    pub fn pid(&self) -> (r: Option<i32>)
        ensures
            r == self.pid_spec(),
    {
        self.pid
    }

    /// The latched final status: once the child is gone, every wait returns
    /// it without blocking.
    pub fn latched(&self) -> (r: Option<WaitState>)
        requires
            self.wf(),
        ensures
            r == self.final_spec(),
            r matches Some(st) ==> st.is_final_spec(),
    {
        self.final_status
    }

    /// Record a status observed by a wait; a final one is latched.
    pub fn record(&mut self, st: WaitState)
        requires
            old(self).wf(),
            old(self).pid_spec() is Some,
            old(self).final_spec() is None,
        ensures
            final(self).wf(),
            final(self).pid_spec() == old(self).pid_spec(),
            final(self).last_spec() == Some(st),
            final(self).final_spec() == (if st.is_final_spec() {
                Some(st)
            } else {
                None
            }),
    {
        self.last_status = Some(st);
        if st.is_final() {
            self.final_status = Some(st);
        }
    }

    /// Whether a signal may be sent to the child: it is started and not gone.
    pub fn may_kill(&self) -> (r: bool)
        ensures
            r == (self.pid_spec() is Some && self.final_spec() is None),
    {
        self.pid.is_some() && self.final_status.is_none()
    }

    /// The most recent status observed.
    pub fn status(&self) -> (r: Option<WaitState>)
        ensures
            r == self.last_spec(),
    {
        self.last_status
    }
}

} // verus!
