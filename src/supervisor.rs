use vstd::prelude::*;
use crate::child::WaitState;
use crate::signal::{event_of, Sig, SignalEvent};
use crate::status::{EXIT_COMMAND_FAILED, EXIT_COMMAND_SIGNALED};

verus! {

/// A step that the signal processor asks its driver to perform, in order.
#[derive(Clone, Copy, Debug, PartialEq, Eq, Structural)]
pub enum Command {
    /// Send the signal to the child's process group.
    KillChild(Sig),
    /// Wait up to the quit timeout for any event signal.
    AwaitSignal,
    /// Wait for the child's status without blocking, and report the outcome
    /// with `on_child_status`.
    PollChild,
    /// Deliver the signal to ourselves: it terminates or suspends us.
    RaiseSelf(Sig),
    /// Discard a pending `CONT`, after resuming from a stop.
    DropContinue,
    /// Copy the window size of our standard output onto the master PTY.
    ResizeChild,
    /// Terminate with the given exit code: the child's status is unknowable.
    Abort(i32),
}

/// Where the signal processor stands.
#[derive(Clone, Copy, Debug, PartialEq, Eq, Structural)]
pub enum Phase {
    /// Waiting for the next event signal.
    Waiting,
    /// Interrupted for good by this signal: waiting to learn whether the
    /// child is gone before delivering it to ourselves.
    Quitting(Sig),
    /// A `CHLD` arrived: waiting to learn the child's status.
    Polling,
    /// The child is gone: the loop is over.
    Finished,
    /// The child's status could not be read.
    Aborted,
}

/// The outcome of a non-hanging wait for the child.
#[derive(Clone, Copy, Debug, PartialEq, Eq, Structural)]
pub enum PollResult {
    /// The child's status changed.
    Status(WaitState),
    /// Nothing to report.
    NoChange,
    /// The wait failed.
    Failed,
}

/// The state of the signal processor.
#[derive(Clone, Copy, Debug, PartialEq, Eq, Structural)]
pub struct SignalProcessor {
    /// The interrupt that was forwarded to the child, if any.
    pub pending_interrupt: Option<Sig>,
    /// The stop signal that was received and not yet acted upon, if any.
    pub pending_stop: Option<Sig>,
    /// Whether the child was seen gone: it is never signaled after that.
    pub child_gone: bool,
    pub phase: Phase,
}

/// A kill command for `sig`, unless the child is gone.
pub open spec fn kill_if_alive(gone: bool, sig: Sig) -> Seq<Command> {
    if gone {
        seq![]
    } else {
        seq![Command::KillChild(sig)]
    }
}

/// The response to an event signal, while waiting: the next state and the
/// commands to perform.
pub open spec fn signal_step(st: SignalProcessor, ev: SignalEvent) -> (SignalProcessor, Seq<Command>) {
    match ev {
        SignalEvent::Interrupt(s) if st.pending_interrupt is None => (
            SignalProcessor { pending_interrupt: Some(s), ..st },
            kill_if_alive(st.child_gone, s),
        ),
        SignalEvent::Interrupt(s) | SignalEvent::Quit(s) => (
            SignalProcessor { phase: Phase::Quitting(s), ..st },
            if st.pending_interrupt is None {
                kill_if_alive(st.child_gone, s) + seq![Command::AwaitSignal, Command::PollChild]
            } else {
                seq![Command::PollChild]
            },
        ),
        SignalEvent::Stop(s) if st.pending_stop is None => (
            SignalProcessor { pending_stop: Some(s), ..st },
            kill_if_alive(st.child_gone, Sig::Stop),
        ),
        SignalEvent::Stop(s) => (
            SignalProcessor { pending_stop: None, ..st },
            kill_if_alive(st.child_gone, Sig::Stop) + seq![Command::RaiseSelf(s), Command::DropContinue]
                + kill_if_alive(st.child_gone, Sig::Cont),
        ),
        SignalEvent::Continue(_) => (
            SignalProcessor { pending_stop: None, ..st },
            kill_if_alive(st.child_gone, Sig::Cont),
        ),
        SignalEvent::Resize(_) => (st, seq![Command::ResizeChild]),
        SignalEvent::Child(_) => (SignalProcessor { phase: Phase::Polling, ..st }, seq![Command::PollChild]),
        _ => (st, seq![]),
    }
}

/// The response to the outcome of a wait for the child, while quitting or
/// polling.
pub open spec fn status_step(st: SignalProcessor, res: PollResult) -> (SignalProcessor, Seq<Command>) {
    let gone = st.child_gone || (res matches PollResult::Status(ws) && ws.is_final_spec());
    match st.phase {
        Phase::Quitting(s) => (
            SignalProcessor { child_gone: gone, phase: Phase::Waiting, ..st },
            kill_if_alive(gone, Sig::Kill) + seq![Command::RaiseSelf(s)],
        ),
        _ => match res {
            PollResult::Status(ws) => if ws.is_final_spec() {
                (SignalProcessor { child_gone: true, phase: Phase::Finished, ..st }, seq![])
            } else if ws is Stopped && st.pending_stop is Some {
                (
                    SignalProcessor { pending_stop: None, phase: Phase::Waiting, ..st },
                    seq![Command::RaiseSelf(st.pending_stop->0), Command::DropContinue]
                        + kill_if_alive(st.child_gone, Sig::Cont),
                )
            } else {
                (SignalProcessor { phase: Phase::Waiting, ..st }, seq![])
            },
            PollResult::NoChange => (SignalProcessor { phase: Phase::Waiting, ..st }, seq![]),
            PollResult::Failed => (
                SignalProcessor { phase: Phase::Aborted, ..st },
                seq![Command::Abort(EXIT_COMMAND_FAILED)],
            ),
        },
    }
}

/// Append a kill command for `sig` unless the child is gone.
fn push_kill(cmds: &mut Vec<Command>, gone: bool, sig: Sig)
    ensures
        final(cmds)@ == old(cmds)@ + kill_if_alive(gone, sig),
{
    if !gone {
        cmds.push(Command::KillChild(sig));
    }
    assert(cmds@ =~= old(cmds)@ + kill_if_alive(gone, sig));
}

impl SignalProcessor {
    /// The processor before any signal.
    pub fn new() -> (r: Self)
        ensures
            r.pending_interrupt is None,
            r.pending_stop is None,
            !r.child_gone,
            r.phase == Phase::Waiting,
    {
        SignalProcessor { pending_interrupt: None, pending_stop: None, child_gone: false, phase: Phase::Waiting }
    }

    /// Whether the loop is over because the child is gone.
    pub fn is_finished(&self) -> (r: bool)
        ensures
            r == (self.phase == Phase::Finished),
    {
        self.phase == Phase::Finished
    }

    /// Whether the processor waits for the outcome of a `PollChild`.
    pub fn awaits_status(&self) -> (r: bool)
        ensures
            r == (self.phase is Quitting || self.phase is Polling),
    {
        match self.phase {
            Phase::Quitting(_) | Phase::Polling => true,
            _ => false,
        }
    }

    /// Decide what to do on an event signal.
    pub fn on_signal(&mut self, ev: SignalEvent) -> (cmds: Vec<Command>)
        requires
            old(self).phase == Phase::Waiting,
        ensures
            (*final(self), cmds@) == signal_step(*old(self), ev),
    {
        let mut cmds: Vec<Command> = Vec::new();
        let gone = self.child_gone;
        match ev {
            SignalEvent::Interrupt(s) if self.pending_interrupt.is_none() => {
                push_kill(&mut cmds, gone, s);
                self.pending_interrupt = Some(s);
            },
            SignalEvent::Interrupt(s) | SignalEvent::Quit(s) => {
                if self.pending_interrupt.is_none() {
                    push_kill(&mut cmds, gone, s);
                    cmds.push(Command::AwaitSignal);
                }
                cmds.push(Command::PollChild);
                self.phase = Phase::Quitting(s);
            },
            SignalEvent::Stop(s) if self.pending_stop.is_none() => {
                push_kill(&mut cmds, gone, Sig::Stop);
                self.pending_stop = Some(s);
            },
            SignalEvent::Stop(s) => {
                push_kill(&mut cmds, gone, Sig::Stop);
                cmds.push(Command::RaiseSelf(s));
                cmds.push(Command::DropContinue);
                push_kill(&mut cmds, gone, Sig::Cont);
                self.pending_stop = None;
            },
            SignalEvent::Continue(_) => {
                push_kill(&mut cmds, gone, Sig::Cont);
                self.pending_stop = None;
            },
            SignalEvent::Resize(_) => {
                cmds.push(Command::ResizeChild);
            },
            SignalEvent::Child(_) => {
                cmds.push(Command::PollChild);
                self.phase = Phase::Polling;
            },
            _ => {},
        }
        proof {
            let (st2, c2) = signal_step(*old(self), ev);
            assert(cmds@ =~= c2);
        }
        cmds
    }

    /// Decide what to do once the outcome of a `PollChild` is known.
    pub fn on_child_status(&mut self, res: PollResult) -> (cmds: Vec<Command>)
        requires
            old(self).phase is Quitting || old(self).phase is Polling,
        ensures
            (*final(self), cmds@) == status_step(*old(self), res),
    {
        let mut cmds: Vec<Command> = Vec::new();
        let gone = self.child_gone || match res {
            PollResult::Status(ws) => ws.is_final(),
            _ => false,
        };
        match self.phase {
            Phase::Quitting(s) => {
                push_kill(&mut cmds, gone, Sig::Kill);
                cmds.push(Command::RaiseSelf(s));
                self.child_gone = gone;
                self.phase = Phase::Waiting;
            },
            _ => match res {
                PollResult::Status(ws) => {
                    if ws.is_final() {
                        self.child_gone = true;
                        self.phase = Phase::Finished;
                    } else {
                        match (ws, self.pending_stop) {
                            (WaitState::Stopped, Some(ps)) => {
                                cmds.push(Command::RaiseSelf(ps));
                                cmds.push(Command::DropContinue);
                                push_kill(&mut cmds, self.child_gone, Sig::Cont);
                                self.pending_stop = None;
                            },
                            _ => {},
                        }
                        self.phase = Phase::Waiting;
                    }
                },
                PollResult::NoChange => {
                    self.phase = Phase::Waiting;
                },
                PollResult::Failed => {
                    cmds.push(Command::Abort(EXIT_COMMAND_FAILED));
                    self.phase = Phase::Aborted;
                },
            },
        }
        proof {
            let (st2, c2) = status_step(*old(self), res);
            assert(cmds@ =~= c2);
        }
        cmds
    }
}

/// What to report when the supervisor terminates.
#[derive(Clone, Copy, Debug, PartialEq, Eq, Structural)]
pub enum ExitNotice {
    /// Nothing: the command succeeded.
    Quiet,
    /// The command exited with this nonzero code.
    ExitCode(i32),
    /// The command was terminated by the signal with this number.
    KilledBy(i32),
    /// The command failed in another way.
    Failed,
}

/// How the supervisor terminates once the child is gone.
#[derive(Clone, Copy, Debug, PartialEq, Eq, Structural)]
pub struct ExitPlan {
    /// A signal to deliver to ourselves first, so that we die as the child
    /// did; the exit code applies only if we survive it.
    pub raise_first: Option<Sig>,
    /// The exit code.
    pub code: i32,
    pub notice: ExitNotice,
}

/// How the supervisor forwards the child's last status: the child's own exit
/// code; for a child killed by signal `n`, the interrupt that we forwarded to
/// it (if any) and then exit code `128 + n` (the code for a failed command
/// where that sum does not fit); otherwise the code for a failed command.
pub open spec fn exit_plan_of(status: WaitState, pending_interrupt: Option<Sig>) -> ExitPlan {
    match status {
        WaitState::Exited(c) => ExitPlan {
            raise_first: None,
            code: c,
            notice: if c == 0 {
                ExitNotice::Quiet
            } else {
                ExitNotice::ExitCode(c)
            },
        },
        WaitState::Signaled(n) => ExitPlan {
            raise_first: pending_interrupt,
            code: if n <= i32::MAX - EXIT_COMMAND_SIGNALED {
                (EXIT_COMMAND_SIGNALED + n) as i32
            } else {
                EXIT_COMMAND_FAILED
            },
            notice: ExitNotice::KilledBy(n),
        },
        _ => ExitPlan { raise_first: None, code: EXIT_COMMAND_FAILED, notice: ExitNotice::Failed },
    }
}

/// Decide how to terminate, given the child's last status and the interrupt
/// that was forwarded to it.
pub fn exit_plan(status: WaitState, pending_interrupt: Option<Sig>) -> (r: ExitPlan)
    ensures
        r == exit_plan_of(status, pending_interrupt),
{
    match status {
        WaitState::Exited(c) => ExitPlan {
            raise_first: None,
            code: c,
            notice: if c == 0 {
                ExitNotice::Quiet
            } else {
                ExitNotice::ExitCode(c)
            },
        },
        WaitState::Signaled(n) => ExitPlan {
            raise_first: pending_interrupt,
            code: if n <= i32::MAX - EXIT_COMMAND_SIGNALED {
                EXIT_COMMAND_SIGNALED + n
            } else {
                EXIT_COMMAND_FAILED
            },
            notice: ExitNotice::KilledBy(n),
        },
        _ => ExitPlan { raise_first: None, code: EXIT_COMMAND_FAILED, notice: ExitNotice::Failed },
    }
}

/// Whether a command sequence signals the child.
pub open spec fn signals_child(cmds: Seq<Command>) -> bool {
    exists|i: int| 0 <= i < cmds.len() && cmds[i] is KillChild
}

/// Once the child is seen gone, it stays gone and no further step signals it.
pub proof fn lemma_no_kill_after_exit(st: SignalProcessor, ev: SignalEvent, res: PollResult)
    requires
        st.child_gone,
    ensures
        signal_step(st, ev).0.child_gone,
        !signals_child(signal_step(st, ev).1),
        status_step(st, res).0.child_gone,
        !signals_child(status_step(st, res).1),
{
    let c1 = signal_step(st, ev).1;
    let c2 = status_step(st, res).1;
    assert(kill_if_alive(true, Sig::Kill) =~= seq![]);
    assert(kill_if_alive(true, Sig::Cont) =~= seq![]);
    assert(kill_if_alive(true, Sig::Stop) =~= seq![]);
    assert forall|i: int| 0 <= i < c1.len() implies !(c1[i] is KillChild) by {}
    assert forall|i: int| 0 <= i < c2.len() implies !(c2[i] is KillChild) by {}
}

/// The child is seen gone only once a wait reported a final status.
pub proof fn lemma_gone_only_on_final(st: SignalProcessor, ev: SignalEvent, res: PollResult)
    requires
        !st.child_gone,
    ensures
        !signal_step(st, ev).0.child_gone,
        status_step(st, res).0.child_gone <==> (res matches PollResult::Status(ws)
            && ws.is_final_spec()),
{
}

/// Every window change observed while waiting is propagated to the master
/// PTY, and nothing else is done on it.
pub proof fn lemma_resize_propagated(st: SignalProcessor, sig: Sig)
    ensures
        signal_step(st, SignalEvent::Resize(sig)) == (st, seq![Command::ResizeChild]),
{
}

/// An interrupt that reaches the supervisor first is forwarded to the child
/// (unless gone) and remembered; if the child is then killed by a signal,
/// the supervisor delivers that same interrupt to itself before exiting.
pub proof fn lemma_interrupt_disposition(st: SignalProcessor, sig: Sig, n: i32)
    requires
        st.pending_interrupt is None,
        event_of(sig) == SignalEvent::Interrupt(sig),
    ensures
        signal_step(st, SignalEvent::Interrupt(sig)).0.pending_interrupt == Some(sig),
        st.child_gone || signal_step(st, SignalEvent::Interrupt(sig)).1 == seq![
            Command::KillChild(sig),
        ],
        exit_plan_of(
            WaitState::Signaled(n),
            signal_step(st, SignalEvent::Interrupt(sig)).0.pending_interrupt,
        ).raise_first == Some(sig),
{
}

/// A later interrupt or a quit never forgets the interrupt already
/// forwarded, and ends by delivering the signal to ourselves after making
/// sure the child is gone.
pub proof fn lemma_quit_terminates_child(st: SignalProcessor, ev: SignalEvent, res: PollResult)
    requires
        ev is Quit || (ev is Interrupt && st.pending_interrupt is Some),
    ensures
        ({
            let (st1, _) = signal_step(st, ev);
            let (st2, c2) = status_step(st1, res);
            &&& st1.phase is Quitting
            &&& st2.pending_interrupt == st.pending_interrupt
            &&& c2.last() is RaiseSelf
            &&& (!st2.child_gone ==> c2[0] == Command::KillChild(Sig::Kill))
        }),
{
}

/// The state after a run of events and wait outcomes, from `st`: each
/// input is handled by the step that applies in the phase reached.
pub open spec fn run(st: SignalProcessor, inputs: Seq<Input>) -> SignalProcessor
    decreases inputs.len(),
{
    if inputs.len() == 0 {
        st
    } else {
        let next = match inputs[0] {
            Input::Event(ev) => if st.phase == Phase::Waiting {
                signal_step(st, ev).0
            } else {
                st
            },
            Input::Outcome(res) => if st.phase is Quitting || st.phase is Polling {
                status_step(st, res).0
            } else {
                st
            },
        };
        run(next, inputs.drop_first())
    }
}

/// An input of the signal processor: an event signal, or the outcome of a
/// wait for the child.
#[derive(Clone, Copy, Debug, PartialEq, Eq, Structural)]
pub enum Input {
    Event(SignalEvent),
    Outcome(PollResult),
}

/// Whether an input is an interrupt-class event.
pub open spec fn is_interrupt_input(i: Input) -> bool {
    i matches Input::Event(SignalEvent::Interrupt(_))
}

/// Over any run of inputs, the interrupt remembered is the first one that
/// arrived while waiting: once set it never changes, and it stays unset
/// while no interrupt arrives.
pub proof fn lemma_pending_interrupt_is_first(st: SignalProcessor, inputs: Seq<Input>)
    ensures
        st.pending_interrupt is Some ==> run(st, inputs).pending_interrupt == st.pending_interrupt,
        (forall|i: int| 0 <= i < inputs.len() ==> !is_interrupt_input(#[trigger] inputs[i]))
            ==> run(st, inputs).pending_interrupt == st.pending_interrupt,
    decreases inputs.len(),
{
    if inputs.len() > 0 {
        let next = match inputs[0] {
            Input::Event(ev) => if st.phase == Phase::Waiting {
                signal_step(st, ev).0
            } else {
                st
            },
            Input::Outcome(res) => if st.phase is Quitting || st.phase is Polling {
                status_step(st, res).0
            } else {
                st
            },
        };
        lemma_pending_interrupt_is_first(next, inputs.drop_first());
        if forall|i: int| 0 <= i < inputs.len() ==> !is_interrupt_input(#[trigger] inputs[i]) {
            assert(!is_interrupt_input(inputs[0]));
            assert forall|i: int| 0 <= i < inputs.drop_first().len() implies !is_interrupt_input(
                #[trigger] inputs.drop_first()[i],
            ) by {
                assert(inputs.drop_first()[i] == inputs[i + 1]);
            }
        }
    }
}

} // verus!
