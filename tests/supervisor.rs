use reclog::child::WaitState;
use reclog::signal::{event_for_wait, event_signals, to_event, Sig, SignalEvent};
use reclog::supervisor::{exit_plan, Command, ExitNotice, Phase, PollResult, SignalProcessor};

#[test]
fn signals_fall_into_categories() {
    assert_eq!(to_event(Sig::Term), SignalEvent::Interrupt(Sig::Term));
    assert_eq!(to_event(Sig::Int), SignalEvent::Interrupt(Sig::Int));
    assert_eq!(to_event(Sig::Hup), SignalEvent::Interrupt(Sig::Hup));
    assert_eq!(to_event(Sig::Quit), SignalEvent::Quit(Sig::Quit));
    assert_eq!(to_event(Sig::Tstp), SignalEvent::Stop(Sig::Tstp));
    assert_eq!(to_event(Sig::Ttin), SignalEvent::Stop(Sig::Ttin));
    assert_eq!(to_event(Sig::Ttou), SignalEvent::Stop(Sig::Ttou));
    assert_eq!(to_event(Sig::Cont), SignalEvent::Continue(Sig::Cont));
    assert_eq!(to_event(Sig::Child), SignalEvent::Child(Sig::Child));
    assert_eq!(to_event(Sig::Winch), SignalEvent::Resize(Sig::Winch));
    assert_eq!(to_event(Sig::Pipe), SignalEvent::Unknown(Sig::Pipe));
    assert_eq!(to_event(Sig::Other(10)), SignalEvent::Unknown(Sig::Other(10)));
}

#[test]
fn unknown_signals_are_waited_past() {
    assert_eq!(event_for_wait(Some(Sig::Alarm)), None);
    assert_eq!(event_for_wait(Some(Sig::Int)), Some(SignalEvent::Interrupt(Sig::Int)));
    assert_eq!(event_for_wait(None), Some(SignalEvent::Timeout));
}

#[test]
fn event_signal_set_has_ten_members() {
    let sigs = event_signals();
    assert_eq!(sigs.len(), 10);
    assert!(sigs.contains(&Sig::Winch));
    assert!(!sigs.contains(&Sig::Alarm));
}

#[test]
fn double_interrupt_forwards_then_kills_and_raises() {
    let mut p = SignalProcessor::new();
    let c = p.on_signal(SignalEvent::Interrupt(Sig::Int));
    assert_eq!(c, vec![Command::KillChild(Sig::Int)]);
    assert_eq!(p.pending_interrupt, Some(Sig::Int));
    let c = p.on_signal(SignalEvent::Interrupt(Sig::Int));
    assert_eq!(c, vec![Command::PollChild]);
    assert!(p.awaits_status());
    let c = p.on_child_status(PollResult::NoChange);
    assert_eq!(c, vec![Command::KillChild(Sig::Kill), Command::RaiseSelf(Sig::Int)]);
    let plan = exit_plan(WaitState::Signaled(9), p.pending_interrupt);
    assert_eq!(plan.raise_first, Some(Sig::Int));
    assert_eq!(plan.code, 137);
}

#[test]
fn quit_waits_then_spares_an_exited_child() {
    let mut p = SignalProcessor::new();
    let c = p.on_signal(SignalEvent::Quit(Sig::Quit));
    assert_eq!(
        c,
        vec![Command::KillChild(Sig::Quit), Command::AwaitSignal, Command::PollChild]
    );
    let c = p.on_child_status(PollResult::Status(WaitState::Signaled(3)));
    assert_eq!(c, vec![Command::RaiseSelf(Sig::Quit)]);
    assert!(p.child_gone);
    assert_eq!(p.phase, Phase::Waiting);
    // The child is gone: it is never signaled again.
    let c = p.on_signal(SignalEvent::Interrupt(Sig::Term));
    assert_eq!(c, vec![]);
    let c = p.on_signal(SignalEvent::Continue(Sig::Cont));
    assert_eq!(c, vec![]);
}

#[test]
fn stop_then_child_stopped_suspends_us() {
    let mut p = SignalProcessor::new();
    let c = p.on_signal(SignalEvent::Stop(Sig::Tstp));
    assert_eq!(c, vec![Command::KillChild(Sig::Stop)]);
    assert_eq!(p.pending_stop, Some(Sig::Tstp));
    let c = p.on_signal(SignalEvent::Child(Sig::Child));
    assert_eq!(c, vec![Command::PollChild]);
    let c = p.on_child_status(PollResult::Status(WaitState::Stopped));
    assert_eq!(
        c,
        vec![
            Command::RaiseSelf(Sig::Tstp),
            Command::DropContinue,
            Command::KillChild(Sig::Cont)
        ]
    );
    assert_eq!(p.pending_stop, None);
    assert_eq!(p.phase, Phase::Waiting);
}

#[test]
fn second_stop_stops_both_at_once() {
    let mut p = SignalProcessor::new();
    p.on_signal(SignalEvent::Stop(Sig::Tstp));
    let c = p.on_signal(SignalEvent::Stop(Sig::Ttin));
    assert_eq!(
        c,
        vec![
            Command::KillChild(Sig::Stop),
            Command::RaiseSelf(Sig::Ttin),
            Command::DropContinue,
            Command::KillChild(Sig::Cont)
        ]
    );
    assert_eq!(p.pending_stop, None);
}

#[test]
fn continue_resumes_child_and_clears_stop() {
    let mut p = SignalProcessor::new();
    p.on_signal(SignalEvent::Stop(Sig::Tstp));
    let c = p.on_signal(SignalEvent::Continue(Sig::Cont));
    assert_eq!(c, vec![Command::KillChild(Sig::Cont)]);
    assert_eq!(p.pending_stop, None);
}

#[test]
fn window_change_is_propagated() {
    let mut p = SignalProcessor::new();
    let c = p.on_signal(SignalEvent::Resize(Sig::Winch));
    assert_eq!(c, vec![Command::ResizeChild]);
    assert_eq!(p, SignalProcessor::new());
}

#[test]
fn child_exit_ends_the_loop() {
    let mut p = SignalProcessor::new();
    p.on_signal(SignalEvent::Child(Sig::Child));
    let c = p.on_child_status(PollResult::Status(WaitState::Exited(0)));
    assert_eq!(c, vec![]);
    assert!(p.is_finished());
}

#[test]
fn child_continued_or_unchanged_is_ignored() {
    let mut p = SignalProcessor::new();
    p.on_signal(SignalEvent::Child(Sig::Child));
    assert_eq!(p.on_child_status(PollResult::Status(WaitState::Continued)), vec![]);
    assert_eq!(p.phase, Phase::Waiting);
    p.on_signal(SignalEvent::Child(Sig::Child));
    assert_eq!(p.on_child_status(PollResult::Status(WaitState::Stopped)), vec![]);
    assert!(!p.is_finished());
}

#[test]
fn failed_wait_aborts() {
    let mut p = SignalProcessor::new();
    p.on_signal(SignalEvent::Child(Sig::Child));
    let c = p.on_child_status(PollResult::Failed);
    assert_eq!(c, vec![Command::Abort(126)]);
    assert_eq!(p.phase, Phase::Aborted);
}

#[test]
fn timeout_and_unknown_events_do_nothing() {
    let mut p = SignalProcessor::new();
    assert_eq!(p.on_signal(SignalEvent::Timeout), vec![]);
    assert_eq!(p.on_signal(SignalEvent::Unknown(Sig::Pipe)), vec![]);
    assert_eq!(p, SignalProcessor::new());
}

#[test]
fn successful_command_exits_quietly() {
    let plan = exit_plan(WaitState::Exited(0), None);
    assert_eq!(plan.code, 0);
    assert_eq!(plan.notice, ExitNotice::Quiet);
    assert_eq!(plan.raise_first, None);
}

#[test]
fn failing_command_forwards_its_code() {
    let plan = exit_plan(WaitState::Exited(3), Some(Sig::Int));
    assert_eq!(plan.code, 3);
    assert_eq!(plan.notice, ExitNotice::ExitCode(3));
    assert_eq!(plan.raise_first, None);
}

#[test]
fn killed_command_gives_128_plus_signal() {
    let plan = exit_plan(WaitState::Signaled(15), None);
    assert_eq!(plan.code, 143);
    assert_eq!(plan.notice, ExitNotice::KilledBy(15));
    assert_eq!(plan.raise_first, None);
}

#[test]
fn pending_interrupt_is_raised_for_any_signal_number() {
    let plan = exit_plan(WaitState::Signaled(i32::MAX), Some(Sig::Term));
    assert_eq!(plan.raise_first, Some(Sig::Term));
    assert_eq!(plan.code, 126);
    assert_eq!(plan.notice, ExitNotice::KilledBy(i32::MAX));
}

#[test]
fn other_status_is_a_failed_command() {
    let plan = exit_plan(WaitState::Stopped, None);
    assert_eq!(plan.code, 126);
    assert_eq!(plan.notice, ExitNotice::Failed);
}
