use vstd::prelude::*;

verus! {

/// A POSIX signal, as the supervisor sees it.
///
/// The named variants are the signals whose handling the supervisor decides
/// on; every other signal is carried by its raw number.
#[derive(Clone, Copy, Debug, PartialEq, Eq, Structural)]
pub enum Sig {
    Term,
    Int,
    Hup,
    Quit,
    Tstp,
    Ttin,
    Ttou,
    Cont,
    Child,
    Winch,
    Kill,
    Stop,
    Alarm,
    Pipe,
    Other(i32),
}

/// Signals grouped into event categories.
#[derive(Clone, Copy, Debug, PartialEq, Eq, Structural)]
pub enum SignalEvent {
    Interrupt(Sig),
    Quit(Sig),
    Stop(Sig),
    Continue(Sig),
    Child(Sig),
    Resize(Sig),
    Unknown(Sig),
    Timeout,
}

/// Category of a delivered signal.
pub open spec fn event_of(sig: Sig) -> SignalEvent {
    match sig {
        Sig::Term | Sig::Int | Sig::Hup => SignalEvent::Interrupt(sig),
        Sig::Quit => SignalEvent::Quit(sig),
        Sig::Tstp | Sig::Ttin | Sig::Ttou => SignalEvent::Stop(sig),
        Sig::Cont => SignalEvent::Continue(sig),
        Sig::Child => SignalEvent::Child(sig),
        Sig::Winch => SignalEvent::Resize(sig),
        _ => SignalEvent::Unknown(sig),
    }
}

/// The signals that drive the supervisor's events: termination (`TERM`,
/// `INT`, `HUP`), emergency termination (`QUIT`), stop (`TSTP`, `TTIN`,
/// `TTOU`), continue (`CONT`), child status (`CHLD`) and resize (`WINCH`).
pub open spec fn is_event_signal(sig: Sig) -> bool {
    !(event_of(sig) is Unknown)
}

/// Categorize a signal into a higher-level event.
pub fn to_event(sig: Sig) -> (ev: SignalEvent)
    ensures
        ev == event_of(sig),
{
    match sig {
        Sig::Term | Sig::Int | Sig::Hup => SignalEvent::Interrupt(sig),
        Sig::Quit => SignalEvent::Quit(sig),
        Sig::Tstp | Sig::Ttin | Sig::Ttou => SignalEvent::Stop(sig),
        Sig::Cont => SignalEvent::Continue(sig),
        Sig::Child => SignalEvent::Child(sig),
        Sig::Winch => SignalEvent::Resize(sig),
        _ => SignalEvent::Unknown(sig),
    }
}

/// The event that a wait for an event signal gives: the signal's category,
/// `Timeout` when the wait timed out, and `None` for a signal of no
/// category, which is consumed and waited past.
pub fn event_for_wait(received: Option<Sig>) -> (r: Option<SignalEvent>)
    ensures
        r == match received {
            Some(sig) => if is_event_signal(sig) {
                Some(event_of(sig))
            } else {
                None
            },
            None => Some(SignalEvent::Timeout),
        },
{
    match received {
        Some(sig) => {
            let ev = to_event(sig);
            if let SignalEvent::Unknown(_) = ev {
                None
            } else {
                Some(ev)
            }
        },
        None => Some(SignalEvent::Timeout),
    }
}

/// The event signals, in the order in which they are blocked at startup.
pub fn event_signals() -> (r: Vec<Sig>)
    ensures
        r@.len() == 10,
        forall|i: int| 0 <= i < r@.len() ==> is_event_signal(#[trigger] r@[i]),
        forall|s: Sig| is_event_signal(s) ==> r@.contains(s),
{
    let r = vec![
        Sig::Term,
        Sig::Int,
        Sig::Hup,
        Sig::Quit,
        Sig::Tstp,
        Sig::Ttin,
        Sig::Ttou,
        Sig::Cont,
        Sig::Child,
        Sig::Winch,
    ];
    proof {
        assert forall|s: Sig| is_event_signal(s) implies r@.contains(s) by {
            match s {
                Sig::Term => assert(r@[0] == s),
                Sig::Int => assert(r@[1] == s),
                Sig::Hup => assert(r@[2] == s),
                Sig::Quit => assert(r@[3] == s),
                Sig::Tstp => assert(r@[4] == s),
                Sig::Ttin => assert(r@[5] == s),
                Sig::Ttou => assert(r@[6] == s),
                Sig::Cont => assert(r@[7] == s),
                Sig::Child => assert(r@[8] == s),
                Sig::Winch => assert(r@[9] == s),
                _ => {},
            }
        }
    }
    r
}

/// What a signal's disposition is set to.
pub enum SigAction {
    /// The system's default action.
    Default,
    /// The signal is discarded.
    Ignore,
    /// A handler that does nothing: the signal stays deliverable through
    /// `sigwait` without being discarded.
    Noop,
}

/// How a list of signals changes the calling thread's signal mask.
pub enum SigMask {
    Block,
    Unblock,
}

} // verus!
