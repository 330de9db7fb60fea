//! Signals of the operating system.

use vstd::prelude::*;

verus! {

/// What a signal asks of the server.
#[derive(Debug, Clone, Copy, PartialEq, Eq, Structural)]
pub enum Signal {
    Exit,
    Trigger,
}

/// The signals that the server listens to.
#[derive(Debug, Clone, Copy, PartialEq, Eq, Structural)]
pub enum SystemSignal {
    Terminate,
    Interrupt,
    UserDefined,
}

/// Tells what a signal asks of the server: to stop, or to look for news.
pub fn meaning(signal: SystemSignal) -> (meaning: Signal)
    ensures
        meaning == match signal {
            SystemSignal::Terminate => Signal::Exit,
            SystemSignal::Interrupt => Signal::Exit,
            SystemSignal::UserDefined => Signal::Trigger,
        },
{
    match signal {
        SystemSignal::Terminate => Signal::Exit,
        SystemSignal::Interrupt => Signal::Exit,
        SystemSignal::UserDefined => Signal::Trigger,
    }
}

} // verus!
