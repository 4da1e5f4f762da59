//! The job-control signals and the disposition the interpreter and its
//! children give them.

use vstd::prelude::*;

verus! {

/// A signal the terminal driver uses for job control.
#[derive(Clone, Copy, Debug, PartialEq, Eq, Structural)]
pub enum JobSignal {
    /// Terminal stop, `SIGTSTP`.
    Tstp,
    /// Background read from the terminal, `SIGTTIN`.
    Ttin,
    /// Background write to the terminal, `SIGTTOU`.
    Ttou,
}

/// What a process does when a signal arrives.
#[derive(Clone, Copy, Debug, PartialEq, Eq, Structural)]
pub enum Disposition {
    /// The signal is discarded.
    Ignore,
    /// The system's default action is taken.
    Default,
}

/// One signal together with the disposition it is to be given.
#[derive(Clone, Copy, Debug, PartialEq, Eq, Structural)]
pub struct SignalSetting {
    /// The signal to set.
    pub signal: JobSignal,
    /// What the process is to do when it arrives.
    pub disposition: Disposition,
}

/// The settings that give every job-control signal the disposition `d`, in
/// the order in which they are applied.
pub open spec fn tty_signal_settings(d: Disposition) -> Seq<SignalSetting> {
    seq![
        SignalSetting { signal: JobSignal::Tstp, disposition: d },
        SignalSetting { signal: JobSignal::Ttin, disposition: d },
        SignalSetting { signal: JobSignal::Ttou, disposition: d },
    ]
}

/// Builds the settings of `tty_signal_settings(d)`.
pub fn tty_signals(d: Disposition) -> (settings: Vec<SignalSetting>)
    ensures
        settings@ == tty_signal_settings(d),
{
    let mut settings: Vec<SignalSetting> = Vec::new();
    settings.push(SignalSetting { signal: JobSignal::Tstp, disposition: d });
    settings.push(SignalSetting { signal: JobSignal::Ttin, disposition: d });
    settings.push(SignalSetting { signal: JobSignal::Ttou, disposition: d });
    settings
}

/// The settings the interpreter applies once, before its loop starts: every
/// job-control signal is ignored, so that the interpreter is never stopped
/// while a child owns the terminal.
pub fn ignore_tty_signals() -> (settings: Vec<SignalSetting>)
    ensures
        settings@ == tty_signal_settings(Disposition::Ignore),
{
    tty_signals(Disposition::Ignore)
}

/// The settings a freshly created child applies before anything else: every
/// job-control signal is back at its default, so that the program it becomes
/// can be stopped like any other foreground program.
pub fn restore_tty_signals() -> (settings: Vec<SignalSetting>)
    ensures
        settings@ == tty_signal_settings(Disposition::Default),
{
    tty_signals(Disposition::Default)
}

} // verus!
