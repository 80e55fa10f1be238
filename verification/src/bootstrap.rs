//! What has to be in place before the engine is first called: its panic and
//! log sinks, registered once for the whole process.

use vstd::prelude::*;

verus! {

/// Level with which the engine marks a trace message.
pub const LOG_TRACE: u32 = 8;

/// Level with which the engine marks an informational message.
pub const LOG_INFO: u32 = 9;

/// Level with which the engine marks an error message.
pub const LOG_ERROR: u32 = 10;

/// How loudly a message of the engine is passed on.
#[derive(Clone, Copy, Debug, PartialEq, Eq, Structural)]
pub enum Severity {
    Trace,
    Info,
    Error,
}

/// The severity of a message that the engine marked with `level`. A level
/// the engine does not define counts as informational.
pub open spec fn severity_of(level: u32) -> Severity {
    if level == LOG_TRACE {
        Severity::Trace
    } else if level == LOG_ERROR {
        Severity::Error
    } else {
        Severity::Info
    }
}

/// Chooses the severity with which a message of the engine is passed on.
pub fn severity(level: u32) -> (chosen: Severity)
    ensures
        chosen == severity_of(level),
{
    if level == LOG_TRACE {
        Severity::Trace
    } else if level == LOG_INFO {
        Severity::Info
    } else if level == LOG_ERROR {
        Severity::Error
    } else {
        Severity::Info
    }
}

/// Whether the sinks of this process are registered with the engine. One
/// value of this type stands for the whole process.
#[derive(Debug)]
pub struct Bootstrap {
    registered: bool,
}

impl Bootstrap {
    /// Whether the sinks are registered.
    pub closed spec fn registered(&self) -> bool {
        self.registered
    }

    /// The state of a process that has not called the engine yet.
    pub fn new() -> (boot: Bootstrap)
        ensures
            !boot.registered(),
    {
        Bootstrap { registered: false }
    }

    /// Whether the sinks are registered.
    #[verifier::when_used_as_spec(registered)]
    pub fn is_registered(&self) -> (registered: bool)
        ensures
            registered == self.registered(),
    {
        self.registered
    }

    /// Makes sure the sinks are registered before the call that is about to
    /// be made. Returns whether the caller has to register them now: `true`
    /// the first time, `false` ever after.
    pub fn ensure_initialized(&mut self) -> (register_now: bool)
        ensures
            final(self).registered(),
            register_now == !old(self).registered(),
    {
        let register_now = !self.registered;
        self.registered = true;
        register_now
    }
}

} // verus!
