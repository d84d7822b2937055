//! The crash-recovery supervisor: a three-stage machine triggered by a fatal
//! error out of the bootstrap sequence or the event loop.
//!
//! Render: build the one Critical display unit whose text is the error's
//! message, escaped for the protocol's markup. Await: block until exactly
//! the designated restart signal is delivered; nothing else wakes the
//! machine. Replace: compute the argument vector for the in-place process
//! replacement — the original vector with the idempotency flag appended when
//! it is not already present.

use crate::errors::FatalError;
use crate::escape::{escaped_of, pango_escape};
use crate::restart;
use vstd::prelude::*;
use vstd::string::*;

verus! {

/// Severity markers of a display unit: the closed set the host protocol
/// understands. Error display uses `Critical`.
#[derive(Debug, Clone, Copy, PartialEq, Eq, Structural)]
pub enum Severity {
    Idle,
    Info,
    Good,
    Warning,
    Critical,
}

/// One protocol display unit: a text payload and a severity marker.
#[derive(Debug, Clone)]
pub struct DisplayUnit {
    pub text: String,
    pub severity: Severity,
}

/// The stages of crash recovery, in the only order they may be entered.
#[derive(Debug, Clone, Copy, PartialEq, Eq, Structural)]
pub enum RecoveryStage {
    Render,
    AwaitSignal,
    Replace,
}

/// The number of the designated restart signal: delivery of exactly this
/// signal, and of no other, wakes the supervisor (the second user-defined
/// signal on Linux).
pub open spec fn restart_signal() -> int {
    12
}

/// The restart signal's number as a runnable value.
pub fn restart_signal_number() -> (r: i32)
    ensures
        r == restart_signal(),
{
    12
}

/// The crash-recovery supervisor. Its stage only ever advances from
/// rendering to awaiting the signal to replacing the image: the error
/// render strictly precedes the signal wait, and the wait strictly precedes
/// the replacement.
#[derive(Debug, Clone, Copy)]
pub struct CrashRecovery {
    stage: RecoveryStage,
}

impl CrashRecovery {
    /// The stage the machine stands in.
    pub closed spec fn stage(self) -> RecoveryStage {
        self.stage
    }

    /// Enter recovery for a fatal error: the machine starts at the render
    /// stage.
    pub fn start() -> (r: CrashRecovery)
        ensures
            r.stage() == RecoveryStage::Render,
    {
        CrashRecovery { stage: RecoveryStage::Render }
    }

    /// Render stage: build the single Critical display unit whose text is
    /// the error's visible text, escaped for the protocol's markup. The
    /// machine then awaits the restart signal.
    pub fn render(&mut self, error: &FatalError) -> (unit: DisplayUnit)
        requires
            old(self).stage() == RecoveryStage::Render,
        ensures
            final(self).stage() == RecoveryStage::AwaitSignal,
            unit.severity == Severity::Critical,
            unit.text@ == escaped_of(error.display_text()),
    {
        let text = error.to_text();
        let escaped = pango_escape(text.as_str());
        self.stage = RecoveryStage::AwaitSignal;
        DisplayUnit { text: escaped, severity: Severity::Critical }
    }

    /// Await stage: decide whether a delivered signal wakes the machine.
    /// Only the designated restart signal does; any other signal leaves it
    /// waiting, with no timeout and no alternative exit.
    pub fn on_signal(&mut self, signal: i32) -> (woke: bool)
        requires
            old(self).stage() == RecoveryStage::AwaitSignal,
        ensures
            woke == (signal == restart_signal()),
            woke ==> final(self).stage() == RecoveryStage::Replace,
            !woke ==> final(self).stage() == RecoveryStage::AwaitSignal,
    {
        if signal == restart_signal_number() {
            self.stage = RecoveryStage::Replace;
            true
        } else {
            false
        }
    }

    /// Replace stage: the argument vector the replacement image is started
    /// with — the original invocation's vector, with the idempotency flag
    /// appended exactly when it is not already present.
    pub fn replacement_argv(&self, original: Vec<String>) -> (r: Vec<String>)
        requires
            self.stage() == RecoveryStage::Replace,
        ensures
            restart::views(r@) == restart::replacement_of(restart::views(original@)),
            restart::has_flag(restart::views(r@)),
    {
        let mut argv = original;
        restart::append_idempotency_flag(&mut argv);
        argv
    }
}

} // verus!
