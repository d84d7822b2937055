//! The fatal-error value that every failing bootstrap step produces and the
//! crash-recovery supervisor consumes.

use vstd::prelude::*;
use vstd::string::*;

verus! {

/// Classification of a fatal failure: bad, missing or unreadable
/// configuration; a failure attributable to one spawned block; or any other
/// unrecoverable condition out of the event loop.
#[derive(Debug, Clone, Copy, PartialEq, Eq, Structural)]
pub enum ErrorKind {
    Config,
    Block,
    Other,
}

/// A tagged fatal failure. It carries a human-readable message, the rendered
/// text of the causing error when there is one, and the identifier of the
/// originating block when the failure is block-scoped. It flows upward
/// without local recovery; its only consumer is the crash-recovery
/// supervisor.
#[derive(Debug, Clone)]
pub struct FatalError {
    pub kind: ErrorKind,
    pub message: Option<String>,
    pub cause: Option<String>,
    pub block: Option<String>,
}

/// The character sequences of an optional text.
pub open spec fn opt_text(o: Option<String>) -> Option<Seq<char>> {
    match o {
        Some(s) => Some(s@),
        None => None,
    }
}

impl FatalError {
    /// A configuration-kind failure carrying exactly this message and this
    /// cause, and no originating block.
    pub open spec fn is_config_error(
        self,
        message: Option<Seq<char>>,
        cause: Option<Seq<char>>,
    ) -> bool {
        &&& self.kind == ErrorKind::Config
        &&& opt_text(self.message) == message
        &&& opt_text(self.cause) == cause
        &&& self.block is None
    }

    /// The text under which this failure is shown: its message, or a fixed
    /// fallback word when the message is absent, with the cause appended.
    pub open spec fn display_text(self) -> Seq<char> {
        let base = match self.message {
            Some(m) => m@,
            None => "Error"@,
        };
        match self.cause {
            Some(c) => base + ". Cause: "@ + c@,
            None => base,
        }
    }

    /// Render the failure's visible text.
    pub fn to_text(&self) -> (r: String)
        ensures
            r@ == self.display_text(),
    {
        let mut out: String = match &self.message {
            Some(m) => m.clone(),
            None => String::from_str("Error"),
        };
        if let Some(c) = &self.cause {
            out.append(". Cause: ");
            out.append(c.as_str());
        }
        out
    }
}

} // verus!
