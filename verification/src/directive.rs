//! Window directives: the closed set of actions a handler can ask the host
//! windowing layer to perform.  Handlers never touch the window themselves;
//! they return one of these values and the unverified shell around the
//! library carries it out best-effort.

use vstd::prelude::*;

verus! {

/// Specification-level form of a directive, with the injected script as a
/// character sequence and the exit code as a mathematical integer.
pub enum DirectiveSpec {
    /// Show the main window, focus it, and evaluate a script in it.
    RevealAndRun { script: Seq<char> },
    /// Show the main window and focus it.
    Reveal,
    /// Terminate the process with the given exit code.
    Exit { code: int },
    /// Do nothing.
    Ignore,
}

/// What a handler asks the host windowing layer to do in response to one
/// event.  Every handler of this library is a total function from its event
/// to one of these values.
pub enum WindowDirective {
    /// Show the main window, focus it, and evaluate a script in it.
    RevealAndRun { script: String },
    /// Show the main window and focus it.
    Reveal,
    /// Terminate the process with the given exit code.
    Exit { code: i32 },
    /// Do nothing.
    Ignore,
}

impl View for WindowDirective {
    type V = DirectiveSpec;

    open spec fn view(&self) -> DirectiveSpec {
        match self {
            WindowDirective::RevealAndRun { script } => DirectiveSpec::RevealAndRun {
                script: script@,
            },
            WindowDirective::Reveal => DirectiveSpec::Reveal,
            WindowDirective::Exit { code } => DirectiveSpec::Exit { code: *code as int },
            WindowDirective::Ignore => DirectiveSpec::Ignore,
        }
    }
}

} // verus!
