use vstd::prelude::*;

verus! {

/// Where verbose diagnostics would be sent.  Purely a selector value:
/// the library itself performs no output.
#[derive(Debug, Clone, Copy, PartialEq, Eq, Structural)]
pub enum VerboseLoggingBackend {
    /// Discard messages.
    Noop,
    /// Standard output.
    Println,
    /// Standard error.
    EPrintln,
}

} // verus!
