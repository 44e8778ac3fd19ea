//! What the interpreter reports when a document breaks the format's rules.
//!
//! None of these ends a conversion. Each names a violation that was met and
//! recovered from: the offending token had no effect, or, for a control symbol
//! that is not understood, was passed through as text.

use vstd::prelude::*;

verus! {

/// How much weight a diagnostic carries.
#[derive(Clone, Copy, Debug, PartialEq, Eq, Structural)]
pub enum Severity {
    /// Worth noting, but the document did nothing wrong.
    Info,
    /// The document is malformed, or asks for something unsupported.
    Warning,
}

/// A violation of the document format that the interpreter met.
#[derive(Clone, Copy, Debug, PartialEq, Eq, Structural)]
pub enum Diagnostic {
    /// A group was closed that had never been opened.
    UnmatchedEndGroup,
    /// Text arrived while no group was open, or while the open group had no
    /// destination to receive it.
    TextOutsideGroup,
    /// A control symbol arrived while no group was open.
    ControlSymbolOutsideGroup,
    /// A control word arrived while no group was open.
    ControlWordOutsideGroup,
    /// A control symbol that is not understood was skipped, as the document
    /// allowed by marking it optional.
    OptionalSymbolSkipped,
    /// A control word that is not understood was skipped, as the document
    /// allowed by marking it optional.
    OptionalWordSkipped,
    /// A control symbol is not understood; it was written out as text.
    UnsupportedSymbol,
    /// A control word is not understood; it was dropped.
    UnsupportedWord,
    /// Text arrived for a text destination while no encoding was in force;
    /// it was dropped.
    NoEncoding,
}

impl Diagnostic {
    /// How much weight this diagnostic carries: skipping what the document
    /// marked optional is informational, everything else is a warning.
    pub open spec fn spec_severity(self) -> Severity {
        match self {
            Diagnostic::OptionalSymbolSkipped | Diagnostic::OptionalWordSkipped => Severity::Info,
            _ => Severity::Warning,
        }
    }

    /// How much weight this diagnostic carries.
    pub fn severity(&self) -> (severity: Severity)
        ensures
            severity == self.spec_severity(),
    {
        match self {
            Diagnostic::OptionalSymbolSkipped | Diagnostic::OptionalWordSkipped => Severity::Info,
            _ => Severity::Warning,
        }
    }
}

} // verus!
