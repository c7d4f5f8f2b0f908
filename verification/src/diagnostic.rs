//! Problems met during a run that do not stop it.

use vstd::prelude::*;

verus! {

/// A recorded problem: the source file it concerns, the line (counted from
/// one) where there is one, and a message.
#[derive(Debug, Clone)]
pub struct Diagnostic {
    pub path: String,
    pub line: Option<usize>,
    pub message: String,
}

/// The mathematical value of a [`Diagnostic`].
pub struct DiagnosticView {
    pub path: Seq<char>,
    pub line: Option<nat>,
    pub message: Seq<char>,
}

impl View for Diagnostic {
    type V = DiagnosticView;

    open spec fn view(&self) -> DiagnosticView {
        DiagnosticView {
            path: self.path@,
            line: match self.line {
                Some(n) => Some(n as nat),
                None => None,
            },
            message: self.message@,
        }
    }
}

/// The views of a sequence of diagnostics, in order.
pub open spec fn diagnostics_view(items: Seq<Diagnostic>) -> Seq<DiagnosticView> {
    items.map_values(|d: Diagnostic| d@)
}

/// The message recorded when a directive names a fragment that is not there.
pub open spec fn missing_message(name: Seq<char>) -> Seq<char> {
    "template "@ + name + " not found"@
}

/// The diagnostic for a missing fragment `name`, asked for at `line` of `path`.
pub open spec fn missing_fragment(path: Seq<char>, line: nat, name: Seq<char>) -> DiagnosticView {
    DiagnosticView { path, line: Some(line), message: missing_message(name) }
}

/// The diagnostic for a failure that concerns a whole file.
pub open spec fn file_failure(path: Seq<char>, message: Seq<char>) -> DiagnosticView {
    DiagnosticView { path, line: None, message }
}

impl Diagnostic {
    /// Builds the diagnostic for a missing fragment.
    pub fn missing(path: &str, line: usize, name: &str) -> (d: Diagnostic)
        ensures
            d@ == missing_fragment(path@, line as nat, name@),
    {
        let mut message = "template ".to_owned();
        message.append(name);
        message.append(" not found");
        Diagnostic { path: path.to_owned(), line: Some(line), message }
    }

    /// Builds the diagnostic for a failure that concerns a whole file.
    pub fn failure(path: &str, message: &str) -> (d: Diagnostic)
        ensures
            d@ == file_failure(path@, message@),
    {
        Diagnostic { path: path.to_owned(), line: None, message: message.to_owned() }
    }
}

} // verus!
